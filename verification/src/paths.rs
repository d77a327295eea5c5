use vstd::prelude::*;
use vstd::string::*;
use crate::decimal::{decimal, to_decimal, lemma_decimal_injective};

verus! {

// Paths are handled as text with '/' as separator.

/// `component` appended to `base` the way a path buffer pushes a component:
/// an absolute component replaces the base; otherwise a separator is put
/// between them unless the base is empty or already ends in one.
pub open spec fn joined(base: Seq<char>, component: Seq<char>) -> Seq<char> {
    if component.len() > 0 && component[0] == '/' {
        component
    } else if base.len() > 0 && base.last() != '/' {
        base + seq!['/'] + component
    } else {
        base + component
    }
}

/// Appends the path `component` to the path `base`.
pub fn join_path(base: &str, component: &str) -> (r: String)
    ensures
        r@ == joined(base@, component@),
{
    let base_len = base.unicode_len();
    let component_len = component.unicode_len();
    if component_len > 0 && component.get_char(0) == '/' {
        String::from_str(component)
    } else if base_len > 0 && base.get_char(base_len - 1) != '/' {
        let mut r = String::from_str(base);
        proof {
            reveal_strlit("/");
        }
        r.append("/");
        r.append(component);
        r
    } else {
        let mut r = String::from_str(base);
        r.append(component);
        r
    }
}

/// Joining keeps both parts: a component that is not absolute ends the
/// result and the base begins it, with exactly one separator put between
/// them when the base is not empty and does not already end in one; an
/// absolute component is the whole result.
pub proof fn lemma_joined_keeps_both_parts(base: Seq<char>, component: Seq<char>)
    ensures
        component.len() > 0 && component[0] == '/' ==> joined(base, component) == component,
        !(component.len() > 0 && component[0] == '/') ==> {
            let r = joined(base, component);
            let sep = base.len() > 0 && base.last() != '/';
            &&& r.len() == base.len() + component.len() + (if sep { 1int } else { 0int })
            &&& r.subrange(0, base.len() as int) == base
            &&& r.subrange(r.len() - component.len(), r.len() as int) == component
            &&& sep ==> r[base.len() as int] == '/'
        },
{
    if !(component.len() > 0 && component[0] == '/') {
        let r = joined(base, component);
        assert(r.subrange(0, base.len() as int) =~= base);
        assert(r.subrange(r.len() - component.len(), r.len() as int) =~= component);
    }
}

/// The name of the directory, below the configuration directory, that holds
/// the directories of the imports in progress.
pub open spec fn current_imports() -> Seq<char> {
    seq!['c', 'u', 'r', 'r', 'e', 'n', 't', '_', 'i', 'm', 'p', 'o', 'r', 't', 's']
}

/// The import directory of a mailbox: `<config>/current_imports/<mailbox id>`.
pub open spec fn import_directory(config_directory: Seq<char>, mailbox_id: Seq<char>) -> Seq<char> {
    joined(joined(config_directory, current_imports()), mailbox_id)
}

/// Two mailboxes whose ids are not absolute paths have distinct import
/// directories under the same configuration directory.
pub proof fn lemma_import_directories_distinct(config_directory: Seq<char>, a: Seq<char>, b: Seq<char>)
    requires
        a != b,
        !(a.len() > 0 && a[0] == '/'),
        !(b.len() > 0 && b[0] == '/'),
    ensures
        import_directory(config_directory, a) != import_directory(config_directory, b),
{
    let base = joined(config_directory, current_imports());
    assert(current_imports()[0] == 'c');
    assert(base.len() > 0 && base.last() == 's');
    let da = import_directory(config_directory, a);
    let db = import_directory(config_directory, b);
    assert(da == base + seq!['/'] + a);
    assert(db == base + seq!['/'] + b);
    if da == db {
        assert(a =~= da.subrange(base.len() as int + 1, da.len() as int));
        assert(b =~= db.subrange(base.len() as int + 1, db.len() as int));
    }
}

/// The name of the `index`-th eml file of an import: `<index>.eml`.
pub open spec fn eml_file_name(index: nat) -> Seq<char> {
    decimal(index) + seq!['.', 'e', 'm', 'l']
}

/// Distinct indices give distinct eml file names, so no file of an import
/// overwrites another one.
pub proof fn lemma_eml_file_names_distinct(a: nat, b: nat)
    requires
        a != b,
    ensures
        eml_file_name(a) != eml_file_name(b),
{
    lemma_decimal_injective(a, b);
    if eml_file_name(a) == eml_file_name(b) {
        let na = eml_file_name(a);
        assert(decimal(a) =~= na.subrange(0, na.len() - 4));
        assert(decimal(b) =~= na.subrange(0, na.len() - 4));
    }
}

/// Hands out the names of the eml files of an import: `0.eml`, `1.eml`, ...
#[derive(Debug, Clone, Copy, PartialEq, Eq, Structural)]
pub struct EmlFileNamer {
    /// index of the next name
    pub next_index: u64,
}

impl EmlFileNamer {
    /// A namer whose first name is `0.eml`.
    pub fn new() -> (r: EmlFileNamer)
        ensures
            r.next_index == 0,
    {
        EmlFileNamer { next_index: 0 }
    }

    /// The next name; the following call gives the name with the next index.
    pub fn next_file_name(&mut self) -> (r: String)
        requires
            old(self).next_index < u64::MAX,
        ensures
            r@ == eml_file_name(old(self).next_index as nat),
            final(self).next_index == old(self).next_index + 1,
    {
        let mut r = to_decimal(self.next_index);
        proof {
            reveal_strlit(".eml");
        }
        r.append(".eml");
        self.next_index = self.next_index + 1;
        r
    }
}

/// The extension of a path as `std::path::Path::extension` finds it.
pub uninterp spec fn path_extension(path: Seq<char>) -> Option<Seq<char>>;

/// Calls `std::path::Path::extension` on the path; the result is trusted to
/// be what that function returns for it (`path_extension`), as text.
#[verifier::external_body]
fn extension_of(path: &str) -> (r: Option<String>)
    ensures
        match r {
            Some(e) => path_extension(path@) == Some(e@),
            None => path_extension(path@) is None,
        },
{
    std::path::Path::new(path).extension().and_then(|e| e.to_str()).map(|e| e.to_string())
}

/// The kinds of files that an import accepts.
#[derive(Debug, Clone, Copy, PartialEq, Eq, Structural)]
pub enum SourceFileKind {
    /// a mailbox file holding many mails
    Mbox,
    /// a file holding one mail
    Eml,
    /// anything else; it is skipped
    Other,
}

/// The kind of a file with the given extension: `mbox` and `eml` are known,
/// anything else is skipped.
pub open spec fn kind_of_extension(extension: Option<Seq<char>>) -> SourceFileKind {
    if extension == Some(seq!['m', 'b', 'o', 'x']) {
        SourceFileKind::Mbox
    } else if extension == Some(seq!['e', 'm', 'l']) {
        SourceFileKind::Eml
    } else {
        SourceFileKind::Other
    }
}

/// The kind of the file at `path`, by its extension.
pub fn classify_source(path: &str) -> (r: SourceFileKind)
    ensures
        r == kind_of_extension(path_extension(path@)),
        r == SourceFileKind::Mbox <==> path_extension(path@) == Some(seq!['m', 'b', 'o', 'x']),
        r == SourceFileKind::Eml <==> path_extension(path@) == Some(seq!['e', 'm', 'l']),
{
    match extension_of(path) {
        Some(e) => {
            proof {
                reveal_strlit("mbox");
                reveal_strlit("eml");
            }
            let mbox = String::from_str("mbox");
            let eml = String::from_str("eml");
            assert("mbox"@ =~= seq!['m', 'b', 'o', 'x']);
            assert("eml"@ =~= seq!['e', 'm', 'l']);
            if e == mbox {
                SourceFileKind::Mbox
            } else if e == eml {
                SourceFileKind::Eml
            } else {
                SourceFileKind::Other
            }
        },
        None => SourceFileKind::Other,
    }
}

/// Whether the file at `path` is an eml file, by its extension.
pub fn is_eml_file(path: &str) -> (r: bool)
    ensures
        r == (path_extension(path@) == Some(seq!['e', 'm', 'l'])),
{
    match classify_source(path) {
        SourceFileKind::Eml => true,
        _ => false,
    }
}

} // verus!
