use vstd::prelude::*;
use vstd::string::*;
use crate::errors::{FileIterationError, ImapIterationError, IterationError, PreparationError};
use crate::paths::{current_imports, import_directory, join_path};

verus! {

/// The eml files of an import that are still to be read.
pub struct FileImport {
    eml_sources: Vec<String>,
}

impl View for FileImport {
    type V = Seq<Seq<char>>;

    /// The paths still to be read; they are handed out from the last one.
    closed spec fn view(&self) -> Seq<Seq<char>> {
        self.eml_sources@.map_values(|p: String| p@)
    }
}

impl FileImport {
    /// An import of the eml files at the given paths.
    pub fn new(eml_sources: Vec<String>) -> (r: FileImport)
        ensures
            r@ == eml_sources@.map_values(|p: String| p@),
    {
        FileImport { eml_sources }
    }

    /// The path of the next eml file to read: the last of the remaining
    /// ones, which is then no longer remaining; the end of the source once
    /// none is left.
    pub fn next_eml_source(&mut self) -> (r: Result<String, FileIterationError>)
        ensures
            old(self)@.len() == 0 ==> r == Err::<String, FileIterationError>(FileIterationError::SourceEnd)
                && final(self)@ == old(self)@,
            old(self)@.len() > 0 ==> (r matches Ok(p) && p@ == old(self)@.last()
                && final(self)@ == old(self)@.drop_last()),
    {
        match self.eml_sources.pop() {
            Some(p) => {
                assert(self@ =~= old(self)@.drop_last());
                Ok(p)
            },
            None => Err(FileIterationError::SourceEnd),
        }
    }

    /// The directory in which the files and the state of the import into a
    /// mailbox are kept: `<config>/current_imports/<mailbox id>`.
    pub fn make_import_directory(config_directory: &str, mailbox_id: &str) -> (r: String)
        ensures
            r@ == import_directory(config_directory@, mailbox_id@),
    {
        proof {
            reveal_strlit("current_imports");
        }
        let imports = join_path(config_directory, "current_imports");
        assert("current_imports"@ =~= current_imports());
        join_path(imports.as_str(), mailbox_id)
    }

    /// The number of eml files still to be read.
    pub fn remaining(&self) -> (r: usize)
        ensures
            r == self@.len(),
    {
        self.eml_sources.len()
    }
}

/// What `k` calls of `next_eml_source` do to a file import whose
/// remaining paths are `sources`, one call at a time as its contract says:
/// the paths handed out, in order, and the paths still remaining.
pub open spec fn after_calls(sources: Seq<Seq<char>>, k: nat) -> (Seq<Seq<char>>, Seq<Seq<char>>)
    decreases k,
{
    if k == 0 {
        (Seq::empty(), sources)
    } else {
        let (handed, remaining) = after_calls(sources, (k - 1) as nat);
        if remaining.len() == 0 {
            (handed, remaining)
        } else {
            (handed.push(remaining.last()), remaining.drop_last())
        }
    }
}

/// The eml files of an import are handed out from the last to the first:
/// after `k` calls, the first `k` paths from the end have been handed out in
/// that order and the others remain; after as many calls as there are paths,
/// every path has been handed out exactly once (the paths reversed) and
/// every further call ends the source.
pub proof fn lemma_sources_handed_out_last_to_first(sources: Seq<Seq<char>>, k: nat)
    ensures
        k <= sources.len() ==> after_calls(sources, k) == (
            sources.reverse().take(k as int),
            sources.take(sources.len() - k),
        ),
        k >= sources.len() ==> after_calls(sources, k) == (sources.reverse(), Seq::<Seq<char>>::empty()),
    decreases k,
{
    let n = sources.len();
    if k == 0 {
        assert(sources.reverse().take(0) =~= Seq::<Seq<char>>::empty());
        assert(sources.take(n as int) =~= sources);
        if n == 0 {
            assert(sources.reverse() =~= Seq::<Seq<char>>::empty());
        }
    } else {
        lemma_sources_handed_out_last_to_first(sources, (k - 1) as nat);
        if k <= n {
            let remaining = sources.take(n - (k - 1));
            assert(remaining.last() == sources[n - k]);
            assert(sources.reverse()[k - 1] == sources[n - k]);
            assert(sources.reverse().take(k - 1).push(remaining.last()) =~= sources.reverse().take(k as int));
            assert(remaining.drop_last() =~= sources.take(n - k));
        } else {
            assert(sources.reverse().take(n as int) =~= sources.reverse());
            assert(sources.take(0) =~= Seq::<Seq<char>>::empty());
        }
    }
}

/// The error is the end of its source: all mails have been handed out.
pub open spec fn is_end_of_source(error: IterationError) -> bool {
    error == IterationError::File(FileIterationError::SourceEnd)
        || error == IterationError::Imap(ImapIterationError::SourceEnd)
}

/// Whether the error is the end of its source.
pub fn reached_end_of_source(error: &IterationError) -> (r: bool)
    ensures
        r == is_end_of_source(*error),
        r <==> (*error == IterationError::File(FileIterationError::SourceEnd)
            || *error == IterationError::Imap(ImapIterationError::SourceEnd)),
{
    match error {
        IterationError::File(FileIterationError::SourceEnd) => true,
        IterationError::Imap(ImapIterationError::SourceEnd) => true,
        _ => false,
    }
}

/// What an import source hands to the chunking after fetching its next
/// mail: the mail, or nothing once the source has ended. Any other error of
/// the source cannot be handled here, so it must not be passed in.
pub fn next_importable<T>(fetched: Result<T, IterationError>) -> (r: Option<T>)
    requires
        fetched matches Err(e) ==> is_end_of_source(e),
    ensures
        match fetched {
            Ok(mail) => r == Some(mail),
            Err(_) => r is None,
        },
{
    match fetched {
        Ok(mail) => Some(mail),
        Err(_) => None,
    }
}

/// The messages of an mbox file, as `mail_parser`'s mbox reader splits
/// them, each as the bytes of one eml file; `None` if the reader reports
/// an error.
pub uninterp spec fn mbox_messages(mbox: Seq<u8>) -> Option<Seq<Seq<u8>>>;

/// Splits an mbox file with `mail_parser::mailbox::mbox::MessageIterator`
/// and keeps the contents of each message. The result is trusted to be what
/// that reader yields for these bytes (`mbox_messages`).
#[verifier::external_body]
fn split_mbox(mbox: &[u8]) -> (r: Option<Vec<Vec<u8>>>)
    ensures
        match r {
            Some(messages) => mbox_messages(mbox@) == Some(
                messages@.map_values(|m: Vec<u8>| m@),
            ),
            None => mbox_messages(mbox@) is None,
        },
{
    mail_parser::mailbox::mbox::MessageIterator::new(mbox)
        .map(|message| message.ok().map(|message| message.contents().to_vec()))
        .collect()
}

/// Whether `mail_parser`'s default `MessageParser` finds a message in the
/// bytes.
pub uninterp spec fn parses_as_message(eml: Seq<u8>) -> bool;

/// Parses the bytes with `mail_parser::MessageParser::default().parse`.
/// Trusted: the result says whether that parser finds a message in them
/// (`parses_as_message`).
#[verifier::external_body]
fn parse_eml(eml: &[u8]) -> (r: bool)
    ensures
        r == parses_as_message(eml@),
{
    mail_parser::MessageParser::default().parse(eml).is_some()
}

/// The eml file read from `path` can be imported when its contents parse as
/// a message; otherwise it is a parse error for that path.
pub fn importable_eml(path: String, contents: &[u8]) -> (r: Result<String, FileIterationError>)
    ensures
        parses_as_message(contents@) ==> r == Ok::<String, FileIterationError>(path),
        !parses_as_message(contents@) ==> r == Err::<String, FileIterationError>(
            FileIterationError::ParseError(path),
        ),
{
    if parse_eml(contents) {
        Ok(path)
    } else {
        Err(FileIterationError::ParseError(path))
    }
}

/// The eml files that an mbox file becomes: one per message, in the order
/// of the file; an mbox that cannot be read is not a valid email file.
pub fn mbox_to_emls(mbox: &[u8]) -> (r: Result<Vec<Vec<u8>>, PreparationError>)
    ensures
        match r {
            Ok(emls) => mbox_messages(mbox@) == Some(emls@.map_values(|m: Vec<u8>| m@)),
            Err(e) => e == PreparationError::NotAValidEmailFile && mbox_messages(mbox@) is None,
        },
{
    match split_mbox(mbox) {
        Some(messages) => Ok(messages),
        None => Err(PreparationError::NotAValidEmailFile),
    }
}

} // verus!
