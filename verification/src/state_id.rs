use vstd::prelude::*;
use vstd::string::*;

verus! {

/// Id of the import state that the server keeps for an import: the id of
/// its list and the id of the element in that list.
#[derive(Debug, Clone, PartialEq)]
pub struct ImportMailStateId {
    pub list_id: String,
    pub element_id: String,
}

/// The character that separates the two ids in the local state file.
pub open spec fn separator() -> char {
    '/'
}

/// `s` holds no separator.
pub open spec fn has_no_separator(s: Seq<char>) -> bool {
    forall|i: int| 0 <= i < s.len() ==> s[i] != separator()
}

/// The text of the local state file for the id made of `list_id` and `element_id`.
pub open spec fn state_file_text(list_id: Seq<char>, element_id: Seq<char>) -> Seq<char> {
    list_id + seq![separator()] + element_id
}

/// `content` is the state file text of the id made of `list_id` and `element_id`,
/// and neither id holds a separator.
pub open spec fn is_state_file_of(content: Seq<char>, list_id: Seq<char>, element_id: Seq<char>) -> bool {
    &&& has_no_separator(list_id)
    &&& has_no_separator(element_id)
    &&& content == state_file_text(list_id, element_id)
}

/// The two ids that a state file text holds, if it is one.
pub open spec fn parsed_state_file(content: Seq<char>) -> Option<(Seq<char>, Seq<char>)> {
    if exists|l: Seq<char>, e: Seq<char>| is_state_file_of(content, l, e) {
        Some(choose|l: Seq<char>, e: Seq<char>| is_state_file_of(content, l, e))
    } else {
        None
    }
}

/// A state file text splits in at most one way into two ids.
pub proof fn lemma_state_file_split_unique(
    content: Seq<char>,
    l1: Seq<char>,
    e1: Seq<char>,
    l2: Seq<char>,
    e2: Seq<char>,
)
    requires
        is_state_file_of(content, l1, e1),
        is_state_file_of(content, l2, e2),
    ensures
        l1 == l2,
        e1 == e2,
{
    assert(content[l1.len() as int] == separator());
    assert(content[l2.len() as int] == separator());
    if l1.len() < l2.len() {
        assert(content[l1.len() as int] == l2[l1.len() as int]);
        assert(false);
    }
    if l2.len() < l1.len() {
        assert(content[l2.len() as int] == l1[l2.len() as int]);
        assert(false);
    }
    assert(l1 =~= content.subrange(0, l1.len() as int));
    assert(l2 =~= content.subrange(0, l2.len() as int));
    assert(e1 =~= content.subrange(l1.len() as int + 1, content.len() as int));
    assert(e2 =~= content.subrange(l2.len() as int + 1, content.len() as int));
}

impl ImportMailStateId {
    /// The text that the local state file holds for this id:
    /// the list id, a slash, the element id.
    pub fn state_file_contents(&self) -> (r: String)
        ensures
            r@ == state_file_text(self.list_id@, self.element_id@),
    {
        let mut r = self.list_id.clone();
        proof {
            reveal_strlit("/");
        }
        r.append("/");
        r.append(self.element_id.as_str());
        r
    }

    /// Reads an id back from the text of a local state file: the text must
    /// hold exactly one slash, which separates the list id from the element
    /// id. Any other text is not a state file.
    pub fn parse_state_file(content: &str) -> (r: Option<ImportMailStateId>)
        ensures
            match r {
                Some(id) => parsed_state_file(content@) == Some((id.list_id@, id.element_id@)),
                None => parsed_state_file(content@) is None,
            },
    {
        let n = content.unicode_len();
        let mut i: usize = 0;
        let mut slashes: usize = 0;
        let mut pos: usize = 0;
        while i < n
            invariant
                n == content@.len(),
                i <= n,
                slashes <= i,
                slashes == 0 ==> forall|k: int| 0 <= k < i ==> content@[k] != separator(),
                slashes >= 1 ==> pos < i && content@[pos as int] == separator(),
                slashes == 1 ==> forall|k: int| 0 <= k < i && k != pos ==> content@[k] != separator(),
                slashes >= 2 ==> exists|k: int| 0 <= k < i && k != pos && content@[k] == separator(),
            decreases n - i,
        {
            let c = content.get_char(i);
            if c == '/' {
                if slashes == 0 {
                    pos = i;
                }
                if slashes < 2 {
                    slashes = slashes + 1;
                }
            }
            i = i + 1;
        }
        if slashes == 1 {
            let list_id = content.substring_char(0, pos);
            let element_id = content.substring_char(pos + 1, n);
            let id = ImportMailStateId {
                list_id: String::from_str(list_id),
                element_id: String::from_str(element_id),
            };
            assert(content@ =~= id.list_id@ + seq![separator()] + id.element_id@);
            proof {
                assert(is_state_file_of(content@, id.list_id@, id.element_id@));
                let (l, e) = choose|l: Seq<char>, e: Seq<char>| is_state_file_of(content@, l, e);
                lemma_state_file_split_unique(content@, l, e, id.list_id@, id.element_id@);
            }
            Some(id)
        } else {
            proof {
                assert forall|l: Seq<char>, e: Seq<char>| !is_state_file_of(content@, l, e) by {
                    if is_state_file_of(content@, l, e) {
                        assert(content@[l.len() as int] == separator());
                        if slashes == 0 {
                            assert(content@[l.len() as int] != separator());
                        } else {
                            let k = choose|k: int| 0 <= k < n && k != pos && content@[k] == separator();
                            if k < l.len() {
                                assert(content@[k] == l[k]);
                            } else if k > l.len() {
                                assert(content@[k] == e[k - l.len() - 1]);
                            }
                            if pos < l.len() {
                                assert(content@[pos as int] == l[pos as int]);
                            } else if pos > l.len() {
                                assert(content@[pos as int] == e[pos - l.len() - 1]);
                            }
                        }
                    }
                }
            }
            None
        }
    }
}

/// Writing an id to the state file and reading the file back gives the id
/// again, for every id whose two parts hold no slash.
pub proof fn lemma_state_file_round_trip(list_id: Seq<char>, element_id: Seq<char>)
    requires
        has_no_separator(list_id),
        has_no_separator(element_id),
    ensures
        parsed_state_file(state_file_text(list_id, element_id)) == Some((list_id, element_id)),
{
    let content = state_file_text(list_id, element_id);
    assert(is_state_file_of(content, list_id, element_id));
    let (l, e) = choose|l: Seq<char>, e: Seq<char>| is_state_file_of(content, l, e);
    lemma_state_file_split_unique(content, l, e, list_id, element_id);
}

} // verus!
