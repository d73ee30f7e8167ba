use vstd::prelude::*;
use vstd::string::*;

use crate::error::EcsError;

verus! {

/// The separator of a hierarchical identifier.
pub open spec fn is_separator(c: char) -> bool {
    c == '/'
}

/// `s` holds at least one separator.
pub open spec fn has_separator(s: Seq<char>) -> bool {
    exists|i: int| 0 <= i < s.len() && is_separator(#[trigger] s[i])
}

/// `i` is the position of the first separator of `s`.
pub open spec fn first_separator_at(s: Seq<char>, i: int) -> bool {
    &&& 0 <= i < s.len()
    &&& is_separator(s[i])
    &&& forall|j: int| 0 <= j < i ==> !is_separator(#[trigger] s[j])
}

/// The part before the first separator of `s`.
pub open spec fn prefix_of(s: Seq<char>) -> Seq<char> {
    let i = choose|i: int| first_separator_at(s, i);
    s.subrange(0, i)
}

/// The part after the first separator of `s`.
pub open spec fn display_name_of(s: Seq<char>) -> Seq<char> {
    let i = choose|i: int| first_separator_at(s, i);
    s.subrange(i + 1, s.len() as int)
}

/// A hierarchical identifier `prefix/name`, split at its first separator.
#[derive(Debug, Clone, PartialEq, Eq)]
pub struct Identifier {
    pub prefix: String,
    pub name: String,
}

/// Splits `id` at its first `/` into a prefix and a display name.
pub fn parse_identifier(id: &str) -> (r: Result<Identifier, EcsError>)
    ensures
        match r {
            Ok(p) => {
                &&& has_separator(id@)
                &&& p.prefix@ == prefix_of(id@)
                &&& p.name@ == display_name_of(id@)
            },
            Err(e) => {
                &&& !has_separator(id@)
                &&& e is ParseError
                &&& e->ParseError_0@ == id@
            },
        },
{
    let n = id.unicode_len();
    let mut i: usize = 0;
    while i < n
        invariant
            n == id@.len(),
            i <= n,
            forall|j: int| 0 <= j < i ==> !is_separator(#[trigger] id@[j]),
        decreases n - i,
    {
        if id.get_char(i) == '/' {
            proof {
                assert(first_separator_at(id@, i as int));
                lemma_first_separator_unique(id@, i as int);
            }
            let prefix = String::from_str(id.substring_char(0, i));
            let name = String::from_str(id.substring_char(i + 1, n));
            return Ok(Identifier { prefix, name });
        }
        i = i + 1;
    }
    Err(EcsError::ParseError(String::from_str(id)))
}

/// The first separator of a sequence is the one that `prefix_of` and
/// `display_name_of` split at.
pub proof fn lemma_first_separator_unique(s: Seq<char>, i: int)
    requires
        first_separator_at(s, i),
    ensures
        has_separator(s),
        (choose|k: int| first_separator_at(s, k)) == i,
        prefix_of(s) == s.subrange(0, i),
        display_name_of(s) == s.subrange(i + 1, s.len() as int),
{
    assert(is_separator(s[i]));
    let k = choose|k: int| first_separator_at(s, k);
    assert(first_separator_at(s, k));
    if k < i {
        assert(!is_separator(s[k]));
    }
    if i < k {
        assert(!is_separator(s[i]));
    }
}

/// Whether two strings hold the same characters.
pub fn str_equal(a: &str, b: &str) -> (r: bool)
    ensures
        r == (a@ == b@),
{
    let n = a.unicode_len();
    if n != b.unicode_len() {
        return false;
    }
    let mut i: usize = 0;
    while i < n
        invariant
            n == a@.len(),
            n == b@.len(),
            i <= n,
            forall|j: int| 0 <= j < i ==> a@[j] == b@[j],
        decreases n - i,
    {
        if a.get_char(i) != b.get_char(i) {
            return false;
        }
        i = i + 1;
    }
    assert(a@ =~= b@);
    true
}

} // verus!
