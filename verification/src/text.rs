//! Splitting text on single spaces, the way an installed-entry key
//! `"<name> <version> (<source>)"` is taken apart field by field.

use vstd::prelude::*;
use vstd::string::StrSliceExecFns;

verus! {

/// Index of the first space in `s`, or `s.len()` when `s` holds none.
pub open spec fn space_offset(s: Seq<char>) -> nat
    decreases s.len(),
{
    if s.len() == 0 {
        0
    } else if s[0] == ' ' {
        0
    } else {
        1 + space_offset(s.drop_first())
    }
}

/// `s` split on every single space, empty fields kept: the spec-level
/// counterpart of splitting a string on the one-space separator.
pub open spec fn split_on_spaces(s: Seq<char>) -> Seq<Seq<char>>
    decreases s.len(),
{
    let j = space_offset(s);
    if j >= s.len() {
        seq![s]
    } else {
        seq![s.subrange(0, j as int)] + split_on_spaces(s.skip(j as int + 1))
    }
}

pub proof fn lemma_space_offset_le(s: Seq<char>)
    ensures
        space_offset(s) <= s.len(),
    decreases s.len(),
{
    if s.len() > 0 && s[0] != ' ' {
        lemma_space_offset_le(s.drop_first());
    }
}

/// `space_offset` names the first space: everything before it is not a
/// space, and the offset itself (when inside the text) is one.
pub proof fn lemma_space_offset_first(s: Seq<char>)
    ensures
        forall|k: int| 0 <= k < space_offset(s) && k < s.len() ==> s[k] != ' ',
        space_offset(s) < s.len() ==> s[space_offset(s) as int] == ' ',
    decreases s.len(),
{
    if s.len() > 0 && s[0] != ' ' {
        lemma_space_offset_first(s.drop_first());
        assert forall|k: int| 0 <= k < space_offset(s) && k < s.len() implies s[k] != ' ' by {
            if k > 0 {
                assert(s.drop_first()[k - 1] == s[k]);
            }
        }
    }
}

/// A first space found by scanning pins `space_offset` down exactly.
pub proof fn lemma_space_offset_unique(s: Seq<char>, i: int)
    requires
        0 <= i <= s.len(),
        forall|k: int| 0 <= k < i ==> s[k] != ' ',
        i < s.len() ==> s[i] == ' ',
    ensures
        space_offset(s) == i,
{
    lemma_space_offset_le(s);
    lemma_space_offset_first(s);
    let j = space_offset(s) as int;
    if j < i {
        assert(s[j] == ' ');
    }
    if i < j {
        assert(s[i] != ' ');
    }
}

pub proof fn lemma_split_first(s: Seq<char>)
    ensures
        split_on_spaces(s).len() >= 1,
        split_on_spaces(s)[0] == s.subrange(0, space_offset(s) as int),
{
    lemma_space_offset_le(s);
    if space_offset(s) >= s.len() {
        assert(s.subrange(0, s.len() as int) =~= s);
    }
}

/// The key has a second field exactly when it holds a space, and that
/// field runs from just past the first space up to the next one (or the end).
pub proof fn lemma_split_second(s: Seq<char>)
    ensures
        split_on_spaces(s).len() >= 2 <==> space_offset(s) < s.len(),
        space_offset(s) < s.len() ==> {
            let rest = s.skip(space_offset(s) as int + 1);
            split_on_spaces(s)[1] == rest.subrange(0, space_offset(rest) as int)
        },
{
    lemma_space_offset_le(s);
    if space_offset(s) < s.len() {
        let rest = s.skip(space_offset(s) as int + 1);
        lemma_split_first(rest);
        assert(split_on_spaces(s)[1] == split_on_spaces(rest)[0]);
    }
}

/// First space of `s` at position `from` or later, scanning left to right.
pub fn find_space_from(s: &str, from: usize) -> (r: Option<usize>)
    requires
        from <= s@.len(),
    ensures
        match r {
            Some(i) => {
                &&& from <= i < s@.len()
                &&& s@[i as int] == ' '
                &&& forall|k: int| from <= k < i ==> s@[k] != ' '
            },
            None => forall|k: int| from <= k < s@.len() ==> s@[k] != ' ',
        },
{
    let n = s.unicode_len();
    let mut i: usize = from;
    while i < n
        invariant
            from <= i <= n,
            n == s@.len(),
            forall|k: int| from <= k < i ==> s@[k] != ' ',
        decreases n - i,
    {
        if s.get_char(i) == ' ' {
            return Some(i);
        }
        i = i + 1;
    }
    None
}

} // verus!
