//! Comparisons of device names and paths.

use vstd::prelude::*;

verus! {

/// Compares two string slices with `<str as PartialEq>::eq`, which std
/// documents as equality of their contents.
#[verifier::external_body]
pub(crate) fn str_eq(a: &str, b: &str) -> (r: bool)
    ensures
        r == (a@ == b@),
{
    a == b
}

/// Whether `name` is one of the names in `list`.
pub open spec fn lists_name(list: Seq<String>, name: Seq<char>) -> bool {
    exists|i: int| 0 <= i < list.len() && #[trigger] list[i]@ == name
}

/// Whether `name` is one of the names in `list`.
pub fn list_contains(list: &Vec<String>, name: &str) -> (r: bool)
    ensures
        r == lists_name(list@, name@),
{
    let mut i: usize = 0;
    while i < list.len()
        invariant
            i <= list@.len(),
            forall|j: int| 0 <= j < i ==> #[trigger] list@[j]@ != name@,
        decreases list@.len() - i,
    {
        if str_eq(list[i].as_str(), name) {
            return true;
        }
        i = i + 1;
    }
    false
}

/// No name is on the empty list; a list with one more entry holds a name
/// exactly when the shorter list holds it or the new entry is that name.
/// So a name is found at any position, whatever the order of the list.
pub proof fn law_lists_name(list: Seq<String>, entry: String, name: Seq<char>)
    ensures
        !lists_name(Seq::<String>::empty(), name),
        lists_name(list.push(entry), name) == (lists_name(list, name) || entry@ == name),
        lists_name(seq![entry] + list, name) == (lists_name(list, name) || entry@ == name),
{
    let pushed = list.push(entry);
    if lists_name(list, name) {
        let i = choose|i: int| 0 <= i < list.len() && #[trigger] list[i]@ == name;
        assert(pushed[i] == list[i]);
        assert((seq![entry] + list)[i + 1] == list[i]);
    }
    if entry@ == name {
        assert(pushed[list.len() as int] == entry);
        assert((seq![entry] + list)[0] == entry);
    }
    if lists_name(pushed, name) {
        let i = choose|i: int| 0 <= i < pushed.len() && #[trigger] pushed[i]@ == name;
        if i < list.len() {
            assert(list[i] == pushed[i]);
        }
    }
    let front = seq![entry] + list;
    if lists_name(front, name) {
        let i = choose|i: int| 0 <= i < front.len() && #[trigger] front[i]@ == name;
        if i > 0 {
            assert(list[i - 1] == front[i]);
        }
    }
}

} // verus!
