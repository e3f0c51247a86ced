//! Helpers that carry the view of a value through the containers of std.

use vstd::prelude::*;

verus! {

/// The views of the items of a sequence, in order.
pub open spec fn view_all<T: View>(s: Seq<T>) -> Seq<T::V> {
    s.map_values(|x: T| x@)
}

/// The view of what an `Option` holds.
pub open spec fn option_view<T: View>(o: Option<T>) -> Option<T::V> {
    match o {
        Some(t) => Some(t@),
        None => None,
    }
}

/// The view of what a `Result` holds, on either side.
pub open spec fn result_view<T: View, E: View>(r: Result<T, E>) -> Result<T::V, E::V> {
    match r {
        Ok(t) => Ok(t@),
        Err(e) => Err(e@),
    }
}

/// The views of a sequence grown by one item are the views grown by that
/// item's view.
pub proof fn lemma_view_all_push<T: View>(s: Seq<T>, x: T)
    ensures
        view_all(s.push(x)) == view_all(s).push(x@),
{
    assert(view_all(s.push(x)) =~= view_all(s).push(x@));
}

/// The views of no items are no views.
pub proof fn lemma_view_all_empty<T: View>()
    ensures
        view_all(Seq::<T>::empty()) == Seq::<T::V>::empty(),
{
    assert(view_all(Seq::<T>::empty()) =~= Seq::<T::V>::empty());
}

/// A copy of a string.
pub fn copy_string(s: &String) -> (r: String)
    ensures
        r@ == s@,
{
    s.clone()
}

/// A copy of a string that may be absent.
pub fn copy_optional_string(s: &Option<String>) -> (r: Option<String>)
    ensures
        option_view(r) == option_view(*s),
{
    match s {
        Some(t) => Some(t.clone()),
        None => None,
    }
}

/// A copy of a list of strings.
pub fn copy_strings(list: &Vec<String>) -> (r: Vec<String>)
    ensures
        view_all(r@) == view_all(list@),
{
    let mut out: Vec<String> = Vec::new();
    let mut i: usize = 0;
    while i < list.len()
        invariant
            0 <= i <= list.len(),
            out.len() == i,
            forall|k: int| 0 <= k < i ==> out@[k]@ == list@[k]@,
        decreases list.len() - i,
    {
        out.push(list[i].clone());
        i = i + 1;
    }
    assert(view_all(out@) =~= view_all(list@));
    out
}

/// Tells whether two texts are the same.
pub fn same_text(a: &str, b: &str) -> (r: bool)
    ensures
        r == (a@ == b@),
{
    let x = crate::text::chars_of(a);
    let y = crate::text::chars_of(b);
    if x.len() != y.len() {
        return false;
    }
    let mut i: usize = 0;
    while i < x.len()
        invariant
            0 <= i <= x.len(),
            x.len() == y.len(),
            x@ == a@,
            y@ == b@,
            forall|k: int| 0 <= k < i ==> x@[k] == y@[k],
        decreases x.len() - i,
    {
        if x[i] != y[i] {
            return false;
        }
        i = i + 1;
    }
    assert(x@ =~= y@);
    true
}

/// A string that holds the text of a slice.
pub fn owned_text(s: &str) -> (r: String)
    ensures
        r@ == s@,
{
    s.to_owned()
}

} // verus!
