use vstd::prelude::*;

verus! {

/// `im::Vector`, the persistent vector that holds header and variable lists.
#[verifier::external_type_specification]
#[verifier::external_body]
#[verifier::reject_recursive_types(A)]
pub struct ExImVector<A>(im::Vector<A>);

/// The (name, value) pairs that a header list holds, first to last.
pub uninterp spec fn header_pairs(v: im::Vector<(String, String)>) -> Seq<(Seq<char>, Seq<char>)>;

/// Calls `im::Vector::new`, which makes a vector that holds nothing.
#[verifier::external_body]
pub(crate) fn header_list_new() -> (v: im::Vector<(String, String)>)
    ensures
        header_pairs(v) == Seq::<(Seq<char>, Seq<char>)>::empty(),
{
    im::Vector::new()
}

/// Calls `im::Vector::len`, the number of items the vector holds.
#[verifier::external_body]
pub(crate) fn header_list_len(v: &im::Vector<(String, String)>) -> (n: usize)
    ensures
        n == header_pairs(*v).len(),
{
    v.len()
}

/// Calls `im::Vector::get`: the item at `index`, or `None` past the end.
#[verifier::external_body]
pub(crate) fn header_list_get(v: &im::Vector<(String, String)>, index: usize) -> (r: Option<&(String, String)>)
    ensures
        index < header_pairs(*v).len() ==> r is Some && r->0@ == header_pairs(*v)[index as int],
        index >= header_pairs(*v).len() ==> r is None,
{
    v.get(index)
}

/// Calls `im::Vector::push_back`, which adds the item after the last one.
#[verifier::external_body]
pub(crate) fn header_list_push_back(v: &mut im::Vector<(String, String)>, item: (String, String))
    ensures
        header_pairs(*final(v)) == header_pairs(*old(v)).push(item@),
{
    v.push_back(item)
}

/// Calls `im::Vector::pop_back`: on an empty vector it returns `None` and
/// changes nothing, else it takes the last item off and returns it.
#[verifier::external_body]
pub(crate) fn header_list_pop_back(v: &mut im::Vector<(String, String)>) -> (r: Option<(String, String)>)
    ensures
        header_pairs(*old(v)).len() == 0 ==> r is None && header_pairs(*final(v)) == header_pairs(*old(v)),
        header_pairs(*old(v)).len() > 0 ==> r is Some && r->0@ == header_pairs(*old(v)).last()
            && header_pairs(*final(v)) == header_pairs(*old(v)).drop_last(),
{
    v.pop_back()
}

/// Calls `Clone::clone` of `im::Vector`, whose copy holds the same items in
/// the same order (each item cloned with `String`'s exact clone).
#[verifier::external_body]
pub(crate) fn header_list_clone(v: &im::Vector<(String, String)>) -> (c: im::Vector<(String, String)>)
    ensures
        header_pairs(c) == header_pairs(*v),
{
    v.clone()
}

} // verus!
