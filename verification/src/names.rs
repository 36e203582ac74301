use vstd::prelude::*;

verus! {

/// The names in a list, each as its byte sequence.
pub open spec fn names_view(names: Seq<Vec<u8>>) -> Seq<Seq<u8>> {
    Seq::new(names.len(), |i: int| names[i]@)
}

/// Every name in `required` occurs, by exact match, in `available`.
pub open spec fn all_names_present_spec(required: Seq<Seq<u8>>, available: Seq<Seq<u8>>) -> bool {
    forall|i: int| 0 <= i < required.len() ==> available.contains(required[i])
}

/// Byte-for-byte equality of two names.
pub fn bytes_eq(a: &Vec<u8>, b: &Vec<u8>) -> (r: bool)
    ensures
        r == (a@ == b@),
{
    if a.len() != b.len() {
        return false;
    }
    let mut i: usize = 0;
    while i < a.len()
        invariant
            a@.len() == b@.len(),
            i <= a@.len(),
            forall|j: int| 0 <= j < i ==> a@[j] == b@[j],
        decreases a@.len() - i,
    {
        if a[i] != b[i] {
            return false;
        }
        i = i + 1;
    }
    proof {
        assert(a@ =~= b@);
    }
    true
}

/// Whether `name` occurs, by exact byte match, somewhere in `list`.
pub fn name_in_list(name: &Vec<u8>, list: &Vec<Vec<u8>>) -> (r: bool)
    ensures
        r == names_view(list@).contains(name@),
{
    let mut i: usize = 0;
    while i < list.len()
        invariant
            i <= list@.len(),
            forall|j: int| 0 <= j < i ==> names_view(list@)[j] != name@,
        decreases list@.len() - i,
    {
        if bytes_eq(&list[i], name) {
            assert(names_view(list@)[i as int] == name@);
            return true;
        }
        i = i + 1;
    }
    assert(forall|j: int| 0 <= j < names_view(list@).len() ==> names_view(list@)[j] != name@);
    false
}

/// Check that every required name appears, by exact match, among the
/// available ones.
pub fn all_names_present(required: &Vec<Vec<u8>>, available: &Vec<Vec<u8>>) -> (r: bool)
    ensures
        r == all_names_present_spec(names_view(required@), names_view(available@)),
{
    let mut i: usize = 0;
    while i < required.len()
        invariant
            i <= required@.len(),
            forall|j: int| 0 <= j < i
                ==> names_view(available@).contains(names_view(required@)[j]),
        decreases required@.len() - i,
    {
        if !name_in_list(&required[i], available) {
            assert(!names_view(available@).contains(names_view(required@)[i as int]));
            return false;
        }
        i = i + 1;
    }
    true
}

/// Copy one name byte by byte.
pub fn copy_bytes(name: &Vec<u8>) -> (r: Vec<u8>)
    ensures
        r@ == name@,
{
    let mut r: Vec<u8> = Vec::new();
    let mut i: usize = 0;
    while i < name.len()
        invariant
            i <= name@.len(),
            r@ == name@.take(i as int),
        decreases name@.len() - i,
    {
        r.push(name[i]);
        proof {
            assert(r@ =~= name@.take(i + 1));
        }
        i = i + 1;
    }
    proof {
        assert(r@ =~= name@);
    }
    r
}

/// Copy a list of names, keeping each name's bytes and their order.
pub fn copy_names(names: &Vec<Vec<u8>>) -> (r: Vec<Vec<u8>>)
    ensures
        names_view(r@) == names_view(names@),
{
    let mut r: Vec<Vec<u8>> = Vec::new();
    let mut i: usize = 0;
    while i < names.len()
        invariant
            i <= names@.len(),
            r@.len() == i,
            forall|j: int| 0 <= j < i ==> r@[j]@ == names@[j]@,
        decreases names@.len() - i,
    {
        r.push(copy_bytes(&names[i]));
        i = i + 1;
    }
    proof {
        assert(names_view(r@) =~= names_view(names@));
    }
    r
}

} // verus!
