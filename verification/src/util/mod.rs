pub mod audio;
pub mod pacing;
pub mod video;

use vstd::prelude::*;

verus! {

/// `Vec::into_boxed_slice`: the boxed slice holds the vector's elements.
#[verifier::external_body]
pub(crate) fn into_boxed_slice(v: Vec<u8>) -> (b: Box<[u8]>)
    ensures
        (*b)@ == v@,
{
    v.into_boxed_slice()
}

/// `Box::<[u8]>::clone`: a copy of the bytes.
#[verifier::external_body]
pub(crate) fn clone_boxed_slice(b: &Box<[u8]>) -> (r: Box<[u8]>)
    ensures
        (*r)@ == (**b)@,
{
    b.clone()
}

/// `Rc::<[u8]>::clone`: another pointer to the same bytes.
#[verifier::external_body]
pub(crate) fn clone_rc_bytes(r: &std::rc::Rc<[u8]>) -> (c: std::rc::Rc<[u8]>)
    ensures
        (*c)@ == (**r)@,
{
    r.clone()
}

/// A boxed slice of `len` copies of `fill`.
pub(crate) fn filled_boxed_slice(len: usize, fill: u8) -> (b: Box<[u8]>)
    ensures
        (*b)@ == Seq::new(len as nat, |i: int| fill),
{
    let mut v: Vec<u8> = Vec::new();
    let mut i: usize = 0;
    while i < len
        invariant
            i <= len,
            v@ == Seq::new(i as nat, |k: int| fill),
        decreases len - i,
    {
        v.push(fill);
        i = i + 1;
    }
    into_boxed_slice(v)
}

} // verus!
