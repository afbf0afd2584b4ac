//! Byte-vector helpers shared by the engine's components.
//!
//! Addresses, protocol names, topics and payloads are all carried as plain
//! byte vectors; the engine only ever copies and compares them.

use vstd::prelude::*;
use crate::types::{Address, Cid};

verus! {

/// Copy a byte vector.
pub fn copy_bytes(v: &Vec<u8>) -> (r: Vec<u8>)
    ensures
        r@ == v@,
{
    let mut r: Vec<u8> = Vec::new();
    let mut i: usize = 0;
    while i < v.len()
        invariant
            0 <= i <= v.len(),
            r@ == v@.subrange(0, i as int),
        decreases v.len() - i,
    {
        r.push(v[i]);
        i = i + 1;
        proof {
            assert(r@ =~= v@.subrange(0, i as int));
        }
    }
    proof {
        assert(r@ =~= v@);
    }
    r
}

/// Copy a content id.
pub fn copy_cid(c: &Cid) -> (r: Cid)
    ensures
        r@ == c@,
{
    Cid { codec: c.codec, hash: copy_bytes(&c.hash) }
}

/// Whether two byte vectors hold the same bytes.
pub fn bytes_eq(a: &Vec<u8>, b: &Vec<u8>) -> (r: bool)
    ensures
        r == (a@ == b@),
{
    if a.len() != b.len() {
        return false;
    }
    let mut i: usize = 0;
    while i < a.len()
        invariant
            0 <= i <= a.len(),
            a.len() == b.len(),
            forall|j: int| 0 <= j < i ==> a@[j] == b@[j],
        decreases a.len() - i,
    {
        if a[i] != b[i] {
            return false;
        }
        i = i + 1;
    }
    proof {
        assert(a@ =~= b@);
    }
    true
}

/// The views of a list of byte vectors, in order.
pub open spec fn bytes_list_view(v: Seq<Address>) -> Seq<Seq<u8>> {
    Seq::new(v.len(), |i: int| v[i]@)
}

/// Whether a list of byte sequences contains the given one.
pub open spec fn seq_contains(s: Seq<Seq<u8>>, x: Seq<u8>) -> bool {
    exists|i: int| 0 <= i < s.len() && s[i] == x
}

/// Whether the byte vector list contains the given bytes.
pub fn list_contains(list: &Vec<Address>, x: &Vec<u8>) -> (r: bool)
    ensures
        r == seq_contains(bytes_list_view(list@), x@),
{
    let mut i: usize = 0;
    while i < list.len()
        invariant
            0 <= i <= list.len(),
            forall|j: int| 0 <= j < i ==> bytes_list_view(list@)[j] != x@,
        decreases list.len() - i,
    {
        if bytes_eq(&list[i], x) {
            proof {
                assert(bytes_list_view(list@)[i as int] == x@);
            }
            return true;
        }
        i = i + 1;
    }
    false
}

} // verus!
