//! The traced address space: a sparse byte map over machine addresses.
//!
//! Peek and poke take a caller-supplied numeric address at face value, by
//! design without any bounds or permission check. The model backs every
//! address: a byte never written reads as zero, the way cleared memory
//! does, so a read that real hardware might fault on here yields a defined
//! value. Address arithmetic wraps around the top of the address space,
//! as the machine's does.

use vstd::prelude::*;

verus! {

/// `a + j` wrapped around the top of the address space.
pub open spec fn spec_wrap_add(a: usize, j: usize) -> usize {
    if a + j <= usize::MAX {
        (a + j) as usize
    } else {
        (a + j - usize::MAX - 1) as usize
    }
}

/// The byte a map of written bytes yields at an address: what was last
/// written there, or zero where nothing ever was.
pub open spec fn spec_byte_at(m: Map<usize, u8>, a: usize) -> u8 {
    if m.contains_key(a) {
        m[a]
    } else {
        0
    }
}

/// Wrapping address offset, computed without overflow.
pub fn wrap_add(a: usize, j: usize) -> (r: usize)
    ensures
        r == spec_wrap_add(a, j),
{
    if j <= usize::MAX - a {
        a + j
    } else {
        j - (usize::MAX - a) - 1
    }
}

/// A byte-addressed address space, sparse over the written bytes.
pub struct AddressSpace {
    bytes: std::collections::HashMap<usize, u8>,
}

impl AddressSpace {
    /// The written bytes, by address.
    pub closed spec fn view(&self) -> Map<usize, u8> {
        self.bytes@
    }

    /// An address space with nothing written: every byte reads zero.
    pub fn new() -> (m: Self)
        ensures
            m@ == Map::<usize, u8>::empty(),
    {
        AddressSpace { bytes: std::collections::HashMap::new() }
    }

    /// Read the byte at `addr`.
    pub fn peek(&self, addr: usize) -> (b: u8)
        ensures
            b == spec_byte_at(self@, addr),
    {
        proof {
            broadcast use vstd::std_specs::hash::group_hash_axioms;
        }
        match self.bytes.get(&addr) {
            Some(b) => *b,
            None => 0,
        }
    }

    /// Write the byte `b` at `addr`.
    pub fn poke(&mut self, addr: usize, b: u8)
        ensures
            final(self)@ == old(self)@.insert(addr, b),
    {
        proof {
            broadcast use vstd::std_specs::hash::group_hash_axioms;
        }
        self.bytes.insert(addr, b);
    }

    /// Write a run of bytes starting at `addr`, one byte per consecutive
    /// (wrapping) address. Every address outside the run keeps its byte.
    pub fn store_bytes(&mut self, addr: usize, bytes: &Vec<u8>)
        ensures
            forall|j: usize|
                j < bytes@.len() ==> spec_byte_at(final(self)@, #[trigger] spec_wrap_add(addr, j))
                    == bytes@[j as int],
            forall|a: usize|
                !spec_in_run(addr, bytes@.len() as int, a) ==> spec_byte_at(final(self)@, a)
                    == spec_byte_at(old(self)@, a),
    {
        let n = bytes.len();
        let mut i: usize = 0;
        while i < n
            invariant
                n == bytes@.len(),
                i <= n,
                forall|j: usize|
                    j < i ==> spec_byte_at(self@, #[trigger] spec_wrap_add(addr, j))
                        == bytes@[j as int],
                forall|a: usize|
                    !spec_in_run(addr, i as int, a) ==> spec_byte_at(self@, a)
                        == spec_byte_at(old(self)@, a),
            decreases n - i,
        {
            let ghost pre = self@;
            self.poke(wrap_add(addr, i), bytes[i]);
            proof {
                assert forall|j: usize|
                    j < i + 1 implies spec_byte_at(self@, #[trigger] spec_wrap_add(addr, j))
                        == bytes@[j as int] by {
                    if j < i {
                        lemma_wrap_add_injective(addr, j, i);
                        lemma_poke_frame(pre, spec_wrap_add(addr, i), bytes@[i as int],
                            spec_wrap_add(addr, j));
                    } else {
                        lemma_poke_peek_roundtrip(pre, spec_wrap_add(addr, i), bytes@[i as int]);
                    }
                }
                assert forall|a: usize|
                    !spec_in_run(addr, i + 1, a) implies spec_byte_at(self@, a)
                        == spec_byte_at(old(self)@, a) by {
                    assert(a != spec_wrap_add(addr, i));
                    assert(!spec_in_run(addr, i as int, a));
                    lemma_poke_frame(pre, spec_wrap_add(addr, i), bytes@[i as int], a);
                }
            }
            i = i + 1;
        }
    }

    /// Read a run of `n` bytes starting at `addr`, one byte per
    /// consecutive (wrapping) address.
    pub fn read_bytes(&self, addr: usize, n: usize) -> (bytes: Vec<u8>)
        ensures
            bytes@.len() == n,
            forall|j: usize|
                j < n ==> bytes@[j as int] == spec_byte_at(self@, #[trigger] spec_wrap_add(addr, j)),
    {
        let mut bytes: Vec<u8> = Vec::new();
        let mut i: usize = 0;
        while i < n
            invariant
                i <= n,
                bytes@.len() == i,
                forall|j: usize|
                    j < i ==> bytes@[j as int] == spec_byte_at(self@, #[trigger] spec_wrap_add(addr, j)),
            decreases n - i,
        {
            bytes.push(self.peek(wrap_add(addr, i)));
            i = i + 1;
        }
        bytes
    }
}

/// Whether address `a` lies on the wrapping run of `n` bytes from `addr`.
pub open spec fn spec_in_run(addr: usize, n: int, a: usize) -> bool {
    exists|j: usize| j < n && a == #[trigger] spec_wrap_add(addr, j)
}

/// Distinct offsets reach distinct addresses: a wrapping walk of fewer
/// than one full address space never lands on the same byte twice.
pub proof fn lemma_wrap_add_injective(a: usize, j: usize, k: usize)
    requires
        j != k,
    ensures
        spec_wrap_add(a, j) != spec_wrap_add(a, k),
{
}

/// Poking a byte and peeking the same address round-trips: the peek
/// yields exactly the byte poked, whatever the address space held before.
pub proof fn lemma_poke_peek_roundtrip(m: Map<usize, u8>, addr: usize, b: u8)
    ensures
        spec_byte_at(m.insert(addr, b), addr) == b,
{
}

/// A poke leaves every other address untouched.
pub proof fn lemma_poke_frame(m: Map<usize, u8>, addr: usize, b: u8, other: usize)
    requires
        other != addr,
    ensures
        spec_byte_at(m.insert(addr, b), other) == spec_byte_at(m, other),
{
}

} // verus!
