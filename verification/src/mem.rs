//! The flat 64 KiB byte store.

use vstd::prelude::*;

verus! {

/// Number of addressable bytes.
pub const MEM_SIZE: usize = 0x10000;

/// The memory of the machine: `MEM_SIZE` bytes, each at its address.
pub struct GBMem {
    map: Vec<u8>,
}

impl View for GBMem {
    type V = Seq<u8>;

    closed spec fn view(&self) -> Seq<u8> {
        self.map@
    }
}

impl GBMem {
    /// The store always holds `MEM_SIZE` bytes.
    #[verifier::type_invariant]
    pub open spec fn inv(&self) -> bool {
        self@.len() == MEM_SIZE
    }

    /// A memory of zeroes.
    pub fn new() -> (m: GBMem)
        ensures
            m@ == Seq::new(MEM_SIZE as nat, |i: int| 0u8),
    {
        let m = GBMem { map: vec![0u8; MEM_SIZE] };
        assert(m.map@ =~= Seq::new(MEM_SIZE as nat, |i: int| 0u8));
        m
    }

    /// Writes the byte at `pos`.
    pub fn put(&mut self, pos: usize, byte: u8)
        requires
            pos < MEM_SIZE,
        ensures
            final(self)@ == old(self)@.update(pos as int, byte),
    {
        proof {
            use_type_invariant(&*self);
        }
        self.map[pos] = byte;
    }

    /// Reads the byte at `pos`.
    pub fn get(&self, pos: usize) -> (byte: u8)
        requires
            pos < MEM_SIZE,
        ensures
            byte == self@[pos as int],
    {
        proof {
            use_type_invariant(self);
        }
        self.map[pos]
    }
}

} // verus!
