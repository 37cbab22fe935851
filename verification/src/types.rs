//! Plain values that stand for identifiers and addresses.

use vstd::prelude::*;

verus! {

/// A 128-bit identifier, by its sixteen bytes.
#[derive(Clone, Copy, Debug, PartialEq, Eq, Hash)]
pub struct Uuid {
    pub bytes: [u8; 16],
}

impl View for Uuid {
    type V = Seq<u8>;

    open spec fn view(&self) -> Seq<u8> {
        self.bytes@
    }
}

impl Uuid {
    /// The identifier whose bytes are all zero.
    pub fn nil() -> (u: Self)
        ensures
            u@ == Seq::new(16, |i: int| 0u8),
    {
        let u = Uuid { bytes: [0u8; 16] };
        assert(u@ =~= Seq::new(16, |i: int| 0u8));
        u
    }

    /// Whether every byte is zero.
    pub fn is_nil(&self) -> (b: bool)
        ensures
            b == (self@ == Seq::new(16, |i: int| 0u8)),
    {
        let mut i: usize = 0;
        while i < 16
            invariant
                i <= 16,
                forall|j: int| 0 <= j < i ==> self.bytes@[j] == 0u8,
            decreases 16 - i,
        {
            if self.bytes[i] != 0 {
                assert(self@[i as int] != Seq::new(16, |k: int| 0u8)[i as int]);
                return false;
            }
            i = i + 1;
        }
        assert(self@ =~= Seq::new(16, |i: int| 0u8));
        true
    }
}

/// An IPv4 address, by its four octets.
#[derive(Clone, Copy, Debug, PartialEq, Eq, Hash)]
pub struct Ip4Addr {
    pub octets: [u8; 4],
}

} // verus!
