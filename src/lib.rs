use vstd::prelude::*;

pub mod alu;
pub mod bus;
pub mod cartridge;
pub mod controller;
pub mod cpu;
pub mod flags;
pub mod gameboy;
pub mod ppu;
pub mod registers;
pub mod timer;

verus! {

/// A vector of n zero bytes.
pub(crate) fn zeroed(n: usize) -> (v: Vec<u8>)
    ensures
        v@ == Seq::new(n as nat, |i: int| 0u8),
{
    let mut v: Vec<u8> = Vec::new();
    let mut i: usize = 0;
    while i < n
        invariant
            i <= n,
            v@ == Seq::new(i as nat, |j: int| 0u8),
        decreases n - i,
    {
        v.push(0);
        i = i + 1;
        assert(v@ =~= Seq::new(i as nat, |j: int| 0u8));
    }
    v
}

} // verus!
