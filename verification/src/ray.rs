use vstd::prelude::*;

verus! {

/// One corruption: XOR the byte at `offset` with `pattern`.
///
/// A ray is a pure description of "flip these bits of the byte at this
/// offset"; its meaning never depends on prior engine state. Two rays at the
/// same offset simply compose via successive XORs.
#[derive(Debug, Clone, Copy, PartialEq, Eq, Structural)]
pub struct Ray {
    pub offset: usize,
    pub pattern: u8,
}

impl Ray {
    /// The mask that flips bit 0.
    pub const P0BIT: u8 = 0b00000001;

    /// The mask that flips bit 1.
    pub const P1BIT: u8 = 0b00000010;

    /// The mask that flips bit 2.
    pub const P2BIT: u8 = 0b00000100;

    /// The mask that flips bit 3.
    pub const P3BIT: u8 = 0b00001000;

    /// The mask that flips bit 4.
    pub const P4BIT: u8 = 0b00010000;

    /// The mask that flips bit 5.
    pub const P5BIT: u8 = 0b00100000;

    /// The mask that flips bit 6.
    pub const P6BIT: u8 = 0b01000000;

    /// The mask that flips bit 7.
    pub const P7BIT: u8 = 0b10000000;

    /// A ray that flips the lowest bit of the byte at `offset`.
    pub fn new(offset: usize) -> (r: Self)
        ensures
            r == (Ray { offset, pattern: 0b00000001u8 }),
    {
        Self { offset, pattern: Self::P0BIT }
    }

    /// A ray with an explicit XOR mask.
    pub fn with_pattern(offset: usize, pattern: u8) -> (r: Self)
        ensures
            r == (Ray { offset, pattern }),
    {
        Self { offset, pattern }
    }
}

} // verus!
