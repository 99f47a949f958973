//! Request codes of `ioctl`.

use vstd::prelude::*;

verus! {

/// How an architecture packs a request code into 32 bits.
///
/// Both layouts hold the number of the request in bits 0 to 7, its group in bits 8 to 15
/// and the size of its argument from bit 16 up. They differ in how many bits the size
/// has, and in the numbers and the place of the directions.
#[derive(Clone, Copy, Debug, PartialEq, Eq, Structural, Hash)]
pub enum IoctlLayout {
    /// 14 bits of size and 2 of direction: most architectures.
    Generic,
    /// 13 bits of size and 3 of direction: MIPS, PowerPC and SPARC.
    Legacy,
}

/// Which way the argument goes, as the caller sees it.
#[derive(Clone, Copy, Debug, PartialEq, Eq, Structural, Hash)]
pub enum IoctlDirection {
    /// The kernel writes the argument and the caller reads it.
    Read,
    /// The caller writes the argument and the kernel reads it.
    Write,
}

impl IoctlLayout {
    /// What a direction adds to the request code.
    pub open spec fn direction_weight(self, direction: IoctlDirection) -> nat {
        match (self, direction) {
            (IoctlLayout::Generic, IoctlDirection::Read) => 0x8000_0000,
            (IoctlLayout::Generic, IoctlDirection::Write) => 0x4000_0000,
            (IoctlLayout::Legacy, IoctlDirection::Read) => 0x4000_0000,
            (IoctlLayout::Legacy, IoctlDirection::Write) => 0x8000_0000,
        }
    }

    /// The largest argument whose size fits.
    pub open spec fn max_size(self) -> nat {
        match self {
            IoctlLayout::Generic => 0x3fff,
            IoctlLayout::Legacy => 0x1fff,
        }
    }

    /// The request code, as the sum of its four parts.
    pub open spec fn code(self, direction: IoctlDirection, ty: nat, nr: nat, size: nat) -> nat {
        self.direction_weight(direction) + size * 0x1_0000 + ty * 0x100 + nr
    }

    /// The code of request `nr` of group `ty`, with an argument of `size` bytes.
    pub fn request_code(self, direction: IoctlDirection, ty: u8, nr: u8, size: u16) -> (r: u32)
        requires
            size <= self.max_size(),
        ensures
            r == self.code(direction, ty as nat, nr as nat, size as nat),
    {
        let (number, shift): (u32, u32) = match self {
            IoctlLayout::Generic => match direction {
                IoctlDirection::Read => (2, 30),
                IoctlDirection::Write => (1, 30),
            },
            IoctlLayout::Legacy => match direction {
                IoctlDirection::Read => (2, 29),
                IoctlDirection::Write => (4, 29),
            },
        };
        let (ty, nr, size): (u32, u32, u32) = (ty as u32, nr as u32, size as u32);
        assert(((number << shift) | (ty << 8u32) | nr | (size << 16u32)) == (if number == 2
            && shift == 30 || number == 4 && shift == 29 {
            0x8000_0000u32
        } else {
            0x4000_0000u32
        }) + size * 0x1_0000 + ty * 0x100 + nr) by (bit_vector)
            requires
                number == 2 && shift == 30 && size <= 0x3fff || number == 1 && shift == 30 && size
                    <= 0x3fff || number == 2 && shift == 29 && size <= 0x1fff || number == 4
                    && shift == 29 && size <= 0x1fff,
                ty <= 0xff,
                nr <= 0xff,
        ;
        (number << shift) | (ty << 8) | nr | (size << 16)
    }
}

/// Within a layout, a request code determines every part that went into it.
pub proof fn lemma_request_code_is_injective(
    layout: IoctlLayout,
    direction1: IoctlDirection,
    ty1: u8,
    nr1: u8,
    size1: u16,
    direction2: IoctlDirection,
    ty2: u8,
    nr2: u8,
    size2: u16,
)
    requires
        size1 <= layout.max_size(),
        size2 <= layout.max_size(),
        layout.code(direction1, ty1 as nat, nr1 as nat, size1 as nat) == layout.code(
            direction2,
            ty2 as nat,
            nr2 as nat,
            size2 as nat,
        ),
    ensures
        direction1 == direction2,
        ty1 == ty2,
        nr1 == nr2,
        size1 == size2,
{
}

} // verus!
