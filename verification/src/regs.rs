//! Interpreting a raw operand value read from the external CPU/register
//! file as an unsigned or sign-extended 64-bit integer: a thin convenience
//! over the typed storage the CPU owns.

use vstd::prelude::*;

verus! {

/// A raw operand value handed over by the external CPU/register file:
/// `size` bytes of payload, held zero-extended in a 64-bit container.
#[derive(Copy, Clone, Debug, PartialEq, Eq, Structural)]
pub struct RegValue {
    pub size: u8,
    pub value: u64,
}

impl RegValue {
    /// How many distinct values `size` bytes can hold.
    pub open spec fn span(self) -> int {
        if self.size == 1 {
            0x100
        } else if self.size == 2 {
            0x1_0000
        } else if self.size == 3 {
            0x100_0000
        } else if self.size == 4 {
            0x1_0000_0000
        } else if self.size == 5 {
            0x100_0000_0000
        } else if self.size == 6 {
            0x1_0000_0000_0000
        } else if self.size == 7 {
            0x100_0000_0000_0000
        } else {
            0x1_0000_0000_0000_0000
        }
    }

    /// The smallest payload whose top bit is set: the boundary between the
    /// non-negative and the negative signed interpretations.
    pub open spec fn sign_bound(self) -> int {
        self.span() / 2
    }

    /// The typed storage's own invariant: a sensible width, and a payload
    /// that fits it.
    pub open spec fn wf(self) -> bool {
        1 <= self.size <= 8 && (self.value as int) < self.span()
    }

    /// The signed number the payload denotes under two's complement at width
    /// `size` bytes.
    pub open spec fn sxt_spec(self) -> int {
        if (self.value as int) < self.sign_bound() {
            self.value as int
        } else {
            self.value as int - self.span()
        }
    }
}

/// Read an operand as an unsigned 64-bit integer. The payload is already
/// held zero-extended, so this is the payload itself.
pub fn read_value_zxt(value: RegValue) -> (r: u64)
    requires
        value.wf(),
    ensures
        r == value.value,
{
    value.value
}

/// Read an operand as a sign-extended 64-bit integer: the two's-complement
/// interpretation of the payload at its own width.
pub fn read_value_sxt(value: RegValue) -> (r: i64)
    requires
        value.wf(),
    ensures
        r as int == value.sxt_spec(),
{
    let v = value.value;
    match value.size {
        1 => if v >= 0x80 {
            (v as i64) - 0x100
        } else {
            v as i64
        },
        2 => if v >= 0x8000 {
            (v as i64) - 0x1_0000
        } else {
            v as i64
        },
        3 => if v >= 0x80_0000 {
            (v as i64) - 0x100_0000
        } else {
            v as i64
        },
        4 => if v >= 0x8000_0000 {
            (v as i64) - 0x1_0000_0000
        } else {
            v as i64
        },
        5 => if v >= 0x80_0000_0000 {
            (v as i64) - 0x100_0000_0000
        } else {
            v as i64
        },
        6 => if v >= 0x8000_0000_0000 {
            (v as i64) - 0x1_0000_0000_0000
        } else {
            v as i64
        },
        7 => if v >= 0x80_0000_0000_0000 {
            (v as i64) - 0x100_0000_0000_0000
        } else {
            v as i64
        },
        _ => if v >= 0x8000_0000_0000_0000 {
            proof {
                assert(!v == u64::MAX - v) by (bit_vector);
            }
            -((!v) as i64) - 1
        } else {
            v as i64
        },
    }
}

} // verus!
