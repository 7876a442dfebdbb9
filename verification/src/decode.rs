//! The operator decoder: pure functions over a 32-bit instruction word
//! yielding the operator number and its operand fields.
//!
//! The word is partitioned by opcode family. Operators 0..12 carry three
//! register selectors in the low nine bits; operator 13 (Orthography)
//! carries a register selector in bits 27..25 and a 25-bit immediate in
//! bits 24..0.

use vstd::prelude::*;

verus! {

/// The operator number: bits 31..28.
pub open spec fn op_number(w: u32) -> u32 {
    (w >> 28) & 0xf
}

/// The standard A register selector: bits 8..6.
pub open spec fn field_a(w: u32) -> u32 {
    (w >> 6) & 0x7
}

/// The standard B register selector: bits 5..3.
pub open spec fn field_b(w: u32) -> u32 {
    (w >> 3) & 0x7
}

/// The standard C register selector: bits 2..0.
pub open spec fn field_c(w: u32) -> u32 {
    w & 0x7
}

/// The special A register selector of operator 13: bits 27..25.
pub open spec fn field_a_special(w: u32) -> u32 {
    (w >> 25) & 0x7
}

/// The immediate of operator 13: bits 24..0, a 25-bit value.
pub open spec fn special_value(w: u32) -> u32 {
    w & 0x1ffffff
}

/// The name under which an operator number is listed.
pub open spec fn opcode_name(n: u32) -> Seq<char> {
    if n == 0 {
        "Conditional Move"@
    } else if n == 1 {
        "Array Index"@
    } else if n == 2 {
        "Array Amendment"@
    } else if n == 3 {
        "Addition"@
    } else if n == 4 {
        "Multiplication"@
    } else if n == 5 {
        "Division"@
    } else if n == 6 {
        "Not-And"@
    } else if n == 7 {
        "Halt"@
    } else if n == 8 {
        "Allocation"@
    } else if n == 9 {
        "Abandonment"@
    } else if n == 10 {
        "Output"@
    } else if n == 11 {
        "Input"@
    } else if n == 12 {
        "Load Program"@
    } else if n == 13 {
        "Orthography"@
    } else {
        "<unknown>"@
    }
}

/// One instruction word, read field by field.
#[derive(Clone, Copy)]
pub struct Operator(pub u32);

#[allow(non_snake_case)]
impl Operator {
    /// The standard A register index.
    pub fn A(&self) -> (r: usize)
        ensures
            r == field_a(self.0) as usize,
            r < 8,
    {
        let w = self.0;
        proof {
            assert((w >> 6) & 0x7 < 8) by (bit_vector);
        }
        ((w >> 6) & 0x7) as usize
    }

    /// The standard B register index.
    pub fn B(&self) -> (r: usize)
        ensures
            r == field_b(self.0) as usize,
            r < 8,
    {
        let w = self.0;
        proof {
            assert((w >> 3) & 0x7 < 8) by (bit_vector);
        }
        ((w >> 3) & 0x7) as usize
    }

    /// The standard C register index.
    pub fn C(&self) -> (r: usize)
        ensures
            r == field_c(self.0) as usize,
            r < 8,
    {
        let w = self.0;
        proof {
            assert(w & 0x7 < 8) by (bit_vector);
        }
        (w & 0x7) as usize
    }

    /// The operator number, 0..15; only 0..13 name an operator.
    pub fn number(&self) -> (r: usize)
        ensures
            r == op_number(self.0) as usize,
            r < 16,
    {
        let w = self.0;
        proof {
            assert((w >> 28) & 0xf < 16) by (bit_vector);
        }
        ((w >> 28) & 0xf) as usize
    }

    /// The special A register index of operator 13.
    pub fn A_special(&self) -> (r: usize)
        ensures
            r == field_a_special(self.0) as usize,
            r < 8,
    {
        let w = self.0;
        proof {
            assert((w >> 25) & 0x7 < 8) by (bit_vector);
        }
        ((w >> 25) & 0x7) as usize
    }

    /// The immediate of operator 13, masked to 25 bits.
    pub fn value(&self) -> (r: u32)
        ensures
            r == special_value(self.0),
            r < 0x2000000,
    {
        let w = self.0;
        proof {
            assert(w & 0x1ffffff < 0x2000000) by (bit_vector);
        }
        w & 0x1ffffff
    }

    /// The listed name of the word's operator.
    pub fn name(&self) -> (r: &'static str)
        ensures
            r@ == opcode_name(op_number(self.0)),
    {
        let n = self.number();
        if n == 0 {
            "Conditional Move"
        } else if n == 1 {
            "Array Index"
        } else if n == 2 {
            "Array Amendment"
        } else if n == 3 {
            "Addition"
        } else if n == 4 {
            "Multiplication"
        } else if n == 5 {
            "Division"
        } else if n == 6 {
            "Not-And"
        } else if n == 7 {
            "Halt"
        } else if n == 8 {
            "Allocation"
        } else if n == 9 {
            "Abandonment"
        } else if n == 10 {
            "Output"
        } else if n == 11 {
            "Input"
        } else if n == 12 {
            "Load Program"
        } else if n == 13 {
            "Orthography"
        } else {
            "<unknown>"
        }
    }
}

} // verus!
