//! Pure decoding helpers on 16-bit instruction words.

use vstd::prelude::*;

verus! {

/// The nibble of `word` at position `place`, counted from 1 at the most
/// significant end; positions other than 1 to 4 give 0.
pub open spec fn nibble_of(word: u16, place: u8) -> u8 {
    if place == 1 {
        ((word >> 12u16) & 0xFu16) as u8
    } else if place == 2 {
        ((word >> 8u16) & 0xFu16) as u8
    } else if place == 3 {
        ((word >> 4u16) & 0xFu16) as u8
    } else if place == 4 {
        (word & 0xFu16) as u8
    } else {
        0
    }
}

/// The low bits of `word` that the three operand nibbles at positions
/// `first + 2` to 4 cover: 12 bits for `first == 0`, 8 for 1, 4 for 2.
pub open spec fn operand_bits(word: u16, first: usize) -> u16 {
    if first == 0 {
        word & 0x0FFFu16
    } else if first == 1 {
        word & 0x00FFu16
    } else if first == 2 {
        word & 0x000Fu16
    } else {
        0
    }
}

/// Field extraction on an instruction word.
pub trait OpCode: Sized {
    /// The nibble at `nibble_place` (1 is the most significant).
    fn extract_nibble_value(self, nibble_place: u8) -> (r: u8)
        ensures
            r < 16,
            r == nibble_of(self.word(), nibble_place),
    ;

    /// The three operand nibbles, each left in place.
    fn extract_arguments(&self) -> (r: [u16; 3])
        ensures
            r@ == seq![self.word() & 0x0F00u16, self.word() & 0x00F0u16, self.word() & 0x000Fu16],
    ;

    /// The sum of the operand nibbles from index `first` on, which is the
    /// operand that they form together (an address for 0, a byte for 1).
    fn get_argument_sum(self, first: usize) -> (r: u16)
        requires
            first <= 3,
        ensures
            r == operand_bits(self.word(), first),
    ;

    spec fn word(&self) -> u16;
}

impl OpCode for u16 {
    open spec fn word(&self) -> u16 {
        *self
    }

    fn extract_nibble_value(self, nibble_place: u8) -> (r: u8) {
        let w = self;
        match nibble_place {
            1 => {
                assert(((w >> 12u16) & 0xFu16) < 16) by (bit_vector);
                ((w >> 12u16) & 0xFu16) as u8
            },
            2 => {
                assert(((w >> 8u16) & 0xFu16) < 16) by (bit_vector);
                ((w >> 8u16) & 0xFu16) as u8
            },
            3 => {
                assert(((w >> 4u16) & 0xFu16) < 16) by (bit_vector);
                ((w >> 4u16) & 0xFu16) as u8
            },
            4 => {
                assert((w & 0xFu16) < 16) by (bit_vector);
                (w & 0xFu16) as u8
            },
            _ => 0,
        }
    }

    fn extract_arguments(&self) -> (r: [u16; 3]) {
        [*self & 0x0F00u16, *self & 0x00F0u16, *self & 0x000Fu16]
    }

    fn get_argument_sum(self, first: usize) -> (r: u16) {
        let arguments = self.extract_arguments();
        let w = self;
        assert((w & 0x0F00u16) + (w & 0x00F0u16) + (w & 0x000Fu16) == w & 0x0FFFu16
            && (w & 0x00F0u16) + (w & 0x000Fu16) == w & 0x00FFu16) by (bit_vector);
        match first {
            0 => arguments[0] + arguments[1] + arguments[2],
            1 => arguments[1] + arguments[2],
            2 => arguments[2],
            _ => 0,
        }
    }
}

} // verus!
