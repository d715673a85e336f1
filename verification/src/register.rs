use vstd::prelude::*;

verus! {

/// A fixed-width unsigned word that can back the status register.
///
/// The semantic payload of the register is always a single byte; a wider
/// word zero-extends it on the way in and keeps only its low eight bits on
/// the way out. Both conversions are total and lossless for that byte.
pub trait Register: Sized + Copy {
    /// The low eight bits of the word: the status byte it carries.
    spec fn low_byte(self) -> u8;

    /// Builds a register word from a status byte, zero-extending the
    /// unused high bits of a wider word.
    fn from_byte(b: u8) -> (r: Self)
        ensures
            r.low_byte() == b,
    ;

    /// Extracts the status byte: the low eight bits of the word.
    fn val(self) -> (r: u8)
        ensures
            r == self.low_byte(),
    ;
}

impl Register for u8 {
    closed spec fn low_byte(self) -> u8 {
        self
    }

    fn from_byte(b: u8) -> (r: Self) {
        b
    }

    fn val(self) -> (r: u8) {
        self
    }
}

impl Register for u16 {
    closed spec fn low_byte(self) -> u8 {
        (self % 0x100) as u8
    }

    fn from_byte(b: u8) -> (r: Self) {
        b as u16
    }

    fn val(self) -> (r: u8) {
        (self % 0x100) as u8
    }
}

impl Register for u32 {
    closed spec fn low_byte(self) -> u8 {
        (self % 0x100) as u8
    }

    fn from_byte(b: u8) -> (r: Self) {
        b as u32
    }

    fn val(self) -> (r: u8) {
        (self % 0x100) as u8
    }
}

} // verus!
