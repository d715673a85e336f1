use vstd::prelude::*;
use crate::register::Register;
use crate::status::UartStatus;

verus! {

/// The status register accessor: one register cell of width `R`, read and
/// written one whole word at a time.
///
/// The cell here is a plain in-memory word, so every write stores exactly
/// the given byte and every read returns exactly the stored byte. A
/// hardware-mapped register needs the platform's volatile access primitive
/// on top, which lies outside this verified core; the decoding and the
/// width conversions stay the same there.
pub struct USR<R: Register> {
    cell: R,
}

impl<R: Register> View for USR<R> {
    type V = u8;

    closed spec fn view(&self) -> u8 {
        self.cell.low_byte()
    }
}

impl<R: Register> USR<R> {
    /// Takes over a register cell holding the given word.
    pub fn new(word: R) -> (r: USR<R>)
        ensures
            r@ == word.low_byte(),
    {
        USR { cell: word }
    }

    /// Writes a status value's bit pattern to the register, as one whole
    /// store of the cell.
    pub fn write(&mut self, val: UartStatus)
        ensures
            final(self)@ == val@,
    {
        self.cell = R::from_byte(val.bits());
    }

    /// Reads the register once and returns its current byte as an opaque
    /// status value.
    pub fn read(&self) -> (r: UartStatus)
        ensures
            r@ == self@,
    {
        UartStatus::from_bits(self.cell.val())
    }
}

} // verus!
