use vstd::prelude::*;

verus! {

/// Mask of the receive-queue-full bit.
pub const RFF: u8 = 0x10;

/// Mask of the receive-queue-not-empty bit.
pub const RFNE: u8 = 0x08;

/// Mask of the transmit-queue-empty bit.
pub const TFE: u8 = 0x04;

/// Mask of the transmit-queue-not-full bit.
pub const TFNF: u8 = 0x02;

/// Mask of the line-busy bit.
pub const BUSY: u8 = 0x01;

/// The literal bit pattern last read from or destined for the status
/// register. A plain value: copying and querying it never touches hardware.
#[derive(Clone, Copy, PartialEq, Eq, Structural, Debug)]
pub struct UartStatus(u8);

impl View for UartStatus {
    type V = u8;

    closed spec fn view(&self) -> u8 {
        self.0
    }
}

/// The receive queue has no remaining capacity.
pub open spec fn spec_receive_fifo_full(b: u8) -> bool {
    b & RFF != 0
}

/// At least one item waits in the receive queue.
pub open spec fn spec_receive_fifo_not_empty(b: u8) -> bool {
    b & RFNE != 0
}

/// The transmit queue holds no pending items.
pub open spec fn spec_transmit_fifo_empty(b: u8) -> bool {
    b & TFE != 0
}

/// The transmit queue has room for at least one more item.
pub open spec fn spec_transmit_fifo_not_full(b: u8) -> bool {
    b & TFNF != 0
}

/// The line is engaged in a transfer.
pub open spec fn spec_busy(b: u8) -> bool {
    b & BUSY != 0
}

impl UartStatus {
    /// Wraps a literal bit pattern as a status value.
    pub fn from_bits(bits: u8) -> (r: UartStatus)
        ensures
            r@ == bits,
    {
        UartStatus(bits)
    }

    /// The underlying byte, every bit verbatim.
    pub fn bits(self) -> (r: u8)
        ensures
            r == self@,
    {
        self.0
    }

    /// Whether the receive queue has no remaining capacity.
    pub fn receive_fifo_full(self) -> (r: bool)
        ensures
            r == spec_receive_fifo_full(self@),
    {
        self.0 & RFF != 0
    }

    /// Whether at least one item waits in the receive queue.
    pub fn receive_fifo_not_empty(self) -> (r: bool)
        ensures
            r == spec_receive_fifo_not_empty(self@),
    {
        self.0 & RFNE != 0
    }

    /// Whether the transmit queue holds no pending items.
    pub fn transmit_fifo_empty(self) -> (r: bool)
        ensures
            r == spec_transmit_fifo_empty(self@),
    {
        self.0 & TFE != 0
    }

    /// Whether the transmit queue has room for at least one more item.
    pub fn transmit_fifo_not_full(self) -> (r: bool)
        ensures
            r == spec_transmit_fifo_not_full(self@),
    {
        self.0 & TFNF != 0
    }

    /// Whether the line is engaged in a transfer.
    pub fn busy(self) -> (r: bool)
        ensures
            r == spec_busy(self@),
    {
        self.0 & BUSY != 0
    }
}

/// Two status values are equal exactly when they hold the same byte, so
/// every query of one answers as the same query of the other.
pub proof fn lemma_status_eq(a: UartStatus, b: UartStatus)
    ensures
        (a == b) <==> (a@ == b@),
{
}

/// Reassembles a status byte from its five named conditions and the
/// remaining, semantically uninterpreted high bits.
pub open spec fn assemble(
    rff: bool,
    rfne: bool,
    tfe: bool,
    tfnf: bool,
    busy: bool,
    rest: u8,
) -> u8 {
    (if rff { RFF } else { 0 }) | (if rfne { RFNE } else { 0 }) | (if tfe { TFE } else { 0 })
        | (if tfnf { TFNF } else { 0 }) | (if busy { BUSY } else { 0 }) | rest
}

/// Decoding a byte into the five named conditions and reassembling them,
/// together with the byte's unnamed high bits, reproduces the byte exactly:
/// the decoded view loses nothing.
pub proof fn lemma_decode_round_trip(b: u8)
    by (bit_vector)
    ensures
        assemble(
            spec_receive_fifo_full(b),
            spec_receive_fifo_not_empty(b),
            spec_transmit_fifo_empty(b),
            spec_transmit_fifo_not_full(b),
            spec_busy(b),
            b & 0xE0,
        ) == b,
{
}

/// Toggling one of the five named bits of a status byte flips exactly the
/// condition that reads that bit and leaves the other four unchanged.
pub proof fn lemma_toggle_named_bit(b: u8, i: u8)
    by (bit_vector)
    requires
        i < 5,
    ensures
        (spec_busy(b ^ (1u8 << i)) != spec_busy(b)) == (i == 0),
        (spec_transmit_fifo_not_full(b ^ (1u8 << i)) != spec_transmit_fifo_not_full(b)) == (i
            == 1),
        (spec_transmit_fifo_empty(b ^ (1u8 << i)) != spec_transmit_fifo_empty(b)) == (i == 2),
        (spec_receive_fifo_not_empty(b ^ (1u8 << i)) != spec_receive_fifo_not_empty(b)) == (i
            == 3),
        (spec_receive_fifo_full(b ^ (1u8 << i)) != spec_receive_fifo_full(b)) == (i == 4),
{
}

/// Toggling a bit outside the five named ones changes no condition at all.
pub proof fn lemma_toggle_unnamed_bit(b: u8, i: u8)
    by (bit_vector)
    requires
        5 <= i < 8,
    ensures
        spec_busy(b ^ (1u8 << i)) == spec_busy(b),
        spec_transmit_fifo_not_full(b ^ (1u8 << i)) == spec_transmit_fifo_not_full(b),
        spec_transmit_fifo_empty(b ^ (1u8 << i)) == spec_transmit_fifo_empty(b),
        spec_receive_fifo_not_empty(b ^ (1u8 << i)) == spec_receive_fifo_not_empty(b),
        spec_receive_fifo_full(b ^ (1u8 << i)) == spec_receive_fifo_full(b),
{
}

} // verus!
