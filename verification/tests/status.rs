use uart_usr::UartStatus;

const RFF: u8 = 0x10;
const RFNE: u8 = 0x08;
const TFE: u8 = 0x04;
const TFNF: u8 = 0x02;
const BUSY: u8 = 0x01;

fn decode(s: UartStatus) -> [bool; 5] {
    [
        s.busy(),
        s.transmit_fifo_not_full(),
        s.transmit_fifo_empty(),
        s.receive_fifo_not_empty(),
        s.receive_fifo_full(),
    ]
}

#[test]
fn decode_0x13() {
    let s = UartStatus::from_bits(0b00010011);
    assert!(s.busy());
    assert!(s.transmit_fifo_not_full());
    assert!(!s.transmit_fifo_empty());
    assert!(!s.receive_fifo_not_empty());
    // bit 4 of 0b00010011 is set, so the receive queue reads as full
    assert!(s.receive_fifo_full());
}

#[test]
fn decode_0x03() {
    let s = UartStatus::from_bits(0b00000011);
    assert!(s.busy());
    assert!(s.transmit_fifo_not_full());
    assert!(!s.transmit_fifo_empty());
    assert!(!s.receive_fifo_not_empty());
    assert!(!s.receive_fifo_full());
}

#[test]
fn decode_all_clear() {
    let s = UartStatus::from_bits(0b00000000);
    assert_eq!(decode(s), [false; 5]);
}

#[test]
fn decode_all_named_set() {
    let s = UartStatus::from_bits(0b00011111);
    assert_eq!(decode(s), [true; 5]);
}

#[test]
fn masks_exact_for_every_byte() {
    for w in 0u16..0x100 {
        let b: u8 = w as u8;
        let s = UartStatus::from_bits(b);
        assert_eq!(s.receive_fifo_full(), b & RFF != 0);
        assert_eq!(s.receive_fifo_not_empty(), b & RFNE != 0);
        assert_eq!(s.transmit_fifo_empty(), b & TFE != 0);
        assert_eq!(s.transmit_fifo_not_full(), b & TFNF != 0);
        assert_eq!(s.busy(), b & BUSY != 0);
    }
}

#[test]
fn rebuild_round_trip_for_every_byte() {
    for w in 0u16..0x100 {
        let b: u8 = w as u8;
        let s = UartStatus::from_bits(b);
        let mut rebuilt: u8 = b & 0b11100000;
        if s.receive_fifo_full() {
            rebuilt |= RFF;
        }
        if s.receive_fifo_not_empty() {
            rebuilt |= RFNE;
        }
        if s.transmit_fifo_empty() {
            rebuilt |= TFE;
        }
        if s.transmit_fifo_not_full() {
            rebuilt |= TFNF;
        }
        if s.busy() {
            rebuilt |= BUSY;
        }
        assert_eq!(rebuilt, b);
    }
}

#[test]
fn toggling_one_bit_changes_at_most_one_predicate() {
    for w in 0u16..0x100 {
        let b: u8 = w as u8;
        let before = decode(UartStatus::from_bits(b));
        for i in 0u8..8 {
            let after = decode(UartStatus::from_bits(b ^ (1u8 << i)));
            let mut changed: usize = 0;
            for k in 0usize..5 {
                if before[k] != after[k] {
                    changed += 1;
                    // the predicate that changed is the one reading bit i
                    assert_eq!(k as u8, i);
                }
            }
            if i < 5 {
                assert_eq!(changed, 1);
            } else {
                assert_eq!(changed, 0);
            }
        }
    }
}

#[test]
fn bits_returns_the_byte_verbatim() {
    for w in 0u16..0x100 {
        let b: u8 = w as u8;
        assert_eq!(UartStatus::from_bits(b).bits(), b);
    }
}

#[test]
fn status_values_compare_by_byte() {
    let a = UartStatus::from_bits(0x13);
    let b = UartStatus::from_bits(0x13);
    let c = UartStatus::from_bits(0x12);
    assert_eq!(a, b);
    assert_ne!(a, c);
}
