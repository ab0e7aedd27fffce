use hamlibptt::extfsk::parameter::{ExtfskParameter, ExtfskStopbit};
use hamlibptt::spinfsk::{FskParameter, FskStep, FskStopbit, FskTarget};

#[test]
fn parse_reads_the_fields() {
    let p = ExtfskParameter::parse((45 << 16) | (5 << 2) | 1);
    assert_eq!(p, ExtfskParameter { baud: 45, stop_bit: ExtfskStopbit::OneHalf, length: 5 });
    let p = ExtfskParameter::parse((110 << 16) | (8 << 2) | 2);
    assert_eq!(p, ExtfskParameter { baud: 110, stop_bit: ExtfskStopbit::Two, length: 8 });
    let p = ExtfskParameter::parse(0);
    assert_eq!(p, ExtfskParameter { baud: 0, stop_bit: ExtfskStopbit::One, length: 0 });
}

#[test]
fn parse_reads_code_three_as_one_stop_bit_and_ignores_middle_bits() {
    let p = ExtfskParameter::parse(0xffff_ffff);
    assert_eq!(p, ExtfskParameter { baud: 0xffff, stop_bit: ExtfskStopbit::One, length: 15 });
    let p = ExtfskParameter::parse((50 << 16) | 0xffc0 | (7 << 2));
    assert_eq!(p, ExtfskParameter { baud: 50, stop_bit: ExtfskStopbit::One, length: 7 });
}

fn baudot(invert: bool, stop_bit: FskStopbit) -> FskParameter {
    FskParameter { data_bits: 5, baud: 45, stop_bit, target: FskTarget::Dtr, invert }
}

fn step(level: bool, half_ticks: u32) -> FskStep {
    FskStep { level, half_ticks }
}

#[test]
fn frame_sends_start_data_and_stop_bits() {
    let p = baudot(false, FskStopbit::OneHalf);
    let frame = p.frame(0b10110);
    assert_eq!(
        frame,
        vec![
            step(false, 2),
            step(false, 2),
            step(true, 2),
            step(true, 2),
            step(false, 2),
            step(true, 2),
            step(true, 3),
        ]
    );
}

#[test]
fn frame_with_inverted_line() {
    let p = baudot(true, FskStopbit::Two);
    let frame = p.frame(0b00001);
    assert_eq!(
        frame,
        vec![
            step(true, 2),
            step(false, 2),
            step(true, 2),
            step(true, 2),
            step(true, 2),
            step(true, 2),
            step(false, 4),
        ]
    );
    assert!(!p.idle_level());
    assert!(baudot(false, FskStopbit::One).idle_level());
    assert_eq!(baudot(false, FskStopbit::One).stop_half_ticks(), 2);
}

#[test]
fn frame_carries_the_byte_back() {
    for invert in [false, true] {
        let p = FskParameter {
            data_bits: 8,
            baud: 300,
            stop_bit: FskStopbit::One,
            target: FskTarget::Rts,
            invert,
        };
        for byte in 0..=255u8 {
            let frame = p.frame(byte);
            assert_eq!(frame.len(), 10);
            let mut value = 0u32;
            for b in 0..8 {
                if frame[b + 1].level != invert {
                    value |= 1 << b;
                }
            }
            assert_eq!(value, byte as u32);
        }
    }
}

#[test]
fn frame_keeps_only_the_low_bits() {
    let p = baudot(false, FskStopbit::One);
    let frame = p.frame(0xff);
    assert_eq!(frame.len(), 7);
    assert!(frame[1..6].iter().all(|s| s.level));
}

#[test]
fn describe_names_every_field() {
    assert_eq!(
        baudot(false, FskStopbit::OneHalf).describe(),
        "FskParameter { data_bits: 5, baud: 45.0, stop_bit: OneHalf, target: Dtr, invert: false }"
    );
    let p = FskParameter {
        data_bits: 8,
        baud: 110,
        stop_bit: FskStopbit::Two,
        target: FskTarget::Rts,
        invert: true,
    };
    assert_eq!(p.describe(), format!("{:?}", p).replace("baud: 110", "baud: 110.0"));
}

#[test]
fn line_level_flips_with_invert() {
    let p = baudot(true, FskStopbit::One);
    assert!(!p.line_level(true));
    assert!(p.line_level(false));
    let q = baudot(false, FskStopbit::One);
    assert!(q.line_level(true));
}
