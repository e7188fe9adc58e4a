use qei_encoder::qei::{QeiOptions, Timer};
use qei_encoder::registers::{FieldWrite, RegisterBlock, DIRECT_INPUT};
use qei_encoder::slave_mode::SlaveMode;

const ALL_MODES: [SlaveMode; 16] = [
    SlaveMode::Disabled,
    SlaveMode::EncoderMode1,
    SlaveMode::EncoderMode2,
    SlaveMode::EncoderMode3,
    SlaveMode::ResetMode,
    SlaveMode::GatedMode,
    SlaveMode::TriggerMode,
    SlaveMode::ExternalClockMode1,
    SlaveMode::CombinedReset,
    SlaveMode::CombinedGated,
    SlaveMode::EncoderModeClockPlusDirectionX2,
    SlaveMode::EncoderModeClockPlusDirectionX1,
    SlaveMode::EncoderModeDirectionalClockX2,
    SlaveMode::EncoderModeDirectionalClockX1,
    SlaveMode::QuadratureEncoderModeX1CC1P,
    SlaveMode::QuadratureEncoderModeX1CC2P,
];

fn zero_block() -> RegisterBlock {
    RegisterBlock { cr1: 0, ccmr1: 0, ccer: 0, smcr: 0, cnt: 0, arr: 0 }
}

fn ones_block() -> RegisterBlock {
    RegisterBlock {
        cr1: u32::MAX,
        ccmr1: u32::MAX,
        ccer: u32::MAX,
        smcr: u32::MAX,
        cnt: u32::MAX,
        arr: u32::MAX,
    }
}

#[test]
fn each_mode_has_its_own_code() {
    for (i, m) in ALL_MODES.iter().enumerate() {
        assert_eq!(m.code() as usize, i);
    }
}

#[test]
fn code_round_trip_for_every_mode() {
    for m in ALL_MODES.iter() {
        assert_eq!(SlaveMode::from_code(m.code()), Some(*m));
    }
    for c in 0u8..16 {
        assert_eq!(SlaveMode::from_code(c).map(|m| m.code()), Some(c));
    }
}

#[test]
fn codes_above_four_bits_have_no_mode() {
    assert_eq!(SlaveMode::from_code(16), None);
    assert_eq!(SlaveMode::from_code(0x13), None);
    assert_eq!(SlaveMode::from_code(u8::MAX), None);
}

#[test]
fn sms_fields_split_the_code() {
    assert_eq!(SlaveMode::Disabled.sms_fields(), (0, false));
    assert_eq!(SlaveMode::EncoderMode3.sms_fields(), (0b011, false));
    assert_eq!(SlaveMode::ExternalClockMode1.sms_fields(), (0b111, false));
    assert_eq!(SlaveMode::CombinedReset.sms_fields(), (0b000, true));
    assert_eq!(SlaveMode::EncoderModeDirectionalClockX1.sms_fields(), (0b101, true));
    assert_eq!(SlaveMode::QuadratureEncoderModeX1CC2P.sms_fields(), (0b111, true));
}

#[test]
fn sms_fields_round_trip_for_every_mode() {
    for m in ALL_MODES.iter() {
        let (low, high) = m.sms_fields();
        assert_eq!(low, m.code() & 0x7);
        assert_eq!(high, m.code() & 0x8 != 0);
        assert_eq!(SlaveMode::from_sms_fields(low, high), *m);
    }
}

#[test]
fn from_sms_fields_ignores_bits_above_the_field() {
    assert_eq!(SlaveMode::from_sms_fields(0b1111_1011, false), SlaveMode::EncoderMode3);
    assert_eq!(SlaveMode::from_sms_fields(0b0000_1110, true), SlaveMode::QuadratureEncoderModeX1CC1P);
}

#[test]
fn default_options_are_encoder_mode_3_full_range() {
    let o = QeiOptions::default();
    assert_eq!(o.slave_mode, SlaveMode::EncoderMode3);
    assert_eq!(o.slave_mode.code(), 0b0011);
    assert_eq!(o.auto_reload_value, u16::MAX);
    assert_eq!(o.auto_reload_value, 65535);
}

#[test]
fn configure_writes_in_protocol_order() {
    let t = Timer::new(zero_block());
    let q = t.qei((), QeiOptions::default());
    let expected = vec![
        FieldWrite::Cc1s(DIRECT_INPUT),
        FieldWrite::Cc2s(DIRECT_INPUT),
        FieldWrite::Cc1Polarity { cc1p: false, cc1np: false },
        FieldWrite::Cc2Polarity { cc2p: false, cc2np: false },
        FieldWrite::SlaveMode { sms: 0b011, sms_3: false },
        FieldWrite::CounterEnable(true),
    ];
    assert_eq!(q.timer().writes(), &expected[..]);
}

#[test]
fn configure_writes_split_code_for_every_mode() {
    for m in ALL_MODES.iter() {
        let opts = QeiOptions { slave_mode: *m, auto_reload_value: u16::MAX };
        let q = Timer::new(zero_block()).qei((), opts);
        let regs = q.timer().registers();
        let code = m.code() as u32;
        assert_eq!(regs.smcr & 0x7, code & 0x7);
        assert_eq!(regs.smcr & 0x1_0000 != 0, code & 0x8 != 0);
        assert_eq!(regs.smcr, (code & 0x7) | if code & 0x8 != 0 { 0x1_0000 } else { 0 });
        assert_eq!(
            q.timer().writes()[4],
            FieldWrite::SlaveMode { sms: m.code() & 0x7, sms_3: m.code() & 0x8 != 0 }
        );
    }
}

#[test]
fn configure_from_reset_state() {
    let q = Timer::new(zero_block()).qei((), QeiOptions::default());
    let regs = q.timer().registers();
    assert_eq!(regs.ccmr1, 0x0101);
    assert_eq!(regs.ccer, 0);
    assert_eq!(regs.smcr, 0b011);
    assert_eq!(regs.cr1, 1);
    assert_eq!(regs.cnt, 0);
    assert_eq!(regs.arr, 0);
}

#[test]
fn configure_keeps_unrelated_bits() {
    let opts = QeiOptions { slave_mode: SlaveMode::EncoderMode1, auto_reload_value: 99 };
    let q = Timer::new(ones_block()).qei((), opts);
    let regs = q.timer().registers();
    assert_eq!(regs.ccmr1, 0xFFFF_FDFD);
    assert_eq!(regs.ccer, 0xFFFF_FF55);
    assert_eq!(regs.smcr, 0xFFFE_FFF9);
    assert_eq!(regs.cr1, u32::MAX);
    assert_eq!(regs.arr, u32::MAX);
}

#[test]
fn counter_enable_set_only_by_last_write() {
    let mut regs = ones_block();
    regs.cr1 = 0xFFFF_FFFE;
    let q = Timer::new(regs).qei((), QeiOptions::default());
    let writes = q.timer().writes();
    assert_eq!(writes.len(), 6);
    assert_eq!(writes[5], FieldWrite::CounterEnable(true));
    for w in &writes[..5] {
        assert!(!matches!(w, FieldWrite::CounterEnable(_)));
    }
    assert_eq!(q.timer().registers().cr1 & 1, 1);
    assert_eq!(q.timer().registers().cr1, u32::MAX);
}

#[test]
fn read_twice_gives_same_value() {
    let mut regs = zero_block();
    regs.cnt = 777;
    let q = Timer::new(regs).qei((), QeiOptions::default());
    let a = q.read();
    let b = q.read();
    assert_eq!(a, b);
    assert_eq!(a, 777);
    assert_eq!(q.timer().writes().len(), 6);
}

#[test]
fn configure_does_not_reset_counter() {
    let mut regs = zero_block();
    regs.cnt = 0x1234;
    let q = Timer::new(regs).qei((), QeiOptions::default());
    assert_eq!(q.read(), 0x1234);
    assert_eq!(q.timer().registers().cnt, 0x1234);
}

#[test]
fn read_gives_low_sixteen_bits_of_counter() {
    let mut regs = zero_block();
    regs.cnt = 0x0003_FFFE;
    let q = Timer::new(regs).qei((), QeiOptions::default());
    assert_eq!(q.read(), 0xFFFE);
}

#[test]
fn auto_reload_value_is_not_written() {
    let mut regs = zero_block();
    regs.arr = 500;
    let opts = QeiOptions { slave_mode: SlaveMode::EncoderMode3, auto_reload_value: 1000 };
    let q = Timer::new(regs).qei((), opts);
    assert_eq!(q.timer().registers().arr, 500);
}

#[test]
fn encoder_owns_its_pins() {
    let q = Timer::new(zero_block()).qei((6u8, 7u8), QeiOptions::default());
    assert_eq!(*q.pins(), (6, 7));
}

#[test]
fn writes_already_made_stay_before_configuration() {
    let mut t = Timer::new(zero_block());
    assert!(t.writes().is_empty());
    t = Timer::new(t.registers());
    let q = t.qei((), QeiOptions::default());
    assert_eq!(q.timer().writes()[0], FieldWrite::Cc1s(1));
}

#[test]
fn single_field_writes() {
    let mut r = zero_block();
    r.write_field(FieldWrite::Cc2s(0b11));
    assert_eq!(r.ccmr1, 0x0300);
    r.write_field(FieldWrite::Cc1s(0b110));
    assert_eq!(r.ccmr1, 0x0302);
    r.write_field(FieldWrite::Cc1Polarity { cc1p: true, cc1np: true });
    assert_eq!(r.ccer, 0x0A);
    r.write_field(FieldWrite::Cc2Polarity { cc2p: true, cc2np: false });
    assert_eq!(r.ccer, 0x2A);
    r.write_field(FieldWrite::SlaveMode { sms: 0b1101, sms_3: true });
    assert_eq!(r.smcr, 0x1_0005);
    r.write_field(FieldWrite::CounterEnable(true));
    assert_eq!(r.cr1, 1);
    r.write_field(FieldWrite::CounterEnable(false));
    assert_eq!(r.cr1, 0);
}
