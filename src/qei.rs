use vstd::prelude::*;

use crate::registers::{
    apply_prefix, apply_write, apply_writes, lemma_other_writes_keep_cr1, cc1np, cc1p, cc1s, cc2np, cc2p, cc2s, cen, sms,
    sms_3, writes_cr1, FieldWrite, RegisterBlock, DIRECT_INPUT,
};
use crate::slave_mode::{spec_code, spec_join_sms, spec_sms_high, spec_sms_low, SlaveMode};

verus! {

/// Quadrature encoder interface options.
///
/// The default counts on both edges of both inputs (four counts per pulse)
/// over the full 16-bit range, wrapping to 0 on overflow.
#[derive(Copy, Clone, Debug)]
pub struct QeiOptions {
    /// Encoder slave mode.
    pub slave_mode: SlaveMode,
    /// Auto-reload value: the largest count, up to 65535. The configuration
    /// sequence does not write it to the auto-reload register, so the
    /// register keeps the value it had.
    pub auto_reload_value: u16,
}

impl Default for QeiOptions {
    fn default() -> (r: Self)
        ensures
            r.slave_mode == SlaveMode::EncoderMode3,
            r.auto_reload_value == u16::MAX,
    {
        QeiOptions { slave_mode: SlaveMode::EncoderMode3, auto_reload_value: u16::MAX }
    }
}

/// A general-purpose timer: its register block, and the field writes made on
/// it through this handle, oldest first.
pub struct Timer {
    regs: RegisterBlock,
    writes: Vec<FieldWrite>,
}

/// The field writes that put a timer into encoder mode, in the order in which
/// they must reach the hardware: input selection and polarity first, then the
/// slave mode, then the counter enable.
pub open spec fn qei_sequence(mode: SlaveMode) -> Seq<FieldWrite> {
    seq![
        FieldWrite::Cc1s(DIRECT_INPUT),
        FieldWrite::Cc2s(DIRECT_INPUT),
        FieldWrite::Cc1Polarity { cc1p: false, cc1np: false },
        FieldWrite::Cc2Polarity { cc2p: false, cc2np: false },
        FieldWrite::SlaveMode {
            sms: spec_sms_low(spec_code(mode)),
            sms_3: spec_sms_high(spec_code(mode)),
        },
        FieldWrite::CounterEnable(true),
    ]
}

/// The register fields that encoder mode relies on, as the configuration
/// sequence leaves them.
pub open spec fn encoder_configured(r: RegisterBlock, mode: SlaveMode) -> bool {
    &&& cc1s(r.ccmr1) == DIRECT_INPUT as u32
    &&& cc2s(r.ccmr1) == DIRECT_INPUT as u32
    &&& !cc1p(r.ccer) && !cc1np(r.ccer)
    &&& !cc2p(r.ccer) && !cc2np(r.ccer)
    &&& sms(r.smcr) == spec_sms_low(spec_code(mode)) as u32
    &&& sms_3(r.smcr) == spec_sms_high(spec_code(mode))
    &&& spec_join_sms(sms(r.smcr) as u8, sms_3(r.smcr)) == spec_code(mode)
    &&& cen(r.cr1)
}

impl Timer {
    /// A timer over the given register block, with no writes made yet.
    pub fn new(regs: RegisterBlock) -> (r: Timer)
        ensures
            r.registers_spec() == regs,
            r.writes_spec() == Seq::<FieldWrite>::empty(),
    {
        Timer { regs, writes: Vec::new() }
    }

    pub closed spec fn registers_spec(&self) -> RegisterBlock {
        self.regs
    }

    pub closed spec fn writes_spec(&self) -> Seq<FieldWrite> {
        self.writes@
    }

    /// The current register block.
    pub fn registers(&self) -> (r: RegisterBlock)
        ensures
            r == self.registers_spec(),
    {
        self.regs
    }

    /// The field writes made through this handle, oldest first.
    pub fn writes(&self) -> (r: &[FieldWrite])
        ensures
            r@ == self.writes_spec(),
    {
        self.writes.as_slice()
    }

    /// Performs one field write on the register block and records it.
    fn write(&mut self, w: FieldWrite)
        ensures
            final(self).registers_spec() == apply_write(old(self).registers_spec(), w),
            final(self).writes_spec() == old(self).writes_spec().push(w),
    {
        self.regs.write_field(w);
        self.writes.push(w);
    }

    /// Puts the timer into encoder mode on its first two input channels and
    /// hands back the encoder, which owns the timer and the pins.
    ///
    /// The writes are those of `qei_sequence`, in its order. Neither the
    /// counter nor the auto-reload register is written: the count goes on
    /// from the value it had, and `options.auto_reload_value` is not applied.
    pub fn qei<PINS>(self, pins: PINS, options: QeiOptions) -> (r: Qei<Timer, PINS>)
        ensures
            r.timer_spec().writes_spec() == self.writes_spec() + qei_sequence(options.slave_mode),
            r.timer_spec().registers_spec() == apply_writes(
                self.registers_spec(),
                qei_sequence(options.slave_mode),
            ),
            encoder_configured(r.timer_spec().registers_spec(), options.slave_mode),
            r.timer_spec().registers_spec().cnt == self.registers_spec().cnt,
            r.timer_spec().registers_spec().arr == self.registers_spec().arr,
            r.pins_spec() == pins,
    {
        let mut tim = self;
        let (low, high) = options.slave_mode.sms_fields();
        tim.write(FieldWrite::Cc1s(DIRECT_INPUT));
        tim.write(FieldWrite::Cc2s(DIRECT_INPUT));
        tim.write(FieldWrite::Cc1Polarity { cc1p: false, cc1np: false });
        tim.write(FieldWrite::Cc2Polarity { cc2p: false, cc2np: false });
        tim.write(FieldWrite::SlaveMode { sms: low, sms_3: high });
        tim.write(FieldWrite::CounterEnable(true));
        proof {
            let s = qei_sequence(options.slave_mode);
            assert(tim.writes_spec() =~= self.writes_spec() + s);
            let r0 = self.registers_spec();
            assert(apply_prefix(r0, s, 0) == r0);
            assert(apply_prefix(r0, s, 1) == apply_write(r0, s[0]));
            assert(apply_prefix(r0, s, 2) == apply_write(apply_prefix(r0, s, 1), s[1]));
            assert(apply_prefix(r0, s, 3) == apply_write(apply_prefix(r0, s, 2), s[2]));
            assert(apply_prefix(r0, s, 4) == apply_write(apply_prefix(r0, s, 3), s[3]));
            assert(apply_prefix(r0, s, 5) == apply_write(apply_prefix(r0, s, 4), s[4]));
            assert(apply_prefix(r0, s, 6) == apply_write(apply_prefix(r0, s, 5), s[5]));
            assert(tim.registers_spec() == apply_writes(r0, s));
            lemma_qei_sequence(r0, options.slave_mode);
        }
        Qei { tim, pins }
    }
}

/// The configuration sequence leaves every field that encoder mode relies on
/// as that mode needs it, including the slave-mode code split over SMS and
/// SMS_3 such that joining the two fields gives the code back; it writes
/// neither the counter nor the auto-reload register.
pub proof fn lemma_qei_sequence(r: RegisterBlock, mode: SlaveMode)
    ensures
        encoder_configured(apply_writes(r, qei_sequence(mode)), mode),
        apply_writes(r, qei_sequence(mode)).cnt == r.cnt,
        apply_writes(r, qei_sequence(mode)).arr == r.arr,
{
    let s = qei_sequence(mode);
    let code = spec_code(mode);
    let high = spec_sms_high(code);
    assert(s.len() == 6);
    let r1 = apply_prefix(r, s, 1);
    let r2 = apply_prefix(r, s, 2);
    let r3 = apply_prefix(r, s, 3);
    let r4 = apply_prefix(r, s, 4);
    let r5 = apply_prefix(r, s, 5);
    let r6 = apply_prefix(r, s, 6);
    assert(apply_prefix(r, s, 0) == r);
    assert(r1 == apply_write(r, s[0]));
    assert(r2 == apply_write(r1, s[1]));
    assert(r3 == apply_write(r2, s[2]));
    assert(r4 == apply_write(r3, s[3]));
    assert(r5 == apply_write(r4, s[4]));
    assert(r6 == apply_write(r5, s[5]));
    lemma_direct_inputs(r.ccmr1);
    lemma_polarity_cleared(r.ccer);
    assert(code < 16);
    assert(code < 16 ==> code % 8 == code & 0x7 && ((code / 8) % 2 == 1) == (code & 0x8 != 0))
        by (bit_vector);
    lemma_sms_written(r.smcr, code, high);
    crate::slave_mode::lemma_sms_split_round_trip(mode);
    lemma_enable_written(r.cr1);
}

proof fn lemma_direct_inputs(m: u32)
    by (bit_vector)
    ensures
        (((((m & !0x3u32) | (1u32 & 0x3)) & !0x300u32) | ((1u32 & 0x3) << 8u32)) & 0x3) == 1u32,
        ((((((m & !0x3u32) | (1u32 & 0x3)) & !0x300u32) | ((1u32 & 0x3) << 8u32)) >> 8u32) & 0x3)
            == 1u32,
{
}

proof fn lemma_polarity_cleared(c: u32)
    by (bit_vector)
    ensures
        (((((c & !0xAu32) | 0u32 | 0u32) & !0xA0u32) | 0u32 | 0u32) & 0x2) == 0u32,
        (((((c & !0xAu32) | 0u32 | 0u32) & !0xA0u32) | 0u32 | 0u32) & 0x8) == 0u32,
        (((((c & !0xAu32) | 0u32 | 0u32) & !0xA0u32) | 0u32 | 0u32) & 0x20) == 0u32,
        (((((c & !0xAu32) | 0u32 | 0u32) & !0xA0u32) | 0u32 | 0u32) & 0x80) == 0u32,
{
}

proof fn lemma_sms_written(sm: u32, code: u8, high: bool)
    by (bit_vector)
    requires
        code < 16,
        high == (code & 0x8 != 0),
    ensures
        ((((sm & !0x1_0007u32) | ((code & 0x7) as u32 & 0x7) | (if high { 0x1_0000u32 } else { 0u32 })) & 0x7)
            == (code & 0x7) as u32),
        ((((sm & !0x1_0007u32) | ((code & 0x7) as u32 & 0x7) | (if high { 0x1_0000u32 } else { 0u32 })) & 0x1_0000) != 0)
            == high,
        (((((sm & !0x1_0007u32) | ((code & 0x7) as u32 & 0x7) | (if high { 0x1_0000u32 } else { 0u32 })) & 0x7) as u8) == code & 0x7),
{
}

proof fn lemma_enable_written(c: u32)
    by (bit_vector)
    ensures
        (((c & !0x1u32) | 0x1u32) & 0x1) != 0u32,
{
}

/// In the configuration sequence only the last write touches CR1, and it sets
/// the counter enable: CR1 is as it was until then, and no write of the
/// sequence clears the enable once it is set.
pub proof fn lemma_enable_last_and_kept(r: RegisterBlock, mode: SlaveMode)
    ensures
        qei_sequence(mode).last() == FieldWrite::CounterEnable(true),
        forall|i: int|
            0 <= i < qei_sequence(mode).len() - 1 ==> !writes_cr1(#[trigger] qei_sequence(mode)[i]),
        apply_prefix(r, qei_sequence(mode), 5).cr1 == r.cr1,
        cen(apply_writes(r, qei_sequence(mode)).cr1),
{
    let s = qei_sequence(mode);
    assert(apply_prefix(r, s, 0) == r);
    lemma_other_writes_keep_cr1(apply_prefix(r, s, 0), s[0]);
    lemma_other_writes_keep_cr1(apply_prefix(r, s, 1), s[1]);
    lemma_other_writes_keep_cr1(apply_prefix(r, s, 2), s[2]);
    lemma_other_writes_keep_cr1(apply_prefix(r, s, 3), s[3]);
    lemma_other_writes_keep_cr1(apply_prefix(r, s, 4), s[4]);
    lemma_qei_sequence(r, mode);
}

/// A quadrature encoder: a timer counting in encoder mode, with the pins that
/// carry its two input signals.
pub struct Qei<TIM, PINS> {
    tim: TIM,
    pins: PINS,
}

impl<TIM, PINS> Qei<TIM, PINS> {
    pub closed spec fn timer_spec(&self) -> TIM {
        self.tim
    }

    pub closed spec fn pins_spec(&self) -> PINS {
        self.pins
    }

    /// The timer that does the counting.
    pub fn timer(&self) -> (r: &TIM)
        ensures
            *r == self.timer_spec(),
    {
        &self.tim
    }

    /// The pins that carry the two input signals.
    pub fn pins(&self) -> (r: &PINS)
        ensures
            *r == self.pins_spec(),
    {
        &self.pins
    }
}

/// What `read` returns for a timer: its counter register, 16 bits wide.
pub open spec fn count_of(t: Timer) -> u16 {
    t.registers_spec().cnt as u16
}

impl<PINS> Qei<Timer, PINS> {
    /// The current count. Reading changes nothing: it neither resets nor
    /// acknowledges the count.
    pub fn read(&self) -> (r: u16)
        ensures
            r == count_of(self.timer_spec()),
    {
        #[verifier::truncate]
        (self.tim.regs.cnt as u16)
    }
}

/// Two reads of an encoder whose timer has not changed between them give the
/// same value.
pub proof fn lemma_read_repeatable<PINS>(a: Qei<Timer, PINS>, b: Qei<Timer, PINS>)
    requires
        a.timer_spec().registers_spec() == b.timer_spec().registers_spec(),
    ensures
        count_of(a.timer_spec()) == count_of(b.timer_spec()),
{
}

/// Configuring does not reset the counter: the first read after it gives the
/// count that the timer held before.
pub proof fn lemma_configure_keeps_count(r: RegisterBlock, mode: SlaveMode)
    ensures
        apply_writes(r, qei_sequence(mode)).cnt as u16 == r.cnt as u16,
{
    lemma_qei_sequence(r, mode);
}

} // verus!
