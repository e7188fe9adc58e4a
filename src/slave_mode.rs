use vstd::prelude::*;

verus! {

/// Slave-mode selection of the timer's slave-mode controller (SMCR.SMS).
///
/// Each variant has a fixed 4-bit hardware code. In the register the low three
/// bits of the code go to the SMS field and the high bit to the separate
/// SMS_3 field.
#[derive(Copy, Clone, Debug, PartialEq, Eq, Structural)]
pub enum SlaveMode {
    /// Slave mode disabled: the prescaler is clocked by the internal clock.
    Disabled,
    /// Counter counts up/down on TI2FP1 edge depending on TI1FP2 level.
    EncoderMode1,
    /// Counter counts up/down on TI1FP2 edge depending on TI2FP1 level.
    EncoderMode2,
    /// Counter counts up/down on both TI1FP1 and TI2FP2 edges depending on the
    /// level of the other input.
    EncoderMode3,
    /// Rising edge of the trigger input reinitializes the counter and updates
    /// the registers.
    ResetMode,
    /// The counter clock is enabled while the trigger input is high; the counter
    /// stops (but is not reset) when it goes low.
    GatedMode,
    /// The counter starts at a rising edge of the trigger (it is not reset).
    TriggerMode,
    /// Rising edges of the selected trigger clock the counter.
    ExternalClockMode1,
    /// Combined reset and trigger mode.
    CombinedReset,
    /// Combined gated and reset mode.
    CombinedGated,
    /// Encoder mode: clock plus direction, x2.
    EncoderModeClockPlusDirectionX2,
    /// Encoder mode: clock plus direction, x1.
    EncoderModeClockPlusDirectionX1,
    /// Encoder mode: directional clock, x2.
    EncoderModeDirectionalClockX2,
    /// Encoder mode: directional clock, x1; edge sensitivity set by CC1P and CC2P.
    EncoderModeDirectionalClockX1,
    /// Quadrature encoder, x1, counting on TI1FP1 edges only; edge sensitivity set by CC1P.
    QuadratureEncoderModeX1CC1P,
    /// Quadrature encoder, x1, counting on TI2FP2 edges only; edge sensitivity set by CC2P.
    QuadratureEncoderModeX1CC2P,
}

/// The 4-bit hardware code of a slave mode.
pub open spec fn spec_code(m: SlaveMode) -> u8 {
    match m {
        SlaveMode::Disabled => 0x0,
        SlaveMode::EncoderMode1 => 0x1,
        SlaveMode::EncoderMode2 => 0x2,
        SlaveMode::EncoderMode3 => 0x3,
        SlaveMode::ResetMode => 0x4,
        SlaveMode::GatedMode => 0x5,
        SlaveMode::TriggerMode => 0x6,
        SlaveMode::ExternalClockMode1 => 0x7,
        SlaveMode::CombinedReset => 0x8,
        SlaveMode::CombinedGated => 0x9,
        SlaveMode::EncoderModeClockPlusDirectionX2 => 0xA,
        SlaveMode::EncoderModeClockPlusDirectionX1 => 0xB,
        SlaveMode::EncoderModeDirectionalClockX2 => 0xC,
        SlaveMode::EncoderModeDirectionalClockX1 => 0xD,
        SlaveMode::QuadratureEncoderModeX1CC1P => 0xE,
        SlaveMode::QuadratureEncoderModeX1CC2P => 0xF,
    }
}

/// The value of the 3-bit SMS field for a 4-bit code.
pub open spec fn spec_sms_low(code: u8) -> u8 {
    code % 8
}

/// The value of the 1-bit SMS_3 field for a 4-bit code.
pub open spec fn spec_sms_high(code: u8) -> bool {
    (code / 8) % 2 == 1
}

/// The 4-bit code held by an SMS field and an SMS_3 bit.
pub open spec fn spec_join_sms(low: u8, high: bool) -> u8 {
    if high { (low % 8 + 8) as u8 } else { low % 8 }
}

impl SlaveMode {
    /// The 4-bit hardware code of this mode.
    pub fn code(&self) -> (r: u8)
        ensures
            r == spec_code(*self),
            r < 16,
    {
        match self {
            SlaveMode::Disabled => 0x0,
            SlaveMode::EncoderMode1 => 0x1,
            SlaveMode::EncoderMode2 => 0x2,
            SlaveMode::EncoderMode3 => 0x3,
            SlaveMode::ResetMode => 0x4,
            SlaveMode::GatedMode => 0x5,
            SlaveMode::TriggerMode => 0x6,
            SlaveMode::ExternalClockMode1 => 0x7,
            SlaveMode::CombinedReset => 0x8,
            SlaveMode::CombinedGated => 0x9,
            SlaveMode::EncoderModeClockPlusDirectionX2 => 0xA,
            SlaveMode::EncoderModeClockPlusDirectionX1 => 0xB,
            SlaveMode::EncoderModeDirectionalClockX2 => 0xC,
            SlaveMode::EncoderModeDirectionalClockX1 => 0xD,
            SlaveMode::QuadratureEncoderModeX1CC1P => 0xE,
            SlaveMode::QuadratureEncoderModeX1CC2P => 0xF,
        }
    }

    /// The mode with the given 4-bit code, or `None` where `code` does not fit
    /// in four bits.
    pub fn from_code(code: u8) -> (r: Option<SlaveMode>)
        ensures
            code < 16 <==> r.is_some(),
            r matches Some(m) ==> spec_code(m) == code,
    {
        match code {
            0x0 => Some(SlaveMode::Disabled),
            0x1 => Some(SlaveMode::EncoderMode1),
            0x2 => Some(SlaveMode::EncoderMode2),
            0x3 => Some(SlaveMode::EncoderMode3),
            0x4 => Some(SlaveMode::ResetMode),
            0x5 => Some(SlaveMode::GatedMode),
            0x6 => Some(SlaveMode::TriggerMode),
            0x7 => Some(SlaveMode::ExternalClockMode1),
            0x8 => Some(SlaveMode::CombinedReset),
            0x9 => Some(SlaveMode::CombinedGated),
            0xA => Some(SlaveMode::EncoderModeClockPlusDirectionX2),
            0xB => Some(SlaveMode::EncoderModeClockPlusDirectionX1),
            0xC => Some(SlaveMode::EncoderModeDirectionalClockX2),
            0xD => Some(SlaveMode::EncoderModeDirectionalClockX1),
            0xE => Some(SlaveMode::QuadratureEncoderModeX1CC1P),
            0xF => Some(SlaveMode::QuadratureEncoderModeX1CC2P),
            _ => None,
        }
    }

    /// The two register fields for this mode: the 3-bit SMS value and the
    /// SMS_3 bit.
    pub fn sms_fields(&self) -> (r: (u8, bool))
        ensures
            r.0 == spec_sms_low(spec_code(*self)),
            r.1 == spec_sms_high(spec_code(*self)),
            r.0 < 8,
    {
        let code = self.code();
        let low = code & 0x7;
        let high = code & 0x8 != 0;
        assert(code & 0x7 == code % 8 && (code & 0x8 != 0) == ((code / 8) % 2 == 1)) by (bit_vector);
        (low, high)
    }

    /// The mode held by an SMS field value and an SMS_3 bit. Bits of `low`
    /// above the field's three are ignored, as the field would drop them.
    pub fn from_sms_fields(low: u8, high: bool) -> (r: SlaveMode)
        ensures
            spec_code(r) == spec_join_sms(low, high),
    {
        let code: u8 = if high { (low & 0x7) | 0x8 } else { low & 0x7 };
        assert((low & 0x7) | 0x8 == low % 8 + 8 && low & 0x7 == low % 8) by (bit_vector);
        match SlaveMode::from_code(code) {
            Some(m) => m,
            None => SlaveMode::Disabled,
        }
    }
}

/// Two modes with the same code are the same mode: the code identifies the
/// mode with no ambiguity.
pub proof fn lemma_code_injective(a: SlaveMode, b: SlaveMode)
    requires
        spec_code(a) == spec_code(b),
    ensures
        a == b,
{
}

/// Every 4-bit code is the code of some mode.
pub proof fn lemma_code_surjective(code: u8)
    requires
        code < 16,
    ensures
        exists|m: SlaveMode| spec_code(m) == code,
{
    let m = match code {
        0x0 => SlaveMode::Disabled,
        0x1 => SlaveMode::EncoderMode1,
        0x2 => SlaveMode::EncoderMode2,
        0x3 => SlaveMode::EncoderMode3,
        0x4 => SlaveMode::ResetMode,
        0x5 => SlaveMode::GatedMode,
        0x6 => SlaveMode::TriggerMode,
        0x7 => SlaveMode::ExternalClockMode1,
        0x8 => SlaveMode::CombinedReset,
        0x9 => SlaveMode::CombinedGated,
        0xA => SlaveMode::EncoderModeClockPlusDirectionX2,
        0xB => SlaveMode::EncoderModeClockPlusDirectionX1,
        0xC => SlaveMode::EncoderModeDirectionalClockX2,
        0xD => SlaveMode::EncoderModeDirectionalClockX1,
        0xE => SlaveMode::QuadratureEncoderModeX1CC1P,
        _ => SlaveMode::QuadratureEncoderModeX1CC2P,
    };
    assert(spec_code(m) == code);
}

/// Splitting a mode's code into the SMS field and the SMS_3 bit and joining
/// the two again gives back the code, and with it the mode.
pub proof fn lemma_sms_split_round_trip(m: SlaveMode)
    ensures
        spec_join_sms(spec_sms_low(spec_code(m)), spec_sms_high(spec_code(m))) == spec_code(m),
{
    assert(spec_code(m) < 16);
}

} // verus!
