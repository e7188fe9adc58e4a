use vstd::prelude::*;

verus! {

/// The registers of a general-purpose timer that the encoder interface uses,
/// each as its 32-bit word.
#[derive(Copy, Clone, Debug, PartialEq, Eq, Structural)]
pub struct RegisterBlock {
    /// Control register 1 (CR1); bit 0 is CEN, the counter enable.
    pub cr1: u32,
    /// Capture/compare mode register 1 in input mode (CCMR1); bits 1:0 are
    /// CC1S, bits 9:8 are CC2S.
    pub ccmr1: u32,
    /// Capture/compare enable register (CCER); bit 1 is CC1P, bit 3 CC1NP,
    /// bit 5 CC2P, bit 7 CC2NP.
    pub ccer: u32,
    /// Slave mode control register (SMCR); bits 2:0 are SMS, bit 16 is SMS_3.
    pub smcr: u32,
    /// Counter (CNT).
    pub cnt: u32,
    /// Auto-reload register (ARR).
    pub arr: u32,
}

/// CCxS value that maps an input channel to its own timer input (TIx).
pub const DIRECT_INPUT: u8 = 0b01;

/// One field write on the register block.
#[derive(Copy, Clone, Debug, PartialEq, Eq, Structural)]
pub enum FieldWrite {
    /// CCMR1.CC1S := the low two bits of the value.
    Cc1s(u8),
    /// CCMR1.CC2S := the low two bits of the value.
    Cc2s(u8),
    /// CCER.CC1P and CCER.CC1NP.
    Cc1Polarity { cc1p: bool, cc1np: bool },
    /// CCER.CC2P and CCER.CC2NP.
    Cc2Polarity { cc2p: bool, cc2np: bool },
    /// SMCR.SMS := the low three bits of `sms`; SMCR.SMS_3 := `sms_3`.
    SlaveMode { sms: u8, sms_3: bool },
    /// CR1.CEN.
    CounterEnable(bool),
}

pub open spec fn cc1s(ccmr1: u32) -> u32 {
    ccmr1 & 0x3
}

pub open spec fn cc2s(ccmr1: u32) -> u32 {
    (ccmr1 >> 8u32) & 0x3
}

pub open spec fn cc1p(ccer: u32) -> bool {
    ccer & 0x2 != 0
}

pub open spec fn cc1np(ccer: u32) -> bool {
    ccer & 0x8 != 0
}

pub open spec fn cc2p(ccer: u32) -> bool {
    ccer & 0x20 != 0
}

pub open spec fn cc2np(ccer: u32) -> bool {
    ccer & 0x80 != 0
}

pub open spec fn sms(smcr: u32) -> u32 {
    smcr & 0x7
}

pub open spec fn sms_3(smcr: u32) -> bool {
    smcr & 0x1_0000 != 0
}

pub open spec fn cen(cr1: u32) -> bool {
    cr1 & 0x1 != 0
}

pub open spec fn bit(b: bool, mask: u32) -> u32 {
    if b { mask } else { 0 }
}

/// The register block after one field write: the written field takes the new
/// value and every other bit keeps its old one.
pub open spec fn apply_write(r: RegisterBlock, w: FieldWrite) -> RegisterBlock {
    match w {
        FieldWrite::Cc1s(v) => RegisterBlock { ccmr1: (r.ccmr1 & !0x3u32) | (v as u32 & 0x3), ..r },
        FieldWrite::Cc2s(v) => RegisterBlock {
            ccmr1: (r.ccmr1 & !0x300u32) | ((v as u32 & 0x3) << 8u32),
            ..r
        },
        FieldWrite::Cc1Polarity { cc1p, cc1np } => RegisterBlock {
            ccer: (r.ccer & !0xAu32) | bit(cc1p, 0x2) | bit(cc1np, 0x8),
            ..r
        },
        FieldWrite::Cc2Polarity { cc2p, cc2np } => RegisterBlock {
            ccer: (r.ccer & !0xA0u32) | bit(cc2p, 0x20) | bit(cc2np, 0x80),
            ..r
        },
        FieldWrite::SlaveMode { sms, sms_3 } => RegisterBlock {
            smcr: (r.smcr & !0x1_0007u32) | (sms as u32 & 0x7) | bit(sms_3, 0x1_0000),
            ..r
        },
        FieldWrite::CounterEnable(b) => RegisterBlock { cr1: (r.cr1 & !0x1u32) | bit(b, 0x1), ..r },
    }
}

/// The register block after the first `n` writes of `ws`, in order.
pub open spec fn apply_prefix(r: RegisterBlock, ws: Seq<FieldWrite>, n: nat) -> RegisterBlock
    decreases n,
{
    if n == 0 {
        r
    } else {
        apply_write(apply_prefix(r, ws, (n - 1) as nat), ws[n - 1])
    }
}

/// The register block after all writes of `ws`, in order.
pub open spec fn apply_writes(r: RegisterBlock, ws: Seq<FieldWrite>) -> RegisterBlock {
    apply_prefix(r, ws, ws.len())
}

/// Whether a write touches CR1.
pub open spec fn writes_cr1(w: FieldWrite) -> bool {
    w is CounterEnable
}

fn bit_of(b: bool, mask: u32) -> (r: u32)
    ensures
        r == bit(b, mask),
{
    if b { mask } else { 0 }
}

impl RegisterBlock {
    /// Performs one field write, leaving every other bit as it was.
    pub fn write_field(&mut self, w: FieldWrite)
        ensures
            *final(self) == apply_write(*old(self), w),
    {
        match w {
            FieldWrite::Cc1s(v) => {
                self.ccmr1 = (self.ccmr1 & !0x3u32) | (v as u32 & 0x3);
            },
            FieldWrite::Cc2s(v) => {
                self.ccmr1 = (self.ccmr1 & !0x300u32) | ((v as u32 & 0x3) << 8u32);
            },
            FieldWrite::Cc1Polarity { cc1p, cc1np } => {
                self.ccer = (self.ccer & !0xAu32) | bit_of(cc1p, 0x2) | bit_of(cc1np, 0x8);
            },
            FieldWrite::Cc2Polarity { cc2p, cc2np } => {
                self.ccer = (self.ccer & !0xA0u32) | bit_of(cc2p, 0x20) | bit_of(cc2np, 0x80);
            },
            FieldWrite::SlaveMode { sms, sms_3 } => {
                self.smcr = (self.smcr & !0x1_0007u32) | (sms as u32 & 0x7) | bit_of(
                    sms_3,
                    0x1_0000,
                );
            },
            FieldWrite::CounterEnable(b) => {
                self.cr1 = (self.cr1 & !0x1u32) | bit_of(b, 0x1);
            },
        }
    }
}

/// A write that does not touch CR1 leaves the counter-enable bit as it was.
pub proof fn lemma_other_writes_keep_cr1(r: RegisterBlock, w: FieldWrite)
    requires
        !writes_cr1(w),
    ensures
        apply_write(r, w).cr1 == r.cr1,
        cen(apply_write(r, w).cr1) == cen(r.cr1),
{
}

/// No field write changes the counter or the auto-reload register.
pub proof fn lemma_writes_keep_cnt_arr(r: RegisterBlock, w: FieldWrite)
    ensures
        apply_write(r, w).cnt == r.cnt,
        apply_write(r, w).arr == r.arr,
{
}

} // verus!
