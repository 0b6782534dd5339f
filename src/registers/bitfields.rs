//! Registers whose byte holds several fields, and the values of those fields.
//!
//! Each register is kept as its raw byte; a field is read by shift and mask,
//! and written by clearing its bits and setting the new ones. Fields are
//! numbered from the least significant bit. The setters require a field
//! value that fits its field, so verified callers never cut one. The
//! requirement is not checked at run time: from unverified code, a value
//! too wide spills into the fields above it (`with_touch_thresh(5)` also
//! sets the low bit of `ac_filter`).
use vstd::prelude::*;

verus! {

/// The `mask`-wide field of `byte` that starts at bit `shift`.
pub open spec fn field(byte: u8, shift: u8, mask: u8) -> u8 {
    (byte >> shift) & mask
}

/// A one-bit field read as a flag.
pub open spec fn flag(byte: u8, shift: u8) -> bool {
    field(byte, shift, 1) == 1
}

/// The bit that stands for a flag.
pub open spec fn bit(v: bool) -> u8 {
    if v {
        1
    } else {
        0
    }
}

fn bit_of(v: bool) -> (r: u8)
    ensures
        r == bit(v),
{
    if v {
        1
    } else {
        0
    }
}

/// Proximity threshold of the first OTP bank, in counts.
#[derive(Clone, Copy, Debug, PartialEq, Eq, Structural)]
pub enum ProximityThreshold {
    /// 4 counts.
    Counts4,
    /// 6 counts.
    Counts6,
    /// 8 counts.
    Counts8,
    /// 10 counts.
    Counts10,
}

impl ProximityThreshold {
    /// The two-bit code that stands for the value in a register.
    pub open spec fn spec_code(self) -> u8 {
        match self {
            ProximityThreshold::Counts4 => 0x0,
            ProximityThreshold::Counts6 => 0x1,
            ProximityThreshold::Counts8 => 0x2,
            ProximityThreshold::Counts10 => 0x3,
        }
    }

    /// The value that a code below 4 stands for.
    pub open spec fn spec_from_code(code: u8) -> Self {
        match code {
            0x0 => ProximityThreshold::Counts4,
            0x1 => ProximityThreshold::Counts6,
            0x2 => ProximityThreshold::Counts8,
            _ => ProximityThreshold::Counts10,
        }
    }

    /// The code of the value.
    pub fn code(self) -> (r: u8)
        ensures
            r == self.spec_code(),
            r < 4,
    {
        match self {
            ProximityThreshold::Counts4 => 0x0,
            ProximityThreshold::Counts6 => 0x1,
            ProximityThreshold::Counts8 => 0x2,
            ProximityThreshold::Counts10 => 0x3,
        }
    }

    /// The value that `code` stands for.
    pub fn from_code(code: u8) -> (r: Self)
        requires
            code < 4,
        ensures
            r == Self::spec_from_code(code),
            r.spec_code() == code,
    {
        match code {
            0x0 => ProximityThreshold::Counts4,
            0x1 => ProximityThreshold::Counts6,
            0x2 => ProximityThreshold::Counts8,
            _ => ProximityThreshold::Counts10,
        }
    }

    /// Every value is the one that its code stands for.
    pub proof fn lemma_code_round_trip(self)
        ensures
            Self::spec_from_code(self.spec_code()) == self,
            self.spec_code() < 4,
    {
    }
}

/// Which user interface the sensor offers.
#[derive(Clone, Copy, Debug, PartialEq, Eq, Structural)]
pub enum UiSelect {
    /// Proximity, without movement.
    ProxNoMov,
    /// Proximity with movement.
    ProxWithMov,
    /// Proximity with movement, touch without movement.
    ProxWithMovTouchNoMov,
    /// Proximity with movement, touch on IO2.
    ProxWithMovTouchOnIo2,
}

impl UiSelect {
    /// The two-bit code that stands for the value in a register.
    pub open spec fn spec_code(self) -> u8 {
        match self {
            UiSelect::ProxNoMov => 0x0,
            UiSelect::ProxWithMov => 0x1,
            UiSelect::ProxWithMovTouchNoMov => 0x2,
            UiSelect::ProxWithMovTouchOnIo2 => 0x3,
        }
    }

    /// The value that a code below 4 stands for.
    pub open spec fn spec_from_code(code: u8) -> Self {
        match code {
            0x0 => UiSelect::ProxNoMov,
            0x1 => UiSelect::ProxWithMov,
            0x2 => UiSelect::ProxWithMovTouchNoMov,
            _ => UiSelect::ProxWithMovTouchOnIo2,
        }
    }

    /// The code of the value.
    pub fn code(self) -> (r: u8)
        ensures
            r == self.spec_code(),
            r < 4,
    {
        match self {
            UiSelect::ProxNoMov => 0x0,
            UiSelect::ProxWithMov => 0x1,
            UiSelect::ProxWithMovTouchNoMov => 0x2,
            UiSelect::ProxWithMovTouchOnIo2 => 0x3,
        }
    }

    /// The value that `code` stands for.
    pub fn from_code(code: u8) -> (r: Self)
        requires
            code < 4,
        ensures
            r == Self::spec_from_code(code),
            r.spec_code() == code,
    {
        match code {
            0x0 => UiSelect::ProxNoMov,
            0x1 => UiSelect::ProxWithMov,
            0x2 => UiSelect::ProxWithMovTouchNoMov,
            _ => UiSelect::ProxWithMovTouchOnIo2,
        }
    }

    /// Every value is the one that its code stands for.
    pub proof fn lemma_code_round_trip(self)
        ensures
            Self::spec_from_code(self.spec_code()) == self,
            self.spec_code() < 4,
    {
    }
}

/// Base value of the long term average, in counts.
#[derive(Clone, Copy, Debug, PartialEq, Eq, Structural)]
pub enum BaseValue {
    /// 100 counts.
    Counts100,
    /// 75 counts.
    Counts75,
    /// 150 counts.
    Counts150,
    /// 200 counts.
    Counts200,
}

impl BaseValue {
    /// The two-bit code that stands for the value in a register.
    pub open spec fn spec_code(self) -> u8 {
        match self {
            BaseValue::Counts100 => 0x0,
            BaseValue::Counts75 => 0x1,
            BaseValue::Counts150 => 0x2,
            BaseValue::Counts200 => 0x3,
        }
    }

    /// The value that a code below 4 stands for.
    pub open spec fn spec_from_code(code: u8) -> Self {
        match code {
            0x0 => BaseValue::Counts100,
            0x1 => BaseValue::Counts75,
            0x2 => BaseValue::Counts150,
            _ => BaseValue::Counts200,
        }
    }

    /// The code of the value.
    pub fn code(self) -> (r: u8)
        ensures
            r == self.spec_code(),
            r < 4,
    {
        match self {
            BaseValue::Counts100 => 0x0,
            BaseValue::Counts75 => 0x1,
            BaseValue::Counts150 => 0x2,
            BaseValue::Counts200 => 0x3,
        }
    }

    /// The value that `code` stands for.
    pub fn from_code(code: u8) -> (r: Self)
        requires
            code < 4,
        ensures
            r == Self::spec_from_code(code),
            r.spec_code() == code,
    {
        match code {
            0x0 => BaseValue::Counts100,
            0x1 => BaseValue::Counts75,
            0x2 => BaseValue::Counts150,
            _ => BaseValue::Counts200,
        }
    }

    /// Every value is the one that its code stands for.
    pub proof fn lemma_code_round_trip(self)
        ensures
            Self::spec_from_code(self.spec_code()) == self,
            self.spec_code() < 4,
    {
    }
}

/// Sample rate.
#[derive(Clone, Copy, Debug, PartialEq, Eq, Structural)]
pub enum SampleRate {
    /// 30 Hz (57 ms).
    _30Hz,
    /// 100 Hz (34 ms).
    _100Hz,
    /// 8 Hz (154 ms).
    _8Hz,
    /// 4 Hz (280 ms).
    _4Hz,
}

impl SampleRate {
    /// The two-bit code that stands for the value in a register.
    pub open spec fn spec_code(self) -> u8 {
        match self {
            SampleRate::_30Hz => 0x0,
            SampleRate::_100Hz => 0x1,
            SampleRate::_8Hz => 0x2,
            SampleRate::_4Hz => 0x3,
        }
    }

    /// The value that a code below 4 stands for.
    pub open spec fn spec_from_code(code: u8) -> Self {
        match code {
            0x0 => SampleRate::_30Hz,
            0x1 => SampleRate::_100Hz,
            0x2 => SampleRate::_8Hz,
            _ => SampleRate::_4Hz,
        }
    }

    /// The code of the value.
    pub fn code(self) -> (r: u8)
        ensures
            r == self.spec_code(),
            r < 4,
    {
        match self {
            SampleRate::_30Hz => 0x0,
            SampleRate::_100Hz => 0x1,
            SampleRate::_8Hz => 0x2,
            SampleRate::_4Hz => 0x3,
        }
    }

    /// The value that `code` stands for.
    pub fn from_code(code: u8) -> (r: Self)
        requires
            code < 4,
        ensures
            r == Self::spec_from_code(code),
            r.spec_code() == code,
    {
        match code {
            0x0 => SampleRate::_30Hz,
            0x1 => SampleRate::_100Hz,
            0x2 => SampleRate::_8Hz,
            _ => SampleRate::_4Hz,
        }
    }

    /// Every value is the one that its code stands for.
    pub proof fn lemma_code_round_trip(self)
        ensures
            Self::spec_from_code(self.spec_code()) == self,
            self.spec_code() < 4,
    {
    }
}

/// What the IO2 pin does.
#[derive(Clone, Copy, Debug, PartialEq, Eq, Structural)]
pub enum Io2Function {
    /// Sensitivity input (proximity threshold adjust).
    Sensitivity,
    /// Synchronize input.
    Synchronize,
    /// Movement output.
    Movement,
    /// Ignore input, no output.
    Ignore,
}

impl Io2Function {
    /// The two-bit code that stands for the value in a register.
    pub open spec fn spec_code(self) -> u8 {
        match self {
            Io2Function::Sensitivity => 0x0,
            Io2Function::Synchronize => 0x1,
            Io2Function::Movement => 0x2,
            Io2Function::Ignore => 0x3,
        }
    }

    /// The value that a code below 4 stands for.
    pub open spec fn spec_from_code(code: u8) -> Self {
        match code {
            0x0 => Io2Function::Sensitivity,
            0x1 => Io2Function::Synchronize,
            0x2 => Io2Function::Movement,
            _ => Io2Function::Ignore,
        }
    }

    /// The code of the value.
    pub fn code(self) -> (r: u8)
        ensures
            r == self.spec_code(),
            r < 4,
    {
        match self {
            Io2Function::Sensitivity => 0x0,
            Io2Function::Synchronize => 0x1,
            Io2Function::Movement => 0x2,
            Io2Function::Ignore => 0x3,
        }
    }

    /// The value that `code` stands for.
    pub fn from_code(code: u8) -> (r: Self)
        requires
            code < 4,
        ensures
            r == Self::spec_from_code(code),
            r.spec_code() == code,
    {
        match code {
            0x0 => Io2Function::Sensitivity,
            0x1 => Io2Function::Synchronize,
            0x2 => Io2Function::Movement,
            _ => Io2Function::Ignore,
        }
    }

    /// Every value is the one that its code stands for.
    pub proof fn lemma_code_round_trip(self)
        ensures
            Self::spec_from_code(self.spec_code()) == self,
            self.spec_code() < 4,
    {
    }
}

/// Charge transfer frequency.
#[derive(Clone, Copy, Debug, PartialEq, Eq, Structural)]
pub enum ChargeTransferFrequency {
    /// 500 kHz.
    _500kHz,
    /// 125 kHz.
    _125kHz,
    /// 64 kHz.
    _64kHz,
    /// 16.5 kHz.
    _16kHz,
}

impl ChargeTransferFrequency {
    /// The two-bit code that stands for the value in a register.
    pub open spec fn spec_code(self) -> u8 {
        match self {
            ChargeTransferFrequency::_500kHz => 0x0,
            ChargeTransferFrequency::_125kHz => 0x1,
            ChargeTransferFrequency::_64kHz => 0x2,
            ChargeTransferFrequency::_16kHz => 0x3,
        }
    }

    /// The value that a code below 4 stands for.
    pub open spec fn spec_from_code(code: u8) -> Self {
        match code {
            0x0 => ChargeTransferFrequency::_500kHz,
            0x1 => ChargeTransferFrequency::_125kHz,
            0x2 => ChargeTransferFrequency::_64kHz,
            _ => ChargeTransferFrequency::_16kHz,
        }
    }

    /// The code of the value.
    pub fn code(self) -> (r: u8)
        ensures
            r == self.spec_code(),
            r < 4,
    {
        match self {
            ChargeTransferFrequency::_500kHz => 0x0,
            ChargeTransferFrequency::_125kHz => 0x1,
            ChargeTransferFrequency::_64kHz => 0x2,
            ChargeTransferFrequency::_16kHz => 0x3,
        }
    }

    /// The value that `code` stands for.
    pub fn from_code(code: u8) -> (r: Self)
        requires
            code < 4,
        ensures
            r == Self::spec_from_code(code),
            r.spec_code() == code,
    {
        match code {
            0x0 => ChargeTransferFrequency::_500kHz,
            0x1 => ChargeTransferFrequency::_125kHz,
            0x2 => ChargeTransferFrequency::_64kHz,
            _ => ChargeTransferFrequency::_16kHz,
        }
    }

    /// Every value is the one that its code stands for.
    pub proof fn lemma_code_round_trip(self)
        ensures
            Self::spec_from_code(self.spec_code()) == self,
            self.spec_code() < 4,
    {
    }
}

/// Quick release threshold, in counts.
#[derive(Clone, Copy, Debug, PartialEq, Eq, Structural)]
pub enum QuickReleaseThreshold {
    /// 100 counts.
    Qrt100,
    /// 150 counts.
    Qrt150,
    /// 50 counts.
    Qrt50,
    /// 250 counts.
    Qrt250,
    /// 10 counts.
    Qrt10,
    /// 20 counts.
    Qrt20,
    /// 25 counts.
    Qrt25,
    /// 30 counts.
    Qrt30,
    /// 75 counts.
    Qrt75,
    /// 200 counts.
    Qrt200,
    /// 300 counts.
    Qrt300,
    /// 400 counts.
    Qrt400,
    /// 500 counts.
    Qrt500,
    /// 750 counts.
    Qrt750,
    /// 850 counts.
    Qrt850,
    /// 1000 counts.
    Qrt1000,
}

impl QuickReleaseThreshold {
    /// The four-bit code that stands for the value in a register.
    pub open spec fn spec_code(self) -> u8 {
        match self {
            QuickReleaseThreshold::Qrt100 => 0x0,
            QuickReleaseThreshold::Qrt150 => 0x1,
            QuickReleaseThreshold::Qrt50 => 0x2,
            QuickReleaseThreshold::Qrt250 => 0x3,
            QuickReleaseThreshold::Qrt10 => 0x4,
            QuickReleaseThreshold::Qrt20 => 0x5,
            QuickReleaseThreshold::Qrt25 => 0x6,
            QuickReleaseThreshold::Qrt30 => 0x7,
            QuickReleaseThreshold::Qrt75 => 0x8,
            QuickReleaseThreshold::Qrt200 => 0x9,
            QuickReleaseThreshold::Qrt300 => 0xa,
            QuickReleaseThreshold::Qrt400 => 0xb,
            QuickReleaseThreshold::Qrt500 => 0xc,
            QuickReleaseThreshold::Qrt750 => 0xd,
            QuickReleaseThreshold::Qrt850 => 0xe,
            QuickReleaseThreshold::Qrt1000 => 0xf,
        }
    }

    /// The value that a code below 16 stands for.
    pub open spec fn spec_from_code(code: u8) -> Self {
        match code {
            0x0 => QuickReleaseThreshold::Qrt100,
            0x1 => QuickReleaseThreshold::Qrt150,
            0x2 => QuickReleaseThreshold::Qrt50,
            0x3 => QuickReleaseThreshold::Qrt250,
            0x4 => QuickReleaseThreshold::Qrt10,
            0x5 => QuickReleaseThreshold::Qrt20,
            0x6 => QuickReleaseThreshold::Qrt25,
            0x7 => QuickReleaseThreshold::Qrt30,
            0x8 => QuickReleaseThreshold::Qrt75,
            0x9 => QuickReleaseThreshold::Qrt200,
            0xa => QuickReleaseThreshold::Qrt300,
            0xb => QuickReleaseThreshold::Qrt400,
            0xc => QuickReleaseThreshold::Qrt500,
            0xd => QuickReleaseThreshold::Qrt750,
            0xe => QuickReleaseThreshold::Qrt850,
            _ => QuickReleaseThreshold::Qrt1000,
        }
    }

    /// The code of the value.
    pub fn code(self) -> (r: u8)
        ensures
            r == self.spec_code(),
            r < 16,
    {
        match self {
            QuickReleaseThreshold::Qrt100 => 0x0,
            QuickReleaseThreshold::Qrt150 => 0x1,
            QuickReleaseThreshold::Qrt50 => 0x2,
            QuickReleaseThreshold::Qrt250 => 0x3,
            QuickReleaseThreshold::Qrt10 => 0x4,
            QuickReleaseThreshold::Qrt20 => 0x5,
            QuickReleaseThreshold::Qrt25 => 0x6,
            QuickReleaseThreshold::Qrt30 => 0x7,
            QuickReleaseThreshold::Qrt75 => 0x8,
            QuickReleaseThreshold::Qrt200 => 0x9,
            QuickReleaseThreshold::Qrt300 => 0xa,
            QuickReleaseThreshold::Qrt400 => 0xb,
            QuickReleaseThreshold::Qrt500 => 0xc,
            QuickReleaseThreshold::Qrt750 => 0xd,
            QuickReleaseThreshold::Qrt850 => 0xe,
            QuickReleaseThreshold::Qrt1000 => 0xf,
        }
    }

    /// The value that `code` stands for.
    pub fn from_code(code: u8) -> (r: Self)
        requires
            code < 16,
        ensures
            r == Self::spec_from_code(code),
            r.spec_code() == code,
    {
        match code {
            0x0 => QuickReleaseThreshold::Qrt100,
            0x1 => QuickReleaseThreshold::Qrt150,
            0x2 => QuickReleaseThreshold::Qrt50,
            0x3 => QuickReleaseThreshold::Qrt250,
            0x4 => QuickReleaseThreshold::Qrt10,
            0x5 => QuickReleaseThreshold::Qrt20,
            0x6 => QuickReleaseThreshold::Qrt25,
            0x7 => QuickReleaseThreshold::Qrt30,
            0x8 => QuickReleaseThreshold::Qrt75,
            0x9 => QuickReleaseThreshold::Qrt200,
            0xa => QuickReleaseThreshold::Qrt300,
            0xb => QuickReleaseThreshold::Qrt400,
            0xc => QuickReleaseThreshold::Qrt500,
            0xd => QuickReleaseThreshold::Qrt750,
            0xe => QuickReleaseThreshold::Qrt850,
            _ => QuickReleaseThreshold::Qrt1000,
        }
    }

    /// The threshold in counts.
    pub open spec fn spec_counts(self) -> u16 {
        match self {
            QuickReleaseThreshold::Qrt100 => 100,
            QuickReleaseThreshold::Qrt150 => 150,
            QuickReleaseThreshold::Qrt50 => 50,
            QuickReleaseThreshold::Qrt250 => 250,
            QuickReleaseThreshold::Qrt10 => 10,
            QuickReleaseThreshold::Qrt20 => 20,
            QuickReleaseThreshold::Qrt25 => 25,
            QuickReleaseThreshold::Qrt30 => 30,
            QuickReleaseThreshold::Qrt75 => 75,
            QuickReleaseThreshold::Qrt200 => 200,
            QuickReleaseThreshold::Qrt300 => 300,
            QuickReleaseThreshold::Qrt400 => 400,
            QuickReleaseThreshold::Qrt500 => 500,
            QuickReleaseThreshold::Qrt750 => 750,
            QuickReleaseThreshold::Qrt850 => 850,
            QuickReleaseThreshold::Qrt1000 => 1000,
        }
    }

    /// The threshold in counts.
    pub fn counts(&self) -> (r: u16)
        ensures
            r == self.spec_counts(),
    {
        match self {
            Self::Qrt100 => 100,
            Self::Qrt150 => 150,
            Self::Qrt50 => 50,
            Self::Qrt250 => 250,
            Self::Qrt10 => 10,
            Self::Qrt20 => 20,
            Self::Qrt25 => 25,
            Self::Qrt30 => 30,
            Self::Qrt75 => 75,
            Self::Qrt200 => 200,
            Self::Qrt300 => 300,
            Self::Qrt400 => 400,
            Self::Qrt500 => 500,
            Self::Qrt750 => 750,
            Self::Qrt850 => 850,
            Self::Qrt1000 => 1000,
        }
    }

    /// The threshold of exactly `counts` counts, if the sensor has one.
    pub fn from_counts(counts: u16) -> (r: Option<Self>)
        ensures
            r matches Some(t) ==> t.spec_counts() == counts,
            r is None ==> forall|t: Self| t.spec_counts() != counts,
    {
        match counts {
            100 => Some(Self::Qrt100),
            150 => Some(Self::Qrt150),
            50 => Some(Self::Qrt50),
            250 => Some(Self::Qrt250),
            10 => Some(Self::Qrt10),
            20 => Some(Self::Qrt20),
            25 => Some(Self::Qrt25),
            30 => Some(Self::Qrt30),
            75 => Some(Self::Qrt75),
            200 => Some(Self::Qrt200),
            300 => Some(Self::Qrt300),
            400 => Some(Self::Qrt400),
            500 => Some(Self::Qrt500),
            750 => Some(Self::Qrt750),
            850 => Some(Self::Qrt850),
            1000 => Some(Self::Qrt1000),
            _ => None,
        }
    }

    /// Every value is the one that its code stands for.
    pub proof fn lemma_code_round_trip(self)
        ensures
            Self::spec_from_code(self.spec_code()) == self,
            self.spec_code() < 16,
    {
    }
}

/// The first OTP bank: touch threshold, AC filter, proximity threshold and
/// bus address, two bits each.
#[derive(Clone, Copy, Debug, PartialEq, Eq)]
pub struct OtpBank1 {
    pub bytes: [u8; 1],
}

impl View for OtpBank1 {
    type V = u8;

    open spec fn view(&self) -> u8 {
        self.bytes@[0]
    }
}

impl OtpBank1 {
    pub open spec fn spec_from_byte(byte: u8) -> Self {
        OtpBank1 { bytes: [byte] }
    }

    /// The byte that holds the given fields.
    pub open spec fn spec_encode(
        touch_thresh: u8,
        ac_filter: u8,
        prox_thresh: ProximityThreshold,
        i2c_addr: u8,
    ) -> u8 {
        touch_thresh | ac_filter << 2 | prox_thresh.spec_code() << 4 | i2c_addr << 6
    }

    pub open spec fn spec_touch_thresh(self) -> u8 {
        field(self@, 0, 3)
    }

    pub open spec fn spec_ac_filter(self) -> u8 {
        field(self@, 2, 3)
    }

    pub open spec fn spec_prox_thresh(self) -> ProximityThreshold {
        ProximityThreshold::spec_from_code(field(self@, 4, 3))
    }

    pub open spec fn spec_i2c_addr(self) -> u8 {
        field(self@, 6, 3)
    }

    /// All fields zero.
    pub fn new() -> (r: Self)
        ensures
            r@ == 0,
    {
        OtpBank1 { bytes: [0] }
    }

    pub fn from_bytes(bytes: [u8; 1]) -> (r: Self)
        ensures
            r@ == bytes@[0],
            r.bytes == bytes,
    {
        OtpBank1 { bytes }
    }

    pub fn into_bytes(self) -> (r: [u8; 1])
        ensures
            r@[0] == self@,
    {
        self.bytes
    }

    pub fn touch_thresh(&self) -> (r: u8)
        ensures
            r == self.spec_touch_thresh(),
            r < 4,
    {
        proof {
            lemma_otp_bank1_fields(self@, 0);
        }
        self.bytes[0] & 0x03
    }

    pub fn ac_filter(&self) -> (r: u8)
        ensures
            r == self.spec_ac_filter(),
            r < 4,
    {
        proof {
            lemma_otp_bank1_fields(self@, 0);
        }
        (self.bytes[0] >> 2) & 0x03
    }

    pub fn prox_thresh(&self) -> (r: ProximityThreshold)
        ensures
            r == self.spec_prox_thresh(),
    {
        proof {
            lemma_otp_bank1_fields(self@, 0);
        }
        ProximityThreshold::from_code((self.bytes[0] >> 4) & 0x03)
    }

    pub fn i2c_addr(&self) -> (r: u8)
        ensures
            r == self.spec_i2c_addr(),
            r < 4,
    {
        proof {
            lemma_otp_bank1_fields(self@, 0);
        }
        (self.bytes[0] >> 6) & 0x03
    }

    pub fn with_touch_thresh(self, touch_thresh: u8) -> (r: Self)
        requires
            touch_thresh < 4,
        ensures
            r.spec_touch_thresh() == touch_thresh,
            r.spec_ac_filter() == self.spec_ac_filter(),
            r.spec_prox_thresh() == self.spec_prox_thresh(),
            r.spec_i2c_addr() == self.spec_i2c_addr(),
    {
        proof {
            lemma_otp_bank1_fields(self@, touch_thresh);
        }
        OtpBank1 { bytes: [(self.bytes[0] & 0xFC) | touch_thresh] }
    }

    pub fn with_ac_filter(self, ac_filter: u8) -> (r: Self)
        requires
            ac_filter < 4,
        ensures
            r.spec_touch_thresh() == self.spec_touch_thresh(),
            r.spec_ac_filter() == ac_filter,
            r.spec_prox_thresh() == self.spec_prox_thresh(),
            r.spec_i2c_addr() == self.spec_i2c_addr(),
    {
        proof {
            lemma_otp_bank1_fields(self@, ac_filter);
        }
        OtpBank1 { bytes: [(self.bytes[0] & 0xF3) | (ac_filter << 2)] }
    }

    pub fn with_prox_thresh(self, prox_thresh: ProximityThreshold) -> (r: Self)
        ensures
            r.spec_touch_thresh() == self.spec_touch_thresh(),
            r.spec_ac_filter() == self.spec_ac_filter(),
            r.spec_prox_thresh() == prox_thresh,
            r.spec_i2c_addr() == self.spec_i2c_addr(),
    {
        let code = prox_thresh.code();
        proof {
            lemma_otp_bank1_fields(self@, code);
            prox_thresh.lemma_code_round_trip();
        }
        OtpBank1 { bytes: [(self.bytes[0] & 0xCF) | (code << 4)] }
    }

    pub fn with_i2c_addr(self, i2c_addr: u8) -> (r: Self)
        requires
            i2c_addr < 4,
        ensures
            r.spec_touch_thresh() == self.spec_touch_thresh(),
            r.spec_ac_filter() == self.spec_ac_filter(),
            r.spec_prox_thresh() == self.spec_prox_thresh(),
            r.spec_i2c_addr() == i2c_addr,
    {
        proof {
            lemma_otp_bank1_fields(self@, i2c_addr);
        }
        OtpBank1 { bytes: [(self.bytes[0] & 0x3F) | (i2c_addr << 6)] }
    }
}

proof fn lemma_otp_bank1_fields(b: u8, v: u8)
    by (bit_vector)
    requires
        v < 4,
    ensures
        field(b, 0, 3) == b & 3,
        field(b, 0, 3) < 4,
        field(b, 2, 3) < 4,
        field(b, 4, 3) < 4,
        field(b, 6, 3) < 4,
        field((b & 0xFC) | v, 0, 3) == v,
        field((b & 0xFC) | v, 2, 3) == field(b, 2, 3),
        field((b & 0xFC) | v, 4, 3) == field(b, 4, 3),
        field((b & 0xFC) | v, 6, 3) == field(b, 6, 3),
        field((b & 0xF3) | (v << 2), 0, 3) == field(b, 0, 3),
        field((b & 0xF3) | (v << 2), 2, 3) == v,
        field((b & 0xF3) | (v << 2), 4, 3) == field(b, 4, 3),
        field((b & 0xF3) | (v << 2), 6, 3) == field(b, 6, 3),
        field((b & 0xCF) | (v << 4), 0, 3) == field(b, 0, 3),
        field((b & 0xCF) | (v << 4), 2, 3) == field(b, 2, 3),
        field((b & 0xCF) | (v << 4), 4, 3) == v,
        field((b & 0xCF) | (v << 4), 6, 3) == field(b, 6, 3),
        field((b & 0x3F) | (v << 6), 0, 3) == field(b, 0, 3),
        field((b & 0x3F) | (v << 6), 2, 3) == field(b, 2, 3),
        field((b & 0x3F) | (v << 6), 4, 3) == field(b, 4, 3),
        field((b & 0x3F) | (v << 6), 6, 3) == v,
{
}

proof fn lemma_otp_bank1_bytes(t: u8, a: u8, p: u8, i: u8, b: u8)
    by (bit_vector)
    requires
        t < 4,
        a < 4,
        p < 4,
        i < 4,
    ensures
        field(t | a << 2 | p << 4 | i << 6, 0, 3) == t,
        field(t | a << 2 | p << 4 | i << 6, 2, 3) == a,
        field(t | a << 2 | p << 4 | i << 6, 4, 3) == p,
        field(t | a << 2 | p << 4 | i << 6, 6, 3) == i,
        field(b, 0, 3) | field(b, 2, 3) << 2 | field(b, 4, 3) << 4 | field(b, 6, 3) << 6 == b,
{
}

/// Decoding the first OTP bank's byte built from valid fields gives those
/// fields back.
pub proof fn lemma_otp_bank1_decode_encode(
    touch_thresh: u8,
    ac_filter: u8,
    prox_thresh: ProximityThreshold,
    i2c_addr: u8,
)
    requires
        touch_thresh < 4,
        ac_filter < 4,
        i2c_addr < 4,
    ensures
        ({
            let bank = OtpBank1::spec_from_byte(
                OtpBank1::spec_encode(touch_thresh, ac_filter, prox_thresh, i2c_addr),
            );
            &&& bank.spec_touch_thresh() == touch_thresh
            &&& bank.spec_ac_filter() == ac_filter
            &&& bank.spec_prox_thresh() == prox_thresh
            &&& bank.spec_i2c_addr() == i2c_addr
        }),
{
    prox_thresh.lemma_code_round_trip();
    lemma_otp_bank1_bytes(touch_thresh, ac_filter, prox_thresh.spec_code(), i2c_addr, 0);
}

/// Every first OTP bank byte is the encoding of the fields read from it.
pub proof fn lemma_otp_bank1_encode_decode(bank: OtpBank1)
    ensures
        OtpBank1::spec_encode(
            bank.spec_touch_thresh(),
            bank.spec_ac_filter(),
            bank.spec_prox_thresh(),
            bank.spec_i2c_addr(),
        ) == bank@,
{
    let b = bank@;
    lemma_otp_bank1_bytes(0, 0, 0, 0, b);
    lemma_otp_bank1_fields(b, 0);
}

/// The second OTP bank: user interface, quick release, IO1 fail-safe pulses,
/// base value, target and debounce.
#[derive(Clone, Copy, Debug, PartialEq, Eq)]
pub struct OtpBank2 {
    pub bytes: [u8; 1],
}

impl View for OtpBank2 {
    type V = u8;

    open spec fn view(&self) -> u8 {
        self.bytes@[0]
    }
}

impl OtpBank2 {
    pub open spec fn spec_from_byte(byte: u8) -> Self {
        OtpBank2 { bytes: [byte] }
    }

    /// The byte that holds the given fields.
    pub open spec fn spec_encode(
        ui_select: UiSelect,
        quick_release: u8,
        failsafe_pulses_on_io1: bool,
        base_value: BaseValue,
        target: u8,
        increase_debounce: bool,
    ) -> u8 {
        ui_select.spec_code() | quick_release << 2 | bit(failsafe_pulses_on_io1) << 3
            | base_value.spec_code() << 4 | target << 6 | bit(increase_debounce) << 7
    }

    pub open spec fn spec_ui_select(self) -> UiSelect {
        UiSelect::spec_from_code(field(self@, 0, 3))
    }

    pub open spec fn spec_quick_release(self) -> u8 {
        field(self@, 2, 1)
    }

    pub open spec fn spec_failsafe_pulses_on_io1(self) -> bool {
        flag(self@, 3)
    }

    pub open spec fn spec_base_value(self) -> BaseValue {
        BaseValue::spec_from_code(field(self@, 4, 3))
    }

    pub open spec fn spec_target(self) -> u8 {
        field(self@, 6, 1)
    }

    pub open spec fn spec_increase_debounce(self) -> bool {
        flag(self@, 7)
    }

    /// All fields zero.
    pub fn new() -> (r: Self)
        ensures
            r@ == 0,
    {
        OtpBank2 { bytes: [0] }
    }

    pub fn from_bytes(bytes: [u8; 1]) -> (r: Self)
        ensures
            r@ == bytes@[0],
            r.bytes == bytes,
    {
        OtpBank2 { bytes }
    }

    pub fn into_bytes(self) -> (r: [u8; 1])
        ensures
            r@[0] == self@,
    {
        self.bytes
    }

    pub fn ui_select(&self) -> (r: UiSelect)
        ensures
            r == self.spec_ui_select(),
    {
        proof {
            lemma_otp_bank2_fields(self@, 0, 0);
        }
        UiSelect::from_code(self.bytes[0] & 0x03)
    }

    pub fn quick_release(&self) -> (r: u8)
        ensures
            r == self.spec_quick_release(),
            r < 2,
    {
        proof {
            lemma_otp_bank2_fields(self@, 0, 0);
        }
        (self.bytes[0] >> 2) & 0x01
    }

    pub fn failsafe_pulses_on_io1(&self) -> (r: bool)
        ensures
            r == self.spec_failsafe_pulses_on_io1(),
    {
        (self.bytes[0] >> 3) & 0x01 == 1
    }

    pub fn base_value(&self) -> (r: BaseValue)
        ensures
            r == self.spec_base_value(),
    {
        proof {
            lemma_otp_bank2_fields(self@, 0, 0);
        }
        BaseValue::from_code((self.bytes[0] >> 4) & 0x03)
    }

    pub fn target(&self) -> (r: u8)
        ensures
            r == self.spec_target(),
            r < 2,
    {
        proof {
            lemma_otp_bank2_fields(self@, 0, 0);
        }
        (self.bytes[0] >> 6) & 0x01
    }

    pub fn increase_debounce(&self) -> (r: bool)
        ensures
            r == self.spec_increase_debounce(),
    {
        (self.bytes[0] >> 7) & 0x01 == 1
    }

    pub fn with_ui_select(self, ui_select: UiSelect) -> (r: Self)
        ensures
            r.spec_ui_select() == ui_select,
            r.spec_quick_release() == self.spec_quick_release(),
            r.spec_failsafe_pulses_on_io1() == self.spec_failsafe_pulses_on_io1(),
            r.spec_base_value() == self.spec_base_value(),
            r.spec_target() == self.spec_target(),
            r.spec_increase_debounce() == self.spec_increase_debounce(),
    {
        let code = ui_select.code();
        proof {
            lemma_otp_bank2_fields(self@, code, 0);
            ui_select.lemma_code_round_trip();
        }
        OtpBank2 { bytes: [(self.bytes[0] & 0xFC) | code] }
    }

    pub fn with_quick_release(self, quick_release: u8) -> (r: Self)
        requires
            quick_release < 2,
        ensures
            r.spec_ui_select() == self.spec_ui_select(),
            r.spec_quick_release() == quick_release,
            r.spec_failsafe_pulses_on_io1() == self.spec_failsafe_pulses_on_io1(),
            r.spec_base_value() == self.spec_base_value(),
            r.spec_target() == self.spec_target(),
            r.spec_increase_debounce() == self.spec_increase_debounce(),
    {
        proof {
            lemma_otp_bank2_fields(self@, 0, quick_release);
        }
        OtpBank2 { bytes: [(self.bytes[0] & 0xFB) | (quick_release << 2)] }
    }

    pub fn with_failsafe_pulses_on_io1(self, failsafe_pulses_on_io1: bool) -> (r: Self)
        ensures
            r.spec_ui_select() == self.spec_ui_select(),
            r.spec_quick_release() == self.spec_quick_release(),
            r.spec_failsafe_pulses_on_io1() == failsafe_pulses_on_io1,
            r.spec_base_value() == self.spec_base_value(),
            r.spec_target() == self.spec_target(),
            r.spec_increase_debounce() == self.spec_increase_debounce(),
    {
        let v = bit_of(failsafe_pulses_on_io1);
        proof {
            lemma_otp_bank2_fields(self@, 0, v);
        }
        OtpBank2 { bytes: [(self.bytes[0] & 0xF7) | (v << 3)] }
    }

    pub fn with_base_value(self, base_value: BaseValue) -> (r: Self)
        ensures
            r.spec_ui_select() == self.spec_ui_select(),
            r.spec_quick_release() == self.spec_quick_release(),
            r.spec_failsafe_pulses_on_io1() == self.spec_failsafe_pulses_on_io1(),
            r.spec_base_value() == base_value,
            r.spec_target() == self.spec_target(),
            r.spec_increase_debounce() == self.spec_increase_debounce(),
    {
        let code = base_value.code();
        proof {
            lemma_otp_bank2_fields(self@, code, 0);
            base_value.lemma_code_round_trip();
        }
        OtpBank2 { bytes: [(self.bytes[0] & 0xCF) | (code << 4)] }
    }

    pub fn with_target(self, target: u8) -> (r: Self)
        requires
            target < 2,
        ensures
            r.spec_ui_select() == self.spec_ui_select(),
            r.spec_quick_release() == self.spec_quick_release(),
            r.spec_failsafe_pulses_on_io1() == self.spec_failsafe_pulses_on_io1(),
            r.spec_base_value() == self.spec_base_value(),
            r.spec_target() == target,
            r.spec_increase_debounce() == self.spec_increase_debounce(),
    {
        proof {
            lemma_otp_bank2_fields(self@, 0, target);
        }
        OtpBank2 { bytes: [(self.bytes[0] & 0xBF) | (target << 6)] }
    }

    pub fn with_increase_debounce(self, increase_debounce: bool) -> (r: Self)
        ensures
            r.spec_ui_select() == self.spec_ui_select(),
            r.spec_quick_release() == self.spec_quick_release(),
            r.spec_failsafe_pulses_on_io1() == self.spec_failsafe_pulses_on_io1(),
            r.spec_base_value() == self.spec_base_value(),
            r.spec_target() == self.spec_target(),
            r.spec_increase_debounce() == increase_debounce,
    {
        let v = bit_of(increase_debounce);
        proof {
            lemma_otp_bank2_fields(self@, 0, v);
        }
        OtpBank2 { bytes: [(self.bytes[0] & 0x7F) | (v << 7)] }
    }
}

proof fn lemma_otp_bank2_fields(b: u8, c: u8, v: u8)
    by (bit_vector)
    requires
        c < 4,
        v < 2,
    ensures
        field(b, 0, 3) == b & 3,
        field(b, 0, 3) < 4,
        field(b, 2, 1) < 2,
        field(b, 4, 3) < 4,
        field(b, 6, 1) < 2,
        field((b & 0xFC) | c, 0, 3) == c,
        field((b & 0xFC) | c, 2, 1) == field(b, 2, 1),
        field((b & 0xFC) | c, 3, 1) == field(b, 3, 1),
        field((b & 0xFC) | c, 4, 3) == field(b, 4, 3),
        field((b & 0xFC) | c, 6, 1) == field(b, 6, 1),
        field((b & 0xFC) | c, 7, 1) == field(b, 7, 1),
        field((b & 0xFB) | (v << 2), 0, 3) == field(b, 0, 3),
        field((b & 0xFB) | (v << 2), 2, 1) == v,
        field((b & 0xFB) | (v << 2), 3, 1) == field(b, 3, 1),
        field((b & 0xFB) | (v << 2), 4, 3) == field(b, 4, 3),
        field((b & 0xFB) | (v << 2), 6, 1) == field(b, 6, 1),
        field((b & 0xFB) | (v << 2), 7, 1) == field(b, 7, 1),
        field((b & 0xF7) | (v << 3), 0, 3) == field(b, 0, 3),
        field((b & 0xF7) | (v << 3), 2, 1) == field(b, 2, 1),
        field((b & 0xF7) | (v << 3), 3, 1) == v,
        field((b & 0xF7) | (v << 3), 4, 3) == field(b, 4, 3),
        field((b & 0xF7) | (v << 3), 6, 1) == field(b, 6, 1),
        field((b & 0xF7) | (v << 3), 7, 1) == field(b, 7, 1),
        field((b & 0xCF) | (c << 4), 0, 3) == field(b, 0, 3),
        field((b & 0xCF) | (c << 4), 2, 1) == field(b, 2, 1),
        field((b & 0xCF) | (c << 4), 3, 1) == field(b, 3, 1),
        field((b & 0xCF) | (c << 4), 4, 3) == c,
        field((b & 0xCF) | (c << 4), 6, 1) == field(b, 6, 1),
        field((b & 0xCF) | (c << 4), 7, 1) == field(b, 7, 1),
        field((b & 0xBF) | (v << 6), 0, 3) == field(b, 0, 3),
        field((b & 0xBF) | (v << 6), 2, 1) == field(b, 2, 1),
        field((b & 0xBF) | (v << 6), 3, 1) == field(b, 3, 1),
        field((b & 0xBF) | (v << 6), 4, 3) == field(b, 4, 3),
        field((b & 0xBF) | (v << 6), 6, 1) == v,
        field((b & 0xBF) | (v << 6), 7, 1) == field(b, 7, 1),
        field((b & 0x7F) | (v << 7), 0, 3) == field(b, 0, 3),
        field((b & 0x7F) | (v << 7), 2, 1) == field(b, 2, 1),
        field((b & 0x7F) | (v << 7), 3, 1) == field(b, 3, 1),
        field((b & 0x7F) | (v << 7), 4, 3) == field(b, 4, 3),
        field((b & 0x7F) | (v << 7), 6, 1) == field(b, 6, 1),
        field((b & 0x7F) | (v << 7), 7, 1) == v,
{
}

proof fn lemma_otp_bank2_bytes(u: u8, q: u8, f: u8, s: u8, t: u8, d: u8, b: u8)
    by (bit_vector)
    requires
        u < 4,
        q < 2,
        f < 2,
        s < 4,
        t < 2,
        d < 2,
    ensures
        field(u | q << 2 | f << 3 | s << 4 | t << 6 | d << 7, 0, 3) == u,
        field(u | q << 2 | f << 3 | s << 4 | t << 6 | d << 7, 2, 1) == q,
        field(u | q << 2 | f << 3 | s << 4 | t << 6 | d << 7, 3, 1) == f,
        field(u | q << 2 | f << 3 | s << 4 | t << 6 | d << 7, 4, 3) == s,
        field(u | q << 2 | f << 3 | s << 4 | t << 6 | d << 7, 6, 1) == t,
        field(u | q << 2 | f << 3 | s << 4 | t << 6 | d << 7, 7, 1) == d,
        field(b, 3, 1) < 2,
        field(b, 7, 1) < 2,
        field(b, 0, 3) | field(b, 2, 1) << 2 | field(b, 3, 1) << 3 | field(b, 4, 3) << 4
            | field(b, 6, 1) << 6 | field(b, 7, 1) << 7 == b,
{
}

/// Decoding the second OTP bank's byte built from valid fields gives those
/// fields back.
pub proof fn lemma_otp_bank2_decode_encode(
    ui_select: UiSelect,
    quick_release: u8,
    failsafe_pulses_on_io1: bool,
    base_value: BaseValue,
    target: u8,
    increase_debounce: bool,
)
    requires
        quick_release < 2,
        target < 2,
    ensures
        ({
            let bank = OtpBank2::spec_from_byte(
                OtpBank2::spec_encode(
                    ui_select,
                    quick_release,
                    failsafe_pulses_on_io1,
                    base_value,
                    target,
                    increase_debounce,
                ),
            );
            &&& bank.spec_ui_select() == ui_select
            &&& bank.spec_quick_release() == quick_release
            &&& bank.spec_failsafe_pulses_on_io1() == failsafe_pulses_on_io1
            &&& bank.spec_base_value() == base_value
            &&& bank.spec_target() == target
            &&& bank.spec_increase_debounce() == increase_debounce
        }),
{
    ui_select.lemma_code_round_trip();
    base_value.lemma_code_round_trip();
    lemma_otp_bank2_bytes(
        ui_select.spec_code(),
        quick_release,
        bit(failsafe_pulses_on_io1),
        base_value.spec_code(),
        target,
        bit(increase_debounce),
        0,
    );
}

/// Every second OTP bank byte is the encoding of the fields read from it.
pub proof fn lemma_otp_bank2_encode_decode(bank: OtpBank2)
    ensures
        OtpBank2::spec_encode(
            bank.spec_ui_select(),
            bank.spec_quick_release(),
            bank.spec_failsafe_pulses_on_io1(),
            bank.spec_base_value(),
            bank.spec_target(),
            bank.spec_increase_debounce(),
        ) == bank@,
{
    let b = bank@;
    lemma_otp_bank2_bytes(0, 0, 0, 0, 0, 0, b);
    lemma_otp_bank2_fields(b, 0, 0);
}

/// The third OTP bank: sample rate, ATI events on IO1, IO2 function,
/// temperature and interference compensation, charge transfer frequency.
#[derive(Clone, Copy, Debug, PartialEq, Eq)]
pub struct OtpBank3 {
    pub bytes: [u8; 1],
}

impl View for OtpBank3 {
    type V = u8;

    open spec fn view(&self) -> u8 {
        self.bytes@[0]
    }
}

impl OtpBank3 {
    pub open spec fn spec_from_byte(byte: u8) -> Self {
        OtpBank3 { bytes: [byte] }
    }

    /// The byte that holds the given fields.
    pub open spec fn spec_encode(
        sample_rate: SampleRate,
        ati_events_on_io1: u8,
        io2_function: Io2Function,
        temp_n_interference_compensation: bool,
        charge_transfer_freq: ChargeTransferFrequency,
    ) -> u8 {
        sample_rate.spec_code() | ati_events_on_io1 << 2 | io2_function.spec_code() << 3
            | bit(temp_n_interference_compensation) << 5 | charge_transfer_freq.spec_code() << 6
    }

    pub open spec fn spec_sample_rate(self) -> SampleRate {
        SampleRate::spec_from_code(field(self@, 0, 3))
    }

    pub open spec fn spec_ati_events_on_io1(self) -> u8 {
        field(self@, 2, 1)
    }

    pub open spec fn spec_io2_function(self) -> Io2Function {
        Io2Function::spec_from_code(field(self@, 3, 3))
    }

    pub open spec fn spec_temp_n_interference_compensation(self) -> bool {
        flag(self@, 5)
    }

    pub open spec fn spec_charge_transfer_freq(self) -> ChargeTransferFrequency {
        ChargeTransferFrequency::spec_from_code(field(self@, 6, 3))
    }

    /// All fields zero.
    pub fn new() -> (r: Self)
        ensures
            r@ == 0,
    {
        OtpBank3 { bytes: [0] }
    }

    pub fn from_bytes(bytes: [u8; 1]) -> (r: Self)
        ensures
            r@ == bytes@[0],
            r.bytes == bytes,
    {
        OtpBank3 { bytes }
    }

    pub fn into_bytes(self) -> (r: [u8; 1])
        ensures
            r@[0] == self@,
    {
        self.bytes
    }

    pub fn sample_rate(&self) -> (r: SampleRate)
        ensures
            r == self.spec_sample_rate(),
    {
        proof {
            lemma_otp_bank3_fields(self@, 0, 0);
        }
        SampleRate::from_code(self.bytes[0] & 0x03)
    }

    pub fn ati_events_on_io1(&self) -> (r: u8)
        ensures
            r == self.spec_ati_events_on_io1(),
            r < 2,
    {
        proof {
            lemma_otp_bank3_fields(self@, 0, 0);
        }
        (self.bytes[0] >> 2) & 0x01
    }

    pub fn io2_function(&self) -> (r: Io2Function)
        ensures
            r == self.spec_io2_function(),
    {
        proof {
            lemma_otp_bank3_fields(self@, 0, 0);
        }
        Io2Function::from_code((self.bytes[0] >> 3) & 0x03)
    }

    pub fn temp_n_interference_compensation(&self) -> (r: bool)
        ensures
            r == self.spec_temp_n_interference_compensation(),
    {
        (self.bytes[0] >> 5) & 0x01 == 1
    }

    pub fn charge_transfer_freq(&self) -> (r: ChargeTransferFrequency)
        ensures
            r == self.spec_charge_transfer_freq(),
    {
        proof {
            lemma_otp_bank3_fields(self@, 0, 0);
        }
        ChargeTransferFrequency::from_code((self.bytes[0] >> 6) & 0x03)
    }

    pub fn with_sample_rate(self, sample_rate: SampleRate) -> (r: Self)
        ensures
            r.spec_sample_rate() == sample_rate,
            r.spec_ati_events_on_io1() == self.spec_ati_events_on_io1(),
            r.spec_io2_function() == self.spec_io2_function(),
            r.spec_temp_n_interference_compensation()
                == self.spec_temp_n_interference_compensation(),
            r.spec_charge_transfer_freq() == self.spec_charge_transfer_freq(),
    {
        let code = sample_rate.code();
        proof {
            lemma_otp_bank3_fields(self@, code, 0);
            sample_rate.lemma_code_round_trip();
        }
        OtpBank3 { bytes: [(self.bytes[0] & 0xFC) | code] }
    }

    pub fn with_ati_events_on_io1(self, ati_events_on_io1: u8) -> (r: Self)
        requires
            ati_events_on_io1 < 2,
        ensures
            r.spec_sample_rate() == self.spec_sample_rate(),
            r.spec_ati_events_on_io1() == ati_events_on_io1,
            r.spec_io2_function() == self.spec_io2_function(),
            r.spec_temp_n_interference_compensation()
                == self.spec_temp_n_interference_compensation(),
            r.spec_charge_transfer_freq() == self.spec_charge_transfer_freq(),
    {
        proof {
            lemma_otp_bank3_fields(self@, 0, ati_events_on_io1);
        }
        OtpBank3 { bytes: [(self.bytes[0] & 0xFB) | (ati_events_on_io1 << 2)] }
    }

    pub fn with_io2_function(self, io2_function: Io2Function) -> (r: Self)
        ensures
            r.spec_sample_rate() == self.spec_sample_rate(),
            r.spec_ati_events_on_io1() == self.spec_ati_events_on_io1(),
            r.spec_io2_function() == io2_function,
            r.spec_temp_n_interference_compensation()
                == self.spec_temp_n_interference_compensation(),
            r.spec_charge_transfer_freq() == self.spec_charge_transfer_freq(),
    {
        let code = io2_function.code();
        proof {
            lemma_otp_bank3_fields(self@, code, 0);
            io2_function.lemma_code_round_trip();
        }
        OtpBank3 { bytes: [(self.bytes[0] & 0xE7) | (code << 3)] }
    }

    pub fn with_temp_n_interference_compensation(
        self,
        temp_n_interference_compensation: bool,
    ) -> (r: Self)
        ensures
            r.spec_sample_rate() == self.spec_sample_rate(),
            r.spec_ati_events_on_io1() == self.spec_ati_events_on_io1(),
            r.spec_io2_function() == self.spec_io2_function(),
            r.spec_temp_n_interference_compensation() == temp_n_interference_compensation,
            r.spec_charge_transfer_freq() == self.spec_charge_transfer_freq(),
    {
        let v = bit_of(temp_n_interference_compensation);
        proof {
            lemma_otp_bank3_fields(self@, 0, v);
        }
        OtpBank3 { bytes: [(self.bytes[0] & 0xDF) | (v << 5)] }
    }

    pub fn with_charge_transfer_freq(self, charge_transfer_freq: ChargeTransferFrequency) -> (r:
        Self)
        ensures
            r.spec_sample_rate() == self.spec_sample_rate(),
            r.spec_ati_events_on_io1() == self.spec_ati_events_on_io1(),
            r.spec_io2_function() == self.spec_io2_function(),
            r.spec_temp_n_interference_compensation()
                == self.spec_temp_n_interference_compensation(),
            r.spec_charge_transfer_freq() == charge_transfer_freq,
    {
        let code = charge_transfer_freq.code();
        proof {
            lemma_otp_bank3_fields(self@, code, 0);
            charge_transfer_freq.lemma_code_round_trip();
        }
        OtpBank3 { bytes: [(self.bytes[0] & 0x3F) | (code << 6)] }
    }
}

proof fn lemma_otp_bank3_fields(b: u8, c: u8, v: u8)
    by (bit_vector)
    requires
        c < 4,
        v < 2,
    ensures
        field(b, 0, 3) == b & 3,
        field(b, 0, 3) < 4,
        field(b, 2, 1) < 2,
        field(b, 3, 3) < 4,
        field(b, 6, 3) < 4,
        field((b & 0xFC) | c, 0, 3) == c,
        field((b & 0xFC) | c, 2, 1) == field(b, 2, 1),
        field((b & 0xFC) | c, 3, 3) == field(b, 3, 3),
        field((b & 0xFC) | c, 5, 1) == field(b, 5, 1),
        field((b & 0xFC) | c, 6, 3) == field(b, 6, 3),
        field((b & 0xFB) | (v << 2), 0, 3) == field(b, 0, 3),
        field((b & 0xFB) | (v << 2), 2, 1) == v,
        field((b & 0xFB) | (v << 2), 3, 3) == field(b, 3, 3),
        field((b & 0xFB) | (v << 2), 5, 1) == field(b, 5, 1),
        field((b & 0xFB) | (v << 2), 6, 3) == field(b, 6, 3),
        field((b & 0xE7) | (c << 3), 0, 3) == field(b, 0, 3),
        field((b & 0xE7) | (c << 3), 2, 1) == field(b, 2, 1),
        field((b & 0xE7) | (c << 3), 3, 3) == c,
        field((b & 0xE7) | (c << 3), 5, 1) == field(b, 5, 1),
        field((b & 0xE7) | (c << 3), 6, 3) == field(b, 6, 3),
        field((b & 0xDF) | (v << 5), 0, 3) == field(b, 0, 3),
        field((b & 0xDF) | (v << 5), 2, 1) == field(b, 2, 1),
        field((b & 0xDF) | (v << 5), 3, 3) == field(b, 3, 3),
        field((b & 0xDF) | (v << 5), 5, 1) == v,
        field((b & 0xDF) | (v << 5), 6, 3) == field(b, 6, 3),
        field((b & 0x3F) | (c << 6), 0, 3) == field(b, 0, 3),
        field((b & 0x3F) | (c << 6), 2, 1) == field(b, 2, 1),
        field((b & 0x3F) | (c << 6), 3, 3) == field(b, 3, 3),
        field((b & 0x3F) | (c << 6), 5, 1) == field(b, 5, 1),
        field((b & 0x3F) | (c << 6), 6, 3) == c,
{
}

proof fn lemma_otp_bank3_bytes(s: u8, a: u8, i: u8, t: u8, c: u8, b: u8)
    by (bit_vector)
    requires
        s < 4,
        a < 2,
        i < 4,
        t < 2,
        c < 4,
    ensures
        field(s | a << 2 | i << 3 | t << 5 | c << 6, 0, 3) == s,
        field(s | a << 2 | i << 3 | t << 5 | c << 6, 2, 1) == a,
        field(s | a << 2 | i << 3 | t << 5 | c << 6, 3, 3) == i,
        field(s | a << 2 | i << 3 | t << 5 | c << 6, 5, 1) == t,
        field(s | a << 2 | i << 3 | t << 5 | c << 6, 6, 3) == c,
        field(b, 5, 1) < 2,
        field(b, 0, 3) | field(b, 2, 1) << 2 | field(b, 3, 3) << 3 | field(b, 5, 1) << 5
            | field(b, 6, 3) << 6 == b,
{
}

/// Decoding the third OTP bank's byte built from valid fields gives those
/// fields back.
pub proof fn lemma_otp_bank3_decode_encode(
    sample_rate: SampleRate,
    ati_events_on_io1: u8,
    io2_function: Io2Function,
    temp_n_interference_compensation: bool,
    charge_transfer_freq: ChargeTransferFrequency,
)
    requires
        ati_events_on_io1 < 2,
    ensures
        ({
            let bank = OtpBank3::spec_from_byte(
                OtpBank3::spec_encode(
                    sample_rate,
                    ati_events_on_io1,
                    io2_function,
                    temp_n_interference_compensation,
                    charge_transfer_freq,
                ),
            );
            &&& bank.spec_sample_rate() == sample_rate
            &&& bank.spec_ati_events_on_io1() == ati_events_on_io1
            &&& bank.spec_io2_function() == io2_function
            &&& bank.spec_temp_n_interference_compensation() == temp_n_interference_compensation
            &&& bank.spec_charge_transfer_freq() == charge_transfer_freq
        }),
{
    sample_rate.lemma_code_round_trip();
    io2_function.lemma_code_round_trip();
    charge_transfer_freq.lemma_code_round_trip();
    lemma_otp_bank3_bytes(
        sample_rate.spec_code(),
        ati_events_on_io1,
        io2_function.spec_code(),
        bit(temp_n_interference_compensation),
        charge_transfer_freq.spec_code(),
        0,
    );
}

/// Every third OTP bank byte is the encoding of the fields read from it.
pub proof fn lemma_otp_bank3_encode_decode(bank: OtpBank3)
    ensures
        OtpBank3::spec_encode(
            bank.spec_sample_rate(),
            bank.spec_ati_events_on_io1(),
            bank.spec_io2_function(),
            bank.spec_temp_n_interference_compensation(),
            bank.spec_charge_transfer_freq(),
        ) == bank@,
{
    let b = bank@;
    lemma_otp_bank3_bytes(0, 0, 0, 0, 0, b);
    lemma_otp_bank3_fields(b, 0, 0);
}

impl QuickReleaseThreshold {
    /// Every four-bit code stands for a threshold whose code it is.
    pub proof fn lemma_from_code_round_trip(code: u8)
        requires
            code < 16,
        ensures
            Self::spec_from_code(code).spec_code() == code,
    {
    }

    /// No two thresholds have the same count, and every count lies in
    /// `10..=1000`.
    pub proof fn lemma_counts_distinct(a: Self, b: Self)
        ensures
            a.spec_counts() == b.spec_counts() ==> a == b,
            10 <= a.spec_counts() <= 1000,
    {
    }
}

/// Reads the two low bits as a proximity threshold; the others are ignored.
impl From<u8> for ProximityThreshold {
    fn from(value: u8) -> Self {
        match value & 0x03 {
            0b00 => Self::Counts4,
            0b01 => Self::Counts6,
            0b10 => Self::Counts8,
            _ => Self::Counts10,
        }
    }
}

impl vstd::std_specs::convert::FromSpecImpl<u8> for ProximityThreshold {
    open spec fn obeys_from_spec() -> bool {
        true
    }

    open spec fn from_spec(v: u8) -> ProximityThreshold {
        ProximityThreshold::spec_from_code(v & 0x03)
    }
}

impl From<ProximityThreshold> for u8 {
    fn from(value: ProximityThreshold) -> Self {
        value.code()
    }
}

impl vstd::std_specs::convert::FromSpecImpl<ProximityThreshold> for u8 {
    open spec fn obeys_from_spec() -> bool {
        true
    }

    open spec fn from_spec(v: ProximityThreshold) -> u8 {
        v.spec_code()
    }
}

/// The quick release register: beta in the low nibble, threshold code in
/// the high nibble.
#[derive(Clone, Copy, Debug, PartialEq, Eq)]
pub struct QuickRelease {
    pub bytes: [u8; 1],
}

impl View for QuickRelease {
    type V = u8;

    open spec fn view(&self) -> u8 {
        self.bytes@[0]
    }
}

impl QuickRelease {
    pub open spec fn spec_from_byte(byte: u8) -> Self {
        QuickRelease { bytes: [byte] }
    }

    /// The byte that holds the given fields.
    pub open spec fn spec_encode(base: u8, threshold: QuickReleaseThreshold) -> u8 {
        base | threshold.spec_code() << 4
    }

    pub open spec fn spec_base(self) -> u8 {
        field(self@, 0, 15)
    }

    pub open spec fn spec_threshold(self) -> QuickReleaseThreshold {
        QuickReleaseThreshold::spec_from_code(field(self@, 4, 15))
    }

    /// All fields zero.
    pub fn new() -> (r: Self)
        ensures
            r@ == 0,
    {
        QuickRelease { bytes: [0] }
    }

    pub fn from_bytes(bytes: [u8; 1]) -> (r: Self)
        ensures
            r@ == bytes@[0],
            r.bytes == bytes,
    {
        QuickRelease { bytes }
    }

    pub fn into_bytes(self) -> (r: [u8; 1])
        ensures
            r@[0] == self@,
    {
        self.bytes
    }

    pub fn base(&self) -> (r: u8)
        ensures
            r == self.spec_base(),
            r < 16,
    {
        proof {
            lemma_nibbles(self@, 0);
        }
        self.bytes[0] & 0x0F
    }

    pub fn threshold(&self) -> (r: QuickReleaseThreshold)
        ensures
            r == self.spec_threshold(),
    {
        proof {
            lemma_nibbles(self@, 0);
        }
        QuickReleaseThreshold::from_code(self.bytes[0] >> 4)
    }

    pub fn with_base(self, base: u8) -> (r: Self)
        requires
            base < 16,
        ensures
            r.spec_base() == base,
            r.spec_threshold() == self.spec_threshold(),
    {
        proof {
            lemma_nibbles(self@, base);
        }
        QuickRelease { bytes: [(self.bytes[0] & 0xF0) | base] }
    }

    pub fn with_threshold(self, threshold: QuickReleaseThreshold) -> (r: Self)
        ensures
            r.spec_base() == self.spec_base(),
            r.spec_threshold() == threshold,
    {
        let code = threshold.code();
        proof {
            lemma_nibbles(self@, code);
            threshold.lemma_code_round_trip();
        }
        QuickRelease { bytes: [(self.bytes[0] & 0x0F) | (code << 4)] }
    }
}

/// Fields of four bits at bits 0 and 4, as the quick release register and
/// the channel multipliers have them.
proof fn lemma_nibbles(b: u8, v: u8)
    by (bit_vector)
    requires
        v < 16,
    ensures
        field(b, 0, 15) == b & 15,
        field(b, 4, 15) == b >> 4,
        field(b, 0, 15) < 16,
        field(b, 4, 15) < 16,
        field((b & 0xF0) | v, 0, 15) == v,
        field((b & 0xF0) | v, 4, 15) == field(b, 4, 15),
        field((b & 0x0F) | (v << 4), 0, 15) == field(b, 0, 15),
        field((b & 0x0F) | (v << 4), 4, 15) == v,
        field(v | field(b, 4, 15) << 4, 0, 15) == v,
        field(b, 0, 15) | field(b, 4, 15) << 4 == b,
        field(b & 0x0F, 4, 15) == 0,
{
}

/// Decoding the quick release byte built from valid fields gives those
/// fields back.
pub proof fn lemma_quick_release_decode_encode(base: u8, threshold: QuickReleaseThreshold)
    requires
        base < 16,
    ensures
        ({
            let qr = QuickRelease::spec_from_byte(QuickRelease::spec_encode(base, threshold));
            &&& qr.spec_base() == base
            &&& qr.spec_threshold() == threshold
        }),
{
    threshold.lemma_code_round_trip();
    let c = threshold.spec_code();
    assert(field(base | c << 4, 0, 15) == base && field(base | c << 4, 4, 15) == c)
        by (bit_vector)
        requires
            base < 16,
            c < 16,
    ;
}

/// Every quick release byte is the encoding of the fields read from it.
pub proof fn lemma_quick_release_encode_decode(qr: QuickRelease)
    ensures
        QuickRelease::spec_encode(qr.spec_base(), qr.spec_threshold()) == qr@,
{
    lemma_nibbles(qr@, 0);
    let c = field(qr@, 4, 15);
    assert(QuickReleaseThreshold::spec_from_code(c).spec_code() == c);
}

/// The multipliers of a channel: compensation multiplier in the low nibble,
/// sensitivity multiplier in the two bits above it. The top two bits are
/// reserved: they have no accessor, and are kept as they were.
#[derive(Clone, Copy, Debug, PartialEq, Eq)]
pub struct ChannelMultiplier {
    pub bytes: [u8; 1],
}

impl View for ChannelMultiplier {
    type V = u8;

    open spec fn view(&self) -> u8 {
        self.bytes@[0]
    }
}

impl ChannelMultiplier {
    pub open spec fn spec_from_byte(byte: u8) -> Self {
        ChannelMultiplier { bytes: [byte] }
    }

    /// The byte that holds the given fields.
    pub open spec fn spec_encode(
        compensation_multiplier: u8,
        sensitivity_multiplier: u8,
        reserved: u8,
    ) -> u8 {
        compensation_multiplier | sensitivity_multiplier << 4 | reserved << 6
    }

    pub open spec fn spec_compensation_multiplier(self) -> u8 {
        field(self@, 0, 15)
    }

    pub open spec fn spec_sensitivity_multiplier(self) -> u8 {
        field(self@, 4, 3)
    }

    pub open spec fn spec_reserved(self) -> u8 {
        field(self@, 6, 3)
    }

    /// All fields zero.
    pub fn new() -> (r: Self)
        ensures
            r@ == 0,
    {
        ChannelMultiplier { bytes: [0] }
    }

    pub fn from_bytes(bytes: [u8; 1]) -> (r: Self)
        ensures
            r@ == bytes@[0],
            r.bytes == bytes,
    {
        ChannelMultiplier { bytes }
    }

    pub fn into_bytes(self) -> (r: [u8; 1])
        ensures
            r@[0] == self@,
    {
        self.bytes
    }

    pub fn compensation_multiplier(&self) -> (r: u8)
        ensures
            r == self.spec_compensation_multiplier(),
            r < 16,
    {
        proof {
            lemma_nibbles(self@, 0);
        }
        self.bytes[0] & 0x0F
    }

    pub fn sensitivity_multiplier(&self) -> (r: u8)
        ensures
            r == self.spec_sensitivity_multiplier(),
            r < 4,
    {
        proof {
            lemma_channel_multiplier_fields(self@, 0);
        }
        (self.bytes[0] >> 4) & 0x03
    }

    pub fn with_compensation_multiplier(self, compensation_multiplier: u8) -> (r: Self)
        requires
            compensation_multiplier < 16,
        ensures
            r.spec_compensation_multiplier() == compensation_multiplier,
            r.spec_sensitivity_multiplier() == self.spec_sensitivity_multiplier(),
            r.spec_reserved() == self.spec_reserved(),
    {
        proof {
            lemma_channel_multiplier_fields(self@, compensation_multiplier);
        }
        ChannelMultiplier { bytes: [(self.bytes[0] & 0xF0) | compensation_multiplier] }
    }

    pub fn with_sensitivity_multiplier(self, sensitivity_multiplier: u8) -> (r: Self)
        requires
            sensitivity_multiplier < 4,
        ensures
            r.spec_compensation_multiplier() == self.spec_compensation_multiplier(),
            r.spec_sensitivity_multiplier() == sensitivity_multiplier,
            r.spec_reserved() == self.spec_reserved(),
    {
        proof {
            lemma_channel_multiplier_fields(self@, sensitivity_multiplier);
        }
        ChannelMultiplier { bytes: [(self.bytes[0] & 0xCF) | (sensitivity_multiplier << 4)] }
    }
}

proof fn lemma_channel_multiplier_fields(b: u8, v: u8)
    by (bit_vector)
    requires
        v < 16,
    ensures
        field(b, 4, 3) < 4,
        field((b & 0xF0) | v, 0, 15) == v,
        field((b & 0xF0) | v, 4, 3) == field(b, 4, 3),
        field((b & 0xF0) | v, 6, 3) == field(b, 6, 3),
        v < 4 ==> field((b & 0xCF) | (v << 4), 0, 15) == field(b, 0, 15),
        v < 4 ==> field((b & 0xCF) | (v << 4), 4, 3) == v,
        v < 4 ==> field((b & 0xCF) | (v << 4), 6, 3) == field(b, 6, 3),
{
}

/// Decoding the channel multiplier byte built from valid fields gives those
/// fields back, the reserved bits included.
pub proof fn lemma_channel_multiplier_decode_encode(
    compensation_multiplier: u8,
    sensitivity_multiplier: u8,
    reserved: u8,
)
    requires
        compensation_multiplier < 16,
        sensitivity_multiplier < 4,
        reserved < 4,
    ensures
        ({
            let m = ChannelMultiplier::spec_from_byte(
                ChannelMultiplier::spec_encode(
                    compensation_multiplier,
                    sensitivity_multiplier,
                    reserved,
                ),
            );
            &&& m.spec_compensation_multiplier() == compensation_multiplier
            &&& m.spec_sensitivity_multiplier() == sensitivity_multiplier
            &&& m.spec_reserved() == reserved
        }),
{
    let c = compensation_multiplier;
    let s = sensitivity_multiplier;
    let r = reserved;
    assert(field(c | s << 4 | r << 6, 0, 15) == c && field(c | s << 4 | r << 6, 4, 3) == s
        && field(c | s << 4 | r << 6, 6, 3) == r) by (bit_vector)
        requires
            c < 16,
            s < 4,
            r < 4,
    ;
}

/// Every channel multiplier byte is the encoding of the fields read from it.
pub proof fn lemma_channel_multiplier_encode_decode(m: ChannelMultiplier)
    ensures
        ChannelMultiplier::spec_encode(
            m.spec_compensation_multiplier(),
            m.spec_sensitivity_multiplier(),
            m.spec_reserved(),
        ) == m@,
{
    let b = m@;
    assert(field(b, 0, 15) | field(b, 4, 3) << 4 | field(b, 6, 3) << 6 == b) by (bit_vector);
}

} // verus!
