//! The register map of the sensor, and the value that every read returns.
use vstd::prelude::*;

mod bitfields;
mod flags;

pub use self::bitfields::{
    bit, field, flag, lemma_channel_multiplier_decode_encode,
    lemma_channel_multiplier_encode_decode, lemma_otp_bank1_decode_encode,
    lemma_otp_bank1_encode_decode, lemma_otp_bank2_decode_encode, lemma_otp_bank2_encode_decode,
    lemma_otp_bank3_decode_encode, lemma_otp_bank3_encode_decode,
    lemma_quick_release_decode_encode, lemma_quick_release_encode_decode, BaseValue,
    ChannelMultiplier, ChargeTransferFrequency, Io2Function, OtpBank1, OtpBank2, OtpBank3,
    ProximityThreshold, QuickRelease, QuickReleaseThreshold, SampleRate, UiSelect,
};
pub use self::flags::{Commands, DebugEvents, EventFlags, MainEvents, SystemFlags, UiFlags};

use crate::Error;

verus! {

/// What a read returns: the value of the register, together with the main
/// event flags that the sensor sends along with every read.
#[derive(Clone, Copy, Debug, PartialEq, Eq)]
pub struct RegValue<T> {
    pub main_events: MainEvents,
    pub value: T,
}

impl<T> RegValue<T> {
    /// The event flags and the value, apart.
    pub fn split(self) -> (r: (MainEvents, T))
        ensures
            r == (self.main_events, self.value),
    {
        (self.main_events, self.value)
    }

    /// Converts the value and keeps the event flags.
    pub fn map<B, F>(self, f: F) -> (r: RegValue<B>)
        where
            F: FnOnce(T) -> B,
        requires
            f.requires((self.value,)),
        ensures
            r.main_events == self.main_events,
            f.ensures((self.value,), r.value),
    {
        RegValue { value: f(self.value), main_events: self.main_events }
    }
}

impl RegValue<u8> {
    /// Converts the byte into any type that converts from a byte.
    pub fn into<T: From<u8>>(self) -> (r: T)
        ensures
            call_ensures(T::from, (self.value,), r),
    {
        T::from(self.value)
    }

    /// The 16-bit value of two register reads, high byte first, with the
    /// union of their event flags.
    pub open spec fn spec_join(hi: RegValue<u8>, lo: RegValue<u8>) -> RegValue<u16> {
        RegValue {
            main_events: MainEvents(hi.main_events@ | lo.main_events@),
            value: (hi.value * 256 + lo.value) as u16,
        }
    }

    /// A 16-bit value read as two registers, high byte first. The event
    /// flags of the two reads are merged: either read may have seen a new
    /// event.
    pub fn join(hi: RegValue<u8>, lo: RegValue<u8>) -> (r: RegValue<u16>)
        ensures
            r.value == hi.value * 256 + lo.value,
            r.main_events@ == hi.main_events@ | lo.main_events@,
            r == Self::spec_join(hi, lo),
    {
        let value: u16 = (hi.value as u16) << 8 | lo.value as u16;
        proof {
            let h = hi.value;
            let l = lo.value;
            assert((h as u16) << 8 | l as u16 == h * 256 + l) by (bit_vector);
        }
        RegValue { main_events: hi.main_events.union(lo.main_events), value }
    }
}

/// Reads through to the value.
impl<T> core::ops::Deref for RegValue<T> {
    type Target = T;

    fn deref(&self) -> (r: &T)
        ensures
            r == &self.value,
    {
        &self.value
    }
}

impl<T> From<RegValue<T>> for MainEvents {
    fn from(rv: RegValue<T>) -> Self {
        rv.main_events
    }
}

impl<T> vstd::std_specs::convert::FromSpecImpl<RegValue<T>> for MainEvents {
    open spec fn obeys_from_spec() -> bool {
        true
    }

    open spec fn from_spec(v: RegValue<T>) -> MainEvents {
        v.main_events
    }
}

impl From<RegValue<u8>> for u8 {
    fn from(value: RegValue<u8>) -> Self {
        value.value
    }
}

impl vstd::std_specs::convert::FromSpecImpl<RegValue<u8>> for u8 {
    open spec fn obeys_from_spec() -> bool {
        true
    }

    open spec fn from_spec(v: RegValue<u8>) -> u8 {
        v.value
    }
}

/// The two bytes of a read: the main event flags, then the register's value.
impl From<[u8; 2]> for RegValue<u8> {
    fn from(bytes: [u8; 2]) -> Self {
        RegValue { main_events: MainEvents::from_bits_retain(bytes[0]), value: bytes[1] }
    }
}

impl vstd::std_specs::convert::FromSpecImpl<[u8; 2]> for RegValue<u8> {
    open spec fn obeys_from_spec() -> bool {
        true
    }

    open spec fn from_spec(v: [u8; 2]) -> RegValue<u8> {
        RegValue { main_events: MainEvents(v@[0]), value: v@[1] }
    }
}

/// The registers of the sensor, in the order of their addresses.
#[derive(Clone, Copy, Debug, PartialEq, Eq, Structural)]
#[allow(non_camel_case_types)]
pub enum Register {
    /// Read-only, always `PRODUCT_NUMBER`.
    ProductNumber,
    /// Read-only: 0x06 (IQS231A) or 0x07 (IQS231B).
    SoftwareVersion,
    /// Read-only debug event flags.
    DebugEvents,
    /// Reserved.
    Reserved,
    /// Command register.
    Commands,
    /// Runtime copy of the first OTP configuration bank.
    OtpBank1,
    /// Runtime copy of the second OTP configuration bank.
    OtpBank2,
    /// Runtime copy of the third OTP configuration bank.
    OtpBank3,
    /// Quick release threshold and beta.
    QuickRelease,
    /// Movement threshold.
    Movement,
    /// Touch threshold code.
    TouchThreshold,
    /// Proximity threshold.
    ProximityThreshold,
    /// Temperature interference threshold.
    TempInterferenceThreshold,
    /// Channel 0 sensitivity and compensation multipliers.
    CH0_Multipliers,
    /// Channel 0 compensation, 0 to 255.
    CH0_Compensation,
    /// Channel 1 sensitivity and compensation multipliers.
    CH1_Multipliers,
    /// Channel 1 compensation, 0 to 255.
    CH1_Compensation,
    /// System flags.
    System_Flags,
    /// User interface flags.
    UI_Flags,
    /// ATI flags.
    ATI_Flags,
    /// Detailed event flags.
    EventFlags,
    /// Proximity channel filtered count, high byte.
    CH0_ACF_H,
    CH0_ACF_L,
    /// Proximity channel reference count (long term average), high byte.
    CH0_LTA_H,
    CH0_LTA_L,
    /// Proximity channel quick release detect reference, high byte.
    CH0_QRD_H,
    CH0_QRD_L,
    /// Movement channel filtered count, high byte.
    CH1_ACF_H,
    CH1_ACF_L,
    /// Movement channel upper reference count, high byte.
    CH1_UMOV_H,
    CH1_UMOV_L,
    /// Movement channel lower reference count, high byte.
    CH1_LMOV_H,
    CH1_LMOV_L,
    /// Temperature channel unfiltered count, high byte.
    CH1_RAW_H,
    CH1_RAW_L,
    /// Movement channel temperature reference, high byte.
    Temperature_H,
    Temperature_L,
    /// LTA halt countdown timer, high byte.
    LtaHaltTimer_H,
    LtaHaltTimer_L,
    /// Filter halt countdown timer.
    FilterHaltTimer,
    /// Countdown to the next read of IO2.
    TimerReadInput,
    /// Countdown to the next calibration attempt after an ATI error.
    TimerRedoAti,
}

/// The address of the last register.
pub const LAST_REGISTER_ADDRESS: u8 = 0x29;

impl Register {
    /// The register's byte address.
    pub open spec fn spec_address(self) -> u8 {
        match self {
            Register::ProductNumber => 0x00,
            Register::SoftwareVersion => 0x01,
            Register::DebugEvents => 0x02,
            Register::Reserved => 0x03,
            Register::Commands => 0x04,
            Register::OtpBank1 => 0x05,
            Register::OtpBank2 => 0x06,
            Register::OtpBank3 => 0x07,
            Register::QuickRelease => 0x08,
            Register::Movement => 0x09,
            Register::TouchThreshold => 0x0a,
            Register::ProximityThreshold => 0x0b,
            Register::TempInterferenceThreshold => 0x0c,
            Register::CH0_Multipliers => 0x0d,
            Register::CH0_Compensation => 0x0e,
            Register::CH1_Multipliers => 0x0f,
            Register::CH1_Compensation => 0x10,
            Register::System_Flags => 0x11,
            Register::UI_Flags => 0x12,
            Register::ATI_Flags => 0x13,
            Register::EventFlags => 0x14,
            Register::CH0_ACF_H => 0x15,
            Register::CH0_ACF_L => 0x16,
            Register::CH0_LTA_H => 0x17,
            Register::CH0_LTA_L => 0x18,
            Register::CH0_QRD_H => 0x19,
            Register::CH0_QRD_L => 0x1a,
            Register::CH1_ACF_H => 0x1b,
            Register::CH1_ACF_L => 0x1c,
            Register::CH1_UMOV_H => 0x1d,
            Register::CH1_UMOV_L => 0x1e,
            Register::CH1_LMOV_H => 0x1f,
            Register::CH1_LMOV_L => 0x20,
            Register::CH1_RAW_H => 0x21,
            Register::CH1_RAW_L => 0x22,
            Register::Temperature_H => 0x23,
            Register::Temperature_L => 0x24,
            Register::LtaHaltTimer_H => 0x25,
            Register::LtaHaltTimer_L => 0x26,
            Register::FilterHaltTimer => 0x27,
            Register::TimerReadInput => 0x28,
            Register::TimerRedoAti => 0x29,
        }
    }

    /// The register at `address`, if there is one.
    pub open spec fn spec_at(address: u8) -> Option<Register> {
        match address {
            0x00 => Some(Register::ProductNumber),
            0x01 => Some(Register::SoftwareVersion),
            0x02 => Some(Register::DebugEvents),
            0x03 => Some(Register::Reserved),
            0x04 => Some(Register::Commands),
            0x05 => Some(Register::OtpBank1),
            0x06 => Some(Register::OtpBank2),
            0x07 => Some(Register::OtpBank3),
            0x08 => Some(Register::QuickRelease),
            0x09 => Some(Register::Movement),
            0x0a => Some(Register::TouchThreshold),
            0x0b => Some(Register::ProximityThreshold),
            0x0c => Some(Register::TempInterferenceThreshold),
            0x0d => Some(Register::CH0_Multipliers),
            0x0e => Some(Register::CH0_Compensation),
            0x0f => Some(Register::CH1_Multipliers),
            0x10 => Some(Register::CH1_Compensation),
            0x11 => Some(Register::System_Flags),
            0x12 => Some(Register::UI_Flags),
            0x13 => Some(Register::ATI_Flags),
            0x14 => Some(Register::EventFlags),
            0x15 => Some(Register::CH0_ACF_H),
            0x16 => Some(Register::CH0_ACF_L),
            0x17 => Some(Register::CH0_LTA_H),
            0x18 => Some(Register::CH0_LTA_L),
            0x19 => Some(Register::CH0_QRD_H),
            0x1a => Some(Register::CH0_QRD_L),
            0x1b => Some(Register::CH1_ACF_H),
            0x1c => Some(Register::CH1_ACF_L),
            0x1d => Some(Register::CH1_UMOV_H),
            0x1e => Some(Register::CH1_UMOV_L),
            0x1f => Some(Register::CH1_LMOV_H),
            0x20 => Some(Register::CH1_LMOV_L),
            0x21 => Some(Register::CH1_RAW_H),
            0x22 => Some(Register::CH1_RAW_L),
            0x23 => Some(Register::Temperature_H),
            0x24 => Some(Register::Temperature_L),
            0x25 => Some(Register::LtaHaltTimer_H),
            0x26 => Some(Register::LtaHaltTimer_L),
            0x27 => Some(Register::FilterHaltTimer),
            0x28 => Some(Register::TimerReadInput),
            0x29 => Some(Register::TimerRedoAti),
            _ => None,
        }
    }

    /// The registers from `Reserved` (0x03) to `CH1_Compensation` (0x10) can be
    /// written; all others are read-only.
    pub open spec fn spec_is_writable(self) -> bool {
        0x03 <= self.spec_address() <= 0x10
    }

    /// The register's byte address.
    pub fn address(self) -> (r: u8)
        ensures
            r == self.spec_address(),
    {
        match self {
            Register::ProductNumber => 0x00,
            Register::SoftwareVersion => 0x01,
            Register::DebugEvents => 0x02,
            Register::Reserved => 0x03,
            Register::Commands => 0x04,
            Register::OtpBank1 => 0x05,
            Register::OtpBank2 => 0x06,
            Register::OtpBank3 => 0x07,
            Register::QuickRelease => 0x08,
            Register::Movement => 0x09,
            Register::TouchThreshold => 0x0a,
            Register::ProximityThreshold => 0x0b,
            Register::TempInterferenceThreshold => 0x0c,
            Register::CH0_Multipliers => 0x0d,
            Register::CH0_Compensation => 0x0e,
            Register::CH1_Multipliers => 0x0f,
            Register::CH1_Compensation => 0x10,
            Register::System_Flags => 0x11,
            Register::UI_Flags => 0x12,
            Register::ATI_Flags => 0x13,
            Register::EventFlags => 0x14,
            Register::CH0_ACF_H => 0x15,
            Register::CH0_ACF_L => 0x16,
            Register::CH0_LTA_H => 0x17,
            Register::CH0_LTA_L => 0x18,
            Register::CH0_QRD_H => 0x19,
            Register::CH0_QRD_L => 0x1a,
            Register::CH1_ACF_H => 0x1b,
            Register::CH1_ACF_L => 0x1c,
            Register::CH1_UMOV_H => 0x1d,
            Register::CH1_UMOV_L => 0x1e,
            Register::CH1_LMOV_H => 0x1f,
            Register::CH1_LMOV_L => 0x20,
            Register::CH1_RAW_H => 0x21,
            Register::CH1_RAW_L => 0x22,
            Register::Temperature_H => 0x23,
            Register::Temperature_L => 0x24,
            Register::LtaHaltTimer_H => 0x25,
            Register::LtaHaltTimer_L => 0x26,
            Register::FilterHaltTimer => 0x27,
            Register::TimerReadInput => 0x28,
            Register::TimerRedoAti => 0x29,
        }
    }

    /// Whether the register can be written.
    pub fn is_writable(&self) -> (r: bool)
        ensures
            r == self.spec_is_writable(),
    {
        matches!(
            self,
            Register::Reserved
                | Register::Commands
                | Register::OtpBank1
                | Register::OtpBank2
                | Register::OtpBank3
                | Register::QuickRelease
                | Register::Movement
                | Register::TouchThreshold
                | Register::ProximityThreshold
                | Register::TempInterferenceThreshold
                | Register::CH0_Multipliers
                | Register::CH0_Compensation
                | Register::CH1_Multipliers
                | Register::CH1_Compensation
        )
    }

    /// The register one address further on: the low byte, where `self` is
    /// the high byte of a 16-bit value.
    pub fn next<T>(self) -> (r: Result<Self, Error<T>>)
        ensures
            self.spec_address() < LAST_REGISTER_ADDRESS <==> r is Ok,
            r matches Ok(n) ==> n.spec_address() == self.spec_address() + 1,
            r matches Err(e) ==> e is InvalidRegister,
    {
        Self::from_u8(self.address() + 1)
    }

    /// The register at `reg_nr`.
    pub fn from_u8<T>(reg_nr: u8) -> (r: Result<Self, Error<T>>)
        ensures
            reg_nr <= LAST_REGISTER_ADDRESS <==> r is Ok,
            r matches Ok(reg) ==> reg.spec_address() == reg_nr,
            r matches Err(e) ==> e is InvalidRegister,
    {
        match reg_nr {
            0x00 => Ok(Register::ProductNumber),
            0x01 => Ok(Register::SoftwareVersion),
            0x02 => Ok(Register::DebugEvents),
            0x03 => Ok(Register::Reserved),
            0x04 => Ok(Register::Commands),
            0x05 => Ok(Register::OtpBank1),
            0x06 => Ok(Register::OtpBank2),
            0x07 => Ok(Register::OtpBank3),
            0x08 => Ok(Register::QuickRelease),
            0x09 => Ok(Register::Movement),
            0x0a => Ok(Register::TouchThreshold),
            0x0b => Ok(Register::ProximityThreshold),
            0x0c => Ok(Register::TempInterferenceThreshold),
            0x0d => Ok(Register::CH0_Multipliers),
            0x0e => Ok(Register::CH0_Compensation),
            0x0f => Ok(Register::CH1_Multipliers),
            0x10 => Ok(Register::CH1_Compensation),
            0x11 => Ok(Register::System_Flags),
            0x12 => Ok(Register::UI_Flags),
            0x13 => Ok(Register::ATI_Flags),
            0x14 => Ok(Register::EventFlags),
            0x15 => Ok(Register::CH0_ACF_H),
            0x16 => Ok(Register::CH0_ACF_L),
            0x17 => Ok(Register::CH0_LTA_H),
            0x18 => Ok(Register::CH0_LTA_L),
            0x19 => Ok(Register::CH0_QRD_H),
            0x1a => Ok(Register::CH0_QRD_L),
            0x1b => Ok(Register::CH1_ACF_H),
            0x1c => Ok(Register::CH1_ACF_L),
            0x1d => Ok(Register::CH1_UMOV_H),
            0x1e => Ok(Register::CH1_UMOV_L),
            0x1f => Ok(Register::CH1_LMOV_H),
            0x20 => Ok(Register::CH1_LMOV_L),
            0x21 => Ok(Register::CH1_RAW_H),
            0x22 => Ok(Register::CH1_RAW_L),
            0x23 => Ok(Register::Temperature_H),
            0x24 => Ok(Register::Temperature_L),
            0x25 => Ok(Register::LtaHaltTimer_H),
            0x26 => Ok(Register::LtaHaltTimer_L),
            0x27 => Ok(Register::FilterHaltTimer),
            0x28 => Ok(Register::TimerReadInput),
            0x29 => Ok(Register::TimerRedoAti),
            _ => Err(Error::InvalidRegister),
        }
    }
}

impl From<Register> for u8 {
    fn from(value: Register) -> Self {
        value.address()
    }
}

impl vstd::std_specs::convert::FromSpecImpl<Register> for u8 {
    open spec fn obeys_from_spec() -> bool {
        true
    }

    open spec fn from_spec(v: Register) -> u8 {
        v.spec_address()
    }
}

/// The product number that every IQS231 reports.
pub const PRODUCT_NUMBER: u8 = 0x40;

/// The known silicon revisions.
#[derive(Clone, Copy, Debug, PartialEq, Eq, Structural)]
pub enum SoftwareVersion {
    /// Version byte 0x06.
    IQS231A,
    /// Version byte 0x07, with the same software as the IQS231A.
    IQS231B,
}

impl SoftwareVersion {
    /// The byte that the sensor reports for this revision.
    pub open spec fn spec_value(self) -> u8 {
        match self {
            SoftwareVersion::IQS231A => 0x06,
            SoftwareVersion::IQS231B => 0x07,
        }
    }

    /// The revision that reports `version`, or the error that names it.
    pub open spec fn spec_from_u8<T>(version: u8) -> Result<Self, Error<T>> {
        if version == 0x06 {
            Ok(SoftwareVersion::IQS231A)
        } else if version == 0x07 {
            Ok(SoftwareVersion::IQS231B)
        } else {
            Err(Error::UnknownSoftwareVersion(version))
        }
    }

    /// The revision that reports `version`.
    pub fn from_u8<T>(version: u8) -> (r: Result<Self, Error<T>>)
        ensures
            r == Self::spec_from_u8::<T>(version),
            r matches Ok(v) ==> v.spec_value() == version,
            (version == 0x06 || version == 0x07) <==> r is Ok,
            r is Err ==> r == Err::<Self, Error<T>>(Error::UnknownSoftwareVersion(version)),
    {
        match version {
            0x06 => Ok(SoftwareVersion::IQS231A),
            0x07 => Ok(SoftwareVersion::IQS231B),
            _ => Err(Error::UnknownSoftwareVersion(version)),
        }
    }
}

/// The product number itself if it is `PRODUCT_NUMBER`, else the error
/// that names it.
pub open spec fn spec_check_product_number<E>(prod_nr: u8) -> Result<u8, Error<E>> {
    if prod_nr == PRODUCT_NUMBER {
        Ok(prod_nr)
    } else {
        Err(Error::IncorrectProductNumber(prod_nr))
    }
}

/// Checks the product number read from the sensor.
pub fn check_product_number<E>(prod_nr: u8) -> (r: Result<u8, Error<E>>)
    ensures
        r == spec_check_product_number::<E>(prod_nr),
        (prod_nr == PRODUCT_NUMBER) == (r is Ok),
        r matches Ok(v) ==> v == prod_nr,
        r matches Err(e) ==> e == Error::<E>::IncorrectProductNumber(prod_nr),
{
    if prod_nr == PRODUCT_NUMBER {
        Ok(prod_nr)
    } else {
        Err(Error::IncorrectProductNumber(prod_nr))
    }
}

/// The smallest touch threshold, in counts.
pub const TOUCH_THRESHOLD_MIN: u16 = 4;

/// The largest touch threshold, in counts.
pub const TOUCH_THRESHOLD_MAX: u16 = 1024;

/// The code stored for a touch threshold: the threshold less 4, divided by 4.
pub open spec fn spec_touch_threshold_code(threshold: u16) -> int {
    (threshold - 4) / 4
}

/// The touch threshold, in counts, that a stored code stands for.
pub open spec fn spec_touch_threshold(code: u8) -> int {
    code * 4 + 4
}

/// Encodes a touch threshold, which must lie in `4..=1024`. Up to three
/// counts are lost: the code steps by four.
pub fn touch_threshold_code<E>(threshold: u16) -> (r: Result<u8, Error<E>>)
    ensures
        (TOUCH_THRESHOLD_MIN <= threshold <= TOUCH_THRESHOLD_MAX) == (r is Ok),
        r matches Ok(code) ==> code == spec_touch_threshold_code(threshold),
        r matches Err(e) ==> e is TouchThresholdOutOfRange,
{
    if threshold < TOUCH_THRESHOLD_MIN || threshold > TOUCH_THRESHOLD_MAX {
        Err(Error::TouchThresholdOutOfRange)
    } else {
        let d: u16 = threshold - 4;
        let code: u16 = d >> 2;
        assert(d >> 2 == d / 4) by (bit_vector);
        Ok(code as u8)
    }
}

/// Decodes a stored touch threshold code into counts.
pub fn touch_threshold_from_code(code: u8) -> (r: u16)
    ensures
        r == spec_touch_threshold(code),
{
    let c: u16 = code as u16;
    assert(c << 2 == c * 4) by (bit_vector)
        requires
            c < 256,
    ;
    (c << 2) + 4
}

/// Encoding then decoding a touch threshold in range loses less than four
/// counts, and never rounds up.
pub proof fn lemma_touch_threshold_round_trip(threshold: u16)
    requires
        TOUCH_THRESHOLD_MIN <= threshold <= TOUCH_THRESHOLD_MAX,
    ensures
        0 <= spec_touch_threshold_code(threshold) <= 255,
        spec_touch_threshold(spec_touch_threshold_code(threshold) as u8) <= threshold,
        threshold - spec_touch_threshold(spec_touch_threshold_code(threshold) as u8) < 4,
{
}

/// Which registers can be written: the configuration registers, from
/// `Reserved` to `CH1_Compensation`. The identity, debug, status, flag,
/// count and timer registers are read-only.
pub proof fn lemma_writability(reg: Register)
    ensures
        reg.spec_is_writable() <==> {
            ||| reg is Reserved
            ||| reg is Commands
            ||| reg is OtpBank1
            ||| reg is OtpBank2
            ||| reg is OtpBank3
            ||| reg is QuickRelease
            ||| reg is Movement
            ||| reg is TouchThreshold
            ||| reg is ProximityThreshold
            ||| reg is TempInterferenceThreshold
            ||| reg is CH0_Multipliers
            ||| reg is CH0_Compensation
            ||| reg is CH1_Multipliers
            ||| reg is CH1_Compensation
        },
{
}

/// Register addresses are distinct, and every address up to the last one
/// belongs to a register.
pub proof fn lemma_address_map(a: Register, b: Register, address: u8)
    ensures
        a.spec_address() == b.spec_address() ==> a == b,
        a.spec_address() <= LAST_REGISTER_ADDRESS,
        address <= LAST_REGISTER_ADDRESS <==> Register::spec_at(address) is Some,
        Register::spec_at(a.spec_address()) == Some(a),
{
}

} // verus!
