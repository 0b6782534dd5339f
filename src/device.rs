//! The device: a bus, the sensor's address on it, and one accessor per
//! register or concept.
//!
//! Every accessor performs fresh bus transactions; nothing is cached. Checks
//! that do not need the bus (writability, ranges, the standalone command) are
//! made before any transaction, so a refused call leaves the device as it
//! was.
use vstd::prelude::*;

use crate::registers::{
    check_product_number, spec_check_product_number, spec_touch_threshold,
    spec_touch_threshold_code, touch_threshold_code, touch_threshold_from_code, ChannelMultiplier,
    Commands, DebugEvents, EventFlags, MainEvents, OtpBank1, OtpBank2, OtpBank3,
    ProximityThreshold, QuickRelease, RegValue, Register, SoftwareVersion, SystemFlags, UiFlags,
    LAST_REGISTER_ADDRESS, TOUCH_THRESHOLD_MAX, TOUCH_THRESHOLD_MIN,
};
use crate::Error;

verus! {

/// The bus addresses the sensor can answer on.
#[derive(Clone, Copy, Debug, PartialEq, Eq, Structural)]
pub enum I2cAddress {
    /// The address in normal operation, 0x44.
    Default,
    /// 0x45, not used in normal operation.
    Test,
    /// 0x46.
    Alt1,
    /// 0x47.
    Alt2,
}

impl I2cAddress {
    /// The seven-bit bus address.
    pub open spec fn spec_value(self) -> u8 {
        match self {
            I2cAddress::Default => 0x44,
            I2cAddress::Test => 0x45,
            I2cAddress::Alt1 => 0x46,
            I2cAddress::Alt2 => 0x47,
        }
    }

    /// The seven-bit bus address.
    pub fn value(self) -> (r: u8)
        ensures
            r == self.spec_value(),
    {
        match self {
            I2cAddress::Default => 0x44,
            I2cAddress::Test => 0x45,
            I2cAddress::Alt1 => 0x46,
            I2cAddress::Alt2 => 0x47,
        }
    }
}

impl Default for I2cAddress {
    fn default() -> (r: Self)
        ensures
            r == I2cAddress::Default,
    {
        I2cAddress::Default
    }
}

/// The two-wire bus that the sensor hangs on: the blocking transactions of a
/// hardware abstraction layer, each of which may fail with the bus's own
/// error.
pub trait I2cBus {
    type Error;

    /// Reads `buffer.len()` bytes from the device at `address`.
    fn read(&mut self, address: u8, buffer: &mut [u8]) -> (r: Result<(), Self::Error>)
        ensures
            final(buffer)@.len() == old(buffer)@.len(),
    ;

    /// Writes `bytes` to the device at `address`.
    fn write(&mut self, address: u8, bytes: &[u8]) -> (r: Result<(), Self::Error>);

    /// Writes `bytes` to the device at `address`, then reads `buffer.len()`
    /// bytes back in the same transaction.
    fn write_read(&mut self, address: u8, bytes: &[u8], buffer: &mut [u8]) -> (r: Result<
        (),
        Self::Error,
    >)
        ensures
            final(buffer)@.len() == old(buffer)@.len(),
    ;
}

/// A transaction that the handle started on the bus, with the bytes that
/// went each way. Whether the bus reported an error shows in the result of
/// the call that started it.
pub enum Transaction {
    /// Bytes read from the device at `address`.
    Read { address: u8, read: Seq<u8> },
    /// Bytes written to the device at `address`.
    Write { address: u8, written: Seq<u8> },
    /// Bytes written to the device at `address`, then bytes read back.
    WriteRead { address: u8, written: Seq<u8>, read: Seq<u8> },
}

impl Transaction {
    /// The bytes that came back.
    pub open spec fn read_bytes(self) -> Seq<u8> {
        match self {
            Transaction::Read { read, .. } => read,
            Transaction::WriteRead { read, .. } => read,
            Transaction::Write { .. } => Seq::empty(),
        }
    }
}

/// The value of a register read: the sensor sends the main event flags
/// first, then the register's byte.
pub open spec fn reading(read: Seq<u8>) -> RegValue<u8> {
    RegValue { main_events: MainEvents(read[0]), value: read[1] }
}

/// The transaction that reads the register at `register_address` of the
/// sensor at `address`: the register's address is written, and `read` comes
/// back.
pub open spec fn register_read(
    address: I2cAddress,
    register_address: u8,
    read: Seq<u8>,
) -> Transaction {
    Transaction::WriteRead { address: address.spec_value(), written: seq![register_address], read }
}

/// The transaction that writes `value` into `register` of the sensor at
/// `address`.
pub open spec fn register_write(address: I2cAddress, register: Register, value: u8) -> Transaction {
    Transaction::Write {
        address: address.spec_value(),
        written: seq![register.spec_address(), value],
    }
}

/// What a handle has done on the bus: each transaction it started, oldest
/// first, and beside it what the bus reported for that transaction.
pub struct BusRecord<E> {
    pub transactions: Seq<Transaction>,
    pub outcomes: Seq<Result<(), E>>,
}

/// An IQS231 on a bus. The handle owns the bus; `into_standalone` and
/// `destroy` hand it back. It records, as ghost state, every transaction
/// that it starts and what the bus reported for it.
pub struct Iqs231<I: I2cBus> {
    bus: I,
    address: I2cAddress,
    record: Ghost<BusRecord<I::Error>>,
}

impl<I: I2cBus> Iqs231<I> {
    /// The bus the handle owns.
    pub closed spec fn spec_bus(&self) -> I {
        self.bus
    }

    /// The sensor's address on the bus.
    pub closed spec fn spec_address(&self) -> I2cAddress {
        self.address
    }

    /// What the handle has done on the bus so far.
    pub closed spec fn spec_record(&self) -> BusRecord<I::Error> {
        self.record@
    }

    /// The transactions started so far, oldest first.
    pub open spec fn spec_transactions(&self) -> Seq<Transaction> {
        self.spec_record().transactions
    }

    /// What the bus reported for each transaction, oldest first.
    pub open spec fn spec_outcomes(&self) -> Seq<Result<(), I::Error>> {
        self.spec_record().outcomes
    }

    /// What the bus reported for the last transaction.
    pub open spec fn last_outcome(&self) -> Result<(), I::Error> {
        self.spec_outcomes().last()
    }

    /// The register value that the transaction at `i` read.
    pub open spec fn reading_at(&self, i: int) -> RegValue<u8> {
        reading(self.spec_transactions()[i].read_bytes())
    }

    /// The register value that the last transaction read.
    pub open spec fn last_reading(&self) -> RegValue<u8> {
        self.reading_at(self.spec_transactions().len() - 1)
    }

    /// A handle for a sensor at the default address.
    pub fn new(bus: I) -> (r: Self)
        ensures
            r.spec_bus() == bus,
            r.spec_address() == I2cAddress::Default,
            r.spec_transactions() == Seq::<Transaction>::empty(),
            r.spec_outcomes() == Seq::<Result<(), I::Error>>::empty(),
    {
        Self {
            bus,
            address: I2cAddress::default(),
            record: Ghost(BusRecord { transactions: Seq::empty(), outcomes: Seq::empty() }),
        }
    }

    /// The same handle, for a sensor at `address`.
    pub fn with_address(self, address: I2cAddress) -> (r: Self)
        ensures
            r.spec_bus() == self.spec_bus(),
            r.spec_address() == address,
            r.spec_record() == self.spec_record(),
    {
        Self { address, ..self }
    }

    /// Gives the bus back.
    pub fn destroy(self) -> (r: I)
        ensures
            r == self.spec_bus(),
    {
        self.bus
    }
}

/// What the call returns after its last bus call: `value` if the bus
/// reported success, else the bus's own error.
pub open spec fn bus_then<T, E>(
    outcome: Result<(), E>,
    r: Result<T, Error<E>>,
    value: Result<T, Error<E>>,
) -> bool {
    match outcome {
        Ok(_) => r == value,
        Err(e) => r == Err::<T, Error<E>>(Error::IoError(e)),
    }
}

/// The call was refused with `err` before any transaction: the device, its
/// bus and its record are as they were.
pub open spec fn refused<T, I: I2cBus, E>(
    r: Result<T, Error<E>>,
    err: Error<E>,
    before: Iqs231<I>,
    after: Iqs231<I>,
) -> bool {
    &&& r matches Err(e) && e == err
    &&& after == before
}

/// `after` is `before` with one transaction more: a read of the register at
/// `register_address`, which brought two bytes back.
pub open spec fn read_one<I: I2cBus>(
    before: Iqs231<I>,
    after: Iqs231<I>,
    register_address: u8,
) -> bool {
    let read = after.spec_transactions().last().read_bytes();
    &&& after.spec_address() == before.spec_address()
    &&& after.spec_transactions() == before.spec_transactions().push(
        register_read(before.spec_address(), register_address, read),
    )
    &&& after.spec_outcomes() == before.spec_outcomes().push(after.last_outcome())
    &&& read.len() == 2
}

/// `after` is `before` with one transaction more: `value` written into
/// `register`.
pub open spec fn wrote_one<I: I2cBus>(
    before: Iqs231<I>,
    after: Iqs231<I>,
    register: Register,
    value: u8,
) -> bool {
    &&& after.spec_address() == before.spec_address()
    &&& after.spec_transactions() == before.spec_transactions().push(
        register_write(before.spec_address(), register, value),
    )
    &&& after.spec_outcomes() == before.spec_outcomes().push(after.last_outcome())
}

/// A register read whose byte is decoded by `decode`: the event flags stay,
/// the value is what `decode` makes of the byte.
pub open spec fn decode_reading<T>(rv: RegValue<u8>, decode: spec_fn(u8) -> T) -> RegValue<T> {
    RegValue { main_events: rv.main_events, value: decode(rv.value) }
}

/// A 16-bit read of `high` and the register after it. If the bus fails the
/// first read, the second is not tried and the error is returned; else the
/// second read follows, and unless it fails too the value joins the two
/// readings.
pub open spec fn read_pair<I: I2cBus>(
    r: Result<RegValue<u16>, Error<I::Error>>,
    before: Iqs231<I>,
    after: Iqs231<I>,
    high: Register,
) -> bool {
    let n = before.spec_transactions().len() as int;
    let m = before.spec_outcomes().len() as int;
    let ts = after.spec_transactions();
    let os = after.spec_outcomes();
    let first = register_read(before.spec_address(), high.spec_address(), ts[n].read_bytes());
    let second = register_read(
        before.spec_address(),
        (high.spec_address() + 1) as u8,
        ts[n + 1].read_bytes(),
    );
    &&& after.spec_address() == before.spec_address()
    &&& ts[n].read_bytes().len() == 2
    &&& match os[m] {
        Err(e) => {
            &&& ts == before.spec_transactions().push(first)
            &&& os == before.spec_outcomes().push(os[m])
            &&& r == Err::<RegValue<u16>, Error<I::Error>>(Error::IoError(e))
        },
        Ok(_) => {
            &&& ts == before.spec_transactions().push(first).push(second)
            &&& os == before.spec_outcomes().push(os[m]).push(os[m + 1])
            &&& ts[n + 1].read_bytes().len() == 2
            &&& bus_then(
                os[m + 1],
                r,
                Ok(RegValue::spec_join(after.reading_at(n), after.reading_at(n + 1))),
            )
        },
    }
}

impl<I: I2cBus> Iqs231<I> {
    /// Reads the main event flags alone, without addressing a register.
    pub fn read_main_events(&mut self) -> (r: Result<MainEvents, Error<I::Error>>)
        ensures
            final(self).spec_address() == old(self).spec_address(),
            final(self).spec_transactions() == old(self).spec_transactions().push(
                Transaction::Read {
                    address: old(self).spec_address().spec_value(),
                    read: final(self).spec_transactions().last().read_bytes(),
                },
            ),
            final(self).spec_outcomes() == old(self).spec_outcomes().push(
                final(self).last_outcome(),
            ),
            final(self).spec_transactions().last().read_bytes().len() == 1,
            bus_then(
                final(self).last_outcome(),
                r,
                Ok(MainEvents(final(self).spec_transactions().last().read_bytes()[0])),
            ),
    {
        let mut rd_buffer: [u8; 1] = [0u8; 1];
        let res = self.bus.read(self.address.value(), &mut rd_buffer);
        let ghost outcome = *&res;
        self.record = Ghost(
            BusRecord {
                transactions: self.record@.transactions.push(
                    Transaction::Read { address: self.address.spec_value(), read: rd_buffer@ },
                ),
                outcomes: self.record@.outcomes.push(outcome),
            },
        );
        match res {
            Ok(()) => Ok(MainEvents::from_bits_retain(rd_buffer[0])),
            Err(e) => Err(Error::IoError(e)),
        }
    }

    /// Reads the product number and checks that this is an IQS231.
    pub fn get_prod_nr(&mut self) -> (r: Result<u8, Error<I::Error>>)
        ensures
            read_one(*old(self), *final(self), Register::ProductNumber.spec_address()),
            bus_then(
                final(self).last_outcome(),
                r,
                spec_check_product_number(final(self).last_reading().value),
            ),
    {
        match self.read_reg(Register::ProductNumber) {
            Ok(rv) => check_product_number(rv.value),
            Err(e) => Err(e),
        }
    }

    /// Reads the software version: one of the two known revisions.
    pub fn get_software_version(&mut self) -> (r: Result<SoftwareVersion, Error<I::Error>>)
        ensures
            read_one(*old(self), *final(self), Register::SoftwareVersion.spec_address()),
            bus_then(
                final(self).last_outcome(),
                r,
                SoftwareVersion::spec_from_u8(final(self).last_reading().value),
            ),
    {
        match self.read_reg(Register::SoftwareVersion) {
            Ok(rv) => SoftwareVersion::from_u8(rv.value),
            Err(e) => Err(e),
        }
    }

    pub fn set_otp_bank1(&mut self, value: OtpBank1) -> (r: Result<(), Error<I::Error>>)
        ensures
            wrote_one(*old(self), *final(self), Register::OtpBank1, value@),
            bus_then(final(self).last_outcome(), r, Ok(())),
    {
        self.write_register(Register::OtpBank1, value.into_bytes()[0])
    }

    pub fn get_otp_bank1(&mut self) -> (r: Result<RegValue<OtpBank1>, Error<I::Error>>)
        ensures
            read_one(*old(self), *final(self), Register::OtpBank1.spec_address()),
            bus_then(final(self).last_outcome(), r, Ok(decode_reading(final(self).last_reading(), |b: u8| OtpBank1::spec_from_byte(b)))),
    {
        match self.read_reg(Register::OtpBank1) {
            Ok(rv) => Ok(
                RegValue { main_events: rv.main_events, value: OtpBank1::from_bytes([rv.value]) },
            ),
            Err(e) => Err(e),
        }
    }

    pub fn set_otp_bank2(&mut self, value: OtpBank2) -> (r: Result<(), Error<I::Error>>)
        ensures
            wrote_one(*old(self), *final(self), Register::OtpBank2, value@),
            bus_then(final(self).last_outcome(), r, Ok(())),
    {
        self.write_register(Register::OtpBank2, value.into_bytes()[0])
    }

    pub fn get_otp_bank2(&mut self) -> (r: Result<RegValue<OtpBank2>, Error<I::Error>>)
        ensures
            read_one(*old(self), *final(self), Register::OtpBank2.spec_address()),
            bus_then(final(self).last_outcome(), r, Ok(decode_reading(final(self).last_reading(), |b: u8| OtpBank2::spec_from_byte(b)))),
    {
        match self.read_reg(Register::OtpBank2) {
            Ok(rv) => Ok(
                RegValue { main_events: rv.main_events, value: OtpBank2::from_bytes([rv.value]) },
            ),
            Err(e) => Err(e),
        }
    }

    pub fn set_otp_bank3(&mut self, value: OtpBank3) -> (r: Result<(), Error<I::Error>>)
        ensures
            wrote_one(*old(self), *final(self), Register::OtpBank3, value@),
            bus_then(final(self).last_outcome(), r, Ok(())),
    {
        self.write_register(Register::OtpBank3, value.into_bytes()[0])
    }

    pub fn get_otp_bank3(&mut self) -> (r: Result<RegValue<OtpBank3>, Error<I::Error>>)
        ensures
            read_one(*old(self), *final(self), Register::OtpBank3.spec_address()),
            bus_then(final(self).last_outcome(), r, Ok(decode_reading(final(self).last_reading(), |b: u8| OtpBank3::spec_from_byte(b)))),
    {
        match self.read_reg(Register::OtpBank3) {
            Ok(rv) => Ok(
                RegValue { main_events: rv.main_events, value: OtpBank3::from_bytes([rv.value]) },
            ),
            Err(e) => Err(e),
        }
    }

    /// Sets the touch threshold, in counts; it must lie in `4..=1024`.
    pub fn set_touch_threshold(&mut self, threshold: u16) -> (r: Result<(), Error<I::Error>>)
        ensures
            !(TOUCH_THRESHOLD_MIN <= threshold <= TOUCH_THRESHOLD_MAX) ==> refused(
                r,
                Error::TouchThresholdOutOfRange,
                *old(self),
                *final(self),
            ),
            TOUCH_THRESHOLD_MIN <= threshold <= TOUCH_THRESHOLD_MAX ==> {
                &&& wrote_one(
                    *old(self),
                    *final(self),
                    Register::TouchThreshold,
                    spec_touch_threshold_code(threshold) as u8,
                )
                &&& bus_then(final(self).last_outcome(), r, Ok(()))
            },
    {
        match touch_threshold_code(threshold) {
            Ok(code) => self.write_register(Register::TouchThreshold, code),
            Err(e) => Err(e),
        }
    }

    /// Reads the touch threshold, in counts.
    pub fn get_touch_threshold(&mut self) -> (r: Result<RegValue<u16>, Error<I::Error>>)
        ensures
            read_one(*old(self), *final(self), Register::TouchThreshold.spec_address()),
            bus_then(final(self).last_outcome(), r, Ok(decode_reading(final(self).last_reading(), |b: u8| spec_touch_threshold(b) as u16))),
    {
        match self.read_reg(Register::TouchThreshold) {
            Ok(rv) => Ok(
                RegValue {
                    main_events: rv.main_events,
                    value: touch_threshold_from_code(rv.value),
                },
            ),
            Err(e) => Err(e),
        }
    }

    pub fn set_proximity_threshold(&mut self, threshold: ProximityThreshold) -> (r: Result<(), Error<I::Error>>)
        ensures
            wrote_one(*old(self), *final(self), Register::ProximityThreshold, threshold.spec_code()),
            bus_then(final(self).last_outcome(), r, Ok(())),
    {
        self.write_register(Register::ProximityThreshold, u8::from(threshold))
    }

    /// Reads the proximity threshold from the two low bits of its register.
    pub fn get_proximity_threshold(&mut self) -> (r: Result<RegValue<ProximityThreshold>, Error<I::Error>>)
        ensures
            read_one(*old(self), *final(self), Register::ProximityThreshold.spec_address()),
            bus_then(final(self).last_outcome(), r, Ok(decode_reading(
                    final(self).last_reading(),
                    |b: u8| ProximityThreshold::spec_from_code(b & 0x03),
                ))),
    {
        match self.read_reg(Register::ProximityThreshold) {
            Ok(rv) => Ok(
                RegValue {
                    main_events: rv.main_events,
                    value: ProximityThreshold::from(rv.value),
                },
            ),
            Err(e) => Err(e),
        }
    }

    /// Default 3. Low values are recommended for the intended effect; use a
    /// higher value in a noisy environment.
    pub fn set_temp_interference_threshold(&mut self, threshold: u8) -> (r: Result<(), Error<I::Error>>)
        ensures
            wrote_one(*old(self), *final(self), Register::TempInterferenceThreshold, threshold),
            bus_then(final(self).last_outcome(), r, Ok(())),
    {
        self.write_register(Register::TempInterferenceThreshold, threshold)
    }

    pub fn set_ch0_multipliers(&mut self, mult: ChannelMultiplier) -> (r: Result<(), Error<I::Error>>)
        ensures
            wrote_one(*old(self), *final(self), Register::CH0_Multipliers, mult@),
            bus_then(final(self).last_outcome(), r, Ok(())),
    {
        self.write_register(Register::CH0_Multipliers, mult.into_bytes()[0])
    }

    pub fn get_ch0_multipliers(&mut self) -> (r: Result<RegValue<ChannelMultiplier>, Error<I::Error>>)
        ensures
            read_one(*old(self), *final(self), Register::CH0_Multipliers.spec_address()),
            bus_then(final(self).last_outcome(), r, Ok(decode_reading(final(self).last_reading(), |b: u8| ChannelMultiplier::spec_from_byte(b)))),
    {
        match self.read_reg(Register::CH0_Multipliers) {
            Ok(rv) => Ok(
                RegValue { main_events: rv.main_events, value: ChannelMultiplier::from_bytes([rv.value]) },
            ),
            Err(e) => Err(e),
        }
    }

    pub fn set_ch0_compensation(&mut self, comp: u8) -> (r: Result<(), Error<I::Error>>)
        ensures
            wrote_one(*old(self), *final(self), Register::CH0_Compensation, comp),
            bus_then(final(self).last_outcome(), r, Ok(())),
    {
        self.write_register(Register::CH0_Compensation, comp)
    }

    pub fn get_ch0_compensation(&mut self) -> (r: Result<RegValue<u8>, Error<I::Error>>)
        ensures
            read_one(*old(self), *final(self), Register::CH0_Compensation.spec_address()),
            bus_then(final(self).last_outcome(), r, Ok(final(self).last_reading())),
    {
        self.read_reg(Register::CH0_Compensation)
    }

    pub fn set_ch1_multipliers(&mut self, mult: ChannelMultiplier) -> (r: Result<(), Error<I::Error>>)
        ensures
            wrote_one(*old(self), *final(self), Register::CH1_Multipliers, mult@),
            bus_then(final(self).last_outcome(), r, Ok(())),
    {
        self.write_register(Register::CH1_Multipliers, mult.into_bytes()[0])
    }

    pub fn get_ch1_multipliers(&mut self) -> (r: Result<RegValue<ChannelMultiplier>, Error<I::Error>>)
        ensures
            read_one(*old(self), *final(self), Register::CH1_Multipliers.spec_address()),
            bus_then(final(self).last_outcome(), r, Ok(decode_reading(final(self).last_reading(), |b: u8| ChannelMultiplier::spec_from_byte(b)))),
    {
        match self.read_reg(Register::CH1_Multipliers) {
            Ok(rv) => Ok(
                RegValue { main_events: rv.main_events, value: ChannelMultiplier::from_bytes([rv.value]) },
            ),
            Err(e) => Err(e),
        }
    }

    pub fn set_ch1_compensation(&mut self, comp: u8) -> (r: Result<(), Error<I::Error>>)
        ensures
            wrote_one(*old(self), *final(self), Register::CH1_Compensation, comp),
            bus_then(final(self).last_outcome(), r, Ok(())),
    {
        self.write_register(Register::CH1_Compensation, comp)
    }

    pub fn get_ch1_compensation(&mut self) -> (r: Result<RegValue<u8>, Error<I::Error>>)
        ensures
            read_one(*old(self), *final(self), Register::CH1_Compensation.spec_address()),
            bus_then(final(self).last_outcome(), r, Ok(final(self).last_reading())),
    {
        self.read_reg(Register::CH1_Compensation)
    }

    /// Reads the debug event flags, unknown bits included.
    pub fn get_debug_events(&mut self) -> (r: Result<DebugEvents, Error<I::Error>>)
        ensures
            read_one(*old(self), *final(self), Register::DebugEvents.spec_address()),
            bus_then(final(self).last_outcome(), r, Ok(DebugEvents(final(self).last_reading().value))),
    {
        match self.read_reg(Register::DebugEvents) {
            Ok(rv) => Ok(DebugEvents::from_bits_retain(rv.value)),
            Err(e) => Err(e),
        }
    }

    /// Reads the system flags, unknown bits included.
    pub fn get_system_flags(&mut self) -> (r: Result<SystemFlags, Error<I::Error>>)
        ensures
            read_one(*old(self), *final(self), Register::System_Flags.spec_address()),
            bus_then(final(self).last_outcome(), r, Ok(SystemFlags(final(self).last_reading().value))),
    {
        match self.read_reg(Register::System_Flags) {
            Ok(rv) => Ok(SystemFlags::from_bits_retain(rv.value)),
            Err(e) => Err(e),
        }
    }

    /// Reads the user interface flags, unknown bits included.
    pub fn get_ui_flags(&mut self) -> (r: Result<UiFlags, Error<I::Error>>)
        ensures
            read_one(*old(self), *final(self), Register::UI_Flags.spec_address()),
            bus_then(final(self).last_outcome(), r, Ok(UiFlags(final(self).last_reading().value))),
    {
        match self.read_reg(Register::UI_Flags) {
            Ok(rv) => Ok(UiFlags::from_bits_retain(rv.value)),
            Err(e) => Err(e),
        }
    }

    /// Reads the detailed event flags, unknown bits included.
    pub fn get_event_flags(&mut self) -> (r: Result<EventFlags, Error<I::Error>>)
        ensures
            read_one(*old(self), *final(self), Register::EventFlags.spec_address()),
            bus_then(final(self).last_outcome(), r, Ok(EventFlags(final(self).last_reading().value))),
    {
        match self.read_reg(Register::EventFlags) {
            Ok(rv) => Ok(EventFlags::from_bits_retain(rv.value)),
            Err(e) => Err(e),
        }
    }

    /// The same as `get_otp_bank1`.
    pub fn get_otp_bank_1(&mut self) -> (r: Result<RegValue<OtpBank1>, Error<I::Error>>)
        ensures
            read_one(*old(self), *final(self), Register::OtpBank1.spec_address()),
            bus_then(final(self).last_outcome(), r, Ok(decode_reading(final(self).last_reading(), |b: u8| OtpBank1::spec_from_byte(b)))),
    {
        self.get_otp_bank1()
    }

    /// The same as `get_otp_bank2`.
    pub fn get_otp_bank_2(&mut self) -> (r: Result<RegValue<OtpBank2>, Error<I::Error>>)
        ensures
            read_one(*old(self), *final(self), Register::OtpBank2.spec_address()),
            bus_then(final(self).last_outcome(), r, Ok(decode_reading(final(self).last_reading(), |b: u8| OtpBank2::spec_from_byte(b)))),
    {
        self.get_otp_bank2()
    }

    /// The same as `get_otp_bank3`.
    pub fn get_otp_bank_3(&mut self) -> (r: Result<RegValue<OtpBank3>, Error<I::Error>>)
        ensures
            read_one(*old(self), *final(self), Register::OtpBank3.spec_address()),
            bus_then(final(self).last_outcome(), r, Ok(decode_reading(final(self).last_reading(), |b: u8| OtpBank3::spec_from_byte(b)))),
    {
        self.get_otp_bank3()
    }

    pub fn set_quick_release(&mut self, quick_rel: QuickRelease) -> (r: Result<(), Error<I::Error>>)
        ensures
            wrote_one(*old(self), *final(self), Register::QuickRelease, quick_rel@),
            bus_then(final(self).last_outcome(), r, Ok(())),
    {
        self.write_register(Register::QuickRelease, quick_rel.into_bytes()[0])
    }

    pub fn get_quick_release(&mut self) -> (r: Result<RegValue<QuickRelease>, Error<I::Error>>)
        ensures
            read_one(*old(self), *final(self), Register::QuickRelease.spec_address()),
            bus_then(final(self).last_outcome(), r, Ok(decode_reading(final(self).last_reading(), |b: u8| QuickRelease::spec_from_byte(b)))),
    {
        match self.read_reg(Register::QuickRelease) {
            Ok(rv) => Ok(
                RegValue { main_events: rv.main_events, value: QuickRelease::from_bytes([rv.value]) },
            ),
            Err(e) => Err(e),
        }
    }

    /// Proximity channel: filtered count value (0 to 2000).
    pub fn get_prox_filtered_count(&mut self) -> (r: Result<RegValue<u16>, Error<I::Error>>)
        ensures
            read_pair(r, *old(self), *final(self), Register::CH0_ACF_H),
    {
        self.read_reg16(Register::CH0_ACF_H)
    }

    /// Proximity channel: reference count value, the long term average (0 to 2000).
    pub fn get_prox_reference_count(&mut self) -> (r: Result<RegValue<u16>, Error<I::Error>>)
        ensures
            read_pair(r, *old(self), *final(self), Register::CH0_LTA_H),
    {
        self.read_reg16(Register::CH0_LTA_H)
    }

    /// Proximity channel: quick release detect reference value (0 to 2000).
    pub fn get_prox_quick_release_detect_reference(&mut self) -> (r: Result<RegValue<u16>, Error<I::Error>>)
        ensures
            read_pair(r, *old(self), *final(self), Register::CH0_QRD_H),
    {
        self.read_reg16(Register::CH0_QRD_H)
    }

    /// Movement channel: filtered count value (0 to 2000).
    pub fn get_move_filtered_count(&mut self) -> (r: Result<RegValue<u16>, Error<I::Error>>)
        ensures
            read_pair(r, *old(self), *final(self), Register::CH1_ACF_H),
    {
        self.read_reg16(Register::CH1_ACF_H)
    }

    /// Movement channel: upper reference count value (0 to 2000).
    pub fn get_move_upper_reference_count(&mut self) -> (r: Result<RegValue<u16>, Error<I::Error>>)
        ensures
            read_pair(r, *old(self), *final(self), Register::CH1_UMOV_H),
    {
        self.read_reg16(Register::CH1_UMOV_H)
    }

    /// Movement channel: lower reference count value (0 to 2000).
    pub fn get_move_lower_reference_count(&mut self) -> (r: Result<RegValue<u16>, Error<I::Error>>)
        ensures
            read_pair(r, *old(self), *final(self), Register::CH1_LMOV_H),
    {
        self.read_reg16(Register::CH1_LMOV_H)
    }

    /// Temperature channel: unfiltered count value, when the temperature feature
    /// is enabled (0 to 2000).
    pub fn get_move_unfiltered_count(&mut self) -> (r: Result<RegValue<u16>, Error<I::Error>>)
        ensures
            read_pair(r, *old(self), *final(self), Register::CH1_RAW_H),
    {
        self.read_reg16(Register::CH1_RAW_H)
    }

    /// Movement channel temperature reference, a previous value of the
    /// temperature channel (0 to 2000).
    pub fn get_temp_reference(&mut self) -> (r: Result<RegValue<u16>, Error<I::Error>>)
        ensures
            read_pair(r, *old(self), *final(self), Register::Temperature_H),
    {
        self.read_reg16(Register::Temperature_H)
    }

    /// Countdown of the LTA halt time-out, in steps of 100 ms; movement events
    /// reset it.
    pub fn get_lta_halt_timer(&mut self) -> (r: Result<RegValue<u16>, Error<I::Error>>)
        ensures
            read_pair(r, *old(self), *final(self), Register::LtaHaltTimer_H),
    {
        self.read_reg16(Register::LtaHaltTimer_H)
    }

    /// Countdown of the fixed 5 s filter halt time-out before proximity detect,
    /// in steps of 100 ms (0 to 50).
    pub fn get_filter_halt_timer(&mut self) -> (r: Result<RegValue<u8>, Error<I::Error>>)
        ensures
            read_one(*old(self), *final(self), Register::FilterHaltTimer.spec_address()),
            bus_then(final(self).last_outcome(), r, Ok(final(self).last_reading())),
    {
        self.read_reg(Register::FilterHaltTimer)
    }

    /// Countdown to the next read of IO2, in steps of 100 ms (0 to 10).
    pub fn get_timer_read_input(&mut self) -> (r: Result<RegValue<u8>, Error<I::Error>>)
        ensures
            read_one(*old(self), *final(self), Register::TimerReadInput.spec_address()),
            bus_then(final(self).last_outcome(), r, Ok(final(self).last_reading())),
    {
        self.read_reg(Register::TimerReadInput)
    }

    /// Countdown to the next calibration attempt after an ATI error, in steps of
    /// 100 ms.
    pub fn get_timer_redo_ati(&mut self) -> (r: Result<RegValue<u8>, Error<I::Error>>)
        ensures
            read_one(*old(self), *final(self), Register::TimerRedoAti.spec_address()),
            bus_then(final(self).last_outcome(), r, Ok(final(self).last_reading())),
    {
        self.read_reg(Register::TimerRedoAti)
    }

    /// Puts the sensor into standalone mode. The sensor then no longer
    /// answers on the bus until it is power cycled, so the handle is used up:
    /// the bus is handed back, with the handle's record of what it did on it,
    /// the standalone command last.
    pub fn into_standalone(self) -> (r: (Result<I, Error<I::Error>>, Ghost<BusRecord<I::Error>>))
        ensures
            r.1@.transactions == self.spec_transactions().push(
                register_write(self.spec_address(), Register::Commands, Commands::STANDALONE),
            ),
            r.1@.outcomes == self.spec_outcomes().push(r.1@.outcomes.last()),
            match r.1@.outcomes.last() {
                Ok(_) => r.0 is Ok,
                Err(e) => r.0 == Err::<I, Error<I::Error>>(Error::IoError(e)),
            },
    {
        let mut device = self;
        let res = device.write_register(Register::Commands, Commands::STANDALONE);
        let ghost record = device.record@;
        match res {
            Ok(()) => (Ok(device.destroy()), Ghost(record)),
            Err(e) => (Err(e), Ghost(record)),
        }
    }

    /// Sends commands. `STANDALONE` (also called warm boot) is refused here,
    /// whatever other bits are set, as it turns the bus interface of the
    /// sensor off: `into_standalone` sends it.
    pub fn send_commands(&mut self, commands: Commands) -> (r: Result<(), Error<I::Error>>)
        ensures
            commands@ & Commands::STANDALONE == Commands::STANDALONE ==> refused(
                r,
                Error::ShutdownCommandNotAllowed,
                *old(self),
                *final(self),
            ),
            commands@ & Commands::STANDALONE != Commands::STANDALONE ==> {
                &&& wrote_one(*old(self), *final(self), Register::Commands, commands@)
                &&& bus_then(final(self).last_outcome(), r, Ok(()))
            },
    {
        if commands.contains(Commands::STANDALONE) {
            Err(Error::ShutdownCommandNotAllowed)
        } else {
            self.write_register(Register::Commands, commands.bits())
        }
    }

    /// Reads a 16-bit value from `register` (the high byte) and the register
    /// after it (the low byte). The register after it is looked up before
    /// any transaction.
    pub fn read_reg16(&mut self, register: Register) -> (r: Result<RegValue<u16>, Error<I::Error>>)
        ensures
            register.spec_address() == LAST_REGISTER_ADDRESS ==> refused(
                r,
                Error::InvalidRegister,
                *old(self),
                *final(self),
            ),
            register.spec_address() < LAST_REGISTER_ADDRESS ==> read_pair(
                r,
                *old(self),
                *final(self),
                register,
            ),
    {
        let low = match register.next() {
            Ok(low) => low,
            Err(e) => return Err(e),
        };
        let ghost before = *self;
        let hi = match self.read_reg(register) {
            Ok(hi) => hi,
            Err(e) => return Err(e),
        };
        let ghost middle = *self;
        let lo = match self.read_reg(low) {
            Ok(lo) => lo,
            Err(e) => return Err(e),
        };
        proof {
            let n = before.spec_transactions().len() as int;
            let m = before.spec_outcomes().len() as int;
            assert(self.spec_transactions()[n] == middle.spec_transactions()[n]);
            assert(self.spec_outcomes()[m] == middle.spec_outcomes()[m]);
        }
        Ok(RegValue::join(hi, lo))
    }

    /// Reads one register. The sensor answers with two bytes: the main event
    /// flags, then the register's value.
    pub fn read_reg(&mut self, register: Register) -> (r: Result<RegValue<u8>, Error<I::Error>>)
        ensures
            read_one(*old(self), *final(self), register.spec_address()),
            bus_then(final(self).last_outcome(), r, Ok(final(self).last_reading())),
    {
        let mut rd_buffer: [u8; 2] = [0u8; 2];
        let request: [u8; 1] = [register.address()];
        let res = self.bus.write_read(self.address.value(), &request, &mut rd_buffer);
        let ghost outcome = *&res;
        self.record = Ghost(
            BusRecord {
                transactions: self.record@.transactions.push(
                    Transaction::WriteRead {
                        address: self.address.spec_value(),
                        written: request@,
                        read: rd_buffer@,
                    },
                ),
                outcomes: self.record@.outcomes.push(outcome),
            },
        );
        assert(request@ == seq![register.spec_address()]);
        match res {
            Ok(()) => Ok(RegValue::from(rd_buffer)),
            Err(e) => Err(Error::IoError(e)),
        }
    }

    /// Writes one register, which must be writable. The standalone command
    /// is refused here as in `send_commands`.
    pub fn write_reg(&mut self, register: Register, value: u8) -> (r: Result<(), Error<I::Error>>)
        ensures
            !register.spec_is_writable() ==> refused(
                r,
                Error::RegisterNotWritable,
                *old(self),
                *final(self),
            ),
            register == Register::Commands && value & Commands::STANDALONE == Commands::STANDALONE
                ==> refused(r, Error::ShutdownCommandNotAllowed, *old(self), *final(self)),
            register.spec_is_writable() && !(register == Register::Commands && value
                & Commands::STANDALONE == Commands::STANDALONE) ==> {
                &&& wrote_one(*old(self), *final(self), register, value)
                &&& bus_then(final(self).last_outcome(), r, Ok(()))
            },
    {
        if register == Register::Commands && value & Commands::STANDALONE == Commands::STANDALONE {
            Err(Error::ShutdownCommandNotAllowed)
        } else {
            self.write_register(register, value)
        }
    }

    /// Writes one register, which must be writable, whatever the value.
    fn write_register(&mut self, register: Register, value: u8) -> (r: Result<(), Error<I::Error>>)
        ensures
            !register.spec_is_writable() ==> refused(
                r,
                Error::RegisterNotWritable,
                *old(self),
                *final(self),
            ),
            register.spec_is_writable() ==> {
                &&& wrote_one(*old(self), *final(self), register, value)
                &&& bus_then(final(self).last_outcome(), r, Ok(()))
            },
    {
        if register.is_writable() {
            let frame: [u8; 2] = [register.address(), value];
            let res = self.bus.write(self.address.value(), &frame);
            let ghost outcome = *&res;
            self.record = Ghost(
                BusRecord {
                    transactions: self.record@.transactions.push(
                        Transaction::Write { address: self.address.spec_value(), written: frame@ },
                    ),
                    outcomes: self.record@.outcomes.push(outcome),
                },
            );
            assert(frame@ == seq![register.spec_address(), value]);
            match res {
                Ok(()) => Ok(()),
                Err(e) => Err(Error::IoError(e)),
            }
        } else {
            Err(Error::RegisterNotWritable)
        }
    }
}

} // verus!
