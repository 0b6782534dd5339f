//! Driver for the IQS231 capacitive touch and proximity sensor.
//!
//! The sensor exposes its whole behaviour through a byte-addressable register
//! file on a two-wire bus. This crate maps the registers to typed values and
//! back, and guards the rules for reading and writing them.
use vstd::prelude::*;

pub mod device;
pub mod registers;

pub use device::{I2cAddress, I2cBus, Iqs231};

verus! {

/// Everything that can go wrong when talking to the sensor.
#[derive(Debug)]
pub enum Error<IE> {
    /// An error of the bus, passed on as it came.
    IoError(IE),
    /// The software version byte is none of the known revisions (0x06, 0x07).
    UnknownSoftwareVersion(u8),
    /// The product number differs from `registers::PRODUCT_NUMBER`.
    IncorrectProductNumber(u8),
    /// The requested register does not exist.
    InvalidRegister,
    /// The register is read-only.
    RegisterNotWritable,
    /// The `STANDALONE` command goes through `Iqs231::into_standalone` only.
    ShutdownCommandNotAllowed,
    /// A touch threshold lies outside `4..=1024`.
    TouchThresholdOutOfRange,
}

/// Lets a caller who does not care for the details drop them: `Result<_, ()>`.
impl<E> From<Error<E>> for () {
    fn from(value: Error<E>) -> Self {
        ()
    }
}

impl<E> vstd::std_specs::convert::FromSpecImpl<Error<E>> for () {
    open spec fn obeys_from_spec() -> bool {
        true
    }

    open spec fn from_spec(v: Error<E>) -> () {
        ()
    }
}

} // verus!
