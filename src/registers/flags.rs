//! One-byte flag sets. Every bit of such a byte is an independent boolean;
//! bits without a name are kept as they were read, never masked away.
use vstd::prelude::*;

verus! {

/// Commands that can be issued through the command register.
#[derive(Clone, Copy, Debug, PartialEq, Eq, Hash, Structural)]
pub struct Commands(pub u8);

impl View for Commands {
    type V = u8;

    open spec fn view(&self) -> u8 {
        self.0
    }
}

impl Commands {
    pub const ATI_CH0: u8 = 0x80;

    pub const DISABLE_SENSING: u8 = 0x40;

    pub const ENABLE_SENSING: u8 = 0x20;

    pub const TOGGLE_AC_FILTER: u8 = 0x10;

    pub const _RESERVED1: u8 = 0x08;

    pub const TOGGLE_ULP_MODE: u8 = 0x04;

    pub const _RESERVED2: u8 = 0x02;

    pub const STANDALONE: u8 = 0x01;

    /// The flag set holding exactly the given bits, unknown ones included.
    pub fn from_bits_retain(bits: u8) -> (r: Self)
        ensures
            r@ == bits,
    {
        Commands(bits)
    }

    /// The raw byte.
    pub fn bits(&self) -> (r: u8)
        ensures
            r == self@,
    {
        self.0
    }

    /// Whether every bit of `mask` is set.
    pub fn contains(&self, mask: u8) -> (r: bool)
        ensures
            r == (self@ & mask == mask),
    {
        self.0 & mask == mask
    }

    /// The bitwise union of two flag sets.
    pub fn union(self, other: Self) -> (r: Self)
        ensures
            r@ == self@ | other@,
    {
        Commands(self.0 | other.0)
    }
}

/// Main event flags: the status byte that accompanies every register read.
#[derive(Clone, Copy, Debug, PartialEq, Eq, Hash, Structural)]
pub struct MainEvents(pub u8);

impl View for MainEvents {
    type V = u8;

    open spec fn view(&self) -> u8 {
        self.0
    }
}

impl MainEvents {
    pub const SENSING_DISABLED: u8 = 0x20;

    pub const WARM_BOOT: u8 = 0x10;

    pub const COLD_BOOT: u8 = 0x08;

    pub const RELEASE: u8 = 0x04;

    pub const TOUCH: u8 = 0x02;

    pub const PROX: u8 = 0x01;

    /// The flag set holding exactly the given bits, unknown ones included.
    pub fn from_bits_retain(bits: u8) -> (r: Self)
        ensures
            r@ == bits,
    {
        MainEvents(bits)
    }

    /// The raw byte.
    pub fn bits(&self) -> (r: u8)
        ensures
            r == self@,
    {
        self.0
    }

    /// Whether every bit of `mask` is set.
    pub fn contains(&self, mask: u8) -> (r: bool)
        ensures
            r == (self@ & mask == mask),
    {
        self.0 & mask == mask
    }

    /// The bitwise union of two flag sets.
    pub fn union(self, other: Self) -> (r: Self)
        ensures
            r@ == self@ | other@,
    {
        MainEvents(self.0 | other.0)
    }
}

/// Flags of the debug events register.
#[derive(Clone, Copy, Debug, PartialEq, Eq, Hash, Structural)]
pub struct DebugEvents(pub u8);

impl View for DebugEvents {
    type V = u8;

    open spec fn view(&self) -> u8 {
        self.0
    }
}

impl DebugEvents {
    pub const _RESERVED1: u8 = 0x80;

    pub const ATI_ERROR: u8 = 0x40;

    pub const CH0_ATI: u8 = 0x20;

    pub const _RESERVED2: u8 = 0x10;

    pub const QUICK_RELEASE: u8 = 0x08;

    pub const EXIT_MOV_DETECT: u8 = 0x04;

    pub const ENTER_MOV_DETECT: u8 = 0x02;

    pub const MOVEMENT: u8 = 0x01;

    /// The flag set holding exactly the given bits, unknown ones included.
    pub fn from_bits_retain(bits: u8) -> (r: Self)
        ensures
            r@ == bits,
    {
        DebugEvents(bits)
    }

    /// The raw byte.
    pub fn bits(&self) -> (r: u8)
        ensures
            r == self@,
    {
        self.0
    }

    /// Whether every bit of `mask` is set.
    pub fn contains(&self, mask: u8) -> (r: bool)
        ensures
            r == (self@ & mask == mask),
    {
        self.0 & mask == mask
    }

    /// The bitwise union of two flag sets.
    pub fn union(self, other: Self) -> (r: Self)
        ensures
            r@ == self@ | other@,
    {
        DebugEvents(self.0 | other.0)
    }
}

/// Flags of the system flags register.
#[derive(Clone, Copy, Debug, PartialEq, Eq, Hash, Structural)]
pub struct SystemFlags(pub u8);

impl View for SystemFlags {
    type V = u8;

    open spec fn view(&self) -> u8 {
        self.0
    }
}

impl SystemFlags {
    pub const I2C: u8 = 0x80;

    pub const TEMP: u8 = 0x40;

    pub const CH0_ACTIVE: u8 = 0x20;

    pub const CURRENT_CH: u8 = 0x10;

    pub const NO_SYNC: u8 = 0x08;

    pub const CH0_LTA_HALTED: u8 = 0x04;

    pub const ATI_MODE: u8 = 0x02;

    pub const ZOOM_MODE: u8 = 0x01;

    /// The flag set holding exactly the given bits, unknown ones included.
    pub fn from_bits_retain(bits: u8) -> (r: Self)
        ensures
            r@ == bits,
    {
        SystemFlags(bits)
    }

    /// The raw byte.
    pub fn bits(&self) -> (r: u8)
        ensures
            r == self@,
    {
        self.0
    }

    /// Whether every bit of `mask` is set.
    pub fn contains(&self, mask: u8) -> (r: bool)
        ensures
            r == (self@ & mask == mask),
    {
        self.0 & mask == mask
    }

    /// The bitwise union of two flag sets.
    pub fn union(self, other: Self) -> (r: Self)
        ensures
            r@ == self@ | other@,
    {
        SystemFlags(self.0 | other.0)
    }
}

/// Flags of the user interface flags register.
#[derive(Clone, Copy, Debug, PartialEq, Eq, Hash, Structural)]
pub struct UiFlags(pub u8);

impl View for UiFlags {
    type V = u8;

    open spec fn view(&self) -> u8 {
        self.0
    }
}

impl UiFlags {
    pub const TEMP_CHANNEL_ATI: u8 = 0x80;

    pub const TEMPERATURE_RESEED: u8 = 0x40;

    pub const _RESERVED2: u8 = 0x20;

    pub const UI_AUTO_ATI_OFF: u8 = 0x10;

    pub const UI_SENSING_DISABLD: u8 = 0x08;

    pub const QUICK_RELEASE: u8 = 0x04;

    pub const _RESERVED1: u8 = 0x02;

    pub const OUTPUT_ACTIVE: u8 = 0x01;

    /// The flag set holding exactly the given bits, unknown ones included.
    pub fn from_bits_retain(bits: u8) -> (r: Self)
        ensures
            r@ == bits,
    {
        UiFlags(bits)
    }

    /// The raw byte.
    pub fn bits(&self) -> (r: u8)
        ensures
            r == self@,
    {
        self.0
    }

    /// Whether every bit of `mask` is set.
    pub fn contains(&self, mask: u8) -> (r: bool)
        ensures
            r == (self@ & mask == mask),
    {
        self.0 & mask == mask
    }

    /// The bitwise union of two flag sets.
    pub fn union(self, other: Self) -> (r: Self)
        ensures
            r@ == self@ | other@,
    {
        UiFlags(self.0 | other.0)
    }
}

/// Flags of the detailed event flags register.
#[derive(Clone, Copy, Debug, PartialEq, Eq, Hash, Structural)]
pub struct EventFlags(pub u8);

impl View for EventFlags {
    type V = u8;

    open spec fn view(&self) -> u8 {
        self.0
    }
}

impl EventFlags {
    pub const CH1_ATI_ERROR: u8 = 0x80;

    pub const _RESERVED2: u8 = 0x40;

    pub const _RESERVED1: u8 = 0x20;

    pub const CH1_MOVEMENT: u8 = 0x10;

    pub const CH0_ATI_ERROR: u8 = 0x08;

    pub const CH0_UNDEBOUNCED: u8 = 0x04;

    pub const CH0_TOUCH: u8 = 0x02;

    pub const CH0_PROX: u8 = 0x01;

    /// The flag set holding exactly the given bits, unknown ones included.
    pub fn from_bits_retain(bits: u8) -> (r: Self)
        ensures
            r@ == bits,
    {
        EventFlags(bits)
    }

    /// The raw byte.
    pub fn bits(&self) -> (r: u8)
        ensures
            r == self@,
    {
        self.0
    }

    /// Whether every bit of `mask` is set.
    pub fn contains(&self, mask: u8) -> (r: bool)
        ensures
            r == (self@ & mask == mask),
    {
        self.0 & mask == mask
    }

    /// The bitwise union of two flag sets.
    pub fn union(self, other: Self) -> (r: Self)
        ensures
            r@ == self@ | other@,
    {
        EventFlags(self.0 | other.0)
    }
}

} // verus!
