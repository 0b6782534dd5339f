use iqs231::registers::{
    check_product_number, touch_threshold_code, touch_threshold_from_code, BaseValue,
    ChannelMultiplier, ChargeTransferFrequency, Commands, DebugEvents, Io2Function, MainEvents,
    OtpBank1, OtpBank2, OtpBank3, ProximityThreshold, QuickRelease, QuickReleaseThreshold,
    RegValue, Register, SampleRate, SoftwareVersion, UiSelect, PRODUCT_NUMBER,
};
use iqs231::Error;

#[test]
fn otpbank3_bitfield_does_its_thing() {
    let otp = OtpBank3::new()
        .with_charge_transfer_freq(ChargeTransferFrequency::_64kHz)
        .with_sample_rate(SampleRate::_8Hz);

    assert_eq!(otp.into_bytes()[0], 0x82);

    let otp = OtpBank3::new()
        .with_charge_transfer_freq(ChargeTransferFrequency::_125kHz)
        .with_sample_rate(SampleRate::_30Hz)
        .with_ati_events_on_io1(1)
        .with_temp_n_interference_compensation(true);

    assert_eq!(otp.into_bytes()[0], 0x64)
}

#[test]
fn quickrelease_bitfield_does_its_thing() {
    let qr = QuickRelease::from_bytes([0xb4]);
    assert_eq!(qr.base(), 4);
    assert_eq!(qr.threshold(), QuickReleaseThreshold::Qrt400);
    assert_eq!(qr.threshold().counts(), 400);

    let qrr = QuickRelease::new()
        .with_base(5)
        .with_threshold(QuickReleaseThreshold::Qrt200);
    assert_eq!(qrr.bytes, [0x95]);

    let qr2 = QuickRelease::from_bytes([0x4a]);
    assert_eq!(qr2.base(), 0xa);
    assert_eq!(qr2.threshold(), QuickReleaseThreshold::Qrt10);
    assert_eq!(qr2.threshold().counts(), 10);
}

#[test]
fn otp_bank1_fields_round_trip() {
    let bank = OtpBank1::new()
        .with_touch_thresh(2)
        .with_ac_filter(1)
        .with_prox_thresh(ProximityThreshold::Counts10)
        .with_i2c_addr(3);
    assert_eq!(bank.into_bytes(), [0b11_11_01_10]);
    let back = OtpBank1::from_bytes(bank.into_bytes());
    assert_eq!(back.touch_thresh(), 2);
    assert_eq!(back.ac_filter(), 1);
    assert_eq!(back.prox_thresh(), ProximityThreshold::Counts10);
    assert_eq!(back.i2c_addr(), 3);
}

#[test]
fn otp_bank1_setter_keeps_other_fields() {
    let bank = OtpBank1::from_bytes([0xff]).with_ac_filter(0);
    assert_eq!(bank.into_bytes(), [0xf3]);
    assert_eq!(bank.touch_thresh(), 3);
    assert_eq!(bank.prox_thresh(), ProximityThreshold::Counts10);
    assert_eq!(bank.i2c_addr(), 3);
}

#[test]
fn otp_bank2_fields_round_trip() {
    let bank = OtpBank2::new()
        .with_ui_select(UiSelect::ProxWithMovTouchNoMov)
        .with_quick_release(1)
        .with_failsafe_pulses_on_io1(true)
        .with_base_value(BaseValue::Counts75)
        .with_target(0)
        .with_increase_debounce(true);
    assert_eq!(bank.into_bytes(), [0b1_0_01_1_1_10]);
    let back = OtpBank2::from_bytes(bank.into_bytes());
    assert_eq!(back.ui_select(), UiSelect::ProxWithMovTouchNoMov);
    assert_eq!(back.quick_release(), 1);
    assert!(back.failsafe_pulses_on_io1());
    assert_eq!(back.base_value(), BaseValue::Counts75);
    assert_eq!(back.target(), 0);
    assert!(back.increase_debounce());
    let cleared = back.with_failsafe_pulses_on_io1(false).with_increase_debounce(false);
    assert_eq!(cleared.into_bytes(), [0b0_0_01_0_1_10]);
}

#[test]
fn otp_bank3_fields_round_trip() {
    let bank = OtpBank3::from_bytes([0xff]);
    assert_eq!(bank.sample_rate(), SampleRate::_4Hz);
    assert_eq!(bank.ati_events_on_io1(), 1);
    assert_eq!(bank.io2_function(), Io2Function::Ignore);
    assert!(bank.temp_n_interference_compensation());
    assert_eq!(bank.charge_transfer_freq(), ChargeTransferFrequency::_16kHz);
    let bank = bank.with_io2_function(Io2Function::Synchronize);
    assert_eq!(bank.into_bytes(), [0xef]);
    assert_eq!(bank.io2_function(), Io2Function::Synchronize);
}

#[test]
fn channel_multiplier_keeps_reserved_bits() {
    let mult = ChannelMultiplier::from_bytes([0xc0])
        .with_compensation_multiplier(0x9)
        .with_sensitivity_multiplier(2);
    assert_eq!(mult.into_bytes(), [0xe9]);
    assert_eq!(mult.compensation_multiplier(), 9);
    assert_eq!(mult.sensitivity_multiplier(), 2);
    assert_eq!(ChannelMultiplier::new().into_bytes(), [0]);
}

#[test]
fn quick_release_threshold_table() {
    let table: [(u8, u16); 16] = [
        (0x0, 100),
        (0x1, 150),
        (0x2, 50),
        (0x3, 250),
        (0x4, 10),
        (0x5, 20),
        (0x6, 25),
        (0x7, 30),
        (0x8, 75),
        (0x9, 200),
        (0xA, 300),
        (0xB, 400),
        (0xC, 500),
        (0xD, 750),
        (0xE, 850),
        (0xF, 1000),
    ];
    for (code, counts) in table {
        let t = QuickReleaseThreshold::from_code(code);
        assert_eq!(t.code(), code);
        assert_eq!(t.counts(), counts);
        assert_eq!(QuickReleaseThreshold::from_counts(counts), Some(t));
    }
    assert_eq!(QuickReleaseThreshold::from_counts(40), None);
    assert_eq!(QuickReleaseThreshold::from_code(0x4).counts(), 10);
    assert_eq!(QuickReleaseThreshold::from_code(0xF).counts(), 1000);
}

#[test]
fn touch_threshold_encoding() {
    assert_eq!(touch_threshold_code::<()>(4).unwrap(), 0);
    assert_eq!(touch_threshold_code::<()>(7).unwrap(), 0);
    assert_eq!(touch_threshold_code::<()>(8).unwrap(), 1);
    assert_eq!(touch_threshold_code::<()>(1024).unwrap(), 255);
    assert!(matches!(touch_threshold_code::<()>(3), Err(Error::TouchThresholdOutOfRange)));
    assert!(matches!(touch_threshold_code::<()>(0), Err(Error::TouchThresholdOutOfRange)));
    assert!(matches!(touch_threshold_code::<()>(1025), Err(Error::TouchThresholdOutOfRange)));
    assert_eq!(touch_threshold_from_code(0), 4);
    assert_eq!(touch_threshold_from_code(7), 32);
    assert_eq!(touch_threshold_from_code(255), 1024);
}

#[test]
fn touch_threshold_round_trip_loses_less_than_four() {
    for v in 4u16..=1024 {
        let back = touch_threshold_from_code(touch_threshold_code::<()>(v).unwrap());
        assert!(back <= v);
        assert!(v - back < 4);
    }
    assert_eq!(touch_threshold_from_code(touch_threshold_code::<()>(1023).unwrap()), 1020);
}

#[test]
fn register_successor() {
    assert_eq!(Register::CH1_LMOV_H.next::<()>().unwrap(), Register::CH1_LMOV_L);
    assert_eq!(Register::CH0_ACF_H.next::<()>().unwrap(), Register::CH0_ACF_L);
    assert!(matches!(Register::TimerRedoAti.next::<()>(), Err(Error::InvalidRegister)));
}

#[test]
fn register_addresses() {
    assert_eq!(Register::ProductNumber.address(), 0x00);
    assert_eq!(Register::TouchThreshold.address(), 0x0A);
    assert_eq!(Register::CH1_LMOV_H.address(), 0x1F);
    assert_eq!(u8::from(Register::TimerRedoAti), 0x29);
    for a in 0u8..=0x29 {
        assert_eq!(Register::from_u8::<()>(a).unwrap().address(), a);
    }
    assert!(matches!(Register::from_u8::<()>(0x2A), Err(Error::InvalidRegister)));
    assert!(matches!(Register::from_u8::<()>(0xFF), Err(Error::InvalidRegister)));
}

#[test]
fn register_writability() {
    assert!(!Register::ProductNumber.is_writable());
    assert!(!Register::SoftwareVersion.is_writable());
    assert!(!Register::DebugEvents.is_writable());
    assert!(!Register::System_Flags.is_writable());
    assert!(!Register::EventFlags.is_writable());
    assert!(!Register::CH0_ACF_H.is_writable());
    assert!(Register::Commands.is_writable());
    assert!(Register::OtpBank1.is_writable());
    assert!(Register::QuickRelease.is_writable());
    assert!(Register::CH1_Compensation.is_writable());
    let writable = (0u8..=0x29)
        .filter(|a| Register::from_u8::<()>(*a).unwrap().is_writable())
        .count();
    assert_eq!(writable, 14);
}

#[test]
fn reading_from_two_bytes() {
    let rv = RegValue::from([0x01, 0x40]);
    assert_eq!(rv.value, 0x40);
    assert_eq!(rv.main_events, MainEvents::from_bits_retain(MainEvents::PROX));
    assert_eq!(*rv, 0x40);
    assert_eq!(u8::from(rv), 0x40);
    assert_eq!(MainEvents::from(rv).bits(), 0x01);
    let (events, value) = rv.split();
    assert_eq!(events.bits(), 0x01);
    assert_eq!(value, 0x40);
    let p: ProximityThreshold = RegValue::from([0x00, 0x06]).into();
    assert_eq!(p, ProximityThreshold::Counts8);
}

#[test]
fn reading_map_keeps_events() {
    let rv = RegValue::from([0x22, 0x07]).map(|v| v as u16 * 10);
    assert_eq!(rv.value, 70);
    assert_eq!(rv.main_events.bits(), 0x22);
}

#[test]
fn joined_reading() {
    let hi = RegValue::from([0x02, 0x03]);
    let lo = RegValue::from([0x04, 0x05]);
    let rv = RegValue::join(hi, lo);
    assert_eq!(rv.value, 0x0305);
    assert_eq!(
        rv.main_events,
        MainEvents::from_bits_retain(0x02).union(MainEvents::from_bits_retain(0x04))
    );
    assert_eq!(rv.main_events.bits(), 0x06);
}

#[test]
fn flags_keep_unknown_bits() {
    let ev = MainEvents::from_bits_retain(0xC1);
    assert_eq!(ev.bits(), 0xC1);
    assert!(ev.contains(MainEvents::PROX));
    assert!(!ev.contains(MainEvents::TOUCH));
    let dbg = DebugEvents::from_bits_retain(DebugEvents::ATI_ERROR | DebugEvents::MOVEMENT);
    assert!(dbg.contains(DebugEvents::ATI_ERROR | DebugEvents::MOVEMENT));
    assert!(!dbg.contains(DebugEvents::ATI_ERROR | DebugEvents::CH0_ATI));
    let cmds = Commands::from_bits_retain(Commands::ATI_CH0).union(Commands::from_bits_retain(Commands::STANDALONE));
    assert_eq!(cmds.bits(), 0x81);
    assert!(cmds.contains(Commands::STANDALONE));
}

#[test]
fn product_number_check() {
    assert_eq!(check_product_number::<()>(PRODUCT_NUMBER).unwrap(), 0x40);
    assert!(matches!(check_product_number::<()>(0x41), Err(Error::IncorrectProductNumber(0x41))));
}

#[test]
fn software_versions() {
    assert_eq!(SoftwareVersion::from_u8::<()>(0x06).unwrap(), SoftwareVersion::IQS231A);
    assert_eq!(SoftwareVersion::from_u8::<()>(0x07).unwrap(), SoftwareVersion::IQS231B);
    assert!(matches!(SoftwareVersion::from_u8::<()>(0x08), Err(Error::UnknownSoftwareVersion(0x08))));
}

#[test]
fn proximity_threshold_conversions() {
    assert_eq!(ProximityThreshold::from(0x05), ProximityThreshold::Counts6);
    assert_eq!(ProximityThreshold::from(0x03), ProximityThreshold::Counts10);
    assert_eq!(u8::from(ProximityThreshold::Counts8), 2);
    assert_eq!(ProximityThreshold::from_code(0), ProximityThreshold::Counts4);
}

#[test]
fn error_can_be_dropped() {
    let r: Result<u8, ()> = check_product_number::<()>(0x00).map_err(|e| e.into());
    assert_eq!(r, Err(()));
}
