use iqs231::registers::{
    ChannelMultiplier, Commands, MainEvents, OtpBank1, OtpBank2, OtpBank3, ProximityThreshold,
    QuickRelease, QuickReleaseThreshold, RegValue, Register, SampleRate, SoftwareVersion,
};
use iqs231::{Error, I2cAddress, I2cBus, Iqs231};

/// A bus that answers register reads from a queue and records every
/// transaction.
#[derive(Debug, Default)]
struct StubBus {
    answers: Vec<Vec<u8>>,
    requests: Vec<(u8, Vec<u8>)>,
    writes: Vec<(u8, Vec<u8>)>,
    plain_reads: Vec<u8>,
    fail: bool,
}

impl StubBus {
    fn answering(answers: &[&[u8]]) -> StubBus {
        StubBus { answers: answers.iter().map(|a| a.to_vec()).collect(), ..StubBus::default() }
    }

    fn next_answer(&mut self, buffer: &mut [u8]) {
        let answer = self.answers.remove(0);
        buffer.copy_from_slice(&answer);
    }
}

impl I2cBus for StubBus {
    type Error = &'static str;

    fn read(&mut self, address: u8, buffer: &mut [u8]) -> Result<(), Self::Error> {
        self.plain_reads.push(address);
        if self.fail {
            return Err("nack");
        }
        self.next_answer(buffer);
        Ok(())
    }

    fn write(&mut self, address: u8, bytes: &[u8]) -> Result<(), Self::Error> {
        self.writes.push((address, bytes.to_vec()));
        if self.fail {
            return Err("nack");
        }
        Ok(())
    }

    fn write_read(&mut self, address: u8, bytes: &[u8], buffer: &mut [u8]) -> Result<(), Self::Error> {
        self.requests.push((address, bytes.to_vec()));
        if self.fail {
            return Err("nack");
        }
        self.next_answer(buffer);
        Ok(())
    }
}

fn failing_bus() -> StubBus {
    StubBus { fail: true, ..StubBus::default() }
}

#[test]
fn product_number_is_read_and_checked() {
    let mut dev = Iqs231::new(StubBus::answering(&[&[0x01, 0x40], &[0x01, 0x40]]));
    let rv = dev.read_reg(Register::ProductNumber).unwrap();
    assert_eq!(rv, RegValue { value: 0x40, main_events: MainEvents::from_bits_retain(MainEvents::PROX) });
    assert_eq!(dev.get_prod_nr().unwrap(), 0x40);
    let bus = dev.destroy();
    assert_eq!(bus.requests, vec![(0x44, vec![0x00]), (0x44, vec![0x00])]);
    assert!(bus.writes.is_empty());
}

#[test]
fn wrong_product_number_is_reported() {
    let mut dev = Iqs231::new(StubBus::answering(&[&[0x00, 0x41]]));
    assert!(matches!(dev.get_prod_nr(), Err(Error::IncorrectProductNumber(0x41))));
}

#[test]
fn sixteen_bit_read_joins_two_registers() {
    let mut dev = Iqs231::new(StubBus::answering(&[&[0x02, 0x03], &[0x04, 0x05]]));
    let rv = dev.get_move_lower_reference_count().unwrap();
    assert_eq!(rv.value, 0x0305);
    assert_eq!(
        rv.main_events,
        MainEvents::from_bits_retain(0x02).union(MainEvents::from_bits_retain(0x04))
    );
    let bus = dev.destroy();
    assert_eq!(bus.requests, vec![(0x44, vec![0x1F]), (0x44, vec![0x20])]);
}

#[test]
fn sixteen_bit_read_past_the_last_register_is_refused() {
    let mut dev = Iqs231::new(StubBus::default());
    assert!(matches!(dev.read_reg16(Register::TimerRedoAti), Err(Error::InvalidRegister)));
    let bus = dev.destroy();
    assert!(bus.requests.is_empty());
}

#[test]
fn count_accessors_read_their_registers() {
    let answers: Vec<&[u8]> = vec![&[0, 0]; 18];
    let mut dev = Iqs231::new(StubBus::answering(&answers));
    dev.get_prox_filtered_count().unwrap();
    dev.get_prox_reference_count().unwrap();
    dev.get_prox_quick_release_detect_reference().unwrap();
    dev.get_move_filtered_count().unwrap();
    dev.get_move_upper_reference_count().unwrap();
    dev.get_move_lower_reference_count().unwrap();
    dev.get_move_unfiltered_count().unwrap();
    dev.get_temp_reference().unwrap();
    dev.get_lta_halt_timer().unwrap();
    let bus = dev.destroy();
    let registers: Vec<u8> = bus.requests.iter().map(|(_, w)| w[0]).collect();
    assert_eq!(
        registers,
        vec![
            0x15, 0x16, 0x17, 0x18, 0x19, 0x1A, 0x1B, 0x1C, 0x1D, 0x1E, 0x1F, 0x20, 0x21, 0x22,
            0x23, 0x24, 0x25, 0x26
        ]
    );
}

#[test]
fn flag_accessors_read_their_registers() {
    let mut dev = Iqs231::new(StubBus::answering(&[&[0, 0x80], &[0, 0x81], &[0, 0x82], &[0, 0x83]]));
    assert_eq!(dev.get_debug_events().unwrap().bits(), 0x80);
    assert_eq!(dev.get_system_flags().unwrap().bits(), 0x81);
    assert_eq!(dev.get_ui_flags().unwrap().bits(), 0x82);
    assert_eq!(dev.get_event_flags().unwrap().bits(), 0x83);
    let bus = dev.destroy();
    let registers: Vec<u8> = bus.requests.iter().map(|(_, w)| w[0]).collect();
    // The debug events come from their own register, not from the product number.
    assert_eq!(registers, vec![0x02, 0x11, 0x12, 0x14]);
}

#[test]
fn software_version_reads_its_register() {
    let mut dev = Iqs231::new(StubBus::answering(&[&[0, 0x07], &[0, 0x40]]));
    assert_eq!(dev.get_software_version().unwrap(), SoftwareVersion::IQS231B);
    assert!(matches!(dev.get_software_version(), Err(Error::UnknownSoftwareVersion(0x40))));
    let bus = dev.destroy();
    assert_eq!(bus.requests[0], (0x44, vec![0x01]));
}

#[test]
fn timers_and_compensation_read_one_register() {
    let mut dev = Iqs231::new(StubBus::answering(&[&[0, 1], &[0, 2], &[0, 3], &[0, 4], &[0, 5]]));
    assert_eq!(dev.get_filter_halt_timer().unwrap().value, 1);
    assert_eq!(dev.get_timer_read_input().unwrap().value, 2);
    assert_eq!(dev.get_timer_redo_ati().unwrap().value, 3);
    assert_eq!(dev.get_ch0_compensation().unwrap().value, 4);
    assert_eq!(dev.get_ch1_compensation().unwrap().value, 5);
    let bus = dev.destroy();
    let registers: Vec<u8> = bus.requests.iter().map(|(_, w)| w[0]).collect();
    assert_eq!(registers, vec![0x27, 0x28, 0x29, 0x0E, 0x10]);
}

#[test]
fn composite_getters_decode_the_byte() {
    let mut dev = Iqs231::new(StubBus::answering(&[
        &[0x01, 0x82],
        &[0x00, 0xb4],
        &[0x00, 0x29],
        &[0x00, 0x0b],
        &[0x00, 0x02],
        &[0x00, 0x0e],
        &[0x00, 0xc1],
        &[0x00, 0x12],
        &[0x00, 0x33],
    ]));
    let rv = dev.get_otp_bank3().unwrap();
    assert_eq!(rv.main_events.bits(), 0x01);
    assert_eq!(rv.value.sample_rate(), SampleRate::_8Hz);
    let qr = dev.get_quick_release().unwrap().value;
    assert_eq!(qr.threshold(), QuickReleaseThreshold::Qrt400);
    assert_eq!(qr.base(), 4);
    assert_eq!(dev.get_ch0_multipliers().unwrap().value.sensitivity_multiplier(), 2);
    assert_eq!(dev.get_touch_threshold().unwrap().value, 48);
    assert_eq!(dev.get_proximity_threshold().unwrap().value, ProximityThreshold::Counts8);
    assert_eq!(dev.get_ch1_multipliers().unwrap().value.compensation_multiplier(), 0xe);
    assert_eq!(dev.get_otp_bank1().unwrap().value.i2c_addr(), 3);
    assert_eq!(dev.get_otp_bank_2().unwrap().value.into_bytes(), [0x12]);
    assert_eq!(dev.get_otp_bank_1().unwrap().value.touch_thresh(), 3);
}

#[test]
fn setters_write_once_each() {
    let mut dev = Iqs231::new(StubBus::default());
    dev.set_otp_bank1(OtpBank1::from_bytes([0x11])).unwrap();
    dev.set_otp_bank2(OtpBank2::from_bytes([0x22])).unwrap();
    dev.set_otp_bank3(OtpBank3::from_bytes([0x33])).unwrap();
    dev.set_quick_release(QuickRelease::from_bytes([0x44])).unwrap();
    dev.set_touch_threshold(100).unwrap();
    dev.set_proximity_threshold(ProximityThreshold::Counts10).unwrap();
    dev.set_temp_interference_threshold(3).unwrap();
    dev.set_ch0_multipliers(ChannelMultiplier::from_bytes([0x55])).unwrap();
    dev.set_ch0_compensation(0x66).unwrap();
    dev.set_ch1_multipliers(ChannelMultiplier::from_bytes([0x77])).unwrap();
    dev.set_ch1_compensation(0x88).unwrap();
    let bus = dev.destroy();
    assert_eq!(
        bus.writes,
        vec![
            (0x44, vec![0x05, 0x11]),
            (0x44, vec![0x06, 0x22]),
            (0x44, vec![0x07, 0x33]),
            (0x44, vec![0x08, 0x44]),
            (0x44, vec![0x0A, 24]),
            (0x44, vec![0x0B, 3]),
            (0x44, vec![0x0C, 3]),
            (0x44, vec![0x0D, 0x55]),
            (0x44, vec![0x0E, 0x66]),
            (0x44, vec![0x0F, 0x77]),
            (0x44, vec![0x10, 0x88]),
        ]
    );
    assert!(bus.requests.is_empty());
}

#[test]
fn read_only_registers_are_not_written() {
    let mut dev = Iqs231::new(StubBus::default());
    for reg in [
        Register::ProductNumber,
        Register::SoftwareVersion,
        Register::DebugEvents,
        Register::System_Flags,
        Register::UI_Flags,
        Register::ATI_Flags,
        Register::EventFlags,
        Register::CH0_ACF_H,
        Register::TimerRedoAti,
    ] {
        assert!(matches!(dev.write_reg(reg, 0x12), Err(Error::RegisterNotWritable)));
    }
    let bus = dev.destroy();
    assert!(bus.writes.is_empty());
}

#[test]
fn touch_threshold_out_of_range_is_not_written() {
    let mut dev = Iqs231::new(StubBus::default());
    assert!(matches!(dev.set_touch_threshold(3), Err(Error::TouchThresholdOutOfRange)));
    assert!(matches!(dev.set_touch_threshold(1025), Err(Error::TouchThresholdOutOfRange)));
    dev.set_touch_threshold(1024).unwrap();
    dev.set_touch_threshold(4).unwrap();
    let bus = dev.destroy();
    assert_eq!(bus.writes, vec![(0x44, vec![0x0A, 255]), (0x44, vec![0x0A, 0])]);
}

#[test]
fn standalone_command_is_refused() {
    let mut dev = Iqs231::new(StubBus::default());
    let standalone = Commands::from_bits_retain(Commands::STANDALONE);
    assert!(matches!(dev.send_commands(standalone), Err(Error::ShutdownCommandNotAllowed)));
    let all = Commands::from_bits_retain(0xff);
    assert!(matches!(dev.send_commands(all), Err(Error::ShutdownCommandNotAllowed)));
    dev.send_commands(Commands::from_bits_retain(Commands::ATI_CH0 | Commands::ENABLE_SENSING))
        .unwrap();
    let bus = dev.destroy();
    assert_eq!(bus.writes, vec![(0x44, vec![0x04, 0xA0])]);
}

#[test]
fn raw_write_of_standalone_command_is_refused() {
    let mut dev = Iqs231::new(StubBus::default());
    assert!(matches!(
        dev.write_reg(Register::Commands, Commands::STANDALONE),
        Err(Error::ShutdownCommandNotAllowed)
    ));
    assert!(matches!(
        dev.write_reg(Register::Commands, 0x81),
        Err(Error::ShutdownCommandNotAllowed)
    ));
    dev.write_reg(Register::Commands, Commands::ATI_CH0).unwrap();
    dev.write_reg(Register::Movement, 0x01).unwrap();
    let bus = dev.destroy();
    assert_eq!(bus.writes, vec![(0x44, vec![0x04, 0x80]), (0x44, vec![0x09, 0x01])]);
}

#[test]
fn sixteen_bit_read_stops_at_the_first_bus_error() {
    let mut dev = Iqs231::new(failing_bus());
    assert!(matches!(dev.get_temp_reference(), Err(Error::IoError("nack"))));
    let bus = dev.destroy();
    assert_eq!(bus.requests, vec![(0x44, vec![0x23])]);
}

#[test]
fn into_standalone_writes_the_command_and_returns_the_bus() {
    let dev = Iqs231::new(StubBus::default()).with_address(I2cAddress::Alt2);
    let bus = dev.into_standalone().0.unwrap();
    assert_eq!(bus.writes, vec![(0x47, vec![0x04, 0x01])]);
}

#[test]
fn address_is_used_for_every_transaction() {
    let mut dev = Iqs231::new(StubBus::answering(&[&[0x05]])).with_address(I2cAddress::Test);
    let ev = dev.read_main_events().unwrap();
    assert_eq!(ev.bits(), 0x05);
    assert!(ev.contains(MainEvents::PROX | MainEvents::RELEASE));
    dev.set_ch0_compensation(1).unwrap();
    let bus = dev.destroy();
    assert_eq!(bus.plain_reads, vec![0x45]);
    assert_eq!(bus.writes, vec![(0x45, vec![0x0E, 1])]);
    assert_eq!(I2cAddress::default(), I2cAddress::Default);
    assert_eq!(I2cAddress::Alt1.value(), 0x46);
}

#[test]
fn bus_errors_are_passed_on() {
    let mut dev = Iqs231::new(failing_bus());
    assert!(matches!(dev.get_prod_nr(), Err(Error::IoError("nack"))));
    assert!(matches!(dev.read_main_events(), Err(Error::IoError("nack"))));
    assert!(matches!(dev.get_prox_filtered_count(), Err(Error::IoError("nack"))));
    assert!(matches!(dev.set_ch1_compensation(1), Err(Error::IoError("nack"))));
    let dev = Iqs231::new(failing_bus());
    assert!(matches!(dev.into_standalone().0, Err(Error::IoError("nack"))));
    let bus = StubBus { fail: true, ..StubBus::default() };
    let mut dev = Iqs231::new(bus);
    assert!(matches!(dev.set_otp_bank1(OtpBank1::new()), Err(Error::IoError("nack"))));
    assert!(matches!(dev.send_commands(Commands::from_bits_retain(0x80)), Err(Error::IoError("nack"))));
    let bus = dev.destroy();
    assert_eq!(bus.writes.len(), 2);
}
