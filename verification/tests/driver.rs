//! Tests of the driver's operations against the simulated bus.

use ldc3114::{
    Channel0, Channel1, Channel2, Channel3, ChannelMode, Error, InterruptPolarity, Ldc3114,
    LowPowerScanRate, Register, ScanRate, SensorConfig, SimBus, SimBusError,
};

fn fresh() -> Ldc3114<SimBus> {
    Ldc3114::new(SimBus::new())
}

/// Writing any read-only register is refused for every value, with no
/// bus transaction.
#[test]
fn write_to_read_only_is_refused_without_bus_traffic() {
    let mut d = fresh();
    let read_only = [
        Register::Status,
        Register::Out,
        Register::Data0Lsb,
        Register::Data3Msb,
        Register::RawData0_3,
        Register::RawData3_1,
        Register::ManufacturerIdLsb,
        Register::DeviceIdMsb,
    ];
    for reg in read_only {
        for value in 0..=255u8 {
            assert!(matches!(
                d.write_register(reg, value),
                Err(Error::WriteToReadOnly)
            ));
        }
    }
    assert_eq!(d.bus().transaction_count(), 0);
}

#[test]
fn write_register_writes_the_byte() {
    let mut d = fresh();
    assert!(d.write_register(Register::Hyst, 0x0B).is_ok());
    assert_eq!(d.bus().register_value(0x18), 0x0B);
    assert_eq!(d.bus().transaction_count(), 1);
}

#[test]
fn read_register_returns_register_byte() {
    let mut bus = SimBus::new();
    bus.set_register_value(0x18, 0x5A);
    let mut d = Ldc3114::new(bus);
    assert_eq!(d.read_register(Register::Hyst).unwrap(), 0x5A);
    assert_eq!(d.bus().transaction_count(), 1);
}

#[test]
fn modify_register_applies_transform() {
    let mut bus = SimBus::new();
    bus.set_register_value(0x18, 0x0F);
    let mut d = Ldc3114::new(bus);
    assert!(d.modify_register(Register::Hyst, |b| b.wrapping_add(1)).is_ok());
    assert_eq!(d.bus().register_value(0x18), 0x10);
    // one read and one write
    assert_eq!(d.bus().transaction_count(), 2);
}

#[test]
fn modify_read_only_register_is_refused() {
    let mut d = fresh();
    assert!(matches!(
        d.modify_register(Register::Status, |b| b),
        Err(Error::WriteToReadOnly)
    ));
    // the read happened, the write did not
    assert_eq!(d.bus().transaction_count(), 1);
}

/// Setting then clearing the same bits leaves the register equal to
/// its pre-set value with those bits forced low, whatever the other
/// bits held.
#[test]
fn set_then_clear_restores_other_bits() {
    let mut bus = SimBus::new();
    bus.set_register_value(0x18, 0b1100_0011);
    let mut d = Ldc3114::new(bus);
    let mask = 0b0100_0001;
    assert!(d.set_register_bits(Register::Hyst, mask).is_ok());
    assert_eq!(d.bus().register_value(0x18), 0b1100_0011);
    assert!(d.clear_register_bits(Register::Hyst, mask).is_ok());
    assert_eq!(d.bus().register_value(0x18), 0b1000_0010);
    assert_eq!(d.bus().register_value(0x18), 0b1100_0011 & !mask);
}

/// A gain inside the domain is written exactly as given, to the
/// channel's own gain register.
#[test]
fn set_channel_gain_writes_gain() {
    let mut d = fresh();
    assert!(d.set_channel_gain(Channel0, 0x28).is_ok());
    assert!(d.set_channel_gain(Channel1, 0).is_ok());
    assert!(d.set_channel_gain(Channel2, 63).is_ok());
    assert!(d.set_channel_gain(Channel3, 1).is_ok());
    assert_eq!(d.bus().register_value(0x0E), 0x28);
    assert_eq!(d.bus().register_value(0x10), 0);
    assert_eq!(d.bus().register_value(0x12), 63);
    assert_eq!(d.bus().register_value(0x14), 1);
    assert_eq!(d.bus().transaction_count(), 4);
}

#[test]
fn set_channel_gain_out_of_domain_is_refused() {
    let mut d = fresh();
    assert!(matches!(
        d.set_channel_gain(Channel0, 64),
        Err(Error::InvalidParameter)
    ));
    assert!(matches!(
        d.set_channel_gain(Channel3, 255),
        Err(Error::InvalidParameter)
    ));
    assert_eq!(d.bus().transaction_count(), 0);
}

/// Every domain-restricted setter refuses an out-of-domain value
/// before touching the bus.
#[test]
fn invalid_parameters_are_refused_without_bus_traffic() {
    let mut d = fresh();
    let sensor = SensorConfig {
        cycle_count: 32,
        ..SensorConfig::const_default()
    };
    assert!(matches!(
        d.set_sensor_config(Channel1, sensor),
        Err(Error::InvalidParameter)
    ));
    assert!(matches!(
        d.set_baseline_tracking_increment_np(8),
        Err(Error::InvalidParameter)
    ));
    assert!(matches!(
        d.set_baseline_tracking_increment_lp(8),
        Err(Error::InvalidParameter)
    ));
    assert!(matches!(d.set_lc_divider(8), Err(Error::InvalidParameter)));
    assert!(matches!(d.set_hysteresis(16), Err(Error::InvalidParameter)));
    assert!(matches!(d.set_antitwist(8), Err(Error::InvalidParameter)));
    assert_eq!(d.bus().transaction_count(), 0);
}

#[test]
fn transport_errors_propagate() {
    let mut bus = SimBus::new();
    bus.set_fail(true);
    let mut d = Ldc3114::new(bus);
    assert!(matches!(
        d.read_register(Register::Status),
        Err(Error::I2c(SimBusError))
    ));
    assert!(matches!(
        d.write_register(Register::Hyst, 1),
        Err(Error::I2c(SimBusError))
    ));
    assert!(matches!(
        d.set_channel_gain(Channel0, 1),
        Err(Error::I2c(SimBusError))
    ));
    assert!(matches!(d.normal_mode(), Err(Error::I2c(SimBusError))));
    assert!(matches!(d.read_status(), Err(Error::I2c(SimBusError))));
}

#[test]
fn read_status_decodes_flags() {
    let mut bus = SimBus::new();
    bus.set_register_value(0x00, 0b1010_0101);
    let mut d = Ldc3114::new(bus);
    let status = d.read_status().unwrap();
    assert!(status.output_status);
    assert!(!status.chip_ready);
    assert!(status.ready_to_write);
    assert!(!status.maximum_output_code);
    assert!(!status.fsm_watchdog_error);
    assert!(status.lc_sensor_watchdog_error);
    assert!(!status.button_timeout);
    assert!(status.register_integrity_bad);
}

#[test]
fn read_output_logic_states_decodes_bits() {
    let mut bus = SimBus::new();
    bus.set_register_value(0x01, 0b0001_0110);
    let mut d = Ldc3114::new(bus);
    let states = d.read_output_logic_states().unwrap();
    assert!(states.new_data_available);
    assert!(!states.out0);
    assert!(states.out1);
    assert!(states.out2);
    assert!(!states.out3);
}

#[test]
fn read_button_data_is_little_endian_signed() {
    let mut bus = SimBus::new();
    bus.set_register_value(0x04, 0x34);
    bus.set_register_value(0x05, 0x12);
    bus.set_register_value(0x02, 0xFF);
    bus.set_register_value(0x03, 0xFF);
    bus.set_register_value(0x08, 0x00);
    bus.set_register_value(0x09, 0x80);
    let mut d = Ldc3114::new(bus);
    assert_eq!(d.read_button_data(Channel1).unwrap(), 0x1234);
    assert_eq!(d.read_button_data(Channel0).unwrap(), -1);
    assert_eq!(d.read_button_data(Channel3).unwrap(), -32768);
}

#[test]
fn read_manufacturer_and_device_id() {
    let mut bus = SimBus::new();
    bus.set_register_value(0xFC, 0x49);
    bus.set_register_value(0xFD, 0x54);
    bus.set_register_value(0xFE, 0x00);
    bus.set_register_value(0xFF, 0x40);
    let mut d = Ldc3114::new(bus);
    assert_eq!(d.read_manufacturer_id().unwrap(), 0x5449);
    assert_eq!(d.read_device_id().unwrap(), 0x4000);
}

#[test]
fn is_chip_ready_reads_status_bit() {
    let mut bus = SimBus::new();
    bus.set_register_value(0x00, 0x40);
    let mut d = Ldc3114::new(bus);
    assert!(d.is_chip_ready().unwrap());
    let mut bus = SimBus::new();
    bus.set_register_value(0x00, 0xBF);
    let mut d = Ldc3114::new(bus);
    assert!(!d.is_chip_ready().unwrap());
}

#[test]
fn mode_transition_codes() {
    let mut d = fresh();
    assert!(d.full_reset().is_ok());
    assert_eq!(d.bus().register_value(0x0A), 0x10);
    assert!(d.config_mode().is_ok());
    assert_eq!(d.bus().register_value(0x0A), 0x01);
    assert!(d.normal_mode().is_ok());
    assert_eq!(d.bus().register_value(0x0A), 0x00);
    // full reset: 1, config mode: 1, normal mode: 5 reads + 1 write
    assert_eq!(d.bus().transaction_count(), 8);
}

#[test]
fn set_scan_rates_write_codes() {
    let mut d = fresh();
    assert!(d.set_scan_rate(ScanRate::Highest).is_ok());
    assert_eq!(d.bus().register_value(0x0D), 0x08);
    assert!(d.set_scan_rate(ScanRate::High).is_ok());
    assert_eq!(d.bus().register_value(0x0D), 0x00);
    assert!(d.set_scan_rate(ScanRate::Continuous).is_ok());
    assert_eq!(d.bus().register_value(0x0D), 0x04);
    assert!(d.set_low_power_scan_rate(LowPowerScanRate::Low).is_ok());
    assert_eq!(d.bus().register_value(0x0F), 0x03);
    assert!(d.set_low_power_scan_rate(LowPowerScanRate::Highest).is_ok());
    assert_eq!(d.bus().register_value(0x0F), 0x00);
}

/// The interrupt and algorithm toggles each drive their own bit of
/// the IntPol register; the timeout and max-out flags are stored
/// inverted.
#[test]
fn interrupt_polarity_and_toggles() {
    let mut d = fresh();
    assert!(d.set_interrupt_polarity(InterruptPolarity::ActiveHigh).is_ok());
    assert_eq!(d.bus().register_value(0x11), 0x04);
    assert!(d.set_max_out_check(false).is_ok());
    assert_eq!(d.bus().register_value(0x11), 0x05);
    assert!(d.set_button_timeout(false).is_ok());
    assert_eq!(d.bus().register_value(0x11), 0x07);
    assert!(d.set_button_algorithm(true).is_ok());
    assert_eq!(d.bus().register_value(0x11), 0x0F);
    assert!(d.set_baseline_tracking_reset(true).is_ok());
    assert_eq!(d.bus().register_value(0x11), 0x1F);
    assert!(d.set_max_out_check(true).is_ok());
    assert!(d.set_button_timeout(true).is_ok());
    assert!(d.set_interrupt_polarity(InterruptPolarity::ActiveLow).is_ok());
    assert_eq!(d.bus().register_value(0x11), 0x18);
}

/// Disabled clears both channel bits; normal mode sets the enable bit
/// and explicitly clears the low-power bit; normal and low power sets
/// both.  Other channels' bits are never touched.
#[test]
fn channel_mode_transitions() {
    let mut d = fresh();
    assert!(d
        .set_channel_mode(Channel0, ChannelMode::NormalAndLowPowerMode)
        .is_ok());
    assert_eq!(d.bus().register_value(0x0C), 0x11);
    assert!(d.set_channel_mode(Channel1, ChannelMode::NormalMode).is_ok());
    assert_eq!(d.bus().register_value(0x0C), 0x13);
    assert!(d.set_channel_mode(Channel0, ChannelMode::NormalMode).is_ok());
    assert_eq!(d.bus().register_value(0x0C), 0x03);
    assert!(d.set_channel_mode(Channel0, ChannelMode::Disabled).is_ok());
    assert_eq!(d.bus().register_value(0x0C), 0x02);
}

/// A raw reading of zero is returned as zero for every channel, with
/// no conversion arithmetic.
#[test]
fn raw_data_zero_reading_returns_zero() {
    let mut d = fresh();
    assert_eq!(d.read_raw_data(Channel0).unwrap(), 0);
    assert_eq!(d.read_raw_data(Channel1).unwrap(), 0);
    assert_eq!(d.read_raw_data(Channel2).unwrap(), 0);
    assert_eq!(d.read_raw_data(Channel3).unwrap(), 0);
}

/// With the construction-time shadows (cycle count 4, divider 3) a
/// raw reading of 1000 gives window 128 * 5 * 16 = 10240 and
/// frequency 30 * 10240 * 44_000_000 / 1000 = 13_516_800_000,
/// truncated into 32 bits as 631_898_112.
#[test]
fn raw_data_conversion_scenario() {
    let mut bus = SimBus::new();
    // 1000 = 0x0003E8, little endian over the three raw registers
    bus.set_register_value(0x59, 0xE8);
    bus.set_register_value(0x5A, 0x03);
    bus.set_register_value(0x5B, 0x00);
    let mut d = Ldc3114::new(bus);
    assert_eq!(d.read_raw_data(Channel0).unwrap(), 631_898_112u32);
}

/// A conversion that needs no truncation: raw 13_516_800 under the
/// default shadows gives exactly 1_000_000.
#[test]
fn raw_data_conversion_exact() {
    let mut bus = SimBus::new();
    // 13_516_800 = 0xCE4000, little endian
    bus.set_register_value(0x5C, 0x00);
    bus.set_register_value(0x5D, 0x40);
    bus.set_register_value(0x5E, 0xCE);
    let mut d = Ldc3114::new(bus);
    assert_eq!(d.read_raw_data(Channel1).unwrap(), 1_000_000);
}

/// Entering normal mode reads the committed cycle count and divider
/// back from the device, so a later conversion uses them instead of
/// the construction-time defaults.
#[test]
fn normal_mode_refreshes_conversion_shadows() {
    let mut bus = SimBus::new();
    bus.set_register_value(0x59, 0xE8);
    bus.set_register_value(0x5A, 0x03);
    bus.set_register_value(0x5B, 0x00);
    let mut d = Ldc3114::new(bus);
    // before any transition: the placeholder shadows
    assert_eq!(d.read_raw_data(Channel0).unwrap(), 631_898_112u32);
    let sensor = SensorConfig {
        cycle_count: 10,
        ..SensorConfig::const_default()
    };
    assert!(d.set_sensor_config(Channel0, sensor).is_ok());
    assert!(d.set_lc_divider(2).is_ok());
    assert!(d.normal_mode().is_ok());
    // window = 128 * 11 * (2 << 2) = 11264;
    // 30 * 11264 * 44_000_000 / 1000 = 14_868_480_000, truncated to
    // 1_983_578_112
    assert_eq!(d.read_raw_data(Channel0).unwrap(), 1_983_578_112u32);
}

#[test]
fn release_returns_the_bus() {
    let mut d = fresh();
    assert!(d.write_register(Register::Hyst, 7).is_ok());
    let bus = d.release();
    assert_eq!(bus.register_value(0x18), 7);
    assert_eq!(bus.transaction_count(), 1);
}
