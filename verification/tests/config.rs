//! Tests of the configuration model: defaults, the bulk configuration
//! write, and the encode-decode round trip.

use ldc3114::{
    decode_device_config, Channel0, Channel1, Channel2, Channel3, ChannelConfig, ChannelMode,
    ConfigImage, CounterScale, DataPolarity, DeviceConfig, Error, FastTrackingFactor,
    FrequencyRange, InterruptPolarity, Ldc3114, LowPowerScanRate, OutputPolarity, RpRange,
    ScanRate, SensorConfig, SimBus,
};

fn varied_config() -> DeviceConfig {
    DeviceConfig {
        ch0: ChannelConfig {
            mode: ChannelMode::NormalAndLowPowerMode,
            gain: 0x3F,
            output_polarity: OutputPolarity::ActiveHigh,
            data_polarity: DataPolarity::Inverted,
            counter_scale: CounterScale::Three,
            sensor_config: SensorConfig {
                rp_range: RpRange::Rp800OhmTo10kOhm,
                frequency_range: FrequencyRange::Freq10MHzTo30MHz,
                cycle_count: 31,
            },
            fast_tracking_factor: FastTrackingFactor::Zero,
            enable_anticommon_algorithm: true,
            enable_antideform_algorithm: false,
            enable_max_win_button_algorithm: true,
            baseline_tracking_pause: false,
        },
        ch1: ChannelConfig {
            mode: ChannelMode::Disabled,
            gain: 0,
            output_polarity: OutputPolarity::ActiveLow,
            data_polarity: DataPolarity::Normal,
            counter_scale: CounterScale::Zero,
            sensor_config: SensorConfig {
                rp_range: RpRange::Rp50OhmTo4kOhm,
                frequency_range: FrequencyRange::Freq1MHzTo3_3MHz,
                cycle_count: 0,
            },
            fast_tracking_factor: FastTrackingFactor::One,
            enable_anticommon_algorithm: false,
            enable_antideform_algorithm: true,
            enable_max_win_button_algorithm: false,
            baseline_tracking_pause: true,
        },
        ch2: ChannelConfig {
            mode: ChannelMode::NormalMode,
            gain: 0x15,
            output_polarity: OutputPolarity::ActiveHigh,
            data_polarity: DataPolarity::Normal,
            counter_scale: CounterScale::One,
            sensor_config: SensorConfig {
                rp_range: RpRange::Rp50OhmTo4kOhm,
                frequency_range: FrequencyRange::Freq3_3MHzTo10MHz,
                cycle_count: 7,
            },
            fast_tracking_factor: FastTrackingFactor::Two,
            enable_anticommon_algorithm: true,
            enable_antideform_algorithm: true,
            enable_max_win_button_algorithm: false,
            baseline_tracking_pause: false,
        },
        ch3: ChannelConfig {
            mode: ChannelMode::NormalMode,
            gain: 0x2A,
            output_polarity: OutputPolarity::ActiveLow,
            data_polarity: DataPolarity::Inverted,
            counter_scale: CounterScale::Two,
            sensor_config: SensorConfig {
                rp_range: RpRange::Rp800OhmTo10kOhm,
                frequency_range: FrequencyRange::Freq1MHzTo3_3MHz,
                cycle_count: 16,
            },
            fast_tracking_factor: FastTrackingFactor::Three,
            enable_anticommon_algorithm: false,
            enable_antideform_algorithm: false,
            enable_max_win_button_algorithm: true,
            baseline_tracking_pause: true,
        },
        scan_rate: ScanRate::Continuous,
        low_power_scan_rate: LowPowerScanRate::Low,
        enable_max_out_check: false,
        enable_button_timeout: false,
        interrupt_polarity: InterruptPolarity::ActiveHigh,
        enable_button_press_detection_algorithm: true,
        enable_reset_of_button_baseline_tracking: false,
        baseline_tracking_increment_np: 7,
        baseline_tracking_increment_lp: 0,
        lc_divider: 5,
        hysteresis: 15,
        antitwist: 3,
    }
}

fn image_from_bus(bus: &SimBus) -> ConfigImage {
    ConfigImage {
        en: bus.register_value(0x0C),
        gain0: bus.register_value(0x0E),
        gain1: bus.register_value(0x10),
        gain2: bus.register_value(0x12),
        gain3: bus.register_value(0x14),
        np_scan_rate: bus.register_value(0x0D),
        lp_scan_rate: bus.register_value(0x0F),
        int_pol: bus.register_value(0x11),
        np_base_inc: bus.register_value(0x15),
        lp_base_inc: bus.register_value(0x13),
        bt_pause_max_win: bus.register_value(0x16),
        lc_divider: bus.register_value(0x17),
        hysteresis: bus.register_value(0x18),
        antitwist: bus.register_value(0x19),
        common_deform: bus.register_value(0x1A),
        opol_dpol: bus.register_value(0x1C),
        cntsc: bus.register_value(0x1E),
        sensor0: bus.register_value(0x20),
        sensor1: bus.register_value(0x22),
        sensor2: bus.register_value(0x24),
        sensor3: bus.register_value(0x26),
        ftf0: bus.register_value(0x25),
        ftf1_2: bus.register_value(0x28),
        ftf3: bus.register_value(0x2B),
    }
}

#[test]
fn default_configurations() {
    let s = SensorConfig::const_default();
    assert!(matches!(s.rp_range, RpRange::Rp50OhmTo4kOhm));
    assert!(matches!(s.frequency_range, FrequencyRange::Freq1MHzTo3_3MHz));
    assert_eq!(s.cycle_count, 4);

    let c0 = ChannelConfig::const_default(Channel0);
    assert!(matches!(c0.mode, ChannelMode::NormalAndLowPowerMode));
    let c1 = ChannelConfig::const_default(Channel1);
    assert!(matches!(c1.mode, ChannelMode::NormalMode));
    let c2 = ChannelConfig::const_default(Channel2);
    assert!(matches!(c2.mode, ChannelMode::NormalMode));
    let c3 = ChannelConfig::const_default(Channel3);
    assert!(matches!(c3.mode, ChannelMode::NormalMode));
    assert_eq!(c0.gain, 0x28);
    assert!(matches!(c0.output_polarity, OutputPolarity::ActiveLow));
    assert!(matches!(c0.data_polarity, DataPolarity::Normal));
    assert!(matches!(c0.counter_scale, CounterScale::One));
    assert!(matches!(c0.fast_tracking_factor, FastTrackingFactor::One));
    assert!(!c0.enable_anticommon_algorithm);
    assert!(!c0.enable_antideform_algorithm);
    assert!(!c0.enable_max_win_button_algorithm);
    assert!(!c0.baseline_tracking_pause);

    let d = DeviceConfig::const_default();
    assert!(matches!(d.scan_rate, ScanRate::Medium));
    assert!(matches!(d.low_power_scan_rate, LowPowerScanRate::Highest));
    assert!(d.enable_max_out_check);
    assert!(d.enable_button_timeout);
    assert!(matches!(d.interrupt_polarity, InterruptPolarity::ActiveLow));
    assert!(d.enable_button_press_detection_algorithm);
    assert!(d.enable_reset_of_button_baseline_tracking);
    assert_eq!(d.baseline_tracking_increment_np, 0x03);
    assert_eq!(d.baseline_tracking_increment_lp, 0x05);
    assert_eq!(d.lc_divider, 0x03);
    assert_eq!(d.hysteresis, 0x08);
    assert_eq!(d.antitwist, 0x00);
    assert_eq!(d.ch0, ChannelConfig::const_default(Channel0));
    assert_eq!(d.ch1, ChannelConfig::const_default(Channel1));
}

/// Applying a device configuration writes exactly the expected byte
/// to every register, in 24 write transactions.
#[test]
fn device_configuration_writes_expected_bytes() {
    let config = varied_config();
    let mut d = Ldc3114::new(SimBus::new());
    assert!(d.set_device_configuration(&config).is_ok());
    assert_eq!(d.bus().transaction_count(), 24);
    assert_eq!(d.bus().register_value(0x0C), 0x1D); // En
    assert_eq!(d.bus().register_value(0x0E), 0x3F); // Gain0
    assert_eq!(d.bus().register_value(0x10), 0x00); // Gain1
    assert_eq!(d.bus().register_value(0x12), 0x15); // Gain2
    assert_eq!(d.bus().register_value(0x14), 0x2A); // Gain3
    assert_eq!(d.bus().register_value(0x0D), 0x04); // NpScanRate
    assert_eq!(d.bus().register_value(0x0F), 0x03); // LpScanRate
    assert_eq!(d.bus().register_value(0x11), 0x0F); // IntPol
    assert_eq!(d.bus().register_value(0x15), 0x07); // NpBaseInc
    assert_eq!(d.bus().register_value(0x13), 0x00); // LpBaseInc
    assert_eq!(d.bus().register_value(0x16), 0xA9); // BtPauseMaxWin
    assert_eq!(d.bus().register_value(0x17), 0x05); // LcDivider
    assert_eq!(d.bus().register_value(0x18), 0x0F); // Hyst
    assert_eq!(d.bus().register_value(0x19), 0x03); // Twist
    assert_eq!(d.bus().register_value(0x1A), 0x56); // CommonDeform
    assert_eq!(d.bus().register_value(0x1C), 0x56); // OpolDpol
    assert_eq!(d.bus().register_value(0x1E), 0x93); // Cntsc
    assert_eq!(d.bus().register_value(0x20), 0xDF); // Sensor0Config
    assert_eq!(d.bus().register_value(0x22), 0x00); // Sensor1Config
    assert_eq!(d.bus().register_value(0x24), 0x27); // Sensor2Config
    assert_eq!(d.bus().register_value(0x26), 0x90); // Sensor3Config
    assert_eq!(d.bus().register_value(0x25), 0x00); // Ftf0
    assert_eq!(d.bus().register_value(0x28), 0x90); // Ftf1_2
    assert_eq!(d.bus().register_value(0x2B), 0x03); // Ftf3
}

/// Round trip: applying a configuration and decoding the written
/// register values reproduces every field of the original.
#[test]
fn device_configuration_round_trip() {
    let config = varied_config();
    let mut d = Ldc3114::new(SimBus::new());
    assert!(d.set_device_configuration(&config).is_ok());
    let image = image_from_bus(d.bus());
    assert_eq!(decode_device_config(&image), Some(config));

    let config = DeviceConfig::const_default();
    let mut d = Ldc3114::new(SimBus::new());
    assert!(d.set_device_configuration(&config).is_ok());
    let image = image_from_bus(d.bus());
    assert_eq!(decode_device_config(&image), Some(config));
}

/// A failing validation aborts the sequence at its own step: the
/// earlier writes remain applied and the later registers untouched.
#[test]
fn partial_configuration_on_invalid_field() {
    let mut config = varied_config();
    config.ch2.gain = 100;
    let mut d = Ldc3114::new(SimBus::new());
    assert!(matches!(
        d.set_device_configuration(&config),
        Err(Error::InvalidParameter)
    ));
    // En, Gain0 and Gain1 were written before the invalid gain
    assert_eq!(d.bus().transaction_count(), 3);
    assert_eq!(d.bus().register_value(0x0C), 0x1D);
    assert_eq!(d.bus().register_value(0x0E), 0x3F);
    assert_eq!(d.bus().register_value(0x12), 0x00);
    assert_eq!(d.bus().register_value(0x14), 0x00);
}

/// Decoding refuses bytes outside the encodable domains.
#[test]
fn decode_rejects_out_of_domain_bytes() {
    let config = varied_config();
    let mut d = Ldc3114::new(SimBus::new());
    assert!(d.set_device_configuration(&config).is_ok());
    let good = image_from_bus(d.bus());

    let mut bad = good;
    bad.np_scan_rate = 0x05;
    assert_eq!(decode_device_config(&bad), None);

    let mut bad = good;
    bad.lp_scan_rate = 0x04;
    assert_eq!(decode_device_config(&bad), None);

    let mut bad = good;
    bad.gain1 = 64;
    assert_eq!(decode_device_config(&bad), None);

    let mut bad = good;
    bad.sensor2 = 0x60 | 7; // undefined frequency range field
    assert_eq!(decode_device_config(&bad), None);

    let mut bad = good;
    bad.lc_divider = 8;
    assert_eq!(decode_device_config(&bad), None);

    let mut bad = good;
    bad.hysteresis = 16;
    assert_eq!(decode_device_config(&bad), None);

    let mut bad = good;
    bad.antitwist = 8;
    assert_eq!(decode_device_config(&bad), None);

    let mut bad = good;
    bad.np_base_inc = 8;
    assert_eq!(decode_device_config(&bad), None);
}

/// Applying one channel's configuration through the individual
/// setters leaves exactly that channel's bits and registers set.
#[test]
fn configure_channel_applies_all_fields() {
    let cfg = ChannelConfig {
        mode: ChannelMode::NormalMode,
        gain: 0x20,
        output_polarity: OutputPolarity::ActiveHigh,
        data_polarity: DataPolarity::Inverted,
        counter_scale: CounterScale::Three,
        sensor_config: SensorConfig {
            rp_range: RpRange::Rp800OhmTo10kOhm,
            frequency_range: FrequencyRange::Freq3_3MHzTo10MHz,
            cycle_count: 5,
        },
        fast_tracking_factor: FastTrackingFactor::Two,
        enable_anticommon_algorithm: true,
        enable_antideform_algorithm: false,
        enable_max_win_button_algorithm: true,
        baseline_tracking_pause: false,
    };
    let mut d = Ldc3114::new(SimBus::new());
    assert!(d.configure_channel(Channel1, &cfg).is_ok());
    assert_eq!(d.bus().transaction_count(), 20);
    assert_eq!(d.bus().register_value(0x0C), 0x02); // En
    assert_eq!(d.bus().register_value(0x10), 0x20); // Gain1
    assert_eq!(d.bus().register_value(0x1C), 0x20); // OpolDpol
    assert_eq!(d.bus().register_value(0x1E), 0x0C); // Cntsc
    assert_eq!(d.bus().register_value(0x28), 0x20); // Ftf1_2
    assert_eq!(d.bus().register_value(0x22), 0xA5); // Sensor1Config
    assert_eq!(d.bus().register_value(0x16), 0x02); // BtPauseMaxWin
    assert_eq!(d.bus().register_value(0x1A), 0x20); // CommonDeform
}

/// The channel setters leave the other channels' bits of a shared
/// register exactly as they were.
#[test]
fn configure_channel_preserves_other_channels() {
    let mut bus = SimBus::new();
    bus.set_register_value(0x0C, 0x99); // En: channels 0 and 3
    bus.set_register_value(0x1E, 0xC3); // Cntsc: channels 0 and 3
    let mut d = Ldc3114::new(bus);
    assert!(d.set_channel_mode(Channel1, ChannelMode::NormalAndLowPowerMode).is_ok());
    assert_eq!(d.bus().register_value(0x0C), 0xBB);
    assert!(d.set_counter_scale(Channel2, CounterScale::Two).is_ok());
    assert_eq!(d.bus().register_value(0x1E), 0xE3);
    assert!(d.set_channel_mode(Channel1, ChannelMode::Disabled).is_ok());
    assert_eq!(d.bus().register_value(0x0C), 0x99);
}

#[test]
fn invalid_sensor_config_aborts_channel_configuration() {
    let mut cfg = ChannelConfig::const_default(Channel2);
    cfg.sensor_config.cycle_count = 32;
    let mut d = Ldc3114::new(SimBus::new());
    assert!(matches!(
        d.configure_channel(Channel2, &cfg),
        Err(Error::InvalidParameter)
    ));
    // the steps before the sensor configuration were performed:
    // mode (2), gain (1), output polarity (2), counter scale (2),
    // fast tracking factor (2), data polarity (2)
    assert_eq!(d.bus().transaction_count(), 11);
    assert_eq!(d.bus().register_value(0x24), 0x00);
}

/// Channel 0's two-bit counter-scale field sits at offset 0 of the
/// shared Cntsc register and must hold channel 0's own scale.  Driver
/// code in circulation has been seen OR-ing channel 1's scale into
/// both the offset-0 and offset-2 fields; the datasheet assigns
/// offset 0 to channel 0, and this crate writes channel 0's own value
/// there.
#[test]
fn counter_scale_channel_zero_uses_its_own_value() {
    let mut config = DeviceConfig::const_default();
    config.ch0.counter_scale = CounterScale::Three;
    config.ch1.counter_scale = CounterScale::Zero;
    config.ch2.counter_scale = CounterScale::One;
    config.ch3.counter_scale = CounterScale::Two;
    let mut d = Ldc3114::new(SimBus::new());
    assert!(d.set_device_configuration(&config).is_ok());
    let cntsc = d.bus().register_value(0x1E);
    assert_eq!(cntsc & 0x03, 3, "offset 0 holds channel 0's scale");
    assert_eq!((cntsc >> 2) & 0x03, 0);
    assert_eq!((cntsc >> 4) & 0x03, 1);
    assert_eq!((cntsc >> 6) & 0x03, 2);

    // the individual setter writes the same field
    let mut d = Ldc3114::new(SimBus::new());
    assert!(d.set_counter_scale(Channel0, CounterScale::Two).is_ok());
    assert_eq!(d.bus().register_value(0x1E), 0x02);
}
