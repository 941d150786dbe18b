//! Register-level driver for the LDC3114 inductive touch-button sensing chip.
//!
//! The chip sits at a fixed address on a two-wire bus and exposes a sparse
//! map of one-byte registers.  This crate translates a typed configuration
//! model into raw register writes, and decodes raw register bytes back into
//! typed status and measurement values.  The bus itself is a capability
//! supplied by the caller through the [`I2cBus`] trait; every driver
//! operation states, over the abstract transaction history of that bus,
//! exactly which bytes it writes and how it interprets the bytes it reads.

use vstd::prelude::*;

mod bus;
mod codec;
mod laws;
mod driver;
mod register;
mod sim;

pub use bus::BusTransaction;
pub use bus::I2cBus;
pub use bus::read_transaction;
pub use bus::write_transaction;
pub use codec::apply_bit;
pub use codec::apply_field;
pub use codec::apply_mode;
pub use codec::btpause_maxwin_byte;
pub use codec::channel_config_from_image;
pub use codec::channel_config_ops;
pub use codec::channel_config_valid;
pub use codec::cntsc_byte;
pub use codec::common_deform_byte;
pub use codec::ConfigImage;
pub use codec::conversion_window;
pub use codec::counter_scale_from_field;
pub use codec::decode_channel_config;
pub use codec::decode_device_config;
pub use codec::decode_sensor_config;
pub use codec::device_config_from_image;
pub use codec::device_config_ops;
pub use codec::device_config_valid;
pub use codec::en_config_byte;
pub use codec::encode_device_config;
pub use codec::fast_tracking_factor_from_field;
pub use codec::flag_bit;
pub use codec::frequency_range_from_field;
pub use codec::ftf0_byte;
pub use codec::ftf1_2_byte;
pub use codec::ftf3_byte;
pub use codec::i16_from_le_bytes;
pub use codec::image_ftf;
pub use codec::image_gain;
pub use codec::image_sensor;
pub use codec::intpol_byte;
pub use codec::low_power_scan_rate_from_code;
pub use codec::mode_bits;
pub use codec::mode_from_en_byte;
pub use codec::opol_dpol_byte;
pub use codec::output_states_from_byte;
pub use codec::raw_to_frequency;
pub use codec::scan_rate_from_code;
pub use codec::sensor_config_byte;
pub use codec::sensor_config_from_byte;
pub use codec::sensor_config_valid;
pub use codec::status_from_byte;
pub use codec::u16_from_le_bytes;
pub use codec::u32_from_le_bytes;
pub use laws::btpause_maxwin_claim;
pub use laws::common_deform_claim;
pub use laws::en_claim;
pub use laws::lemma_btpause_maxwin_round_trip;
pub use laws::lemma_channel_claims_disjoint;
pub use laws::lemma_channel_config_round_trip;
pub use laws::lemma_cntsc_round_trip;
pub use laws::lemma_common_deform_round_trip;
pub use laws::lemma_device_config_round_trip;
pub use laws::lemma_en_round_trip;
pub use laws::lemma_ftf_round_trip;
pub use laws::lemma_intpol_round_trip;
pub use laws::lemma_opol_dpol_round_trip;
pub use laws::lemma_sensor_config_round_trip;
pub use laws::lemma_set_then_clear_forces_bits_low;
pub use laws::lemma_zero_raw_reading_converts_to_zero;
pub use laws::opol_dpol_claim;
pub use register::anticom_bit;
pub use register::antidform_bit;
pub use register::btpause_bit;
pub use register::Channel0;
pub use register::Channel1;
pub use register::Channel2;
pub use register::Channel3;
pub use register::ChannelRegisters;
pub use register::cntsc_mask;
pub use register::cntsc_offset;
pub use register::data_lsb_register;
pub use register::default_mode;
pub use register::dpol_bit;
pub use register::en_bit;
pub use register::ftf_mask;
pub use register::ftf_offset;
pub use register::ftf_register;
pub use register::gain_register;
pub use register::lpen_bit;
pub use register::maxwin_bit;
pub use register::opol_bit;
pub use register::raw_data_lsb_register;
pub use register::Register;
pub use register::sensor_config_register;
pub use sim::SimBus;
pub use sim::SimBusError;

verus! {

/// Driver for the LDC3114.
///
/// Owns the bus capability and a small shadow of the configuration bytes
/// that the raw-reading conversion formula needs (one cycle count per
/// channel and the LC divider).  The shadows hold placeholder defaults
/// until the first transition into normal mode reads the committed
/// configuration back from the device.
pub struct Ldc3114<I2C> {
    i2c: I2C,
    sency0: u8,
    sency1: u8,
    sency2: u8,
    sency3: u8,
    lcdiv: u8,
}

/// Error type.
#[derive(Debug)]
pub enum Error<I2cError> {
    /// I2C bus error.
    I2c(I2cError),
    /// Attempted to write to a read-only register.
    WriteToReadOnly,
    /// Invalid parameter.
    InvalidParameter,
}

/// Status flags, decoded from the Status register.
#[derive(Clone, Copy, Debug, PartialEq, Eq, Structural)]
pub struct Status {
    /// Logic OR of the channel output bits.  Cleared by reading the
    /// status register.
    pub output_status: bool,
    /// Chip ready after internal reset.
    pub chip_ready: bool,
    /// Indicates if registers are ready to be written.
    pub ready_to_write: bool,
    /// Indicates if any channel button output data reaches the maximum
    /// value.  Cleared by a read of the status register.
    pub maximum_output_code: bool,
    /// Reports an error that has halted conversions.  Cleared by a read
    /// of the status register.
    pub fsm_watchdog_error: bool,
    /// Reports an error when any LC oscillator fails to start.  Cleared
    /// by a read of the status register.
    pub lc_sensor_watchdog_error: bool,
    /// Reports when any button is asserted for more than 50 seconds.
    /// Cleared by a read of the status register.
    pub button_timeout: bool,
    /// Reports if any register's value has an unexpected change.
    /// Cleared by a read of the status register.
    pub register_integrity_bad: bool,
}

/// Channel output logic states, decoded from the Out register.
#[derive(Clone, Copy, Debug, PartialEq, Eq, Structural)]
pub struct OutputLogicStates {
    /// New pre-processed data is available for an enabled channel.
    /// Bit cleared on read.
    pub new_data_available: bool,
    /// Button output logic state for channel 0.
    pub out0: bool,
    /// Button output logic state for channel 1.
    pub out1: bool,
    /// Button output logic state for channel 2.
    pub out2: bool,
    /// Button output logic state for channel 3.
    pub out3: bool,
}

/// Channel operational mode.
#[derive(Clone, Copy, Debug, PartialEq, Eq, Structural)]
pub enum ChannelMode {
    /// Channel disabled.
    Disabled,
    /// Channel enabled only in normal mode.
    NormalMode,
    /// Channel enabled both in normal and low power mode.
    NormalAndLowPowerMode,
}

/// Scan rate in normal mode.
#[derive(Clone, Copy, Debug, PartialEq, Eq, Structural)]
pub enum ScanRate {
    /// Continuous scanning without delay.
    Continuous,
    /// 160 SPS
    Highest,
    /// 80 SPS
    High,
    /// 40 SPS
    Medium,
    /// 20 SPS
    Low,
    /// 10 SPS
    Lowest,
}

/// Scan rate in low power mode.
#[derive(Clone, Copy, Debug, PartialEq, Eq, Structural)]
pub enum LowPowerScanRate {
    /// 5 SPS
    Highest,
    /// 2.5 SPS
    High,
    /// 1.25 SPS
    Medium,
    /// 0.625 SPS
    Low,
}

/// Interrupt polarity.
#[derive(Clone, Copy, Debug, PartialEq, Eq, Structural)]
pub enum InterruptPolarity {
    /// Set INTB pin polarity to active low.
    ActiveLow,
    /// Set INTB pin polarity to active high.
    ActiveHigh,
}

/// Button output polarity for pin OUTX.
#[derive(Clone, Copy, Debug, PartialEq, Eq, Structural)]
pub enum OutputPolarity {
    /// Set OUTX polarity to active low.
    ActiveLow,
    /// Set OUTX polarity to active high.
    ActiveHigh,
}

/// Processed button algorithm data polarity for a channel.
#[derive(Clone, Copy, Debug, PartialEq, Eq, Structural)]
pub enum DataPolarity {
    /// Data decreases as sensor increases.
    Inverted,
    /// Data increases as sensor increases.
    Normal,
}

/// Counter scale.
#[derive(Clone, Copy, Debug, PartialEq, Eq, Structural)]
#[allow(missing_docs)]
pub enum CounterScale {
    Zero,
    One,
    Two,
    Three,
}

/// Channel sensor Rp range selection.
/// Set based on the actual sensor Rp physical parameter.
#[derive(Clone, Copy, Debug, PartialEq, Eq, Structural)]
pub enum RpRange {
    /// 50 Ω ≤ Rp ≤ 4 kΩ
    Rp50OhmTo4kOhm,
    /// 800 Ω ≤ Rp ≤ 10 kΩ
    Rp800OhmTo10kOhm,
}

/// Channel sensor frequency range selection.
#[derive(Clone, Copy, Debug, PartialEq, Eq, Structural)]
pub enum FrequencyRange {
    /// 1 MHz to 3.3 MHz
    Freq1MHzTo3_3MHz,
    /// 3.3 MHz to 10 MHz
    Freq3_3MHzTo10MHz,
    /// 10 MHz to 30 MHz
    Freq10MHzTo30MHz,
}

/// Sensor configuration struct.
#[derive(Clone, Copy, Debug, PartialEq, Eq, Structural)]
pub struct SensorConfig {
    /// Channel sensor Rp range selection.
    pub rp_range: RpRange,
    /// Channel sensor frequency range selection.
    pub frequency_range: FrequencyRange,
    /// Channel sensor cycle count.  Valid values lie in `[0, 32)`.
    pub cycle_count: u8,
}

impl SensorConfig {
    /// Default value for [`SensorConfig`].
    pub fn const_default() -> (r: Self)
        ensures
            r == Self::spec_default(),
    {
        Self {
            rp_range: RpRange::Rp50OhmTo4kOhm,
            frequency_range: FrequencyRange::Freq1MHzTo3_3MHz,
            cycle_count: 4,
        }
    }

    /// The default sensor configuration.
    pub open spec fn spec_default() -> Self {
        SensorConfig {
            rp_range: RpRange::Rp50OhmTo4kOhm,
            frequency_range: FrequencyRange::Freq1MHzTo3_3MHz,
            cycle_count: 4,
        }
    }
}

/// Fast Tracking Factor for button algorithm.
#[derive(Clone, Copy, Debug, PartialEq, Eq, Structural)]
#[allow(missing_docs)]
pub enum FastTrackingFactor {
    Zero,
    One,
    Two,
    Three,
}

/// Channel configuration struct.
#[derive(Clone, Copy, Debug, PartialEq, Eq, Structural)]
pub struct ChannelConfig {
    /// Channel operating mode.
    pub mode: ChannelMode,
    /// Channel gain.  Valid values lie in `[0, 64)`.
    pub gain: u8,
    /// Channel output polarity.
    pub output_polarity: OutputPolarity,
    /// Channel data polarity.
    pub data_polarity: DataPolarity,
    /// Channel counter scale.
    pub counter_scale: CounterScale,
    /// Channel sensor configuration.
    pub sensor_config: SensorConfig,
    /// Channel FTF for button algorithm.
    pub fast_tracking_factor: FastTrackingFactor,
    /// Whether to include the channel in the anticommon group.
    pub enable_anticommon_algorithm: bool,
    /// Whether to include the channel in the antideform group.
    pub enable_antideform_algorithm: bool,
    /// Whether to include the channel in the max-win group.
    pub enable_max_win_button_algorithm: bool,
    /// Whether to pause baseline tracking when OUTX is asserted.
    pub baseline_tracking_pause: bool,
}

impl ChannelConfig {
    /// Default value for [`ChannelConfig`].
    ///
    /// Channel 0 defaults to normal and low power operation; the other
    /// channels default to normal mode only.
    pub fn const_default<T: ChannelRegisters>(ch: T) -> (r: Self)
        ensures
            r == Self::spec_default(ch.ch()),
    {
        Self {
            mode: ch.default_mode(),
            gain: 0x28,
            output_polarity: OutputPolarity::ActiveLow,
            data_polarity: DataPolarity::Normal,
            counter_scale: CounterScale::One,
            sensor_config: SensorConfig::const_default(),
            fast_tracking_factor: FastTrackingFactor::One,
            enable_anticommon_algorithm: false,
            enable_antideform_algorithm: false,
            baseline_tracking_pause: false,
            enable_max_win_button_algorithm: false,
        }
    }

    /// The default configuration for the channel with index `ch`.
    pub open spec fn spec_default(ch: u8) -> Self {
        ChannelConfig {
            mode: crate::register::default_mode(ch),
            gain: 0x28,
            output_polarity: OutputPolarity::ActiveLow,
            data_polarity: DataPolarity::Normal,
            counter_scale: CounterScale::One,
            sensor_config: SensorConfig::spec_default(),
            fast_tracking_factor: FastTrackingFactor::One,
            enable_anticommon_algorithm: false,
            enable_antideform_algorithm: false,
            baseline_tracking_pause: false,
            enable_max_win_button_algorithm: false,
        }
    }
}

/// Device configuration struct.
#[derive(Clone, Copy, Debug, PartialEq, Eq, Structural)]
pub struct DeviceConfig {
    /// Configuration for channel 0.
    pub ch0: ChannelConfig,
    /// Configuration for channel 1.
    pub ch1: ChannelConfig,
    /// Configuration for channel 2.
    pub ch2: ChannelConfig,
    /// Configuration for channel 3.
    pub ch3: ChannelConfig,
    /// Scan rate in normal power mode.
    pub scan_rate: ScanRate,
    /// Scan rate in low power mode.
    pub low_power_scan_rate: LowPowerScanRate,
    /// Check if button algorithm generates codes outside maximum range.
    pub enable_max_out_check: bool,
    /// Enable button time-out if a button is pressed for more than 50
    /// seconds.
    pub enable_button_timeout: bool,
    /// Interrupt polarity.
    pub interrupt_polarity: InterruptPolarity,
    /// Enable button press detection algorithm to assert events on OUTX
    /// pins.
    pub enable_button_press_detection_algorithm: bool,
    /// Enable reset of button algorithm baseline tracking value.
    pub enable_reset_of_button_baseline_tracking: bool,
    /// Normal power base increment for button algorithm.  Valid values
    /// lie in `[0, 8)`.
    pub baseline_tracking_increment_np: u8,
    /// Low power base increment for button algorithm.  Valid values lie
    /// in `[0, 8)`.
    pub baseline_tracking_increment_lp: u8,
    /// LC oscillation frequency divider.  Valid values lie in `[0, 8)`.
    pub lc_divider: u8,
    /// Hysteresis for threshold for button algorithm.  Valid values lie
    /// in `[0, 16)`.
    pub hysteresis: u8,
    /// Anti-twist for button algorithm.  Valid values lie in `[0, 8)`.
    pub antitwist: u8,
}

impl DeviceConfig {
    /// Default value for [`DeviceConfig`].
    pub fn const_default() -> (r: Self)
        ensures
            r == Self::spec_default(),
    {
        Self {
            ch0: ChannelConfig::const_default(Channel0),
            ch1: ChannelConfig::const_default(Channel1),
            ch2: ChannelConfig::const_default(Channel2),
            ch3: ChannelConfig::const_default(Channel3),
            scan_rate: ScanRate::Medium,
            low_power_scan_rate: LowPowerScanRate::Highest,
            enable_max_out_check: true,
            enable_button_timeout: true,
            interrupt_polarity: InterruptPolarity::ActiveLow,
            enable_button_press_detection_algorithm: true,
            enable_reset_of_button_baseline_tracking: true,
            baseline_tracking_increment_np: 0x03,
            baseline_tracking_increment_lp: 0x05,
            lc_divider: 0x03,
            hysteresis: 0x08,
            antitwist: 0x00,
        }
    }

    /// The default device configuration.
    pub open spec fn spec_default() -> Self {
        DeviceConfig {
            ch0: ChannelConfig::spec_default(0),
            ch1: ChannelConfig::spec_default(1),
            ch2: ChannelConfig::spec_default(2),
            ch3: ChannelConfig::spec_default(3),
            scan_rate: ScanRate::Medium,
            low_power_scan_rate: LowPowerScanRate::Highest,
            enable_max_out_check: true,
            enable_button_timeout: true,
            interrupt_polarity: InterruptPolarity::ActiveLow,
            enable_button_press_detection_algorithm: true,
            enable_reset_of_button_baseline_tracking: true,
            baseline_tracking_increment_np: 0x03,
            baseline_tracking_increment_lp: 0x05,
            lc_divider: 0x03,
            hysteresis: 0x08,
            antitwist: 0x00,
        }
    }
}

} // verus!
