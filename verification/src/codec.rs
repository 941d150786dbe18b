//! Encoding of the typed configuration model into register bytes, and
//! decoding of register bytes back into typed values.
//!
//! Every encoder has a specification twin stating the exact byte it
//! produces; the driver's contracts are phrased over these functions.
//! The decoders invert them, which `crate::laws` proves.

use crate::bus::read_transaction;
use crate::bus::write_transaction;
use crate::bus::BusTransaction;
use crate::register::anticom_bit;
use crate::register::cntsc_mask;
use crate::register::cntsc_offset;
use crate::register::ftf_mask;
use crate::register::ftf_offset;
use crate::register::ftf_register;
use crate::register::gain_register;
use crate::register::sensor_config_register;
use crate::Register;
use crate::register::antidform_bit;
use crate::register::btpause_bit;
use crate::register::dpol_bit;
use crate::register::en_bit;
use crate::register::lpen_bit;
use crate::register::maxwin_bit;
use crate::register::opol_bit;
use crate::register::BTN_ALG_EN;
use crate::register::BTSRT_EN;
use crate::register::CHIP_READY;
use crate::register::DATA_RDY;
use crate::register::DIS_BTB_MO;
use crate::register::DIS_BTN_TO;
use crate::register::FSM_WD;
use crate::register::INTPOL;
use crate::register::LC_WD;
use crate::register::MAXOUT;
use crate::register::OUT0;
use crate::register::OUT1;
use crate::register::OUT2;
use crate::register::OUT3;
use crate::register::OUT_STATUS;
use crate::register::RDY_TO_WRITE;
use crate::register::REGISTER_FLAG;
use crate::register::TIMEOUT;
use crate::ChannelConfig;
use crate::ChannelMode;
use crate::CounterScale;
use crate::DataPolarity;
use crate::DeviceConfig;
use crate::FastTrackingFactor;
use crate::FrequencyRange;
use crate::InterruptPolarity;
use crate::LowPowerScanRate;
use crate::OutputLogicStates;
use crate::OutputPolarity;
use crate::RpRange;
use crate::ScanRate;
use crate::SensorConfig;
use crate::Status;
use vstd::prelude::*;

verus! {

// ---------------------------------------------------------------------
// Validity of the domain-restricted integer parameters.
// ---------------------------------------------------------------------

/// The sensor configuration's cycle count lies in its domain `[0, 32)`.
pub open spec fn sensor_config_valid(s: SensorConfig) -> bool {
    s.cycle_count < 32
}

/// The channel configuration's integer fields lie in their domains:
/// gain in `[0, 64)` and the sensor cycle count in `[0, 32)`.
pub open spec fn channel_config_valid(c: ChannelConfig) -> bool {
    &&& c.gain < 64
    &&& sensor_config_valid(c.sensor_config)
}

/// Every domain-restricted integer field of the device configuration
/// lies in its domain.
pub open spec fn device_config_valid(c: DeviceConfig) -> bool {
    &&& channel_config_valid(c.ch0)
    &&& channel_config_valid(c.ch1)
    &&& channel_config_valid(c.ch2)
    &&& channel_config_valid(c.ch3)
    &&& c.baseline_tracking_increment_np < 8
    &&& c.baseline_tracking_increment_lp < 8
    &&& c.lc_divider < 8
    &&& c.hysteresis < 16
    &&& c.antitwist < 8
}

// ---------------------------------------------------------------------
// Hardware codes of the enumerated settings.
// ---------------------------------------------------------------------

impl ScanRate {
    /// The hardware code of the scan rate.  The codes are fixed by the
    /// chip and are not contiguous.
    pub open spec fn spec_code(self) -> u8 {
        match self {
            ScanRate::Continuous => 0x04,
            ScanRate::Highest => 0x08,
            ScanRate::High => 0x00,
            ScanRate::Medium => 0x01,
            ScanRate::Low => 0x02,
            ScanRate::Lowest => 0x03,
        }
    }

    /// The hardware code of the scan rate.
    #[verifier::when_used_as_spec(spec_code)]
    pub fn code(self) -> (r: u8)
        ensures
            r == self.spec_code(),
    {
        match self {
            ScanRate::Continuous => 0x04,
            ScanRate::Highest => 0x08,
            ScanRate::High => 0x00,
            ScanRate::Medium => 0x01,
            ScanRate::Low => 0x02,
            ScanRate::Lowest => 0x03,
        }
    }
}

/// The scan rate denoted by a hardware code, if any.
pub open spec fn scan_rate_from_code(b: u8) -> Option<ScanRate> {
    if b == 0x04 {
        Some(ScanRate::Continuous)
    } else if b == 0x08 {
        Some(ScanRate::Highest)
    } else if b == 0x00 {
        Some(ScanRate::High)
    } else if b == 0x01 {
        Some(ScanRate::Medium)
    } else if b == 0x02 {
        Some(ScanRate::Low)
    } else if b == 0x03 {
        Some(ScanRate::Lowest)
    } else {
        None
    }
}

impl LowPowerScanRate {
    /// The hardware code of the low power scan rate.
    pub open spec fn spec_code(self) -> u8 {
        match self {
            LowPowerScanRate::Highest => 0x00,
            LowPowerScanRate::High => 0x01,
            LowPowerScanRate::Medium => 0x02,
            LowPowerScanRate::Low => 0x03,
        }
    }

    /// The hardware code of the low power scan rate.
    #[verifier::when_used_as_spec(spec_code)]
    pub fn code(self) -> (r: u8)
        ensures
            r == self.spec_code(),
    {
        match self {
            LowPowerScanRate::Highest => 0x00,
            LowPowerScanRate::High => 0x01,
            LowPowerScanRate::Medium => 0x02,
            LowPowerScanRate::Low => 0x03,
        }
    }
}

/// The low power scan rate denoted by a hardware code, if any.
pub open spec fn low_power_scan_rate_from_code(b: u8) -> Option<LowPowerScanRate> {
    if b == 0x00 {
        Some(LowPowerScanRate::Highest)
    } else if b == 0x01 {
        Some(LowPowerScanRate::High)
    } else if b == 0x02 {
        Some(LowPowerScanRate::Medium)
    } else if b == 0x03 {
        Some(LowPowerScanRate::Low)
    } else {
        None
    }
}

impl CounterScale {
    /// The two-bit field value of the counter scale.
    pub open spec fn spec_code(self) -> u8 {
        match self {
            CounterScale::Zero => 0,
            CounterScale::One => 1,
            CounterScale::Two => 2,
            CounterScale::Three => 3,
        }
    }

    /// The two-bit field value of the counter scale.
    #[verifier::when_used_as_spec(spec_code)]
    pub fn code(self) -> (r: u8)
        ensures
            r == self.spec_code(),
    {
        match self {
            CounterScale::Zero => 0,
            CounterScale::One => 1,
            CounterScale::Two => 2,
            CounterScale::Three => 3,
        }
    }
}

/// The counter scale denoted by a two-bit field value.
pub open spec fn counter_scale_from_field(b: u8) -> CounterScale {
    if b == 0 {
        CounterScale::Zero
    } else if b == 1 {
        CounterScale::One
    } else if b == 2 {
        CounterScale::Two
    } else {
        CounterScale::Three
    }
}

impl FastTrackingFactor {
    /// The two-bit field value of the fast tracking factor.
    pub open spec fn spec_code(self) -> u8 {
        match self {
            FastTrackingFactor::Zero => 0,
            FastTrackingFactor::One => 1,
            FastTrackingFactor::Two => 2,
            FastTrackingFactor::Three => 3,
        }
    }

    /// The two-bit field value of the fast tracking factor.
    #[verifier::when_used_as_spec(spec_code)]
    pub fn code(self) -> (r: u8)
        ensures
            r == self.spec_code(),
    {
        match self {
            FastTrackingFactor::Zero => 0,
            FastTrackingFactor::One => 1,
            FastTrackingFactor::Two => 2,
            FastTrackingFactor::Three => 3,
        }
    }
}

/// The fast tracking factor denoted by a two-bit field value.
pub open spec fn fast_tracking_factor_from_field(b: u8) -> FastTrackingFactor {
    if b == 0 {
        FastTrackingFactor::Zero
    } else if b == 1 {
        FastTrackingFactor::One
    } else if b == 2 {
        FastTrackingFactor::Two
    } else {
        FastTrackingFactor::Three
    }
}

impl RpRange {
    /// The bit pattern of the Rp range inside a sensor configuration
    /// register.
    pub open spec fn spec_code(self) -> u8 {
        match self {
            RpRange::Rp50OhmTo4kOhm => 0x00,
            RpRange::Rp800OhmTo10kOhm => 0x80,
        }
    }

    /// The bit pattern of the Rp range inside a sensor configuration
    /// register.
    #[verifier::when_used_as_spec(spec_code)]
    pub fn code(self) -> (r: u8)
        ensures
            r == self.spec_code(),
    {
        match self {
            RpRange::Rp50OhmTo4kOhm => 0x00,
            RpRange::Rp800OhmTo10kOhm => 0x80,
        }
    }
}

impl FrequencyRange {
    /// The bit pattern of the frequency range inside a sensor
    /// configuration register.
    pub open spec fn spec_code(self) -> u8 {
        match self {
            FrequencyRange::Freq1MHzTo3_3MHz => 0x00,
            FrequencyRange::Freq3_3MHzTo10MHz => 0x20,
            FrequencyRange::Freq10MHzTo30MHz => 0x40,
        }
    }

    /// The bit pattern of the frequency range inside a sensor
    /// configuration register.
    #[verifier::when_used_as_spec(spec_code)]
    pub fn code(self) -> (r: u8)
        ensures
            r == self.spec_code(),
    {
        match self {
            FrequencyRange::Freq1MHzTo3_3MHz => 0x00,
            FrequencyRange::Freq3_3MHzTo10MHz => 0x20,
            FrequencyRange::Freq10MHzTo30MHz => 0x40,
        }
    }
}

/// The frequency range denoted by its bit pattern, if any.
pub open spec fn frequency_range_from_field(b: u8) -> Option<FrequencyRange> {
    if b == 0x00 {
        Some(FrequencyRange::Freq1MHzTo3_3MHz)
    } else if b == 0x20 {
        Some(FrequencyRange::Freq3_3MHzTo10MHz)
    } else if b == 0x40 {
        Some(FrequencyRange::Freq10MHzTo30MHz)
    } else {
        None
    }
}

// ---------------------------------------------------------------------
// Whole-register encodings.
// ---------------------------------------------------------------------

/// The bit set by flag `b` inside a shared register: `bit` when the
/// flag is on, nothing when it is off.
pub open spec fn flag_bit(b: bool, bit: u8) -> u8 {
    if b {
        bit
    } else {
        0
    }
}

/// The bits that the mode of channel `ch` contributes to the shared En
/// register: nothing when disabled, the enable bit in normal mode, the
/// enable and low-power bits in normal and low power mode.
pub open spec fn mode_bits(ch: u8, m: ChannelMode) -> u8 {
    match m {
        ChannelMode::Disabled => 0,
        ChannelMode::NormalMode => en_bit(ch),
        ChannelMode::NormalAndLowPowerMode => en_bit(ch) | lpen_bit(ch),
    }
}

/// The En register byte: the OR of all four channels' mode bits.
pub open spec fn en_config_byte(c: DeviceConfig) -> u8 {
    mode_bits(0, c.ch0.mode) | mode_bits(1, c.ch1.mode) | mode_bits(2, c.ch2.mode) | mode_bits(
        3,
        c.ch3.mode,
    )
}

/// The IntPol register byte.  The button-timeout and max-out-check
/// flags are stored inverted: the hardware bits mean "disable".
pub open spec fn intpol_byte(c: DeviceConfig) -> u8 {
    flag_bit(c.enable_reset_of_button_baseline_tracking, BTSRT_EN) | flag_bit(
        c.enable_button_press_detection_algorithm,
        BTN_ALG_EN,
    ) | flag_bit(c.interrupt_polarity is ActiveHigh, INTPOL) | flag_bit(
        !c.enable_button_timeout,
        DIS_BTN_TO,
    ) | flag_bit(!c.enable_max_out_check, DIS_BTB_MO)
}

/// The BtPauseMaxWin register byte: the four baseline-tracking-pause
/// flags in the high half, the four max-win flags in the low half.
pub open spec fn btpause_maxwin_byte(c: DeviceConfig) -> u8 {
    flag_bit(c.ch0.baseline_tracking_pause, btpause_bit(0)) | flag_bit(
        c.ch1.baseline_tracking_pause,
        btpause_bit(1),
    ) | flag_bit(c.ch2.baseline_tracking_pause, btpause_bit(2)) | flag_bit(
        c.ch3.baseline_tracking_pause,
        btpause_bit(3),
    ) | flag_bit(c.ch0.enable_max_win_button_algorithm, maxwin_bit(0)) | flag_bit(
        c.ch1.enable_max_win_button_algorithm,
        maxwin_bit(1),
    ) | flag_bit(c.ch2.enable_max_win_button_algorithm, maxwin_bit(2)) | flag_bit(
        c.ch3.enable_max_win_button_algorithm,
        maxwin_bit(3),
    )
}

/// The CommonDeform register byte: the four anticommon flags in the
/// high half, the four antideform flags in the low half.
pub open spec fn common_deform_byte(c: DeviceConfig) -> u8 {
    flag_bit(c.ch0.enable_anticommon_algorithm, anticom_bit(0)) | flag_bit(
        c.ch1.enable_anticommon_algorithm,
        anticom_bit(1),
    ) | flag_bit(c.ch2.enable_anticommon_algorithm, anticom_bit(2)) | flag_bit(
        c.ch3.enable_anticommon_algorithm,
        anticom_bit(3),
    ) | flag_bit(c.ch0.enable_antideform_algorithm, antidform_bit(0)) | flag_bit(
        c.ch1.enable_antideform_algorithm,
        antidform_bit(1),
    ) | flag_bit(c.ch2.enable_antideform_algorithm, antidform_bit(2)) | flag_bit(
        c.ch3.enable_antideform_algorithm,
        antidform_bit(3),
    )
}

/// The OpolDpol register byte: the four output-polarity bits in the
/// high half (set when active high), the four data-polarity bits in
/// the low half (set when normal).
pub open spec fn opol_dpol_byte(c: DeviceConfig) -> u8 {
    flag_bit(c.ch0.output_polarity is ActiveHigh, opol_bit(0)) | flag_bit(
        c.ch1.output_polarity is ActiveHigh,
        opol_bit(1),
    ) | flag_bit(c.ch2.output_polarity is ActiveHigh, opol_bit(2)) | flag_bit(
        c.ch3.output_polarity is ActiveHigh,
        opol_bit(3),
    ) | flag_bit(c.ch0.data_polarity is Normal, dpol_bit(0)) | flag_bit(
        c.ch1.data_polarity is Normal,
        dpol_bit(1),
    ) | flag_bit(c.ch2.data_polarity is Normal, dpol_bit(2)) | flag_bit(
        c.ch3.data_polarity is Normal,
        dpol_bit(3),
    )
}

/// The Cntsc register byte: each channel's two-bit counter-scale field
/// at its own offset.  Channel 0's field holds channel 0's own value.
pub open spec fn cntsc_byte(c: DeviceConfig) -> u8 {
    c.ch0.counter_scale.spec_code() | (c.ch1.counter_scale.spec_code() << 2) | (
    c.ch2.counter_scale.spec_code() << 4) | (c.ch3.counter_scale.spec_code() << 6)
}

/// A sensor-configuration register byte: the Rp range bit, the
/// frequency range field and the five-bit cycle count.
pub open spec fn sensor_config_byte(s: SensorConfig) -> u8 {
    s.rp_range.spec_code() | s.frequency_range.spec_code() | s.cycle_count
}

/// The Ftf0 register byte, holding channel 0's fast-tracking field.
pub open spec fn ftf0_byte(c: DeviceConfig) -> u8 {
    c.ch0.fast_tracking_factor.spec_code() << 1
}

/// The Ftf1_2 register byte, holding channel 1's and channel 2's
/// fast-tracking fields.
pub open spec fn ftf1_2_byte(c: DeviceConfig) -> u8 {
    (c.ch1.fast_tracking_factor.spec_code() << 4) | (c.ch2.fast_tracking_factor.spec_code() << 6)
}

/// The Ftf3 register byte, holding channel 3's fast-tracking field.
pub open spec fn ftf3_byte(c: DeviceConfig) -> u8 {
    c.ch3.fast_tracking_factor.spec_code()
}

// ---------------------------------------------------------------------
// Read-modify-write transforms on shared registers.
// ---------------------------------------------------------------------

/// The byte written back when flag `on` drives bit `bit` of a shared
/// register previously holding `v`: the bit is set or cleared, the
/// other bits are untouched.
pub open spec fn apply_bit(v: u8, bit: u8, on: bool) -> u8 {
    if on {
        v | bit
    } else {
        v & !bit
    }
}

/// The byte written back when the two-bit field at `offset` under
/// `mask` of a shared register previously holding `v` is replaced by
/// `code`: the field is overwritten, the other bits are untouched.
pub open spec fn apply_field(v: u8, mask: u8, offset: u8, code: u8) -> u8 {
    (v & !mask) | (code << offset)
}

/// The byte written back to the En register previously holding `v`
/// when channel `ch` is put into mode `m`: disabling clears both of
/// the channel's bits, normal mode sets the enable bit and explicitly
/// clears the low-power bit, normal and low power mode sets both.
pub open spec fn apply_mode(v: u8, ch: u8, m: ChannelMode) -> u8 {
    match m {
        ChannelMode::Disabled => v & !(en_bit(ch) | lpen_bit(ch)),
        ChannelMode::NormalMode => (v | en_bit(ch)) & !lpen_bit(ch),
        ChannelMode::NormalAndLowPowerMode => v | (en_bit(ch) | lpen_bit(ch)),
    }
}

// ---------------------------------------------------------------------
// Status and measurement decodings.
// ---------------------------------------------------------------------

/// The status flags encoded in a Status register byte.
pub open spec fn status_from_byte(b: u8) -> Status {
    Status {
        output_status: b & OUT_STATUS != 0,
        chip_ready: b & CHIP_READY != 0,
        ready_to_write: b & RDY_TO_WRITE != 0,
        maximum_output_code: b & MAXOUT != 0,
        fsm_watchdog_error: b & FSM_WD != 0,
        lc_sensor_watchdog_error: b & LC_WD != 0,
        button_timeout: b & TIMEOUT != 0,
        register_integrity_bad: b & REGISTER_FLAG != 0,
    }
}

/// The output logic states encoded in an Out register byte.
pub open spec fn output_states_from_byte(b: u8) -> OutputLogicStates {
    OutputLogicStates {
        new_data_available: b & DATA_RDY != 0,
        out0: b & OUT0 != 0,
        out1: b & OUT1 != 0,
        out2: b & OUT2 != 0,
        out3: b & OUT3 != 0,
    }
}

/// The unsigned value of a two-byte little-endian register pair.
pub open spec fn u16_from_le_bytes(b0: u8, b1: u8) -> u16 {
    (b0 as u16) | ((b1 as u16) << 8)
}

/// The signed processed measurement held in a two-byte little-endian
/// register pair.
pub open spec fn i16_from_le_bytes(b0: u8, b1: u8) -> i16 {
    ((b0 as u16) | ((b1 as u16) << 8)) as i16
}

/// The raw oscillator period count held in a three-byte little-endian
/// register group, zero-extended to 32 bits.
pub open spec fn u32_from_le_bytes(b0: u8, b1: u8, b2: u8) -> u32 {
    (b0 as u32) | ((b1 as u32) << 8) | ((b2 as u32) << 16)
}

// ---------------------------------------------------------------------
// Raw-reading to frequency conversion.
// ---------------------------------------------------------------------

/// The conversion window for a cycle count and an LC divider:
/// `128 * (1 + cycle_count) * (2 << lc_divider)`.
pub open spec fn conversion_window(cycle_count: u8, lc_divider: u8) -> int
    recommends
        lc_divider < 8,
{
    128 * (1 + cycle_count as int) * ((2u64 << lc_divider) as int)
}

/// The oscillation frequency that a raw period count denotes under the
/// given cycle count and LC divider: zero stays zero (no conversion is
/// attempted), and any other reading becomes
/// `30 * window * 44_000_000 / raw`, truncated to 32 bits.
pub open spec fn raw_to_frequency(raw: u32, cycle_count: u8, lc_divider: u8) -> u32
    recommends
        cycle_count < 32,
        lc_divider < 8,
{
    if raw == 0 {
        0
    } else {
        ((30 * conversion_window(cycle_count, lc_divider) * 44_000_000) / (raw as int)) as u32
    }
}

// ---------------------------------------------------------------------
// Executable encoders.
// ---------------------------------------------------------------------

/// Encode the shared En register byte of a device configuration.
pub(crate) fn encode_en(c: &DeviceConfig) -> (r: u8)
    ensures
        r == en_config_byte(*c),
{
    let m0: u8 = match c.ch0.mode {
        ChannelMode::Disabled => 0,
        ChannelMode::NormalMode => 0x01,
        ChannelMode::NormalAndLowPowerMode => 0x01 | 0x10,
    };
    let m1: u8 = match c.ch1.mode {
        ChannelMode::Disabled => 0,
        ChannelMode::NormalMode => 0x02,
        ChannelMode::NormalAndLowPowerMode => 0x02 | 0x20,
    };
    let m2: u8 = match c.ch2.mode {
        ChannelMode::Disabled => 0,
        ChannelMode::NormalMode => 0x04,
        ChannelMode::NormalAndLowPowerMode => 0x04 | 0x40,
    };
    let m3: u8 = match c.ch3.mode {
        ChannelMode::Disabled => 0,
        ChannelMode::NormalMode => 0x08,
        ChannelMode::NormalAndLowPowerMode => 0x08 | 0x80,
    };
    m0 | m1 | m2 | m3
}

/// Encode the IntPol register byte of a device configuration.
pub(crate) fn encode_intpol(c: &DeviceConfig) -> (r: u8)
    ensures
        r == intpol_byte(*c),
{
    let reset: u8 = if c.enable_reset_of_button_baseline_tracking {
        BTSRT_EN
    } else {
        0
    };
    let alg: u8 = if c.enable_button_press_detection_algorithm {
        BTN_ALG_EN
    } else {
        0
    };
    let pol: u8 = if matches!(c.interrupt_polarity, InterruptPolarity::ActiveHigh) {
        INTPOL
    } else {
        0
    };
    let timeout: u8 = if !c.enable_button_timeout {
        DIS_BTN_TO
    } else {
        0
    };
    let maxout: u8 = if !c.enable_max_out_check {
        DIS_BTB_MO
    } else {
        0
    };
    reset | alg | pol | timeout | maxout
}

/// Encode the shared BtPauseMaxWin register byte of a device
/// configuration.
pub(crate) fn encode_btpause_maxwin(c: &DeviceConfig) -> (r: u8)
    ensures
        r == btpause_maxwin_byte(*c),
{
    let p0: u8 = if c.ch0.baseline_tracking_pause {
        0x10
    } else {
        0
    };
    let p1: u8 = if c.ch1.baseline_tracking_pause {
        0x20
    } else {
        0
    };
    let p2: u8 = if c.ch2.baseline_tracking_pause {
        0x40
    } else {
        0
    };
    let p3: u8 = if c.ch3.baseline_tracking_pause {
        0x80
    } else {
        0
    };
    let w0: u8 = if c.ch0.enable_max_win_button_algorithm {
        0x01
    } else {
        0
    };
    let w1: u8 = if c.ch1.enable_max_win_button_algorithm {
        0x02
    } else {
        0
    };
    let w2: u8 = if c.ch2.enable_max_win_button_algorithm {
        0x04
    } else {
        0
    };
    let w3: u8 = if c.ch3.enable_max_win_button_algorithm {
        0x08
    } else {
        0
    };
    p0 | p1 | p2 | p3 | w0 | w1 | w2 | w3
}

/// Encode the shared CommonDeform register byte of a device
/// configuration.
pub(crate) fn encode_common_deform(c: &DeviceConfig) -> (r: u8)
    ensures
        r == common_deform_byte(*c),
{
    let a0: u8 = if c.ch0.enable_anticommon_algorithm {
        0x10
    } else {
        0
    };
    let a1: u8 = if c.ch1.enable_anticommon_algorithm {
        0x20
    } else {
        0
    };
    let a2: u8 = if c.ch2.enable_anticommon_algorithm {
        0x40
    } else {
        0
    };
    let a3: u8 = if c.ch3.enable_anticommon_algorithm {
        0x80
    } else {
        0
    };
    let d0: u8 = if c.ch0.enable_antideform_algorithm {
        0x01
    } else {
        0
    };
    let d1: u8 = if c.ch1.enable_antideform_algorithm {
        0x02
    } else {
        0
    };
    let d2: u8 = if c.ch2.enable_antideform_algorithm {
        0x04
    } else {
        0
    };
    let d3: u8 = if c.ch3.enable_antideform_algorithm {
        0x08
    } else {
        0
    };
    a0 | a1 | a2 | a3 | d0 | d1 | d2 | d3
}

/// Encode the shared OpolDpol register byte of a device
/// configuration.
pub(crate) fn encode_opol_dpol(c: &DeviceConfig) -> (r: u8)
    ensures
        r == opol_dpol_byte(*c),
{
    let o0: u8 = if matches!(c.ch0.output_polarity, OutputPolarity::ActiveHigh) {
        0x10
    } else {
        0
    };
    let o1: u8 = if matches!(c.ch1.output_polarity, OutputPolarity::ActiveHigh) {
        0x20
    } else {
        0
    };
    let o2: u8 = if matches!(c.ch2.output_polarity, OutputPolarity::ActiveHigh) {
        0x40
    } else {
        0
    };
    let o3: u8 = if matches!(c.ch3.output_polarity, OutputPolarity::ActiveHigh) {
        0x80
    } else {
        0
    };
    let d0: u8 = if matches!(c.ch0.data_polarity, DataPolarity::Normal) {
        0x01
    } else {
        0
    };
    let d1: u8 = if matches!(c.ch1.data_polarity, DataPolarity::Normal) {
        0x02
    } else {
        0
    };
    let d2: u8 = if matches!(c.ch2.data_polarity, DataPolarity::Normal) {
        0x04
    } else {
        0
    };
    let d3: u8 = if matches!(c.ch3.data_polarity, DataPolarity::Normal) {
        0x08
    } else {
        0
    };
    o0 | o1 | o2 | o3 | d0 | d1 | d2 | d3
}

/// Encode the shared Cntsc register byte of a device configuration:
/// every channel's field holds that channel's own configured scale.
pub(crate) fn encode_cntsc(c: &DeviceConfig) -> (r: u8)
    ensures
        r == cntsc_byte(*c),
{
    c.ch0.counter_scale.code() | (c.ch1.counter_scale.code() << 2) | (c.ch2.counter_scale.code()
        << 4) | (c.ch3.counter_scale.code() << 6)
}

/// Encode a sensor configuration register byte.
pub(crate) fn encode_sensor_config(s: &SensorConfig) -> (r: u8)
    ensures
        r == sensor_config_byte(*s),
{
    s.rp_range.code() | s.frequency_range.code() | s.cycle_count
}

// ---------------------------------------------------------------------
// The transaction sequences of the composite operations.
// ---------------------------------------------------------------------

/// The fixed sequence of register writes that applies an entire
/// device configuration.
pub open spec fn device_config_ops(c: DeviceConfig) -> Seq<BusTransaction> {
    seq![
        write_transaction(Register::En.addr(), en_config_byte(c)),
        write_transaction(Register::Gain0.addr(), c.ch0.gain),
        write_transaction(Register::Gain1.addr(), c.ch1.gain),
        write_transaction(Register::Gain2.addr(), c.ch2.gain),
        write_transaction(Register::Gain3.addr(), c.ch3.gain),
        write_transaction(Register::NpScanRate.addr(), c.scan_rate.spec_code()),
        write_transaction(Register::LpScanRate.addr(), c.low_power_scan_rate.spec_code()),
        write_transaction(Register::IntPol.addr(), intpol_byte(c)),
        write_transaction(Register::NpBaseInc.addr(), c.baseline_tracking_increment_np),
        write_transaction(Register::LpBaseInc.addr(), c.baseline_tracking_increment_lp),
        write_transaction(Register::BtPauseMaxWin.addr(), btpause_maxwin_byte(c)),
        write_transaction(Register::LcDivider.addr(), c.lc_divider),
        write_transaction(Register::Hyst.addr(), c.hysteresis),
        write_transaction(Register::Twist.addr(), c.antitwist),
        write_transaction(Register::CommonDeform.addr(), common_deform_byte(c)),
        write_transaction(Register::OpolDpol.addr(), opol_dpol_byte(c)),
        write_transaction(Register::Cntsc.addr(), cntsc_byte(c)),
        write_transaction(Register::Sensor0Config.addr(), sensor_config_byte(c.ch0.sensor_config)),
        write_transaction(Register::Sensor1Config.addr(), sensor_config_byte(c.ch1.sensor_config)),
        write_transaction(Register::Sensor2Config.addr(), sensor_config_byte(c.ch2.sensor_config)),
        write_transaction(Register::Sensor3Config.addr(), sensor_config_byte(c.ch3.sensor_config)),
        write_transaction(Register::Ftf0.addr(), ftf0_byte(c)),
        write_transaction(Register::Ftf1_2.addr(), ftf1_2_byte(c)),
        write_transaction(Register::Ftf3.addr(), ftf3_byte(c)),
    ]
}

/// The sequence of transactions that applies one channel's full
/// configuration through the individual setters, when the nine
/// read-modify-write reads returned the bytes `v[0]` to `v[8]`.
pub open spec fn channel_config_ops(ch: u8, c: ChannelConfig, v: Seq<u8>) -> Seq<BusTransaction>
    recommends
        v.len() == 9,
{
    seq![
        read_transaction(Register::En.addr(), v[0]),
        write_transaction(Register::En.addr(), apply_mode(v[0], ch, c.mode)),
        write_transaction(gain_register(ch).addr(), c.gain),
        read_transaction(Register::OpolDpol.addr(), v[1]),
        write_transaction(
            Register::OpolDpol.addr(),
            apply_bit(v[1], opol_bit(ch), c.output_polarity is ActiveHigh),
        ),
        read_transaction(Register::Cntsc.addr(), v[2]),
        write_transaction(
            Register::Cntsc.addr(),
            apply_field(v[2], cntsc_mask(ch), cntsc_offset(ch), c.counter_scale.spec_code()),
        ),
        read_transaction(ftf_register(ch).addr(), v[3]),
        write_transaction(
            ftf_register(ch).addr(),
            apply_field(v[3], ftf_mask(ch), ftf_offset(ch), c.fast_tracking_factor.spec_code()),
        ),
        read_transaction(Register::OpolDpol.addr(), v[4]),
        write_transaction(
            Register::OpolDpol.addr(),
            apply_bit(v[4], dpol_bit(ch), c.data_polarity is Normal),
        ),
        write_transaction(sensor_config_register(ch).addr(), sensor_config_byte(c.sensor_config)),
        read_transaction(Register::BtPauseMaxWin.addr(), v[5]),
        write_transaction(
            Register::BtPauseMaxWin.addr(),
            apply_bit(v[5], maxwin_bit(ch), c.enable_max_win_button_algorithm),
        ),
        read_transaction(Register::CommonDeform.addr(), v[6]),
        write_transaction(
            Register::CommonDeform.addr(),
            apply_bit(v[6], anticom_bit(ch), c.enable_anticommon_algorithm),
        ),
        read_transaction(Register::CommonDeform.addr(), v[7]),
        write_transaction(
            Register::CommonDeform.addr(),
            apply_bit(v[7], antidform_bit(ch), c.enable_antideform_algorithm),
        ),
        read_transaction(Register::BtPauseMaxWin.addr(), v[8]),
        write_transaction(
            Register::BtPauseMaxWin.addr(),
            apply_bit(v[8], btpause_bit(ch), c.baseline_tracking_pause),
        ),
    ]
}

// ---------------------------------------------------------------------
// The register image of a device configuration, and its decoding.
// ---------------------------------------------------------------------

/// The bytes that [`crate::Ldc3114::set_device_configuration`] writes,
/// one field per register, in the order the registers are written.
#[derive(Clone, Copy, Debug, PartialEq, Eq, Structural)]
pub struct ConfigImage {
    /// The shared En register byte.
    pub en: u8,
    /// The four gain register bytes.
    pub gain0: u8,
    /// The gain register byte of channel 1.
    pub gain1: u8,
    /// The gain register byte of channel 2.
    pub gain2: u8,
    /// The gain register byte of channel 3.
    pub gain3: u8,
    /// The normal power scan rate byte.
    pub np_scan_rate: u8,
    /// The low power scan rate byte.
    pub lp_scan_rate: u8,
    /// The IntPol register byte.
    pub int_pol: u8,
    /// The normal power baseline increment byte.
    pub np_base_inc: u8,
    /// The low power baseline increment byte.
    pub lp_base_inc: u8,
    /// The shared BtPauseMaxWin register byte.
    pub bt_pause_max_win: u8,
    /// The LC divider byte.
    pub lc_divider: u8,
    /// The hysteresis byte.
    pub hysteresis: u8,
    /// The anti-twist byte.
    pub antitwist: u8,
    /// The shared CommonDeform register byte.
    pub common_deform: u8,
    /// The shared OpolDpol register byte.
    pub opol_dpol: u8,
    /// The shared Cntsc register byte.
    pub cntsc: u8,
    /// The four sensor configuration register bytes.
    pub sensor0: u8,
    /// The sensor configuration register byte of channel 1.
    pub sensor1: u8,
    /// The sensor configuration register byte of channel 2.
    pub sensor2: u8,
    /// The sensor configuration register byte of channel 3.
    pub sensor3: u8,
    /// The Ftf0 register byte.
    pub ftf0: u8,
    /// The Ftf1_2 register byte.
    pub ftf1_2: u8,
    /// The Ftf3 register byte.
    pub ftf3: u8,
}

/// The register image that a device configuration encodes into.
pub open spec fn encode_device_config(c: DeviceConfig) -> ConfigImage {
    ConfigImage {
        en: en_config_byte(c),
        gain0: c.ch0.gain,
        gain1: c.ch1.gain,
        gain2: c.ch2.gain,
        gain3: c.ch3.gain,
        np_scan_rate: c.scan_rate.spec_code(),
        lp_scan_rate: c.low_power_scan_rate.spec_code(),
        int_pol: intpol_byte(c),
        np_base_inc: c.baseline_tracking_increment_np,
        lp_base_inc: c.baseline_tracking_increment_lp,
        bt_pause_max_win: btpause_maxwin_byte(c),
        lc_divider: c.lc_divider,
        hysteresis: c.hysteresis,
        antitwist: c.antitwist,
        common_deform: common_deform_byte(c),
        opol_dpol: opol_dpol_byte(c),
        cntsc: cntsc_byte(c),
        sensor0: sensor_config_byte(c.ch0.sensor_config),
        sensor1: sensor_config_byte(c.ch1.sensor_config),
        sensor2: sensor_config_byte(c.ch2.sensor_config),
        sensor3: sensor_config_byte(c.ch3.sensor_config),
        ftf0: ftf0_byte(c),
        ftf1_2: ftf1_2_byte(c),
        ftf3: ftf3_byte(c),
    }
}

/// The operating mode of channel `ch` encoded in an En register
/// byte.
pub open spec fn mode_from_en_byte(en: u8, ch: u8) -> ChannelMode {
    if en & lpen_bit(ch) != 0 {
        ChannelMode::NormalAndLowPowerMode
    } else if en & en_bit(ch) != 0 {
        ChannelMode::NormalMode
    } else {
        ChannelMode::Disabled
    }
}

/// The sensor configuration encoded in a sensor configuration
/// register byte, if its frequency range field holds a defined code.
pub open spec fn sensor_config_from_byte(b: u8) -> Option<SensorConfig> {
    match frequency_range_from_field(b & 0x60) {
        None => None,
        Some(fr) => Some(
            SensorConfig {
                rp_range: if b & 0x80 != 0 {
                    RpRange::Rp800OhmTo10kOhm
                } else {
                    RpRange::Rp50OhmTo4kOhm
                },
                frequency_range: fr,
                cycle_count: b & 0x1F,
            },
        ),
    }
}

/// The gain register byte of channel `ch` in a register image.
pub open spec fn image_gain(img: ConfigImage, ch: u8) -> u8 {
    if ch == 0 {
        img.gain0
    } else if ch == 1 {
        img.gain1
    } else if ch == 2 {
        img.gain2
    } else {
        img.gain3
    }
}

/// The sensor configuration register byte of channel `ch` in a
/// register image.
pub open spec fn image_sensor(img: ConfigImage, ch: u8) -> u8 {
    if ch == 0 {
        img.sensor0
    } else if ch == 1 {
        img.sensor1
    } else if ch == 2 {
        img.sensor2
    } else {
        img.sensor3
    }
}

/// The fast-tracking register byte that holds channel `ch`'s field in
/// a register image.
pub open spec fn image_ftf(img: ConfigImage, ch: u8) -> u8 {
    if ch == 0 {
        img.ftf0
    } else if ch == 3 {
        img.ftf3
    } else {
        img.ftf1_2
    }
}

/// The configuration of channel `ch` encoded in a register image, if
/// every field of it holds a value inside its domain.
pub open spec fn channel_config_from_image(img: ConfigImage, ch: u8) -> Option<ChannelConfig> {
    if image_gain(img, ch) >= 64 {
        None
    } else {
        match sensor_config_from_byte(image_sensor(img, ch)) {
            None => None,
            Some(sensor) => Some(
                ChannelConfig {
                    mode: mode_from_en_byte(img.en, ch),
                    gain: image_gain(img, ch),
                    output_polarity: if img.opol_dpol & opol_bit(ch) != 0 {
                        OutputPolarity::ActiveHigh
                    } else {
                        OutputPolarity::ActiveLow
                    },
                    data_polarity: if img.opol_dpol & dpol_bit(ch) != 0 {
                        DataPolarity::Normal
                    } else {
                        DataPolarity::Inverted
                    },
                    counter_scale: counter_scale_from_field(
                        (img.cntsc >> cntsc_offset(ch)) & 3,
                    ),
                    sensor_config: sensor,
                    fast_tracking_factor: fast_tracking_factor_from_field(
                        (image_ftf(img, ch) >> ftf_offset(ch)) & 3,
                    ),
                    enable_anticommon_algorithm: img.common_deform & anticom_bit(ch) != 0,
                    enable_antideform_algorithm: img.common_deform & antidform_bit(ch) != 0,
                    enable_max_win_button_algorithm: img.bt_pause_max_win & maxwin_bit(ch) != 0,
                    baseline_tracking_pause: img.bt_pause_max_win & btpause_bit(ch) != 0,
                },
            ),
        }
    }
}

/// The device configuration encoded in a register image, if every
/// field of it holds a value inside its domain.
pub open spec fn device_config_from_image(img: ConfigImage) -> Option<DeviceConfig> {
    if img.np_base_inc >= 8 || img.lp_base_inc >= 8 || img.lc_divider >= 8 || img.hysteresis >= 16
        || img.antitwist >= 8 {
        None
    } else {
        match (channel_config_from_image(img, 0), channel_config_from_image(img, 1)) {
            (Some(ch0), Some(ch1)) => match (
                channel_config_from_image(img, 2),
                channel_config_from_image(img, 3),
            ) {
                (Some(ch2), Some(ch3)) => match (
                    scan_rate_from_code(img.np_scan_rate),
                    low_power_scan_rate_from_code(img.lp_scan_rate),
                ) {
                    (Some(scan_rate), Some(low_power_scan_rate)) => Some(
                        DeviceConfig {
                            ch0,
                            ch1,
                            ch2,
                            ch3,
                            scan_rate,
                            low_power_scan_rate,
                            enable_max_out_check: img.int_pol & DIS_BTB_MO == 0,
                            enable_button_timeout: img.int_pol & DIS_BTN_TO == 0,
                            interrupt_polarity: if img.int_pol & INTPOL != 0 {
                                InterruptPolarity::ActiveHigh
                            } else {
                                InterruptPolarity::ActiveLow
                            },
                            enable_button_press_detection_algorithm: img.int_pol & BTN_ALG_EN != 0,
                            enable_reset_of_button_baseline_tracking: img.int_pol & BTSRT_EN != 0,
                            baseline_tracking_increment_np: img.np_base_inc,
                            baseline_tracking_increment_lp: img.lp_base_inc,
                            lc_divider: img.lc_divider,
                            hysteresis: img.hysteresis,
                            antitwist: img.antitwist,
                        },
                    ),
                    _ => None,
                },
                _ => None,
            },
            _ => None,
        }
    }
}

/// Decode a sensor configuration register byte into a typed sensor
/// configuration, if its frequency range field holds a defined code.
pub fn decode_sensor_config(b: u8) -> (r: Option<SensorConfig>)
    ensures
        r == sensor_config_from_byte(b),
{
    let field = b & 0x60;
    let fr = if field == 0x00 {
        Some(FrequencyRange::Freq1MHzTo3_3MHz)
    } else if field == 0x20 {
        Some(FrequencyRange::Freq3_3MHzTo10MHz)
    } else if field == 0x40 {
        Some(FrequencyRange::Freq10MHzTo30MHz)
    } else {
        None
    };
    match fr {
        None => None,
        Some(frequency_range) => Some(
            SensorConfig {
                rp_range: if b & 0x80 != 0 {
                    RpRange::Rp800OhmTo10kOhm
                } else {
                    RpRange::Rp50OhmTo4kOhm
                },
                frequency_range,
                cycle_count: b & 0x1F,
            },
        ),
    }
}

/// Decode the configuration of channel `ch` out of a register image,
/// if every field of it holds a value inside its domain.
pub fn decode_channel_config(img: &ConfigImage, ch: u8) -> (r: Option<ChannelConfig>)
    ensures
        r == channel_config_from_image(*img, ch),
{
    let gain = if ch == 0 {
        img.gain0
    } else if ch == 1 {
        img.gain1
    } else if ch == 2 {
        img.gain2
    } else {
        img.gain3
    };
    if gain >= 64 {
        return None;
    }
    let sensor_byte = if ch == 0 {
        img.sensor0
    } else if ch == 1 {
        img.sensor1
    } else if ch == 2 {
        img.sensor2
    } else {
        img.sensor3
    };
    let sensor = match decode_sensor_config(sensor_byte) {
        None => {
            return None;
        },
        Some(s) => s,
    };
    let enb = if ch == 0 {
        0x01
    } else if ch == 1 {
        0x02
    } else if ch == 2 {
        0x04
    } else {
        0x08
    };
    let lpenb = if ch == 0 {
        0x10
    } else if ch == 1 {
        0x20
    } else if ch == 2 {
        0x40
    } else {
        0x80
    };
    let mode = if img.en & lpenb != 0 {
        ChannelMode::NormalAndLowPowerMode
    } else if img.en & enb != 0 {
        ChannelMode::NormalMode
    } else {
        ChannelMode::Disabled
    };
    let opolb = if ch == 0 {
        0x10
    } else if ch == 1 {
        0x20
    } else if ch == 2 {
        0x40
    } else {
        0x80
    };
    let dpolb = if ch == 0 {
        0x01
    } else if ch == 1 {
        0x02
    } else if ch == 2 {
        0x04
    } else {
        0x08
    };
    let anticomb = if ch == 0 {
        0x10
    } else if ch == 1 {
        0x20
    } else if ch == 2 {
        0x40
    } else {
        0x80
    };
    let antidformb = if ch == 0 {
        0x01
    } else if ch == 1 {
        0x02
    } else if ch == 2 {
        0x04
    } else {
        0x08
    };
    let maxwinb = if ch == 0 {
        0x01
    } else if ch == 1 {
        0x02
    } else if ch == 2 {
        0x04
    } else {
        0x08
    };
    let btpauseb = if ch == 0 {
        0x10
    } else if ch == 1 {
        0x20
    } else if ch == 2 {
        0x40
    } else {
        0x80
    };
    let cntsc_off: u8 = if ch == 0 {
        0
    } else if ch == 1 {
        2
    } else if ch == 2 {
        4
    } else {
        6
    };
    let ftf_byte = if ch == 0 {
        img.ftf0
    } else if ch == 3 {
        img.ftf3
    } else {
        img.ftf1_2
    };
    let ftf_off: u8 = if ch == 0 {
        1
    } else if ch == 1 {
        4
    } else if ch == 2 {
        6
    } else {
        0
    };
    let scale_field = (img.cntsc >> cntsc_off) & 3;
    let scale = if scale_field == 0 {
        CounterScale::Zero
    } else if scale_field == 1 {
        CounterScale::One
    } else if scale_field == 2 {
        CounterScale::Two
    } else {
        CounterScale::Three
    };
    let ftf_field = (ftf_byte >> ftf_off) & 3;
    let factor = if ftf_field == 0 {
        FastTrackingFactor::Zero
    } else if ftf_field == 1 {
        FastTrackingFactor::One
    } else if ftf_field == 2 {
        FastTrackingFactor::Two
    } else {
        FastTrackingFactor::Three
    };
    Some(
        ChannelConfig {
            mode,
            gain,
            output_polarity: if img.opol_dpol & opolb != 0 {
                OutputPolarity::ActiveHigh
            } else {
                OutputPolarity::ActiveLow
            },
            data_polarity: if img.opol_dpol & dpolb != 0 {
                DataPolarity::Normal
            } else {
                DataPolarity::Inverted
            },
            counter_scale: scale,
            sensor_config: sensor,
            fast_tracking_factor: factor,
            enable_anticommon_algorithm: img.common_deform & anticomb != 0,
            enable_antideform_algorithm: img.common_deform & antidformb != 0,
            enable_max_win_button_algorithm: img.bt_pause_max_win & maxwinb != 0,
            baseline_tracking_pause: img.bt_pause_max_win & btpauseb != 0,
        },
    )
}

/// Decode a register image into a typed device configuration, if
/// every field of it holds a value inside its domain.
pub fn decode_device_config(img: &ConfigImage) -> (r: Option<DeviceConfig>)
    ensures
        r == device_config_from_image(*img),
{
    if img.np_base_inc >= 8 || img.lp_base_inc >= 8 || img.lc_divider >= 8 || img.hysteresis >= 16
        || img.antitwist >= 8 {
        return None;
    }
    let ch0 = match decode_channel_config(img, 0) {
        None => {
            return None;
        },
        Some(v) => v,
    };
    let ch1 = match decode_channel_config(img, 1) {
        None => {
            return None;
        },
        Some(v) => v,
    };
    let ch2 = match decode_channel_config(img, 2) {
        None => {
            return None;
        },
        Some(v) => v,
    };
    let ch3 = match decode_channel_config(img, 3) {
        None => {
            return None;
        },
        Some(v) => v,
    };
    let scan_rate = if img.np_scan_rate == 0x04 {
        Some(ScanRate::Continuous)
    } else if img.np_scan_rate == 0x08 {
        Some(ScanRate::Highest)
    } else if img.np_scan_rate == 0x00 {
        Some(ScanRate::High)
    } else if img.np_scan_rate == 0x01 {
        Some(ScanRate::Medium)
    } else if img.np_scan_rate == 0x02 {
        Some(ScanRate::Low)
    } else if img.np_scan_rate == 0x03 {
        Some(ScanRate::Lowest)
    } else {
        None
    };
    let scan_rate = match scan_rate {
        None => {
            return None;
        },
        Some(v) => v,
    };
    let low_power_scan_rate = if img.lp_scan_rate == 0x00 {
        Some(LowPowerScanRate::Highest)
    } else if img.lp_scan_rate == 0x01 {
        Some(LowPowerScanRate::High)
    } else if img.lp_scan_rate == 0x02 {
        Some(LowPowerScanRate::Medium)
    } else if img.lp_scan_rate == 0x03 {
        Some(LowPowerScanRate::Low)
    } else {
        None
    };
    let low_power_scan_rate = match low_power_scan_rate {
        None => {
            return None;
        },
        Some(v) => v,
    };
    Some(
        DeviceConfig {
            ch0,
            ch1,
            ch2,
            ch3,
            scan_rate,
            low_power_scan_rate,
            enable_max_out_check: img.int_pol & DIS_BTB_MO == 0,
            enable_button_timeout: img.int_pol & DIS_BTN_TO == 0,
            interrupt_polarity: if img.int_pol & INTPOL != 0 {
                InterruptPolarity::ActiveHigh
            } else {
                InterruptPolarity::ActiveLow
            },
            enable_button_press_detection_algorithm: img.int_pol & BTN_ALG_EN != 0,
            enable_reset_of_button_baseline_tracking: img.int_pol & BTSRT_EN != 0,
            baseline_tracking_increment_np: img.np_base_inc,
            baseline_tracking_increment_lp: img.lp_base_inc,
            lc_divider: img.lc_divider,
            hysteresis: img.hysteresis,
            antitwist: img.antitwist,
        },
    )
}

} // verus!
