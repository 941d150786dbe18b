//! The register map: every addressable register with its fixed address and
//! read-only classification, the named bit positions inside the registers
//! that are shared between channels, and the per-channel capability trait
//! that locates one channel's bits and registers.

use crate::ChannelMode;
use vstd::prelude::*;

verus! {

/// LDC3114 registers.
#[derive(Clone, Copy, Debug, PartialEq, Eq, Structural)]
#[allow(missing_docs)]
pub enum Register {
    Status,
    Out,
    Data0Lsb,
    Data0Msb,
    Data1Lsb,
    Data1Msb,
    Data2Lsb,
    Data2Msb,
    Data3Lsb,
    Data3Msb,
    Reset,
    En,
    NpScanRate,
    Gain0,
    LpScanRate,
    Gain1,
    IntPol,
    Gain2,
    LpBaseInc,
    Gain3,
    NpBaseInc,
    BtPauseMaxWin,
    LcDivider,
    Hyst,
    Twist,
    CommonDeform,
    OpolDpol,
    Cntsc,
    Sensor0Config,
    Sensor1Config,
    Sensor2Config,
    Ftf0,
    Sensor3Config,
    Ftf1_2,
    Ftf3,
    RawData0_3,
    RawData0_2,
    RawData0_1,
    RawData1_3,
    RawData1_2,
    RawData1_1,
    RawData2_3,
    RawData2_2,
    RawData2_1,
    RawData3_3,
    RawData3_2,
    RawData3_1,
    ManufacturerIdLsb,
    ManufacturerIdMsb,
    DeviceIdLsb,
    DeviceIdMsb,
}

impl Register {
    /// The bus address of the register.
    pub open spec fn spec_addr(self) -> u8 {
        match self {
            Register::Status => 0x00,
            Register::Out => 0x01,
            Register::Data0Lsb => 0x02,
            Register::Data0Msb => 0x03,
            Register::Data1Lsb => 0x04,
            Register::Data1Msb => 0x05,
            Register::Data2Lsb => 0x06,
            Register::Data2Msb => 0x07,
            Register::Data3Lsb => 0x08,
            Register::Data3Msb => 0x09,
            Register::Reset => 0x0A,
            Register::En => 0x0C,
            Register::NpScanRate => 0x0D,
            Register::Gain0 => 0x0E,
            Register::LpScanRate => 0x0F,
            Register::Gain1 => 0x10,
            Register::IntPol => 0x11,
            Register::Gain2 => 0x12,
            Register::LpBaseInc => 0x13,
            Register::Gain3 => 0x14,
            Register::NpBaseInc => 0x15,
            Register::BtPauseMaxWin => 0x16,
            Register::LcDivider => 0x17,
            Register::Hyst => 0x18,
            Register::Twist => 0x19,
            Register::CommonDeform => 0x1A,
            Register::OpolDpol => 0x1C,
            Register::Cntsc => 0x1E,
            Register::Sensor0Config => 0x20,
            Register::Sensor1Config => 0x22,
            Register::Sensor2Config => 0x24,
            Register::Ftf0 => 0x25,
            Register::Sensor3Config => 0x26,
            Register::Ftf1_2 => 0x28,
            Register::Ftf3 => 0x2B,
            Register::RawData0_3 => 0x59,
            Register::RawData0_2 => 0x5A,
            Register::RawData0_1 => 0x5B,
            Register::RawData1_3 => 0x5C,
            Register::RawData1_2 => 0x5D,
            Register::RawData1_1 => 0x5E,
            Register::RawData2_3 => 0x5F,
            Register::RawData2_2 => 0x60,
            Register::RawData2_1 => 0x61,
            Register::RawData3_3 => 0x62,
            Register::RawData3_2 => 0x63,
            Register::RawData3_1 => 0x64,
            Register::ManufacturerIdLsb => 0xFC,
            Register::ManufacturerIdMsb => 0xFD,
            Register::DeviceIdLsb => 0xFE,
            Register::DeviceIdMsb => 0xFF,
        }
    }

    /// Get the address of the register.
    #[verifier::when_used_as_spec(spec_addr)]
    pub fn addr(self) -> (r: u8)
        ensures
            r == self.spec_addr(),
    {
        match self {
            Register::Status => 0x00,
            Register::Out => 0x01,
            Register::Data0Lsb => 0x02,
            Register::Data0Msb => 0x03,
            Register::Data1Lsb => 0x04,
            Register::Data1Msb => 0x05,
            Register::Data2Lsb => 0x06,
            Register::Data2Msb => 0x07,
            Register::Data3Lsb => 0x08,
            Register::Data3Msb => 0x09,
            Register::Reset => 0x0A,
            Register::En => 0x0C,
            Register::NpScanRate => 0x0D,
            Register::Gain0 => 0x0E,
            Register::LpScanRate => 0x0F,
            Register::Gain1 => 0x10,
            Register::IntPol => 0x11,
            Register::Gain2 => 0x12,
            Register::LpBaseInc => 0x13,
            Register::Gain3 => 0x14,
            Register::NpBaseInc => 0x15,
            Register::BtPauseMaxWin => 0x16,
            Register::LcDivider => 0x17,
            Register::Hyst => 0x18,
            Register::Twist => 0x19,
            Register::CommonDeform => 0x1A,
            Register::OpolDpol => 0x1C,
            Register::Cntsc => 0x1E,
            Register::Sensor0Config => 0x20,
            Register::Sensor1Config => 0x22,
            Register::Sensor2Config => 0x24,
            Register::Ftf0 => 0x25,
            Register::Sensor3Config => 0x26,
            Register::Ftf1_2 => 0x28,
            Register::Ftf3 => 0x2B,
            Register::RawData0_3 => 0x59,
            Register::RawData0_2 => 0x5A,
            Register::RawData0_1 => 0x5B,
            Register::RawData1_3 => 0x5C,
            Register::RawData1_2 => 0x5D,
            Register::RawData1_1 => 0x5E,
            Register::RawData2_3 => 0x5F,
            Register::RawData2_2 => 0x60,
            Register::RawData2_1 => 0x61,
            Register::RawData3_3 => 0x62,
            Register::RawData3_2 => 0x63,
            Register::RawData3_1 => 0x64,
            Register::ManufacturerIdLsb => 0xFC,
            Register::ManufacturerIdMsb => 0xFD,
            Register::DeviceIdLsb => 0xFE,
            Register::DeviceIdMsb => 0xFF,
        }
    }

    /// Whether the register is classified read-only: status, output,
    /// processed-data, raw-data and identification registers.
    pub open spec fn spec_is_read_only(self) -> bool {
        matches!(
            self,
            Register::Status
                | Register::Out
                | Register::Data0Lsb
                | Register::Data0Msb
                | Register::Data1Lsb
                | Register::Data1Msb
                | Register::Data2Lsb
                | Register::Data2Msb
                | Register::Data3Lsb
                | Register::Data3Msb
                | Register::RawData0_1
                | Register::RawData0_2
                | Register::RawData0_3
                | Register::RawData1_1
                | Register::RawData1_2
                | Register::RawData1_3
                | Register::RawData2_1
                | Register::RawData2_2
                | Register::RawData2_3
                | Register::RawData3_1
                | Register::RawData3_2
                | Register::RawData3_3
                | Register::DeviceIdLsb
                | Register::DeviceIdMsb
                | Register::ManufacturerIdLsb
                | Register::ManufacturerIdMsb
        )
    }

    /// Checks if the register is read-only.
    #[verifier::when_used_as_spec(spec_is_read_only)]
    pub fn is_read_only(self) -> (r: bool)
        ensures
            r == self.spec_is_read_only(),
    {
        matches!(
            self,
            Register::Status
                | Register::Out
                | Register::Data0Lsb
                | Register::Data0Msb
                | Register::Data1Lsb
                | Register::Data1Msb
                | Register::Data2Lsb
                | Register::Data2Msb
                | Register::Data3Lsb
                | Register::Data3Msb
                | Register::RawData0_1
                | Register::RawData0_2
                | Register::RawData0_3
                | Register::RawData1_1
                | Register::RawData1_2
                | Register::RawData1_3
                | Register::RawData2_1
                | Register::RawData2_2
                | Register::RawData2_3
                | Register::RawData3_1
                | Register::RawData3_2
                | Register::RawData3_3
                | Register::DeviceIdLsb
                | Register::DeviceIdMsb
                | Register::ManufacturerIdLsb
                | Register::ManufacturerIdMsb
        )
    }
}

// Status register bits.
pub const OUT_STATUS: u8 = 0x80;
pub const CHIP_READY: u8 = 0x40;
pub const RDY_TO_WRITE: u8 = 0x20;
pub const MAXOUT: u8 = 0x10;
pub const FSM_WD: u8 = 0x08;
pub const LC_WD: u8 = 0x04;
pub const TIMEOUT: u8 = 0x02;
pub const REGISTER_FLAG: u8 = 0x01;

// Out register bits.
pub const DATA_RDY: u8 = 0x10;
pub const OUT3: u8 = 0x08;
pub const OUT2: u8 = 0x04;
pub const OUT1: u8 = 0x02;
pub const OUT0: u8 = 0x01;

// Reset register codes.
pub const FULL_RESET: u8 = 0x10;
pub const CONFIG_MODE: u8 = 0x01;

// IntPol register bits.
pub const BTSRT_EN: u8 = 0x10;
pub const BTN_ALG_EN: u8 = 0x08;
pub const INTPOL: u8 = 0x04;
pub const DIS_BTN_TO: u8 = 0x02;
pub const DIS_BTB_MO: u8 = 0x01;

/// This channel's enable bit in the shared En register.
pub open spec fn en_bit(ch: u8) -> u8 {
    if ch == 0 {
        0x01
    } else if ch == 1 {
        0x02
    } else if ch == 2 {
        0x04
    } else {
        0x08
    }
}

/// This channel's low-power enable bit in the shared En register.
pub open spec fn lpen_bit(ch: u8) -> u8 {
    if ch == 0 {
        0x10
    } else if ch == 1 {
        0x20
    } else if ch == 2 {
        0x40
    } else {
        0x80
    }
}

/// This channel's baseline-tracking-pause bit in the shared
/// BtPauseMaxWin register.
pub open spec fn btpause_bit(ch: u8) -> u8 {
    if ch == 0 {
        0x10
    } else if ch == 1 {
        0x20
    } else if ch == 2 {
        0x40
    } else {
        0x80
    }
}

/// This channel's max-win bit in the shared BtPauseMaxWin register.
pub open spec fn maxwin_bit(ch: u8) -> u8 {
    if ch == 0 {
        0x01
    } else if ch == 1 {
        0x02
    } else if ch == 2 {
        0x04
    } else {
        0x08
    }
}

/// This channel's output-polarity bit in the shared OpolDpol register.
pub open spec fn opol_bit(ch: u8) -> u8 {
    if ch == 0 {
        0x10
    } else if ch == 1 {
        0x20
    } else if ch == 2 {
        0x40
    } else {
        0x80
    }
}

/// This channel's data-polarity bit in the shared OpolDpol register.
pub open spec fn dpol_bit(ch: u8) -> u8 {
    if ch == 0 {
        0x01
    } else if ch == 1 {
        0x02
    } else if ch == 2 {
        0x04
    } else {
        0x08
    }
}

/// This channel's anticommon bit in the shared CommonDeform register.
pub open spec fn anticom_bit(ch: u8) -> u8 {
    if ch == 0 {
        0x10
    } else if ch == 1 {
        0x20
    } else if ch == 2 {
        0x40
    } else {
        0x80
    }
}

/// This channel's antideform bit in the shared CommonDeform register.
pub open spec fn antidform_bit(ch: u8) -> u8 {
    if ch == 0 {
        0x01
    } else if ch == 1 {
        0x02
    } else if ch == 2 {
        0x04
    } else {
        0x08
    }
}

/// The mask of this channel's two counter-scale bits in the shared
/// Cntsc register.
pub open spec fn cntsc_mask(ch: u8) -> u8 {
    if ch == 0 {
        0x03
    } else if ch == 1 {
        0x0C
    } else if ch == 2 {
        0x30
    } else {
        0xC0
    }
}

/// The offset of this channel's two counter-scale bits in the shared
/// Cntsc register.
pub open spec fn cntsc_offset(ch: u8) -> u8 {
    if ch == 0 {
        0
    } else if ch == 1 {
        2
    } else if ch == 2 {
        4
    } else {
        6
    }
}

/// The mask of this channel's two fast-tracking-factor bits inside its
/// fast-tracking register.  Channels 1 and 2 alias into the same
/// register at different offsets; channels 0 and 3 each have a
/// dedicated register.
pub open spec fn ftf_mask(ch: u8) -> u8 {
    if ch == 0 {
        0x06
    } else if ch == 1 {
        0x30
    } else if ch == 2 {
        0xC0
    } else {
        0x03
    }
}

/// The offset of this channel's two fast-tracking-factor bits inside
/// its fast-tracking register.
pub open spec fn ftf_offset(ch: u8) -> u8 {
    if ch == 0 {
        1
    } else if ch == 1 {
        4
    } else if ch == 2 {
        6
    } else {
        0
    }
}

/// This channel's individual gain register.
pub open spec fn gain_register(ch: u8) -> Register {
    if ch == 0 {
        Register::Gain0
    } else if ch == 1 {
        Register::Gain1
    } else if ch == 2 {
        Register::Gain2
    } else {
        Register::Gain3
    }
}

/// This channel's individual sensor-configuration register.
pub open spec fn sensor_config_register(ch: u8) -> Register {
    if ch == 0 {
        Register::Sensor0Config
    } else if ch == 1 {
        Register::Sensor1Config
    } else if ch == 2 {
        Register::Sensor2Config
    } else {
        Register::Sensor3Config
    }
}

/// The register holding this channel's fast-tracking-factor field.
pub open spec fn ftf_register(ch: u8) -> Register {
    if ch == 0 {
        Register::Ftf0
    } else if ch == 1 {
        Register::Ftf1_2
    } else if ch == 2 {
        Register::Ftf1_2
    } else {
        Register::Ftf3
    }
}

/// The first (least significant) register of this channel's two-byte
/// processed measurement.
pub open spec fn data_lsb_register(ch: u8) -> Register {
    if ch == 0 {
        Register::Data0Lsb
    } else if ch == 1 {
        Register::Data1Lsb
    } else if ch == 2 {
        Register::Data2Lsb
    } else {
        Register::Data3Lsb
    }
}

/// The first (least significant) register of this channel's three-byte
/// raw measurement.
pub open spec fn raw_data_lsb_register(ch: u8) -> Register {
    if ch == 0 {
        Register::RawData0_3
    } else if ch == 1 {
        Register::RawData1_3
    } else if ch == 2 {
        Register::RawData2_3
    } else {
        Register::RawData3_3
    }
}

/// The factory default operating mode of this channel.
pub open spec fn default_mode(ch: u8) -> ChannelMode {
    if ch == 0 {
        ChannelMode::NormalAndLowPowerMode
    } else {
        ChannelMode::NormalMode
    }
}

/// Channel registers: locates one logical channel's bits inside the
/// registers that all four channels share, and the registers that the
/// channel owns alone.  Implemented by the four marker types
/// [`Channel0`] to [`Channel3`], whose bit claims inside any shared
/// register are pairwise disjoint.
pub trait ChannelRegisters: Sized + Copy {
    /// The channel index.
    spec fn ch(&self) -> u8;

    /// The channel index lies in `[0, 4)`.
    proof fn ch_in_range(&self)
        ensures
            self.ch() < 4,
    ;

    /// The channel index.
    fn index(&self) -> (r: u8)
        ensures
            r == self.ch(),
    ;

    /// EN bit in the En register.
    fn en_bit(&self) -> (r: u8)
        ensures
            r == en_bit(self.ch()),
    ;

    /// LPEN bit in the En register.
    fn lpen_bit(&self) -> (r: u8)
        ensures
            r == lpen_bit(self.ch()),
    ;

    /// BTPAUSE bit in the BtPauseMaxWin register.
    fn btpause_bit(&self) -> (r: u8)
        ensures
            r == btpause_bit(self.ch()),
    ;

    /// MAXWIN bit in the BtPauseMaxWin register.
    fn maxwin_bit(&self) -> (r: u8)
        ensures
            r == maxwin_bit(self.ch()),
    ;

    /// OPOL bit in the OpolDpol register.
    fn opol_bit(&self) -> (r: u8)
        ensures
            r == opol_bit(self.ch()),
    ;

    /// DPOL bit in the OpolDpol register.
    fn dpol_bit(&self) -> (r: u8)
        ensures
            r == dpol_bit(self.ch()),
    ;

    /// ANTICOM bit in the CommonDeform register.
    fn anticom_bit(&self) -> (r: u8)
        ensures
            r == anticom_bit(self.ch()),
    ;

    /// ANTIDFORM bit in the CommonDeform register.
    fn antidform_bit(&self) -> (r: u8)
        ensures
            r == antidform_bit(self.ch()),
    ;

    /// Mask for the CNTSC bits in the Cntsc register.
    fn cntsc_mask(&self) -> (r: u8)
        ensures
            r == cntsc_mask(self.ch()),
    ;

    /// Offset to the CNTSC bits in the Cntsc register.
    fn cntsc_offset(&self) -> (r: u8)
        ensures
            r == cntsc_offset(self.ch()),
    ;

    /// Mask for the FTF bits in the FTF register for this channel.
    fn ftf_mask(&self) -> (r: u8)
        ensures
            r == ftf_mask(self.ch()),
    ;

    /// Offset to the FTF bits in the FTF register for this channel.
    fn ftf_offset(&self) -> (r: u8)
        ensures
            r == ftf_offset(self.ch()),
    ;

    /// Default mode.
    fn default_mode(&self) -> (r: ChannelMode)
        ensures
            r == default_mode(self.ch()),
    ;

    /// Get the DATA_LSB register for this channel.
    fn data_lsb(&self) -> (r: Register)
        ensures
            r == data_lsb_register(self.ch()),
    ;

    /// Get the RAW_DATA_LSB register for this channel.
    fn raw_data_lsb(&self) -> (r: Register)
        ensures
            r == raw_data_lsb_register(self.ch()),
    ;

    /// Get the GAIN register for this channel.
    fn gain(&self) -> (r: Register)
        ensures
            r == gain_register(self.ch()),
    ;

    /// Get the SENSOR_CONFIG register for this channel.
    fn sensor_config(&self) -> (r: Register)
        ensures
            r == sensor_config_register(self.ch()),
    ;

    /// Get the FTF register for this channel.
    fn ftf(&self) -> (r: Register)
        ensures
            r == ftf_register(self.ch()),
    ;
}

/// Representation of registers for channel 0.
#[derive(Clone, Copy, Debug)]
pub struct Channel0;

/// Representation of registers for channel 1.
#[derive(Clone, Copy, Debug)]
pub struct Channel1;

/// Representation of registers for channel 2.
#[derive(Clone, Copy, Debug)]
pub struct Channel2;

/// Representation of registers for channel 3.
#[derive(Clone, Copy, Debug)]
pub struct Channel3;

impl ChannelRegisters for Channel0 {
    open spec fn ch(&self) -> u8 {
        0
    }

    proof fn ch_in_range(&self) {
    }

    fn index(&self) -> u8 {
        0
    }

    fn en_bit(&self) -> u8 {
        0x01
    }

    fn lpen_bit(&self) -> u8 {
        0x10
    }

    fn btpause_bit(&self) -> u8 {
        0x10
    }

    fn maxwin_bit(&self) -> u8 {
        0x01
    }

    fn opol_bit(&self) -> u8 {
        0x10
    }

    fn dpol_bit(&self) -> u8 {
        0x01
    }

    fn anticom_bit(&self) -> u8 {
        0x10
    }

    fn antidform_bit(&self) -> u8 {
        0x01
    }

    fn cntsc_mask(&self) -> u8 {
        0x03
    }

    fn cntsc_offset(&self) -> u8 {
        0
    }

    fn ftf_mask(&self) -> u8 {
        0x06
    }

    fn ftf_offset(&self) -> u8 {
        1
    }

    fn default_mode(&self) -> ChannelMode {
        ChannelMode::NormalAndLowPowerMode
    }

    fn data_lsb(&self) -> Register {
        Register::Data0Lsb
    }

    fn raw_data_lsb(&self) -> Register {
        Register::RawData0_3
    }

    fn gain(&self) -> Register {
        Register::Gain0
    }

    fn sensor_config(&self) -> Register {
        Register::Sensor0Config
    }

    fn ftf(&self) -> Register {
        Register::Ftf0
    }
}

impl ChannelRegisters for Channel1 {
    open spec fn ch(&self) -> u8 {
        1
    }

    proof fn ch_in_range(&self) {
    }

    fn index(&self) -> u8 {
        1
    }

    fn en_bit(&self) -> u8 {
        0x02
    }

    fn lpen_bit(&self) -> u8 {
        0x20
    }

    fn btpause_bit(&self) -> u8 {
        0x20
    }

    fn maxwin_bit(&self) -> u8 {
        0x02
    }

    fn opol_bit(&self) -> u8 {
        0x20
    }

    fn dpol_bit(&self) -> u8 {
        0x02
    }

    fn anticom_bit(&self) -> u8 {
        0x20
    }

    fn antidform_bit(&self) -> u8 {
        0x02
    }

    fn cntsc_mask(&self) -> u8 {
        0x0C
    }

    fn cntsc_offset(&self) -> u8 {
        2
    }

    fn ftf_mask(&self) -> u8 {
        0x30
    }

    fn ftf_offset(&self) -> u8 {
        4
    }

    fn default_mode(&self) -> ChannelMode {
        ChannelMode::NormalMode
    }

    fn data_lsb(&self) -> Register {
        Register::Data1Lsb
    }

    fn raw_data_lsb(&self) -> Register {
        Register::RawData1_3
    }

    fn gain(&self) -> Register {
        Register::Gain1
    }

    fn sensor_config(&self) -> Register {
        Register::Sensor1Config
    }

    fn ftf(&self) -> Register {
        Register::Ftf1_2
    }
}

impl ChannelRegisters for Channel2 {
    open spec fn ch(&self) -> u8 {
        2
    }

    proof fn ch_in_range(&self) {
    }

    fn index(&self) -> u8 {
        2
    }

    fn en_bit(&self) -> u8 {
        0x04
    }

    fn lpen_bit(&self) -> u8 {
        0x40
    }

    fn btpause_bit(&self) -> u8 {
        0x40
    }

    fn maxwin_bit(&self) -> u8 {
        0x04
    }

    fn opol_bit(&self) -> u8 {
        0x40
    }

    fn dpol_bit(&self) -> u8 {
        0x04
    }

    fn anticom_bit(&self) -> u8 {
        0x40
    }

    fn antidform_bit(&self) -> u8 {
        0x04
    }

    fn cntsc_mask(&self) -> u8 {
        0x30
    }

    fn cntsc_offset(&self) -> u8 {
        4
    }

    fn ftf_mask(&self) -> u8 {
        0xC0
    }

    fn ftf_offset(&self) -> u8 {
        6
    }

    fn default_mode(&self) -> ChannelMode {
        ChannelMode::NormalMode
    }

    fn data_lsb(&self) -> Register {
        Register::Data2Lsb
    }

    fn raw_data_lsb(&self) -> Register {
        Register::RawData2_3
    }

    fn gain(&self) -> Register {
        Register::Gain2
    }

    fn sensor_config(&self) -> Register {
        Register::Sensor2Config
    }

    fn ftf(&self) -> Register {
        Register::Ftf1_2
    }
}

impl ChannelRegisters for Channel3 {
    open spec fn ch(&self) -> u8 {
        3
    }

    proof fn ch_in_range(&self) {
    }

    fn index(&self) -> u8 {
        3
    }

    fn en_bit(&self) -> u8 {
        0x08
    }

    fn lpen_bit(&self) -> u8 {
        0x80
    }

    fn btpause_bit(&self) -> u8 {
        0x80
    }

    fn maxwin_bit(&self) -> u8 {
        0x08
    }

    fn opol_bit(&self) -> u8 {
        0x80
    }

    fn dpol_bit(&self) -> u8 {
        0x08
    }

    fn anticom_bit(&self) -> u8 {
        0x80
    }

    fn antidform_bit(&self) -> u8 {
        0x08
    }

    fn cntsc_mask(&self) -> u8 {
        0xC0
    }

    fn cntsc_offset(&self) -> u8 {
        6
    }

    fn ftf_mask(&self) -> u8 {
        0x03
    }

    fn ftf_offset(&self) -> u8 {
        0
    }

    fn default_mode(&self) -> ChannelMode {
        ChannelMode::NormalMode
    }

    fn data_lsb(&self) -> Register {
        Register::Data3Lsb
    }

    fn raw_data_lsb(&self) -> Register {
        Register::RawData3_3
    }

    fn gain(&self) -> Register {
        Register::Gain3
    }

    fn sensor_config(&self) -> Register {
        Register::Sensor3Config
    }

    fn ftf(&self) -> Register {
        Register::Ftf3
    }
}

} // verus!
