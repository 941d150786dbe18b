//! Tests of the register map and the per-channel capability types.

use ldc3114::{Channel0, Channel1, Channel2, Channel3, ChannelRegisters, Register};

#[test]
fn register_addresses() {
    assert_eq!(Register::Status.addr(), 0x00);
    assert_eq!(Register::Out.addr(), 0x01);
    assert_eq!(Register::Reset.addr(), 0x0A);
    assert_eq!(Register::En.addr(), 0x0C);
    assert_eq!(Register::NpScanRate.addr(), 0x0D);
    assert_eq!(Register::Gain0.addr(), 0x0E);
    assert_eq!(Register::LpScanRate.addr(), 0x0F);
    assert_eq!(Register::Gain1.addr(), 0x10);
    assert_eq!(Register::IntPol.addr(), 0x11);
    assert_eq!(Register::Gain2.addr(), 0x12);
    assert_eq!(Register::LpBaseInc.addr(), 0x13);
    assert_eq!(Register::Gain3.addr(), 0x14);
    assert_eq!(Register::NpBaseInc.addr(), 0x15);
    assert_eq!(Register::BtPauseMaxWin.addr(), 0x16);
    assert_eq!(Register::LcDivider.addr(), 0x17);
    assert_eq!(Register::Hyst.addr(), 0x18);
    assert_eq!(Register::Twist.addr(), 0x19);
    assert_eq!(Register::CommonDeform.addr(), 0x1A);
    assert_eq!(Register::OpolDpol.addr(), 0x1C);
    assert_eq!(Register::Cntsc.addr(), 0x1E);
    assert_eq!(Register::Sensor0Config.addr(), 0x20);
    assert_eq!(Register::Sensor1Config.addr(), 0x22);
    assert_eq!(Register::Sensor2Config.addr(), 0x24);
    assert_eq!(Register::Ftf0.addr(), 0x25);
    assert_eq!(Register::Sensor3Config.addr(), 0x26);
    assert_eq!(Register::Ftf1_2.addr(), 0x28);
    assert_eq!(Register::Ftf3.addr(), 0x2B);
    assert_eq!(Register::RawData0_3.addr(), 0x59);
    assert_eq!(Register::RawData1_3.addr(), 0x5C);
    assert_eq!(Register::RawData2_3.addr(), 0x5F);
    assert_eq!(Register::RawData3_3.addr(), 0x62);
    assert_eq!(Register::RawData3_1.addr(), 0x64);
    assert_eq!(Register::ManufacturerIdLsb.addr(), 0xFC);
    assert_eq!(Register::ManufacturerIdMsb.addr(), 0xFD);
    assert_eq!(Register::DeviceIdLsb.addr(), 0xFE);
    assert_eq!(Register::DeviceIdMsb.addr(), 0xFF);
}

#[test]
fn read_only_classification() {
    let read_only = [
        Register::Status,
        Register::Out,
        Register::Data0Lsb,
        Register::Data0Msb,
        Register::Data1Lsb,
        Register::Data1Msb,
        Register::Data2Lsb,
        Register::Data2Msb,
        Register::Data3Lsb,
        Register::Data3Msb,
        Register::RawData0_1,
        Register::RawData0_2,
        Register::RawData0_3,
        Register::RawData1_1,
        Register::RawData1_2,
        Register::RawData1_3,
        Register::RawData2_1,
        Register::RawData2_2,
        Register::RawData2_3,
        Register::RawData3_1,
        Register::RawData3_2,
        Register::RawData3_3,
        Register::DeviceIdLsb,
        Register::DeviceIdMsb,
        Register::ManufacturerIdLsb,
        Register::ManufacturerIdMsb,
    ];
    for reg in read_only {
        assert!(reg.is_read_only(), "{:?} should be read-only", reg);
    }
    let writable = [
        Register::Reset,
        Register::En,
        Register::NpScanRate,
        Register::Gain0,
        Register::LpScanRate,
        Register::Gain1,
        Register::IntPol,
        Register::Gain2,
        Register::LpBaseInc,
        Register::Gain3,
        Register::NpBaseInc,
        Register::BtPauseMaxWin,
        Register::LcDivider,
        Register::Hyst,
        Register::Twist,
        Register::CommonDeform,
        Register::OpolDpol,
        Register::Cntsc,
        Register::Sensor0Config,
        Register::Sensor1Config,
        Register::Sensor2Config,
        Register::Ftf0,
        Register::Sensor3Config,
        Register::Ftf1_2,
        Register::Ftf3,
    ];
    for reg in writable {
        assert!(!reg.is_read_only(), "{:?} should be writable", reg);
    }
}

fn claims(en: u8, lpen: u8, pause: u8, maxwin: u8, opol: u8, dpol: u8, anticom: u8, antidform: u8, cntsc: u8) -> [u8; 5] {
    [en | lpen, pause | maxwin, opol | dpol, anticom | antidform, cntsc]
}

/// Within every shared register, the bits the four channels claim are
/// pairwise disjoint.
#[test]
fn channel_bit_claims_disjoint() {
    let ch0 = claims(
        Channel0.en_bit(),
        Channel0.lpen_bit(),
        Channel0.btpause_bit(),
        Channel0.maxwin_bit(),
        Channel0.opol_bit(),
        Channel0.dpol_bit(),
        Channel0.anticom_bit(),
        Channel0.antidform_bit(),
        Channel0.cntsc_mask(),
    );
    let ch1 = claims(
        Channel1.en_bit(),
        Channel1.lpen_bit(),
        Channel1.btpause_bit(),
        Channel1.maxwin_bit(),
        Channel1.opol_bit(),
        Channel1.dpol_bit(),
        Channel1.anticom_bit(),
        Channel1.antidform_bit(),
        Channel1.cntsc_mask(),
    );
    let ch2 = claims(
        Channel2.en_bit(),
        Channel2.lpen_bit(),
        Channel2.btpause_bit(),
        Channel2.maxwin_bit(),
        Channel2.opol_bit(),
        Channel2.dpol_bit(),
        Channel2.anticom_bit(),
        Channel2.antidform_bit(),
        Channel2.cntsc_mask(),
    );
    let ch3 = claims(
        Channel3.en_bit(),
        Channel3.lpen_bit(),
        Channel3.btpause_bit(),
        Channel3.maxwin_bit(),
        Channel3.opol_bit(),
        Channel3.dpol_bit(),
        Channel3.anticom_bit(),
        Channel3.antidform_bit(),
        Channel3.cntsc_mask(),
    );
    let all = [ch0, ch1, ch2, ch3];
    for i in 0..4 {
        for j in 0..4 {
            if i != j {
                for reg in 0..5 {
                    assert_eq!(
                        all[i][reg] & all[j][reg],
                        0,
                        "channels {} and {} overlap in shared register {}",
                        i,
                        j,
                        reg
                    );
                }
            }
        }
    }
    // Channels 1 and 2 alias into the same fast-tracking register at
    // disjoint offsets.
    assert_eq!(Channel1.ftf_mask() & Channel2.ftf_mask(), 0);
    assert_eq!(Channel1.ftf(), Channel2.ftf());
}

#[test]
fn channel_register_getters() {
    assert_eq!(Channel0.gain(), Register::Gain0);
    assert_eq!(Channel1.gain(), Register::Gain1);
    assert_eq!(Channel2.gain(), Register::Gain2);
    assert_eq!(Channel3.gain(), Register::Gain3);
    assert_eq!(Channel0.sensor_config(), Register::Sensor0Config);
    assert_eq!(Channel3.sensor_config(), Register::Sensor3Config);
    assert_eq!(Channel0.data_lsb(), Register::Data0Lsb);
    assert_eq!(Channel2.data_lsb(), Register::Data2Lsb);
    assert_eq!(Channel0.raw_data_lsb(), Register::RawData0_3);
    assert_eq!(Channel3.raw_data_lsb(), Register::RawData3_3);
    assert_eq!(Channel0.ftf(), Register::Ftf0);
    assert_eq!(Channel3.ftf(), Register::Ftf3);
    assert_eq!(Channel0.cntsc_offset(), 0);
    assert_eq!(Channel1.cntsc_offset(), 2);
    assert_eq!(Channel2.cntsc_offset(), 4);
    assert_eq!(Channel3.cntsc_offset(), 6);
    assert_eq!(Channel0.ftf_offset(), 1);
    assert_eq!(Channel1.ftf_offset(), 4);
    assert_eq!(Channel2.ftf_offset(), 6);
    assert_eq!(Channel3.ftf_offset(), 0);
    assert_eq!(Channel0.index(), 0);
    assert_eq!(Channel1.index(), 1);
    assert_eq!(Channel2.index(), 2);
    assert_eq!(Channel3.index(), 3);
}
