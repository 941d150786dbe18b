//! The laws of the register map and of the encoding layer: the
//! channels' bit claims never overlap, a set-then-clear pair forces
//! bits low and nothing else, and decoding the bytes that a device
//! configuration encodes into reproduces every field of it.

use crate::codec::btpause_maxwin_byte;
use crate::codec::channel_config_from_image;
use crate::codec::cntsc_byte;
use crate::codec::common_deform_byte;
use crate::codec::counter_scale_from_field;
use crate::codec::device_config_from_image;
use crate::codec::device_config_valid;
use crate::codec::en_config_byte;
use crate::codec::encode_device_config;
use crate::codec::fast_tracking_factor_from_field;
use crate::codec::flag_bit;
use crate::codec::ftf0_byte;
use crate::codec::ftf1_2_byte;
use crate::codec::ftf3_byte;
use crate::codec::intpol_byte;
use crate::codec::low_power_scan_rate_from_code;
use crate::codec::mode_bits;
use crate::codec::mode_from_en_byte;
use crate::codec::opol_dpol_byte;
use crate::codec::scan_rate_from_code;
use crate::codec::sensor_config_byte;
use crate::codec::sensor_config_from_byte;
use crate::codec::sensor_config_valid;
use crate::DeviceConfig;
use crate::SensorConfig;
use crate::register::anticom_bit;
use crate::register::antidform_bit;
use crate::register::btpause_bit;
use crate::register::cntsc_mask;
use crate::register::dpol_bit;
use crate::register::en_bit;
use crate::register::ftf_mask;
use crate::register::lpen_bit;
use crate::register::maxwin_bit;
use crate::register::opol_bit;
use vstd::prelude::*;

verus! {

/// The bits that channel `ch` claims inside the shared En register:
/// its enable bit and its low-power enable bit.
pub open spec fn en_claim(ch: u8) -> u8 {
    en_bit(ch) | lpen_bit(ch)
}

/// The bits that channel `ch` claims inside the shared BtPauseMaxWin
/// register: its pause bit and its max-win bit.
pub open spec fn btpause_maxwin_claim(ch: u8) -> u8 {
    btpause_bit(ch) | maxwin_bit(ch)
}

/// The bits that channel `ch` claims inside the shared OpolDpol
/// register: its output-polarity bit and its data-polarity bit.
pub open spec fn opol_dpol_claim(ch: u8) -> u8 {
    opol_bit(ch) | dpol_bit(ch)
}

/// The bits that channel `ch` claims inside the shared CommonDeform
/// register: its anticommon bit and its antideform bit.
pub open spec fn common_deform_claim(ch: u8) -> u8 {
    anticom_bit(ch) | antidform_bit(ch)
}

/// Inside every register that the four channels share, the bits that
/// two distinct channels claim are disjoint; in particular the two
/// channels that alias into the shared fast-tracking register claim
/// disjoint fields of it.
pub proof fn lemma_channel_claims_disjoint(i: u8, j: u8)
    requires
        i < 4,
        j < 4,
        i != j,
    ensures
        en_claim(i) & en_claim(j) == 0,
        btpause_maxwin_claim(i) & btpause_maxwin_claim(j) == 0,
        opol_dpol_claim(i) & opol_dpol_claim(j) == 0,
        common_deform_claim(i) & common_deform_claim(j) == 0,
        cntsc_mask(i) & cntsc_mask(j) == 0,
        ftf_mask(1) & ftf_mask(2) == 0,
{
    assert(en_claim(i) & en_claim(j) == 0 && btpause_maxwin_claim(i) & btpause_maxwin_claim(j) == 0
        && opol_dpol_claim(i) & opol_dpol_claim(j) == 0 && common_deform_claim(i)
        & common_deform_claim(j) == 0 && cntsc_mask(i) & cntsc_mask(j) == 0 && ftf_mask(1)
        & ftf_mask(2) == 0) by (bit_vector)
        requires
            i < 4,
            j < 4,
            i != j,
    ;
}

/// Setting a mask and then clearing the same mask, each by one of the
/// driver's read-modify-write pairs, is idempotent on the rest of the
/// byte: whatever byte `v` the register held before the pair, the
/// byte written last is `v` with the masked bits forced low and every
/// other bit exactly as it was.
pub proof fn lemma_set_then_clear_forces_bits_low(v: u8, mask: u8)
    ensures
        (v | mask) & !mask == v & !mask,
{
    assert((v | mask) & !mask == v & !mask) by (bit_vector);
}

/// Decoding each channel's mode out of the shared En byte gives back
/// the mode the byte was encoded from.
pub proof fn lemma_en_round_trip(c: DeviceConfig)
    ensures
        mode_from_en_byte(en_config_byte(c), 0) == c.ch0.mode,
        mode_from_en_byte(en_config_byte(c), 1) == c.ch1.mode,
        mode_from_en_byte(en_config_byte(c), 2) == c.ch2.mode,
        mode_from_en_byte(en_config_byte(c), 3) == c.ch3.mode,
{
    let m0 = mode_bits(0, c.ch0.mode);
    let m1 = mode_bits(1, c.ch1.mode);
    let m2 = mode_bits(2, c.ch2.mode);
    let m3 = mode_bits(3, c.ch3.mode);
    let en = en_config_byte(c);
    assert(en == (m0 | m1 | m2 | m3));
    assert((m0 == 0 ==> en & 0x01 == 0 && en & 0x10 == 0) && (m0 == 0x01 ==> en & 0x01 != 0 && en
        & 0x10 == 0) && (m0 == (0x01u8 | 0x10) ==> en & 0x01 != 0 && en & 0x10 != 0) && (m1 == 0
        ==> en & 0x02 == 0 && en & 0x20 == 0) && (m1 == 0x02 ==> en & 0x02 != 0 && en & 0x20 == 0)
        && (m1 == (0x02u8 | 0x20) ==> en & 0x02 != 0 && en & 0x20 != 0) && (m2 == 0 ==> en & 0x04
        == 0 && en & 0x40 == 0) && (m2 == 0x04 ==> en & 0x04 != 0 && en & 0x40 == 0) && (m2 == (
    0x04u8 | 0x40) ==> en & 0x04 != 0 && en & 0x40 != 0) && (m3 == 0 ==> en & 0x08 == 0 && en
        & 0x80 == 0) && (m3 == 0x08 ==> en & 0x08 != 0 && en & 0x80 == 0) && (m3 == (0x08u8 | 0x80)
        ==> en & 0x08 != 0 && en & 0x80 != 0)) by (bit_vector)
        requires
            en == (m0 | m1 | m2 | m3),
            m0 == 0 || m0 == 0x01 || m0 == (0x01u8 | 0x10),
            m1 == 0 || m1 == 0x02 || m1 == (0x02u8 | 0x20),
            m2 == 0 || m2 == 0x04 || m2 == (0x04u8 | 0x40),
            m3 == 0 || m3 == 0x08 || m3 == (0x08u8 | 0x80),
    ;
}

/// Each device-wide toggle can be read back from its own bit of the
/// IntPol byte, the two inverted flags included.
pub proof fn lemma_intpol_round_trip(c: DeviceConfig)
    ensures
        (intpol_byte(c) & 0x01 == 0) == c.enable_max_out_check,
        (intpol_byte(c) & 0x02 == 0) == c.enable_button_timeout,
        (intpol_byte(c) & 0x04 != 0) == (c.interrupt_polarity is ActiveHigh),
        (intpol_byte(c) & 0x08 != 0) == c.enable_button_press_detection_algorithm,
        (intpol_byte(c) & 0x10 != 0) == c.enable_reset_of_button_baseline_tracking,
{
    let ir = flag_bit(c.enable_reset_of_button_baseline_tracking, 0x10);
    let ia = flag_bit(c.enable_button_press_detection_algorithm, 0x08);
    let ipo = flag_bit(c.interrupt_polarity is ActiveHigh, 0x04);
    let it = flag_bit(!c.enable_button_timeout, 0x02);
    let im = flag_bit(!c.enable_max_out_check, 0x01);
    let ip = intpol_byte(c);
    assert(ip == (ir | ia | ipo | it | im));
    assert(ip & 0x10 == ir && ip & 0x08 == ia && ip & 0x04 == ipo && ip & 0x02 == it && ip & 0x01
        == im) by (bit_vector)
        requires
            ip == (ir | ia | ipo | it | im),
            ir == 0 || ir == 0x10,
            ia == 0 || ia == 0x08,
            ipo == 0 || ipo == 0x04,
            it == 0 || it == 0x02,
            im == 0 || im == 0x01,
    ;
}

/// Each channel's pause and max-win flags can be read back from its
/// own two bits of the BtPauseMaxWin byte.
pub proof fn lemma_btpause_maxwin_round_trip(c: DeviceConfig)
    ensures
        (btpause_maxwin_byte(c) & 0x10 != 0) == c.ch0.baseline_tracking_pause,
        (btpause_maxwin_byte(c) & 0x20 != 0) == c.ch1.baseline_tracking_pause,
        (btpause_maxwin_byte(c) & 0x40 != 0) == c.ch2.baseline_tracking_pause,
        (btpause_maxwin_byte(c) & 0x80 != 0) == c.ch3.baseline_tracking_pause,
        (btpause_maxwin_byte(c) & 0x01 != 0) == c.ch0.enable_max_win_button_algorithm,
        (btpause_maxwin_byte(c) & 0x02 != 0) == c.ch1.enable_max_win_button_algorithm,
        (btpause_maxwin_byte(c) & 0x04 != 0) == c.ch2.enable_max_win_button_algorithm,
        (btpause_maxwin_byte(c) & 0x08 != 0) == c.ch3.enable_max_win_button_algorithm,
{
    let p0 = flag_bit(c.ch0.baseline_tracking_pause, 0x10);
    let p1 = flag_bit(c.ch1.baseline_tracking_pause, 0x20);
    let p2 = flag_bit(c.ch2.baseline_tracking_pause, 0x40);
    let p3 = flag_bit(c.ch3.baseline_tracking_pause, 0x80);
    let w0 = flag_bit(c.ch0.enable_max_win_button_algorithm, 0x01);
    let w1 = flag_bit(c.ch1.enable_max_win_button_algorithm, 0x02);
    let w2 = flag_bit(c.ch2.enable_max_win_button_algorithm, 0x04);
    let w3 = flag_bit(c.ch3.enable_max_win_button_algorithm, 0x08);
    let bp = btpause_maxwin_byte(c);
    assert(bp == (p0 | p1 | p2 | p3 | w0 | w1 | w2 | w3));
    assert(bp & 0x10 == p0 && bp & 0x20 == p1 && bp & 0x40 == p2 && bp & 0x80 == p3 && bp & 0x01
        == w0 && bp & 0x02 == w1 && bp & 0x04 == w2 && bp & 0x08 == w3) by (bit_vector)
        requires
            bp == (p0 | p1 | p2 | p3 | w0 | w1 | w2 | w3),
            p0 == 0 || p0 == 0x10,
            p1 == 0 || p1 == 0x20,
            p2 == 0 || p2 == 0x40,
            p3 == 0 || p3 == 0x80,
            w0 == 0 || w0 == 0x01,
            w1 == 0 || w1 == 0x02,
            w2 == 0 || w2 == 0x04,
            w3 == 0 || w3 == 0x08,
    ;
}

/// Each channel's anticommon and antideform flags can be read back
/// from its own two bits of the CommonDeform byte.
pub proof fn lemma_common_deform_round_trip(c: DeviceConfig)
    ensures
        (common_deform_byte(c) & 0x10 != 0) == c.ch0.enable_anticommon_algorithm,
        (common_deform_byte(c) & 0x20 != 0) == c.ch1.enable_anticommon_algorithm,
        (common_deform_byte(c) & 0x40 != 0) == c.ch2.enable_anticommon_algorithm,
        (common_deform_byte(c) & 0x80 != 0) == c.ch3.enable_anticommon_algorithm,
        (common_deform_byte(c) & 0x01 != 0) == c.ch0.enable_antideform_algorithm,
        (common_deform_byte(c) & 0x02 != 0) == c.ch1.enable_antideform_algorithm,
        (common_deform_byte(c) & 0x04 != 0) == c.ch2.enable_antideform_algorithm,
        (common_deform_byte(c) & 0x08 != 0) == c.ch3.enable_antideform_algorithm,
{
    let a0 = flag_bit(c.ch0.enable_anticommon_algorithm, 0x10);
    let a1 = flag_bit(c.ch1.enable_anticommon_algorithm, 0x20);
    let a2 = flag_bit(c.ch2.enable_anticommon_algorithm, 0x40);
    let a3 = flag_bit(c.ch3.enable_anticommon_algorithm, 0x80);
    let df0 = flag_bit(c.ch0.enable_antideform_algorithm, 0x01);
    let df1 = flag_bit(c.ch1.enable_antideform_algorithm, 0x02);
    let df2 = flag_bit(c.ch2.enable_antideform_algorithm, 0x04);
    let df3 = flag_bit(c.ch3.enable_antideform_algorithm, 0x08);
    let cd = common_deform_byte(c);
    assert(cd == (a0 | a1 | a2 | a3 | df0 | df1 | df2 | df3));
    assert(cd & 0x10 == a0 && cd & 0x20 == a1 && cd & 0x40 == a2 && cd & 0x80 == a3 && cd & 0x01
        == df0 && cd & 0x02 == df1 && cd & 0x04 == df2 && cd & 0x08 == df3) by (bit_vector)
        requires
            cd == (a0 | a1 | a2 | a3 | df0 | df1 | df2 | df3),
            a0 == 0 || a0 == 0x10,
            a1 == 0 || a1 == 0x20,
            a2 == 0 || a2 == 0x40,
            a3 == 0 || a3 == 0x80,
            df0 == 0 || df0 == 0x01,
            df1 == 0 || df1 == 0x02,
            df2 == 0 || df2 == 0x04,
            df3 == 0 || df3 == 0x08,
    ;
}

/// Each channel's two polarities can be read back from its own two
/// bits of the OpolDpol byte.
pub proof fn lemma_opol_dpol_round_trip(c: DeviceConfig)
    ensures
        (opol_dpol_byte(c) & 0x10 != 0) == (c.ch0.output_polarity is ActiveHigh),
        (opol_dpol_byte(c) & 0x20 != 0) == (c.ch1.output_polarity is ActiveHigh),
        (opol_dpol_byte(c) & 0x40 != 0) == (c.ch2.output_polarity is ActiveHigh),
        (opol_dpol_byte(c) & 0x80 != 0) == (c.ch3.output_polarity is ActiveHigh),
        (opol_dpol_byte(c) & 0x01 != 0) == (c.ch0.data_polarity is Normal),
        (opol_dpol_byte(c) & 0x02 != 0) == (c.ch1.data_polarity is Normal),
        (opol_dpol_byte(c) & 0x04 != 0) == (c.ch2.data_polarity is Normal),
        (opol_dpol_byte(c) & 0x08 != 0) == (c.ch3.data_polarity is Normal),
{
    let o0 = flag_bit(c.ch0.output_polarity is ActiveHigh, 0x10);
    let o1 = flag_bit(c.ch1.output_polarity is ActiveHigh, 0x20);
    let o2 = flag_bit(c.ch2.output_polarity is ActiveHigh, 0x40);
    let o3 = flag_bit(c.ch3.output_polarity is ActiveHigh, 0x80);
    let dp0 = flag_bit(c.ch0.data_polarity is Normal, 0x01);
    let dp1 = flag_bit(c.ch1.data_polarity is Normal, 0x02);
    let dp2 = flag_bit(c.ch2.data_polarity is Normal, 0x04);
    let dp3 = flag_bit(c.ch3.data_polarity is Normal, 0x08);
    let od = opol_dpol_byte(c);
    assert(od == (o0 | o1 | o2 | o3 | dp0 | dp1 | dp2 | dp3));
    assert(od & 0x10 == o0 && od & 0x20 == o1 && od & 0x40 == o2 && od & 0x80 == o3 && od & 0x01
        == dp0 && od & 0x02 == dp1 && od & 0x04 == dp2 && od & 0x08 == dp3) by (bit_vector)
        requires
            od == (o0 | o1 | o2 | o3 | dp0 | dp1 | dp2 | dp3),
            o0 == 0 || o0 == 0x10,
            o1 == 0 || o1 == 0x20,
            o2 == 0 || o2 == 0x40,
            o3 == 0 || o3 == 0x80,
            dp0 == 0 || dp0 == 0x01,
            dp1 == 0 || dp1 == 0x02,
            dp2 == 0 || dp2 == 0x04,
            dp3 == 0 || dp3 == 0x08,
    ;
}

/// Each channel's two-bit counter-scale field of the Cntsc byte holds
/// that channel's own scale.
pub proof fn lemma_cntsc_round_trip(c: DeviceConfig)
    ensures
        counter_scale_from_field((cntsc_byte(c) >> 0) & 3) == c.ch0.counter_scale,
        counter_scale_from_field((cntsc_byte(c) >> 2) & 3) == c.ch1.counter_scale,
        counter_scale_from_field((cntsc_byte(c) >> 4) & 3) == c.ch2.counter_scale,
        counter_scale_from_field((cntsc_byte(c) >> 6) & 3) == c.ch3.counter_scale,
{
    let q0 = c.ch0.counter_scale.spec_code();
    let q1 = c.ch1.counter_scale.spec_code();
    let q2 = c.ch2.counter_scale.spec_code();
    let q3 = c.ch3.counter_scale.spec_code();
    let cn = cntsc_byte(c);
    assert(cn == (q0 | (q1 << 2) | (q2 << 4) | (q3 << 6)));
    assert((cn >> 0) & 3 == q0 && (cn >> 2) & 3 == q1 && (cn >> 4) & 3 == q2 && (cn >> 6) & 3
        == q3) by (bit_vector)
        requires
            cn == (q0 | (q1 << 2) | (q2 << 4) | (q3 << 6)),
            q0 < 4,
            q1 < 4,
            q2 < 4,
            q3 < 4,
    ;
}

/// Each channel's two-bit fast-tracking field of its fast-tracking
/// byte holds that channel's own factor, the shared register
/// included.
pub proof fn lemma_ftf_round_trip(c: DeviceConfig)
    ensures
        fast_tracking_factor_from_field((ftf0_byte(c) >> 1) & 3) == c.ch0.fast_tracking_factor,
        fast_tracking_factor_from_field((ftf1_2_byte(c) >> 4) & 3) == c.ch1.fast_tracking_factor,
        fast_tracking_factor_from_field((ftf1_2_byte(c) >> 6) & 3) == c.ch2.fast_tracking_factor,
        fast_tracking_factor_from_field((ftf3_byte(c) >> 0) & 3) == c.ch3.fast_tracking_factor,
{
    let f0 = c.ch0.fast_tracking_factor.spec_code();
    let f1 = c.ch1.fast_tracking_factor.spec_code();
    let f2 = c.ch2.fast_tracking_factor.spec_code();
    let f3 = c.ch3.fast_tracking_factor.spec_code();
    let fb0 = ftf0_byte(c);
    let fb12 = ftf1_2_byte(c);
    let fb3 = ftf3_byte(c);
    assert(fb0 == (f0 << 1) && fb12 == ((f1 << 4) | (f2 << 6)) && fb3 == f3);
    assert((fb0 >> 1) & 3 == f0 && (fb12 >> 4) & 3 == f1 && (fb12 >> 6) & 3 == f2 && (fb3 >> 0) & 3
        == f3) by (bit_vector)
        requires
            fb0 == (f0 << 1),
            fb12 == ((f1 << 4) | (f2 << 6)),
            fb3 == f3,
            f0 < 4,
            f1 < 4,
            f2 < 4,
            f3 < 4,
    ;
}

/// A raw reading of zero converts to a frequency of zero, for every
/// shadowed cycle count and divider: no conversion arithmetic and no
/// division takes place on it.
pub proof fn lemma_zero_raw_reading_converts_to_zero(cycle_count: u8, lc_divider: u8)
    ensures
        crate::codec::raw_to_frequency(0, cycle_count, lc_divider) == 0,
{
}

/// Round trip for one sensor configuration byte: a valid sensor
/// configuration decodes back from the byte it encodes into.
pub proof fn lemma_sensor_config_round_trip(s: SensorConfig)
    requires
        sensor_config_valid(s),
    ensures
        sensor_config_from_byte(sensor_config_byte(s)) == Some(s),
{
    let rp = s.rp_range.spec_code();
    let fr = s.frequency_range.spec_code();
    let cc = s.cycle_count;
    let sb = sensor_config_byte(s);
    assert(sb == (rp | fr | cc));
    assert(sb & 0x80 == rp && sb & 0x60 == fr && sb & 0x1F == cc) by (bit_vector)
        requires
            sb == (rp | fr | cc),
            rp == 0 || rp == 0x80,
            fr == 0 || fr == 0x20 || fr == 0x40,
            cc < 32,
    ;
}

/// Round trip for one channel: the configuration of channel `ch`
/// decodes back, field for field, from the register image that the
/// whole device configuration encodes into.  The shared bytes give
/// each channel's fields back because the channels' bit claims are
/// disjoint.
#[verifier::rlimit(50)]
pub proof fn lemma_channel_config_round_trip(c: DeviceConfig)
    requires
        device_config_valid(c),
    ensures
        channel_config_from_image(encode_device_config(c), 0) == Some(c.ch0),
        channel_config_from_image(encode_device_config(c), 1) == Some(c.ch1),
        channel_config_from_image(encode_device_config(c), 2) == Some(c.ch2),
        channel_config_from_image(encode_device_config(c), 3) == Some(c.ch3),
{
    let img = encode_device_config(c);
    lemma_en_round_trip(c);
    lemma_btpause_maxwin_round_trip(c);
    lemma_common_deform_round_trip(c);
    lemma_opol_dpol_round_trip(c);
    lemma_cntsc_round_trip(c);
    lemma_ftf_round_trip(c);
    lemma_sensor_config_round_trip(c.ch0.sensor_config);
    lemma_sensor_config_round_trip(c.ch1.sensor_config);
    lemma_sensor_config_round_trip(c.ch2.sensor_config);
    lemma_sensor_config_round_trip(c.ch3.sensor_config);
    assert(channel_config_from_image(img, 0) == Some(c.ch0));
    assert(channel_config_from_image(img, 1) == Some(c.ch1));
    assert(channel_config_from_image(img, 2) == Some(c.ch2));
    assert(channel_config_from_image(img, 3) == Some(c.ch3));
}

/// Round trip: the register bytes that a valid device configuration
/// encodes into decode back to exactly that configuration, field for
/// field.  Decoding one channel's fields out of the shared bytes
/// relies on the disjointness of the four channels' bit claims.
#[verifier::rlimit(50)]
pub proof fn lemma_device_config_round_trip(c: DeviceConfig)
    requires
        device_config_valid(c),
    ensures
        device_config_from_image(encode_device_config(c)) == Some(c),
{
    let img = encode_device_config(c);
    lemma_channel_config_round_trip(c);
    lemma_intpol_round_trip(c);
    assert(scan_rate_from_code(c.scan_rate.spec_code()) == Some(c.scan_rate));
    assert(low_power_scan_rate_from_code(c.low_power_scan_rate.spec_code()) == Some(
        c.low_power_scan_rate,
    ));
    assert(device_config_from_image(img) == Some(c));
}

} // verus!

