//! The driver: primitive register operations, typed setters, composite
//! configuration, mode transitions and readback.
//!
//! Every operation is specified against the abstract transaction history
//! of the owned bus: a contract states exactly which bytes the operation
//! writes, and how its result relates to the bytes that came back.

use crate::bus::read_transaction;
use crate::bus::write_transaction;
use crate::bus::BusTransaction;
use crate::bus::I2cBus;
use crate::codec::i16_from_le_bytes;
use crate::codec::output_states_from_byte;
use crate::codec::raw_to_frequency;
use crate::codec::status_from_byte;
use crate::codec::u16_from_le_bytes;
use crate::codec::u32_from_le_bytes;
use crate::codec::apply_bit;
use crate::codec::channel_config_ops;
use crate::codec::channel_config_valid;
use crate::codec::device_config_ops;
use crate::codec::device_config_valid;
use crate::codec::encode_btpause_maxwin;
use crate::codec::encode_common_deform;
use crate::codec::encode_cntsc;
use crate::codec::encode_en;
use crate::codec::encode_intpol;
use crate::codec::encode_opol_dpol;
use crate::codec::apply_field;
use crate::codec::apply_mode;
use crate::codec::sensor_config_byte;
use crate::codec::sensor_config_valid;
use crate::register::anticom_bit;
use crate::register::antidform_bit;
use crate::register::btpause_bit;
use crate::register::cntsc_mask;
use crate::register::cntsc_offset;
use crate::register::data_lsb_register;
use crate::register::dpol_bit;
use crate::register::ftf_mask;
use crate::register::ftf_offset;
use crate::register::ftf_register;
use crate::register::gain_register;
use crate::register::maxwin_bit;
use crate::register::opol_bit;
use crate::register::raw_data_lsb_register;
use crate::register::sensor_config_register;
use crate::register::BTN_ALG_EN;
use crate::register::BTSRT_EN;
use crate::register::DIS_BTB_MO;
use crate::register::DIS_BTN_TO;
use crate::register::INTPOL;
use crate::register::CHIP_READY;
use crate::register::CONFIG_MODE;
use crate::register::FULL_RESET;
use crate::Channel0;
use crate::Channel1;
use crate::Channel2;
use crate::Channel3;
use crate::ChannelConfig;
use crate::ChannelMode;
use crate::ChannelRegisters;
use crate::DeviceConfig;
use crate::CounterScale;
use crate::DataPolarity;
use crate::Error;
use crate::FastTrackingFactor;
use crate::InterruptPolarity;
use crate::LowPowerScanRate;
use crate::OutputPolarity;
use crate::ScanRate;
use crate::SensorConfig;
use crate::Ldc3114;
use crate::OutputLogicStates;
use crate::Register;
use crate::Status;
use vstd::prelude::*;

verus! {


/// The eleven per-setter history extensions of
/// [`Ldc3114::configure_channel`] concatenate to the channel's full
/// transaction sequence.
#[verifier::rlimit(100)]
#[verifier::spinoff_prover]
proof fn lemma_channel_trace_assembly(
    h0: Seq<BusTransaction>,
    h1: Seq<BusTransaction>,
    h2: Seq<BusTransaction>,
    h3: Seq<BusTransaction>,
    h4: Seq<BusTransaction>,
    h5: Seq<BusTransaction>,
    h6: Seq<BusTransaction>,
    h7: Seq<BusTransaction>,
    h8: Seq<BusTransaction>,
    h9: Seq<BusTransaction>,
    h10: Seq<BusTransaction>,
    hend: Seq<BusTransaction>,
    ch: u8,
    c: ChannelConfig,
    v0: u8,
    v1: u8,
    v2: u8,
    v3: u8,
    v4: u8,
    v5: u8,
    v6: u8,
    v7: u8,
    v8: u8,
)
    requires
        h1 == h0 + seq![
            read_transaction(Register::En.addr(), v0),
            write_transaction(Register::En.addr(), apply_mode(v0, ch, c.mode)),
        ],
        h2 == h1.push(write_transaction(gain_register(ch).addr(), c.gain)),
        h3 == h2 + seq![
            read_transaction(Register::OpolDpol.addr(), v1),
            write_transaction(
                Register::OpolDpol.addr(),
                apply_bit(v1, opol_bit(ch), c.output_polarity is ActiveHigh),
            ),
        ],
        h4 == h3 + seq![
            read_transaction(Register::Cntsc.addr(), v2),
            write_transaction(
                Register::Cntsc.addr(),
                apply_field(v2, cntsc_mask(ch), cntsc_offset(ch), c.counter_scale.spec_code()),
            ),
        ],
        h5 == h4 + seq![
            read_transaction(ftf_register(ch).addr(), v3),
            write_transaction(
                ftf_register(ch).addr(),
                apply_field(v3, ftf_mask(ch), ftf_offset(ch), c.fast_tracking_factor.spec_code()),
            ),
        ],
        h6 == h5 + seq![
            read_transaction(Register::OpolDpol.addr(), v4),
            write_transaction(
                Register::OpolDpol.addr(),
                apply_bit(v4, dpol_bit(ch), c.data_polarity is Normal),
            ),
        ],
        h7 == h6.push(
            write_transaction(
                sensor_config_register(ch).addr(),
                sensor_config_byte(c.sensor_config),
            ),
        ),
        h8 == h7 + seq![
            read_transaction(Register::BtPauseMaxWin.addr(), v5),
            write_transaction(
                Register::BtPauseMaxWin.addr(),
                apply_bit(v5, maxwin_bit(ch), c.enable_max_win_button_algorithm),
            ),
        ],
        h9 == h8 + seq![
            read_transaction(Register::CommonDeform.addr(), v6),
            write_transaction(
                Register::CommonDeform.addr(),
                apply_bit(v6, anticom_bit(ch), c.enable_anticommon_algorithm),
            ),
        ],
        h10 == h9 + seq![
            read_transaction(Register::CommonDeform.addr(), v7),
            write_transaction(
                Register::CommonDeform.addr(),
                apply_bit(v7, antidform_bit(ch), c.enable_antideform_algorithm),
            ),
        ],
        hend == h10 + seq![
            read_transaction(Register::BtPauseMaxWin.addr(), v8),
            write_transaction(
                Register::BtPauseMaxWin.addr(),
                apply_bit(v8, btpause_bit(ch), c.baseline_tracking_pause),
            ),
        ],
    ensures
        hend == h0 + channel_config_ops(ch, c, seq![v0, v1, v2, v3, v4, v5, v6, v7, v8]),
{
    let w = seq![v0, v1, v2, v3, v4, v5, v6, v7, v8];
    let ops = channel_config_ops(ch, c, w);
    assert(h1 =~= h0 + ops.take(2));
    assert(h2 =~= h0 + ops.take(3));
    assert(h3 =~= h0 + ops.take(5));
    assert(h4 =~= h0 + ops.take(7));
    assert(h5 =~= h0 + ops.take(9));
    assert(h6 =~= h0 + ops.take(11));
    assert(h7 =~= h0 + ops.take(12));
    assert(h8 =~= h0 + ops.take(14));
    assert(h9 =~= h0 + ops.take(16));
    assert(h10 =~= h0 + ops.take(18));
    assert(hend =~= h0 + ops);
}

impl<I2C: I2cBus> Ldc3114<I2C> {
    /// The five conversion shadow bytes: the four per-channel cycle
    /// counts and the LC divider.
    pub closed spec fn shadow_state(self) -> (u8, u8, u8, u8, u8) {
        (self.sency0, self.sency1, self.sency2, self.sency3, self.lcdiv)
    }

    /// The cycle-count shadow of channel `ch`.
    pub open spec fn cycle_count_shadow(self, ch: u8) -> u8 {
        if ch == 0 {
            self.shadow_state().0
        } else if ch == 1 {
            self.shadow_state().1
        } else if ch == 2 {
            self.shadow_state().2
        } else {
            self.shadow_state().3
        }
    }

    /// The LC-divider shadow.
    pub open spec fn lc_divider_shadow(self) -> u8 {
        self.shadow_state().4
    }

    /// The shadows hold values inside the fields' domains: cycle
    /// counts below 32 and a divider below 8.  Established at
    /// construction and preserved by every operation.
    pub open spec fn wf(self) -> bool {
        &&& self.shadow_state().0 < 32
        &&& self.shadow_state().1 < 32
        &&& self.shadow_state().2 < 32
        &&& self.shadow_state().3 < 32
        &&& self.shadow_state().4 < 8
    }

    /// The abstract transaction history of the owned bus.
    pub closed spec fn bus_history(self) -> Seq<BusTransaction> {
        self.i2c.history()
    }

    /// Create a new driver from exclusive access to the bus.
    ///
    /// The conversion shadows start at placeholder defaults (cycle
    /// count 4 on every channel, divider 3); they are read back from
    /// the device on every transition into normal mode.
    pub fn new(i2c: I2C) -> (d: Self)
        ensures
            d.bus_history() == i2c.history(),
            d.cycle_count_shadow(0) == 4,
            d.cycle_count_shadow(1) == 4,
            d.cycle_count_shadow(2) == 4,
            d.cycle_count_shadow(3) == 4,
            d.lc_divider_shadow() == 3,
            d.wf(),
    {
        Ldc3114 { i2c, sency0: 4, sency1: 4, sency2: 4, sency3: 4, lcdiv: 3 }
    }

    /// Borrow the owned bus, for inspection.
    pub fn bus(&self) -> (r: &I2C)
        ensures
            r.history() == self.bus_history(),
    {
        &self.i2c
    }

    /// Give the bus back, consuming the driver.
    pub fn release(self) -> (r: I2C)
        ensures
            r.history() == self.bus_history(),
    {
        self.i2c
    }

    /// Read the register's current byte, in one write-then-read bus
    /// transaction.
    pub fn read_register(&mut self, register: Register) -> (r: Result<u8, Error<I2C::BusError>>)
        ensures
            final(self).shadow_state() == old(self).shadow_state(),
            match r {
                Ok(v) => final(self).bus_history() == old(self).bus_history().push(
                    read_transaction(register.addr(), v),
                ),
                Err(e) => e is I2c,
            },
    {
        match self.i2c.write_read(register.addr(), 1) {
            Ok(data) => {
                let v = data[0];
                proof {
                    assert(data@ =~= seq![v]);
                }
                Ok(v)
            },
            Err(e) => Err(Error::I2c(e)),
        }
    }

    /// Write `value` to the register, in one two-byte bus transaction.
    ///
    /// A register classified read-only is refused with
    /// [`Error::WriteToReadOnly`] before any bus transaction: exactly
    /// the read-only registers are refused, and on that path the bus
    /// history is unchanged.
    pub fn write_register(&mut self, register: Register, value: u8) -> (r: Result<
        (),
        Error<I2C::BusError>,
    >)
        ensures
            final(self).shadow_state() == old(self).shadow_state(),
            match r {
                Ok(()) => !register.is_read_only() && final(self).bus_history() == old(
                    self,
                ).bus_history().push(write_transaction(register.addr(), value)),
                Err(Error::WriteToReadOnly) => register.is_read_only() && final(self).bus_history()
                    == old(self).bus_history(),
                Err(Error::I2c(_)) => !register.is_read_only(),
                Err(Error::InvalidParameter) => false,
            },
    {
        if register.is_read_only() {
            return Err(Error::WriteToReadOnly);
        }
        let mut bytes: Vec<u8> = Vec::new();
        bytes.push(register.addr());
        bytes.push(value);
        proof {
            assert(bytes@ =~= seq![register.addr(), value]);
        }
        match self.i2c.write(bytes.as_slice()) {
            Ok(()) => Ok(()),
            Err(e) => Err(Error::I2c(e)),
        }
    }

    /// Read the register, apply the pure transform `f` to the byte,
    /// and write the result back.
    ///
    /// The read-modify-write pair is not atomic with respect to the
    /// device: the single-master assumption makes the intervening
    /// state change impossible in the intended deployment.
    pub fn modify_register<F: Fn(u8) -> u8>(&mut self, register: Register, f: F) -> (r: Result<
        (),
        Error<I2C::BusError>,
    >)
        requires
            forall|b: u8| #[trigger] call_requires(f, (b,)),
        ensures
            final(self).shadow_state() == old(self).shadow_state(),
            match r {
                Ok(()) => !register.is_read_only() && exists|v: u8, w: u8|
                    #![auto]
                    call_ensures(f, (v,), w) && final(self).bus_history() == old(self).bus_history()
                        + seq![
                        read_transaction(register.addr(), v),
                        write_transaction(register.addr(), w),
                    ],
                Err(Error::WriteToReadOnly) => register.is_read_only(),
                Err(Error::I2c(_)) => true,
                Err(Error::InvalidParameter) => false,
            },
    {
        let v = match self.read_register(register) {
            Ok(v) => v,
            Err(e) => {
                return Err(e);
            },
        };
        let w = f(v);
        let r = self.write_register(register, w);
        proof {
            if r is Ok {
                assert(final(self).bus_history() =~= old(self).bus_history() + seq![
                    read_transaction(register.addr(), v),
                    write_transaction(register.addr(), w),
                ]);
            }
        }
        r
    }

    /// OR `mask` into the register, by a read-modify-write pair: the
    /// masked bits are set, all other bits are written back unchanged.
    pub fn set_register_bits(&mut self, register: Register, mask: u8) -> (r: Result<
        (),
        Error<I2C::BusError>,
    >)
        ensures
            final(self).shadow_state() == old(self).shadow_state(),
            match r {
                Ok(()) => !register.is_read_only() && exists|v: u8|
                    #![auto]
                    final(self).bus_history() == old(self).bus_history() + seq![
                        read_transaction(register.addr(), v),
                        write_transaction(register.addr(), v | mask),
                    ],
                Err(Error::WriteToReadOnly) => register.is_read_only(),
                Err(Error::I2c(_)) => true,
                Err(Error::InvalidParameter) => false,
            },
    {
        let v = match self.read_register(register) {
            Ok(v) => v,
            Err(e) => {
                return Err(e);
            },
        };
        let r = self.write_register(register, v | mask);
        proof {
            if r is Ok {
                assert(final(self).bus_history() =~= old(self).bus_history() + seq![
                    read_transaction(register.addr(), v),
                    write_transaction(register.addr(), v | mask),
                ]);
            }
        }
        r
    }

    /// AND the complement of `mask` into the register, by a
    /// read-modify-write pair: the masked bits are cleared, all other
    /// bits are written back unchanged.
    pub fn clear_register_bits(&mut self, register: Register, mask: u8) -> (r: Result<
        (),
        Error<I2C::BusError>,
    >)
        ensures
            final(self).shadow_state() == old(self).shadow_state(),
            match r {
                Ok(()) => !register.is_read_only() && exists|v: u8|
                    #![auto]
                    final(self).bus_history() == old(self).bus_history() + seq![
                        read_transaction(register.addr(), v),
                        write_transaction(register.addr(), v & !mask),
                    ],
                Err(Error::WriteToReadOnly) => register.is_read_only(),
                Err(Error::I2c(_)) => true,
                Err(Error::InvalidParameter) => false,
            },
    {
        let v = match self.read_register(register) {
            Ok(v) => v,
            Err(e) => {
                return Err(e);
            },
        };
        let r = self.write_register(register, v & !mask);
        proof {
            if r is Ok {
                assert(final(self).bus_history() =~= old(self).bus_history() + seq![
                    read_transaction(register.addr(), v),
                    write_transaction(register.addr(), v & !mask),
                ]);
            }
        }
        r
    }

    /// Write the full-reset code to the Reset register.  All registers
    /// return to their factory defaults; the device is not operational
    /// again until the chip-ready status bit reads true, which the
    /// caller polls through [`Self::is_chip_ready`].
    pub fn full_reset(&mut self) -> (r: Result<(), Error<I2C::BusError>>)
        ensures
            final(self).shadow_state() == old(self).shadow_state(),
            match r {
                Ok(()) => final(self).bus_history() == old(self).bus_history().push(
                    write_transaction(Register::Reset.addr(), FULL_RESET),
                ),
                Err(e) => e is I2c,
            },
    {
        match self.write_register(Register::Reset, FULL_RESET) {
            Ok(()) => Ok(()),
            Err(e) => Err(e),
        }
    }

    /// Write the configuration-mode code to the Reset register: the
    /// device halts scanning and its registers become writable.
    pub fn config_mode(&mut self) -> (r: Result<(), Error<I2C::BusError>>)
        ensures
            final(self).shadow_state() == old(self).shadow_state(),
            match r {
                Ok(()) => final(self).bus_history() == old(self).bus_history().push(
                    write_transaction(Register::Reset.addr(), CONFIG_MODE),
                ),
                Err(e) => e is I2c,
            },
    {
        match self.write_register(Register::Reset, CONFIG_MODE) {
            Ok(()) => Ok(()),
            Err(e) => Err(e),
        }
    }

    /// Resume scanning, by writing zero to the Reset register.
    ///
    /// Immediately before that write, the committed configuration is
    /// read back: the LC-divider register and the four sensor
    /// configuration registers, whose low bits become the conversion
    /// shadows that [`Self::read_raw_data`] uses.  This readback
    /// happens on every transition into normal mode, so the shadows
    /// never go stale relative to the configuration on the device.
    pub fn normal_mode(&mut self) -> (r: Result<(), Error<I2C::BusError>>)
        ensures
            match r {
                Ok(()) => {
                    &&& exists|d: u8, s0: u8, s1: u8, s2: u8, s3: u8|
                        #![auto]
                        {
                            &&& final(self).bus_history() == old(self).bus_history() + seq![
                                read_transaction(Register::LcDivider.addr(), d),
                                read_transaction(Register::Sensor0Config.addr(), s0),
                                read_transaction(Register::Sensor1Config.addr(), s1),
                                read_transaction(Register::Sensor2Config.addr(), s2),
                                read_transaction(Register::Sensor3Config.addr(), s3),
                                write_transaction(Register::Reset.addr(), 0),
                            ]
                            &&& final(self).lc_divider_shadow() == d & 0x07
                            &&& final(self).cycle_count_shadow(0) == s0 & 0x1F
                            &&& final(self).cycle_count_shadow(1) == s1 & 0x1F
                            &&& final(self).cycle_count_shadow(2) == s2 & 0x1F
                            &&& final(self).cycle_count_shadow(3) == s3 & 0x1F
                        }
                    &&& final(self).wf()
                },
                Err(Error::I2c(_)) => old(self).wf() ==> final(self).wf(),
                Err(Error::WriteToReadOnly) => false,
                Err(Error::InvalidParameter) => false,
            },
    {
        let d = match self.read_register(Register::LcDivider) {
            Ok(v) => v,
            Err(e) => {
                return Err(e);
            },
        };
        let s0 = match self.read_register(Register::Sensor0Config) {
            Ok(v) => v,
            Err(e) => {
                return Err(e);
            },
        };
        let s1 = match self.read_register(Register::Sensor1Config) {
            Ok(v) => v,
            Err(e) => {
                return Err(e);
            },
        };
        let s2 = match self.read_register(Register::Sensor2Config) {
            Ok(v) => v,
            Err(e) => {
                return Err(e);
            },
        };
        let s3 = match self.read_register(Register::Sensor3Config) {
            Ok(v) => v,
            Err(e) => {
                return Err(e);
            },
        };
        self.lcdiv = d & 0x07;
        self.sency0 = s0 & 0x1F;
        self.sency1 = s1 & 0x1F;
        self.sency2 = s2 & 0x1F;
        self.sency3 = s3 & 0x1F;
        proof {
            assert(d & 0x07 < 8 && s0 & 0x1F < 32 && s1 & 0x1F < 32 && s2 & 0x1F < 32 && s3 & 0x1F
                < 32) by (bit_vector);
        }
        match self.write_register(Register::Reset, 0) {
            Ok(()) => {},
            Err(e) => {
                return Err(e);
            },
        }
        proof {
            assert(final(self).bus_history() =~= old(self).bus_history() + seq![
                read_transaction(Register::LcDivider.addr(), d),
                read_transaction(Register::Sensor0Config.addr(), s0),
                read_transaction(Register::Sensor1Config.addr(), s1),
                read_transaction(Register::Sensor2Config.addr(), s2),
                read_transaction(Register::Sensor3Config.addr(), s3),
                write_transaction(Register::Reset.addr(), 0),
            ]);
        }
        Ok(())
    }

    /// Read the Status register and report the chip-ready flag.
    ///
    /// Like any read of the Status register, this clears its
    /// clear-on-read flags on the device.
    pub fn is_chip_ready(&mut self) -> (r: Result<bool, Error<I2C::BusError>>)
        ensures
            final(self).shadow_state() == old(self).shadow_state(),
            match r {
                Ok(ready) => exists|v: u8|
                    #![auto]
                    {
                        &&& final(self).bus_history() == old(self).bus_history().push(
                            read_transaction(Register::Status.addr(), v),
                        )
                        &&& ready == (v & CHIP_READY != 0)
                    },
                Err(e) => e is I2c,
            },
    {
        let v = match self.read_register(Register::Status) {
            Ok(v) => v,
            Err(e) => {
                return Err(e);
            },
        };
        Ok(v & CHIP_READY != 0)
    }

    /// Read and decode the Status register.  The device clears the
    /// clear-on-read flags as a side effect.
    pub fn read_status(&mut self) -> (r: Result<Status, Error<I2C::BusError>>)
        ensures
            final(self).shadow_state() == old(self).shadow_state(),
            match r {
                Ok(status) => exists|v: u8|
                    #![auto]
                    {
                        &&& final(self).bus_history() == old(self).bus_history().push(
                            read_transaction(Register::Status.addr(), v),
                        )
                        &&& status == status_from_byte(v)
                    },
                Err(e) => e is I2c,
            },
    {
        let v = match self.read_register(Register::Status) {
            Ok(v) => v,
            Err(e) => {
                return Err(e);
            },
        };
        let status = Status {
            output_status: v & crate::register::OUT_STATUS != 0,
            chip_ready: v & crate::register::CHIP_READY != 0,
            ready_to_write: v & crate::register::RDY_TO_WRITE != 0,
            maximum_output_code: v & crate::register::MAXOUT != 0,
            fsm_watchdog_error: v & crate::register::FSM_WD != 0,
            lc_sensor_watchdog_error: v & crate::register::LC_WD != 0,
            button_timeout: v & crate::register::TIMEOUT != 0,
            register_integrity_bad: v & crate::register::REGISTER_FLAG != 0,
        };
        proof {
            assert(status == status_from_byte(v));
        }
        Ok(status)
    }

    /// Read and decode the Out register: the new-data flag and the
    /// four button output logic states.
    pub fn read_output_logic_states(&mut self) -> (r: Result<
        OutputLogicStates,
        Error<I2C::BusError>,
    >)
        ensures
            final(self).shadow_state() == old(self).shadow_state(),
            match r {
                Ok(states) => exists|v: u8|
                    #![auto]
                    {
                        &&& final(self).bus_history() == old(self).bus_history().push(
                            read_transaction(Register::Out.addr(), v),
                        )
                        &&& states == output_states_from_byte(v)
                    },
                Err(e) => e is I2c,
            },
    {
        let v = match self.read_register(Register::Out) {
            Ok(v) => v,
            Err(e) => {
                return Err(e);
            },
        };
        let states = OutputLogicStates {
            new_data_available: v & crate::register::DATA_RDY != 0,
            out0: v & crate::register::OUT0 != 0,
            out1: v & crate::register::OUT1 != 0,
            out2: v & crate::register::OUT2 != 0,
            out3: v & crate::register::OUT3 != 0,
        };
        proof {
            assert(states == output_states_from_byte(v));
        }
        Ok(states)
    }

    /// Read the channel's processed button data: a two-byte
    /// little-endian read interpreted as a signed 16-bit value.
    pub fn read_button_data<T: ChannelRegisters>(&mut self, ch: T) -> (r: Result<
        i16,
        Error<I2C::BusError>,
    >)
        ensures
            final(self).shadow_state() == old(self).shadow_state(),
            match r {
                Ok(value) => exists|b0: u8, b1: u8|
                    #![auto]
                    {
                        &&& final(self).bus_history() == old(self).bus_history().push(
                            BusTransaction::WriteRead {
                                reg: data_lsb_register(ch.ch()).addr(),
                                data: seq![b0, b1],
                            },
                        )
                        &&& value == i16_from_le_bytes(b0, b1)
                    },
                Err(e) => e is I2c,
            },
    {
        let reg = ch.data_lsb();
        let data = match self.i2c.write_read(reg.addr(), 2) {
            Ok(d) => d,
            Err(e) => {
                return Err(Error::I2c(e));
            },
        };
        let b0 = data[0];
        let b1 = data[1];
        proof {
            assert(data@ =~= seq![b0, b1]);
            assert(((b0 as u16) | ((b1 as u16) << 8)) as i16 == i16_from_le_bytes(b0, b1));
        }
        Ok(((b0 as u16) | ((b1 as u16) << 8)) as i16)
    }

    /// Read the channel's raw oscillator period count, a three-byte
    /// little-endian read zero-extended to 32 bits, and convert it to
    /// an oscillation frequency with the shadowed cycle count and LC
    /// divider.  A raw reading of zero is returned as zero directly,
    /// with no conversion arithmetic.
    ///
    /// The conversion is meaningful only after a [`Self::normal_mode`]
    /// transition has populated the shadows from the committed
    /// configuration; before that it uses the construction-time
    /// placeholders.
    pub fn read_raw_data<T: ChannelRegisters>(&mut self, ch: T) -> (r: Result<
        u32,
        Error<I2C::BusError>,
    >)
        requires
            old(self).wf(),
        ensures
            final(self).shadow_state() == old(self).shadow_state(),
            match r {
                Ok(frequency) => exists|b0: u8, b1: u8, b2: u8|
                    #![auto]
                    {
                        &&& final(self).bus_history() == old(self).bus_history().push(
                            BusTransaction::WriteRead {
                                reg: raw_data_lsb_register(ch.ch()).addr(),
                                data: seq![b0, b1, b2],
                            },
                        )
                        &&& frequency == raw_to_frequency(
                            u32_from_le_bytes(b0, b1, b2),
                            old(self).cycle_count_shadow(ch.ch()),
                            old(self).lc_divider_shadow(),
                        )
                    },
                Err(e) => e is I2c,
            },
    {
        let reg = ch.raw_data_lsb();
        let data = match self.i2c.write_read(reg.addr(), 3) {
            Ok(d) => d,
            Err(e) => {
                return Err(Error::I2c(e));
            },
        };
        let b0 = data[0];
        let b1 = data[1];
        let b2 = data[2];
        proof {
            assert(data@ =~= seq![b0, b1, b2]);
        }
        let raw: u32 = (b0 as u32) | ((b1 as u32) << 8) | ((b2 as u32) << 16);
        proof {
            assert(raw == u32_from_le_bytes(b0, b1, b2));
        }
        if raw == 0 {
            proof {
                assert(raw_to_frequency(
                    u32_from_le_bytes(b0, b1, b2),
                    old(self).cycle_count_shadow(ch.ch()),
                    old(self).lc_divider_shadow(),
                ) == 0);
            }
            return Ok(0);
        }
        let ci = ch.index();
        let cc: u8 = if ci == 0 {
            self.sency0
        } else if ci == 1 {
            self.sency1
        } else if ci == 2 {
            self.sency2
        } else {
            self.sency3
        };
        let div: u8 = self.lcdiv;
        let m1: u64 = (cc as u64) + 1;
        let m2: u64 = 2u64 << div;
        proof {
            assert(2u64 << div <= 256) by (bit_vector)
                requires
                    div < 8,
            ;
            assert(128u64 * m1 * m2 <= 1048576) by (nonlinear_arith)
                requires
                    m1 <= 32,
                    m2 <= 256,
            ;
        }
        let window: u64 = 128u64 * m1 * m2;
        let num: u64 = 30u64 * window * 44_000_000u64;
        let freq: u64 = num / (raw as u64);
        proof {
            assert(cc == old(self).cycle_count_shadow(ch.ch()));
            assert(div == old(self).lc_divider_shadow());
            assert(window == crate::codec::conversion_window(cc, div));
            assert(freq as u32 == raw_to_frequency(u32_from_le_bytes(b0, b1, b2), cc, div));
        }
        Ok(freq as u32)
    }

    /// Read the two-byte little-endian manufacturer identifier.
    pub fn read_manufacturer_id(&mut self) -> (r: Result<u16, Error<I2C::BusError>>)
        ensures
            final(self).shadow_state() == old(self).shadow_state(),
            match r {
                Ok(id) => exists|b0: u8, b1: u8|
                    #![auto]
                    {
                        &&& final(self).bus_history() == old(self).bus_history().push(
                            BusTransaction::WriteRead {
                                reg: Register::ManufacturerIdLsb.addr(),
                                data: seq![b0, b1],
                            },
                        )
                        &&& id == u16_from_le_bytes(b0, b1)
                    },
                Err(e) => e is I2c,
            },
    {
        let data = match self.i2c.write_read(Register::ManufacturerIdLsb.addr(), 2) {
            Ok(d) => d,
            Err(e) => {
                return Err(Error::I2c(e));
            },
        };
        let b0 = data[0];
        let b1 = data[1];
        proof {
            assert(data@ =~= seq![b0, b1]);
            assert((b0 as u16) | ((b1 as u16) << 8) == u16_from_le_bytes(b0, b1));
        }
        Ok((b0 as u16) | ((b1 as u16) << 8))
    }

    /// Read the two-byte little-endian device identifier.
    pub fn read_device_id(&mut self) -> (r: Result<u16, Error<I2C::BusError>>)
        ensures
            final(self).shadow_state() == old(self).shadow_state(),
            match r {
                Ok(id) => exists|b0: u8, b1: u8|
                    #![auto]
                    {
                        &&& final(self).bus_history() == old(self).bus_history().push(
                            BusTransaction::WriteRead {
                                reg: Register::DeviceIdLsb.addr(),
                                data: seq![b0, b1],
                            },
                        )
                        &&& id == u16_from_le_bytes(b0, b1)
                    },
                Err(e) => e is I2c,
            },
    {
        let data = match self.i2c.write_read(Register::DeviceIdLsb.addr(), 2) {
            Ok(d) => d,
            Err(e) => {
                return Err(Error::I2c(e));
            },
        };
        let b0 = data[0];
        let b1 = data[1];
        proof {
            assert(data@ =~= seq![b0, b1]);
            assert((b0 as u16) | ((b1 as u16) << 8) == u16_from_le_bytes(b0, b1));
        }
        Ok((b0 as u16) | ((b1 as u16) << 8))
    }

    /// Put the channel into the given operating mode, by one
    /// read-modify-write pair on the shared En register.
    ///
    /// Disabling clears both of the channel's bits; normal mode sets
    /// the enable bit and explicitly clears the low-power bit, so
    /// switching back from low-power operation is well defined; normal
    /// and low power mode sets both bits.
    pub fn set_channel_mode<T: ChannelRegisters>(&mut self, ch: T, mode: ChannelMode) -> (r: Result<
        (),
        Error<I2C::BusError>,
    >)
        ensures
            final(self).shadow_state() == old(self).shadow_state(),
            match r {
                Ok(()) => exists|v: u8|
                    #![auto]
                    final(self).bus_history() == old(self).bus_history() + seq![
                        read_transaction(Register::En.addr(), v),
                        write_transaction(Register::En.addr(), apply_mode(v, ch.ch(), mode)),
                    ],
                Err(e) => e is I2c,
            },
    {
        let v = match self.read_register(Register::En) {
            Ok(v) => v,
            Err(e) => {
                return Err(e);
            },
        };
        let en = ch.en_bit();
        let lpen = ch.lpen_bit();
        let w = match mode {
            ChannelMode::Disabled => v & !(en | lpen),
            ChannelMode::NormalMode => (v | en) & !lpen,
            ChannelMode::NormalAndLowPowerMode => v | (en | lpen),
        };
        let r = self.write_register(Register::En, w);
        proof {
            if r is Ok {
                assert(w == apply_mode(v, ch.ch(), mode));
                assert(final(self).bus_history() =~= old(self).bus_history() + seq![
                    read_transaction(Register::En.addr(), v),
                    write_transaction(Register::En.addr(), w),
                ]);
            }
        }
        r
    }

    /// Write the channel's gain to its own gain register.
    ///
    /// A gain of 64 or more is refused with
    /// [`Error::InvalidParameter`] before any bus transaction; a gain
    /// inside the domain is written exactly as given.
    pub fn set_channel_gain<T: ChannelRegisters>(&mut self, ch: T, gain: u8) -> (r: Result<
        (),
        Error<I2C::BusError>,
    >)
        ensures
            final(self).shadow_state() == old(self).shadow_state(),
            match r {
                Ok(()) => gain < 64 && final(self).bus_history() == old(self).bus_history().push(
                    write_transaction(gain_register(ch.ch()).addr(), gain),
                ),
                Err(Error::InvalidParameter) => gain >= 64 && final(self).bus_history() == old(
                    self,
                ).bus_history(),
                Err(Error::I2c(_)) => gain < 64,
                Err(Error::WriteToReadOnly) => false,
            },
    {
        if gain >= 64 {
            return Err(Error::InvalidParameter);
        }
        self.write_register(ch.gain(), gain)
    }

    /// Set the channel's button output polarity, by one
    /// read-modify-write pair on the shared OpolDpol register.
    pub fn set_output_polarity<T: ChannelRegisters>(
        &mut self,
        ch: T,
        polarity: OutputPolarity,
    ) -> (r: Result<(), Error<I2C::BusError>>)
        ensures
            final(self).shadow_state() == old(self).shadow_state(),
            match r {
                Ok(()) => exists|v: u8|
                    #![auto]
                    final(self).bus_history() == old(self).bus_history() + seq![
                        read_transaction(Register::OpolDpol.addr(), v),
                        write_transaction(
                            Register::OpolDpol.addr(),
                            apply_bit(v, opol_bit(ch.ch()), polarity is ActiveHigh),
                        ),
                    ],
                Err(e) => e is I2c,
            },
    {
        let v = match self.read_register(Register::OpolDpol) {
            Ok(v) => v,
            Err(e) => {
                return Err(e);
            },
        };
        let bit = ch.opol_bit();
        let w = match polarity {
            OutputPolarity::ActiveHigh => v | bit,
            OutputPolarity::ActiveLow => v & !bit,
        };
        let r = self.write_register(Register::OpolDpol, w);
        proof {
            if r is Ok {
                assert(w == apply_bit(v, opol_bit(ch.ch()), polarity is ActiveHigh));
                assert(final(self).bus_history() =~= old(self).bus_history() + seq![
                    read_transaction(Register::OpolDpol.addr(), v),
                    write_transaction(Register::OpolDpol.addr(), w),
                ]);
            }
        }
        r
    }

    /// Set the channel's processed data polarity, by one
    /// read-modify-write pair on the shared OpolDpol register.
    pub fn set_data_polarity<T: ChannelRegisters>(&mut self, ch: T, polarity: DataPolarity) -> (r:
        Result<(), Error<I2C::BusError>>)
        ensures
            final(self).shadow_state() == old(self).shadow_state(),
            match r {
                Ok(()) => exists|v: u8|
                    #![auto]
                    final(self).bus_history() == old(self).bus_history() + seq![
                        read_transaction(Register::OpolDpol.addr(), v),
                        write_transaction(
                            Register::OpolDpol.addr(),
                            apply_bit(v, dpol_bit(ch.ch()), polarity is Normal),
                        ),
                    ],
                Err(e) => e is I2c,
            },
    {
        let v = match self.read_register(Register::OpolDpol) {
            Ok(v) => v,
            Err(e) => {
                return Err(e);
            },
        };
        let bit = ch.dpol_bit();
        let w = match polarity {
            DataPolarity::Normal => v | bit,
            DataPolarity::Inverted => v & !bit,
        };
        let r = self.write_register(Register::OpolDpol, w);
        proof {
            if r is Ok {
                assert(w == apply_bit(v, dpol_bit(ch.ch()), polarity is Normal));
                assert(final(self).bus_history() =~= old(self).bus_history() + seq![
                    read_transaction(Register::OpolDpol.addr(), v),
                    write_transaction(Register::OpolDpol.addr(), w),
                ]);
            }
        }
        r
    }

    /// Set the channel's counter scale, by one read-modify-write pair
    /// replacing the channel's two-bit field of the shared Cntsc
    /// register.
    pub fn set_counter_scale<T: ChannelRegisters>(&mut self, ch: T, scale: CounterScale) -> (r:
        Result<(), Error<I2C::BusError>>)
        ensures
            final(self).shadow_state() == old(self).shadow_state(),
            match r {
                Ok(()) => exists|v: u8|
                    #![auto]
                    final(self).bus_history() == old(self).bus_history() + seq![
                        read_transaction(Register::Cntsc.addr(), v),
                        write_transaction(
                            Register::Cntsc.addr(),
                            apply_field(
                                v,
                                cntsc_mask(ch.ch()),
                                cntsc_offset(ch.ch()),
                                scale.spec_code(),
                            ),
                        ),
                    ],
                Err(e) => e is I2c,
            },
    {
        let v = match self.read_register(Register::Cntsc) {
            Ok(v) => v,
            Err(e) => {
                return Err(e);
            },
        };
        let mask = ch.cntsc_mask();
        let offset = ch.cntsc_offset();
        proof {
            assert(cntsc_offset(ch.ch()) < 8);
        }
        let w = (v & !mask) | (scale.code() << offset);
        let r = self.write_register(Register::Cntsc, w);
        proof {
            if r is Ok {
                assert(w == apply_field(
                    v,
                    cntsc_mask(ch.ch()),
                    cntsc_offset(ch.ch()),
                    scale.spec_code(),
                ));
                assert(final(self).bus_history() =~= old(self).bus_history() + seq![
                    read_transaction(Register::Cntsc.addr(), v),
                    write_transaction(Register::Cntsc.addr(), w),
                ]);
            }
        }
        r
    }

    /// Set the channel's fast tracking factor, by one
    /// read-modify-write pair replacing the channel's two-bit field of
    /// its fast-tracking register.  Channels 1 and 2 share one
    /// register; the pair leaves the other channel's field untouched.
    pub fn set_fast_tracking_factor<T: ChannelRegisters>(
        &mut self,
        ch: T,
        factor: FastTrackingFactor,
    ) -> (r: Result<(), Error<I2C::BusError>>)
        ensures
            final(self).shadow_state() == old(self).shadow_state(),
            match r {
                Ok(()) => exists|v: u8|
                    #![auto]
                    final(self).bus_history() == old(self).bus_history() + seq![
                        read_transaction(ftf_register(ch.ch()).addr(), v),
                        write_transaction(
                            ftf_register(ch.ch()).addr(),
                            apply_field(v, ftf_mask(ch.ch()), ftf_offset(ch.ch()), factor.spec_code()),
                        ),
                    ],
                Err(e) => e is I2c,
            },
    {
        let reg = ch.ftf();
        let v = match self.read_register(reg) {
            Ok(v) => v,
            Err(e) => {
                return Err(e);
            },
        };
        let mask = ch.ftf_mask();
        let offset = ch.ftf_offset();
        proof {
            assert(ftf_offset(ch.ch()) < 8);
        }
        let w = (v & !mask) | (factor.code() << offset);
        let r = self.write_register(reg, w);
        proof {
            if r is Ok {
                assert(w == apply_field(
                    v,
                    ftf_mask(ch.ch()),
                    ftf_offset(ch.ch()),
                    factor.spec_code(),
                ));
                assert(final(self).bus_history() =~= old(self).bus_history() + seq![
                    read_transaction(ftf_register(ch.ch()).addr(), v),
                    write_transaction(ftf_register(ch.ch()).addr(), w),
                ]);
            }
        }
        r
    }

    /// Write the channel's sensor configuration to its own sensor
    /// configuration register.
    ///
    /// A cycle count of 32 or more is refused with
    /// [`Error::InvalidParameter`] before any bus transaction.
    pub fn set_sensor_config<T: ChannelRegisters>(&mut self, ch: T, config: SensorConfig) -> (r:
        Result<(), Error<I2C::BusError>>)
        ensures
            final(self).shadow_state() == old(self).shadow_state(),
            match r {
                Ok(()) => sensor_config_valid(config) && final(self).bus_history() == old(
                    self,
                ).bus_history().push(
                    write_transaction(
                        sensor_config_register(ch.ch()).addr(),
                        sensor_config_byte(config),
                    ),
                ),
                Err(Error::InvalidParameter) => !sensor_config_valid(config) && final(self).bus_history() == old(self).bus_history(),
                Err(Error::I2c(_)) => sensor_config_valid(config),
                Err(Error::WriteToReadOnly) => false,
            },
    {
        if config.cycle_count >= 32 {
            return Err(Error::InvalidParameter);
        }
        let w = config.rp_range.code() | config.frequency_range.code() | config.cycle_count;
        proof {
            assert(w == sensor_config_byte(config));
        }
        self.write_register(ch.sensor_config(), w)
    }

    /// Include the channel in, or exclude it from, the max-win button
    /// algorithm group, by one read-modify-write pair on the shared
    /// BtPauseMaxWin register.
    pub fn set_max_win_algorithm<T: ChannelRegisters>(&mut self, ch: T, enable: bool) -> (r: Result<
        (),
        Error<I2C::BusError>,
    >)
        ensures
            final(self).shadow_state() == old(self).shadow_state(),
            match r {
                Ok(()) => exists|v: u8|
                    #![auto]
                    final(self).bus_history() == old(self).bus_history() + seq![
                        read_transaction(Register::BtPauseMaxWin.addr(), v),
                        write_transaction(
                            Register::BtPauseMaxWin.addr(),
                            apply_bit(v, maxwin_bit(ch.ch()), enable),
                        ),
                    ],
                Err(e) => e is I2c,
            },
    {
        let v = match self.read_register(Register::BtPauseMaxWin) {
            Ok(v) => v,
            Err(e) => {
                return Err(e);
            },
        };
        let bit = ch.maxwin_bit();
        let w = if enable {
            v | bit
        } else {
            v & !bit
        };
        let r = self.write_register(Register::BtPauseMaxWin, w);
        proof {
            if r is Ok {
                assert(w == apply_bit(v, maxwin_bit(ch.ch()), enable));
                assert(final(self).bus_history() =~= old(self).bus_history() + seq![
                    read_transaction(Register::BtPauseMaxWin.addr(), v),
                    write_transaction(Register::BtPauseMaxWin.addr(), w),
                ]);
            }
        }
        r
    }

    /// Include the channel in, or exclude it from, the anticommon
    /// group, by one read-modify-write pair on the shared CommonDeform
    /// register.
    pub fn set_anticommon_algorithm<T: ChannelRegisters>(&mut self, ch: T, enable: bool) -> (r: Result<
        (),
        Error<I2C::BusError>,
    >)
        ensures
            final(self).shadow_state() == old(self).shadow_state(),
            match r {
                Ok(()) => exists|v: u8|
                    #![auto]
                    final(self).bus_history() == old(self).bus_history() + seq![
                        read_transaction(Register::CommonDeform.addr(), v),
                        write_transaction(
                            Register::CommonDeform.addr(),
                            apply_bit(v, anticom_bit(ch.ch()), enable),
                        ),
                    ],
                Err(e) => e is I2c,
            },
    {
        let v = match self.read_register(Register::CommonDeform) {
            Ok(v) => v,
            Err(e) => {
                return Err(e);
            },
        };
        let bit = ch.anticom_bit();
        let w = if enable {
            v | bit
        } else {
            v & !bit
        };
        let r = self.write_register(Register::CommonDeform, w);
        proof {
            if r is Ok {
                assert(w == apply_bit(v, anticom_bit(ch.ch()), enable));
                assert(final(self).bus_history() =~= old(self).bus_history() + seq![
                    read_transaction(Register::CommonDeform.addr(), v),
                    write_transaction(Register::CommonDeform.addr(), w),
                ]);
            }
        }
        r
    }

    /// Include the channel in, or exclude it from, the antideform
    /// group, by one read-modify-write pair on the shared CommonDeform
    /// register.
    pub fn set_antideform_algorithm<T: ChannelRegisters>(&mut self, ch: T, enable: bool) -> (r: Result<
        (),
        Error<I2C::BusError>,
    >)
        ensures
            final(self).shadow_state() == old(self).shadow_state(),
            match r {
                Ok(()) => exists|v: u8|
                    #![auto]
                    final(self).bus_history() == old(self).bus_history() + seq![
                        read_transaction(Register::CommonDeform.addr(), v),
                        write_transaction(
                            Register::CommonDeform.addr(),
                            apply_bit(v, antidform_bit(ch.ch()), enable),
                        ),
                    ],
                Err(e) => e is I2c,
            },
    {
        let v = match self.read_register(Register::CommonDeform) {
            Ok(v) => v,
            Err(e) => {
                return Err(e);
            },
        };
        let bit = ch.antidform_bit();
        let w = if enable {
            v | bit
        } else {
            v & !bit
        };
        let r = self.write_register(Register::CommonDeform, w);
        proof {
            if r is Ok {
                assert(w == apply_bit(v, antidform_bit(ch.ch()), enable));
                assert(final(self).bus_history() =~= old(self).bus_history() + seq![
                    read_transaction(Register::CommonDeform.addr(), v),
                    write_transaction(Register::CommonDeform.addr(), w),
                ]);
            }
        }
        r
    }

    /// Pause, or resume, the channel's baseline tracking while its
    /// output is asserted, by one read-modify-write pair on the shared
    /// BtPauseMaxWin register.
    pub fn set_baseline_tracking_pause<T: ChannelRegisters>(&mut self, ch: T, pause: bool) -> (r: Result<
        (),
        Error<I2C::BusError>,
    >)
        ensures
            final(self).shadow_state() == old(self).shadow_state(),
            match r {
                Ok(()) => exists|v: u8|
                    #![auto]
                    final(self).bus_history() == old(self).bus_history() + seq![
                        read_transaction(Register::BtPauseMaxWin.addr(), v),
                        write_transaction(
                            Register::BtPauseMaxWin.addr(),
                            apply_bit(v, btpause_bit(ch.ch()), pause),
                        ),
                    ],
                Err(e) => e is I2c,
            },
    {
        let v = match self.read_register(Register::BtPauseMaxWin) {
            Ok(v) => v,
            Err(e) => {
                return Err(e);
            },
        };
        let bit = ch.btpause_bit();
        let w = if pause {
            v | bit
        } else {
            v & !bit
        };
        let r = self.write_register(Register::BtPauseMaxWin, w);
        proof {
            if r is Ok {
                assert(w == apply_bit(v, btpause_bit(ch.ch()), pause));
                assert(final(self).bus_history() =~= old(self).bus_history() + seq![
                    read_transaction(Register::BtPauseMaxWin.addr(), v),
                    write_transaction(Register::BtPauseMaxWin.addr(), w),
                ]);
            }
        }
        r
    }

    /// Write the normal power mode scan rate register.
    pub fn set_scan_rate(&mut self, rate: ScanRate) -> (r: Result<(), Error<I2C::BusError>>)
        ensures
            final(self).shadow_state() == old(self).shadow_state(),
            match r {
                Ok(()) => final(self).bus_history() == old(self).bus_history().push(
                    write_transaction(Register::NpScanRate.addr(), rate.spec_code()),
                ),
                Err(e) => e is I2c,
            },
    {
        self.write_register(Register::NpScanRate, rate.code())
    }

    /// Write the low power mode scan rate register.
    pub fn set_low_power_scan_rate(&mut self, rate: LowPowerScanRate) -> (r: Result<
        (),
        Error<I2C::BusError>,
    >)
        ensures
            final(self).shadow_state() == old(self).shadow_state(),
            match r {
                Ok(()) => final(self).bus_history() == old(self).bus_history().push(
                    write_transaction(Register::LpScanRate.addr(), rate.spec_code()),
                ),
                Err(e) => e is I2c,
            },
    {
        self.write_register(Register::LpScanRate, rate.code())
    }

    /// Set the interrupt pin polarity, by one read-modify-write pair
    /// on the IntPol register, leaving the register's other bits
    /// untouched.
    pub fn set_interrupt_polarity(&mut self, polarity: InterruptPolarity) -> (r: Result<
        (),
        Error<I2C::BusError>,
    >)
        ensures
            final(self).shadow_state() == old(self).shadow_state(),
            match r {
                Ok(()) => exists|v: u8|
                    #![auto]
                    final(self).bus_history() == old(self).bus_history() + seq![
                        read_transaction(Register::IntPol.addr(), v),
                        write_transaction(
                            Register::IntPol.addr(),
                            apply_bit(v, INTPOL, polarity is ActiveHigh),
                        ),
                    ],
                Err(e) => e is I2c,
            },
    {
        let v = match self.read_register(Register::IntPol) {
            Ok(v) => v,
            Err(e) => {
                return Err(e);
            },
        };
        let w = match polarity {
            InterruptPolarity::ActiveHigh => v | INTPOL,
            InterruptPolarity::ActiveLow => v & !INTPOL,
        };
        let r = self.write_register(Register::IntPol, w);
        proof {
            if r is Ok {
                assert(w == apply_bit(v, INTPOL, polarity is ActiveHigh));
                assert(final(self).bus_history() =~= old(self).bus_history() + seq![
                    read_transaction(Register::IntPol.addr(), v),
                    write_transaction(Register::IntPol.addr(), w),
                ]);
            }
        }
        r
    }

    /// Enable or disable the maximum-output-code check.  The hardware
    /// bit means "disable", so the flag is stored inverted.
    pub fn set_max_out_check(&mut self, enable: bool) -> (r: Result<(), Error<I2C::BusError>>)
        ensures
            final(self).shadow_state() == old(self).shadow_state(),
            match r {
                Ok(()) => exists|v: u8|
                    #![auto]
                    final(self).bus_history() == old(self).bus_history() + seq![
                        read_transaction(Register::IntPol.addr(), v),
                        write_transaction(
                            Register::IntPol.addr(),
                            apply_bit(v, DIS_BTB_MO, !enable),
                        ),
                    ],
                Err(e) => e is I2c,
            },
    {
        let v = match self.read_register(Register::IntPol) {
            Ok(v) => v,
            Err(e) => {
                return Err(e);
            },
        };
        let w = if !enable {
            v | DIS_BTB_MO
        } else {
            v & !DIS_BTB_MO
        };
        let r = self.write_register(Register::IntPol, w);
        proof {
            if r is Ok {
                assert(w == apply_bit(v, DIS_BTB_MO, !enable));
                assert(final(self).bus_history() =~= old(self).bus_history() + seq![
                    read_transaction(Register::IntPol.addr(), v),
                    write_transaction(Register::IntPol.addr(), w),
                ]);
            }
        }
        r
    }

    /// Enable or disable the fifty-second button timeout.  The
    /// hardware bit means "disable", so the flag is stored inverted.
    pub fn set_button_timeout(&mut self, enable: bool) -> (r: Result<(), Error<I2C::BusError>>)
        ensures
            final(self).shadow_state() == old(self).shadow_state(),
            match r {
                Ok(()) => exists|v: u8|
                    #![auto]
                    final(self).bus_history() == old(self).bus_history() + seq![
                        read_transaction(Register::IntPol.addr(), v),
                        write_transaction(
                            Register::IntPol.addr(),
                            apply_bit(v, DIS_BTN_TO, !enable),
                        ),
                    ],
                Err(e) => e is I2c,
            },
    {
        let v = match self.read_register(Register::IntPol) {
            Ok(v) => v,
            Err(e) => {
                return Err(e);
            },
        };
        let w = if !enable {
            v | DIS_BTN_TO
        } else {
            v & !DIS_BTN_TO
        };
        let r = self.write_register(Register::IntPol, w);
        proof {
            if r is Ok {
                assert(w == apply_bit(v, DIS_BTN_TO, !enable));
                assert(final(self).bus_history() =~= old(self).bus_history() + seq![
                    read_transaction(Register::IntPol.addr(), v),
                    write_transaction(Register::IntPol.addr(), w),
                ]);
            }
        }
        r
    }

    /// Enable or disable the button press detection algorithm that
    /// asserts events on the output pins.
    pub fn set_button_algorithm(&mut self, enable: bool) -> (r: Result<(), Error<I2C::BusError>>)
        ensures
            final(self).shadow_state() == old(self).shadow_state(),
            match r {
                Ok(()) => exists|v: u8|
                    #![auto]
                    final(self).bus_history() == old(self).bus_history() + seq![
                        read_transaction(Register::IntPol.addr(), v),
                        write_transaction(
                            Register::IntPol.addr(),
                            apply_bit(v, BTN_ALG_EN, enable),
                        ),
                    ],
                Err(e) => e is I2c,
            },
    {
        let v = match self.read_register(Register::IntPol) {
            Ok(v) => v,
            Err(e) => {
                return Err(e);
            },
        };
        let w = if enable {
            v | BTN_ALG_EN
        } else {
            v & !BTN_ALG_EN
        };
        let r = self.write_register(Register::IntPol, w);
        proof {
            if r is Ok {
                assert(w == apply_bit(v, BTN_ALG_EN, enable));
                assert(final(self).bus_history() =~= old(self).bus_history() + seq![
                    read_transaction(Register::IntPol.addr(), v),
                    write_transaction(Register::IntPol.addr(), w),
                ]);
            }
        }
        r
    }

    /// Enable or disable the reset of the button algorithm's baseline
    /// tracking value.
    pub fn set_baseline_tracking_reset(&mut self, enable: bool) -> (r: Result<(), Error<I2C::BusError>>)
        ensures
            final(self).shadow_state() == old(self).shadow_state(),
            match r {
                Ok(()) => exists|v: u8|
                    #![auto]
                    final(self).bus_history() == old(self).bus_history() + seq![
                        read_transaction(Register::IntPol.addr(), v),
                        write_transaction(
                            Register::IntPol.addr(),
                            apply_bit(v, BTSRT_EN, enable),
                        ),
                    ],
                Err(e) => e is I2c,
            },
    {
        let v = match self.read_register(Register::IntPol) {
            Ok(v) => v,
            Err(e) => {
                return Err(e);
            },
        };
        let w = if enable {
            v | BTSRT_EN
        } else {
            v & !BTSRT_EN
        };
        let r = self.write_register(Register::IntPol, w);
        proof {
            if r is Ok {
                assert(w == apply_bit(v, BTSRT_EN, enable));
                assert(final(self).bus_history() =~= old(self).bus_history() + seq![
                    read_transaction(Register::IntPol.addr(), v),
                    write_transaction(Register::IntPol.addr(), w),
                ]);
            }
        }
        r
    }

    /// Write the normal power baseline tracking increment register.
    ///
    /// A value of 8 or more is refused with
    /// [`Error::InvalidParameter`] before any bus transaction.
    pub fn set_baseline_tracking_increment_np(&mut self, increment: u8) -> (r: Result<(), Error<I2C::BusError>>)
        ensures
            final(self).shadow_state() == old(self).shadow_state(),
            match r {
                Ok(()) => increment < 8 && final(self).bus_history() == old(
                    self,
                ).bus_history().push(write_transaction(Register::NpBaseInc.addr(), increment)),
                Err(Error::InvalidParameter) => increment >= 8 && final(self).bus_history()
                    == old(self).bus_history(),
                Err(Error::I2c(_)) => increment < 8,
                Err(Error::WriteToReadOnly) => false,
            },
    {
        if increment >= 8 {
            return Err(Error::InvalidParameter);
        }
        self.write_register(Register::NpBaseInc, increment)
    }

    /// Write the low power baseline tracking increment register.
    ///
    /// A value of 8 or more is refused with
    /// [`Error::InvalidParameter`] before any bus transaction.
    pub fn set_baseline_tracking_increment_lp(&mut self, increment: u8) -> (r: Result<(), Error<I2C::BusError>>)
        ensures
            final(self).shadow_state() == old(self).shadow_state(),
            match r {
                Ok(()) => increment < 8 && final(self).bus_history() == old(
                    self,
                ).bus_history().push(write_transaction(Register::LpBaseInc.addr(), increment)),
                Err(Error::InvalidParameter) => increment >= 8 && final(self).bus_history()
                    == old(self).bus_history(),
                Err(Error::I2c(_)) => increment < 8,
                Err(Error::WriteToReadOnly) => false,
            },
    {
        if increment >= 8 {
            return Err(Error::InvalidParameter);
        }
        self.write_register(Register::LpBaseInc, increment)
    }

    /// Write the LC oscillation frequency divider register.
    ///
    /// A value of 8 or more is refused with
    /// [`Error::InvalidParameter`] before any bus transaction.
    pub fn set_lc_divider(&mut self, divider: u8) -> (r: Result<(), Error<I2C::BusError>>)
        ensures
            final(self).shadow_state() == old(self).shadow_state(),
            match r {
                Ok(()) => divider < 8 && final(self).bus_history() == old(
                    self,
                ).bus_history().push(write_transaction(Register::LcDivider.addr(), divider)),
                Err(Error::InvalidParameter) => divider >= 8 && final(self).bus_history()
                    == old(self).bus_history(),
                Err(Error::I2c(_)) => divider < 8,
                Err(Error::WriteToReadOnly) => false,
            },
    {
        if divider >= 8 {
            return Err(Error::InvalidParameter);
        }
        self.write_register(Register::LcDivider, divider)
    }

    /// Write the button algorithm threshold hysteresis register.
    ///
    /// A value of 16 or more is refused with
    /// [`Error::InvalidParameter`] before any bus transaction.
    pub fn set_hysteresis(&mut self, hysteresis: u8) -> (r: Result<(), Error<I2C::BusError>>)
        ensures
            final(self).shadow_state() == old(self).shadow_state(),
            match r {
                Ok(()) => hysteresis < 16 && final(self).bus_history() == old(
                    self,
                ).bus_history().push(write_transaction(Register::Hyst.addr(), hysteresis)),
                Err(Error::InvalidParameter) => hysteresis >= 16 && final(self).bus_history()
                    == old(self).bus_history(),
                Err(Error::I2c(_)) => hysteresis < 16,
                Err(Error::WriteToReadOnly) => false,
            },
    {
        if hysteresis >= 16 {
            return Err(Error::InvalidParameter);
        }
        self.write_register(Register::Hyst, hysteresis)
    }

    /// Write the button algorithm anti-twist register.
    ///
    /// A value of 8 or more is refused with
    /// [`Error::InvalidParameter`] before any bus transaction.
    pub fn set_antitwist(&mut self, antitwist: u8) -> (r: Result<(), Error<I2C::BusError>>)
        ensures
            final(self).shadow_state() == old(self).shadow_state(),
            match r {
                Ok(()) => antitwist < 8 && final(self).bus_history() == old(
                    self,
                ).bus_history().push(write_transaction(Register::Twist.addr(), antitwist)),
                Err(Error::InvalidParameter) => antitwist >= 8 && final(self).bus_history()
                    == old(self).bus_history(),
                Err(Error::I2c(_)) => antitwist < 8,
                Err(Error::WriteToReadOnly) => false,
            },
    {
        if antitwist >= 8 {
            return Err(Error::InvalidParameter);
        }
        self.write_register(Register::Twist, antitwist)
    }

    /// Apply one channel's full configuration, through the individual
    /// setters in a fixed sequence: mode, gain, output polarity,
    /// counter scale, fast tracking factor, data polarity, sensor
    /// configuration, max-win membership, anticommon membership,
    /// antideform membership and baseline-tracking pause.
    ///
    /// The sequence is not atomic: a failing step aborts it at once
    /// and the steps already performed remain applied, with no
    /// rollback.
    #[verifier::rlimit(60)]
    pub fn configure_channel<T: ChannelRegisters>(&mut self, ch: T, config: &ChannelConfig) -> (r:
        Result<(), Error<I2C::BusError>>)
        ensures
            final(self).shadow_state() == old(self).shadow_state(),
            match r {
                Ok(()) => channel_config_valid(*config) && exists|v: Seq<u8>|
                    #![auto]
                    v.len() == 9 && final(self).bus_history() == old(self).bus_history()
                        + channel_config_ops(ch.ch(), *config, v),
                Err(Error::InvalidParameter) => !channel_config_valid(*config),
                Err(Error::I2c(_)) => true,
                Err(Error::WriteToReadOnly) => false,
            },
    {
        let ghost h0 = self.bus_history();
        match self.set_channel_mode(ch, config.mode) {
            Ok(()) => {},
            Err(e) => {
                return Err(e);
            },
        }
        let ghost v0 = choose|v: u8|
            self.bus_history() == h0 + seq![
                read_transaction(Register::En.addr(), v),
                write_transaction(Register::En.addr(), apply_mode(v, ch.ch(), config.mode)),
            ];
        let ghost h1 = self.bus_history();
        match self.set_channel_gain(ch, config.gain) {
            Ok(()) => {},
            Err(e) => {
                return Err(e);
            },
        }
        let ghost h2 = self.bus_history();
        match self.set_output_polarity(ch, config.output_polarity) {
            Ok(()) => {},
            Err(e) => {
                return Err(e);
            },
        }
        let ghost v1 = choose|v: u8|
            self.bus_history() == h2 + seq![
                read_transaction(Register::OpolDpol.addr(), v),
                write_transaction(
                    Register::OpolDpol.addr(),
                    apply_bit(v, opol_bit(ch.ch()), config.output_polarity is ActiveHigh),
                ),
            ];
        let ghost h3 = self.bus_history();
        match self.set_counter_scale(ch, config.counter_scale) {
            Ok(()) => {},
            Err(e) => {
                return Err(e);
            },
        }
        let ghost v2 = choose|v: u8|
            self.bus_history() == h3 + seq![
                read_transaction(Register::Cntsc.addr(), v),
                write_transaction(
                    Register::Cntsc.addr(),
                    apply_field(
                        v,
                        cntsc_mask(ch.ch()),
                        cntsc_offset(ch.ch()),
                        config.counter_scale.spec_code(),
                    ),
                ),
            ];
        let ghost h4 = self.bus_history();
        match self.set_fast_tracking_factor(ch, config.fast_tracking_factor) {
            Ok(()) => {},
            Err(e) => {
                return Err(e);
            },
        }
        let ghost v3 = choose|v: u8|
            self.bus_history() == h4 + seq![
                read_transaction(ftf_register(ch.ch()).addr(), v),
                write_transaction(
                    ftf_register(ch.ch()).addr(),
                    apply_field(
                        v,
                        ftf_mask(ch.ch()),
                        ftf_offset(ch.ch()),
                        config.fast_tracking_factor.spec_code(),
                    ),
                ),
            ];
        let ghost h5 = self.bus_history();
        match self.set_data_polarity(ch, config.data_polarity) {
            Ok(()) => {},
            Err(e) => {
                return Err(e);
            },
        }
        let ghost v4 = choose|v: u8|
            self.bus_history() == h5 + seq![
                read_transaction(Register::OpolDpol.addr(), v),
                write_transaction(
                    Register::OpolDpol.addr(),
                    apply_bit(v, dpol_bit(ch.ch()), config.data_polarity is Normal),
                ),
            ];
        let ghost h6 = self.bus_history();
        match self.set_sensor_config(ch, config.sensor_config) {
            Ok(()) => {},
            Err(e) => {
                return Err(e);
            },
        }
        let ghost h7 = self.bus_history();
        match self.set_max_win_algorithm(ch, config.enable_max_win_button_algorithm) {
            Ok(()) => {},
            Err(e) => {
                return Err(e);
            },
        }
        let ghost v5 = choose|v: u8|
            self.bus_history() == h7 + seq![
                read_transaction(Register::BtPauseMaxWin.addr(), v),
                write_transaction(
                    Register::BtPauseMaxWin.addr(),
                    apply_bit(v, maxwin_bit(ch.ch()), config.enable_max_win_button_algorithm),
                ),
            ];
        let ghost h8 = self.bus_history();
        match self.set_anticommon_algorithm(ch, config.enable_anticommon_algorithm) {
            Ok(()) => {},
            Err(e) => {
                return Err(e);
            },
        }
        let ghost v6 = choose|v: u8|
            self.bus_history() == h8 + seq![
                read_transaction(Register::CommonDeform.addr(), v),
                write_transaction(
                    Register::CommonDeform.addr(),
                    apply_bit(v, anticom_bit(ch.ch()), config.enable_anticommon_algorithm),
                ),
            ];
        let ghost h9 = self.bus_history();
        match self.set_antideform_algorithm(ch, config.enable_antideform_algorithm) {
            Ok(()) => {},
            Err(e) => {
                return Err(e);
            },
        }
        let ghost v7 = choose|v: u8|
            self.bus_history() == h9 + seq![
                read_transaction(Register::CommonDeform.addr(), v),
                write_transaction(
                    Register::CommonDeform.addr(),
                    apply_bit(v, antidform_bit(ch.ch()), config.enable_antideform_algorithm),
                ),
            ];
        let ghost h10 = self.bus_history();
        match self.set_baseline_tracking_pause(ch, config.baseline_tracking_pause) {
            Ok(()) => {},
            Err(e) => {
                return Err(e);
            },
        }
        let ghost v8 = choose|v: u8|
            self.bus_history() == h10 + seq![
                read_transaction(Register::BtPauseMaxWin.addr(), v),
                write_transaction(
                    Register::BtPauseMaxWin.addr(),
                    apply_bit(v, btpause_bit(ch.ch()), config.baseline_tracking_pause),
                ),
            ];
        proof {
            lemma_channel_trace_assembly(
                h0,
                h1,
                h2,
                h3,
                h4,
                h5,
                h6,
                h7,
                h8,
                h9,
                h10,
                self.bus_history(),
                ch.ch(),
                *config,
                v0,
                v1,
                v2,
                v3,
                v4,
                v5,
                v6,
                v7,
                v8,
            );
            let w = seq![v0, v1, v2, v3, v4, v5, v6, v7, v8];
            assert(w.len() == 9 && self.bus_history() == h0 + channel_config_ops(
                ch.ch(),
                *config,
                w,
            ));
            assert(exists|v: Seq<u8>|
                #![auto]
                v.len() == 9 && self.bus_history() == h0 + channel_config_ops(
                    ch.ch(),
                    *config,
                    v,
                ));
        }
        Ok(())
    }

    /// Apply an entire device configuration by a fixed sequence of
    /// register writes: the shared enable byte, the four gains, the
    /// two scan rates, the interrupt and algorithm byte, the two
    /// baseline increments, the pause and max-win byte, the LC
    /// divider, the hysteresis, the anti-twist, the common and deform
    /// byte, the polarity byte, the counter-scale byte, the four
    /// sensor configurations and the three fast-tracking bytes.
    ///
    /// Each domain-restricted field is validated immediately before
    /// its own write, so a failing validation aborts the sequence with
    /// [`Error::InvalidParameter`], leaving the earlier writes
    /// applied, with no rollback; a transport failure aborts in the
    /// same way.
    #[verifier::rlimit(60)]
    pub fn set_device_configuration(&mut self, config: &DeviceConfig) -> (r: Result<
        (),
        Error<I2C::BusError>,
    >)
        ensures
            final(self).shadow_state() == old(self).shadow_state(),
            match r {
                Ok(()) => device_config_valid(*config) && final(self).bus_history() == old(
                    self,
                ).bus_history() + device_config_ops(*config),
                Err(Error::InvalidParameter) => !device_config_valid(*config),
                Err(Error::I2c(_)) => true,
                Err(Error::WriteToReadOnly) => false,
            },
    {
        let ghost h0 = self.bus_history();
        let en = encode_en(config);
        match self.write_register(Register::En, en) {
            Ok(()) => {},
            Err(e) => {
                return Err(e);
            },
        }
        match self.set_channel_gain(Channel0, config.ch0.gain) {
            Ok(()) => {},
            Err(e) => {
                return Err(e);
            },
        }
        match self.set_channel_gain(Channel1, config.ch1.gain) {
            Ok(()) => {},
            Err(e) => {
                return Err(e);
            },
        }
        match self.set_channel_gain(Channel2, config.ch2.gain) {
            Ok(()) => {},
            Err(e) => {
                return Err(e);
            },
        }
        match self.set_channel_gain(Channel3, config.ch3.gain) {
            Ok(()) => {},
            Err(e) => {
                return Err(e);
            },
        }
        match self.set_scan_rate(config.scan_rate) {
            Ok(()) => {},
            Err(e) => {
                return Err(e);
            },
        }
        match self.set_low_power_scan_rate(config.low_power_scan_rate) {
            Ok(()) => {},
            Err(e) => {
                return Err(e);
            },
        }
        let intpol = encode_intpol(config);
        match self.write_register(Register::IntPol, intpol) {
            Ok(()) => {},
            Err(e) => {
                return Err(e);
            },
        }
        match self.set_baseline_tracking_increment_np(config.baseline_tracking_increment_np) {
            Ok(()) => {},
            Err(e) => {
                return Err(e);
            },
        }
        match self.set_baseline_tracking_increment_lp(config.baseline_tracking_increment_lp) {
            Ok(()) => {},
            Err(e) => {
                return Err(e);
            },
        }
        let btp = encode_btpause_maxwin(config);
        match self.write_register(Register::BtPauseMaxWin, btp) {
            Ok(()) => {},
            Err(e) => {
                return Err(e);
            },
        }
        match self.set_lc_divider(config.lc_divider) {
            Ok(()) => {},
            Err(e) => {
                return Err(e);
            },
        }
        match self.set_hysteresis(config.hysteresis) {
            Ok(()) => {},
            Err(e) => {
                return Err(e);
            },
        }
        match self.set_antitwist(config.antitwist) {
            Ok(()) => {},
            Err(e) => {
                return Err(e);
            },
        }
        let cdef = encode_common_deform(config);
        match self.write_register(Register::CommonDeform, cdef) {
            Ok(()) => {},
            Err(e) => {
                return Err(e);
            },
        }
        let opdp = encode_opol_dpol(config);
        match self.write_register(Register::OpolDpol, opdp) {
            Ok(()) => {},
            Err(e) => {
                return Err(e);
            },
        }
        let cntsc = encode_cntsc(config);
        match self.write_register(Register::Cntsc, cntsc) {
            Ok(()) => {},
            Err(e) => {
                return Err(e);
            },
        }
        match self.set_sensor_config(Channel0, config.ch0.sensor_config) {
            Ok(()) => {},
            Err(e) => {
                return Err(e);
            },
        }
        match self.set_sensor_config(Channel1, config.ch1.sensor_config) {
            Ok(()) => {},
            Err(e) => {
                return Err(e);
            },
        }
        match self.set_sensor_config(Channel2, config.ch2.sensor_config) {
            Ok(()) => {},
            Err(e) => {
                return Err(e);
            },
        }
        match self.set_sensor_config(Channel3, config.ch3.sensor_config) {
            Ok(()) => {},
            Err(e) => {
                return Err(e);
            },
        }
        let ftf0 = config.ch0.fast_tracking_factor.code() << 1;
        match self.write_register(Register::Ftf0, ftf0) {
            Ok(()) => {},
            Err(e) => {
                return Err(e);
            },
        }
        let ftf12 = (config.ch1.fast_tracking_factor.code() << 4) | (
        config.ch2.fast_tracking_factor.code() << 6);
        match self.write_register(Register::Ftf1_2, ftf12) {
            Ok(()) => {},
            Err(e) => {
                return Err(e);
            },
        }
        let ftf3 = config.ch3.fast_tracking_factor.code();
        match self.write_register(Register::Ftf3, ftf3) {
            Ok(()) => {},
            Err(e) => {
                return Err(e);
            },
        }
        proof {
            assert(self.bus_history() =~= h0 + device_config_ops(*config));
        }
        Ok(())
    }
}

} // verus!
