//! Driver for a 6-axis inertial sensor (3-axis gyroscope, 3-axis
//! accelerometer, die temperature) behind a byte-oriented register bus.
//!
//! The driver translates the flat 8-bit register address space with
//! sub-byte bit-fields into typed configuration values and raw sensor
//! counts, and carries an iterative gyroscope offset calibration that
//! drives the hardware offset registers toward zero mean output.

pub mod bits;
pub mod bus;
pub mod calibration;
pub mod conversion;
pub mod device;

use vstd::prelude::*;

use crate::bus::{Bus, BusOp, Delay};
use crate::device::{AccelRange, GyroRange, ACCEL_HPF, CLKSEL};

verus! {

broadcast use vstd::function::group_function_axioms;

/// All possible errors in this crate.
#[derive(Debug, PartialEq, Eq)]
pub enum Mpu6050Error<E> {
    /// Bus transport error, wrapping whatever the bus reported.
    I2c(E),
    /// The chip's self-reported identity byte did not match the
    /// expected constant; carries the byte that was read.
    InvalidChipId(u8),
}

/// A 3-axis vector of signed integer counts.
#[derive(Clone, Copy, Debug, PartialEq, Eq, Structural)]
pub struct Vector3i {
    pub x: i32,
    pub y: i32,
    pub z: i32,
}

impl Vector3i {
    /// The zero vector.
    pub open spec fn spec_zero() -> Vector3i {
        Vector3i { x: 0, y: 0, z: 0 }
    }

    /// Returns the zero vector.
    pub fn zero() -> (r: Vector3i)
        ensures
            r == Vector3i::spec_zero(),
    {
        Vector3i { x: 0, y: 0, z: 0 }
    }
}

/// The transaction a register read issues: the register address sent,
/// then `data` read back.
pub open spec fn op_read(addr: u8, reg: u8, data: Seq<u8>) -> BusOp {
    BusOp::WriteRead { addr, bytes: seq![reg], data }
}

/// The transaction a single-byte register write issues.
pub open spec fn op_write_byte(addr: u8, reg: u8, byte: u8) -> BusOp {
    BusOp::Write { addr, bytes: seq![reg, byte] }
}

/// The transaction a 16-bit register-pair write issues: the register
/// address, the high byte, then the low byte, in one transaction.
pub open spec fn op_write_word(addr: u8, reg: u8, word: u16) -> BusOp {
    BusOp::Write { addr, bytes: seq![reg, (word >> 8u16) as u8, (word & 0xffu16) as u8] }
}

/// The two transactions of a read-modify-write of one bit: one read of
/// the register, then one write of the read byte with bit `n` replaced.
pub open spec fn rmw_bit_ops(
    pre: Seq<BusOp>,
    post: Seq<BusOp>,
    addr: u8,
    reg: u8,
    n: u8,
    enable: bool,
) -> bool {
    exists|b0: u8|
        post == pre.push(op_read(addr, reg, seq![b0])).push(
            op_write_byte(addr, reg, bits::spec_set_bit(b0, n, enable)),
        )
}

/// The two transactions of a read-modify-write of a bit field: one read
/// of the register, then one write of the read byte with the field
/// `(start, length)` replaced by `value`.
pub open spec fn rmw_bits_ops(
    pre: Seq<BusOp>,
    post: Seq<BusOp>,
    addr: u8,
    reg: u8,
    start: u8,
    length: u8,
    value: u8,
) -> bool {
    exists|b0: u8|
        post == pre.push(op_read(addr, reg, seq![b0])).push(
            op_write_byte(addr, reg, bits::spec_set_bits(b0, start, length, value)),
        )
}

/// What a failed read-modify-write of one bit leaves in the transaction
/// log: the read alone (the read failed, so no write was issued at
/// all), or the read and the one write, whose byte is exactly the read
/// byte with bit `n` replaced (the write failed).
pub open spec fn rmw_bit_aborted(
    pre: Seq<BusOp>,
    post: Seq<BusOp>,
    addr: u8,
    reg: u8,
    n: u8,
    enable: bool,
) -> bool {
    (exists|d: Seq<u8>| post == pre.push(op_read(addr, reg, d))) || (exists|b0: u8|
        post == pre.push(op_read(addr, reg, seq![b0])).push(
            op_write_byte(addr, reg, bits::spec_set_bit(b0, n, enable)),
        ))
}

/// What a failed read-modify-write of a bit field leaves in the
/// transaction log: the read alone (the read failed, so no write was
/// issued at all), or the read and the one write, whose byte is exactly
/// the read byte with the field replaced (the write failed).
pub open spec fn rmw_bits_aborted(
    pre: Seq<BusOp>,
    post: Seq<BusOp>,
    addr: u8,
    reg: u8,
    start: u8,
    length: u8,
    value: u8,
) -> bool {
    (exists|d: Seq<u8>| post == pre.push(op_read(addr, reg, d))) || (exists|b0: u8|
        post == pre.push(op_read(addr, reg, seq![b0])).push(
            op_write_byte(addr, reg, bits::spec_set_bits(b0, start, length, value)),
        ))
}

/// The seven fixed configuration writes of the motion detection setup,
/// in order: wake with all clocks default, interrupt pin active high
/// until the status register is read, digital high-pass filter at 5 Hz,
/// motion threshold, motion duration (1 ms per count), free-fall and
/// motion decrements with a 5 ms accelerometer start-up delay, and the
/// motion interrupt enable bit.
pub open spec fn motion_setup_ops(addr: u8) -> Seq<BusOp> {
    seq![
        op_write_byte(addr, device::PWR_MGMT_1_ADDR, 0x00),
        op_write_byte(addr, device::INT_PIN_CFG_ADDR, 0x20),
        op_write_byte(addr, device::ACCEL_CONFIG_ADDR, 0x01),
        op_write_byte(addr, device::MOT_THR, 10),
        op_write_byte(addr, device::MOT_DUR, 40),
        op_write_byte(addr, device::MOT_DETECT_CTRL, 0x15),
        op_write_byte(addr, device::INT_ENABLE_ADDR, 0x40),
    ]
}

/// The complete transaction log of a successful initialisation: the
/// wake write, the identity read returning the expected chip id, then
/// one read-modify-write pair each for the accelerometer range, the
/// gyroscope range and the accelerometer high-pass filter.
pub open spec fn init_ok_ops(pre: Seq<BusOp>, post: Seq<BusOp>, addr: u8) -> bool {
    exists|b1: u8, b2: u8, b3: u8|
        post == pre.push(op_write_byte(addr, device::PWR_MGMT_1_ADDR, 0x01)).push(
            op_read(addr, device::WHOAMI, seq![device::DEFAULT_SLAVE_ADDR]),
        ).push(op_read(addr, device::ACCEL_CONFIG_ADDR, seq![b1])).push(
            op_write_byte(
                addr,
                device::ACCEL_CONFIG_ADDR,
                bits::spec_set_bits(
                    b1,
                    device::ACCEL_CONFIG_FS_SEL_START,
                    device::ACCEL_CONFIG_FS_SEL_LENGTH,
                    AccelRange::G2.spec_code(),
                ),
            ),
        ).push(op_read(addr, device::GYRO_CONFIG_ADDR, seq![b2])).push(
            op_write_byte(
                addr,
                device::GYRO_CONFIG_ADDR,
                bits::spec_set_bits(
                    b2,
                    device::GYRO_CONFIG_FS_SEL_START,
                    device::GYRO_CONFIG_FS_SEL_LENGTH,
                    GyroRange::D250.spec_code(),
                ),
            ),
        ).push(op_read(addr, device::ACCEL_CONFIG_ADDR, seq![b3])).push(
            op_write_byte(
                addr,
                device::ACCEL_CONFIG_ADDR,
                bits::spec_set_bits(
                    b3,
                    device::ACCEL_CONFIG_HPF_START,
                    device::ACCEL_CONFIG_HPF_LENGTH,
                    ACCEL_HPF::_RESET.spec_code(),
                ),
            ),
        )
}

/// The transaction of a successful single-bit read: one read of the
/// register, whose byte has `value` at bit `n`.
pub open spec fn bit_read_ops(
    pre: Seq<BusOp>,
    post: Seq<BusOp>,
    addr: u8,
    reg: u8,
    n: u8,
    value: u8,
) -> bool {
    exists|b0: u8|
        post == pre.push(op_read(addr, reg, seq![b0])) && value == bits::spec_get_bit(b0, n)
}

/// The transaction of a successful bit-field read: one read of the
/// register, whose byte holds `code` in the field `(start, length)`.
pub open spec fn field_read_ops(
    pre: Seq<BusOp>,
    post: Seq<BusOp>,
    addr: u8,
    reg: u8,
    start: u8,
    length: u8,
    code: u8,
) -> bool {
    exists|b0: u8|
        post == pre.push(op_read(addr, reg, seq![b0])) && code == bits::spec_get_bits(
            b0,
            start,
            length,
        )
}

/// Whether `op` is one gyroscope sample transaction: a six-byte read of
/// the gyroscope output block on the device at `addr`.
pub open spec fn is_gyro_sample_read(op: BusOp, addr: u8) -> bool {
    match op {
        BusOp::WriteRead { addr: a, bytes, data } => a == addr && bytes == seq![
            device::GYRO_REGX_H,
        ] && data.len() == 6,
        BusOp::Write { .. } => false,
    }
}

/// The word of axis `a` (0 for x, 1 for y, 2 for z) decoded from the
/// data of one sample read.
pub open spec fn sample_word(op: BusOp, a: int) -> int {
    match op {
        BusOp::WriteRead { addr, bytes, data } => conversion::spec_word_2c(
            data[2 * a],
            data[2 * a + 1],
        ),
        BusOp::Write { .. } => 0,
    }
}

/// The sum, for axis `a`, of the words decoded from a run of sample
/// reads.
pub open spec fn sample_sum(ops: Seq<BusOp>, a: int) -> int
    decreases ops.len(),
{
    if ops.len() == 0 {
        0
    } else {
        sample_sum(ops.drop_last(), a) + sample_word(ops.last(), a)
    }
}

/// One sampling pass of the calibration engine, as it appears in the
/// transaction log: the log grew by exactly `SETTLING_COUNT` discarded
/// reads plus `MEASUREMENT_COUNT` measured reads, every one a six-byte
/// read of the gyroscope output block, and `sums` holds per axis the
/// sum of the words decoded from the measured reads plus
/// `MEASUREMENT_COUNT` times the fine-tune component (the residual is
/// added to every decoded sample).
pub open spec fn sampling_ops(
    pre: Seq<BusOp>,
    post: Seq<BusOp>,
    addr: u8,
    fine: Vector3i,
    sums: Vector3i,
) -> bool {
    &&& post.len() == pre.len() + calibration::SETTLING_COUNT + calibration::MEASUREMENT_COUNT
    &&& pre.is_prefix_of(post)
    &&& forall|j: int|
        pre.len() <= j < post.len() ==> #[trigger] is_gyro_sample_read(post[j], addr)
    &&& sums.x == sample_sum(post.skip(pre.len() + calibration::SETTLING_COUNT as int), 0)
        + calibration::MEASUREMENT_COUNT * fine.x
    &&& sums.y == sample_sum(post.skip(pre.len() + calibration::SETTLING_COUNT as int), 1)
        + calibration::MEASUREMENT_COUNT * fine.y
    &&& sums.z == sample_sum(post.skip(pre.len() + calibration::SETTLING_COUNT as int), 2)
        + calibration::MEASUREMENT_COUNT * fine.z
}

/// All three axes of a round's sums strictly within the tolerance band.
pub open spec fn spec_all_within_tolerance(s: Vector3i) -> bool {
    &&& calibration::spec_within_tolerance(s.x as int)
    &&& calibration::spec_within_tolerance(s.y as int)
    &&& calibration::spec_within_tolerance(s.z as int)
}

/// The fine-tune residual `fine` is the one captured from the sums `s`:
/// per axis, the negated truncated mean.
pub open spec fn spec_fine_tune_of_sums(fine: Vector3i, s: Vector3i) -> bool {
    &&& fine.x as int == calibration::spec_fine_tune(s.x as int)
    &&& fine.y as int == calibration::spec_fine_tune(s.y as int)
    &&& fine.z as int == calibration::spec_fine_tune(s.z as int)
}

/// One complete calibration round, as it appears in the transaction
/// log: a sampling pass taken with zero fine-tune residual yielding the
/// per-axis sums `s`, the three hardware-offset reads, then the
/// write-back of the three offsets, each adjusted by the round's sums
/// and truncated to a 16-bit word.
pub open spec fn round_ops(pre: Seq<BusOp>, post: Seq<BusOp>, addr: u8, s: Vector3i) -> bool {
    exists|mid: Seq<BusOp>, d1: Seq<u8>, d2: Seq<u8>, d3: Seq<u8>|
        {
            &&& sampling_ops(pre, mid, addr, Vector3i::spec_zero(), s)
            &&& d1.len() == 2
            &&& d2.len() == 2
            &&& d3.len() == 2
            &&& post == mid.push(op_read(addr, device::XG_OFFS_USRH, d1)).push(
                op_read(addr, device::YG_OFFS_USRH, d2),
            ).push(op_read(addr, device::ZG_OFFS_USRH, d3)) + offsets_write_ops(
                addr,
                #[verifier::truncate] (calibration::spec_adjusted_offset(
                    conversion::spec_word_2c(d1[0], d1[1]),
                    s.x as int,
                ) as i16),
                #[verifier::truncate] (calibration::spec_adjusted_offset(
                    conversion::spec_word_2c(d2[0], d2[1]),
                    s.y as int,
                ) as i16),
                #[verifier::truncate] (calibration::spec_adjusted_offset(
                    conversion::spec_word_2c(d3[0], d3[1]),
                    s.z as int,
                ) as i16),
            )
        }
}

/// `k` consecutive calibration rounds in the transaction log: every
/// round before the last saw an axis outside the tolerance band (so the
/// loop went on), and `last` holds the last round's sums.
pub open spec fn rounds_ops(
    pre: Seq<BusOp>,
    post: Seq<BusOp>,
    addr: u8,
    k: int,
    last: Vector3i,
) -> bool
    decreases k,
{
    if k <= 0 {
        false
    } else if k == 1 {
        round_ops(pre, post, addr, last)
    } else {
        exists|mid: Seq<BusOp>, s: Vector3i|
            {
                &&& round_ops(pre, mid, addr, s)
                &&& !spec_all_within_tolerance(s)
                &&& rounds_ops(mid, post, addr, k - 1, last)
            }
    }
}

/// A run of `k` rounds whose last round did not converge, followed by
/// one more round, is a run of `k + 1` rounds.
proof fn lemma_rounds_append(
    pre: Seq<BusOp>,
    mid: Seq<BusOp>,
    post: Seq<BusOp>,
    addr: u8,
    k: int,
    last: Vector3i,
    s: Vector3i,
)
    requires
        rounds_ops(pre, mid, addr, k, last),
        !spec_all_within_tolerance(last),
        round_ops(mid, post, addr, s),
    ensures
        rounds_ops(pre, post, addr, k + 1, s),
    decreases k,
{
    if k == 1 {
        assert(rounds_ops(mid, post, addr, 1, s));
    } else {
        let (m1, s1) = choose|m1: Seq<BusOp>, s1: Vector3i|
            {
                &&& round_ops(pre, m1, addr, s1)
                &&& !spec_all_within_tolerance(s1)
                &&& rounds_ops(m1, mid, addr, k - 1, last)
            };
        lemma_rounds_append(m1, mid, post, addr, k - 1, last, s);
        assert(rounds_ops(pre, post, addr, k + 1, s));
    }
}

/// What a failed register read leaves in the transaction log: the one
/// read transaction.
pub open spec fn read_failed(pre: Seq<BusOp>, post: Seq<BusOp>, addr: u8, reg: u8) -> bool {
    exists|d: Seq<u8>| post == pre.push(op_read(addr, reg, d))
}

/// Handle of one sensor on the bus: the device address, the cached
/// sensitivity of each configured range, and the software fine-tune
/// residual applied to every gyroscope read.
pub struct Mpu6050<B: Bus> {
    i2c: B,
    slave_addr: u8,
    acc_sensitivity: u16,
    gyro_sensitivity_deci: u16,
    gyro_fine_tune_offsets: Vector3i,
}

impl<B: Bus> Mpu6050<B> {
    /// The ghost log of bus transactions issued so far.
    pub closed spec fn bus_ops(&self) -> Seq<BusOp> {
        self.i2c.ops()
    }

    /// The bus address the handle talks to.
    pub closed spec fn spec_slave_addr(&self) -> u8 {
        self.slave_addr
    }

    /// The cached accelerometer sensitivity, in counts per g.
    pub closed spec fn spec_acc_sensitivity(&self) -> u16 {
        self.acc_sensitivity
    }

    /// The cached gyroscope sensitivity, in tenths of a count per
    /// degree/s.
    pub closed spec fn spec_gyro_sensitivity_deci(&self) -> u16 {
        self.gyro_sensitivity_deci
    }

    /// The software fine-tune residual added to every gyroscope read.
    pub closed spec fn spec_fine_tune(&self) -> Vector3i {
        self.gyro_fine_tune_offsets
    }

    /// Well-formedness: the cached sensitivities are positive (they only
    /// ever hold table values) and the fine-tune residual is bounded by
    /// the largest magnitude a truncated mean can take.
    pub open spec fn wf(&self) -> bool {
        &&& self.spec_acc_sensitivity() > 0
        &&& self.spec_gyro_sensitivity_deci() > 0
        &&& calibration::spec_abs(self.spec_fine_tune().x as int) <= 65536
        &&& calibration::spec_abs(self.spec_fine_tune().y as int) <= 65536
        &&& calibration::spec_abs(self.spec_fine_tune().z as int) <= 65536
    }

    /// The configuration the register operations leave untouched:
    /// everything of the handle but the bus itself.
    pub open spec fn same_cfg(&self, other: &Self) -> bool {
        &&& self.spec_slave_addr() == other.spec_slave_addr()
        &&& self.spec_acc_sensitivity() == other.spec_acc_sensitivity()
        &&& self.spec_gyro_sensitivity_deci() == other.spec_gyro_sensitivity_deci()
        &&& self.spec_fine_tune() == other.spec_fine_tune()
    }

    /// Side-effect-free constructor with default sensitivities and the
    /// default bus address; no calibration.
    pub fn new(i2c: B) -> (r: Mpu6050<B>)
        ensures
            r.bus_ops() == i2c.ops(),
            r.spec_slave_addr() == device::DEFAULT_SLAVE_ADDR,
            r.spec_acc_sensitivity() == AccelRange::G2.spec_sensitivity(),
            r.spec_gyro_sensitivity_deci() == GyroRange::D250.spec_sensitivity_deci(),
            r.spec_fine_tune() == Vector3i::spec_zero(),
            r.wf(),
    {
        Mpu6050 {
            i2c,
            slave_addr: device::DEFAULT_SLAVE_ADDR,
            acc_sensitivity: AccelRange::G2.sensitivity(),
            gyro_sensitivity_deci: GyroRange::D250.sensitivity_deci(),
            gyro_fine_tune_offsets: Vector3i::zero(),
        }
    }

    /// Constructor with custom ranges; the cached sensitivities start at
    /// the table values of the given ranges.
    pub fn new_with_sens(i2c: B, arange: AccelRange, grange: GyroRange) -> (r: Mpu6050<B>)
        ensures
            r.bus_ops() == i2c.ops(),
            r.spec_slave_addr() == device::DEFAULT_SLAVE_ADDR,
            r.spec_acc_sensitivity() == arange.spec_sensitivity(),
            r.spec_gyro_sensitivity_deci() == grange.spec_sensitivity_deci(),
            r.spec_fine_tune() == Vector3i::spec_zero(),
            r.wf(),
    {
        Mpu6050 {
            i2c,
            slave_addr: device::DEFAULT_SLAVE_ADDR,
            acc_sensitivity: arange.sensitivity(),
            gyro_sensitivity_deci: grange.sensitivity_deci(),
            gyro_fine_tune_offsets: Vector3i::zero(),
        }
    }

    /// Same as `new`, but the chip address can be specified (e.g. 0x69,
    /// if the AD0 pin is pulled up).
    pub fn new_with_addr(i2c: B, slave_addr: u8) -> (r: Mpu6050<B>)
        ensures
            r.bus_ops() == i2c.ops(),
            r.spec_slave_addr() == slave_addr,
            r.spec_acc_sensitivity() == AccelRange::G2.spec_sensitivity(),
            r.spec_gyro_sensitivity_deci() == GyroRange::D250.spec_sensitivity_deci(),
            r.spec_fine_tune() == Vector3i::spec_zero(),
            r.wf(),
    {
        Mpu6050 {
            i2c,
            slave_addr,
            acc_sensitivity: AccelRange::G2.sensitivity(),
            gyro_sensitivity_deci: GyroRange::D250.sensitivity_deci(),
            gyro_fine_tune_offsets: Vector3i::zero(),
        }
    }

    /// Combination of `new_with_sens` and `new_with_addr`.
    pub fn new_with_addr_and_sens(
        i2c: B,
        slave_addr: u8,
        arange: AccelRange,
        grange: GyroRange,
    ) -> (r: Mpu6050<B>)
        ensures
            r.bus_ops() == i2c.ops(),
            r.spec_slave_addr() == slave_addr,
            r.spec_acc_sensitivity() == arange.spec_sensitivity(),
            r.spec_gyro_sensitivity_deci() == grange.spec_sensitivity_deci(),
            r.spec_fine_tune() == Vector3i::spec_zero(),
            r.wf(),
    {
        Mpu6050 {
            i2c,
            slave_addr,
            acc_sensitivity: arange.sensitivity(),
            gyro_sensitivity_deci: grange.sensitivity_deci(),
            gyro_fine_tune_offsets: Vector3i::zero(),
        }
    }

    /// Consumes the handle and hands the bus back.
    pub fn release(self) -> (r: B)
        ensures
            r.ops() == self.bus_ops(),
    {
        self.i2c
    }

    /// Returns the cached accelerometer sensitivity, in counts per g.
    pub fn acc_sensitivity(&self) -> (r: u16)
        ensures
            r == self.spec_acc_sensitivity(),
    {
        self.acc_sensitivity
    }

    /// Returns the cached gyroscope sensitivity, in tenths of a count
    /// per degree/s.
    pub fn gyro_sensitivity_deci(&self) -> (r: u16)
        ensures
            r == self.spec_gyro_sensitivity_deci(),
    {
        self.gyro_sensitivity_deci
    }

    /// Returns the software fine-tune residual currently applied to
    /// every gyroscope read.
    pub fn gyro_fine_tune_offsets(&self) -> (r: Vector3i)
        ensures
            r == self.spec_fine_tune(),
    {
        self.gyro_fine_tune_offsets
    }

    /// Reads `len` bytes starting at register `reg` (the device
    /// increments the register address internally), in one transaction.
    pub fn read_bytes(&mut self, reg: u8, len: usize) -> (r: Result<
        Vec<u8>,
        Mpu6050Error<B::BusError>,
    >)
        ensures
            final(self).same_cfg(old(self)),
            old(self).bus_ops().is_prefix_of(final(self).bus_ops()),
            r matches Ok(data) ==> data@.len() == len && final(self).bus_ops() == old(
                self,
            ).bus_ops().push(op_read(old(self).spec_slave_addr(), reg, data@)),
            r matches Err(err) ==> err is I2c,
            r is Err ==> exists|d: Seq<u8>|
                final(self).bus_ops() == old(self).bus_ops().push(
                    op_read(old(self).spec_slave_addr(), reg, d),
                ),
    {
        let mut out: Vec<u8> = Vec::new();
        out.push(reg);
        proof {
            assert(out@ =~= seq![reg]);
        }
        let ghost pre_ops = self.i2c.ops();
        let ghost addr = self.slave_addr;
        match self.i2c.write_then_read(self.slave_addr, &out, len) {
            Ok(data) => {
                proof {
                    bus::lemma_push_extends_log(pre_ops, op_read(addr, reg, data@));
                }
                Ok(data)
            },
            Err(e) => {
                proof {
                    let d0 = choose|d0: Seq<u8>|
                        self.i2c.ops() == pre_ops.push(
                            BusOp::WriteRead { addr, bytes: out@, data: d0 },
                        );
                    assert(self.i2c.ops() == pre_ops.push(op_read(addr, reg, d0)));
                    bus::lemma_push_extends_log(pre_ops, op_read(addr, reg, d0));
                }
                Err(Mpu6050Error::I2c(e))
            },
        }
    }

    /// Reads one byte from register `reg`.
    pub fn read_byte(&mut self, reg: u8) -> (r: Result<u8, Mpu6050Error<B::BusError>>)
        ensures
            final(self).same_cfg(old(self)),
            old(self).bus_ops().is_prefix_of(final(self).bus_ops()),
            r matches Ok(b) ==> final(self).bus_ops() == old(self).bus_ops().push(
                op_read(old(self).spec_slave_addr(), reg, seq![b]),
            ),
            r matches Err(err) ==> err is I2c,
            r is Err ==> exists|d: Seq<u8>|
                final(self).bus_ops() == old(self).bus_ops().push(
                    op_read(old(self).spec_slave_addr(), reg, d),
                ),
    {
        let data = self.read_bytes(reg, 1)?;
        let b = data[0];
        proof {
            assert(data@ =~= seq![b]);
        }
        Ok(b)
    }

    /// Writes one byte to register `reg`, in one transaction.
    pub fn write_byte(&mut self, reg: u8, byte: u8) -> (r: Result<(), Mpu6050Error<B::BusError>>)
        ensures
            final(self).same_cfg(old(self)),
            old(self).bus_ops().is_prefix_of(final(self).bus_ops()),
            r matches Err(err) ==> err is I2c,
            final(self).bus_ops() == old(self).bus_ops().push(
                op_write_byte(old(self).spec_slave_addr(), reg, byte),
            ),
    {
        let mut data: Vec<u8> = Vec::new();
        data.push(reg);
        data.push(byte);
        proof {
            assert(data@ =~= seq![reg, byte]);
            bus::lemma_push_extends_log(
                self.bus_ops(),
                op_write_byte(self.spec_slave_addr(), reg, byte),
            );
        }
        match self.i2c.write(self.slave_addr, &data) {
            Ok(()) => Ok(()),
            Err(e) => Err(Mpu6050Error::I2c(e)),
        }
    }

    /// Writes a 16-bit value to the register pair starting at `reg`,
    /// high byte first, in one transaction of three bytes.
    pub fn write_word(&mut self, reg: u8, word_value: u16) -> (r: Result<
        (),
        Mpu6050Error<B::BusError>,
    >)
        ensures
            final(self).same_cfg(old(self)),
            old(self).bus_ops().is_prefix_of(final(self).bus_ops()),
            r matches Err(err) ==> err is I2c,
            final(self).bus_ops() == old(self).bus_ops().push(
                op_write_word(old(self).spec_slave_addr(), reg, word_value),
            ),
    {
        let high: u8 = (word_value >> 8) as u8;
        let low: u8 = (word_value & 0x00ff) as u8;
        let mut data: Vec<u8> = Vec::new();
        data.push(reg);
        data.push(high);
        data.push(low);
        proof {
            assert(data@ =~= seq![reg, (word_value >> 8u16) as u8, (word_value & 0xffu16) as u8]);
            bus::lemma_push_extends_log(
                self.bus_ops(),
                op_write_word(self.spec_slave_addr(), reg, word_value),
            );
        }
        match self.i2c.write(self.slave_addr, &data) {
            Ok(()) => Ok(()),
            Err(e) => Err(Mpu6050Error::I2c(e)),
        }
    }

    /// Read-modify-write of one bit: reads register `reg`, replaces bit
    /// `bit_n` by `enable`, and writes the byte back. Exactly one read
    /// transaction followed by exactly one write transaction; the read
    /// and the write are not atomic with respect to other bus users.
    pub fn write_bit(&mut self, reg: u8, bit_n: u8, enable: bool) -> (r: Result<
        (),
        Mpu6050Error<B::BusError>,
    >)
        requires
            bit_n < 8,
        ensures
            final(self).same_cfg(old(self)),
            old(self).bus_ops().is_prefix_of(final(self).bus_ops()),
            r is Ok ==> rmw_bit_ops(
                old(self).bus_ops(),
                final(self).bus_ops(),
                old(self).spec_slave_addr(),
                reg,
                bit_n,
                enable,
            ),
            r matches Err(err) ==> err is I2c,
            r is Err ==> rmw_bit_aborted(
                old(self).bus_ops(),
                final(self).bus_ops(),
                old(self).spec_slave_addr(),
                reg,
                bit_n,
                enable,
            ),
    {
        let ghost pre = self.bus_ops();
        let ghost addr = self.spec_slave_addr();
        let b0 = self.read_byte(reg)?;
        let mut byte = b0;
        bits::set_bit(&mut byte, bit_n, enable);
        match self.write_byte(reg, byte) {
            Ok(()) => {
                proof {
                    assert(self.bus_ops() == pre.push(op_read(addr, reg, seq![b0])).push(
                        op_write_byte(addr, reg, bits::spec_set_bit(b0, bit_n, enable)),
                    ));
                }
                Ok(())
            },
            Err(e) => {
                proof {
                    assert(self.bus_ops() == pre.push(op_read(addr, reg, seq![b0])).push(
                        op_write_byte(addr, reg, byte),
                    ));
                }
                Err(e)
            },
        }
    }

    /// Read-modify-write of a bit field: reads register `reg`, replaces
    /// the field `(start_bit, length)` by the low `length` bits of
    /// `data`, and writes the byte back. Exactly one read transaction
    /// followed by exactly one write transaction; the read and the write
    /// are not atomic with respect to other bus users.
    pub fn write_bits(&mut self, reg: u8, start_bit: u8, length: u8, data: u8) -> (r: Result<
        (),
        Mpu6050Error<B::BusError>,
    >)
        requires
            0 < length,
            start_bit + length <= 8,
        ensures
            final(self).same_cfg(old(self)),
            old(self).bus_ops().is_prefix_of(final(self).bus_ops()),
            r is Ok ==> rmw_bits_ops(
                old(self).bus_ops(),
                final(self).bus_ops(),
                old(self).spec_slave_addr(),
                reg,
                start_bit,
                length,
                data,
            ),
            r matches Err(err) ==> err is I2c,
            r is Err ==> rmw_bits_aborted(
                old(self).bus_ops(),
                final(self).bus_ops(),
                old(self).spec_slave_addr(),
                reg,
                start_bit,
                length,
                data,
            ),
    {
        let ghost pre = self.bus_ops();
        let ghost addr = self.spec_slave_addr();
        let b0 = self.read_byte(reg)?;
        let mut byte = b0;
        bits::set_bits(&mut byte, start_bit, length, data);
        match self.write_byte(reg, byte) {
            Ok(()) => {
                proof {
                    assert(self.bus_ops() == pre.push(op_read(addr, reg, seq![b0])).push(
                        op_write_byte(addr, reg, bits::spec_set_bits(b0, start_bit, length, data)),
                    ));
                }
                Ok(())
            },
            Err(e) => {
                proof {
                    assert(self.bus_ops() == pre.push(op_read(addr, reg, seq![b0])).push(
                        op_write_byte(addr, reg, byte),
                    ));
                }
                Err(e)
            },
        }
    }

    /// Reads bit `bit_n` of register `reg`, as 0 or 1.
    fn read_bit(&mut self, reg: u8, bit_n: u8) -> (r: Result<u8, Mpu6050Error<B::BusError>>)
        requires
            bit_n < 8,
        ensures
            final(self).same_cfg(old(self)),
            r matches Ok(b) ==> (b == 0 || b == 1) && bit_read_ops(
                old(self).bus_ops(),
                final(self).bus_ops(),
                old(self).spec_slave_addr(),
                reg,
                bit_n,
                b,
            ),
            r matches Err(err) ==> err is I2c,
            r is Err ==> read_failed(
                old(self).bus_ops(),
                final(self).bus_ops(),
                old(self).spec_slave_addr(),
                reg,
            ),
    {
        let ghost pre = self.bus_ops();
        let ghost addr = self.spec_slave_addr();
        let b0 = self.read_byte(reg)?;
        let b = bits::get_bit(b0, bit_n);
        proof {
            assert(self.bus_ops() == pre.push(op_read(addr, reg, seq![b0])) && b
                == bits::spec_get_bit(b0, bit_n));
        }
        Ok(b)
    }

    /// Reads the field `(start_bit, length)` of register `reg`,
    /// right-aligned.
    pub fn read_bits(&mut self, reg: u8, start_bit: u8, length: u8) -> (r: Result<
        u8,
        Mpu6050Error<B::BusError>,
    >)
        requires
            0 < length,
            start_bit + length <= 8,
        ensures
            final(self).same_cfg(old(self)),
            r matches Ok(b) ==> (b as u16) < (1u16 << (length as u16)) && field_read_ops(
                old(self).bus_ops(),
                final(self).bus_ops(),
                old(self).spec_slave_addr(),
                reg,
                start_bit,
                length,
                b,
            ),
            r matches Err(err) ==> err is I2c,
            r is Err ==> read_failed(
                old(self).bus_ops(),
                final(self).bus_ops(),
                old(self).spec_slave_addr(),
                reg,
            ),
    {
        let ghost pre = self.bus_ops();
        let ghost addr = self.spec_slave_addr();
        let b0 = self.read_byte(reg)?;
        let b = bits::get_bits(b0, start_bit, length);
        proof {
            assert(self.bus_ops() == pre.push(op_read(addr, reg, seq![b0])) && b
                == bits::spec_get_bits(b0, start_bit, length));
        }
        Ok(b)
    }

    /// Selects the device clock source.
    pub fn set_clock_source(&mut self, source: CLKSEL) -> (r: Result<(), Mpu6050Error<B::BusError>>)
        ensures
            final(self).same_cfg(old(self)),
            r is Ok ==> rmw_bits_ops(
                old(self).bus_ops(),
                final(self).bus_ops(),
                old(self).spec_slave_addr(),
                device::PWR_MGMT_1_ADDR,
                device::PWR_MGMT_1_CLKSEL_START,
                device::PWR_MGMT_1_CLKSEL_LENGTH,
                source.spec_code(),
            ),
            r matches Err(err) ==> err is I2c,
            r is Err ==> rmw_bits_aborted(
                old(self).bus_ops(),
                final(self).bus_ops(),
                old(self).spec_slave_addr(),
                device::PWR_MGMT_1_ADDR,
                device::PWR_MGMT_1_CLKSEL_START,
                device::PWR_MGMT_1_CLKSEL_LENGTH,
                source.spec_code(),
            ),
    {
        self.write_bits(
            device::PWR_MGMT_1_ADDR,
            device::PWR_MGMT_1_CLKSEL_START,
            device::PWR_MGMT_1_CLKSEL_LENGTH,
            source.code(),
        )
    }

    /// Returns the current clock source, decoded from the clock field of
    /// the power management register.
    pub fn get_clock_source(&mut self) -> (r: Result<CLKSEL, Mpu6050Error<B::BusError>>)
        ensures
            final(self).same_cfg(old(self)),
            r matches Ok(c) ==> exists|code: u8|
                field_read_ops(
                    old(self).bus_ops(),
                    final(self).bus_ops(),
                    old(self).spec_slave_addr(),
                    device::PWR_MGMT_1_ADDR,
                    device::PWR_MGMT_1_CLKSEL_START,
                    device::PWR_MGMT_1_CLKSEL_LENGTH,
                    code,
                ) && c == CLKSEL::spec_from_code(code),
            r matches Err(err) ==> err is I2c,
            r is Err ==> read_failed(
                old(self).bus_ops(),
                final(self).bus_ops(),
                old(self).spec_slave_addr(),
                device::PWR_MGMT_1_ADDR,
            ),
    {
        let source = self.read_bits(
            device::PWR_MGMT_1_ADDR,
            device::PWR_MGMT_1_CLKSEL_START,
            device::PWR_MGMT_1_CLKSEL_LENGTH,
        )?;
        Ok(CLKSEL::from_code(source))
    }

    /// Sets the accelerometer high-pass filter mode.
    pub fn set_accel_hpf(&mut self, mode: ACCEL_HPF) -> (r: Result<(), Mpu6050Error<B::BusError>>)
        ensures
            final(self).same_cfg(old(self)),
            old(self).bus_ops().is_prefix_of(final(self).bus_ops()),
            r is Ok ==> rmw_bits_ops(
                old(self).bus_ops(),
                final(self).bus_ops(),
                old(self).spec_slave_addr(),
                device::ACCEL_CONFIG_ADDR,
                device::ACCEL_CONFIG_HPF_START,
                device::ACCEL_CONFIG_HPF_LENGTH,
                mode.spec_code(),
            ),
            r matches Err(err) ==> err is I2c,
            r is Err ==> rmw_bits_aborted(
                old(self).bus_ops(),
                final(self).bus_ops(),
                old(self).spec_slave_addr(),
                device::ACCEL_CONFIG_ADDR,
                device::ACCEL_CONFIG_HPF_START,
                device::ACCEL_CONFIG_HPF_LENGTH,
                mode.spec_code(),
            ),
    {
        self.write_bits(
            device::ACCEL_CONFIG_ADDR,
            device::ACCEL_CONFIG_HPF_START,
            device::ACCEL_CONFIG_HPF_LENGTH,
            mode.code(),
        )
    }

    /// Returns the accelerometer high-pass filter mode, decoded from the
    /// filter field of the accelerometer configuration register.
    pub fn get_accel_hpf(&mut self) -> (r: Result<ACCEL_HPF, Mpu6050Error<B::BusError>>)
        ensures
            final(self).same_cfg(old(self)),
            r matches Ok(m) ==> exists|code: u8|
                field_read_ops(
                    old(self).bus_ops(),
                    final(self).bus_ops(),
                    old(self).spec_slave_addr(),
                    device::ACCEL_CONFIG_ADDR,
                    device::ACCEL_CONFIG_HPF_START,
                    device::ACCEL_CONFIG_HPF_LENGTH,
                    code,
                ) && m == ACCEL_HPF::spec_from_code(code),
            r matches Err(err) ==> err is I2c,
            r is Err ==> read_failed(
                old(self).bus_ops(),
                final(self).bus_ops(),
                old(self).spec_slave_addr(),
                device::ACCEL_CONFIG_ADDR,
            ),
    {
        let mode = self.read_bits(
            device::ACCEL_CONFIG_ADDR,
            device::ACCEL_CONFIG_HPF_START,
            device::ACCEL_CONFIG_HPF_LENGTH,
        )?;
        Ok(ACCEL_HPF::from_code(mode))
    }

    /// Sets the gyroscope full-scale range and, on success, updates the
    /// cached sensitivity to the table value of the new range.
    pub fn set_gyro_range(&mut self, range: GyroRange) -> (r: Result<(), Mpu6050Error<B::BusError>>)
        ensures
            final(self).spec_slave_addr() == old(self).spec_slave_addr(),
            final(self).spec_acc_sensitivity() == old(self).spec_acc_sensitivity(),
            final(self).spec_fine_tune() == old(self).spec_fine_tune(),
            old(self).bus_ops().is_prefix_of(final(self).bus_ops()),
            r is Ok ==> final(self).spec_gyro_sensitivity_deci() == range.spec_sensitivity_deci()
                && rmw_bits_ops(
                old(self).bus_ops(),
                final(self).bus_ops(),
                old(self).spec_slave_addr(),
                device::GYRO_CONFIG_ADDR,
                device::GYRO_CONFIG_FS_SEL_START,
                device::GYRO_CONFIG_FS_SEL_LENGTH,
                range.spec_code(),
            ),
            r matches Err(err) ==> err is I2c,
            r is Err ==> final(self).spec_gyro_sensitivity_deci() == old(
                self,
            ).spec_gyro_sensitivity_deci() && rmw_bits_aborted(
                old(self).bus_ops(),
                final(self).bus_ops(),
                old(self).spec_slave_addr(),
                device::GYRO_CONFIG_ADDR,
                device::GYRO_CONFIG_FS_SEL_START,
                device::GYRO_CONFIG_FS_SEL_LENGTH,
                range.spec_code(),
            ),
    {
        self.write_bits(
            device::GYRO_CONFIG_ADDR,
            device::GYRO_CONFIG_FS_SEL_START,
            device::GYRO_CONFIG_FS_SEL_LENGTH,
            range.code(),
        )?;
        self.gyro_sensitivity_deci = range.sensitivity_deci();
        Ok(())
    }

    /// Returns the current gyroscope range, decoded from the range field
    /// of the gyroscope configuration register.
    pub fn get_gyro_range(&mut self) -> (r: Result<GyroRange, Mpu6050Error<B::BusError>>)
        ensures
            final(self).same_cfg(old(self)),
            r matches Ok(g) ==> exists|code: u8|
                field_read_ops(
                    old(self).bus_ops(),
                    final(self).bus_ops(),
                    old(self).spec_slave_addr(),
                    device::GYRO_CONFIG_ADDR,
                    device::GYRO_CONFIG_FS_SEL_START,
                    device::GYRO_CONFIG_FS_SEL_LENGTH,
                    code,
                ) && g == GyroRange::spec_from_code(code),
            r matches Err(err) ==> err is I2c,
            r is Err ==> read_failed(
                old(self).bus_ops(),
                final(self).bus_ops(),
                old(self).spec_slave_addr(),
                device::GYRO_CONFIG_ADDR,
            ),
    {
        let byte = self.read_bits(
            device::GYRO_CONFIG_ADDR,
            device::GYRO_CONFIG_FS_SEL_START,
            device::GYRO_CONFIG_FS_SEL_LENGTH,
        )?;
        Ok(GyroRange::from_code(byte))
    }

    /// Sets the accelerometer full-scale range and, on success, updates
    /// the cached sensitivity to the table value of the new range.
    pub fn set_accel_range(&mut self, range: AccelRange) -> (r: Result<
        (),
        Mpu6050Error<B::BusError>,
    >)
        ensures
            final(self).spec_slave_addr() == old(self).spec_slave_addr(),
            final(self).spec_gyro_sensitivity_deci() == old(self).spec_gyro_sensitivity_deci(),
            final(self).spec_fine_tune() == old(self).spec_fine_tune(),
            old(self).bus_ops().is_prefix_of(final(self).bus_ops()),
            r is Ok ==> final(self).spec_acc_sensitivity() == range.spec_sensitivity()
                && rmw_bits_ops(
                old(self).bus_ops(),
                final(self).bus_ops(),
                old(self).spec_slave_addr(),
                device::ACCEL_CONFIG_ADDR,
                device::ACCEL_CONFIG_FS_SEL_START,
                device::ACCEL_CONFIG_FS_SEL_LENGTH,
                range.spec_code(),
            ),
            r matches Err(err) ==> err is I2c,
            r is Err ==> final(self).spec_acc_sensitivity() == old(self).spec_acc_sensitivity()
                && rmw_bits_aborted(
                old(self).bus_ops(),
                final(self).bus_ops(),
                old(self).spec_slave_addr(),
                device::ACCEL_CONFIG_ADDR,
                device::ACCEL_CONFIG_FS_SEL_START,
                device::ACCEL_CONFIG_FS_SEL_LENGTH,
                range.spec_code(),
            ),
    {
        self.write_bits(
            device::ACCEL_CONFIG_ADDR,
            device::ACCEL_CONFIG_FS_SEL_START,
            device::ACCEL_CONFIG_FS_SEL_LENGTH,
            range.code(),
        )?;
        self.acc_sensitivity = range.sensitivity();
        Ok(())
    }

    /// Returns the current accelerometer range, decoded from the range
    /// field of the accelerometer configuration register.
    pub fn get_accel_range(&mut self) -> (r: Result<AccelRange, Mpu6050Error<B::BusError>>)
        ensures
            final(self).same_cfg(old(self)),
            r matches Ok(a) ==> exists|code: u8|
                field_read_ops(
                    old(self).bus_ops(),
                    final(self).bus_ops(),
                    old(self).spec_slave_addr(),
                    device::ACCEL_CONFIG_ADDR,
                    device::ACCEL_CONFIG_FS_SEL_START,
                    device::ACCEL_CONFIG_FS_SEL_LENGTH,
                    code,
                ) && a == AccelRange::spec_from_code(code),
            r matches Err(err) ==> err is I2c,
            r is Err ==> read_failed(
                old(self).bus_ops(),
                final(self).bus_ops(),
                old(self).spec_slave_addr(),
                device::ACCEL_CONFIG_ADDR,
            ),
    {
        let byte = self.read_bits(
            device::ACCEL_CONFIG_ADDR,
            device::ACCEL_CONFIG_FS_SEL_START,
            device::ACCEL_CONFIG_FS_SEL_LENGTH,
        )?;
        Ok(AccelRange::from_code(byte))
    }

    /// Sets the device-reset bit, then blocks while the device restarts.
    /// The reset puts the device back to sleep.
    pub fn reset_device<D: Delay>(&mut self, delay: &mut D) -> (r: Result<
        (),
        Mpu6050Error<B::BusError>,
    >)
        ensures
            final(self).same_cfg(old(self)),
            r is Ok ==> rmw_bit_ops(
                old(self).bus_ops(),
                final(self).bus_ops(),
                old(self).spec_slave_addr(),
                device::PWR_MGMT_1_ADDR,
                device::PWR_MGMT_1_DEVICE_RESET,
                true,
            ),
            r matches Err(err) ==> err is I2c,
            r is Err ==> rmw_bit_aborted(
                old(self).bus_ops(),
                final(self).bus_ops(),
                old(self).spec_slave_addr(),
                device::PWR_MGMT_1_ADDR,
                device::PWR_MGMT_1_DEVICE_RESET,
                true,
            ),
    {
        self.write_bit(device::PWR_MGMT_1_ADDR, device::PWR_MGMT_1_DEVICE_RESET, true)?;
        delay.delay_ms(100u32);
        Ok(())
    }

    /// Enables or disables device sleep.
    pub fn set_sleep_enabled(&mut self, enable: bool) -> (r: Result<(), Mpu6050Error<B::BusError>>)
        ensures
            final(self).same_cfg(old(self)),
            r is Ok ==> rmw_bit_ops(
                old(self).bus_ops(),
                final(self).bus_ops(),
                old(self).spec_slave_addr(),
                device::PWR_MGMT_1_ADDR,
                device::PWR_MGMT_1_SLEEP,
                enable,
            ),
            r matches Err(err) ==> err is I2c,
            r is Err ==> rmw_bit_aborted(
                old(self).bus_ops(),
                final(self).bus_ops(),
                old(self).spec_slave_addr(),
                device::PWR_MGMT_1_ADDR,
                device::PWR_MGMT_1_SLEEP,
                enable,
            ),
    {
        self.write_bit(device::PWR_MGMT_1_ADDR, device::PWR_MGMT_1_SLEEP, enable)
    }

    /// Returns whether device sleep is enabled: the sleep bit of the
    /// power management register.
    pub fn get_sleep_enabled(&mut self) -> (r: Result<bool, Mpu6050Error<B::BusError>>)
        ensures
            final(self).same_cfg(old(self)),
            r matches Ok(v) ==> exists|b: u8|
                bit_read_ops(
                    old(self).bus_ops(),
                    final(self).bus_ops(),
                    old(self).spec_slave_addr(),
                    device::PWR_MGMT_1_ADDR,
                    device::PWR_MGMT_1_SLEEP,
                    b,
                ) && v == (b != 0),
            r matches Err(err) ==> err is I2c,
            r is Err ==> read_failed(
                old(self).bus_ops(),
                final(self).bus_ops(),
                old(self).spec_slave_addr(),
                device::PWR_MGMT_1_ADDR,
            ),
    {
        let b = self.read_bit(device::PWR_MGMT_1_ADDR, device::PWR_MGMT_1_SLEEP)?;
        Ok(b != 0)
    }

    /// Enables or disables the temperature sensor. The register stores
    /// the *disabled* state, so the bit written is the negation of
    /// `enable`.
    pub fn set_temp_enabled(&mut self, enable: bool) -> (r: Result<(), Mpu6050Error<B::BusError>>)
        ensures
            final(self).same_cfg(old(self)),
            r is Ok ==> rmw_bit_ops(
                old(self).bus_ops(),
                final(self).bus_ops(),
                old(self).spec_slave_addr(),
                device::PWR_MGMT_1_ADDR,
                device::PWR_MGMT_1_TEMP_DIS,
                !enable,
            ),
            r matches Err(err) ==> err is I2c,
            r is Err ==> rmw_bit_aborted(
                old(self).bus_ops(),
                final(self).bus_ops(),
                old(self).spec_slave_addr(),
                device::PWR_MGMT_1_ADDR,
                device::PWR_MGMT_1_TEMP_DIS,
                !enable,
            ),
    {
        self.write_bit(device::PWR_MGMT_1_ADDR, device::PWR_MGMT_1_TEMP_DIS, !enable)
    }

    /// Returns whether the temperature sensor is enabled. The register
    /// stores the *disabled* state, so the sensor is enabled when the
    /// bit reads 0.
    pub fn get_temp_enabled(&mut self) -> (r: Result<bool, Mpu6050Error<B::BusError>>)
        ensures
            final(self).same_cfg(old(self)),
            r matches Ok(v) ==> exists|b: u8|
                bit_read_ops(
                    old(self).bus_ops(),
                    final(self).bus_ops(),
                    old(self).spec_slave_addr(),
                    device::PWR_MGMT_1_ADDR,
                    device::PWR_MGMT_1_TEMP_DIS,
                    b,
                ) && v == (b == 0),
            r matches Err(err) ==> err is I2c,
            r is Err ==> read_failed(
                old(self).bus_ops(),
                final(self).bus_ops(),
                old(self).spec_slave_addr(),
                device::PWR_MGMT_1_ADDR,
            ),
    {
        let b = self.read_bit(device::PWR_MGMT_1_ADDR, device::PWR_MGMT_1_TEMP_DIS)?;
        Ok(b == 0)
    }

    /// Enables or disables the accelerometer x-axis self test.
    pub fn set_accel_x_self_test(&mut self, enable: bool) -> (r: Result<
        (),
        Mpu6050Error<B::BusError>,
    >)
        ensures
            final(self).same_cfg(old(self)),
            r is Ok ==> rmw_bit_ops(
                old(self).bus_ops(),
                final(self).bus_ops(),
                old(self).spec_slave_addr(),
                device::ACCEL_CONFIG_ADDR,
                device::ACCEL_CONFIG_XA_ST,
                enable,
            ),
            r matches Err(err) ==> err is I2c,
            r is Err ==> rmw_bit_aborted(
                old(self).bus_ops(),
                final(self).bus_ops(),
                old(self).spec_slave_addr(),
                device::ACCEL_CONFIG_ADDR,
                device::ACCEL_CONFIG_XA_ST,
                enable,
            ),
    {
        self.write_bit(device::ACCEL_CONFIG_ADDR, device::ACCEL_CONFIG_XA_ST, enable)
    }

    /// Returns whether the accelerometer x-axis self test is enabled.
    pub fn get_accel_x_self_test(&mut self) -> (r: Result<bool, Mpu6050Error<B::BusError>>)
        ensures
            final(self).same_cfg(old(self)),
            r matches Ok(v) ==> exists|b: u8|
                bit_read_ops(
                    old(self).bus_ops(),
                    final(self).bus_ops(),
                    old(self).spec_slave_addr(),
                    device::ACCEL_CONFIG_ADDR,
                    device::ACCEL_CONFIG_XA_ST,
                    b,
                ) && v == (b != 0),
            r matches Err(err) ==> err is I2c,
            r is Err ==> read_failed(
                old(self).bus_ops(),
                final(self).bus_ops(),
                old(self).spec_slave_addr(),
                device::ACCEL_CONFIG_ADDR,
            ),
    {
        let b = self.read_bit(device::ACCEL_CONFIG_ADDR, device::ACCEL_CONFIG_XA_ST)?;
        Ok(b != 0)
    }

    /// Enables or disables the accelerometer y-axis self test.
    pub fn set_accel_y_self_test(&mut self, enable: bool) -> (r: Result<
        (),
        Mpu6050Error<B::BusError>,
    >)
        ensures
            final(self).same_cfg(old(self)),
            r is Ok ==> rmw_bit_ops(
                old(self).bus_ops(),
                final(self).bus_ops(),
                old(self).spec_slave_addr(),
                device::ACCEL_CONFIG_ADDR,
                device::ACCEL_CONFIG_YA_ST,
                enable,
            ),
            r matches Err(err) ==> err is I2c,
            r is Err ==> rmw_bit_aborted(
                old(self).bus_ops(),
                final(self).bus_ops(),
                old(self).spec_slave_addr(),
                device::ACCEL_CONFIG_ADDR,
                device::ACCEL_CONFIG_YA_ST,
                enable,
            ),
    {
        self.write_bit(device::ACCEL_CONFIG_ADDR, device::ACCEL_CONFIG_YA_ST, enable)
    }

    /// Returns whether the accelerometer y-axis self test is enabled.
    pub fn get_accel_y_self_test(&mut self) -> (r: Result<bool, Mpu6050Error<B::BusError>>)
        ensures
            final(self).same_cfg(old(self)),
            r matches Ok(v) ==> exists|b: u8|
                bit_read_ops(
                    old(self).bus_ops(),
                    final(self).bus_ops(),
                    old(self).spec_slave_addr(),
                    device::ACCEL_CONFIG_ADDR,
                    device::ACCEL_CONFIG_YA_ST,
                    b,
                ) && v == (b != 0),
            r matches Err(err) ==> err is I2c,
            r is Err ==> read_failed(
                old(self).bus_ops(),
                final(self).bus_ops(),
                old(self).spec_slave_addr(),
                device::ACCEL_CONFIG_ADDR,
            ),
    {
        let b = self.read_bit(device::ACCEL_CONFIG_ADDR, device::ACCEL_CONFIG_YA_ST)?;
        Ok(b != 0)
    }

    /// Enables or disables the accelerometer z-axis self test.
    pub fn set_accel_z_self_test(&mut self, enable: bool) -> (r: Result<
        (),
        Mpu6050Error<B::BusError>,
    >)
        ensures
            final(self).same_cfg(old(self)),
            r is Ok ==> rmw_bit_ops(
                old(self).bus_ops(),
                final(self).bus_ops(),
                old(self).spec_slave_addr(),
                device::ACCEL_CONFIG_ADDR,
                device::ACCEL_CONFIG_ZA_ST,
                enable,
            ),
            r matches Err(err) ==> err is I2c,
            r is Err ==> rmw_bit_aborted(
                old(self).bus_ops(),
                final(self).bus_ops(),
                old(self).spec_slave_addr(),
                device::ACCEL_CONFIG_ADDR,
                device::ACCEL_CONFIG_ZA_ST,
                enable,
            ),
    {
        self.write_bit(device::ACCEL_CONFIG_ADDR, device::ACCEL_CONFIG_ZA_ST, enable)
    }

    /// Returns whether the accelerometer z-axis self test is enabled.
    pub fn get_accel_z_self_test(&mut self) -> (r: Result<bool, Mpu6050Error<B::BusError>>)
        ensures
            final(self).same_cfg(old(self)),
            r matches Ok(v) ==> exists|b: u8|
                bit_read_ops(
                    old(self).bus_ops(),
                    final(self).bus_ops(),
                    old(self).spec_slave_addr(),
                    device::ACCEL_CONFIG_ADDR,
                    device::ACCEL_CONFIG_ZA_ST,
                    b,
                ) && v == (b != 0),
            r matches Err(err) ==> err is I2c,
            r is Err ==> read_failed(
                old(self).bus_ops(),
                final(self).bus_ops(),
                old(self).spec_slave_addr(),
                device::ACCEL_CONFIG_ADDR,
            ),
    {
        let b = self.read_bit(device::ACCEL_CONFIG_ADDR, device::ACCEL_CONFIG_ZA_ST)?;
        Ok(b != 0)
    }

    /// Returns whether motion has been detected: the motion interrupt
    /// bit of the interrupt status register.
    pub fn get_motion_detected(&mut self) -> (r: Result<bool, Mpu6050Error<B::BusError>>)
        ensures
            final(self).same_cfg(old(self)),
            r matches Ok(v) ==> exists|b: u8|
                bit_read_ops(
                    old(self).bus_ops(),
                    final(self).bus_ops(),
                    old(self).spec_slave_addr(),
                    device::INT_STATUS_ADDR,
                    device::INT_STATUS_MOT_INT,
                    b,
                ) && v == (b != 0),
            r matches Err(err) ==> err is I2c,
            r is Err ==> read_failed(
                old(self).bus_ops(),
                final(self).bus_ops(),
                old(self).spec_slave_addr(),
                device::INT_STATUS_ADDR,
            ),
    {
        let b = self.read_bit(device::INT_STATUS_ADDR, device::INT_STATUS_MOT_INT)?;
        Ok(b != 0)
    }

    /// Writes the fixed configuration sequence that arms motion
    /// detection, then enables the motion interrupt bit. On success the
    /// transaction log grows by exactly the seven writes of
    /// `motion_setup_ops`; a bus failure aborts the sequence after the
    /// failing write.
    pub fn setup_motion_detection(&mut self) -> (r: Result<(), Mpu6050Error<B::BusError>>)
        ensures
            final(self).same_cfg(old(self)),
            r is Ok ==> final(self).bus_ops() == old(self).bus_ops() + motion_setup_ops(
                old(self).spec_slave_addr(),
            ),
            r matches Err(err) ==> err is I2c,
            r is Err ==> exists|k: int|
                1 <= k <= 7 && final(self).bus_ops() == old(self).bus_ops() + motion_setup_ops(
                    old(self).spec_slave_addr(),
                ).take(k),
    {
        let ghost pre = self.bus_ops();
        let ghost addr = self.spec_slave_addr();
        let ghost all = motion_setup_ops(addr);
        match self.write_byte(device::PWR_MGMT_1_ADDR, 0x00) {
            Ok(()) => (),
            Err(e) => {
                proof {
                    assert(self.bus_ops() =~= pre + all.take(1));
                }
                return Err(e);
            },
        }
        match self.write_byte(device::INT_PIN_CFG_ADDR, 0x20) {
            Ok(()) => (),
            Err(e) => {
                proof {
                    assert(self.bus_ops() =~= pre + all.take(2));
                }
                return Err(e);
            },
        }
        match self.write_byte(device::ACCEL_CONFIG_ADDR, 0x01) {
            Ok(()) => (),
            Err(e) => {
                proof {
                    assert(self.bus_ops() =~= pre + all.take(3));
                }
                return Err(e);
            },
        }
        match self.write_byte(device::MOT_THR, 10) {
            Ok(()) => (),
            Err(e) => {
                proof {
                    assert(self.bus_ops() =~= pre + all.take(4));
                }
                return Err(e);
            },
        }
        match self.write_byte(device::MOT_DUR, 40) {
            Ok(()) => (),
            Err(e) => {
                proof {
                    assert(self.bus_ops() =~= pre + all.take(5));
                }
                return Err(e);
            },
        }
        match self.write_byte(device::MOT_DETECT_CTRL, 0x15) {
            Ok(()) => (),
            Err(e) => {
                proof {
                    assert(self.bus_ops() =~= pre + all.take(6));
                }
                return Err(e);
            },
        }
        match self.write_byte(device::INT_ENABLE_ADDR, 0x40) {
            Ok(()) => (),
            Err(e) => {
                proof {
                    assert(self.bus_ops() =~= pre + all.take(7));
                }
                return Err(e);
            },
        }
        proof {
            assert(self.bus_ops() =~= pre + all);
        }
        Ok(())
    }

    /// Wakes the device with all sensors enabled, selecting the PLL with
    /// x-axis gyroscope reference as clock source, then blocks while the
    /// device starts up.
    fn wake<D: Delay>(&mut self, delay: &mut D) -> (r: Result<(), Mpu6050Error<B::BusError>>)
        ensures
            final(self).same_cfg(old(self)),
            old(self).bus_ops().is_prefix_of(final(self).bus_ops()),
            r matches Err(err) ==> err is I2c,
            final(self).bus_ops() == old(self).bus_ops().push(
                op_write_byte(old(self).spec_slave_addr(), device::PWR_MGMT_1_ADDR, 0x01),
            ),
    {
        self.write_byte(device::PWR_MGMT_1_ADDR, 0x01)?;
        delay.delay_ms(100u32);
        Ok(())
    }

    /// Reads the identity register and checks the chip id against the
    /// expected constant. On a mismatch, fails with the byte that was
    /// read.
    fn verify(&mut self) -> (r: Result<(), Mpu6050Error<B::BusError>>)
        ensures
            final(self).same_cfg(old(self)),
            old(self).bus_ops().is_prefix_of(final(self).bus_ops()),
            r is Ok ==> final(self).bus_ops() == old(self).bus_ops().push(
                op_read(
                    old(self).spec_slave_addr(),
                    device::WHOAMI,
                    seq![device::DEFAULT_SLAVE_ADDR],
                ),
            ),
            r matches Err(Mpu6050Error::InvalidChipId(id)) ==> id != device::DEFAULT_SLAVE_ADDR
                && final(self).bus_ops() == old(self).bus_ops().push(
                op_read(old(self).spec_slave_addr(), device::WHOAMI, seq![id]),
            ),
            r matches Err(Mpu6050Error::I2c(e)) ==> read_failed(
                old(self).bus_ops(),
                final(self).bus_ops(),
                old(self).spec_slave_addr(),
                device::WHOAMI,
            ),
    {
        let address = self.read_byte(device::WHOAMI)?;
        if address != device::DEFAULT_SLAVE_ADDR {
            return Err(Mpu6050Error::InvalidChipId(address));
        }
        Ok(())
    }

    /// Wakes the device, checks its identity byte, and configures the
    /// default ranges and high-pass filter. Fails with an
    /// identity-mismatch error, before any configuration write, when the
    /// chip id read back disagrees with the expected constant; a
    /// mismatch leaves both cached sensitivities untouched.
    pub fn init<D: Delay>(&mut self, delay: &mut D) -> (r: Result<(), Mpu6050Error<B::BusError>>)
        requires
            old(self).wf(),
        ensures
            final(self).wf(),
            final(self).spec_slave_addr() == old(self).spec_slave_addr(),
            final(self).spec_fine_tune() == old(self).spec_fine_tune(),
            old(self).bus_ops().is_prefix_of(final(self).bus_ops()),
            r is Ok ==> final(self).spec_acc_sensitivity() == AccelRange::G2.spec_sensitivity()
                && final(self).spec_gyro_sensitivity_deci()
                == GyroRange::D250.spec_sensitivity_deci() && init_ok_ops(
                old(self).bus_ops(),
                final(self).bus_ops(),
                old(self).spec_slave_addr(),
            ),
            r matches Err(Mpu6050Error::InvalidChipId(id)) ==> id != device::DEFAULT_SLAVE_ADDR
                && final(self).spec_acc_sensitivity() == old(self).spec_acc_sensitivity()
                && final(self).spec_gyro_sensitivity_deci() == old(
                self,
            ).spec_gyro_sensitivity_deci() && final(self).bus_ops() == old(self).bus_ops().push(
                op_write_byte(old(self).spec_slave_addr(), device::PWR_MGMT_1_ADDR, 0x01),
            ).push(op_read(old(self).spec_slave_addr(), device::WHOAMI, seq![id])),
    {
        let ghost addr = self.spec_slave_addr();
        let ghost o0 = self.bus_ops();
        self.wake(delay)?;
        self.verify()?;
        let ghost o1 = self.bus_ops();
        self.set_accel_range(AccelRange::G2)?;
        let ghost o2 = self.bus_ops();
        self.set_gyro_range(GyroRange::D250)?;
        let ghost o3 = self.bus_ops();
        self.set_accel_hpf(ACCEL_HPF::_RESET)?;
        proof {
            let b1 = choose|b1: u8|
                o2 == o1.push(op_read(addr, device::ACCEL_CONFIG_ADDR, seq![b1])).push(
                    op_write_byte(
                        addr,
                        device::ACCEL_CONFIG_ADDR,
                        bits::spec_set_bits(
                            b1,
                            device::ACCEL_CONFIG_FS_SEL_START,
                            device::ACCEL_CONFIG_FS_SEL_LENGTH,
                            AccelRange::G2.spec_code(),
                        ),
                    ),
                );
            let b2 = choose|b2: u8|
                o3 == o2.push(op_read(addr, device::GYRO_CONFIG_ADDR, seq![b2])).push(
                    op_write_byte(
                        addr,
                        device::GYRO_CONFIG_ADDR,
                        bits::spec_set_bits(
                            b2,
                            device::GYRO_CONFIG_FS_SEL_START,
                            device::GYRO_CONFIG_FS_SEL_LENGTH,
                            GyroRange::D250.spec_code(),
                        ),
                    ),
                );
            let b3 = choose|b3: u8|
                self.bus_ops() == o3.push(op_read(addr, device::ACCEL_CONFIG_ADDR, seq![b3])).push(
                    op_write_byte(
                        addr,
                        device::ACCEL_CONFIG_ADDR,
                        bits::spec_set_bits(
                            b3,
                            device::ACCEL_CONFIG_HPF_START,
                            device::ACCEL_CONFIG_HPF_LENGTH,
                            ACCEL_HPF::_RESET.spec_code(),
                        ),
                    ),
                );
            assert(self.bus_ops() == o0.push(op_write_byte(addr, device::PWR_MGMT_1_ADDR, 0x01))
                .push(op_read(addr, device::WHOAMI, seq![device::DEFAULT_SLAVE_ADDR])).push(
                op_read(addr, device::ACCEL_CONFIG_ADDR, seq![b1]),
            ).push(
                op_write_byte(
                    addr,
                    device::ACCEL_CONFIG_ADDR,
                    bits::spec_set_bits(
                        b1,
                        device::ACCEL_CONFIG_FS_SEL_START,
                        device::ACCEL_CONFIG_FS_SEL_LENGTH,
                        AccelRange::G2.spec_code(),
                    ),
                ),
            ).push(op_read(addr, device::GYRO_CONFIG_ADDR, seq![b2])).push(
                op_write_byte(
                    addr,
                    device::GYRO_CONFIG_ADDR,
                    bits::spec_set_bits(
                        b2,
                        device::GYRO_CONFIG_FS_SEL_START,
                        device::GYRO_CONFIG_FS_SEL_LENGTH,
                        GyroRange::D250.spec_code(),
                    ),
                ),
            ).push(op_read(addr, device::ACCEL_CONFIG_ADDR, seq![b3])).push(
                op_write_byte(
                    addr,
                    device::ACCEL_CONFIG_ADDR,
                    bits::spec_set_bits(
                        b3,
                        device::ACCEL_CONFIG_HPF_START,
                        device::ACCEL_CONFIG_HPF_LENGTH,
                        ACCEL_HPF::_RESET.spec_code(),
                    ),
                ),
            ));
        }
        Ok(())
    }

    /// Reads one output block of three big-endian words starting at
    /// register `reg` and decodes each word; no fine-tune offset is
    /// applied.
    fn read_raw_vector(&mut self, reg: u8) -> (r: Result<Vector3i, Mpu6050Error<B::BusError>>)
        ensures
            final(self).same_cfg(old(self)),
            old(self).bus_ops().is_prefix_of(final(self).bus_ops()),
            r matches Err(err) ==> err is I2c,
            r matches Ok(v) ==> {
                &&& -32768 <= v.x <= 32767
                &&& -32768 <= v.y <= 32767
                &&& -32768 <= v.z <= 32767
                &&& exists|d: Seq<u8>|
                    d.len() == 6 && final(self).bus_ops() == old(self).bus_ops().push(
                        op_read(old(self).spec_slave_addr(), reg, d),
                    ) && v.x == conversion::spec_word_2c(d[0], d[1]) && v.y
                        == conversion::spec_word_2c(d[2], d[3]) && v.z == conversion::spec_word_2c(
                        d[4],
                        d[5],
                    )
            },
            r is Err ==> read_failed(
                old(self).bus_ops(),
                final(self).bus_ops(),
                old(self).spec_slave_addr(),
                reg,
            ),
    {
        let buf = self.read_bytes(reg, 6)?;
        let s = buf.as_slice();
        let x = conversion::read_word_2c(vstd::slice::slice_subrange(s, 0, 2));
        let y = conversion::read_word_2c(vstd::slice::slice_subrange(s, 2, 4));
        let z = conversion::read_word_2c(vstd::slice::slice_subrange(s, 4, 6));
        Ok(Vector3i { x, y, z })
    }

    /// Reads the gyroscope output block and adds the software fine-tune
    /// residual to each decoded word.
    fn read_gyro_i32(&mut self) -> (r: Result<Vector3i, Mpu6050Error<B::BusError>>)
        requires
            old(self).wf(),
        ensures
            final(self).same_cfg(old(self)),
            old(self).bus_ops().is_prefix_of(final(self).bus_ops()),
            r matches Err(err) ==> err is I2c,
            r is Err ==> read_failed(
                old(self).bus_ops(),
                final(self).bus_ops(),
                old(self).spec_slave_addr(),
                device::GYRO_REGX_H,
            ),
            r matches Ok(v) ==> {
                &&& calibration::spec_abs(v.x as int) <= 32768 + calibration::spec_abs(
                    old(self).spec_fine_tune().x as int,
                )
                &&& calibration::spec_abs(v.y as int) <= 32768 + calibration::spec_abs(
                    old(self).spec_fine_tune().y as int,
                )
                &&& calibration::spec_abs(v.z as int) <= 32768 + calibration::spec_abs(
                    old(self).spec_fine_tune().z as int,
                )
                &&& exists|d: Seq<u8>|
                    d.len() == 6 && final(self).bus_ops() == old(self).bus_ops().push(
                        op_read(old(self).spec_slave_addr(), device::GYRO_REGX_H, d),
                    ) && v.x == conversion::spec_word_2c(d[0], d[1]) + old(
                        self,
                    ).spec_fine_tune().x && v.y == conversion::spec_word_2c(d[2], d[3]) + old(
                        self,
                    ).spec_fine_tune().y && v.z == conversion::spec_word_2c(d[4], d[5]) + old(
                        self,
                    ).spec_fine_tune().z
            },
    {
        let raw = self.read_raw_vector(device::GYRO_REGX_H)?;
        Ok(
            Vector3i {
                x: raw.x + self.gyro_fine_tune_offsets.x,
                y: raw.y + self.gyro_fine_tune_offsets.y,
                z: raw.z + self.gyro_fine_tune_offsets.z,
            },
        )
    }

    /// Reads the accelerometer output block, as decoded raw counts.
    pub fn get_acc_raw(&mut self) -> (r: Result<Vector3i, Mpu6050Error<B::BusError>>)
        ensures
            final(self).same_cfg(old(self)),
            old(self).bus_ops().is_prefix_of(final(self).bus_ops()),
            r matches Err(err) ==> err is I2c,
            r is Err ==> read_failed(
                old(self).bus_ops(),
                final(self).bus_ops(),
                old(self).spec_slave_addr(),
                device::ACC_REGX_H,
            ),
            r matches Ok(v) ==> {
                &&& -32768 <= v.x <= 32767
                &&& -32768 <= v.y <= 32767
                &&& -32768 <= v.z <= 32767
                &&& exists|d: Seq<u8>|
                    d.len() == 6 && final(self).bus_ops() == old(self).bus_ops().push(
                        op_read(old(self).spec_slave_addr(), device::ACC_REGX_H, d),
                    ) && v.x == conversion::spec_word_2c(d[0], d[1]) && v.y
                        == conversion::spec_word_2c(d[2], d[3]) && v.z == conversion::spec_word_2c(
                        d[4],
                        d[5],
                    )
            },
    {
        self.read_raw_vector(device::ACC_REGX_H)
    }

    /// Reads the gyroscope output block, as decoded raw counts with the
    /// software fine-tune residual added to each axis.
    pub fn get_gyro_raw(&mut self) -> (r: Result<Vector3i, Mpu6050Error<B::BusError>>)
        requires
            old(self).wf(),
        ensures
            final(self).same_cfg(old(self)),
            old(self).bus_ops().is_prefix_of(final(self).bus_ops()),
            r matches Err(err) ==> err is I2c,
            r is Err ==> read_failed(
                old(self).bus_ops(),
                final(self).bus_ops(),
                old(self).spec_slave_addr(),
                device::GYRO_REGX_H,
            ),
            r matches Ok(v) ==> exists|d: Seq<u8>|
                d.len() == 6 && final(self).bus_ops() == old(self).bus_ops().push(
                    op_read(old(self).spec_slave_addr(), device::GYRO_REGX_H, d),
                ) && v.x == conversion::spec_word_2c(d[0], d[1]) + old(self).spec_fine_tune().x
                    && v.y == conversion::spec_word_2c(d[2], d[3]) + old(self).spec_fine_tune().y
                    && v.z == conversion::spec_word_2c(d[4], d[5]) + old(self).spec_fine_tune().z,
    {
        self.read_gyro_i32()
    }

    /// Reads the accelerometer output block and scales each axis to
    /// thousandths of a g, by the cached sensitivity of the configured
    /// range, truncating toward zero.
    pub fn get_acc_mg(&mut self) -> (r: Result<Vector3i, Mpu6050Error<B::BusError>>)
        requires
            old(self).wf(),
        ensures
            final(self).same_cfg(old(self)),
            old(self).bus_ops().is_prefix_of(final(self).bus_ops()),
            r matches Err(err) ==> err is I2c,
            r is Err ==> read_failed(
                old(self).bus_ops(),
                final(self).bus_ops(),
                old(self).spec_slave_addr(),
                device::ACC_REGX_H,
            ),
            r matches Ok(v) ==> exists|d: Seq<u8>|
                d.len() == 6 && final(self).bus_ops() == old(self).bus_ops().push(
                    op_read(old(self).spec_slave_addr(), device::ACC_REGX_H, d),
                ) && v.x == conversion::spec_div_trunc(
                    conversion::spec_word_2c(d[0], d[1]) * 1000,
                    old(self).spec_acc_sensitivity() as int,
                ) && v.y == conversion::spec_div_trunc(
                    conversion::spec_word_2c(d[2], d[3]) * 1000,
                    old(self).spec_acc_sensitivity() as int,
                ) && v.z == conversion::spec_div_trunc(
                    conversion::spec_word_2c(d[4], d[5]) * 1000,
                    old(self).spec_acc_sensitivity() as int,
                ),
    {
        let raw = self.get_acc_raw()?;
        let sens = self.acc_sensitivity as i32;
        Ok(
            Vector3i {
                x: conversion::div_trunc(raw.x * 1000, sens),
                y: conversion::div_trunc(raw.y * 1000, sens),
                z: conversion::div_trunc(raw.z * 1000, sens),
            },
        )
    }

    /// Reads the gyroscope output block (fine-tune residual applied) and
    /// scales each axis to thousandths of a degree per second, by the
    /// cached sensitivity of the configured range, truncating toward
    /// zero.
    pub fn get_gyro_mdeg(&mut self) -> (r: Result<Vector3i, Mpu6050Error<B::BusError>>)
        requires
            old(self).wf(),
        ensures
            final(self).same_cfg(old(self)),
            old(self).bus_ops().is_prefix_of(final(self).bus_ops()),
            r matches Err(err) ==> err is I2c,
            r is Err ==> read_failed(
                old(self).bus_ops(),
                final(self).bus_ops(),
                old(self).spec_slave_addr(),
                device::GYRO_REGX_H,
            ),
            r matches Ok(v) ==> exists|d: Seq<u8>|
                d.len() == 6 && final(self).bus_ops() == old(self).bus_ops().push(
                    op_read(old(self).spec_slave_addr(), device::GYRO_REGX_H, d),
                ) && v.x == conversion::spec_div_trunc(
                    (conversion::spec_word_2c(d[0], d[1]) + old(self).spec_fine_tune().x) * 10000,
                    old(self).spec_gyro_sensitivity_deci() as int,
                ) && v.y == conversion::spec_div_trunc(
                    (conversion::spec_word_2c(d[2], d[3]) + old(self).spec_fine_tune().y) * 10000,
                    old(self).spec_gyro_sensitivity_deci() as int,
                ) && v.z == conversion::spec_div_trunc(
                    (conversion::spec_word_2c(d[4], d[5]) + old(self).spec_fine_tune().z) * 10000,
                    old(self).spec_gyro_sensitivity_deci() as int,
                ),
    {
        let g = self.read_gyro_i32()?;
        let sens = self.gyro_sensitivity_deci as i32;
        Ok(
            Vector3i {
                x: conversion::div_trunc(g.x * 10000, sens),
                y: conversion::div_trunc(g.y * 10000, sens),
                z: conversion::div_trunc(g.z * 10000, sens),
            },
        )
    }

    /// Reads the die temperature output word, as a decoded raw count.
    pub fn get_temp_raw(&mut self) -> (r: Result<i32, Mpu6050Error<B::BusError>>)
        ensures
            final(self).same_cfg(old(self)),
            old(self).bus_ops().is_prefix_of(final(self).bus_ops()),
            r matches Err(err) ==> err is I2c,
            r matches Ok(w) ==> -32768 <= w <= 32767 && exists|d: Seq<u8>|
                d.len() == 2 && final(self).bus_ops() == old(self).bus_ops().push(
                    op_read(old(self).spec_slave_addr(), device::TEMP_OUT_H, d),
                ) && w == conversion::spec_word_2c(d[0], d[1]),
            r is Err ==> read_failed(
                old(self).bus_ops(),
                final(self).bus_ops(),
                old(self).spec_slave_addr(),
                device::TEMP_OUT_H,
            ),
    {
        let buf = self.read_bytes(device::TEMP_OUT_H, 2)?;
        let w = conversion::read_word_2c(buf.as_slice());
        Ok(w)
    }

    /// Reads the die temperature, in hundredths of a degree Celsius:
    /// the decoded raw word put through the fixed affine transform of
    /// the datasheet.
    pub fn get_temp_centi(&mut self) -> (r: Result<i32, Mpu6050Error<B::BusError>>)
        ensures
            final(self).same_cfg(old(self)),
            old(self).bus_ops().is_prefix_of(final(self).bus_ops()),
            r matches Err(err) ==> err is I2c,
            r is Err ==> read_failed(
                old(self).bus_ops(),
                final(self).bus_ops(),
                old(self).spec_slave_addr(),
                device::TEMP_OUT_H,
            ),
            r matches Ok(t) ==> exists|d: Seq<u8>|
                d.len() == 2 && final(self).bus_ops() == old(self).bus_ops().push(
                    op_read(old(self).spec_slave_addr(), device::TEMP_OUT_H, d),
                ) && t == conversion::spec_temp_centi(conversion::spec_word_2c(d[0], d[1])),
    {
        let raw = self.get_temp_raw()?;
        Ok(conversion::temp_centi(raw))
    }

    /// Reads the three hardware gyroscope offset words from their
    /// register pairs.
    pub fn get_gyro_offsets(&mut self) -> (r: Result<Vector3i, Mpu6050Error<B::BusError>>)
        ensures
            final(self).same_cfg(old(self)),
            old(self).bus_ops().is_prefix_of(final(self).bus_ops()),
            r matches Err(err) ==> err is I2c,
            r matches Ok(v) ==> {
                &&& -32768 <= v.x <= 32767
                &&& -32768 <= v.y <= 32767
                &&& -32768 <= v.z <= 32767
                &&& exists|d1: Seq<u8>, d2: Seq<u8>, d3: Seq<u8>|
                    d1.len() == 2 && d2.len() == 2 && d3.len() == 2 && final(self).bus_ops() == old(
                        self,
                    ).bus_ops().push(op_read(old(self).spec_slave_addr(), device::XG_OFFS_USRH, d1)).push(
                        op_read(old(self).spec_slave_addr(), device::YG_OFFS_USRH, d2),
                    ).push(op_read(old(self).spec_slave_addr(), device::ZG_OFFS_USRH, d3)) && v.x
                        == conversion::spec_word_2c(d1[0], d1[1]) && v.y == conversion::spec_word_2c(
                        d2[0],
                        d2[1],
                    ) && v.z == conversion::spec_word_2c(d3[0], d3[1])
            },
    {
        let b1 = self.read_bytes(device::XG_OFFS_USRH, 2)?;
        let x = conversion::read_word_2c(b1.as_slice());
        let b2 = self.read_bytes(device::YG_OFFS_USRH, 2)?;
        let y = conversion::read_word_2c(b2.as_slice());
        let b3 = self.read_bytes(device::ZG_OFFS_USRH, 2)?;
        let z = conversion::read_word_2c(b3.as_slice());
        Ok(Vector3i { x, y, z })
    }

    /// Writes the three hardware gyroscope offset words to their
    /// register pairs, one word transaction each, x then y then z. A bus
    /// failure aborts the sequence after the failing write.
    pub fn set_gyro_offsets(&mut self, x_offset: i16, y_offset: i16, z_offset: i16) -> (r: Result<
        (),
        Mpu6050Error<B::BusError>,
    >)
        ensures
            final(self).same_cfg(old(self)),
            old(self).bus_ops().is_prefix_of(final(self).bus_ops()),
            r matches Err(err) ==> err is I2c,
            r is Ok ==> final(self).bus_ops() == old(self).bus_ops() + offsets_write_ops(
                old(self).spec_slave_addr(),
                x_offset,
                y_offset,
                z_offset,
            ),
            r is Err ==> exists|k: int|
                1 <= k <= 3 && final(self).bus_ops() == old(self).bus_ops() + offsets_write_ops(
                    old(self).spec_slave_addr(),
                    x_offset,
                    y_offset,
                    z_offset,
                ).take(k),
    {
        let ghost pre = self.bus_ops();
        let ghost addr = self.spec_slave_addr();
        let ghost all = offsets_write_ops(addr, x_offset, y_offset, z_offset);
        match self.write_word(device::XG_OFFS_USRH, x_offset as u16) {
            Ok(()) => (),
            Err(e) => {
                proof {
                    assert(self.bus_ops() =~= pre + all.take(1));
                }
                return Err(e);
            },
        }
        match self.write_word(device::YG_OFFS_USRH, y_offset as u16) {
            Ok(()) => (),
            Err(e) => {
                proof {
                    assert(self.bus_ops() =~= pre + all.take(2));
                }
                return Err(e);
            },
        }
        match self.write_word(device::ZG_OFFS_USRH, z_offset as u16) {
            Ok(()) => (),
            Err(e) => {
                proof {
                    assert(self.bus_ops() =~= pre + all.take(3));
                }
                return Err(e);
            },
        }
        proof {
            assert(self.bus_ops() =~= pre + all);
        }
        Ok(())
    }

    /// One sampling pass of the calibration engine: discards the
    /// settling samples, then sums exactly `MEASUREMENT_COUNT` gyroscope
    /// samples per axis, 2 ms apart. Since the sample count is exactly
    /// 1000, each returned sum is the per-axis arithmetic mean of the
    /// raw readings in thousandths of a count.
    fn calibrate_gyro_mean_sensor<D: Delay>(&mut self, delay: &mut D) -> (r: Result<
        Vector3i,
        Mpu6050Error<B::BusError>,
    >)
        requires
            old(self).wf(),
        ensures
            final(self).same_cfg(old(self)),
            old(self).bus_ops().is_prefix_of(final(self).bus_ops()),
            r matches Err(err) ==> err is I2c,
            r matches Ok(s) ==> {
                &&& calibration::spec_abs(s.x as int) <= 1000 * (32768 + calibration::spec_abs(
                    old(self).spec_fine_tune().x as int,
                ))
                &&& calibration::spec_abs(s.y as int) <= 1000 * (32768 + calibration::spec_abs(
                    old(self).spec_fine_tune().y as int,
                ))
                &&& calibration::spec_abs(s.z as int) <= 1000 * (32768 + calibration::spec_abs(
                    old(self).spec_fine_tune().z as int,
                ))
                &&& sampling_ops(
                    old(self).bus_ops(),
                    final(self).bus_ops(),
                    old(self).spec_slave_addr(),
                    old(self).spec_fine_tune(),
                    s,
                )
            },
    {
        let ghost addr = self.spec_slave_addr();
        let ghost o0 = self.bus_ops();
        let ghost fine = self.spec_fine_tune();
        let ghost fx = calibration::spec_abs(old(self).spec_fine_tune().x as int);
        let ghost fy = calibration::spec_abs(old(self).spec_fine_tune().y as int);
        let ghost fz = calibration::spec_abs(old(self).spec_fine_tune().z as int);
        let mut i: usize = 0;
        while i < calibration::SETTLING_COUNT
            invariant
                self.wf(),
                self.same_cfg(old(self)),
                old(self).bus_ops().is_prefix_of(self.bus_ops()),
                i <= calibration::SETTLING_COUNT,
                addr == old(self).spec_slave_addr(),
                o0 == old(self).bus_ops(),
                self.bus_ops().len() == o0.len() + i,
                forall|j: int|
                    o0.len() <= j < self.bus_ops().len() ==> #[trigger] is_gyro_sample_read(
                        self.bus_ops()[j],
                        addr,
                    ),
            decreases calibration::SETTLING_COUNT - i,
        {
            let ghost pre = self.bus_ops();
            let g = self.read_gyro_i32()?;
            proof {
                let d = choose|d: Seq<u8>|
                    d.len() == 6 && self.bus_ops() == pre.push(
                        op_read(addr, device::GYRO_REGX_H, d),
                    ) && g.x == conversion::spec_word_2c(d[0], d[1]) + self.spec_fine_tune().x
                        && g.y == conversion::spec_word_2c(d[2], d[3]) + self.spec_fine_tune().y
                        && g.z == conversion::spec_word_2c(d[4], d[5]) + self.spec_fine_tune().z;
                let op = op_read(addr, device::GYRO_REGX_H, d);
                assert(is_gyro_sample_read(op, addr));
                assert forall|j: int|
                    o0.len() <= j < self.bus_ops().len() implies #[trigger] is_gyro_sample_read(
                    self.bus_ops()[j],
                    addr,
                ) by {
                    if j < pre.len() {
                        assert(self.bus_ops()[j] == pre[j]);
                    } else {
                        assert(self.bus_ops()[j] == op);
                    }
                }
            }
            delay.delay_ms(2u32);
            i += 1;
        }
        let ghost start = o0.len() + calibration::SETTLING_COUNT as int;
        let mut sum_x: i32 = 0;
        let mut sum_y: i32 = 0;
        let mut sum_z: i32 = 0;
        let mut n: usize = 0;
        while n < calibration::MEASUREMENT_COUNT
            invariant
                self.wf(),
                self.same_cfg(old(self)),
                old(self).bus_ops().is_prefix_of(self.bus_ops()),
                n <= calibration::MEASUREMENT_COUNT,
                fx <= 65536,
                fy <= 65536,
                fz <= 65536,
                fx == calibration::spec_abs(self.spec_fine_tune().x as int),
                fy == calibration::spec_abs(self.spec_fine_tune().y as int),
                fz == calibration::spec_abs(self.spec_fine_tune().z as int),
                calibration::spec_abs(sum_x as int) <= n * (32768 + fx),
                calibration::spec_abs(sum_y as int) <= n * (32768 + fy),
                calibration::spec_abs(sum_z as int) <= n * (32768 + fz),
                addr == old(self).spec_slave_addr(),
                o0 == old(self).bus_ops(),
                fine == self.spec_fine_tune(),
                start == o0.len() + calibration::SETTLING_COUNT as int,
                self.bus_ops().len() == start + n,
                forall|j: int|
                    o0.len() <= j < self.bus_ops().len() ==> #[trigger] is_gyro_sample_read(
                        self.bus_ops()[j],
                        addr,
                    ),
                sum_x as int == sample_sum(self.bus_ops().skip(start), 0) + n * fine.x,
                sum_y as int == sample_sum(self.bus_ops().skip(start), 1) + n * fine.y,
                sum_z as int == sample_sum(self.bus_ops().skip(start), 2) + n * fine.z,
            decreases calibration::MEASUREMENT_COUNT - n,
        {
            proof {
                vstd::arithmetic::mul::lemma_mul_inequality(
                    n as int,
                    calibration::MEASUREMENT_COUNT as int,
                    32768 + fx,
                );
                vstd::arithmetic::mul::lemma_mul_inequality(
                    n as int,
                    calibration::MEASUREMENT_COUNT as int,
                    32768 + fy,
                );
                vstd::arithmetic::mul::lemma_mul_inequality(
                    n as int,
                    calibration::MEASUREMENT_COUNT as int,
                    32768 + fz,
                );
                assert((n + 1) * (32768 + fx) == n * (32768 + fx) + (32768 + fx))
                    by (nonlinear_arith);
                assert((n + 1) * (32768 + fy) == n * (32768 + fy) + (32768 + fy))
                    by (nonlinear_arith);
                assert((n + 1) * (32768 + fz) == n * (32768 + fz) + (32768 + fz))
                    by (nonlinear_arith);
            }
            let ghost pre = self.bus_ops();
            let g = self.read_gyro_i32()?;
            proof {
                let d = choose|d: Seq<u8>|
                    d.len() == 6 && self.bus_ops() == pre.push(
                        op_read(addr, device::GYRO_REGX_H, d),
                    ) && g.x == conversion::spec_word_2c(d[0], d[1]) + self.spec_fine_tune().x
                        && g.y == conversion::spec_word_2c(d[2], d[3]) + self.spec_fine_tune().y
                        && g.z == conversion::spec_word_2c(d[4], d[5]) + self.spec_fine_tune().z;
                let op = op_read(addr, device::GYRO_REGX_H, d);
                assert(is_gyro_sample_read(op, addr));
                assert forall|j: int|
                    o0.len() <= j < self.bus_ops().len() implies #[trigger] is_gyro_sample_read(
                    self.bus_ops()[j],
                    addr,
                ) by {
                    if j < pre.len() {
                        assert(self.bus_ops()[j] == pre[j]);
                    } else {
                        assert(self.bus_ops()[j] == op);
                    }
                }
                assert(self.bus_ops().skip(start) =~= pre.skip(start).push(op));
                assert(self.bus_ops().skip(start).drop_last() =~= pre.skip(start));
                assert(sample_word(op, 0) == conversion::spec_word_2c(d[0], d[1]));
                assert(sample_word(op, 1) == conversion::spec_word_2c(d[2], d[3]));
                assert(sample_word(op, 2) == conversion::spec_word_2c(d[4], d[5]));
                assert((n + 1) * fine.x == n * fine.x + fine.x) by (nonlinear_arith);
                assert((n + 1) * fine.y == n * fine.y + fine.y) by (nonlinear_arith);
                assert((n + 1) * fine.z == n * fine.z + fine.z) by (nonlinear_arith);
            }
            sum_x = sum_x + g.x;
            sum_y = sum_y + g.y;
            sum_z = sum_z + g.z;
            delay.delay_ms(2u32);
            n += 1;
        }
        Ok(Vector3i { x: sum_x, y: sum_y, z: sum_z })
    }

    /// Calibrates the gyroscope: drives the hardware offset registers
    /// toward zero mean output and captures the residual bias in the
    /// software fine-tune offsets. The sensor must be stationary and
    /// level for the whole run.
    ///
    /// Starting from zeroed hardware offsets and a zeroed fine-tune
    /// residual, each round samples the per-axis mean, subtracts
    /// `sign(mean) * max(|mean| / 4, 1)` (truncated) from the offset of
    /// every axis whose mean is outside the tolerance band, writes the
    /// offsets back, and reports the completed round to `callback`. The
    /// loop ends when all three means are within the band — capturing
    /// the fine-tune residual `-mean`, truncated toward zero, per axis —
    /// or after `MAX_CALIBRATION_STEPS` rounds, whichever comes first;
    /// running out of rounds is not an error. A bus failure aborts the
    /// run immediately, leaving the hardware offsets in whatever state
    /// the last successful write produced.
    pub fn calibrate_gyro<D: Delay, F: FnMut(usize)>(
        &mut self,
        delay: &mut D,
        callback: F,
    ) -> (r: Result<(), Mpu6050Error<B::BusError>>)
        requires
            old(self).wf(),
            forall|i: usize|
                i < calibration::MAX_CALIBRATION_STEPS ==> call_requires(callback, (i,)),
        ensures
            final(self).wf(),
            final(self).spec_slave_addr() == old(self).spec_slave_addr(),
            final(self).spec_acc_sensitivity() == old(self).spec_acc_sensitivity(),
            final(self).spec_gyro_sensitivity_deci() == old(self).spec_gyro_sensitivity_deci(),
            r matches Err(err) ==> err is I2c,
            old(self).bus_ops().is_prefix_of(final(self).bus_ops()),
            r is Err ==> (final(self).spec_fine_tune() == old(self).spec_fine_tune() && exists|
                k: int,
            |
                1 <= k <= 3 && final(self).bus_ops() == old(self).bus_ops() + offsets_write_ops(
                    old(self).spec_slave_addr(),
                    0,
                    0,
                    0,
                ).take(k)) || (final(self).spec_fine_tune() == Vector3i::spec_zero() && (old(
                self,
            ).bus_ops() + offsets_write_ops(old(self).spec_slave_addr(), 0, 0, 0)).is_prefix_of(
                final(self).bus_ops(),
            )),
            r is Ok ==> (old(self).bus_ops() + offsets_write_ops(
                old(self).spec_slave_addr(),
                0,
                0,
                0,
            )).is_prefix_of(final(self).bus_ops()),
            r is Ok ==> exists|k: int, s: Vector3i|
                {
                    &&& 1 <= k <= calibration::MAX_CALIBRATION_STEPS
                    &&& rounds_ops(
                        old(self).bus_ops() + offsets_write_ops(
                            old(self).spec_slave_addr(),
                            0,
                            0,
                            0,
                        ),
                        final(self).bus_ops(),
                        old(self).spec_slave_addr(),
                        k,
                        s,
                    )
                    &&& spec_all_within_tolerance(s) ==> spec_fine_tune_of_sums(
                        final(self).spec_fine_tune(),
                        s,
                    )
                    &&& !spec_all_within_tolerance(s) ==> final(self).spec_fine_tune()
                        == Vector3i::spec_zero() && k == calibration::MAX_CALIBRATION_STEPS
                },
    {
        let mut cb = callback;
        let ghost addr = old(self).spec_slave_addr();
        let ghost base = old(self).bus_ops() + offsets_write_ops(
            old(self).spec_slave_addr(),
            0,
            0,
            0,
        );

        self.set_gyro_offsets(0, 0, 0)?;
        self.gyro_fine_tune_offsets = Vector3i::zero();
        proof {
            assert(base =~= self.bus_ops().subrange(0, base.len() as int));
            assert(old(self).bus_ops() =~= self.bus_ops().subrange(
                0,
                old(self).bus_ops().len() as int,
            ));
        }

        let mut offsets_found = false;
        let mut calibration_step: usize = 0;
        while !offsets_found && calibration_step < calibration::MAX_CALIBRATION_STEPS
            invariant
                self.wf(),
                self.spec_slave_addr() == old(self).spec_slave_addr(),
                self.spec_acc_sensitivity() == old(self).spec_acc_sensitivity(),
                self.spec_gyro_sensitivity_deci() == old(self).spec_gyro_sensitivity_deci(),
                calibration_step <= calibration::MAX_CALIBRATION_STEPS,
                base == old(self).bus_ops() + offsets_write_ops(
                    old(self).spec_slave_addr(),
                    0,
                    0,
                    0,
                ),
                base.is_prefix_of(self.bus_ops()),
                old(self).bus_ops().is_prefix_of(self.bus_ops()),
                forall|i: usize|
                    i < calibration::MAX_CALIBRATION_STEPS ==> call_requires(cb, (i,)),
                !offsets_found ==> self.spec_fine_tune() == Vector3i::spec_zero(),
                addr == old(self).spec_slave_addr(),
                calibration_step == 0 ==> !offsets_found && self.bus_ops() == base,
                calibration_step >= 1 ==> exists|s: Vector3i|
                    {
                        &&& rounds_ops(base, self.bus_ops(), addr, calibration_step as int, s)
                        &&& spec_all_within_tolerance(s) ==> offsets_found
                            && spec_fine_tune_of_sums(self.spec_fine_tune(), s)
                        &&& !spec_all_within_tolerance(s) ==> !offsets_found
                    },
            decreases calibration::MAX_CALIBRATION_STEPS - calibration_step,
        {
            let ghost ops0 = self.bus_ops();
            let mean = self.calibrate_gyro_mean_sensor(delay)?;
            let ghost ops1 = self.bus_ops();

            let offsets = self.get_gyro_offsets()?;
            let ghost ops2 = self.bus_ops();
            let ux = calibration::adjust_offset(offsets.x, mean.x);
            let uy = calibration::adjust_offset(offsets.y, mean.y);
            let uz = calibration::adjust_offset(offsets.z, mean.z);
            let x16: i16 = #[verifier::truncate] (ux as i16);
            let y16: i16 = #[verifier::truncate] (uy as i16);
            let z16: i16 = #[verifier::truncate] (uz as i16);
            self.set_gyro_offsets(x16, y16, z16)?;
            proof {
                let (d1, d2, d3) = choose|d1: Seq<u8>, d2: Seq<u8>, d3: Seq<u8>|
                    {
                        &&& d1.len() == 2
                        &&& d2.len() == 2
                        &&& d3.len() == 2
                        &&& ops2 == ops1.push(op_read(addr, device::XG_OFFS_USRH, d1)).push(
                            op_read(addr, device::YG_OFFS_USRH, d2),
                        ).push(op_read(addr, device::ZG_OFFS_USRH, d3))
                        &&& offsets.x == conversion::spec_word_2c(d1[0], d1[1])
                        &&& offsets.y == conversion::spec_word_2c(d2[0], d2[1])
                        &&& offsets.z == conversion::spec_word_2c(d3[0], d3[1])
                    };
                assert(x16 == #[verifier::truncate] (calibration::spec_adjusted_offset(
                    conversion::spec_word_2c(d1[0], d1[1]),
                    mean.x as int,
                ) as i16));
                assert(y16 == #[verifier::truncate] (calibration::spec_adjusted_offset(
                    conversion::spec_word_2c(d2[0], d2[1]),
                    mean.y as int,
                ) as i16));
                assert(z16 == #[verifier::truncate] (calibration::spec_adjusted_offset(
                    conversion::spec_word_2c(d3[0], d3[1]),
                    mean.z as int,
                ) as i16));
                assert(round_ops(ops0, self.bus_ops(), addr, mean));
                if calibration_step == 0 {
                    assert(rounds_ops(base, self.bus_ops(), addr, 1, mean));
                } else {
                    let s_prev = choose|s: Vector3i|
                        {
                            &&& rounds_ops(base, ops0, addr, calibration_step as int, s)
                            &&& spec_all_within_tolerance(s) ==> offsets_found
                                && spec_fine_tune_of_sums(self.spec_fine_tune(), s)
                            &&& !spec_all_within_tolerance(s) ==> !offsets_found
                        };
                    lemma_rounds_append(
                        base,
                        ops0,
                        self.bus_ops(),
                        addr,
                        calibration_step as int,
                        s_prev,
                        mean,
                    );
                }
            }

            cb(calibration_step);

            if calibration::within_tolerance(mean.x) && calibration::within_tolerance(mean.y)
                && calibration::within_tolerance(mean.z) {
                offsets_found = true;
                self.gyro_fine_tune_offsets = Vector3i {
                    x: calibration::fine_tune_of(mean.x),
                    y: calibration::fine_tune_of(mean.y),
                    z: calibration::fine_tune_of(mean.z),
                };
            }
            proof {
                assert(rounds_ops(base, self.bus_ops(), addr, calibration_step as int + 1, mean));
                assert(spec_all_within_tolerance(mean) ==> offsets_found
                    && spec_fine_tune_of_sums(self.spec_fine_tune(), mean));
                assert(!spec_all_within_tolerance(mean) ==> !offsets_found);
            }
            calibration_step += 1;
        }

        Ok(())
    }
}

/// The three word-write transactions that store the hardware gyroscope
/// offsets, in order x, y, z.
pub open spec fn offsets_write_ops(addr: u8, x: i16, y: i16, z: i16) -> Seq<BusOp> {
    seq![
        op_write_word(addr, device::XG_OFFS_USRH, x as u16),
        op_write_word(addr, device::YG_OFFS_USRH, y as u16),
        op_write_word(addr, device::ZG_OFFS_USRH, z as u16),
    ]
}

} // verus!
