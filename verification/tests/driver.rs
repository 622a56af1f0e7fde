use mpu6050::bus::{Bus, BusOp, Delay};
use mpu6050::device::{AccelRange, GyroRange, ACCEL_HPF, CLKSEL};
use mpu6050::{Mpu6050, Mpu6050Error, Vector3i};

struct NoDelay;

impl Delay for NoDelay {
    fn delay_ms(&mut self, _ms: u32) {}
}

/// A bus backed by a flat register file: writes store bytes, reads
/// return them, every transaction is counted.
struct RegBus {
    regs: [u8; 256],
    reads: usize,
    writes: usize,
    order: Vec<u8>, // 1 per read transaction, 2 per write transaction
}

impl RegBus {
    fn new() -> RegBus {
        RegBus { regs: [0; 256], reads: 0, writes: 0, order: Vec::new() }
    }
}

impl Bus for RegBus {
    type BusError = u8;

    fn ops(&self) -> vstd::seq::Seq<BusOp> {
        panic!()
    }

    fn write(&mut self, _addr: u8, bytes: &Vec<u8>) -> Result<(), u8> {
        self.writes += 1;
        self.order.push(2);
        let reg = bytes[0] as usize;
        for (i, b) in bytes[1..].iter().enumerate() {
            self.regs[reg + i] = *b;
        }
        Ok(())
    }

    fn write_then_read(&mut self, _addr: u8, bytes: &Vec<u8>, read_len: usize) -> Result<Vec<u8>, u8> {
        self.reads += 1;
        self.order.push(1);
        let reg = bytes[0] as usize;
        Ok(self.regs[reg..reg + read_len].to_vec())
    }
}

/// A simulated stationary device for calibration runs. Gyro output is
/// `bias` plus, in the linear model, the hardware offset currently
/// stored in the offset registers; in the constant model the output
/// ignores the offsets entirely and can never converge.
struct GyroSimBus {
    offsets: [i16; 3],
    bias: [i32; 3],
    linear: bool,
}

impl Bus for GyroSimBus {
    type BusError = u8;

    fn ops(&self) -> vstd::seq::Seq<BusOp> {
        panic!()
    }

    fn write(&mut self, _addr: u8, bytes: &Vec<u8>) -> Result<(), u8> {
        if bytes.len() == 3 {
            let w = (((bytes[1] as u16) << 8) | bytes[2] as u16) as i16;
            match bytes[0] {
                0x13 => self.offsets[0] = w,
                0x15 => self.offsets[1] = w,
                0x17 => self.offsets[2] = w,
                _ => {}
            }
        }
        Ok(())
    }

    fn write_then_read(&mut self, _addr: u8, bytes: &Vec<u8>, read_len: usize) -> Result<Vec<u8>, u8> {
        let reg = bytes[0];
        if reg == 0x43 && read_len == 6 {
            let mut out = Vec::new();
            for a in 0..3 {
                let v = if self.linear {
                    self.bias[a] + self.offsets[a] as i32
                } else {
                    self.bias[a]
                };
                let w = v as i16 as u16;
                out.push((w >> 8) as u8);
                out.push((w & 0xff) as u8);
            }
            return Ok(out);
        }
        if read_len == 2 && (reg == 0x13 || reg == 0x15 || reg == 0x17) {
            let a = match reg {
                0x13 => 0,
                0x15 => 1,
                _ => 2,
            };
            let w = self.offsets[a] as u16;
            return Ok(vec![(w >> 8) as u8, (w & 0xff) as u8]);
        }
        Ok(vec![0; read_len])
    }
}

/// A bus whose every transaction fails.
struct FailBus;

impl Bus for FailBus {
    type BusError = u8;

    fn ops(&self) -> vstd::seq::Seq<BusOp> {
        panic!()
    }

    fn write(&mut self, _addr: u8, _bytes: &Vec<u8>) -> Result<(), u8> {
        Err(7)
    }

    fn write_then_read(&mut self, _addr: u8, _bytes: &Vec<u8>, _read_len: usize) -> Result<Vec<u8>, u8> {
        Err(7)
    }
}

#[test]
fn write_bit_is_one_read_then_one_write() {
    let mut mpu = Mpu6050::new(RegBus::new());
    mpu.write_bit(0x6b, 6, true).unwrap();
    let bus = mpu.release();
    assert_eq!(bus.reads, 1);
    assert_eq!(bus.writes, 1);
    assert_eq!(bus.order, vec![1, 2]);
    assert_eq!(bus.regs[0x6b], 0b0100_0000);
}

#[test]
fn write_bits_is_one_read_then_one_write() {
    let mut bus = RegBus::new();
    bus.regs[0x1c] = 0b1010_0101;
    let mut mpu = Mpu6050::new(bus);
    mpu.write_bits(0x1c, 3, 2, 0b11).unwrap();
    let bus = mpu.release();
    assert_eq!(bus.reads, 1);
    assert_eq!(bus.writes, 1);
    assert_eq!(bus.order, vec![1, 2]);
    // the field is replaced, all bits around it stay
    assert_eq!(bus.regs[0x1c], 0b1011_1101);
}

#[test]
fn init_accepts_the_expected_chip_id() {
    let mut bus = RegBus::new();
    bus.regs[0x75] = 0x68;
    let mut mpu = Mpu6050::new(bus);
    let mut delay = NoDelay;
    mpu.init(&mut delay).unwrap();
    assert_eq!(mpu.acc_sensitivity(), 16384);
    assert_eq!(mpu.gyro_sensitivity_deci(), 1310);
    let bus = mpu.release();
    assert_eq!(bus.regs[0x6b], 0x01); // woken, PLL with x-axis gyro reference
}

#[test]
fn init_rejects_a_wrong_chip_id() {
    let mut bus = RegBus::new();
    bus.regs[0x75] = 0x42;
    let mut mpu = Mpu6050::new(bus);
    let mut delay = NoDelay;
    let r = mpu.init(&mut delay);
    assert!(matches!(r, Err(Mpu6050Error::InvalidChipId(0x42))));
}

#[test]
fn setting_ranges_updates_the_cached_sensitivity() {
    let mut mpu = Mpu6050::new(RegBus::new());
    assert_eq!(mpu.acc_sensitivity(), 16384);
    assert_eq!(mpu.gyro_sensitivity_deci(), 1310);

    mpu.set_accel_range(AccelRange::G4).unwrap();
    assert_eq!(mpu.acc_sensitivity(), 8192);
    mpu.set_accel_range(AccelRange::G8).unwrap();
    assert_eq!(mpu.acc_sensitivity(), 4096);
    mpu.set_accel_range(AccelRange::G16).unwrap();
    assert_eq!(mpu.acc_sensitivity(), 2048);

    mpu.set_gyro_range(GyroRange::D500).unwrap();
    assert_eq!(mpu.gyro_sensitivity_deci(), 655);
    mpu.set_gyro_range(GyroRange::D1000).unwrap();
    assert_eq!(mpu.gyro_sensitivity_deci(), 328);
    mpu.set_gyro_range(GyroRange::D2000).unwrap();
    assert_eq!(mpu.gyro_sensitivity_deci(), 164);

    assert_eq!(mpu.get_accel_range().unwrap(), AccelRange::G16);
    assert_eq!(mpu.get_gyro_range().unwrap(), GyroRange::D2000);
}

#[test]
fn scaled_reads_follow_the_new_sensitivity_immediately() {
    let mut bus = RegBus::new();
    // accelerometer x axis reads 4096 counts, y and z zero
    bus.regs[0x3b] = 0x10;
    bus.regs[0x3c] = 0x00;
    let mut mpu = Mpu6050::new(bus);
    // 4096 counts at 16384 counts per g: 250 milli-g
    assert_eq!(mpu.get_acc_mg().unwrap(), Vector3i { x: 250, y: 0, z: 0 });
    mpu.set_accel_range(AccelRange::G8).unwrap();
    // the very next read scales by the new table value, 4096 counts per g
    assert_eq!(mpu.get_acc_mg().unwrap(), Vector3i { x: 1000, y: 0, z: 0 });
}

#[test]
fn sleep_bit_roundtrip() {
    let mut mpu = Mpu6050::new(RegBus::new());
    assert!(!mpu.get_sleep_enabled().unwrap());
    mpu.set_sleep_enabled(true).unwrap();
    assert!(mpu.get_sleep_enabled().unwrap());
    mpu.set_sleep_enabled(false).unwrap();
    assert!(!mpu.get_sleep_enabled().unwrap());
}

#[test]
fn temp_enable_is_stored_inverted() {
    let mut mpu = Mpu6050::new(RegBus::new());
    mpu.set_temp_enabled(false).unwrap();
    assert!(!mpu.get_temp_enabled().unwrap());
    let bus = mpu.release();
    assert_eq!(bus.regs[0x6b] & 0b0000_1000, 0b0000_1000); // the disable bit is set
    let mut mpu = Mpu6050::new(bus);
    mpu.set_temp_enabled(true).unwrap();
    assert!(mpu.get_temp_enabled().unwrap());
}

#[test]
fn self_test_bits_roundtrip() {
    let mut mpu = Mpu6050::new(RegBus::new());
    mpu.set_accel_x_self_test(true).unwrap();
    mpu.set_accel_z_self_test(true).unwrap();
    assert!(mpu.get_accel_x_self_test().unwrap());
    assert!(!mpu.get_accel_y_self_test().unwrap());
    assert!(mpu.get_accel_z_self_test().unwrap());
    let bus = mpu.release();
    assert_eq!(bus.regs[0x1c] & 0b1010_0000, 0b1010_0000);
}

#[test]
fn clock_source_roundtrip() {
    let mut mpu = Mpu6050::new(RegBus::new());
    mpu.set_clock_source(CLKSEL::GZAXIS).unwrap();
    assert_eq!(mpu.get_clock_source().unwrap(), CLKSEL::GZAXIS);
    let bus = mpu.release();
    assert_eq!(bus.regs[0x6b] & 0b0000_0111, 3);
}

#[test]
fn accel_hpf_roundtrip() {
    let mut mpu = Mpu6050::new(RegBus::new());
    mpu.set_accel_hpf(ACCEL_HPF::_2P5).unwrap();
    assert_eq!(mpu.get_accel_hpf().unwrap(), ACCEL_HPF::_2P5);
    mpu.set_accel_hpf(ACCEL_HPF::_HOLD).unwrap();
    assert_eq!(mpu.get_accel_hpf().unwrap(), ACCEL_HPF::_HOLD);
}

#[test]
fn motion_detection_writes_the_fixed_sequence() {
    let mut mpu = Mpu6050::new(RegBus::new());
    mpu.setup_motion_detection().unwrap();
    let bus = mpu.release();
    assert_eq!(bus.writes, 7);
    assert_eq!(bus.reads, 0);
    assert_eq!(bus.regs[0x6b], 0x00);
    assert_eq!(bus.regs[0x37], 0x20);
    assert_eq!(bus.regs[0x1c], 0x01);
    assert_eq!(bus.regs[0x1f], 10);
    assert_eq!(bus.regs[0x20], 40);
    assert_eq!(bus.regs[0x69], 0x15);
    assert_eq!(bus.regs[0x38], 0x40);
}

#[test]
fn motion_detected_reads_the_status_bit() {
    let mut bus = RegBus::new();
    bus.regs[0x3a] = 0b0100_0000;
    let mut mpu = Mpu6050::new(bus);
    assert!(mpu.get_motion_detected().unwrap());
    let mut mpu = Mpu6050::new(RegBus::new());
    assert!(!mpu.get_motion_detected().unwrap());
}

#[test]
fn gyro_offsets_roundtrip_through_the_registers() {
    let mut mpu = Mpu6050::new(RegBus::new());
    mpu.set_gyro_offsets(-100, 300, 5).unwrap();
    assert_eq!(mpu.get_gyro_offsets().unwrap(), Vector3i { x: -100, y: 300, z: 5 });
    let bus = mpu.release();
    // big-endian words at the three register pairs
    assert_eq!(bus.regs[0x13], 0xff);
    assert_eq!(bus.regs[0x14], 0x9c);
    assert_eq!(bus.regs[0x15], 0x01);
    assert_eq!(bus.regs[0x16], 0x2c);
    assert_eq!(bus.regs[0x17], 0x00);
    assert_eq!(bus.regs[0x18], 0x05);
}

#[test]
fn write_word_sends_high_byte_first() {
    let mut mpu = Mpu6050::new(RegBus::new());
    mpu.write_word(0x13, 0x1234).unwrap();
    let bus = mpu.release();
    assert_eq!(bus.writes, 1);
    assert_eq!(bus.regs[0x13], 0x12);
    assert_eq!(bus.regs[0x14], 0x34);
}

#[test]
fn temperature_through_the_device() {
    let mut bus = RegBus::new();
    // raw word 340: exactly one degree above the offset
    bus.regs[0x41] = 0x01;
    bus.regs[0x42] = 0x54;
    let mut mpu = Mpu6050::new(bus);
    assert_eq!(mpu.get_temp_raw().unwrap(), 340);
    assert_eq!(mpu.get_temp_centi().unwrap(), 3753);
}

#[test]
fn raw_reads_decode_all_three_axes() {
    let mut bus = RegBus::new();
    bus.regs[0x3b] = 0x7f;
    bus.regs[0x3c] = 0xff;
    bus.regs[0x3d] = 0x80;
    bus.regs[0x3e] = 0x00;
    bus.regs[0x3f] = 0xff;
    bus.regs[0x40] = 0xff;
    let mut mpu = Mpu6050::new(bus);
    assert_eq!(mpu.get_acc_raw().unwrap(), Vector3i { x: 32767, y: -32768, z: -1 });
}

#[test]
fn errors_wrap_the_bus_error() {
    let mut mpu = Mpu6050::new(FailBus);
    assert!(matches!(mpu.read_byte(0x75), Err(Mpu6050Error::I2c(7))));
    assert!(matches!(mpu.write_byte(0x6b, 0), Err(Mpu6050Error::I2c(7))));
    let mut delay = NoDelay;
    let r = mpu.calibrate_gyro(&mut delay, |_step| {});
    assert!(matches!(r, Err(Mpu6050Error::I2c(7))));
    assert_eq!(mpu.gyro_fine_tune_offsets(), Vector3i { x: 0, y: 0, z: 0 });
}

#[test]
fn calibration_gives_up_after_twenty_steps() {
    // pathological device: the mean never moves, whatever the offsets
    let bus = GyroSimBus { offsets: [0; 3], bias: [300, -200, 50], linear: false };
    let mut mpu = Mpu6050::new(bus);
    let mut delay = NoDelay;
    let mut steps: Vec<usize> = Vec::new();
    mpu.calibrate_gyro(&mut delay, |s| steps.push(s)).unwrap();
    assert_eq!(steps, (0..20).collect::<Vec<usize>>());
    // never converged, so no fine-tune residual was captured
    assert_eq!(mpu.gyro_fine_tune_offsets(), Vector3i { x: 0, y: 0, z: 0 });
}

#[test]
fn calibration_converges_on_a_linear_device() {
    let bus = GyroSimBus { offsets: [0; 3], bias: [40, -35, 8], linear: true };
    let mut mpu = Mpu6050::new(bus);
    let mut delay = NoDelay;
    let mut count: usize = 0;
    mpu.calibrate_gyro(&mut delay, |_s| count += 1).unwrap();
    assert!(count < 20);

    let fine = mpu.gyro_fine_tune_offsets();
    let offsets = mpu.get_gyro_offsets().unwrap();
    let bias = [40, -35, 8];
    for a in 0..3 {
        let offset = [offsets.x, offsets.y, offsets.z][a];
        let fine_a = [fine.x, fine.y, fine.z][a];
        // converged: every mean is within 1.5 counts of zero,
        let mean = bias[a] + offset;
        assert!(mean.abs() <= 1);
        // and the residual is the negated truncated mean
        assert_eq!(fine_a, -mean);
    }

    // the fine-tune residual cancels the remaining bias exactly on the
    // very next gyroscope read
    assert_eq!(mpu.get_gyro_raw().unwrap(), Vector3i { x: 0, y: 0, z: 0 });
}
