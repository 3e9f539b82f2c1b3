use lis2dh12::reg::DecodeError;
use lis2dh12::reg::FifoMode;
use lis2dh12::reg::FullScale;
use lis2dh12::reg::Mode;
use lis2dh12::reg::Odr;
use lis2dh12::reg::Register;
use lis2dh12::reg::BDU;
use lis2dh12::reg::DEVICE_ID;
use lis2dh12::reg::FM_MASK;
use lis2dh12::reg::FS_MASK;
use lis2dh12::reg::FTH_MASK;
use lis2dh12::reg::I2C_SAD;
use lis2dh12::reg::I2C_SUB_MULTI;
use lis2dh12::reg::ODR_MASK;
use lis2dh12::reg::ZYXDA;
use lis2dh12::reg::ZYXOR;

#[test]
fn register_addresses() {
    assert_eq!(Register::STATUS_REG_AUX.addr(), 0x07);
    assert_eq!(Register::OUT_TEMP_L.addr(), 0x0C);
    assert_eq!(Register::WHO_AM_I.addr(), 0x0F);
    assert_eq!(Register::CTRL_REG1.addr(), 0x20);
    assert_eq!(Register::CTRL_REG4.addr(), 0x23);
    assert_eq!(Register::STATUS_REG.addr(), 0x27);
    assert_eq!(Register::OUT_X_L.addr(), 0x28);
    assert_eq!(Register::OUT_Z_H.addr(), 0x2D);
    assert_eq!(Register::FIFO_CTRL_REG.addr(), 0x2E);
    assert_eq!(Register::ACT_DUR.addr(), 0x3F);
}

#[test]
fn register_addresses_are_distinct() {
    let all = [
        Register::STATUS_REG_AUX,
        Register::OUT_TEMP_L,
        Register::OUT_TEMP_H,
        Register::WHO_AM_I,
        Register::CTRL_REG0,
        Register::TEMP_CFG_REG,
        Register::CTRL_REG1,
        Register::CTRL_REG2,
        Register::CTRL_REG3,
        Register::CTRL_REG4,
        Register::CTRL_REG5,
        Register::CTRL_REG6,
        Register::REFERENCE,
        Register::STATUS_REG,
        Register::OUT_X_L,
        Register::OUT_X_H,
        Register::OUT_Y_L,
        Register::OUT_Y_H,
        Register::OUT_Z_L,
        Register::OUT_Z_H,
        Register::FIFO_CTRL_REG,
        Register::FIFO_SRC_REG,
        Register::INT1_CFG,
        Register::INT1_SRC,
        Register::INT1_THS,
        Register::INT1_DURATION,
        Register::INT2_CFG,
        Register::INT2_SRC,
        Register::INT2_THS,
        Register::INT2_DURATION,
        Register::CLICK_CFG,
        Register::CLICK_SRC,
        Register::CLICK_THS,
        Register::TIME_LIMIT,
        Register::TIME_LATENCY,
        Register::TIME_WINDOW,
        Register::ACT_THS,
        Register::ACT_DUR,
    ];
    for i in 0..all.len() {
        for j in 0..all.len() {
            if i != j {
                assert_ne!(all[i].addr(), all[j].addr());
            }
        }
    }
}

#[test]
fn wire_constants() {
    assert_eq!(I2C_SAD, 0b001_1000);
    assert_eq!(I2C_SUB_MULTI, 0b1000_0000);
    assert_eq!(DEVICE_ID, 0b0011_0011);
    assert_eq!(ODR_MASK, 0b1111_0000);
    assert_eq!(BDU, 0b1000_0000);
    assert_eq!(FS_MASK, 0b0011_0000);
    assert_eq!(FM_MASK, 0b1100_0000);
    assert_eq!(FTH_MASK, 0b0001_1111);
    assert_eq!(ZYXOR, 0b1000_0000);
    assert_eq!(ZYXDA, 0b0000_1000);
}

#[test]
fn sensitivity_constants() {
    // Thousandths of a unit per digit: 0.001, 0.002, 0.004, 0.012.
    assert_eq!(FullScale::G2.sensitivity(), 1);
    assert_eq!(FullScale::G4.sensitivity(), 2);
    assert_eq!(FullScale::G8.sensitivity(), 4);
    assert_eq!(FullScale::G16.sensitivity(), 12);
}

#[test]
fn odr_round_trip() {
    let variants = [
        Odr::PowerDown,
        Odr::Hz1,
        Odr::Hz10,
        Odr::Hz25,
        Odr::Hz50,
        Odr::Hz100,
        Odr::Hz200,
        Odr::Hz400,
        Odr::HighRate0,
        Odr::HighRate1,
    ];
    for v in variants {
        assert_eq!(Odr::decode(v.encode()), Ok(v));
    }
    for bits in 0u8..=255 {
        match Odr::decode(bits) {
            Ok(v) => assert_eq!(v.encode(), bits),
            Err(e) => {
                assert_eq!(e, DecodeError::UnrecognizedBitPattern);
                assert!(bits >= 0b1010);
            }
        }
    }
}

#[test]
fn full_scale_round_trip() {
    let variants = [FullScale::G2, FullScale::G4, FullScale::G8, FullScale::G16];
    for v in variants {
        assert_eq!(FullScale::decode(v.encode()), Ok(v));
    }
    for bits in 0u8..=255 {
        match FullScale::decode(bits) {
            Ok(v) => assert_eq!(v.encode(), bits),
            Err(e) => {
                assert_eq!(e, DecodeError::UnrecognizedBitPattern);
                assert!(bits >= 0b100);
            }
        }
    }
}

#[test]
fn fifo_mode_round_trip() {
    let variants = [
        FifoMode::Bypass,
        FifoMode::Fifo,
        FifoMode::Stream,
        FifoMode::StreamToFifo,
    ];
    for v in variants {
        assert_eq!(FifoMode::decode(v.encode()), Ok(v));
    }
    for bits in 0u8..=255 {
        match FifoMode::decode(bits) {
            Ok(v) => assert_eq!(v.encode(), bits),
            Err(e) => {
                assert_eq!(e, DecodeError::UnrecognizedBitPattern);
                assert!(bits >= 0b100);
            }
        }
    }
}

#[test]
fn decode_rejects_reserved_patterns() {
    assert_eq!(Odr::decode(0b1010), Err(DecodeError::UnrecognizedBitPattern));
    assert_eq!(Odr::decode(0b1111), Err(DecodeError::UnrecognizedBitPattern));
    assert_eq!(FullScale::decode(0b100), Err(DecodeError::UnrecognizedBitPattern));
    assert_eq!(FifoMode::decode(0b100), Err(DecodeError::UnrecognizedBitPattern));
}

#[test]
fn decode_register_fields() {
    // A CTRL_REG1 byte with the output-data-rate field set to HighRate1.
    let ctrl1: u8 = 0b1001_0000;
    assert_eq!(Odr::decode((ctrl1 & ODR_MASK) >> 4), Ok(Odr::HighRate1));
    // A CTRL_REG4 byte with the full-scale field set to G4.
    let ctrl4: u8 = 0b0001_0000;
    assert_eq!(FullScale::decode((ctrl4 & FS_MASK) >> 4), Ok(FullScale::G4));
    // A FIFO_CTRL_REG byte with the mode field set to Stream.
    let fifo_ctrl: u8 = 0b1000_0000;
    assert_eq!(FifoMode::decode((fifo_ctrl & FM_MASK) >> 6), Ok(FifoMode::Stream));
}

#[test]
fn mode_sample_widths() {
    assert_eq!(Mode::HighResolution.sample_bits(), 12);
    assert_eq!(Mode::Normal.sample_bits(), 10);
    assert_eq!(Mode::LowPower.sample_bits(), 8);
    assert_eq!(Mode::HighResolution.sample_lsb(), 16);
    assert_eq!(Mode::Normal.sample_lsb(), 64);
    assert_eq!(Mode::LowPower.sample_lsb(), 256);
}

#[test]
fn to_physical_zero_is_zero() {
    for fs in [FullScale::G2, FullScale::G4, FullScale::G8, FullScale::G16] {
        assert_eq!(fs.to_physical(0), 0);
        for mode in [Mode::HighResolution, Mode::Normal, Mode::LowPower] {
            assert_eq!(fs.to_physical_in_mode(0, mode), 0);
        }
    }
}

#[test]
fn to_physical_one_digit() {
    // Raw 0x0010 is one digit at high resolution: 0.001 of a unit at +-2 g.
    assert_eq!(FullScale::G2.to_physical(0x0010), 1);
    // Raw 0xFFF0 is minus one digit: -0.001 of a unit at +-2 g.
    assert_eq!(FullScale::G2.to_physical(0xFFF0u16 as i16), -1);
}

#[test]
fn to_physical_shift_is_arithmetic() {
    // The shift preserves the sign and rounds toward negative infinity.
    assert_eq!(FullScale::G2.to_physical(-1), -1);
    assert_eq!(FullScale::G2.to_physical(-17), -2);
    assert_eq!(FullScale::G2.to_physical(31), 1);
    assert_eq!(FullScale::G2.to_physical(i16::MIN), -2048);
    assert_eq!(FullScale::G2.to_physical(i16::MAX), 2047);
    assert_eq!(FullScale::G16.to_physical(i16::MIN), -24576);
    assert_eq!(FullScale::G16.to_physical(i16::MAX), 24564);
}

#[test]
fn to_physical_g4_doubles_g2() {
    for raw in [0i16, 16, -16, 0x7FF0, -0x8000, 12345, -12345] {
        assert_eq!(
            FullScale::G4.to_physical(raw),
            2 * FullScale::G2.to_physical(raw)
        );
    }
}

#[test]
fn to_physical_in_mode_shifts_by_padding() {
    // One digit in each mode: 16, 64 and 256 in the 16-bit container.
    assert_eq!(
        FullScale::G2.to_physical_in_mode(16, Mode::HighResolution),
        1
    );
    assert_eq!(FullScale::G2.to_physical_in_mode(64, Mode::Normal), 1);
    assert_eq!(FullScale::G2.to_physical_in_mode(256, Mode::LowPower), 1);
    assert_eq!(FullScale::G2.to_physical_in_mode(-256, Mode::LowPower), -1);
    // The fixed-shift conversion is the high-resolution instance.
    for raw in [0i16, 16, -16, 300, -300] {
        assert_eq!(
            FullScale::G8.to_physical_in_mode(raw, Mode::HighResolution),
            FullScale::G8.to_physical(raw)
        );
    }
}
