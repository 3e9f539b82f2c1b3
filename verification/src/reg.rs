//! Register map, bitfield constants, configuration fields and the raw-sample
//! conversion for the accelerometer.

use vstd::prelude::*;

verus! {

use vstd::arithmetic::div_mod::lemma_fundamental_div_mod;
use vstd::arithmetic::div_mod::lemma_fundamental_div_mod_converse;
use vstd::arithmetic::div_mod::lemma_mod_bound;

/// I2C slave address of the device.
pub const I2C_SAD: u8 = 0b001_1000;

/// Sub-address bit that enables address auto-increment on multi-byte
/// transfers.
pub const I2C_SUB_MULTI: u8 = 0b1000_0000;

/// Register mapping: every register the device exposes, by symbolic name.
///
/// Each register has a fixed one-byte address on the peripheral bus, given by
/// [`Register::addr`]. The addresses are pairwise distinct; see
/// [`lemma_addr_injective`].
#[allow(non_camel_case_types)]
#[derive(Copy, Clone, Debug, PartialEq, Eq, Structural)]
pub enum Register {
    STATUS_REG_AUX,
    OUT_TEMP_L,
    OUT_TEMP_H,
    WHO_AM_I,
    CTRL_REG0,
    TEMP_CFG_REG,
    CTRL_REG1,
    CTRL_REG2,
    CTRL_REG3,
    CTRL_REG4,
    CTRL_REG5,
    CTRL_REG6,
    REFERENCE,
    STATUS_REG,
    OUT_X_L,
    OUT_X_H,
    OUT_Y_L,
    OUT_Y_H,
    OUT_Z_L,
    OUT_Z_H,
    FIFO_CTRL_REG,
    FIFO_SRC_REG,
    INT1_CFG,
    INT1_SRC,
    INT1_THS,
    INT1_DURATION,
    INT2_CFG,
    INT2_SRC,
    INT2_THS,
    INT2_DURATION,
    CLICK_CFG,
    CLICK_SRC,
    CLICK_THS,
    TIME_LIMIT,
    TIME_LATENCY,
    TIME_WINDOW,
    ACT_THS,
    ACT_DUR,
}

impl Register {
    /// The byte address of this register, as fixed by the datasheet.
    pub open spec fn spec_addr(self) -> u8 {
        match self {
            Register::STATUS_REG_AUX => 0x07,
            Register::OUT_TEMP_L => 0x0C,
            Register::OUT_TEMP_H => 0x0D,
            Register::WHO_AM_I => 0x0F,
            Register::CTRL_REG0 => 0x1E,
            Register::TEMP_CFG_REG => 0x1F,
            Register::CTRL_REG1 => 0x20,
            Register::CTRL_REG2 => 0x21,
            Register::CTRL_REG3 => 0x22,
            Register::CTRL_REG4 => 0x23,
            Register::CTRL_REG5 => 0x24,
            Register::CTRL_REG6 => 0x25,
            Register::REFERENCE => 0x26,
            Register::STATUS_REG => 0x27,
            Register::OUT_X_L => 0x28,
            Register::OUT_X_H => 0x29,
            Register::OUT_Y_L => 0x2A,
            Register::OUT_Y_H => 0x2B,
            Register::OUT_Z_L => 0x2C,
            Register::OUT_Z_H => 0x2D,
            Register::FIFO_CTRL_REG => 0x2E,
            Register::FIFO_SRC_REG => 0x2F,
            Register::INT1_CFG => 0x30,
            Register::INT1_SRC => 0x31,
            Register::INT1_THS => 0x32,
            Register::INT1_DURATION => 0x33,
            Register::INT2_CFG => 0x34,
            Register::INT2_SRC => 0x35,
            Register::INT2_THS => 0x36,
            Register::INT2_DURATION => 0x37,
            Register::CLICK_CFG => 0x38,
            Register::CLICK_SRC => 0x39,
            Register::CLICK_THS => 0x3A,
            Register::TIME_LIMIT => 0x3B,
            Register::TIME_LATENCY => 0x3C,
            Register::TIME_WINDOW => 0x3D,
            Register::ACT_THS => 0x3E,
            Register::ACT_DUR => 0x3F,
        }
    }

    /// Get register address
    pub fn addr(self) -> (a: u8)
        ensures
            a == self.spec_addr(),
    {
        match self {
            Register::STATUS_REG_AUX => 0x07,
            Register::OUT_TEMP_L => 0x0C,
            Register::OUT_TEMP_H => 0x0D,
            Register::WHO_AM_I => 0x0F,
            Register::CTRL_REG0 => 0x1E,
            Register::TEMP_CFG_REG => 0x1F,
            Register::CTRL_REG1 => 0x20,
            Register::CTRL_REG2 => 0x21,
            Register::CTRL_REG3 => 0x22,
            Register::CTRL_REG4 => 0x23,
            Register::CTRL_REG5 => 0x24,
            Register::CTRL_REG6 => 0x25,
            Register::REFERENCE => 0x26,
            Register::STATUS_REG => 0x27,
            Register::OUT_X_L => 0x28,
            Register::OUT_X_H => 0x29,
            Register::OUT_Y_L => 0x2A,
            Register::OUT_Y_H => 0x2B,
            Register::OUT_Z_L => 0x2C,
            Register::OUT_Z_H => 0x2D,
            Register::FIFO_CTRL_REG => 0x2E,
            Register::FIFO_SRC_REG => 0x2F,
            Register::INT1_CFG => 0x30,
            Register::INT1_SRC => 0x31,
            Register::INT1_THS => 0x32,
            Register::INT1_DURATION => 0x33,
            Register::INT2_CFG => 0x34,
            Register::INT2_SRC => 0x35,
            Register::INT2_THS => 0x36,
            Register::INT2_DURATION => 0x37,
            Register::CLICK_CFG => 0x38,
            Register::CLICK_SRC => 0x39,
            Register::CLICK_THS => 0x3A,
            Register::TIME_LIMIT => 0x3B,
            Register::TIME_LATENCY => 0x3C,
            Register::TIME_WINDOW => 0x3D,
            Register::ACT_THS => 0x3E,
            Register::ACT_DUR => 0x3F,
        }
    }
}

/// Reverse lookup of the address map: the register at a byte address, if any.
pub open spec fn register_at(a: u8) -> Option<Register> {
    if a == 0x07 {
        Some(Register::STATUS_REG_AUX)
    } else if a == 0x0C {
        Some(Register::OUT_TEMP_L)
    } else if a == 0x0D {
        Some(Register::OUT_TEMP_H)
    } else if a == 0x0F {
        Some(Register::WHO_AM_I)
    } else if a == 0x1E {
        Some(Register::CTRL_REG0)
    } else if a == 0x1F {
        Some(Register::TEMP_CFG_REG)
    } else if a == 0x20 {
        Some(Register::CTRL_REG1)
    } else if a == 0x21 {
        Some(Register::CTRL_REG2)
    } else if a == 0x22 {
        Some(Register::CTRL_REG3)
    } else if a == 0x23 {
        Some(Register::CTRL_REG4)
    } else if a == 0x24 {
        Some(Register::CTRL_REG5)
    } else if a == 0x25 {
        Some(Register::CTRL_REG6)
    } else if a == 0x26 {
        Some(Register::REFERENCE)
    } else if a == 0x27 {
        Some(Register::STATUS_REG)
    } else if a == 0x28 {
        Some(Register::OUT_X_L)
    } else if a == 0x29 {
        Some(Register::OUT_X_H)
    } else if a == 0x2A {
        Some(Register::OUT_Y_L)
    } else if a == 0x2B {
        Some(Register::OUT_Y_H)
    } else if a == 0x2C {
        Some(Register::OUT_Z_L)
    } else if a == 0x2D {
        Some(Register::OUT_Z_H)
    } else if a == 0x2E {
        Some(Register::FIFO_CTRL_REG)
    } else if a == 0x2F {
        Some(Register::FIFO_SRC_REG)
    } else if a == 0x30 {
        Some(Register::INT1_CFG)
    } else if a == 0x31 {
        Some(Register::INT1_SRC)
    } else if a == 0x32 {
        Some(Register::INT1_THS)
    } else if a == 0x33 {
        Some(Register::INT1_DURATION)
    } else if a == 0x34 {
        Some(Register::INT2_CFG)
    } else if a == 0x35 {
        Some(Register::INT2_SRC)
    } else if a == 0x36 {
        Some(Register::INT2_THS)
    } else if a == 0x37 {
        Some(Register::INT2_DURATION)
    } else if a == 0x38 {
        Some(Register::CLICK_CFG)
    } else if a == 0x39 {
        Some(Register::CLICK_SRC)
    } else if a == 0x3A {
        Some(Register::CLICK_THS)
    } else if a == 0x3B {
        Some(Register::TIME_LIMIT)
    } else if a == 0x3C {
        Some(Register::TIME_LATENCY)
    } else if a == 0x3D {
        Some(Register::TIME_WINDOW)
    } else if a == 0x3E {
        Some(Register::ACT_THS)
    } else if a == 0x3F {
        Some(Register::ACT_DUR)
    } else {
        None
    }
}

// === STATUS_REG_AUX (07h) ===

/// Temperature data overrun.
pub const TOR: u8 = 0b0100_0000;

/// New temperature data available.
pub const TDA: u8 = 0b0000_0100;

// === WHO_AM_I (0Fh) ===

/// WHO_AM_I device identification register
pub const DEVICE_ID: u8 = 0b0011_0011;

// === TEMP_CFG_REG (1Fh) ===

/// Temperature sensor enable.
pub const TEMP_EN: u8 = 0b1100_0000;

// === CTRL_REG1 (20h) ===

/// Output-data-rate field of `CTRL_REG1`.
pub const ODR_MASK: u8 = 0b1111_0000;

/// Low-power mode enable.
pub const LPen: u8 = 0b0000_1000;

/// Z-axis enable.
pub const Zen: u8 = 0b0000_0100;

/// Y-axis enable.
pub const Yen: u8 = 0b0000_0010;

/// X-axis enable.
pub const Xen: u8 = 0b0000_0001;

// === CTRL_REG4 (23h) ===

/// Block data update.
pub const BDU: u8 = 0b1000_0000;

/// Full-scale field of `CTRL_REG4`.
pub const FS_MASK: u8 = 0b0011_0000;

/// High-resolution output mode enable.
pub const HR: u8 = 0b0000_1000;

// === CTRL_REG5 (24h) ===

/// FIFO enable.
pub const FIFO_EN: u8 = 0b0100_0000;

// === STATUS_REG (27h) ===

/// X, Y and Z axis data overrun.
pub const ZYXOR: u8 = 0b1000_0000;

/// Z-axis data overrun.
pub const ZOR: u8 = 0b0100_0000;

/// Y-axis data overrun.
pub const YOR: u8 = 0b0010_0000;

/// X-axis data overrun.
pub const XOR: u8 = 0b0001_0000;

/// X, Y and Z axis new data available.
pub const ZYXDA: u8 = 0b0000_1000;

/// Z-axis new data available.
pub const ZDA: u8 = 0b0000_0100;

/// Y-axis new data available.
pub const YDA: u8 = 0b0000_0010;

/// X-axis new data available.
pub const XDA: u8 = 0b0000_0001;

// === FIFO_CTRL_REG (2Eh) ===

/// FIFO-mode field of `FIFO_CTRL_REG`.
pub const FM_MASK: u8 = 0b1100_0000;

/// FIFO threshold field of `FIFO_CTRL_REG`.
pub const FTH_MASK: u8 = 0b0001_1111;

/// Failure to decode a register field: the masked field value matches no
/// defined variant.
///
/// A reserved or undefined bit pattern is never coerced to a nearby variant;
/// it is reported through this error instead.
#[derive(Copy, Clone, Debug, PartialEq, Eq, Structural)]
pub enum DecodeError {
    UnrecognizedBitPattern,
}

/// The address map has a left inverse: looking an address back up yields the
/// register it came from.
pub proof fn lemma_register_at_addr(r: Register)
    ensures
        register_at(r.spec_addr()) == Some(r),
{
}

/// The address map is injective: no two distinct registers share a byte
/// address.
pub proof fn lemma_addr_injective(a: Register, b: Register)
    ensures
        a.spec_addr() == b.spec_addr() ==> a == b,
{
    lemma_register_at_addr(a);
    lemma_register_at_addr(b);
}

/// Operating mode
///
/// The mode fixes how many of the 16 container bits of a raw sample are
/// significant; the sample is left-justified, so the remaining low bits are
/// zero padding.
#[derive(Copy, Clone, Debug, PartialEq, Eq, Structural)]
pub enum Mode {
    /// High-resolution mode (12-bit data output)
    HighResolution,
    /// Normal mode (10-bit data output)
    Normal,
    /// Low-power mode (8-bit data output)
    LowPower,
}

impl Mode {
    /// Number of significant bits in a raw sample under this mode.
    pub open spec fn spec_sample_bits(self) -> u8 {
        match self {
            Mode::HighResolution => 12,
            Mode::Normal => 10,
            Mode::LowPower => 8,
        }
    }

    /// Number of significant bits in a raw sample under this mode.
    pub fn sample_bits(self) -> (n: u8)
        ensures
            n == self.spec_sample_bits(),
    {
        match self {
            Mode::HighResolution => 12,
            Mode::Normal => 10,
            Mode::LowPower => 8,
        }
    }

    /// Weight of one sample digit inside the left-justified 16-bit container:
    /// two to the number of padding bits (4, 6 or 8 of them).
    pub open spec fn spec_sample_lsb(self) -> u16 {
        match self {
            Mode::HighResolution => 16,
            Mode::Normal => 64,
            Mode::LowPower => 256,
        }
    }

    /// Weight of one sample digit inside the left-justified 16-bit container.
    pub fn sample_lsb(self) -> (w: u16)
        ensures
            w == self.spec_sample_lsb(),
    {
        match self {
            Mode::HighResolution => 16,
            Mode::Normal => 64,
            Mode::LowPower => 256,
        }
    }
}

/// Output Data Rate
///
/// The sampling-frequency field of `CTRL_REG1`, a closed set of 4-bit
/// patterns. [`Odr::encode`] yields the on-wire pattern of a variant;
/// [`Odr::decode`] is its inverse over the defined patterns and rejects every
/// other field value.
#[derive(Copy, Clone, Debug, PartialEq, Eq, Structural)]
pub enum Odr {
    /// Power-down mode
    PowerDown,
    /// 1 Hz
    Hz1,
    /// 10 Hz
    Hz10,
    /// 25 Hz
    Hz25,
    /// 50 Hz
    Hz50,
    /// 100 Hz
    Hz100,
    /// 200 Hz
    Hz200,
    /// 400 Hz
    Hz400,
    /// Low-power mode (1.620 kHz)
    HighRate0,
    /// High-resolution / Normal (1.344 kHz),
    /// Low-power (5.376 kHz)
    HighRate1,
}

impl Odr {
    /// The canonical 4-bit on-wire pattern of this rate, not yet shifted into
    /// its register position.
    pub open spec fn spec_encode(self) -> u8 {
        match self {
            Odr::PowerDown => 0b0000,
            Odr::Hz1 => 0b0001,
            Odr::Hz10 => 0b0010,
            Odr::Hz25 => 0b0011,
            Odr::Hz50 => 0b0100,
            Odr::Hz100 => 0b0101,
            Odr::Hz200 => 0b0110,
            Odr::Hz400 => 0b0111,
            Odr::HighRate0 => 0b1000,
            Odr::HighRate1 => 0b1001,
        }
    }

    /// The rate a field value stands for: the inverse of [`Odr::spec_encode`]
    /// over the defined patterns, an error on every other byte.
    pub open spec fn spec_decode(bits: u8) -> Result<Odr, DecodeError> {
        if bits == 0b0000 {
            Ok(Odr::PowerDown)
        } else if bits == 0b0001 {
            Ok(Odr::Hz1)
        } else if bits == 0b0010 {
            Ok(Odr::Hz10)
        } else if bits == 0b0011 {
            Ok(Odr::Hz25)
        } else if bits == 0b0100 {
            Ok(Odr::Hz50)
        } else if bits == 0b0101 {
            Ok(Odr::Hz100)
        } else if bits == 0b0110 {
            Ok(Odr::Hz200)
        } else if bits == 0b0111 {
            Ok(Odr::Hz400)
        } else if bits == 0b1000 {
            Ok(Odr::HighRate0)
        } else if bits == 0b1001 {
            Ok(Odr::HighRate1)
        } else {
            Err(DecodeError::UnrecognizedBitPattern)
        }
    }

    /// Encode this rate as its canonical on-wire pattern; total, never fails.
    pub fn encode(self) -> (bits: u8)
        ensures
            bits == self.spec_encode(),
    {
        match self {
            Odr::PowerDown => 0b0000,
            Odr::Hz1 => 0b0001,
            Odr::Hz10 => 0b0010,
            Odr::Hz25 => 0b0011,
            Odr::Hz50 => 0b0100,
            Odr::Hz100 => 0b0101,
            Odr::Hz200 => 0b0110,
            Odr::Hz400 => 0b0111,
            Odr::HighRate0 => 0b1000,
            Odr::HighRate1 => 0b1001,
        }
    }

    /// Decode a field value (the register byte masked with [`ODR_MASK`] and
    /// shifted down into the low bits) back to the rate it stands for.
    pub fn decode(bits: u8) -> (r: Result<Odr, DecodeError>)
        ensures
            r == Odr::spec_decode(bits),
    {
        match bits {
            0b0000 => Ok(Odr::PowerDown),
            0b0001 => Ok(Odr::Hz1),
            0b0010 => Ok(Odr::Hz10),
            0b0011 => Ok(Odr::Hz25),
            0b0100 => Ok(Odr::Hz50),
            0b0101 => Ok(Odr::Hz100),
            0b0110 => Ok(Odr::Hz200),
            0b0111 => Ok(Odr::Hz400),
            0b1000 => Ok(Odr::HighRate0),
            0b1001 => Ok(Odr::HighRate1),
            _ => Err(DecodeError::UnrecognizedBitPattern),
        }
    }
}

/// Round trip for the output-data-rate field: every field value that decodes
/// re-encodes to the same byte, and every value that fails to decode matches
/// no defined pattern and fails with `UnrecognizedBitPattern`.
pub proof fn lemma_odr_round_trip(bits: u8)
    ensures
        Odr::spec_decode(bits) matches Ok(v) ==> v.spec_encode() == bits,
        Odr::spec_decode(bits) matches Err(e) ==> e == DecodeError::UnrecognizedBitPattern
            && forall|v: Odr| v.spec_encode() != bits,
{
}

/// Round trip in the other direction: every rate's encoding decodes back to
/// that rate.
pub proof fn lemma_odr_decode_encode(v: Odr)
    ensures
        Odr::spec_decode(v.spec_encode()) == Ok::<Odr, DecodeError>(v),
{
}

/// Full-scale selection
///
/// The measurable range field of `CTRL_REG4`, a closed set of 2-bit patterns.
/// Each variant carries the fixed sensitivity constant the measurement
/// conversion multiplies by; see [`FullScale::sensitivity`].
#[derive(Copy, Clone, Debug, PartialEq, Eq, Structural)]
pub enum FullScale {
    /// ±2 g
    G2,
    /// ±4 g
    G4,
    /// ±8 g
    G8,
    /// ±16 g
    G16,
}

impl FullScale {
    /// The canonical 2-bit on-wire pattern of this range, not yet shifted
    /// into its register position.
    pub open spec fn spec_encode(self) -> u8 {
        match self {
            FullScale::G2 => 0b00,
            FullScale::G4 => 0b01,
            FullScale::G8 => 0b10,
            FullScale::G16 => 0b11,
        }
    }

    /// The range a field value stands for: the inverse of
    /// [`FullScale::spec_encode`] over the defined patterns, an error on
    /// every other byte.
    pub open spec fn spec_decode(bits: u8) -> Result<FullScale, DecodeError> {
        if bits == 0b00 {
            Ok(FullScale::G2)
        } else if bits == 0b01 {
            Ok(FullScale::G4)
        } else if bits == 0b10 {
            Ok(FullScale::G8)
        } else if bits == 0b11 {
            Ok(FullScale::G16)
        } else {
            Err(DecodeError::UnrecognizedBitPattern)
        }
    }

    /// Encode this range as its canonical on-wire pattern; total, never
    /// fails.
    pub fn encode(self) -> (bits: u8)
        ensures
            bits == self.spec_encode(),
    {
        match self {
            FullScale::G2 => 0b00,
            FullScale::G4 => 0b01,
            FullScale::G8 => 0b10,
            FullScale::G16 => 0b11,
        }
    }

    /// Decode a field value (the register byte masked with [`FS_MASK`] and
    /// shifted down into the low bits) back to the range it stands for.
    pub fn decode(bits: u8) -> (r: Result<FullScale, DecodeError>)
        ensures
            r == FullScale::spec_decode(bits),
    {
        match bits {
            0b00 => Ok(FullScale::G2),
            0b01 => Ok(FullScale::G4),
            0b10 => Ok(FullScale::G8),
            0b11 => Ok(FullScale::G16),
            _ => Err(DecodeError::UnrecognizedBitPattern),
        }
    }

    /// The fixed datasheet sensitivity of this range, in thousandths of a
    /// unit per least-significant digit of a 12-bit high-resolution sample
    /// (numerically, mg per digit).
    pub open spec fn spec_sensitivity(self) -> u8 {
        match self {
            FullScale::G2 => 1,
            FullScale::G4 => 2,
            FullScale::G8 => 4,
            FullScale::G16 => 12,
        }
    }

    /// The fixed datasheet sensitivity of this range, in thousandths of a
    /// unit per least-significant digit (mg per digit). The table is
    /// constant; it is never recomputed from the range's numeric span.
    pub fn sensitivity(self) -> (s: u8)
        ensures
            s == self.spec_sensitivity(),
    {
        match self {
            FullScale::G2 => 1,
            FullScale::G4 => 2,
            FullScale::G8 => 4,
            FullScale::G16 => 12,
        }
    }
}

/// Round trip for the full-scale field: every field value that decodes
/// re-encodes to the same byte, and every value that fails to decode matches
/// no defined pattern and fails with `UnrecognizedBitPattern`.
pub proof fn lemma_full_scale_round_trip(bits: u8)
    ensures
        FullScale::spec_decode(bits) matches Ok(v) ==> v.spec_encode() == bits,
        FullScale::spec_decode(bits) matches Err(e) ==> e == DecodeError::UnrecognizedBitPattern
            && forall|v: FullScale| v.spec_encode() != bits,
{
}

/// Round trip in the other direction: every range's encoding decodes back to
/// that range.
pub proof fn lemma_full_scale_decode_encode(v: FullScale)
    ensures
        FullScale::spec_decode(v.spec_encode()) == Ok::<FullScale, DecodeError>(v),
{
}

/// FIFO mode selection
///
/// The FIFO behaviour field of `FIFO_CTRL_REG`, a closed set of 2-bit
/// patterns; configuration-only, with no numeric conversion semantics.
#[derive(Copy, Clone, Debug, PartialEq, Eq, Structural)]
pub enum FifoMode {
    /// Bypass mode
    Bypass,
    /// FIFO mode
    Fifo,
    /// Stream mode
    Stream,
    /// Stream-to-FIFO mode
    StreamToFifo,
}

impl FifoMode {
    /// The canonical 2-bit on-wire pattern of this mode, not yet shifted into
    /// its register position.
    pub open spec fn spec_encode(self) -> u8 {
        match self {
            FifoMode::Bypass => 0b00,
            FifoMode::Fifo => 0b01,
            FifoMode::Stream => 0b10,
            FifoMode::StreamToFifo => 0b11,
        }
    }

    /// The mode a field value stands for: the inverse of
    /// [`FifoMode::spec_encode`] over the defined patterns, an error on every
    /// other byte.
    pub open spec fn spec_decode(bits: u8) -> Result<FifoMode, DecodeError> {
        if bits == 0b00 {
            Ok(FifoMode::Bypass)
        } else if bits == 0b01 {
            Ok(FifoMode::Fifo)
        } else if bits == 0b10 {
            Ok(FifoMode::Stream)
        } else if bits == 0b11 {
            Ok(FifoMode::StreamToFifo)
        } else {
            Err(DecodeError::UnrecognizedBitPattern)
        }
    }

    /// Encode this mode as its canonical on-wire pattern; total, never fails.
    pub fn encode(self) -> (bits: u8)
        ensures
            bits == self.spec_encode(),
    {
        match self {
            FifoMode::Bypass => 0b00,
            FifoMode::Fifo => 0b01,
            FifoMode::Stream => 0b10,
            FifoMode::StreamToFifo => 0b11,
        }
    }

    /// Decode a field value (the register byte masked with [`FM_MASK`] and
    /// shifted down into the low bits) back to the mode it stands for.
    pub fn decode(bits: u8) -> (r: Result<FifoMode, DecodeError>)
        ensures
            r == FifoMode::spec_decode(bits),
    {
        match bits {
            0b00 => Ok(FifoMode::Bypass),
            0b01 => Ok(FifoMode::Fifo),
            0b10 => Ok(FifoMode::Stream),
            0b11 => Ok(FifoMode::StreamToFifo),
            _ => Err(DecodeError::UnrecognizedBitPattern),
        }
    }
}

/// Round trip for the FIFO-mode field: every field value that decodes
/// re-encodes to the same byte, and every value that fails to decode matches
/// no defined pattern and fails with `UnrecognizedBitPattern`.
pub proof fn lemma_fifo_mode_round_trip(bits: u8)
    ensures
        FifoMode::spec_decode(bits) matches Ok(v) ==> v.spec_encode() == bits,
        FifoMode::spec_decode(bits) matches Err(e) ==> e == DecodeError::UnrecognizedBitPattern
            && forall|v: FifoMode| v.spec_encode() != bits,
{
}

/// Round trip in the other direction: every mode's encoding decodes back to
/// that mode.
pub proof fn lemma_fifo_mode_decode_encode(v: FifoMode)
    ensures
        FifoMode::spec_decode(v.spec_encode()) == Ok::<FifoMode, DecodeError>(v),
{
}

/// Arithmetic (sign-preserving) right shift of a left-justified sample,
/// computed as floor division by the weight of one sample digit. The ghost
/// division `/` rounds toward negative infinity for a positive divisor, which
/// is exactly the arithmetic-shift semantics.
fn shift_sample(raw: i16, lsb: u16) -> (q: i16)
    requires
        lsb == 16 || lsb == 64 || lsb == 256,
    ensures
        q == (raw as int) / (lsb as int),
        -2048 <= q <= 2047,
{
    if raw >= 0 {
        let n: u16 = (raw as u16) / lsb;
        proof {
            lemma_fundamental_div_mod(raw as int, lsb as int);
            lemma_mod_bound(raw as int, lsb as int);
            assert((lsb as int) * (n as int) <= raw as int);
            assert(n < 2048) by (nonlinear_arith)
                requires
                    (lsb as int) * (n as int) <= raw as int,
                    raw as int <= 32767,
                    lsb as int >= 16,
                    n as int >= 0,
            {
            }
        }
        n as i16
    } else {
        let m: u32 = (-(raw as i32)) as u32;
        let l: u32 = lsb as u32;
        let c: u32 = (m + l - 1) / l;
        proof {
            let mi: int = m as int;
            let li: int = l as int;
            let ci: int = c as int;
            lemma_fundamental_div_mod(mi + li - 1, li);
            lemma_mod_bound(mi + li - 1, li);
            let s: int = (mi + li - 1) % li;
            assert(mi + li - 1 == li * ci + s);
            assert(raw as int == (-ci) * li + (li - 1 - s)) by (nonlinear_arith)
                requires
                    mi + li - 1 == li * ci + s,
                    raw as int == -mi,
            {
            }
            lemma_fundamental_div_mod_converse(raw as int, li, -ci, li - 1 - s);
            assert(ci <= 2048) by (nonlinear_arith)
                requires
                    li * ci <= mi + li - 1,
                    mi <= 32768,
                    16 <= li <= 256,
            {
            }
        }
        let q32: i32 = -(c as i32);
        q32 as i16
    }
}

impl FullScale {
    /// The physical value a raw sample stands for at this range, in
    /// thousandths of a unit: the sample floor-shifted right by four bits
    /// (the high-resolution justification) times the range's sensitivity.
    pub open spec fn spec_to_physical(self, raw: i16) -> int {
        ((raw as int) / 16) * (self.spec_sensitivity() as int)
    }

    /// The physical value a raw sample stands for at this range when the
    /// device runs in `mode`: the shift width follows the mode's padding (4,
    /// 6 or 8 bits) instead of being fixed at 4.
    pub open spec fn spec_to_physical_in_mode(self, raw: i16, mode: Mode) -> int {
        ((raw as int) / (mode.spec_sample_lsb() as int)) * (self.spec_sensitivity() as int)
    }

    /// Convert a raw left-justified two's-complement sample to a physical
    /// value in thousandths of a unit, assuming high-resolution (12-bit)
    /// justification: an arithmetic right shift by four bits, then the
    /// sensitivity multiply. Total over all raw values; never fails.
    pub fn to_physical(self, raw: i16) -> (v: i32)
        ensures
            v == self.spec_to_physical(raw),
    {
        let q: i16 = shift_sample(raw, 16);
        let s: u8 = self.sensitivity();
        proof {
            assert(-24576 <= (q as int) * (s as int) <= 24564) by (nonlinear_arith)
                requires
                    -2048 <= q as int <= 2047,
                    1 <= s as int <= 12,
            {
            }
        }
        (q as i32) * (s as i32)
    }

    /// Convert a raw left-justified two's-complement sample to a physical
    /// value in thousandths of a unit, shifting by the padding width of the
    /// active resolution mode. Total over all raw values; never fails.
    pub fn to_physical_in_mode(self, raw: i16, mode: Mode) -> (v: i32)
        ensures
            v == self.spec_to_physical_in_mode(raw, mode),
    {
        let lsb: u16 = mode.sample_lsb();
        let q: i16 = shift_sample(raw, lsb);
        let s: u8 = self.sensitivity();
        proof {
            assert(-24576 <= (q as int) * (s as int) <= 24564) by (nonlinear_arith)
                requires
                    -2048 <= q as int <= 2047,
                    1 <= s as int <= 12,
            {
            }
        }
        (q as i32) * (s as i32)
    }
}

/// A zero raw sample converts to zero at every full-scale range and in every
/// resolution mode.
pub proof fn lemma_to_physical_zero(fs: FullScale, mode: Mode)
    ensures
        fs.spec_to_physical(0) == 0,
        fs.spec_to_physical_in_mode(0, mode) == 0,
{
}

/// Sensitivity scaling is linear in the range: the ±4 g conversion of any raw
/// sample is exactly twice its ±2 g conversion.
pub proof fn lemma_g4_doubles_g2(raw: i16)
    ensures
        FullScale::G4.spec_to_physical(raw) == 2 * FullScale::G2.spec_to_physical(raw),
{
    let d: int = (raw as int) / 16;
    assert(FullScale::G4.spec_to_physical(raw) == d * 2);
    assert(FullScale::G2.spec_to_physical(raw) == d * 1);
    assert(d * 2 == 2 * (d * 1)) by (nonlinear_arith);
}

/// The fixed four-bit-shift conversion is the high-resolution instance of the
/// mode-parameterized conversion.
pub proof fn lemma_to_physical_is_high_resolution(fs: FullScale, raw: i16)
    ensures
        fs.spec_to_physical(raw) == fs.spec_to_physical_in_mode(raw, Mode::HighResolution),
{
}

} // verus!
