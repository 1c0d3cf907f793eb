use vstd::prelude::*;

verus! {

/// Capacity of the device FIFO in bytes: 32 samples of 6 bytes each.
pub const FIFO_SIZE_BYTES: usize = 192;

/// Number of bytes in one raw sample (X, Y, Z as little-endian 16-bit values).
pub const SAMPLE_BYTES: usize = 6;

/// Address of a control or data register of the device.
#[derive(Debug, Clone, Copy, PartialEq, Eq, Structural)]
pub enum Register {
    DevId,
    DataFormat,
    BwRate,
    FifoCtl,
    DataX0,
    DataX1,
    DataY0,
    DataY1,
    DataZ0,
    DataZ1,
    PowerCtl,
}

impl Register {
    /// The 7-bit register address on the bus.
    pub open spec fn spec_addr(self) -> u8 {
        match self {
            Register::DevId => 0x00,
            Register::DataFormat => 0x31,
            Register::BwRate => 0x2C,
            Register::FifoCtl => 0x38,
            Register::DataX0 => 0x32,
            Register::DataX1 => 0x33,
            Register::DataY0 => 0x34,
            Register::DataY1 => 0x35,
            Register::DataZ0 => 0x36,
            Register::DataZ1 => 0x37,
            Register::PowerCtl => 0x2D,
        }
    }

    /// Every address leaves both command bits (0x80 and 0x40) clear.
    pub broadcast proof fn lemma_addr_below_control_bits(self)
        ensures
            #[trigger] self.spec_addr() < 0x40,
    {
    }

    pub fn addr(self) -> (r: u8)
        ensures
            r == self.spec_addr(),
    {
        match self {
            Register::DevId => 0x00,
            Register::DataFormat => 0x31,
            Register::BwRate => 0x2C,
            Register::FifoCtl => 0x38,
            Register::DataX0 => 0x32,
            Register::DataX1 => 0x33,
            Register::DataY0 => 0x34,
            Register::DataY1 => 0x35,
            Register::DataZ0 => 0x36,
            Register::DataZ1 => 0x37,
            Register::PowerCtl => 0x2D,
        }
    }
}

/// Output data rate, stored in the low 4 bits of the bandwidth-rate register.
#[derive(Debug, Clone, Copy, PartialEq, Eq, Structural)]
pub enum DataRate {
    Hz0_10,
    Hz0_20,
    Hz0_39,
    Hz0_78,
    Hz1_56,
    Hz3_13,
    Hz6_25,
    Hz12_5,
    Hz25,
    Hz50,
    Hz100,
    Hz200,
    Hz400,
    Hz800,
    Hz1600,
    Hz3200,
}

impl DataRate {
    /// The 4-bit rate code.
    pub open spec fn spec_code(self) -> u8 {
        match self {
            DataRate::Hz0_10 => 0x00,
            DataRate::Hz0_20 => 0x01,
            DataRate::Hz0_39 => 0x02,
            DataRate::Hz0_78 => 0x03,
            DataRate::Hz1_56 => 0x04,
            DataRate::Hz3_13 => 0x05,
            DataRate::Hz6_25 => 0x06,
            DataRate::Hz12_5 => 0x07,
            DataRate::Hz25 => 0x08,
            DataRate::Hz50 => 0x09,
            DataRate::Hz100 => 0x0A,
            DataRate::Hz200 => 0x0B,
            DataRate::Hz400 => 0x0C,
            DataRate::Hz800 => 0x0D,
            DataRate::Hz1600 => 0x0E,
            DataRate::Hz3200 => 0x0F,
        }
    }

    pub fn code(self) -> (r: u8)
        ensures
            r == self.spec_code(),
            r < 16,
    {
        match self {
            DataRate::Hz0_10 => 0x00,
            DataRate::Hz0_20 => 0x01,
            DataRate::Hz0_39 => 0x02,
            DataRate::Hz0_78 => 0x03,
            DataRate::Hz1_56 => 0x04,
            DataRate::Hz3_13 => 0x05,
            DataRate::Hz6_25 => 0x06,
            DataRate::Hz12_5 => 0x07,
            DataRate::Hz25 => 0x08,
            DataRate::Hz50 => 0x09,
            DataRate::Hz100 => 0x0A,
            DataRate::Hz200 => 0x0B,
            DataRate::Hz400 => 0x0C,
            DataRate::Hz800 => 0x0D,
            DataRate::Hz1600 => 0x0E,
            DataRate::Hz3200 => 0x0F,
        }
    }
}

/// FIFO operating mode, stored in the top 2 bits of the FIFO-control register.
#[derive(Debug, Clone, Copy, PartialEq, Eq, Structural)]
pub enum FifoMode {
    Bypass,
    FIFO,
    Stream,
    Trigger,
}

impl FifoMode {
    /// The 2-bit mode code.
    pub open spec fn spec_code(self) -> u8 {
        match self {
            FifoMode::Bypass => 0x00,
            FifoMode::FIFO => 0x01,
            FifoMode::Stream => 0x02,
            FifoMode::Trigger => 0x03,
        }
    }

    pub fn code(self) -> (r: u8)
        ensures
            r == self.spec_code(),
            r < 4,
    {
        match self {
            FifoMode::Bypass => 0x00,
            FifoMode::FIFO => 0x01,
            FifoMode::Stream => 0x02,
            FifoMode::Trigger => 0x03,
        }
    }
}

/// The bandwidth-rate register after storing `rate`: reserved high nibble
/// kept, rate code in the low nibble.
pub open spec fn spec_with_data_rate(current: u8, rate: DataRate) -> u8 {
    (current & 0xF0) | rate.spec_code()
}

/// The FIFO-control register after storing `mode`: low 6 bits kept, mode
/// code in bits 7..6.
pub open spec fn spec_with_fifo_mode(current: u8, mode: FifoMode) -> u8 {
    (current & 0x3F) | ((mode.spec_code() << 6u8) as u8)
}

/// The sample-count field of the FIFO-control register (its low 5 bits).
pub open spec fn spec_sample_count(fifo_ctl: u8) -> u8 {
    fifo_ctl & 0x1F
}

/// Storing a data rate keeps the upper 4 bits of the bandwidth-rate register
/// exactly as they were, whatever the register held and whatever the rate.
pub proof fn lemma_data_rate_keeps_upper_bits(current: u8, rate: DataRate)
    ensures
        spec_with_data_rate(current, rate) & 0xF0 == current & 0xF0,
        spec_with_data_rate(current, rate) & 0x0F == rate.spec_code(),
{
    let code = rate.spec_code();
    assert(((current & 0xF0) | code) & 0xF0 == current & 0xF0 && ((current & 0xF0) | code) & 0x0F
        == code) by (bit_vector)
        requires
            code < 16u8,
    ;
}

/// Storing a FIFO mode keeps the lower 6 bits of the FIFO-control register
/// exactly as they were, whatever the register held and whatever the mode.
pub proof fn lemma_fifo_mode_keeps_lower_bits(current: u8, mode: FifoMode)
    ensures
        spec_with_fifo_mode(current, mode) & 0x3F == current & 0x3F,
        spec_with_fifo_mode(current, mode) >> 6u8 == mode.spec_code(),
{
    let code = mode.spec_code();
    assert(((current & 0x3F) | ((code << 6u8) as u8)) & 0x3F == current & 0x3F && ((current & 0x3F)
        | ((code << 6u8) as u8)) >> 6u8 == code) by (bit_vector)
        requires
            code < 4u8,
    ;
}

/// Replaces the data-rate field of a bandwidth-rate register value.
pub fn with_data_rate(current: u8, rate: DataRate) -> (r: u8)
    ensures
        r == spec_with_data_rate(current, rate),
        r & 0xF0 == current & 0xF0,
        r & 0x0F == rate.spec_code(),
{
    proof {
        lemma_data_rate_keeps_upper_bits(current, rate);
    }
    (current & 0xF0) | rate.code()
}

/// Replaces the mode field of a FIFO-control register value.
pub fn with_fifo_mode(current: u8, mode: FifoMode) -> (r: u8)
    ensures
        r == spec_with_fifo_mode(current, mode),
        r & 0x3F == current & 0x3F,
        r >> 6u8 == mode.spec_code(),
{
    proof {
        lemma_fifo_mode_keeps_lower_bits(current, mode);
    }
    (current & 0x3F) | ((mode.code() << 6u8) as u8)
}

/// Number of complete samples that the FIFO-control register reports.
pub fn sample_count(fifo_ctl: u8) -> (r: u8)
    ensures
        r == spec_sample_count(fifo_ctl),
        r <= 31,
        r as usize * SAMPLE_BYTES <= FIFO_SIZE_BYTES,
{
    let r = fifo_ctl & 0x1F;
    assert(fifo_ctl & 0x1F <= 31) by (bit_vector);
    r
}

} // verus!
