//! Driver logic for the ADXL375 three-axis accelerometer on an SPI bus:
//! register map, command framing, read-modify-write of control fields,
//! decoding of raw samples and the FIFO drain sequence.

pub mod batch;
pub mod drain;
pub mod framing;
pub mod registers;
pub mod sample;
pub mod spi;

pub use batch::Batch;
pub use drain::{Action, DrainPhase, Event, FifoDrain};
pub use framing::{read_command, write_command};
pub use registers::{
    sample_count, with_data_rate, with_fifo_mode, DataRate, FifoMode, Register, FIFO_SIZE_BYTES,
    SAMPLE_BYTES,
};
pub use sample::decode_sample;
pub use spi::{plan_data_rate, plan_fifo_mode, Error, SAMPLE_DELAY_US};
