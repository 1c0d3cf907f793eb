use vstd::prelude::*;
use crate::registers::{
    spec_with_data_rate, spec_with_fifo_mode, with_data_rate, with_fifo_mode, DataRate, FifoMode,
};

verus! {

/// Microseconds to wait after each sample read from the FIFO.
pub const SAMPLE_DELAY_US: u32 = 5;

/// Failure of a driver operation.
#[derive(Debug, Clone)]
pub enum Error<T> {
    /// A malformed buffer or an answer that does not fit the request.
    InvalidBuffer,
    /// The bus transaction failed; the transport's own error.
    SpiError(T),
}

impl<T> From<T> for Error<T> {
    fn from(err: T) -> (r: Self)
        ensures
            r == Error::<T>::SpiError(err),
    {
        Error::SpiError(err)
    }
}

impl<T> vstd::std_specs::convert::FromSpecImpl<T> for Error<T> {
    open spec fn obeys_from_spec() -> bool {
        true
    }

    open spec fn from_spec(v: T) -> Self {
        Error::SpiError(v)
    }
}

/// Decides the value to write back to the bandwidth-rate register, given the
/// outcome of reading it. A failed read ends the update with nothing written.
pub fn plan_data_rate<E>(read: Result<u8, E>, rate: DataRate) -> (r: Result<u8, Error<E>>)
    ensures
        read is Ok ==> r == Ok::<u8, Error<E>>(spec_with_data_rate(read->Ok_0, rate)),
        read is Err ==> r == Err::<u8, Error<E>>(Error::SpiError(read->Err_0)),
{
    match read {
        Ok(current) => Ok(with_data_rate(current, rate)),
        Err(e) => Err(Error::SpiError(e)),
    }
}

/// Decides the value to write back to the FIFO-control register, given the
/// outcome of reading it. A failed read ends the update with nothing written.
pub fn plan_fifo_mode<E>(read: Result<u8, E>, mode: FifoMode) -> (r: Result<u8, Error<E>>)
    ensures
        read is Ok ==> r == Ok::<u8, Error<E>>(spec_with_fifo_mode(read->Ok_0, mode)),
        read is Err ==> r == Err::<u8, Error<E>>(Error::SpiError(read->Err_0)),
{
    match read {
        Ok(current) => Ok(with_fifo_mode(current, mode)),
        Err(e) => Err(Error::SpiError(e)),
    }
}

} // verus!
