use adxl375::{
    decode_sample, plan_data_rate, plan_fifo_mode, read_command, sample_count, with_data_rate,
    with_fifo_mode, write_command, Action, DataRate, Error, Event, FifoDrain, FifoMode, Register,
};

const ALL_REGISTERS: [(Register, u8); 11] = [
    (Register::DevId, 0x00),
    (Register::DataFormat, 0x31),
    (Register::BwRate, 0x2C),
    (Register::FifoCtl, 0x38),
    (Register::DataX0, 0x32),
    (Register::DataX1, 0x33),
    (Register::DataY0, 0x34),
    (Register::DataY1, 0x35),
    (Register::DataZ0, 0x36),
    (Register::DataZ1, 0x37),
    (Register::PowerCtl, 0x2D),
];

fn expect_read(a: Action<u32>, cmd: u8, len: usize) {
    match a {
        Action::Read { cmd: c, len: l } => {
            assert_eq!(c, cmd);
            assert_eq!(l, len);
        }
        _ => panic!("expected a read request"),
    }
}

fn expect_delay(a: Action<u32>) {
    assert!(matches!(a, Action::DelayUs(5)));
}

#[test]
fn read_command_single_and_multi() {
    for (reg, addr) in ALL_REGISTERS {
        assert_eq!(reg.addr(), addr);
        assert_eq!(read_command(reg, 1), addr | 0x80);
        assert_eq!(read_command(reg, 1) & 0x40, 0);
        assert_eq!(read_command(reg, 6), addr | 0xC0);
        assert_eq!(read_command(reg, 2) & 0xC0, 0xC0);
    }
    assert_eq!(read_command(Register::DataX0, 6), 0xF2);
    assert_eq!(read_command(Register::FifoCtl, 1), 0xB8);
}

#[test]
fn write_command_single_and_multi() {
    for (reg, addr) in ALL_REGISTERS {
        assert_eq!(write_command(reg, 1), addr & 0x7F);
        assert_eq!(write_command(reg, 3), (addr & 0x7F) | 0x40);
    }
    assert_eq!(write_command(Register::BwRate, 1), 0x2C);
    assert_eq!(write_command(Register::PowerCtl, 2), 0x6D);
}

#[test]
fn data_rate_keeps_upper_nibble() {
    assert_eq!(with_data_rate(0xAB, DataRate::Hz100), 0xAA);
    assert_eq!(with_data_rate(0x00, DataRate::Hz3200), 0x0F);
    assert_eq!(with_data_rate(0xFF, DataRate::Hz0_10), 0xF0);
    assert_eq!(with_data_rate(0x5C, DataRate::Hz25), 0x58);
    for current in 0..=255u8 {
        let r = with_data_rate(current, DataRate::Hz800);
        assert_eq!(r & 0xF0, current & 0xF0);
        assert_eq!(r & 0x0F, 0x0D);
    }
}

#[test]
fn fifo_mode_keeps_lower_bits() {
    assert_eq!(with_fifo_mode(0xFF, FifoMode::Bypass), 0x3F);
    assert_eq!(with_fifo_mode(0x00, FifoMode::Trigger), 0xC0);
    assert_eq!(with_fifo_mode(0x15, FifoMode::FIFO), 0x55);
    assert_eq!(with_fifo_mode(0xE1, FifoMode::Stream), 0xA1);
    for current in 0..=255u8 {
        let r = with_fifo_mode(current, FifoMode::Stream);
        assert_eq!(r & 0x3F, current & 0x3F);
        assert_eq!(r >> 6, 2);
    }
}

#[test]
fn sample_count_is_low_five_bits() {
    assert_eq!(sample_count(0x00), 0);
    assert_eq!(sample_count(0xFF), 31);
    assert_eq!(sample_count(0x83), 3);
}

#[test]
fn plan_updates_after_read() {
    assert!(matches!(plan_data_rate::<u32>(Ok(0x9A), DataRate::Hz50), Ok(0x99)));
    assert!(matches!(plan_fifo_mode::<u32>(Ok(0x1F), FifoMode::Stream), Ok(0x9F)));
}

#[test]
fn plan_failed_read_writes_nothing() {
    assert!(matches!(plan_data_rate(Err(7u32), DataRate::Hz50), Err(Error::SpiError(7))));
    assert!(matches!(plan_fifo_mode(Err(9u32), FifoMode::FIFO), Err(Error::SpiError(9))));
}

#[test]
fn error_from_transport_error() {
    let e: Error<u32> = Error::from(4u32);
    assert!(matches!(e, Error::SpiError(4)));
}

#[test]
fn drain_reads_each_sample_then_waits() {
    let (mut d, first) = FifoDrain::new::<u32>();
    expect_read(first, 0xB8, 1);
    let mut a = d.step(Event::<u32>::Received(vec![0xC2]));
    let mut expected = Vec::new();
    for k in 0..2u8 {
        expect_read(a, 0xF2, 6);
        let sample = vec![k, 1, 2, 3, 4, 5 + k];
        expected.extend_from_slice(&sample);
        a = d.step(Event::<u32>::Received(sample));
        expect_delay(a);
        a = d.step(Event::<u32>::Waited);
    }
    match a {
        Action::Complete(Ok(b)) => {
            assert_eq!(b.len(), 12);
            assert_eq!(b.as_slice(), expected.as_slice());
        }
        _ => panic!("expected the batch"),
    }
}

#[test]
fn drain_full_fifo() {
    let (mut d, _) = FifoDrain::new::<u32>();
    let mut a = d.step(Event::<u32>::Received(vec![0x1F]));
    let mut reads = 0;
    loop {
        match a {
            Action::Read { cmd, len } => {
                assert_eq!((cmd, len), (0xF2, 6));
                reads += 1;
                a = d.step(Event::<u32>::Received(vec![reads as u8; 6]));
            }
            Action::DelayUs(us) => {
                assert_eq!(us, 5);
                a = d.step(Event::<u32>::Waited);
            }
            Action::Complete(r) => {
                let b = r.unwrap();
                assert_eq!(b.len(), 6 * 31);
                assert_eq!(b[6 * 30], 31);
                break;
            }
        }
    }
    assert_eq!(reads, 31);
}

#[test]
fn drain_empty_fifo() {
    let (mut d, _) = FifoDrain::new::<u32>();
    match d.step(Event::<u32>::Received(vec![0xE0])) {
        Action::Complete(Ok(b)) => assert!(b.is_empty()),
        _ => panic!("expected an empty batch"),
    }
}

#[test]
fn drain_failure_discards_samples() {
    let (mut d, _) = FifoDrain::new::<u32>();
    d.step(Event::<u32>::Received(vec![0x03]));
    d.step(Event::<u32>::Received(vec![1, 2, 3, 4, 5, 6]));
    d.step(Event::<u32>::Waited);
    let a = d.step(Event::Failed(42));
    assert!(matches!(a, Action::Complete(Err(Error::SpiError(42)))));
}

#[test]
fn drain_failure_on_count_read() {
    let (mut d, _) = FifoDrain::new::<u32>();
    assert!(matches!(d.step(Event::Failed(1)), Action::Complete(Err(Error::SpiError(1)))));
}

#[test]
fn drain_rejects_short_sample() {
    let (mut d, _) = FifoDrain::new::<u32>();
    d.step(Event::<u32>::Received(vec![0x01]));
    let a = d.step(Event::<u32>::Received(vec![1, 2, 3]));
    assert!(matches!(a, Action::Complete(Err(Error::InvalidBuffer))));
}

#[test]
fn drain_rejects_event_after_finish() {
    let (mut d, _) = FifoDrain::new::<u32>();
    d.step(Event::<u32>::Received(vec![0x00]));
    assert!(matches!(d.step(Event::<u32>::Waited), Action::Complete(Err(Error::InvalidBuffer))));
}

#[test]
fn decode_extreme_counts() {
    let (x, y, z) = decode_sample(&[0x00, 0x00, 0xFF, 0x7F, 0x00, 0x80]);
    assert_eq!((x, y, z), (0, 32767, -32768));
    let scale = 0.0049f32;
    assert!((x as f32 * scale).abs() < 1e-6);
    assert!((y as f32 * scale - 160.5583).abs() < 1e-3);
    assert!((z as f32 * scale + 160.5632).abs() < 1e-3);
}

#[test]
fn decode_little_endian() {
    assert_eq!(decode_sample(&[0x34, 0x12, 0xFF, 0xFF, 0x01, 0x00]), (0x1234, -1, 1));
}
