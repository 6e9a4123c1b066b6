use bootcore::traits::LockableDevice;
use bootcore::uart::{
    is_addressable, init_program, is_dr_set, is_err_set, is_thre_set, rate_divisor, raw_uart_ports, register,
    verdict, InitError, Phase, PollingUart, PollingUartGuard, PortOp, ReadAction, ReadTransfer,
    UartPort, Verdict, WriteAction, WriteTransfer, ANY_ERR, BASE_COM1, BASE_COM2, BASE_COM3,
    BASE_COM4, BAUD_RATE, DATA_READY, FRAMING_ERR, IMPEND_ERR, LINE_SR, LOOPBACK_PROBE,
    OVERRUN_ERR, PARITY_ERR, RX_BUF, THR_EMPTY, TX_BUF,
};

fn com1() -> UartPort {
    UartPort::new(BASE_COM1, 0)
}

#[test]
fn default_ports() {
    let ports = raw_uart_ports();
    assert_eq!(ports[0], UartPort { addr: 0x3f8, id: 0 });
    assert_eq!(ports[1], UartPort { addr: 0x2f8, id: 1 });
    assert_eq!(ports[2], UartPort { addr: 0x3e8, id: 2 });
    assert_eq!(ports[3], UartPort { addr: 0x2e8, id: 3 });
    assert_eq!((BASE_COM1, BASE_COM2, BASE_COM3, BASE_COM4), (0x3f8, 0x2f8, 0x3e8, 0x2e8));
}

#[test]
fn register_numbers() {
    assert_eq!(register(com1(), LINE_SR), 0x3fd);
    assert_eq!(register(com1(), RX_BUF), 0x3f8);
    assert_eq!(register(UartPort::new(0x1_03f8, 0), LINE_SR), 0x3fd);
    assert_eq!(register(UartPort::new(0xffff, 0), 1), 0);
}

#[test]
fn status_bits() {
    assert!(is_dr_set(DATA_READY));
    assert!(is_dr_set(0xff));
    assert!(!is_dr_set(0xfe));
    assert!(is_thre_set(THR_EMPTY));
    assert!(!is_thre_set(0xdf));
    for bit in [OVERRUN_ERR, PARITY_ERR, FRAMING_ERR, IMPEND_ERR] {
        assert!(is_err_set(bit));
        assert!(is_err_set(bit | DATA_READY));
    }
    assert!(!is_err_set(0x71));
    assert!(!is_err_set(0));
    assert_eq!(ANY_ERR, OVERRUN_ERR | PARITY_ERR | FRAMING_ERR | IMPEND_ERR);
}

#[test]
fn divisor_of_a_rate() {
    assert_eq!(rate_divisor(None), Ok(1));
    assert_eq!(rate_divisor(Some(BAUD_RATE)), Ok(1));
    assert_eq!(rate_divisor(Some(38_400)), Ok(3));
    assert_eq!(rate_divisor(Some(9_600)), Ok(12));
    assert_eq!(rate_divisor(Some(2)), Ok(57_600));
    assert_eq!(rate_divisor(Some(1)), Ok((115_200 % 65_536) as u16));
}

#[test]
fn divisor_rejects_bad_rates() {
    assert_eq!(rate_divisor(Some(0)), Err(InitError::ZeroBaudRate));
    assert_eq!(rate_divisor(Some(7)), Err(InitError::InvalidDivisor));
    assert_eq!(rate_divisor(Some(115_201)), Err(InitError::InvalidDivisor));
    assert_eq!(rate_divisor(Some(usize::MAX)), Err(InitError::InvalidDivisor));
}

#[test]
fn initialisation_program() {
    assert_eq!(
        init_program(com1(), 0x0103),
        vec![
            PortOp::In { port: 0x3f9 },
            PortOp::Out { port: 0x3f9, value: 0x00 },
            PortOp::Out { port: 0x3fb, value: 0x80 },
            PortOp::Out { port: 0x3f8, value: 0x03 },
            PortOp::Out { port: 0x3f9, value: 0x01 },
            PortOp::Out { port: 0x3fb, value: 0x03 },
            PortOp::Out { port: 0x3fa, value: 0xc7 },
            PortOp::Out { port: 0x3fc, value: 0x03 },
            PortOp::Out { port: 0x3fc, value: 0x1e },
            PortOp::Out { port: 0x3f8, value: 0xae },
            PortOp::Out { port: 0x3fc, value: 0x03 },
            PortOp::In { port: 0x3f8 },
        ]
    );
}

#[test]
fn port_is_initialised_when_the_probe_comes_back() {
    let mut uart = PollingUart::new(com1());
    assert!(!uart.is_initialized());
    let program = uart.initialize(Some(BAUD_RATE / 3)).unwrap().unwrap();
    assert_eq!(program, init_program(com1(), 3));
    assert!(!uart.try_obtain_lock());
    assert_eq!(uart.complete_initialize(LOOPBACK_PROBE), Ok(()));
    assert!(uart.is_initialized());
    assert!(uart.try_obtain_lock());
    uart.release_lock();
    assert_eq!(uart.initialize(Some(0)), Ok(None));
    assert!(uart.is_initialized());
    assert!(uart.try_obtain_lock());
}

#[test]
fn port_stays_uninitialised_when_the_probe_is_lost() {
    let mut uart = PollingUart::new(com1());
    assert!(uart.initialize(None).unwrap().is_some());
    assert_eq!(uart.complete_initialize(0x00), Err(InitError::LoopbackError));
    assert!(!uart.is_initialized());
    assert!(uart.try_obtain_lock());
}

#[test]
fn initialize_rejects_bad_rates_and_releases_the_lock() {
    let mut uart = PollingUart::new(com1());
    assert_eq!(uart.initialize(Some(0)), Err(InitError::ZeroBaudRate));
    assert_eq!(uart.initialize(Some(11)), Err(InitError::InvalidDivisor));
    assert!(!uart.is_initialized());
    assert!(uart.try_obtain_lock());
}

#[test]
fn lock_needs_an_initialised_port() {
    let mut uart = PollingUart::new(com1());
    assert_eq!(uart.lock(), Err(InitError::Uninitialized));
    assert!(uart.try_obtain_lock());
    uart.release_lock();
    uart.initialize(None).unwrap();
    uart.complete_initialize(LOOPBACK_PROBE).unwrap();
    let guard = uart.lock().unwrap();
    assert_eq!(guard, PollingUartGuard { port: com1() });
    assert!(!uart.try_obtain_lock());
    uart.unlock(guard);
    assert!(uart.try_obtain_lock());
}

#[test]
fn obtain_and_release_lock() {
    let mut uart = PollingUart::new(com1());
    uart.obtain_lock();
    assert!(!uart.try_obtain_lock());
    uart.release_lock();
    assert!(uart.try_obtain_lock());
}

#[test]
fn verdicts() {
    assert_eq!(verdict(Phase::Gate, true, false, false, false, true), Verdict::Poll(Phase::CheckBefore));
    assert_eq!(verdict(Phase::Gate, false, false, true, false, true), Verdict::Poll(Phase::CheckBefore));
    assert_eq!(verdict(Phase::Gate, false, false, false, true, true), Verdict::Done);
    assert_eq!(verdict(Phase::Gate, true, false, true, true, false), Verdict::Done);
    assert_eq!(verdict(Phase::CheckBefore, true, true, true, true, true), Verdict::Failed);
    assert_eq!(verdict(Phase::CheckBefore, true, false, false, false, true), Verdict::Poll(Phase::CheckAfter));
    assert_eq!(verdict(Phase::CheckBefore, true, false, true, false, true), Verdict::Poll(Phase::Wait));
    assert_eq!(verdict(Phase::CheckBefore, true, false, false, true, true), Verdict::Poll(Phase::Wait));
    assert_eq!(verdict(Phase::Wait, false, true, true, true, true), Verdict::Poll(Phase::Wait));
    assert_eq!(verdict(Phase::Wait, true, true, true, true, true), Verdict::Poll(Phase::CheckAfter));
    assert_eq!(verdict(Phase::CheckAfter, true, true, false, false, true), Verdict::Failed);
    assert_eq!(verdict(Phase::CheckAfter, false, false, false, false, true), Verdict::Move);
    assert_eq!(verdict(Phase::Data, false, true, false, false, false), Verdict::Move);
    assert_eq!(verdict(Phase::Finished, true, false, true, true, true), Verdict::Done);
}

// A device that has `pending` bytes to give and then shows no data.
fn run_read(t: &mut ReadTransfer, buf: &mut Vec<u8>, pending: &[u8]) -> ReadAction {
    let mut given = 0;
    let mut action = ReadAction::Status { port: t.status_port() };
    loop {
        match action {
            ReadAction::Status { port } => {
                assert_eq!(port, 0x3fd);
                let lsr = if given < pending.len() { DATA_READY } else { 0 };
                action = t.on_status(lsr);
            }
            ReadAction::Data { port } => {
                assert_eq!(port, 0x3f8);
                action = t.on_data(pending[given], buf);
                given += 1;
            }
            done => return done,
        }
    }
}

#[test]
fn read_stops_when_the_device_has_no_more() {
    let guard = PollingUartGuard { port: com1() };
    let mut buf = vec![0u8; 8];
    let mut t = guard.char_read(8);
    assert_eq!(t, ReadTransfer::new(com1(), 8, true, false));
    assert_eq!(run_read(&mut t, &mut buf, b"abc"), ReadAction::Done(3));
    assert_eq!(buf, b"abc\0\0\0\0\0");
}

#[test]
fn read_stops_when_the_buffer_is_full() {
    let mut buf = vec![0u8; 2];
    let mut t = ReadTransfer::new(com1(), 2, false, false);
    assert_eq!(run_read(&mut t, &mut buf, b"abc"), ReadAction::Done(2));
    assert_eq!(buf, b"ab");
}

#[test]
fn read_into_an_empty_buffer_reads_nothing() {
    let mut buf = Vec::new();
    let mut t = ReadTransfer::new(com1(), 0, true, true);
    assert_eq!(run_read(&mut t, &mut buf, b"abc"), ReadAction::Done(0));
}

#[test]
fn read_step_by_step() {
    let mut buf = vec![0u8; 4];
    let mut t = ReadTransfer::new(com1(), 4, true, false);
    let status = ReadAction::Status { port: 0x3fd };
    assert_eq!(t.on_status(DATA_READY), status);
    assert_eq!(t.phase, Phase::CheckBefore);
    assert_eq!(t.on_status(0), status);
    assert_eq!(t.phase, Phase::Wait);
    assert_eq!(t.on_status(0), status);
    assert_eq!(t.on_status(0), status);
    assert_eq!(t.phase, Phase::Wait);
    assert_eq!(t.on_status(DATA_READY), status);
    assert_eq!(t.phase, Phase::CheckAfter);
    assert_eq!(t.on_status(0), ReadAction::Data { port: 0x3f8 });
    assert_eq!(t.phase, Phase::Data);
    assert_eq!(t.on_data(0x41, &mut buf), status);
    assert_eq!((t.phase, t.count), (Phase::Gate, 1));
    assert_eq!(buf, vec![0x41, 0, 0, 0]);
    assert_eq!(t.on_status(0), ReadAction::Done(1));
    assert_eq!(t.phase, Phase::Finished);
}

#[test]
fn read_without_waiting_skips_the_wait() {
    let mut t = ReadTransfer::new(com1(), 4, false, false);
    assert_eq!(t.on_status(DATA_READY), ReadAction::Status { port: 0x3fd });
    assert_eq!(t.on_status(0), ReadAction::Status { port: 0x3fd });
    assert_eq!(t.phase, Phase::CheckAfter);
}

#[test]
fn filling_read_does_not_stop_without_data() {
    let mut t = ReadTransfer::new(com1(), 1, false, true);
    assert_eq!(t.on_status(0), ReadAction::Status { port: 0x3fd });
    assert_eq!(t.phase, Phase::CheckBefore);
    assert_eq!(t.on_status(0), ReadAction::Status { port: 0x3fd });
    assert_eq!(t.phase, Phase::Wait);
}

#[test]
fn read_fails_on_an_error_before_or_after_the_wait() {
    for err in [OVERRUN_ERR, PARITY_ERR, FRAMING_ERR, IMPEND_ERR] {
        let mut t = ReadTransfer::new(com1(), 4, true, false);
        t.on_status(DATA_READY);
        assert_eq!(t.on_status(err | DATA_READY), ReadAction::Failed);
        assert_eq!(t.phase, Phase::Finished);
        let mut t = ReadTransfer::new(com1(), 4, true, false);
        t.on_status(DATA_READY);
        t.on_status(DATA_READY);
        t.on_status(DATA_READY);
        assert_eq!(t.phase, Phase::CheckAfter);
        assert_eq!(t.on_status(err), ReadAction::Failed);
    }
}

#[test]
fn write_sends_every_byte_the_device_takes() {
    let guard = PollingUartGuard { port: com1() };
    let buf = b"hey";
    let mut t = guard.char_write(buf.len());
    assert_eq!(t, WriteTransfer::new(com1(), 3, true, false));
    let mut sent = Vec::new();
    let mut action = WriteAction::Status { port: t.status_port() };
    loop {
        match action {
            WriteAction::Status { port } => {
                assert_eq!(port, 0x3fd);
                action = t.on_status(THR_EMPTY, buf);
            }
            WriteAction::Send { port, value, status_port } => {
                assert_eq!((port, status_port), (0x3f8, 0x3fd));
                sent.push(value);
                action = t.on_status(THR_EMPTY, buf);
            }
            done => {
                assert_eq!(done, WriteAction::Done(3));
                break;
            }
        }
    }
    assert_eq!(sent, buf);
    assert_eq!(register(com1(), TX_BUF), 0x3f8);
}

#[test]
fn write_stops_when_the_device_is_busy() {
    let mut t = WriteTransfer::new(com1(), 3, true, false);
    assert_eq!(t.on_status(0, b"hey"), WriteAction::Done(0));
    assert_eq!(t.phase, Phase::Finished);
}

#[test]
fn consuming_write_waits_for_the_device() {
    let mut t = WriteTransfer::new(com1(), 3, false, true);
    let status = WriteAction::Status { port: 0x3fd };
    assert_eq!(t.on_status(0, b"hey"), status);
    assert_eq!(t.on_status(0, b"hey"), status);
    assert_eq!(t.phase, Phase::Wait);
    assert_eq!(t.on_status(0, b"hey"), status);
    assert_eq!(t.on_status(THR_EMPTY, b"hey"), status);
    assert_eq!(
        t.on_status(THR_EMPTY, b"hey"),
        WriteAction::Send { port: 0x3f8, value: b'h', status_port: 0x3fd }
    );
    assert_eq!((t.phase, t.count), (Phase::Gate, 1));
}

#[test]
fn write_fails_on_an_error() {
    let mut t = WriteTransfer::new(com1(), 3, true, false);
    t.on_status(THR_EMPTY, b"hey");
    assert_eq!(t.on_status(PARITY_ERR | THR_EMPTY, b"hey"), WriteAction::Failed);
    let mut t = WriteTransfer::new(com1(), 3, false, false);
    t.on_status(THR_EMPTY, b"hey");
    t.on_status(THR_EMPTY, b"hey");
    assert_eq!(t.on_status(OVERRUN_ERR, b"hey"), WriteAction::Failed);
    assert_eq!(t.count, 0);
}

#[test]
fn port_reports_its_lock_and_its_port() {
    let mut uart = PollingUart::new(com1());
    assert_eq!(uart.port(), com1());
    assert!(!uart.is_locked());
    uart.obtain_lock();
    assert!(uart.is_locked());
    uart.release_lock();
    uart.initialize(None).unwrap();
    assert!(uart.is_locked());
    uart.complete_initialize(LOOPBACK_PROBE).unwrap();
    assert!(!uart.is_locked());
    assert_eq!(uart.port(), com1());
}

#[test]
fn ports_at_the_end_of_the_address_space_are_not_addressable() {
    assert!(is_addressable(com1()));
    assert!(is_addressable(UartPort::new(usize::MAX - 7, 0)));
    assert!(!is_addressable(UartPort::new(usize::MAX - 6, 0)));
    assert!(!is_addressable(UartPort::new(usize::MAX, 0)));
}
