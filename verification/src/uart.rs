//! The decisions of the polling serial driver.
//!
//! The driver never touches a port itself. It says which port operations
//! to perform, and decides what to do with the values that were read.

use vstd::prelude::*;
use crate::cell::VolatileCell;
use crate::traits::LockableDevice;

verus! {

/// Port base addresses, counted from COM1.
pub const BASE_COM1: usize = 0x3f8;

pub const BASE_COM2: usize = 0x2f8;

pub const BASE_COM3: usize = 0x3e8;

pub const BASE_COM4: usize = 0x2e8;

/// Register offsets relative to the base of a port.
pub const RX_BUF: usize = 0;

pub const TX_BUF: usize = 0;

pub const DIVISOR_LOW: usize = 0;

pub const IE_REG: usize = 1;

pub const DIVISOR_HIGH: usize = 1;

pub const INTERRUPT_ID: usize = 2;

pub const FIFO_CR: usize = 2;

pub const LINE_CR: usize = 3;

pub const MODEM_CR: usize = 4;

pub const LINE_SR: usize = 5;

pub const MODEM_SR: usize = 6;

pub const SCRATCH_REG: usize = 7;

/// The baud rate of divisor one.
pub const BAUD_RATE: usize = 115_200;

/// Bits of the line status register.
pub const DATA_READY: u8 = 0x01;

pub const OVERRUN_ERR: u8 = 0x02;

pub const PARITY_ERR: u8 = 0x04;

pub const FRAMING_ERR: u8 = 0x08;

pub const BREAK_IND: u8 = 0x10;

pub const THR_EMPTY: u8 = 0x20;

pub const TX_EMPTY: u8 = 0x40;

pub const IMPEND_ERR: u8 = 0x80;

/// Every error bit of the line status register.
pub const ANY_ERR: u8 = 0x8e;

/// Values of the line control register.
pub const LCR_DLAB: u8 = 0x80;

pub const LCR_8N1: u8 = 0x03;

pub const LCR_8N1_NO_DLAB: u8 = 0x03;

/// Values of the modem control register.
pub const MCR_RTS_DSR: u8 = 0x03;

pub const MCR_LOOPBACK: u8 = 0x1e;

/// Value of the FIFO control register: enable and clear the FIFOs,
/// interrupt at 14 bytes.
pub const FIFO_CR_VAL: u8 = 0xc7;

/// The byte that is sent through the loopback to probe a port.
pub const LOOPBACK_PROBE: u8 = 0xae;

/// A serial port: where its registers start, and which port it is.
#[derive(Clone, Copy, Debug, PartialEq, Eq, Structural)]
pub struct UartPort {
    pub addr: usize,
    pub id: usize,
}

impl UartPort {
    /// Creates a port.
    pub fn new(addr: usize, id: usize) -> (port: Self)
        ensures
            port.addr == addr,
            port.id == id,
    {
        UartPort { addr, id }
    }
}

/// The four default ports, counted from zero.
pub fn raw_uart_ports() -> (ports: [UartPort; 4])
    ensures
        ports[0] == (UartPort { addr: BASE_COM1, id: 0 }),
        ports[1] == (UartPort { addr: BASE_COM2, id: 1 }),
        ports[2] == (UartPort { addr: BASE_COM3, id: 2 }),
        ports[3] == (UartPort { addr: BASE_COM4, id: 3 }),
{
    [
        UartPort::new(BASE_COM1, 0),
        UartPort::new(BASE_COM2, 1),
        UartPort::new(BASE_COM3, 2),
        UartPort::new(BASE_COM4, 3),
    ]
}

/// Why a port could not be initialised or locked.
#[derive(Clone, Copy, Debug, PartialEq, Eq, Structural)]
pub enum InitError {
    ZeroBaudRate,
    InvalidDivisor,
    LoopbackError,
    Uninitialized,
}

/// Whether a port has been initialised.
#[derive(Clone, Copy, Debug, PartialEq, Eq, Structural)]
pub enum PortInit {
    Uninit(UartPort),
    Init(UartPort),
}

/// One operation on an I/O port.
#[derive(Clone, Copy, Debug, PartialEq, Eq, Structural)]
pub enum PortOp {
    /// Read a byte from the port.
    In { port: u16 },
    /// Write a byte to the port.
    Out { port: u16, value: u8 },
}

/// The port number of a register: the low sixteen bits of its address.
pub open spec fn register_spec(port: UartPort, offset: usize) -> u16 {
    ((port.addr + offset) % 0x10000) as u16
}

/// Returns the port number of a register of a port.
pub fn register(port: UartPort, offset: usize) -> (number: u16)
    requires
        port.addr + offset <= usize::MAX,
    ensures
        number == register_spec(port, offset),
{
    ((port.addr + offset) % 0x10000) as u16
}

/// Whether the data-ready bit of a line status is set.
pub open spec fn dr_set(lsr: u8) -> bool {
    lsr & DATA_READY != 0
}

/// Whether the bit of an empty transmitter holding register is set.
pub open spec fn thre_set(lsr: u8) -> bool {
    lsr & THR_EMPTY != 0
}

/// Whether any error bit of a line status is set.
pub open spec fn err_set(lsr: u8) -> bool {
    lsr & ANY_ERR != 0
}

/// The error bits are overrun, parity, framing and impending error.
proof fn lemma_error_bits(lsr: u8)
    ensures
        err_set(lsr) == (lsr & (OVERRUN_ERR | PARITY_ERR | FRAMING_ERR | IMPEND_ERR) != 0),
        err_set(lsr) == (lsr & OVERRUN_ERR != 0 || lsr & PARITY_ERR != 0 || lsr & FRAMING_ERR != 0
            || lsr & IMPEND_ERR != 0),
{
    assert((lsr & 0x8e != 0) == (lsr & (0x02u8 | 0x04u8 | 0x08u8 | 0x80u8) != 0)) by (bit_vector);
    assert((lsr & 0x8e != 0) == (lsr & 0x02 != 0 || lsr & 0x04 != 0 || lsr & 0x08 != 0 || lsr
        & 0x80 != 0)) by (bit_vector);
}

/// Tests the data-ready bit of a line status.
pub fn is_dr_set(lsr: u8) -> (b: bool)
    ensures
        b == dr_set(lsr),
{
    (lsr & DATA_READY) != 0
}

/// Tests the bit of an empty transmitter holding register.
pub fn is_thre_set(lsr: u8) -> (b: bool)
    ensures
        b == thre_set(lsr),
{
    (lsr & THR_EMPTY) != 0
}

/// Tests the error bits of a line status.
pub fn is_err_set(lsr: u8) -> (b: bool)
    ensures
        b == err_set(lsr),
        b == (lsr & OVERRUN_ERR != 0 || lsr & PARITY_ERR != 0 || lsr & FRAMING_ERR != 0 || lsr
            & IMPEND_ERR != 0),
{
    proof {
        lemma_error_bits(lsr);
    }
    (lsr & (OVERRUN_ERR | PARITY_ERR | FRAMING_ERR | IMPEND_ERR)) != 0
}

/// The divisor for a baud rate: one without a rate, else the quotient of
/// the base rate, which the rate must divide, cut to sixteen bits.
pub open spec fn divisor_spec(rate: Option<usize>) -> Result<u16, InitError> {
    match rate {
        None => Ok(1),
        Some(r) => if r == 0 {
            Err(InitError::ZeroBaudRate)
        } else if BAUD_RATE as int % r as int != 0 {
            Err(InitError::InvalidDivisor)
        } else {
            Ok(((BAUD_RATE as int / r as int) % 0x10000) as u16)
        },
    }
}

/// Computes the divisor for a baud rate.
pub fn rate_divisor(rate: Option<usize>) -> (res: Result<u16, InitError>)
    ensures
        res == divisor_spec(rate),
{
    match rate {
        None => Ok(1),
        Some(r) => {
            if r == 0 {
                Err(InitError::ZeroBaudRate)
            } else if BAUD_RATE % r != 0 {
                Err(InitError::InvalidDivisor)
            } else {
                Ok(((BAUD_RATE / r) % 0x10000) as u16)
            }
        },
    }
}

/// The low byte of a divisor.
pub open spec fn low_byte(divisor: u16) -> u8 {
    (divisor % 0x100) as u8
}

/// The high byte of a divisor.
pub open spec fn high_byte(divisor: u16) -> u8 {
    (divisor / 0x100) as u8
}

/// The port operations that initialise a port, in order: silence the
/// interrupts, set the divisor behind the divisor latch, select eight data
/// bits without parity and one stop bit, set up the FIFOs, send the probe
/// byte through the loopback, and read what came back.
pub open spec fn init_program_spec(port: UartPort, divisor: u16) -> Seq<PortOp> {
    seq![
        PortOp::In { port: register_spec(port, IE_REG) },
        PortOp::Out { port: register_spec(port, IE_REG), value: 0 },
        PortOp::Out { port: register_spec(port, LINE_CR), value: LCR_DLAB },
        PortOp::Out { port: register_spec(port, DIVISOR_LOW), value: low_byte(divisor) },
        PortOp::Out { port: register_spec(port, DIVISOR_HIGH), value: high_byte(divisor) },
        PortOp::Out { port: register_spec(port, LINE_CR), value: LCR_8N1_NO_DLAB },
        PortOp::Out { port: register_spec(port, FIFO_CR), value: FIFO_CR_VAL },
        PortOp::Out { port: register_spec(port, MODEM_CR), value: MCR_RTS_DSR },
        PortOp::Out { port: register_spec(port, MODEM_CR), value: MCR_LOOPBACK },
        PortOp::Out { port: register_spec(port, TX_BUF), value: LOOPBACK_PROBE },
        PortOp::Out { port: register_spec(port, MODEM_CR), value: MCR_RTS_DSR },
        PortOp::In { port: register_spec(port, RX_BUF) },
    ]
}

/// Whether the registers of a port can be addressed.
pub open spec fn addressable(port: UartPort) -> bool {
    port.addr + SCRATCH_REG <= usize::MAX
}

/// Says whether the registers of a port can be addressed.
pub fn is_addressable(port: UartPort) -> (b: bool)
    ensures
        b == addressable(port),
{
    port.addr <= usize::MAX - SCRATCH_REG
}

/// Builds the port operations that initialise a port.
pub fn init_program(port: UartPort, divisor: u16) -> (program: Vec<PortOp>)
    requires
        addressable(port),
    ensures
        program@ == init_program_spec(port, divisor),
{
    let mut program: Vec<PortOp> = Vec::new();
    program.push(PortOp::In { port: register(port, IE_REG) });
    program.push(PortOp::Out { port: register(port, IE_REG), value: 0 });
    program.push(PortOp::Out { port: register(port, LINE_CR), value: LCR_DLAB });
    program.push(
        PortOp::Out { port: register(port, DIVISOR_LOW), value: (divisor % 0x100) as u8 },
    );
    program.push(
        PortOp::Out { port: register(port, DIVISOR_HIGH), value: (divisor / 0x100) as u8 },
    );
    program.push(PortOp::Out { port: register(port, LINE_CR), value: LCR_8N1_NO_DLAB });
    program.push(PortOp::Out { port: register(port, FIFO_CR), value: FIFO_CR_VAL });
    program.push(PortOp::Out { port: register(port, MODEM_CR), value: MCR_RTS_DSR });
    program.push(PortOp::Out { port: register(port, MODEM_CR), value: MCR_LOOPBACK });
    program.push(PortOp::Out { port: register(port, TX_BUF), value: LOOPBACK_PROBE });
    program.push(PortOp::Out { port: register(port, MODEM_CR), value: MCR_RTS_DSR });
    program.push(PortOp::In { port: register(port, RX_BUF) });
    assert(program@ =~= init_program_spec(port, divisor));
    program
}

/// Where a transfer stands between two port operations.
#[derive(Clone, Copy, Debug, PartialEq, Eq, Structural)]
pub enum Phase {
    /// The next status decides whether another byte is moved at all.
    Gate,
    /// The next status is checked for errors before any waiting.
    CheckBefore,
    /// The next status is awaited to show the device ready.
    Wait,
    /// The next status is checked for errors right before the byte moves.
    CheckAfter,
    /// The next value is the byte that was read.
    Data,
    /// The transfer is over.
    Finished,
}

/// What one line status means to a transfer.
#[derive(Clone, Copy, Debug, PartialEq, Eq, Structural)]
pub enum Verdict {
    /// Read the status again, in the given phase.
    Poll(Phase),
    /// Move the next byte.
    Move,
    /// Stop: the transfer is complete.
    Done,
    /// Stop: the device reports an error.
    Failed,
}

/// The decision of a transfer on one line status. `ready` and `err` are
/// what the status shows, `hold` insists on moving every byte, `wait`
/// waits for the device before each byte, `more` says that bytes are left.
pub open spec fn verdict_spec(
    phase: Phase,
    ready: bool,
    err: bool,
    hold: bool,
    wait: bool,
    more: bool,
) -> Verdict {
    match phase {
        Phase::Gate => if (ready || hold) && more {
            Verdict::Poll(Phase::CheckBefore)
        } else {
            Verdict::Done
        },
        Phase::CheckBefore => if err {
            Verdict::Failed
        } else if hold || wait {
            Verdict::Poll(Phase::Wait)
        } else {
            Verdict::Poll(Phase::CheckAfter)
        },
        Phase::Wait => if ready {
            Verdict::Poll(Phase::CheckAfter)
        } else {
            Verdict::Poll(Phase::Wait)
        },
        Phase::CheckAfter => if err {
            Verdict::Failed
        } else {
            Verdict::Move
        },
        Phase::Data => Verdict::Move,
        Phase::Finished => Verdict::Done,
    }
}

/// Decides what one line status means to a transfer.
pub fn verdict(phase: Phase, ready: bool, err: bool, hold: bool, wait: bool, more: bool) -> (v:
    Verdict)
    ensures
        v == verdict_spec(phase, ready, err, hold, wait, more),
{
    match phase {
        Phase::Gate => {
            if (ready || hold) && more {
                Verdict::Poll(Phase::CheckBefore)
            } else {
                Verdict::Done
            }
        },
        Phase::CheckBefore => {
            if err {
                Verdict::Failed
            } else if hold || wait {
                Verdict::Poll(Phase::Wait)
            } else {
                Verdict::Poll(Phase::CheckAfter)
            }
        },
        Phase::Wait => {
            if ready {
                Verdict::Poll(Phase::CheckAfter)
            } else {
                Verdict::Poll(Phase::Wait)
            }
        },
        Phase::CheckAfter => {
            if err {
                Verdict::Failed
            } else {
                Verdict::Move
            }
        },
        Phase::Data => Verdict::Move,
        Phase::Finished => Verdict::Done,
    }
}

/// What the driver asks for next while it reads.
#[derive(Clone, Copy, Debug, PartialEq, Eq, Structural)]
pub enum ReadAction {
    /// Read the line status from this port and report it.
    Status { port: u16 },
    /// Read the received byte from this port and report it.
    Data { port: u16 },
    /// The read is complete with this many bytes.
    Done(usize),
    /// The device reported an error.
    Failed,
}

/// A read of up to `size` bytes from a port, between two port operations.
#[derive(Clone, Copy, Debug, PartialEq, Eq, Structural)]
pub struct ReadTransfer {
    pub port: UartPort,
    pub size: usize,
    pub wait: bool,
    pub fill: bool,
    pub count: usize,
    pub phase: Phase,
}

/// The transfer after a line status, while it reads.
pub open spec fn read_after_status(t: ReadTransfer, lsr: u8) -> ReadTransfer {
    match verdict_spec(t.phase, dr_set(lsr), err_set(lsr), t.fill, t.wait, t.count < t.size) {
        Verdict::Poll(phase) => ReadTransfer { phase, ..t },
        Verdict::Move => ReadTransfer { phase: Phase::Data, ..t },
        Verdict::Done => ReadTransfer { phase: Phase::Finished, ..t },
        Verdict::Failed => ReadTransfer { phase: Phase::Finished, ..t },
    }
}

/// What a reading transfer asks for after a line status.
pub open spec fn read_action_spec(t: ReadTransfer, lsr: u8) -> ReadAction {
    match verdict_spec(t.phase, dr_set(lsr), err_set(lsr), t.fill, t.wait, t.count < t.size) {
        Verdict::Poll(phase) => ReadAction::Status { port: register_spec(t.port, LINE_SR) },
        Verdict::Move => ReadAction::Data { port: register_spec(t.port, RX_BUF) },
        Verdict::Done => ReadAction::Done(t.count),
        Verdict::Failed => ReadAction::Failed,
    }
}

impl ReadTransfer {
    /// The transfer has not read more than it may, and only waits for a
    /// byte while one is still wanted.
    pub open spec fn wf(&self) -> bool {
        &&& addressable(self.port)
        &&& self.count <= self.size
        &&& self.phase != Phase::Gate && self.phase != Phase::Finished ==> self.count < self.size
    }

    /// Starts a read of up to `size` bytes. With `wait` the driver waits
    /// for each byte once the device has shown one; with `fill` it does
    /// not stop before `size` bytes were read. The first thing to do is to
    /// read the line status.
    pub fn new(port: UartPort, size: usize, wait: bool, fill: bool) -> (t: Self)
        requires
            addressable(port),
        ensures
            t == (ReadTransfer { port, size, wait, fill, count: 0, phase: Phase::Gate }),
            t.wf(),
    {
        ReadTransfer { port, size, wait, fill, count: 0, phase: Phase::Gate }
    }

    /// Returns the port of the line status register.
    pub fn status_port(&self) -> (number: u16)
        requires
            self.wf(),
        ensures
            number == register_spec(self.port, LINE_SR),
    {
        register(self.port, LINE_SR)
    }

    /// Takes a line status that was read and says what to do next.
    pub fn on_status(&mut self, lsr: u8) -> (action: ReadAction)
        requires
            old(self).wf(),
            old(self).phase != Phase::Data,
            old(self).phase != Phase::Finished,
        ensures
            final(self).wf(),
            *final(self) == read_after_status(*old(self), lsr),
            action == read_action_spec(*old(self), lsr),
    {
        let more: bool = self.count < self.size;
        match verdict(self.phase, is_dr_set(lsr), is_err_set(lsr), self.fill, self.wait, more) {
            Verdict::Poll(phase) => {
                self.phase = phase;
                ReadAction::Status { port: register(self.port, LINE_SR) }
            },
            Verdict::Move => {
                self.phase = Phase::Data;
                ReadAction::Data { port: register(self.port, RX_BUF) }
            },
            Verdict::Done => {
                self.phase = Phase::Finished;
                ReadAction::Done(self.count)
            },
            Verdict::Failed => {
                self.phase = Phase::Finished;
                ReadAction::Failed
            },
        }
    }

    /// Takes the byte that was read, stores it as the next byte of `buf`,
    /// and asks for the line status again.
    pub fn on_data(&mut self, byte: u8, buf: &mut Vec<u8>) -> (action: ReadAction)
        requires
            old(self).wf(),
            old(self).phase == Phase::Data,
            old(buf).len() == old(self).size,
        ensures
            final(self).wf(),
            *final(self) == (ReadTransfer {
                count: (old(self).count + 1) as usize,
                phase: Phase::Gate,
                ..*old(self)
            }),
            final(buf)@ == old(buf)@.update(old(self).count as int, byte),
            action == (ReadAction::Status { port: register_spec(old(self).port, LINE_SR) }),
    {
        buf.set(self.count, byte);
        self.count = self.count + 1;
        self.phase = Phase::Gate;
        ReadAction::Status { port: register(self.port, LINE_SR) }
    }
}

/// What the driver asks for next while it writes.
#[derive(Clone, Copy, Debug, PartialEq, Eq, Structural)]
pub enum WriteAction {
    /// Read the line status from this port and report it.
    Status { port: u16 },
    /// Write this byte to this port, then read the line status from the
    /// status port and report it.
    Send { port: u16, value: u8, status_port: u16 },
    /// The write is complete with this many bytes.
    Done(usize),
    /// The device reported an error.
    Failed,
}

/// A write of up to `size` bytes to a port, between two port operations.
#[derive(Clone, Copy, Debug, PartialEq, Eq, Structural)]
pub struct WriteTransfer {
    pub port: UartPort,
    pub size: usize,
    pub wait: bool,
    pub consume: bool,
    pub count: usize,
    pub phase: Phase,
}

/// The transfer after a line status, while it writes.
pub open spec fn write_after_status(t: WriteTransfer, lsr: u8) -> WriteTransfer {
    match verdict_spec(t.phase, thre_set(lsr), err_set(lsr), t.consume, t.wait, t.count < t.size) {
        Verdict::Poll(phase) => WriteTransfer { phase, ..t },
        Verdict::Move => WriteTransfer {
            count: (t.count + 1) as usize,
            phase: Phase::Gate,
            ..t
        },
        Verdict::Done => WriteTransfer { phase: Phase::Finished, ..t },
        Verdict::Failed => WriteTransfer { phase: Phase::Finished, ..t },
    }
}

/// What a writing transfer asks for after a line status.
pub open spec fn write_action_spec(t: WriteTransfer, lsr: u8, buf: Seq<u8>) -> WriteAction {
    match verdict_spec(t.phase, thre_set(lsr), err_set(lsr), t.consume, t.wait, t.count < t.size) {
        Verdict::Poll(phase) => WriteAction::Status { port: register_spec(t.port, LINE_SR) },
        Verdict::Move => WriteAction::Send {
            port: register_spec(t.port, TX_BUF),
            value: buf[t.count as int],
            status_port: register_spec(t.port, LINE_SR),
        },
        Verdict::Done => WriteAction::Done(t.count),
        Verdict::Failed => WriteAction::Failed,
    }
}

impl WriteTransfer {
    /// The transfer has not written more than it may, never expects a
    /// byte, and only waits for the device while a byte is left.
    pub open spec fn wf(&self) -> bool {
        &&& addressable(self.port)
        &&& self.count <= self.size
        &&& self.phase != Phase::Data
        &&& self.phase != Phase::Gate && self.phase != Phase::Finished ==> self.count < self.size
    }

    /// Starts a write of up to `size` bytes. With `wait` the driver waits
    /// for the device before each byte once it has shown itself ready;
    /// with `consume` it does not stop before `size` bytes were written.
    /// The first thing to do is to read the line status.
    pub fn new(port: UartPort, size: usize, wait: bool, consume: bool) -> (t: Self)
        requires
            addressable(port),
        ensures
            t == (WriteTransfer { port, size, wait, consume, count: 0, phase: Phase::Gate }),
            t.wf(),
    {
        WriteTransfer { port, size, wait, consume, count: 0, phase: Phase::Gate }
    }

    /// Returns the port of the line status register.
    pub fn status_port(&self) -> (number: u16)
        requires
            self.wf(),
        ensures
            number == register_spec(self.port, LINE_SR),
    {
        register(self.port, LINE_SR)
    }

    /// Takes a line status that was read and says what to do next; when a
    /// byte is due it is the next byte of `buf`.
    pub fn on_status(&mut self, lsr: u8, buf: &[u8]) -> (action: WriteAction)
        requires
            old(self).wf(),
            old(self).phase != Phase::Finished,
            buf@.len() == old(self).size,
        ensures
            final(self).wf(),
            *final(self) == write_after_status(*old(self), lsr),
            action == write_action_spec(*old(self), lsr, buf@),
    {
        let more: bool = self.count < self.size;
        match verdict(self.phase, is_thre_set(lsr), is_err_set(lsr), self.consume, self.wait, more) {
            Verdict::Poll(phase) => {
                self.phase = phase;
                WriteAction::Status { port: register(self.port, LINE_SR) }
            },
            Verdict::Move => {
                let value: u8 = buf[self.count];
                self.count = self.count + 1;
                self.phase = Phase::Gate;
                WriteAction::Send {
                    port: register(self.port, TX_BUF),
                    value,
                    status_port: register(self.port, LINE_SR),
                }
            },
            Verdict::Done => {
                self.phase = Phase::Finished;
                WriteAction::Done(self.count)
            },
            Verdict::Failed => {
                self.phase = Phase::Finished;
                WriteAction::Failed
            },
        }
    }
}

/// A polling serial port behind a lock. It cannot be read or written
/// directly: it is locked for exclusive I/O.
pub struct PollingUart {
    port: VolatileCell<PortInit>,
    locked: bool,
}

/// Exclusive access to an initialised port.
#[derive(Clone, Copy, Debug, PartialEq, Eq, Structural)]
pub struct PollingUartGuard {
    pub port: UartPort,
}

impl PollingUart {
    /// Whether the port was initialised, and which port it is.
    pub closed spec fn state(&self) -> PortInit {
        self.port@
    }

    /// Whether somebody holds the lock.
    pub closed spec fn locked(&self) -> bool {
        self.locked
    }

    /// The port, initialised or not.
    pub open spec fn port_of(&self) -> UartPort {
        match self.state() {
            PortInit::Uninit(port) => port,
            PortInit::Init(port) => port,
        }
    }

    /// Creates an uninitialised, unlocked port.
    pub fn new(port: UartPort) -> (uart: Self)
        ensures
            uart.state() == PortInit::Uninit(port),
            !uart.locked(),
    {
        PollingUart { port: VolatileCell::new(PortInit::Uninit(port)), locked: false }
    }

    /// Says whether the port was initialised.
    pub fn is_initialized(&self) -> (b: bool)
        ensures
            b == (self.state() is Init),
    {
        match self.port.load() {
            PortInit::Init(_) => true,
            _ => false,
        }
    }

    /// Says whether somebody holds the lock.
    pub fn is_locked(&self) -> (b: bool)
        ensures
            b == self.locked(),
    {
        self.locked
    }

    /// Returns the port, initialised or not.
    pub fn port(&self) -> (port: UartPort)
        ensures
            port == self.port_of(),
    {
        match self.port.load() {
            PortInit::Uninit(port) => port,
            PortInit::Init(port) => port,
        }
    }

    /// One attempt to take the lock: succeeds when nobody holds it.
    pub fn try_obtain_lock(&mut self) -> (taken: bool)
        ensures
            taken == !old(self).locked(),
            final(self).locked(),
            final(self).state() == old(self).state(),
    {
        if self.locked {
            false
        } else {
            self.locked = true;
            true
        }
    }

    /// Takes the lock.
    pub fn obtain_lock(&mut self)
        requires
            !old(self).locked(),
        ensures
            final(self).locked(),
            final(self).state() == old(self).state(),
    {
        let taken = self.try_obtain_lock();
        assert(taken);
    }

    /// Gives the lock back.
    pub fn release_lock(&mut self)
        ensures
            !final(self).locked(),
            final(self).state() == old(self).state(),
    {
        self.locked = false;
    }

    /// Starts the initialisation of the port for a baud rate, which must
    /// divide the base rate. A port that is initialised already needs
    /// nothing. Otherwise the result is the program of port operations to
    /// perform; the port stays locked until the byte that the last
    /// operation read is handed to `complete_initialize`.
    pub fn initialize(&mut self, rate: Option<usize>) -> (res: Result<
        Option<Vec<PortOp>>,
        InitError,
    >)
        requires
            !old(self).locked(),
            addressable(old(self).port_of()),
        ensures
            final(self).state() == old(self).state(),
            match old(self).state() {
                PortInit::Init(_) => res matches Ok(None) && !final(self).locked(),
                PortInit::Uninit(port) => match divisor_spec(rate) {
                    Err(e) => res matches Err(f) && f == e && !final(self).locked(),
                    Ok(divisor) => res matches Ok(Some(program)) && program@ == init_program_spec(
                        port,
                        divisor,
                    ) && final(self).locked(),
                },
            },
    {
        self.obtain_lock();
        match self.port.load() {
            PortInit::Init(_) => {
                self.release_lock();
                Ok(None)
            },
            PortInit::Uninit(port) => match rate_divisor(rate) {
                Err(e) => {
                    self.release_lock();
                    Err(e)
                },
                Ok(divisor) => Ok(Some(init_program(port, divisor))),
            },
        }
    }

    /// Ends the initialisation with the byte that came back through the
    /// loopback: the port is initialised if it is the probe byte. Gives
    /// the lock back either way.
    pub fn complete_initialize(&mut self, echoed: u8) -> (res: Result<(), InitError>)
        requires
            old(self).locked(),
            old(self).state() is Uninit,
        ensures
            !final(self).locked(),
            echoed == LOOPBACK_PROBE ==> res is Ok && final(self).state() == PortInit::Init(
                old(self).port_of(),
            ),
            echoed != LOOPBACK_PROBE ==> res == Err::<(), InitError>(InitError::LoopbackError)
                && final(self).state() == old(self).state(),
    {
        let res = if echoed != LOOPBACK_PROBE {
            Err(InitError::LoopbackError)
        } else {
            match self.port.load() {
                PortInit::Uninit(port) => {
                    self.port.store(PortInit::Init(port));
                },
                PortInit::Init(_) => {},
            }
            Ok(())
        };
        self.release_lock();
        res
    }

    /// Ends exclusive access: takes the guard back and releases the lock.
    pub fn unlock(&mut self, guard: PollingUartGuard)
        ensures
            !final(self).locked(),
            final(self).state() == old(self).state(),
    {
        self.release_lock();
    }
}

impl LockableDevice for PollingUart {
    type GuardType = PollingUartGuard;

    type Error = InitError;

    open spec fn unlocked(&self) -> bool {
        !self.locked()
    }

    /// Locks the port and returns its guard, but only if the port has
    /// been initialised; otherwise the lock is given back at once.
    fn lock(&mut self) -> (res: Result<PollingUartGuard, InitError>)
        ensures
            final(self).state() == old(self).state(),
            match old(self).state() {
                PortInit::Init(port) => res == Ok::<PollingUartGuard, InitError>(
                    PollingUartGuard { port },
                ) && final(self).locked(),
                PortInit::Uninit(_) => res == Err::<PollingUartGuard, InitError>(
                    InitError::Uninitialized,
                ) && !final(self).locked(),
            },
    {
        self.obtain_lock();
        match self.port.load() {
            PortInit::Init(port) => Ok(PollingUartGuard { port }),
            PortInit::Uninit(_) => {
                self.release_lock();
                Err(InitError::Uninitialized)
            },
        }
    }
}

impl PollingUartGuard {
    /// Starts a read of up to `size` bytes that waits for each byte once
    /// the device has shown one, and stops when the device has no more.
    pub fn char_read(&self, size: usize) -> (t: ReadTransfer)
        requires
            addressable(self.port),
        ensures
            t == (ReadTransfer {
                port: self.port,
                size,
                wait: true,
                fill: false,
                count: 0,
                phase: Phase::Gate,
            }),
    {
        ReadTransfer::new(self.port, size, true, false)
    }

    /// Starts a write of up to `size` bytes that waits for the device
    /// before each byte, and stops when the device takes no more.
    pub fn char_write(&self, size: usize) -> (t: WriteTransfer)
        requires
            addressable(self.port),
        ensures
            t == (WriteTransfer {
                port: self.port,
                size,
                wait: true,
                consume: false,
                count: 0,
                phase: Phase::Gate,
            }),
    {
        WriteTransfer::new(self.port, size, true, false)
    }
}

} // verus!
