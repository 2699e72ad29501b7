//! The UART 16550 serial-port protocol.
//!
//! The chip is driven through eight consecutive I/O ports starting at a base
//! port. The functions here decide which ports to write, which to read and
//! what the bytes read mean; the caller performs the port I/O.

use vstd::prelude::*;

verus! {

/// Offset of the data register (and, with DLAB set, the divisor low byte).
pub const DATA: u16 = 0;

/// Offset of the interrupt-enable register (with DLAB set, the divisor
/// high byte).
pub const INTERRUPT_ENABLE: u16 = 1;

/// Offset of the FIFO control register.
pub const FIFO_CONTROL: u16 = 2;

/// Offset of the line control register.
pub const LINE_CONTROL: u16 = 3;

/// Offset of the modem control register.
pub const MODEM_CONTROL: u16 = 4;

/// Offset of the line status register.
pub const LINE_STATUS: u16 = 5;

/// Line status bit: a received byte is waiting in the data register.
pub const LSR_DATA_READY: u8 = 0x01;

/// Line status bit: the transmit holding register is empty.
pub const LSR_TRANSMIT_EMPTY: u8 = 0x20;

/// The byte sent in loopback mode to test the chip.
pub const LOOPBACK_TEST_BYTE: u8 = 0xAE;

/// One byte to write to one I/O port.
#[derive(Clone, Copy, Debug, PartialEq, Eq, Structural)]
pub struct PortWrite {
    pub port: u16,
    pub value: u8,
}

/// The write of `value` to the port at `offset` above `base`.
pub open spec fn port_write(base: u16, offset: u16, value: u8) -> PortWrite {
    PortWrite { port: (base + offset) as u16, value }
}

/// The writes that set up the chip, in order: interrupts off, 38400 baud
/// (divisor 3), 8 data bits without parity and one stop bit, FIFOs enabled
/// and cleared with a 14-byte threshold, IRQs with RTS/DSR, then loopback
/// mode and the test byte.
pub open spec fn init_sequence(base: u16) -> Seq<PortWrite> {
    seq![
        port_write(base, INTERRUPT_ENABLE, 0x00),
        port_write(base, LINE_CONTROL, 0x80),
        port_write(base, DATA, 0x03),
        port_write(base, INTERRUPT_ENABLE, 0x00),
        port_write(base, LINE_CONTROL, 0x03),
        port_write(base, FIFO_CONTROL, 0xC7),
        port_write(base, MODEM_CONTROL, 0x0B),
        port_write(base, MODEM_CONTROL, 0x1E),
        port_write(base, DATA, LOOPBACK_TEST_BYTE),
    ]
}

/// A port-mapped UART 16550 serial interface.
#[derive(Clone, Copy, Debug)]
pub struct SerialPort {
    base: u16,
}

impl SerialPort {
    /// The first I/O port of the chip.
    pub closed spec fn base(&self) -> u16 {
        self.base
    }

    /// Whether all registers of the chip have port numbers.
    pub open spec fn ports_fit(&self) -> bool {
        self.base() + LINE_STATUS <= u16::MAX
    }

    /// A serial port whose registers start at I/O port `port`.
    pub fn new(port: u16) -> (s: Self)
        ensures
            s.base() == port,
    {
        SerialPort { base: port }
    }

    fn register(&self, offset: u16) -> (p: u16)
        requires
            self.ports_fit(),
            offset <= LINE_STATUS,
        ensures
            p == self.base() + offset,
    {
        self.base + offset
    }

    fn write_register(&self, offset: u16, value: u8) -> (w: PortWrite)
        requires
            self.ports_fit(),
            offset <= LINE_STATUS,
        ensures
            w == port_write(self.base(), offset, value),
    {
        PortWrite { port: self.register(offset), value }
    }

    /// The port of the data register.
    pub fn data_port(&self) -> (p: u16)
        requires
            self.ports_fit(),
        ensures
            p == self.base() + DATA,
    {
        self.register(DATA)
    }

    /// The port of the line status register.
    pub fn line_status_port(&self) -> (p: u16)
        requires
            self.ports_fit(),
        ensures
            p == self.base() + LINE_STATUS,
    {
        self.register(LINE_STATUS)
    }

    /// Initializes the serial port: the writes to perform, in order. After
    /// them the caller reads the data port and hands the byte to
    /// [`SerialPort::finish_init`].
    pub fn init(&self) -> (writes: Vec<PortWrite>)
        requires
            self.ports_fit(),
        ensures
            writes@ == init_sequence(self.base()),
            writes@.len() == 9,
            forall|i: int|
                0 <= i < writes@.len() ==> self.base() <= #[trigger] writes@[i].port <= self.base()
                    + 5,
    {
        proof {
            lemma_init_writes_in_window(self.base());
        }
        let mut writes: Vec<PortWrite> = Vec::new();
        writes.push(self.write_register(INTERRUPT_ENABLE, 0x00));
        writes.push(self.write_register(LINE_CONTROL, 0x80));
        writes.push(self.write_register(DATA, 0x03));
        writes.push(self.write_register(INTERRUPT_ENABLE, 0x00));
        writes.push(self.write_register(LINE_CONTROL, 0x03));
        writes.push(self.write_register(FIFO_CONTROL, 0xC7));
        writes.push(self.write_register(MODEM_CONTROL, 0x0B));
        writes.push(self.write_register(MODEM_CONTROL, 0x1E));
        writes.push(self.write_register(DATA, LOOPBACK_TEST_BYTE));
        assert(writes@ =~= init_sequence(self.base()));
        writes
    }

    /// Completes initialization from the byte read back in loopback mode:
    /// if it is the test byte, the write that puts the chip in normal
    /// operation (IRQs, OUT#1 and OUT#2 on, loopback off); otherwise the
    /// chip is faulty and `None`.
    pub fn finish_init(&self, echoed: u8) -> (w: Option<PortWrite>)
        requires
            self.ports_fit(),
        ensures
            echoed == LOOPBACK_TEST_BYTE ==> w == Some(port_write(self.base(), MODEM_CONTROL, 0x0F)),
            echoed != LOOPBACK_TEST_BYTE ==> w is None,
    {
        if echoed == LOOPBACK_TEST_BYTE {
            Some(self.write_register(MODEM_CONTROL, 0x0F))
        } else {
            None
        }
    }

    /// Sends a byte on the serial port, given the line status just read:
    /// once the transmit holding register is empty, the write of `data` to
    /// the data port; before that `None`, and the caller reads the line
    /// status again.
    pub fn send(&self, data: u8, line_status: u8) -> (w: Option<PortWrite>)
        requires
            self.ports_fit(),
        ensures
            line_status & LSR_TRANSMIT_EMPTY != 0 ==> w == Some(port_write(self.base(), DATA, data)),
            line_status & LSR_TRANSMIT_EMPTY == 0 ==> w is None,
    {
        if line_status & LSR_TRANSMIT_EMPTY != 0 {
            Some(self.write_register(DATA, data))
        } else {
            None
        }
    }

    /// Receives a byte on the serial port without waiting, given the line
    /// status just read: the port to read the byte from when one has
    /// arrived, else `None`.
    pub fn receive(&self, line_status: u8) -> (p: Option<u16>)
        requires
            self.ports_fit(),
        ensures
            line_status & LSR_DATA_READY != 0 ==> p == Some((self.base() + DATA) as u16),
            line_status & LSR_DATA_READY == 0 ==> p is None,
    {
        if line_status & LSR_DATA_READY != 0 {
            Some(self.register(DATA))
        } else {
            None
        }
    }
}

/// Every write of the initialization goes to a register of the chip: a
/// port from the base to the base plus 5.
pub proof fn lemma_init_writes_in_window(base: u16)
    requires
        base + 5 <= u16::MAX,
    ensures
        init_sequence(base).len() == 9,
        forall|i: int|
            0 <= i < init_sequence(base).len() ==> base <= #[trigger] init_sequence(base)[i].port
                <= base + 5,
{
}

/// Moving the chip's base moves every initialization write by the same
/// amount and keeps the bytes written: the writes for base `b + d` are
/// those for base `b` with each port shifted by `d`.
pub proof fn lemma_init_shifts_with_base(b: u16, d: u16)
    requires
        b + d + 5 <= u16::MAX,
    ensures
        init_sequence((b + d) as u16).len() == init_sequence(b).len(),
        forall|i: int|
            0 <= i < init_sequence(b).len() ==> #[trigger] init_sequence((b + d) as u16)[i].port
                == init_sequence(b)[i].port + d && init_sequence((b + d) as u16)[i].value
                == init_sequence(b)[i].value,
{
}

} // verus!
