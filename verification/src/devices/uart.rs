//! The uart module contains the implementation of a universal asynchronous receiver-transmitter
//! (UART). The device is 16550a UART, which is used in the QEMU virt machine. See more information
//! in http://byterunner.com/16550.html.
//!
//! The host side of the device is a byte queue in each direction: bytes the guest writes to the
//! transmit holding register wait in an output queue until the host takes them, and the host
//! hands a received byte to the device, which raises an interrupt for it.

use vstd::prelude::*;

use crate::exception::Exception;
use crate::le::BYTE;

verus! {

/// The address which UART starts. QEMU puts UART registers here in physical memory.
pub const UART_BASE: u64 = 0x1000_0000;
/// The size of UART.
pub const UART_SIZE: u64 = 0x100;
/// The interrupt request of UART.
pub const UART_IRQ: u64 = 10;

/// Receive holding register (for input bytes).
pub const UART_RHR: u64 = UART_BASE + 0;
/// Transmit holding register (for output bytes).
pub const UART_THR: u64 = UART_BASE + 0;
/// Interrupt enable register.
pub const UART_IER: u64 = UART_BASE + 1;
/// FIFO control register.
pub const UART_FCR: u64 = UART_BASE + 2;
/// Interrupt status register.
pub const UART_ISR: u64 = UART_BASE + 2;
/// Line control register.
pub const UART_LCR: u64 = UART_BASE + 3;
/// Line status register.
/// LSR BIT 0: 1 = data has been received and saved in the receive holding register.
/// LSR BIT 5: 1 = the transmit holding register is empty.
pub const UART_LSR: u64 = UART_BASE + 5;

/// The state of a UART.
pub struct UartView {
    /// The registers.
    pub regs: Seq<u8>,
    /// An interrupt is pending.
    pub interrupting: bool,
    /// Bytes the guest transmitted that the host has not taken yet.
    pub output: Seq<u8>,
}

/// The result of a `size`-bit load at `addr`.
pub open spec fn uart_read_spec(v: UartView, addr: u64, size: u8) -> Result<u64, Exception> {
    if size != BYTE || !(UART_BASE <= addr < UART_BASE + UART_SIZE) {
        Err(Exception::LoadAccessFault)
    } else {
        Ok(v.regs[addr - UART_BASE] as u64)
    }
}

/// The state after a `size`-bit load at `addr`: reading the receive holding register clears the
/// data-ready bit (LSR bit 0).
pub open spec fn uart_after_read(v: UartView, addr: u64, size: u8) -> UartView {
    if size == BYTE && addr == UART_RHR {
        UartView { regs: v.regs.update(5, v.regs[5] & !1u8), ..v }
    } else {
        v
    }
}

/// The state after a `size`-bit store of `value` at `addr`, and the result of the store: a byte
/// written to the transmit holding register is queued for the host.
pub open spec fn uart_write_spec(v: UartView, addr: u64, value: u8, size: u8) -> (
    UartView,
    Result<(), Exception>,
) {
    if size != BYTE || !(UART_BASE <= addr < UART_BASE + UART_SIZE) {
        (v, Err(Exception::StoreAMOAccessFault))
    } else if addr == UART_THR {
        (UartView { output: v.output.push(value), ..v }, Ok(()))
    } else {
        (UartView { regs: v.regs.update(addr - UART_BASE, value), ..v }, Ok(()))
    }
}

/// The UART, the size of which is 0x100 (2**8).
/// The device after the host hands it `byte`, and whether it took the byte: it does when the
/// previous byte was read (LSR bit 0 clear); the byte then lands in the receive holding register,
/// the data-ready bit is set and an interrupt becomes pending.
pub open spec fn uart_receive_spec(v: UartView, byte: u8) -> (UartView, bool) {
    if v.regs[5] & 1 == 0 {
        (
            UartView {
                regs: v.regs.update(0, byte).update(5, v.regs[5] | 1),
                interrupting: true,
                ..v
            },
            true,
        )
    } else {
        (v, false)
    }
}

/// A byte the device takes from the host is what the guest's next read of the receive holding
/// register gives; that read clears the data-ready bit, so the device takes the next byte.
pub proof fn law_uart_receive_then_read(v: UartView, byte: u8, next: u8)
    requires
        v.regs.len() == UART_SIZE,
        v.regs[5] & 1 == 0,
    ensures
        uart_receive_spec(v, byte).1,
        uart_read_spec(uart_receive_spec(v, byte).0, UART_RHR, BYTE) == Ok::<u64, Exception>(
            byte as u64,
        ),
        uart_receive_spec(uart_after_read(uart_receive_spec(v, byte).0, UART_RHR, BYTE), next).1,
{
    let r5 = v.regs[5];
    assert(((r5 | 1u8) & !1u8) & 1 == 0) by (bit_vector);
}

pub struct Uart {
    uart: [u8; 0x100],
    interrupting: bool,
    output: Vec<u8>,
}

impl View for Uart {
    type V = UartView;

    closed spec fn view(&self) -> UartView {
        UartView { regs: self.uart@, interrupting: self.interrupting, output: self.output@ }
    }
}

impl Uart {
    /// A new UART: all registers zero but the line status, which tells that the transmit
    /// holding register is empty (LSR bit 5); no interrupt pending and nothing transmitted.
    pub open spec fn new_spec() -> UartView {
        UartView {
            regs: Seq::new(0x100, |i: int| 0u8).update(5, 0x20u8),
            interrupting: false,
            output: Seq::<u8>::empty(),
        }
    }

    /// Create a new UART object.
    pub fn new() -> (u: Self)
        ensures
            u@ == Self::new_spec(),
    {
        let mut uart = [0u8; 0x100];
        // The transmit holding register is empty (LSR bit 5).
        uart[(UART_LSR - UART_BASE) as usize] = 0x20;
        let u = Self { uart, interrupting: false, output: Vec::new() };
        assert(u@.regs =~= Seq::new(0x100, |i: int| 0u8).update(5, 0x20u8));
        assert(u@.output =~= Seq::<u8>::empty());
        u
    }

    /// The number of bytes of registers.
    pub fn size(&self) -> (r: usize)
        ensures
            r == UART_SIZE,
    {
        self.uart.len()
    }

    /// Return true if an interrupt is pending. Clear the interrupting flag.
    pub fn is_interrupting(&mut self) -> (r: bool)
        ensures
            r == old(self)@.interrupting,
            final(self)@ == (UartView { interrupting: false, ..old(self)@ }),
    {
        let r = self.interrupting;
        self.interrupting = false;
        r
    }

    /// Hand a byte received by the host to the device. The byte is refused while the previous one
    /// has not been read (LSR bit 0 is set); otherwise it lands in the receive holding register,
    /// the data-ready bit is set and an interrupt becomes pending.
    pub fn receive(&mut self, byte: u8) -> (accepted: bool)
        ensures
            (final(self)@, accepted) == uart_receive_spec(old(self)@, byte),
    {
        let lsr = self.uart[(UART_LSR - UART_BASE) as usize];
        if (lsr & 1) == 1 {
            return false;
        }
        assert(lsr & 1 == 0) by (bit_vector)
            requires
                lsr & 1 != 1,
        ;
        self.uart[0] = byte;
        self.interrupting = true;
        self.uart[(UART_LSR - UART_BASE) as usize] = self.uart[(UART_LSR - UART_BASE) as usize] | 1;
        assert(self@.regs =~= old(self)@.regs.update(0, byte).update(
            5,
            old(self)@.regs[5] | 1,
        ));
        true
    }

    /// Take the bytes the guest transmitted since the last call.
    pub fn take_output(&mut self) -> (out: Vec<u8>)
        ensures
            out@ == old(self)@.output,
            final(self)@ == (UartView { output: Seq::<u8>::empty(), ..old(self)@ }),
    {
        let mut out = Vec::new();
        std::mem::swap(&mut out, &mut self.output);
        assert(self@.output =~= Seq::<u8>::empty());
        out
    }

    /// Read a byte from the receive holding register (or another register). Only byte accesses
    /// are served.
    pub fn read(&mut self, addr: u64, size: u8) -> (r: Result<u64, Exception>)
        ensures
            r == uart_read_spec(old(self)@, addr, size),
            final(self)@ == uart_after_read(old(self)@, addr, size),
    {
        if size != BYTE || addr < UART_BASE || addr >= UART_BASE + UART_SIZE {
            return Err(Exception::LoadAccessFault);
        }
        if addr == UART_RHR {
            self.uart[(UART_LSR - UART_BASE) as usize] = self.uart[(UART_LSR - UART_BASE) as usize]
                & !1u8;
            assert(self@.regs =~= old(self)@.regs.update(
                5,
                old(self)@.regs[5] & !1u8,
            ));
            Ok(self.uart[(addr - UART_BASE) as usize] as u64)
        } else {
            Ok(self.uart[(addr - UART_BASE) as usize] as u64)
        }
    }

    /// Write a byte to the transmit holding register (or another register). Only byte accesses
    /// are served.
    pub fn write(&mut self, addr: u64, value: u8, size: u8) -> (r: Result<(), Exception>)
        ensures
            (final(self)@, r) == uart_write_spec(old(self)@, addr, value, size),
    {
        if size != BYTE || addr < UART_BASE || addr >= UART_BASE + UART_SIZE {
            return Err(Exception::StoreAMOAccessFault);
        }
        if addr == UART_THR {
            self.output.push(value);
        } else {
            self.uart[(addr - UART_BASE) as usize] = value;
            assert(self@.regs =~= old(self)@.regs.update(addr - UART_BASE, value));
        }
        Ok(())
    }
}

} // verus!
