//! The I/O register window: the serial registers and the interrupt flags.

use vstd::prelude::*;

verus! {

/// Address of the serial data register.
pub const SERIAL_DATA: u16 = 0xFF01;

/// Address of the serial control register.
pub const SERIAL_CONTROL: u16 = 0xFF02;

/// Address of the interrupt flag register.
pub const INTERRUPT_FLAG: u16 = 0xFF0F;

/// What the I/O registers hold.
pub struct IoState {
    pub serial_data: u8,
    pub serial_control: u8,
    pub interrupt_flag: u8,
}

impl IoState {
    /// The registers after power-on: both serial registers hold a blank, no
    /// interrupt is requested.
    pub open spec fn reset() -> IoState {
        IoState { serial_data: 0x20, serial_control: 0x20, interrupt_flag: 0 }
    }

    /// The registers that are not implemented read as zero.
    pub open spec fn read(self, addr: u16) -> u8 {
        if addr == SERIAL_DATA {
            self.serial_data
        } else if addr == SERIAL_CONTROL {
            self.serial_control
        } else if addr == INTERRUPT_FLAG {
            self.interrupt_flag
        } else {
            0
        }
    }

    /// Writes to the registers that are not implemented are dropped.
    pub open spec fn write(self, addr: u16, val: u8) -> IoState {
        if addr == SERIAL_DATA {
            IoState { serial_data: val, ..self }
        } else if addr == SERIAL_CONTROL {
            IoState { serial_control: val, ..self }
        } else if addr == INTERRUPT_FLAG {
            IoState { interrupt_flag: val, ..self }
        } else {
            self
        }
    }
}

/// The I/O registers.
pub struct IO {
    serial_data: [u8; 2],
    interrupt_flag: u8,
}

impl View for IO {
    type V = IoState;

    closed spec fn view(&self) -> IoState {
        IoState {
            serial_data: self.serial_data[0],
            serial_control: self.serial_data[1],
            interrupt_flag: self.interrupt_flag,
        }
    }
}

impl IO {
    pub fn new() -> (io: Self)
        ensures
            io@ == IoState::reset(),
    {
        Self { serial_data: [0x20, 0x20], interrupt_flag: 0 }
    }

    pub fn write(&mut self, addr: u16, val: u8)
        ensures
            final(self)@ == old(self)@.write(addr, val),
    {
        if addr == SERIAL_DATA {
            self.serial_data[0] = val;
        } else if addr == SERIAL_CONTROL {
            self.serial_data[1] = val;
        } else if addr == INTERRUPT_FLAG {
            self.interrupt_flag = val;
        }
    }

    pub fn read(&mut self, addr: u16) -> (r: u8)
        ensures
            r == old(self)@.read(addr),
            final(self)@ == old(self)@,
    {
        if addr == SERIAL_DATA {
            self.serial_data[0]
        } else if addr == SERIAL_CONTROL {
            self.serial_data[1]
        } else if addr == INTERRUPT_FLAG {
            self.interrupt_flag
        } else {
            0
        }
    }
}

} // verus!
