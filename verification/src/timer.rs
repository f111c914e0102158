//! The divider and the timer counter.

use vstd::prelude::*;
use crate::fault::Fault;

verus! {

/// Address of the divider register.
pub const DIV: u16 = 0xFF04;

/// Address of the timer counter.
pub const TIMA: u16 = 0xFF05;

/// Address of the timer modulo.
pub const TMA: u16 = 0xFF06;

/// Address of the timer control register.
pub const TAC: u16 = 0xFF07;

/// What the timer holds.
pub struct TimerState {
    pub div: u16,
    pub tima: u8,
    pub tma: u8,
    pub tac: u8,
}

/// The divider bit that the two low bits of the control register select.
pub open spec fn selected_bit(tac: u8) -> u16 {
    if tac & 0b11 == 0b00 {
        0x0200
    } else if tac & 0b11 == 0b01 {
        0x0008
    } else if tac & 0b11 == 0b10 {
        0x0020
    } else {
        0x0080
    }
}

/// Whether bit 2 of the control register enables the counter.
pub open spec fn counting(tac: u8) -> bool {
    tac & 0b100 != 0
}

impl TimerState {
    /// The timer after power-on.
    pub open spec fn reset() -> TimerState {
        TimerState { div: 0xAC00, tima: 0, tma: 0, tac: 0 }
    }

    /// The divider after one more tick.
    pub open spec fn next_div(self) -> u16 {
        if self.div == 0xFFFF {
            0
        } else {
            (self.div + 1) as u16
        }
    }

    /// Whether the tick makes the counter count: the selected divider bit
    /// falls from one to zero while the counter is enabled.
    pub open spec fn counts(self) -> bool {
        &&& counting(self.tac)
        &&& self.div & selected_bit(self.tac) != 0
        &&& self.next_div() & selected_bit(self.tac) == 0
    }

    /// Whether the tick overflows the counter, which requests an interrupt.
    pub open spec fn overflows(self) -> bool {
        self.counts() && self.tima == 0xFF
    }

    /// The timer after one tick. A counter that overflows restarts from the
    /// modulo.
    pub open spec fn tick(self) -> TimerState {
        TimerState {
            div: self.next_div(),
            tima: if !self.counts() {
                self.tima
            } else if self.tima == 0xFF {
                self.tma
            } else {
                (self.tima + 1) as u8
            },
            ..self
        }
    }

    /// Any write to the divider clears it.
    pub open spec fn write(self, addr: u16, data: u8) -> Result<TimerState, Fault> {
        if addr == DIV {
            Ok(TimerState { div: 0, ..self })
        } else if addr == TIMA {
            Ok(TimerState { tima: data, ..self })
        } else if addr == TMA {
            Ok(TimerState { tma: data, ..self })
        } else if addr == TAC {
            Ok(TimerState { tac: data, ..self })
        } else {
            Err(Fault::AddressRangeViolation { address: addr })
        }
    }

    /// The divider register shows the upper byte of the divider.
    pub open spec fn read(self, addr: u16) -> Result<u8, Fault> {
        if addr == DIV {
            Ok((self.div / 256) as u8)
        } else if addr == TIMA {
            Ok(self.tima)
        } else if addr == TMA {
            Ok(self.tma)
        } else if addr == TAC {
            Ok(self.tac)
        } else {
            Err(Fault::AddressRangeViolation { address: addr })
        }
    }
}

/// The timer.
pub struct Timer {
    div: u16,
    tima: u8,
    tma: u8,
    tac: u8,
}

impl View for Timer {
    type V = TimerState;

    closed spec fn view(&self) -> TimerState {
        TimerState { div: self.div, tima: self.tima, tma: self.tma, tac: self.tac }
    }
}

impl Timer {
    pub fn new() -> (t: Self)
        ensures
            t@ == TimerState::reset(),
    {
        Self { div: 0xAC00, tima: 0, tma: 0, tac: 0 }
    }

    /// Advances the divider by one. Returns whether the timer interrupt is to
    /// be requested.
    pub fn tick(&mut self) -> (request: bool)
        ensures
            final(self)@ == old(self)@.tick(),
            request == old(self)@.overflows(),
    {
        let prev_div: u16 = self.div;
        self.div = self.div.wrapping_add(1);
        let select: u8 = self.tac & 0b11;
        let mask: u16 = if select == 0b00 {
            0x0200
        } else if select == 0b01 {
            0x0008
        } else if select == 0b10 {
            0x0020
        } else {
            0x0080
        };
        let update: bool = (prev_div & mask) != 0 && (self.div & mask) == 0;
        if update && (self.tac & 0b100) != 0 {
            if self.tima == 0xFF {
                self.tima = self.tma;
                return true;
            }
            self.tima = self.tima + 1;
        }
        false
    }

    pub fn write(&mut self, addr: u16, data: u8) -> (r: Result<(), Fault>)
        ensures
            match old(self)@.write(addr, data) {
                Ok(s) => r is Ok && final(self)@ == s,
                Err(e) => r == Err::<(), Fault>(e) && final(self)@ == old(self)@,
            },
    {
        if addr == DIV {
            self.div = 0;
        } else if addr == TIMA {
            self.tima = data;
        } else if addr == TMA {
            self.tma = data;
        } else if addr == TAC {
            self.tac = data;
        } else {
            return Err(Fault::AddressRangeViolation { address: addr });
        }
        Ok(())
    }

    pub fn read(&mut self, addr: u16) -> (r: Result<u8, Fault>)
        ensures
            r == old(self)@.read(addr),
            final(self)@ == old(self)@,
    {
        if addr == DIV {
            proof {
                crate::bits::lemma_word_fields(0, 0, self.div);
            }
            Ok((self.div >> 8) as u8)
        } else if addr == TIMA {
            Ok(self.tima)
        } else if addr == TMA {
            Ok(self.tma)
        } else if addr == TAC {
            Ok(self.tac)
        } else {
            Err(Fault::AddressRangeViolation { address: addr })
        }
    }
}

} // verus!
