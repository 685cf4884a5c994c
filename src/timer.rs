use vstd::prelude::*;

verus! {

/// The divider and the programmable counter (DIV, TIMA, TMA, TAC).
#[derive(Clone, Copy, Debug, PartialEq, Eq, Structural, Default)]
pub struct Timer {
    /// Free-running 16-bit divider; DIV is its high byte.
    pub divider_register: u16,
    /// TIMA.
    pub time_counter: u8,
    /// TMA: the value TIMA is reloaded with on overflow.
    pub time_modulo: u8,
    /// TAC bit 2.
    pub time_enable: bool,
    /// TAC bits 1..0.
    pub clock_mode: u8,
}

/// Clock cycles between two increments of TIMA for a clock-select field.
pub open spec fn clock_period(mode: u8) -> u16 {
    if mode % 4 == 0 {
        1024
    } else if mode % 4 == 1 {
        16
    } else if mode % 4 == 2 {
        64
    } else {
        256
    }
}

impl Timer {
    pub open spec fn counts_at(self, divider: u16) -> bool {
        self.time_enable && divider % clock_period(self.clock_mode) == 0
    }

    /// The timer after one clock cycle, and whether the timer interrupt is requested: the divider
    /// moves on by one; when enabled, TIMA moves on every `clock_period` cycles and on overflow is
    /// reloaded from TMA.
    pub open spec fn after_tick(self) -> (Timer, bool) {
        let divider = ((self.divider_register as int + 1) % 65536) as u16;
        let t = Timer { divider_register: divider, ..self };
        if !self.counts_at(divider) {
            (t, false)
        } else if self.time_counter == 255 {
            (Timer { time_counter: self.time_modulo, ..t }, true)
        } else {
            (Timer { time_counter: (self.time_counter + 1) as u8, ..t }, false)
        }
    }

    pub fn tick(&mut self) -> (overflow: bool)
        ensures
            (*final(self), overflow) == old(self).after_tick(),
    {
        self.divider_register = self.divider_register.wrapping_add(1);
        let period: u16 = if self.clock_mode % 4 == 0 {
            1024
        } else if self.clock_mode % 4 == 1 {
            16
        } else if self.clock_mode % 4 == 2 {
            64
        } else {
            256
        };
        if self.time_enable && self.divider_register % period == 0 {
            if self.time_counter == 255 {
                self.time_counter = self.time_modulo;
                return true;
            }
            self.time_counter = self.time_counter + 1;
        }
        false
    }

    pub fn get_div(&self) -> (r: u8)
        ensures
            r == self.divider_register / 256,
    {
        (self.divider_register / 256) as u8
    }

    /// Any write to DIV resets the whole divider.
    pub fn set_div(&mut self, value: u8)
        ensures
            *final(self) == (Timer { divider_register: 0, ..*old(self) }),
    {
        self.divider_register = 0;
    }

    pub fn get_tima(&self) -> (r: u8)
        ensures
            r == self.time_counter,
    {
        self.time_counter
    }

    pub fn set_tima(&mut self, value: u8)
        ensures
            *final(self) == (Timer { time_counter: value, ..*old(self) }),
    {
        self.time_counter = value;
    }

    pub fn get_tma(&self) -> (r: u8)
        ensures
            r == self.time_modulo,
    {
        self.time_modulo
    }

    pub fn set_tma(&mut self, value: u8)
        ensures
            *final(self) == (Timer { time_modulo: value, ..*old(self) }),
    {
        self.time_modulo = value;
    }

    /// TAC reads with its unused bits set.
    pub fn get_tac(&self) -> (r: u8)
        ensures
            r == 0xf8 + (if self.time_enable { 4int } else { 0 }) + self.clock_mode % 4,
    {
        let e: u8 = if self.time_enable {
            4
        } else {
            0
        };
        0xf8 + e + self.clock_mode % 4
    }

    pub fn set_tac(&mut self, value: u8)
        ensures
            *final(self) == (Timer {
                time_enable: (value / 4) % 2 == 1,
                clock_mode: value % 4,
                ..*old(self)
            }),
    {
        self.time_enable = (value / 4) % 2 == 1;
        self.clock_mode = value % 4;
    }
}

} // verus!
