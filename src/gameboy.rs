use vstd::prelude::*;
use crate::bus::Bus;
use crate::cartridge::Cartridge;
use crate::controller::Button;
use crate::cpu::{Cpu, CpuError, step_effect};
use crate::flags::Flags;
use crate::registers::Registers;

verus! {

/// What the host hands the machine between steps.
#[derive(Clone, Copy, Debug, PartialEq, Eq, Structural)]
pub enum HostEvent {
    Quit,
    TogglePause,
    Press(Button),
    Release(Button),
}

/// The whole machine as the host drives it.
pub struct GameBoy {
    pub cpu: Cpu,
    pub running: bool,
    pub paused: bool,
}

impl GameBoy {
    pub open spec fn wf(&self) -> bool {
        self.cpu.wf()
    }

    pub fn new() -> (g: GameBoy)
        ensures
            g.wf(),
            g.running,
            !g.paused,
            g.cpu.registers == (Registers { a: 0, b: 0, c: 0, d: 0, e: 0, h: 0, l: 0, sp: 0, pc: 0 }),
            g.cpu.flags == (Flags { zero: false, negative: false, half_carry: false, carry: false }),
            !g.cpu.interruption_enabled,
            g.cpu.switch_interruption_enabled_in == 0,
            !g.cpu.is_halted,
            !g.cpu.is_stopped,
            g.cpu.bus.powered_on(),
    {
        GameBoy { cpu: Cpu::new(), running: true, paused: false }
    }

    /// Inserts a cartridge; the boot program stays mapped and runs from address 0.
    pub fn insert(&mut self, cartridge: Cartridge)
        requires
            old(self).wf(),
            cartridge.wf(),
        ensures
            final(self).wf(),
            final(self).cpu.bus.cartridge == cartridge,
            final(self).cpu.registers == old(self).cpu.registers,
            final(self).running == old(self).running,
            final(self).paused == old(self).paused,
    {
        self.cpu.start(cartridge);
    }

    /// Runs one processor step, then runs the devices for as many machine cycles as the step
    /// took (the timer ticks once and the pipeline advances four dots in each). Returns whether
    /// a frame was completed meanwhile; does nothing while paused.
    pub fn step(&mut self) -> (r: Result<bool, CpuError>)
        requires
            old(self).wf(),
        ensures
            final(self).wf(),
            final(self).running == old(self).running,
            final(self).paused == old(self).paused,
            old(self).paused ==> r == Ok::<bool, CpuError>(false) && final(self).cpu.registers == old(
                self,
            ).cpu.registers,
            !old(self).paused ==> match r {
                Err(e) => step_effect(old(self).cpu, final(self).cpu, Err(e)),
                Ok(frame) => exists|c: Cpu, k: u32|
                    {
                        &&& #[trigger] step_effect(old(self).cpu, c, Ok(k))
                        &&& final(self).cpu.registers == c.registers
                        &&& final(self).cpu.flags == c.flags
                        &&& c.same_control(final(self).cpu)
                        &&& c.bus.ticked(final(self).cpu.bus, k as nat, frame)
                    },
            },
    {
        if self.paused {
            return Ok(false);
        }
        let cycles = match self.cpu.next() {
            Ok(c) => c,
            Err(e) => return Err(e),
        };
        let ghost stepped = self.cpu;
        let mut frame = false;
        let mut i: u32 = 0;
        let ghost mut trace: Seq<Bus> = seq![self.cpu.bus];
        let ghost mut frames: Seq<bool> = Seq::empty();
        assert(frames.contains(true) == false);
        while i < cycles
            invariant
                i <= cycles,
                self.wf(),
                self.running == old(self).running,
                self.paused == old(self).paused,
                self.cpu.registers == stepped.registers,
                self.cpu.flags == stepped.flags,
                stepped.same_control(self.cpu),
                stepped.bus.runs_through(self.cpu.bus, i as nat, frame, trace, frames),
            decreases cycles - i,
        {
            let f = self.cpu.bus.tick();
            frame = frame || f;
            i = i + 1;
            proof {
                let t0 = trace;
                let fr0 = frames;
                trace = trace.push(self.cpu.bus);
                frames = frames.push(f);
                assert forall|j: int| 0 <= j < i implies #[trigger] trace[j].cycle_effect(
                    trace[j + 1],
                    frames[j],
                ) by {
                    if j < i - 1 {
                        assert(trace[j] == t0[j] && trace[j + 1] == t0[j + 1] && frames[j] == fr0[j]);
                    }
                }
                assert(frames.contains(true) == (fr0.contains(true) || f)) by {
                    if f {
                        assert(frames[i - 1] == true);
                    }
                    if fr0.contains(true) {
                        let w = choose|w: int| 0 <= w < fr0.len() && fr0[w] == true;
                        assert(frames[w] == true);
                    }
                }
            }
        }
        assert(stepped.bus.runs_through(self.cpu.bus, cycles as nat, frame, trace, frames));
        assert(step_effect(old(self).cpu, stepped, Ok(cycles)));
        Ok(frame)
    }

    /// Applies a host event: quit, pause toggle, or a button going down or up.
    pub fn handle_event(&mut self, event: HostEvent)
        requires
            old(self).wf(),
        ensures
            final(self).wf(),
            final(self).running == (old(self).running && event != HostEvent::Quit),
            final(self).paused == (old(self).paused != (event == HostEvent::TogglePause)),
            final(self).cpu.registers == old(self).cpu.registers,
            match event {
                HostEvent::Press(b) => final(self).cpu.bus.controller.is_pressed(b),
                HostEvent::Release(b) => !final(self).cpu.bus.controller.is_pressed(b),
                _ => final(self).cpu.bus == old(self).cpu.bus,
            },
    {
        match event {
            HostEvent::Quit => self.running = false,
            HostEvent::TogglePause => self.paused = !self.paused,
            HostEvent::Press(b) => self.cpu.bus.press(b),
            HostEvent::Release(b) => self.cpu.bus.release(b),
        }
    }
}

} // verus!
