//! The emulator module represents an entire computer: a hart and its bus. One step runs a cycle
//! of the devices, takes a pending interrupt, and executes an instruction, taking the trap of
//! its exception; the host drives the steps.

use vstd::prelude::*;

use crate::bus::BusView;
use crate::cpu::cycle::{execute_spec, pending_interrupt_spec, tick_spec};
use crate::cpu::decode::Executed;
use crate::cpu::{Cpu, CpuView, Mode};
use crate::devices::virtio_blk::VirtioView;
use crate::dram::DRAM_SIZE;
use crate::exception::{exception_trap_spec, Exception, Trap};
use crate::interrupt::interrupt_trap_spec;

verus! {

/// What a step of the emulator did with its instruction.
#[derive(Debug, Clone, Copy, PartialEq, Eq, Structural)]
pub enum StepOutcome {
    /// The instruction was executed (a floating-point operation is left to the host).
    Executed(Executed),
    /// The instruction raised an exception, whose trap was taken.
    Trapped(Exception, Trap),
}

/// Why the emulator cannot go on.
#[derive(Debug, Clone, Copy, PartialEq, Eq, Structural)]
pub enum Halt {
    /// The disk access the virtio device asked for failed.
    DiskAccess(Exception),
    /// A trap has to be taken while the hart is in a privilege mode that cannot be recorded
    /// (MPP held the reserved encoding when `mret` returned).
    InvalidMode,
}

/// An event of a test run: an instruction executed at `pc`, or an exception raised with the
/// program counter at `pc`.
#[derive(Debug, Clone, Copy, PartialEq, Eq, Structural)]
pub enum TestEvent {
    Executed { pc: u64, inst: Executed },
    Trapped { pc: u64, exception: Exception },
}

/// The outcome of a test run: the events in order, and whether the run stopped because a trap
/// could not be taken (see `Halt::InvalidMode`).
#[derive(Debug, Clone, PartialEq, Eq)]
pub struct TestRun {
    pub events: Vec<TestEvent>,
    pub invalid_mode: bool,
}

/// One step: the devices tick, a pending interrupt is taken, and an instruction is executed;
/// if it raises an exception, the exception's trap is taken.
pub open spec fn step_spec(v: CpuView) -> (CpuView, Result<StepOutcome, Halt>) {
    let v1 = tick_spec(v);
    let (v2, ri) = pending_interrupt_spec(v1);
    match ri {
        Err(e) => (v2, Err(Halt::DiskAccess(e))),
        Ok(oi) => {
            if oi is Some && v2.mode == Mode::Debug {
                (v2, Err(Halt::InvalidMode))
            } else {
                let v3 = match oi {
                    Some(i) => interrupt_trap_spec(i, v2),
                    None => v2,
                };
                let (v4, rx) = execute_spec(v3);
                match rx {
                    Ok(x) => (v4, Ok(StepOutcome::Executed(x))),
                    Err(e) => if v4.mode == Mode::Debug {
                        (v4, Err(Halt::InvalidMode))
                    } else {
                        (
                            exception_trap_spec(e, v4),
                            Ok(StepOutcome::Trapped(e, e.trap_kind_spec())),
                        )
                    },
                }
            }
        },
    }
}

/// A test run of at most `k` instructions from `v`, while the program counter stays in
/// `start..end`: the hart after it, the events, and whether it stopped at a trap that could not
/// be taken. No interrupts happen.
pub open spec fn test_run_spec(v: CpuView, start: u64, end: u64, k: nat) -> (
    CpuView,
    Seq<TestEvent>,
    bool,
)
    decreases k,
{
    if v.pc < start || end <= v.pc || k == 0 {
        (v, Seq::empty(), false)
    } else {
        let (v1, r) = execute_spec(v);
        match r {
            Ok(x) => {
                let (vf, evs, bad) = test_run_spec(v1, start, end, (k - 1) as nat);
                (vf, seq![TestEvent::Executed { pc: v1.pc.wrapping_sub(4), inst: x }] + evs, bad)
            },
            Err(e) => {
                let ev = TestEvent::Trapped { pc: v1.pc, exception: e };
                if v1.mode == Mode::Debug {
                    (v1, seq![ev], true)
                } else {
                    let (vf, evs, bad) = test_run_spec(
                        exception_trap_spec(e, v1),
                        start,
                        end,
                        (k - 1) as nat,
                    );
                    (vf, seq![ev] + evs, bad)
                }
            },
        }
    }
}

/// The number of instructions a test run executes at most.
pub const TEST_STEPS: u64 = 1000;

/// The emulator to hold a CPU.
pub struct Emulator {
    /// The CPU which is the core implementation of this emulator.
    pub cpu: Cpu,
    /// The debug flag. Output messages if it's true, otherwise output nothing.
    pub is_debug: bool,
}

impl Emulator {
    /// Constructor for an emulator.
    pub fn new() -> (e: Emulator)
        ensures
            e.cpu@ == Cpu::new_spec(),
            !e.is_debug,
    {
        Self { cpu: Cpu::new(), is_debug: false }
    }

    /// Reset CPU state.
    pub fn reset(&mut self)
        ensures
            final(self).cpu@ == (CpuView {
                pc: 0,
                mode: Mode::Machine,
                prev_mode: Mode::Machine,
                csrs: crate::csr::csr_reset_spec(),
                xregs: Seq::new(32, |i: int| 0u64),
                fregs: Seq::new(32, |i: int| 0u64),
                ..old(self).cpu@
            }),
            final(self).is_debug == old(self).is_debug,
    {
        self.cpu.reset()
    }

    /// Set binary data to the beginning of the DRAM from the emulator console.
    pub fn initialize_dram(&mut self, data: Vec<u8>)
        requires
            data.len() <= DRAM_SIZE,
        ensures
            final(self).cpu@ == (CpuView {
                bus: BusView {
                    dram: data@ + old(self).cpu@.bus.dram.subrange(
                        data.len() as int,
                        DRAM_SIZE as int,
                    ),
                    ..old(self).cpu@.bus
                },
                ..old(self).cpu@
            }),
            final(self).is_debug == old(self).is_debug,
    {
        self.cpu.bus.initialize_dram(data);
    }

    /// Set binary data to the virtio disk from the emulator console.
    pub fn initialize_disk(&mut self, data: Vec<u8>)
        ensures
            final(self).cpu@ == (CpuView {
                bus: BusView {
                    virtio: VirtioView {
                        disk: old(self).cpu@.bus.virtio.disk + data@,
                        ..old(self).cpu@.bus.virtio
                    },
                    ..old(self).cpu@.bus
                },
                ..old(self).cpu@
            }),
            final(self).is_debug == old(self).is_debug,
    {
        self.cpu.bus.initialize_disk(data);
    }

    /// Set the program counter to the CPU field.
    pub fn initialize_pc(&mut self, pc: u64)
        ensures
            final(self).cpu@ == (CpuView { pc, ..old(self).cpu@ }),
            final(self).is_debug == old(self).is_debug,
    {
        self.cpu.pc = pc;
    }

    /// Run one step of the emulator: a cycle on the peripheral devices, an interrupt taken if
    /// one is pending, and an instruction executed, with the trap of its exception taken.
    pub fn step(&mut self) -> (r: Result<StepOutcome, Halt>)
        ensures
            (final(self).cpu@, r) == step_spec(old(self).cpu@),
            final(self).is_debug == old(self).is_debug,
    {
        // Run a cycle on peripheral devices.
        self.cpu.devices_increment();
        // Take an interrupt.
        match self.cpu.check_pending_interrupt() {
            Err(e) => return Err(Halt::DiskAccess(e)),
            Ok(Some(interrupt)) => {
                if self.cpu.mode == Mode::Debug {
                    return Err(Halt::InvalidMode);
                }
                interrupt.take_trap(&mut self.cpu);
            },
            Ok(None) => {},
        }
        // Execute an instruction.
        match self.cpu.execute() {
            Ok(inst) => Ok(StepOutcome::Executed(inst)),
            Err(exception) => {
                if self.cpu.mode == Mode::Debug {
                    return Err(Halt::InvalidMode);
                }
                let trap = exception.take_trap(&mut self.cpu);
                Ok(StepOutcome::Trapped(exception, trap))
            },
        }
    }

    /// Start executing the emulator with limited range of program: at most 1000 instructions,
    /// while the program counter is in `start..end`. This method is for test. No interrupts
    /// happen.
    pub fn test_start(&mut self, start: u64, end: u64) -> (r: TestRun)
        ensures
            (final(self).cpu@, r.events@, r.invalid_mode) == test_run_spec(
                old(self).cpu@,
                start,
                end,
                TEST_STEPS as nat,
            ),
            final(self).is_debug == old(self).is_debug,
    {
        let mut events: Vec<TestEvent> = Vec::new();
        let mut count: u64 = 0;
        loop
            invariant
                count <= TEST_STEPS,
                self.is_debug == old(self).is_debug,
                test_run_spec(old(self).cpu@, start, end, TEST_STEPS as nat) == ({
                    let (vf, evs, bad) = test_run_spec(
                        self.cpu@,
                        start,
                        end,
                        (TEST_STEPS - count) as nat,
                    );
                    (vf, events@ + evs, bad)
                }),
            decreases TEST_STEPS - count,
        {
            if self.cpu.pc < start || end <= self.cpu.pc || count == TEST_STEPS {
                assert(events@ + Seq::<TestEvent>::empty() =~= events@);
                return TestRun { events, invalid_mode: false };
            }
            count = count + 1;
            match self.cpu.execute() {
                Ok(inst) => {
                    let ev = TestEvent::Executed { pc: self.cpu.pc.wrapping_sub(4), inst };
                    proof {
                        let ghost rest = test_run_spec(
                            self.cpu@,
                            start,
                            end,
                            (TEST_STEPS - count) as nat,
                        ).1;
                        assert(events@.push(ev) + rest =~= events@ + (seq![ev] + rest));
                    }
                    events.push(ev);
                },
                Err(exception) => {
                    let ev = TestEvent::Trapped { pc: self.cpu.pc, exception };
                    if self.cpu.mode == Mode::Debug {
                        events.push(ev);
                        return TestRun { events, invalid_mode: true };
                    }
                    exception.take_trap(&mut self.cpu);
                    proof {
                        let ghost rest = test_run_spec(
                            self.cpu@,
                            start,
                            end,
                            (TEST_STEPS - count) as nat,
                        ).1;
                        assert(events@.push(ev) + rest =~= events@ + (seq![ev] + rest));
                    }
                    events.push(ev);
                },
            }
        }
    }
}

} // verus!
