use vstd::prelude::*;

verus! {

/// What the front end does after one CPU step.
#[derive(PartialEq, Eq, Structural, Debug, Clone, Copy)]
pub enum StepAction {
    /// Run the next instruction of this frame.
    NextStep,
    /// The frame's cycles are spent: present it and wait for the next one.
    EndFrame,
    /// A BRK was executed while stopping on BRK was asked for.
    Stop,
}

/// The CPU cycles of one displayed frame at `clock_hz` (the frame rate the
/// budget is cut to is 60 per second).
pub fn cycles_per_frame(clock_hz: u32) -> (r: u32)
    ensures
        r == clock_hz / 60,
{
    clock_hz / 60
}

/// The decision after a step of `cycles` cycles that ran `opcode`, when
/// `executed` cycles of the frame's `per_frame` had been spent before it:
/// the cycles spent now, and whether to stop (BRK with `end_brk`), end the
/// frame (budget spent) or go on.
pub fn after_step(executed: u32, cycles: u8, per_frame: u32, opcode: u8, end_brk: bool) -> (r: (u32, StepAction))
    requires
        executed < per_frame,
        per_frame <= u32::MAX - 255,
    ensures
        r.0 == executed + cycles,
        r.1 == if opcode == 0x00 && end_brk {
            StepAction::Stop
        } else if executed + cycles >= per_frame {
            StepAction::EndFrame
        } else {
            StepAction::NextStep
        },
{
    let spent = executed + cycles as u32;
    if opcode == 0x00 && end_brk {
        (spent, StepAction::Stop)
    } else if spent >= per_frame {
        (spent, StepAction::EndFrame)
    } else {
        (spent, StepAction::NextStep)
    }
}

} // verus!
