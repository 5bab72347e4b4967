use pnes::pacing::{after_step, cycles_per_frame, StepAction};

#[test]
fn ntsc_and_pal_frame_budgets() {
    assert_eq!(cycles_per_frame(1_789_773), 29_829);
    assert_eq!(cycles_per_frame(1_662_607), 27_710);
}

#[test]
fn step_decisions() {
    assert_eq!(after_step(0, 7, 100, 0xEA, true), (7, StepAction::NextStep));
    assert_eq!(after_step(95, 7, 100, 0xEA, false), (102, StepAction::EndFrame));
    // BRK stops only when asked to
    assert_eq!(after_step(10, 7, 100, 0x00, true), (17, StepAction::Stop));
    assert_eq!(after_step(10, 7, 100, 0x00, false), (17, StepAction::NextStep));
}
