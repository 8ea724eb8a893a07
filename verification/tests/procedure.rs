use ble_bringup::procedure::Procedure;
use ble_bringup::sdk::{Action, SdkCall, Step};

fn step(call: SdkCall, checked: bool) -> Step {
    Step { call, checked }
}

#[test]
fn successful_run_makes_every_call_then_finishes() {
    let mut p = Procedure::new(vec![
        step(SdkCall::LogInit, true),
        step(SdkCall::AppTimerInit, true),
    ]);
    assert_eq!(p.pending(), Action::Call(SdkCall::LogInit));
    assert_eq!(p.complete(0), Action::Call(SdkCall::AppTimerInit));
    assert_eq!(p.complete(0), Action::Finished);
    assert_eq!(p.pending(), Action::Finished);
}

#[test]
fn finished_run_stays_finished() {
    let mut p = Procedure::new(vec![step(SdkCall::FdsGc, true)]);
    assert_eq!(p.complete(0), Action::Finished);
    assert_eq!(p.complete(7), Action::Finished);
    assert_eq!(p.complete(0), Action::Finished);
}

#[test]
fn empty_plan_is_finished_at_once() {
    let p = Procedure::new(Vec::new());
    assert_eq!(p.pending(), Action::Finished);
}

#[test]
fn failed_checked_call_halts_with_its_status() {
    let mut p = Procedure::new(vec![
        step(SdkCall::BspIndicationSet { indication: ble_bringup::sdk::Indication::Idle }, true),
        step(SdkCall::BspBtnBleSleepModePrepare, true),
        step(SdkCall::PowerSystemOff, true),
    ]);
    assert_eq!(p.complete(0), Action::Call(SdkCall::BspBtnBleSleepModePrepare));
    let halted = Action::Halt { call: SdkCall::BspBtnBleSleepModePrepare, status: 8 };
    assert_eq!(p.complete(8), halted);
    // No later call is asked for, whatever is reported.
    assert_eq!(p.complete(0), halted);
    assert_eq!(p.complete(3), halted);
    assert_eq!(p.pending(), halted);
}

#[test]
fn unchecked_call_status_is_ignored() {
    let mut p = Procedure::new(vec![
        step(SdkCall::PmLocalDatabaseHasChanged, false),
        step(SdkCall::FdsGc, true),
    ]);
    assert_eq!(p.complete(17), Action::Call(SdkCall::FdsGc));
    assert_eq!(p.complete(0), Action::Finished);
}
