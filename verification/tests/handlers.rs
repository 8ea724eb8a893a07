use ble_bringup::handlers::{
    advertising_start, delete_bonds, on_adv_evt, on_conn_params_evt, pm_evt_handler,
    sleep_mode_enter, startup, AdvEvt, ConnParamsEvtType, PmEvtId,
};
use ble_bringup::procedure::Procedure;
use ble_bringup::sdk::{Action, AdvMode, Indication, SdkCall, Step};

fn checked(call: SdkCall) -> Step {
    Step { call, checked: true }
}

fn calls_of(plan: Vec<Step>) -> Vec<SdkCall> {
    let mut p = Procedure::new(plan);
    let mut calls = Vec::new();
    let mut act = p.pending();
    while let Action::Call(c) = act {
        calls.push(c);
        act = p.complete(0);
    }
    assert_eq!(act, Action::Finished);
    calls
}

#[test]
fn startup_inits_logger_then_timer() {
    assert_eq!(startup(), vec![checked(SdkCall::LogInit), checked(SdkCall::AppTimerInit)]);
}

#[test]
fn delete_bonds_deletes_peers() {
    assert_eq!(delete_bonds(), vec![checked(SdkCall::PmPeersDelete)]);
}

#[test]
fn advertising_start_without_erasure_starts_fast_advertising() {
    assert_eq!(
        advertising_start(false),
        vec![checked(SdkCall::AdvertisingStart { mode: AdvMode::Fast })]
    );
}

#[test]
fn advertising_start_with_erasure_only_deletes_bonds() {
    assert_eq!(advertising_start(true), delete_bonds());
}

#[test]
fn bonds_deleted_event_starts_advertising() {
    assert_eq!(pm_evt_handler(PmEvtId::PeersDeleteSucceeded), advertising_start(false));
    let mut calls = calls_of(advertising_start(true));
    calls.extend(calls_of(pm_evt_handler(PmEvtId::PeersDeleteSucceeded)));
    assert_eq!(
        calls,
        vec![SdkCall::PmPeersDelete, SdkCall::AdvertisingStart { mode: AdvMode::Fast }]
    );
}

#[test]
fn sleep_mode_ends_with_system_off() {
    assert_eq!(
        calls_of(sleep_mode_enter()),
        vec![
            SdkCall::BspIndicationSet { indication: Indication::Idle },
            SdkCall::BspBtnBleSleepModePrepare,
            SdkCall::PowerSystemOff,
        ]
    );
}

#[test]
fn fast_advertising_is_indicated() {
    assert_eq!(
        on_adv_evt(AdvEvt::Fast),
        vec![checked(SdkCall::BspIndicationSet { indication: Indication::Advertising })]
    );
}

#[test]
fn idle_advertising_enters_sleep() {
    assert_eq!(on_adv_evt(AdvEvt::Idle), sleep_mode_enter());
}

#[test]
fn other_advertising_events_do_nothing() {
    for evt in [
        AdvEvt::Directed,
        AdvEvt::DirectedSlow,
        AdvEvt::Slow,
        AdvEvt::FastWhitelist,
        AdvEvt::SlowWhitelist,
        AdvEvt::WhitelistRequest,
        AdvEvt::PeerAddrRequest,
    ] {
        assert!(on_adv_evt(evt).is_empty());
    }
}

#[test]
fn conn_params_events_do_nothing() {
    assert!(on_conn_params_evt(ConnParamsEvtType::Failed).is_empty());
    assert!(on_conn_params_evt(ConnParamsEvtType::Succeeded).is_empty());
}

#[test]
fn storage_full_collects_garbage() {
    assert_eq!(pm_evt_handler(PmEvtId::StorageFull), vec![checked(SdkCall::FdsGc)]);
}

#[test]
fn failed_garbage_collection_halts() {
    let mut p = Procedure::new(pm_evt_handler(PmEvtId::StorageFull));
    assert_eq!(p.complete(17), Action::Halt { call: SdkCall::FdsGc, status: 17 });
}

#[test]
fn failed_cache_apply_reports_database_change() {
    assert_eq!(
        pm_evt_handler(PmEvtId::LocalDbCacheApplyFailed),
        vec![Step { call: SdkCall::PmLocalDatabaseHasChanged, checked: false }]
    );
}

#[test]
fn other_peer_manager_events_do_nothing() {
    for evt in [
        PmEvtId::BondedPeerConnected,
        PmEvtId::ConnSecStart,
        PmEvtId::ConnSecSucceeded,
        PmEvtId::ConnSecFailed,
        PmEvtId::ConnSecConfigReq,
        PmEvtId::ErrorUnexpected,
        PmEvtId::PeerDataUpdateSucceeded,
        PmEvtId::PeerDataUpdateFailed,
        PmEvtId::PeerDeleteSucceeded,
        PmEvtId::PeerDeleteFailed,
        PmEvtId::PeersDeleteFailed,
        PmEvtId::LocalDbCacheApplied,
        PmEvtId::ServiceChangedIndSent,
        PmEvtId::ServiceChangedIndConfirmed,
    ] {
        assert!(pm_evt_handler(evt).is_empty());
    }
}
