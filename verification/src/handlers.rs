//! What the application does on each event from the SDK modules, as a plan of calls
//! to run with a `Procedure`.
use vstd::prelude::*;
use crate::sdk::{checked, unchecked, AdvMode, Indication, SdkCall, Step};

verus! {

/// Events of the advertising module.
#[derive(Clone, Copy, Debug, PartialEq, Eq)]
pub enum AdvEvt {
    Idle,
    Directed,
    DirectedSlow,
    Fast,
    Slow,
    FastWhitelist,
    SlowWhitelist,
    WhitelistRequest,
    PeerAddrRequest,
}

/// Events of the connection parameters negotiation module.
#[derive(Clone, Copy, Debug, PartialEq, Eq)]
pub enum ConnParamsEvtType {
    Failed,
    Succeeded,
}

/// Events of the peer manager.
#[derive(Clone, Copy, Debug, PartialEq, Eq)]
pub enum PmEvtId {
    BondedPeerConnected,
    ConnSecStart,
    ConnSecSucceeded,
    ConnSecFailed,
    ConnSecConfigReq,
    StorageFull,
    ErrorUnexpected,
    PeerDataUpdateSucceeded,
    PeerDataUpdateFailed,
    PeerDeleteSucceeded,
    PeerDeleteFailed,
    PeersDeleteSucceeded,
    PeersDeleteFailed,
    LocalDbCacheApplied,
    LocalDbCacheApplyFailed,
    ServiceChangedIndSent,
    ServiceChangedIndConfirmed,
}

/// The calls at program start, before the Bluetooth bring-up: the logger, then the
/// application timer.
pub open spec fn startup_plan() -> Seq<Step> {
    seq![checked(SdkCall::LogInit), checked(SdkCall::AppTimerInit)]
}

/// The calls that erase all bonds.
pub open spec fn delete_bonds_plan() -> Seq<Step> {
    seq![checked(SdkCall::PmPeersDelete)]
}

/// The calls that start advertising; when bonds are to be erased, they only erase
/// them, and advertising starts once the peer manager reports them deleted.
pub open spec fn advertising_start_plan(erase_bonds: bool) -> Seq<Step> {
    if erase_bonds {
        delete_bonds_plan()
    } else {
        seq![checked(SdkCall::AdvertisingStart { mode: AdvMode::Fast })]
    }
}

/// The calls that put the chip to sleep: the idle indication, the wake-up buttons,
/// then system-off, from which only a reset wakes it.
pub open spec fn sleep_mode_enter_plan() -> Seq<Step> {
    seq![
        checked(SdkCall::BspIndicationSet { indication: Indication::Idle }),
        checked(SdkCall::BspBtnBleSleepModePrepare),
        checked(SdkCall::PowerSystemOff),
    ]
}

/// The calls made on an advertising event.
pub open spec fn adv_evt_plan(evt: AdvEvt) -> Seq<Step> {
    match evt {
        AdvEvt::Fast => seq![checked(SdkCall::BspIndicationSet { indication: Indication::Advertising })],
        AdvEvt::Idle => sleep_mode_enter_plan(),
        _ => Seq::empty(),
    }
}

/// The calls made on a connection parameters event: none, also on failure.
pub open spec fn conn_params_evt_plan(evt: ConnParamsEvtType) -> Seq<Step> {
    Seq::empty()
}

/// The calls made on a peer manager event.
pub open spec fn pm_evt_plan(evt: PmEvtId) -> Seq<Step> {
    match evt {
        PmEvtId::StorageFull => seq![checked(SdkCall::FdsGc)],
        PmEvtId::PeersDeleteSucceeded => advertising_start_plan(false),
        PmEvtId::LocalDbCacheApplyFailed => seq![unchecked(SdkCall::PmLocalDatabaseHasChanged)],
        _ => Seq::empty(),
    }
}

/// Initialises the logger and the application timer.
pub fn startup() -> (plan: Vec<Step>)
    ensures
        plan@ == startup_plan(),
{
    vec![
        Step { call: SdkCall::LogInit, checked: true },
        Step { call: SdkCall::AppTimerInit, checked: true },
    ]
}

/// Erases all bonds.
pub fn delete_bonds() -> (plan: Vec<Step>)
    ensures
        plan@ == delete_bonds_plan(),
{
    vec![Step { call: SdkCall::PmPeersDelete, checked: true }]
}

/// Starts advertising, or first erases the bonds when `erase_bonds` holds.
pub fn advertising_start(erase_bonds: bool) -> (plan: Vec<Step>)
    ensures
        plan@ == advertising_start_plan(erase_bonds),
{
    if erase_bonds {
        delete_bonds()
    } else {
        vec![Step { call: SdkCall::AdvertisingStart { mode: AdvMode::Fast }, checked: true }]
    }
}

/// Puts the chip to sleep.
pub fn sleep_mode_enter() -> (plan: Vec<Step>)
    ensures
        plan@ == sleep_mode_enter_plan(),
{
    vec![
        Step { call: SdkCall::BspIndicationSet { indication: Indication::Idle }, checked: true },
        Step { call: SdkCall::BspBtnBleSleepModePrepare, checked: true },
        Step { call: SdkCall::PowerSystemOff, checked: true },
    ]
}

/// Handles an advertising event: fast advertising is shown on the board, and when
/// advertising stops the chip goes to sleep.
pub fn on_adv_evt(evt: AdvEvt) -> (plan: Vec<Step>)
    ensures
        plan@ == adv_evt_plan(evt),
{
    match evt {
        AdvEvt::Fast => vec![
            Step {
                call: SdkCall::BspIndicationSet { indication: Indication::Advertising },
                checked: true,
            },
        ],
        AdvEvt::Idle => sleep_mode_enter(),
        _ => Vec::new(),
    }
}

/// Handles a connection parameters event; no event calls for an action.
pub fn on_conn_params_evt(evt: ConnParamsEvtType) -> (plan: Vec<Step>)
    ensures
        plan@ == conn_params_evt_plan(evt),
{
    match evt {
        ConnParamsEvtType::Failed => Vec::new(),
        ConnParamsEvtType::Succeeded => Vec::new(),
    }
}

/// Handles a peer manager event: a full flash store is garbage-collected, advertising
/// starts once all bonds are deleted, and a failed local database cache makes the
/// peer manager send service-changed indications.
pub fn pm_evt_handler(evt: PmEvtId) -> (plan: Vec<Step>)
    ensures
        plan@ == pm_evt_plan(evt),
{
    match evt {
        PmEvtId::StorageFull => vec![Step { call: SdkCall::FdsGc, checked: true }],
        PmEvtId::PeersDeleteSucceeded => advertising_start(false),
        PmEvtId::LocalDbCacheApplyFailed => vec![
            Step { call: SdkCall::PmLocalDatabaseHasChanged, checked: false },
        ],
        _ => Vec::new(),
    }
}


/// Erasing bonds defers advertising to the peer manager: the plan that erases them
/// starts no advertising, and the event that reports all peers deleted starts it,
/// as starting advertising without erasure does; run one after the other, they
/// delete the peers, then start fast advertising.
pub proof fn law_advertising_starts_after_bonds_deleted()
    ensures
        forall|i: int| 0 <= i < advertising_start_plan(true).len() ==>
            !(#[trigger] advertising_start_plan(true)[i].call is AdvertisingStart),
        pm_evt_plan(PmEvtId::PeersDeleteSucceeded) == advertising_start_plan(false),
        advertising_start_plan(true) + pm_evt_plan(PmEvtId::PeersDeleteSucceeded) == seq![
            checked(SdkCall::PmPeersDelete),
            checked(SdkCall::AdvertisingStart { mode: AdvMode::Fast }),
        ],
{
    assert(advertising_start_plan(true) + pm_evt_plan(PmEvtId::PeersDeleteSucceeded) =~= seq![
        checked(SdkCall::PmPeersDelete),
        checked(SdkCall::AdvertisingStart { mode: AdvMode::Fast }),
    ]);
}

/// When advertising stops, the chip goes to sleep, and system-off is its last call:
/// in every plan of a handler, nothing follows system-off.
pub proof fn law_idle_advertising_sleeps()
    ensures
        adv_evt_plan(AdvEvt::Idle) == sleep_mode_enter_plan(),
        sleep_mode_enter_plan().last() == checked(SdkCall::PowerSystemOff),
        forall|evt: AdvEvt, i: int| 0 <= i < adv_evt_plan(evt).len() - 1 ==>
            !(#[trigger] adv_evt_plan(evt)[i].call is PowerSystemOff),
        forall|evt: PmEvtId, i: int| 0 <= i < pm_evt_plan(evt).len() ==>
            !(#[trigger] pm_evt_plan(evt)[i].call is PowerSystemOff),
{
}

/// No connection parameters event leads to a call, not even a failed negotiation.
pub proof fn law_conn_params_events_ignored(evt: ConnParamsEvtType)
    ensures
        conn_params_evt_plan(evt).len() == 0,
{
}

/// Every call a handler makes must succeed, except the report of a changed local
/// database, which returns nothing to check.
pub proof fn law_handler_calls_checked()
    ensures
        forall|evt: AdvEvt, i: int| 0 <= i < adv_evt_plan(evt).len() ==>
            #[trigger] adv_evt_plan(evt)[i].checked,
        forall|evt: PmEvtId, i: int| 0 <= i < pm_evt_plan(evt).len() ==>
            (#[trigger] pm_evt_plan(evt)[i].checked
                <==> !(pm_evt_plan(evt)[i].call is PmLocalDatabaseHasChanged)),
{
}

} // verus!
