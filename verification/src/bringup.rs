//! Bring-up of the Bluetooth stack: the SoftDevice, the GAP and GATT settings, the
//! advertising, connection parameters and peer manager modules, then advertising
//! with erased bonds. Afterwards the application only waits for events.
//!
//! The start of the application RAM is reported by the SoftDevice handler; the
//! bring-up hands that value to the configuration calls and to the enabling call.
use vstd::prelude::*;
use crate::NRF_SUCCESS;
use crate::config::{
    adv_data, adv_modes_config, clock_lf_config, conn_params_init, device_name,
    event_buffer_len, gap_conn_params, open_sec_mode, role_count_cfg, sec_params, vs_uuid_cfg,
};
use crate::handlers::{advertising_start, advertising_start_plan};
use crate::sdk::{checked, Action, SdkCall, Step};

verus! {

/// Number of calls that set the stack and the modules up, before advertising starts.
pub const SETUP_CALLS: usize = 15;

/// The `i`-th set-up call, given the start of application RAM known at that point.
pub open spec fn setup_call(i: nat, ram_start: u32) -> SdkCall {
    if i == 0 {
        SdkCall::SoftdeviceHandlerInit { clock: clock_lf_config(), evt_buffer_len: event_buffer_len() }
    } else if i == 1 {
        SdkCall::AppRamStartGet
    } else if i == 2 {
        SdkCall::BleCfgSet { cfg: vs_uuid_cfg(), ram_start }
    } else if i == 3 {
        SdkCall::BleCfgSet { cfg: role_count_cfg(), ram_start }
    } else if i == 4 {
        SdkCall::SoftdeviceEnable { ram_start }
    } else if i == 5 {
        SdkCall::BleEvtHandlerSet
    } else if i == 6 {
        SdkCall::SysEvtHandlerSet
    } else if i == 7 {
        SdkCall::GapDeviceNameSet {
            sec_mode: open_sec_mode(),
            name: device_name().0,
            name_len: device_name().1,
        }
    } else if i == 8 {
        SdkCall::GapPpcpSet { conn_params: gap_conn_params() }
    } else if i == 9 {
        SdkCall::GattInit
    } else if i == 10 {
        SdkCall::AdvertisingInit { advdata: adv_data(), options: adv_modes_config() }
    } else if i == 11 {
        SdkCall::ConnParamsInit { init: conn_params_init() }
    } else if i == 12 {
        SdkCall::PmInit
    } else if i == 13 {
        SdkCall::PmSecParamsSet { sec_params: sec_params() }
    } else {
        SdkCall::PmRegister
    }
}

/// Whether the `i`-th call writes the start of application RAM.
pub open spec fn writes_ram_start(i: nat) -> bool {
    i == 1 || i == 4
}

/// Number of calls of the bring-up: the set-up, then advertising with erased bonds.
pub open spec fn bringup_len() -> nat {
    SETUP_CALLS as nat + advertising_start_plan(true).len()
}

/// The `i`-th step of the bring-up.
pub open spec fn bringup_step(i: nat, ram_start: u32) -> Step {
    if i < SETUP_CALLS {
        checked(setup_call(i, ram_start))
    } else {
        advertising_start_plan(true)[i - SETUP_CALLS]
    }
}

/// Where the bring-up stands.
pub struct BringupState {
    /// Number of calls that completed without stopping the bring-up.
    pub done: nat,
    /// The start of application RAM, as last reported.
    pub ram_start: u32,
    /// The call that failed, and the status it returned.
    pub fault: Option<(SdkCall, u32)>,
}

/// The bring-up before its first call.
pub open spec fn bringup_start() -> BringupState {
    BringupState { done: 0, ram_start: 0, fault: None }
}

/// What the bring-up asks for next; once every call is made, it only waits for events.
pub open spec fn bringup_action(s: BringupState) -> Action {
    match s.fault {
        Some(f) => Action::Halt { call: f.0, status: f.1 },
        None => if s.done < bringup_len() {
            Action::Call(bringup_step(s.done, s.ram_start).call)
        } else {
            Action::Call(SdkCall::AppEvtWait)
        },
    }
}

/// The bring-up after the pending call returned `status`, with `ram_out` in the
/// start-of-RAM variable.
pub open spec fn bringup_complete(s: BringupState, status: u32, ram_out: u32) -> BringupState {
    if s.fault is Some || s.done >= bringup_len() {
        s
    } else if bringup_step(s.done, s.ram_start).checked && status != NRF_SUCCESS {
        BringupState { fault: Some((bringup_step(s.done, s.ram_start).call, status)), ..s }
    } else {
        BringupState {
            done: s.done + 1,
            ram_start: if writes_ram_start(s.done) { ram_out } else { s.ram_start },
            fault: None,
        }
    }
}

/// The bring-up after `replies` (status, then start-of-RAM value), in order.
pub open spec fn bringup_all(s: BringupState, replies: Seq<(u32, u32)>) -> BringupState
    decreases replies.len(),
{
    if replies.len() == 0 {
        s
    } else {
        bringup_complete(bringup_all(s, replies.drop_last()), replies.last().0, replies.last().1)
    }
}

/// The start of application RAM after the first `i` replies all reported success:
/// nothing known before the SoftDevice handler reports it, then the value it
/// reported, then the value the enabling call left.
pub open spec fn ram_start_after(replies: Seq<(u32, u32)>, i: nat) -> u32 {
    if i <= 1 {
        0
    } else if i <= 4 {
        replies[1].1
    } else {
        replies[4].1
    }
}

/// Brings the Bluetooth stack up, one call at a time.
pub struct BtInit {
    done: usize,
    ram_start: u32,
    fault: Option<(SdkCall, u32)>,
}

impl View for BtInit {
    type V = BringupState;

    closed spec fn view(&self) -> BringupState {
        BringupState { done: self.done as nat, ram_start: self.ram_start, fault: self.fault }
    }
}

/// The `i`-th set-up call.
fn setup_call_at(i: usize, ram_start: u32) -> (c: SdkCall)
    requires
        i < SETUP_CALLS,
    ensures
        c == setup_call(i as nat, ram_start),
{
    if i == 0 {
        SdkCall::SoftdeviceHandlerInit { clock: clock_lf_config(), evt_buffer_len: event_buffer_len() }
    } else if i == 1 {
        SdkCall::AppRamStartGet
    } else if i == 2 {
        SdkCall::BleCfgSet { cfg: vs_uuid_cfg(), ram_start }
    } else if i == 3 {
        SdkCall::BleCfgSet { cfg: role_count_cfg(), ram_start }
    } else if i == 4 {
        SdkCall::SoftdeviceEnable { ram_start }
    } else if i == 5 {
        SdkCall::BleEvtHandlerSet
    } else if i == 6 {
        SdkCall::SysEvtHandlerSet
    } else if i == 7 {
        let name: (&'static str, u16) = device_name();
        SdkCall::GapDeviceNameSet { sec_mode: open_sec_mode(), name: name.0, name_len: name.1 }
    } else if i == 8 {
        SdkCall::GapPpcpSet { conn_params: gap_conn_params() }
    } else if i == 9 {
        SdkCall::GattInit
    } else if i == 10 {
        SdkCall::AdvertisingInit { advdata: adv_data(), options: adv_modes_config() }
    } else if i == 11 {
        SdkCall::ConnParamsInit { init: conn_params_init() }
    } else if i == 12 {
        SdkCall::PmInit
    } else if i == 13 {
        SdkCall::PmSecParamsSet { sec_params: sec_params() }
    } else {
        SdkCall::PmRegister
    }
}

/// The `i`-th step of the bring-up, if there is one.
fn bringup_step_at(i: usize, ram_start: u32) -> (s: Option<Step>)
    ensures
        i < bringup_len() ==> s == Some(bringup_step(i as nat, ram_start)),
        i >= bringup_len() ==> s is None,
{
    if i < SETUP_CALLS {
        Some(Step { call: setup_call_at(i, ram_start), checked: true })
    } else {
        let tail: Vec<Step> = advertising_start(true);
        let j: usize = i - SETUP_CALLS;
        if j < tail.len() {
            Some(tail[j])
        } else {
            None
        }
    }
}

/// Prepares the bring-up of the Bluetooth stack; no call is made yet.
pub fn init_bt() -> (b: BtInit)
    ensures
        b@ == bringup_start(),
{
    BtInit { done: 0, ram_start: 0, fault: None }
}

impl BtInit {
    /// What the bring-up asks for now.
    pub fn pending(&self) -> (a: Action)
        ensures
            a == bringup_action(self@),
    {
        match self.fault {
            Some(f) => Action::Halt { call: f.0, status: f.1 },
            None => match bringup_step_at(self.done, self.ram_start) {
                Some(step) => Action::Call(step.call),
                None => Action::Call(SdkCall::AppEvtWait),
            },
        }
    }

    /// Records the status code returned by the pending call, and the value left in
    /// the start-of-RAM variable, and says what comes next. The value matters only
    /// after the calls that write it.
    pub fn complete(&mut self, status: u32, ram_out: u32) -> (a: Action)
        ensures
            final(self)@ == bringup_complete(old(self)@, status, ram_out),
            a == bringup_action(final(self)@),
    {
        if self.fault.is_none() {
            match bringup_step_at(self.done, self.ram_start) {
                Some(step) => {
                    if step.checked && status != NRF_SUCCESS {
                        self.fault = Some((step.call, status));
                    } else {
                        if self.done == 1 || self.done == 4 {
                            self.ram_start = ram_out;
                        }
                        self.done = self.done + 1;
                    }
                },
                None => {},
            }
        }
        self.pending()
    }
}


/// A bring-up whose calls all report success makes the calls of the plan in order,
/// one per reply; the start of application RAM it works with is the one the
/// SoftDevice handler reported, then the one the enabling call left.
pub proof fn law_bringup_success_sequence(replies: Seq<(u32, u32)>)
    requires
        replies.len() <= bringup_len(),
        forall|i: int| 0 <= i < replies.len() ==> #[trigger] replies[i].0 == NRF_SUCCESS,
    ensures
        forall|i: nat| i <= replies.len() ==> #[trigger] bringup_all(bringup_start(), replies.take(i as int))
            == (BringupState { done: i, ram_start: ram_start_after(replies, i), fault: None }),
        forall|i: nat| i < replies.len() ==> #[trigger] bringup_action(bringup_all(bringup_start(), replies.take(i as int)))
            == Action::Call(bringup_step(i, ram_start_after(replies, i)).call),
{
    assert forall|i: nat| i <= replies.len() implies #[trigger] bringup_all(bringup_start(), replies.take(i as int))
        == (BringupState { done: i, ram_start: ram_start_after(replies, i), fault: None }) by {
        lemma_bringup_prefix(replies, i);
    }
    assert forall|i: nat| i < replies.len() implies #[trigger] bringup_action(bringup_all(bringup_start(), replies.take(i as int)))
        == Action::Call(bringup_step(i, ram_start_after(replies, i)).call) by {
        lemma_bringup_prefix(replies, i);
    }
}

/// The first `i` successful replies bring the bring-up to its `i`-th call.
proof fn lemma_bringup_prefix(replies: Seq<(u32, u32)>, i: nat)
    requires
        i <= replies.len() <= bringup_len(),
        forall|k: int| 0 <= k < replies.len() ==> #[trigger] replies[k].0 == NRF_SUCCESS,
    ensures
        bringup_all(bringup_start(), replies.take(i as int))
            == (BringupState { done: i, ram_start: ram_start_after(replies, i), fault: None }),
    decreases i,
{
    if i == 0 {
        assert(replies.take(0).len() == 0);
    } else {
        let j: nat = (i - 1) as nat;
        lemma_bringup_prefix(replies, j);
        assert(replies.take(i as int).drop_last() =~= replies.take(j as int));
        assert(replies.take(i as int).last() == replies[j as int]);
        assert(replies[j as int].0 == NRF_SUCCESS);
    }
}

/// With all replies successful, the configuration records and the enabling call get
/// the start of application RAM that the SoftDevice handler reported.
pub proof fn law_ram_start_reaches_configuration(replies: Seq<(u32, u32)>)
    requires
        5 <= replies.len() <= bringup_len(),
        forall|i: int| 0 <= i < replies.len() ==> #[trigger] replies[i].0 == NRF_SUCCESS,
    ensures
        bringup_action(bringup_all(bringup_start(), replies.take(1)))
            == Action::Call(SdkCall::AppRamStartGet),
        bringup_action(bringup_all(bringup_start(), replies.take(2)))
            == Action::Call(SdkCall::BleCfgSet { cfg: vs_uuid_cfg(), ram_start: replies[1].1 }),
        bringup_action(bringup_all(bringup_start(), replies.take(3)))
            == Action::Call(SdkCall::BleCfgSet { cfg: role_count_cfg(), ram_start: replies[1].1 }),
        bringup_action(bringup_all(bringup_start(), replies.take(4)))
            == Action::Call(SdkCall::SoftdeviceEnable { ram_start: replies[1].1 }),
        bringup_all(bringup_start(), replies.take(5)).ram_start == replies[4].1,
{
    law_bringup_success_sequence(replies);
    assert(bringup_all(bringup_start(), replies.take(1)) == BringupState { done: 1, ram_start: 0, fault: None });
    assert(bringup_all(bringup_start(), replies.take(2)) == BringupState { done: 2, ram_start: replies[1].1, fault: None });
    assert(bringup_all(bringup_start(), replies.take(3)) == BringupState { done: 3, ram_start: replies[1].1, fault: None });
    assert(bringup_all(bringup_start(), replies.take(4)) == BringupState { done: 4, ram_start: replies[1].1, fault: None });
    assert(bringup_all(bringup_start(), replies.take(5)) == BringupState { done: 5, ram_start: replies[4].1, fault: None });
}

/// The bring-up never finishes: once every call is made, it waits for events for
/// ever, whatever the waits report.
pub proof fn law_bringup_waits_for_ever(s: BringupState, status: u32, ram_out: u32)
    ensures
        bringup_action(s) != Action::Finished,
        s.fault is None && s.done >= bringup_len() ==> {
            &&& bringup_action(s) == Action::Call(SdkCall::AppEvtWait)
            &&& bringup_complete(s, status, ram_out) == s
        },
{
}

/// A halted bring-up stays halted, with the same call and status: no later call is
/// asked for.
pub proof fn law_bringup_halt_is_final(s: BringupState, replies: Seq<(u32, u32)>)
    requires
        s.fault is Some,
    ensures
        bringup_all(s, replies) == s,
        bringup_action(bringup_all(s, replies))
            == (Action::Halt { call: s.fault.unwrap().0, status: s.fault.unwrap().1 }),
    decreases replies.len(),
{
    if replies.len() > 0 {
        law_bringup_halt_is_final(s, replies.drop_last());
    }
}

/// A set-up call that fails halts the bring-up with that call and status.
pub proof fn law_bringup_failed_call_halts(s: BringupState, status: u32, ram_out: u32)
    requires
        s.fault is None,
        s.done < bringup_len(),
        status != NRF_SUCCESS,
    ensures
        bringup_action(bringup_complete(s, status, ram_out)) == (Action::Halt {
            call: bringup_step(s.done, s.ram_start).call,
            status,
        }),
{
}

/// After the set-up, the bring-up starts advertising with erased bonds, which only
/// deletes the peers: no call of the bring-up starts advertising itself.
pub proof fn law_bringup_ends_with_bond_erasure(ram_start: u32)
    ensures
        forall|j: nat| j < advertising_start_plan(true).len() ==>
            #[trigger] bringup_step(SETUP_CALLS as nat + j, ram_start) == advertising_start_plan(true)[j as int],
        bringup_step((bringup_len() - 1) as nat, ram_start) == checked(SdkCall::PmPeersDelete),
        forall|i: nat| i < bringup_len() ==>
            !(#[trigger] bringup_step(i, ram_start).call is AdvertisingStart),
{
}

} // verus!
