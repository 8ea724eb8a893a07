use ble_bringup::bringup::init_bt;
use ble_bringup::config::{
    adv_data, adv_modes_config, clock_lf_config, conn_params_init, gap_conn_params,
    open_sec_mode, role_count_cfg, sec_params, vs_uuid_cfg,
};
use ble_bringup::sdk::{Action, SdkCall};

/// The calls of a bring-up whose calls all succeed, given the RAM start values that
/// the SoftDevice handler and the enabling call leave.
fn successful_bringup_calls(reported: u32, after_enable: u32) -> Vec<SdkCall> {
    let mut b = init_bt();
    let mut calls = Vec::new();
    let mut ram: u32 = 0;
    let mut act = b.pending();
    while let Action::Call(c) = act {
        if c == SdkCall::AppEvtWait {
            break;
        }
        match c {
            SdkCall::AppRamStartGet => ram = reported,
            SdkCall::SoftdeviceEnable { .. } => ram = after_enable,
            _ => {}
        }
        calls.push(c);
        act = b.complete(0, ram);
    }
    calls
}

#[test]
fn bringup_makes_every_call_in_order() {
    let calls = successful_bringup_calls(0x2000_2000, 0x2000_2800);
    assert_eq!(
        calls,
        vec![
            SdkCall::SoftdeviceHandlerInit { clock: clock_lf_config(), evt_buffer_len: 88 },
            SdkCall::AppRamStartGet,
            SdkCall::BleCfgSet { cfg: vs_uuid_cfg(), ram_start: 0x2000_2000 },
            SdkCall::BleCfgSet { cfg: role_count_cfg(), ram_start: 0x2000_2000 },
            SdkCall::SoftdeviceEnable { ram_start: 0x2000_2000 },
            SdkCall::BleEvtHandlerSet,
            SdkCall::SysEvtHandlerSet,
            SdkCall::GapDeviceNameSet { sec_mode: open_sec_mode(), name: "RUST-BLE\0", name_len: 9 },
            SdkCall::GapPpcpSet { conn_params: gap_conn_params() },
            SdkCall::GattInit,
            SdkCall::AdvertisingInit { advdata: adv_data(), options: adv_modes_config() },
            SdkCall::ConnParamsInit { init: conn_params_init() },
            SdkCall::PmInit,
            SdkCall::PmSecParamsSet { sec_params: sec_params() },
            SdkCall::PmRegister,
            SdkCall::PmPeersDelete,
        ]
    );
}

#[test]
fn ram_start_comes_from_the_handler() {
    let calls = successful_bringup_calls(0x2000_1234, 0);
    assert_eq!(calls[2], SdkCall::BleCfgSet { cfg: vs_uuid_cfg(), ram_start: 0x2000_1234 });
    assert_eq!(calls[4], SdkCall::SoftdeviceEnable { ram_start: 0x2000_1234 });
}

#[test]
fn ram_value_ignored_after_other_calls() {
    let mut b = init_bt();
    // The handler init leaves a value in the variable; it is not taken.
    assert_eq!(b.complete(0, 0x1111), Action::Call(SdkCall::AppRamStartGet));
    assert_eq!(
        b.complete(0, 0x2000_0000),
        Action::Call(SdkCall::BleCfgSet { cfg: vs_uuid_cfg(), ram_start: 0x2000_0000 })
    );
    // A configuration call cannot change it.
    assert_eq!(
        b.complete(0, 0x9999),
        Action::Call(SdkCall::BleCfgSet { cfg: role_count_cfg(), ram_start: 0x2000_0000 })
    );
}

#[test]
fn bringup_waits_for_ever_after_the_last_call() {
    let mut b = init_bt();
    let mut act = b.pending();
    let mut n = 0;
    while act != Action::Call(SdkCall::AppEvtWait) {
        act = b.complete(0, 0x2000_0000);
        n += 1;
    }
    assert_eq!(n, 16);
    // The status of a wait is ignored.
    assert_eq!(b.complete(0, 0), Action::Call(SdkCall::AppEvtWait));
    assert_eq!(b.complete(5, 0), Action::Call(SdkCall::AppEvtWait));
    assert_eq!(b.pending(), Action::Call(SdkCall::AppEvtWait));
}

#[test]
fn failed_configuration_halts_bringup() {
    let mut b = init_bt();
    b.complete(0, 0);
    b.complete(0, 0x2000_0000);
    // sd_ble_cfg_set answers NRF_ERROR_NO_MEM (4).
    let halted = Action::Halt {
        call: SdkCall::BleCfgSet { cfg: vs_uuid_cfg(), ram_start: 0x2000_0000 },
        status: 4,
    };
    assert_eq!(b.complete(4, 0), halted);
    assert_eq!(b.complete(0, 0), halted);
    assert_eq!(b.pending(), halted);
}

#[test]
fn failed_bond_erasure_halts_bringup() {
    let mut b = init_bt();
    for _ in 0..15 {
        b.complete(0, 0x2000_0000);
    }
    assert_eq!(b.pending(), Action::Call(SdkCall::PmPeersDelete));
    assert_eq!(b.complete(1, 0), Action::Halt { call: SdkCall::PmPeersDelete, status: 1 });
}

#[test]
fn failed_first_call_halts_bringup() {
    let mut b = init_bt();
    assert_eq!(
        b.complete(3, 0),
        Action::Halt {
            call: SdkCall::SoftdeviceHandlerInit { clock: clock_lf_config(), evt_buffer_len: 88 },
            status: 3,
        }
    );
}
