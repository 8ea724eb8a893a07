use ble_bringup::config::{
    adv_data, adv_modes_config, clock_lf_config, conn_params_init, device_name,
    event_buffer_len, gap_conn_params, open_sec_mode, role_count_cfg, sec_params, vs_uuid_cfg,
};
use ble_bringup::init_sys;
use ble_bringup::sdk::{
    AdvData, AdvModesConfig, BleCfg, BleUuid, ClockLfConfig, ClockSource, ConnParamsInit,
    ConnSecMode, GapConnParams, IoCaps, KeyDist, NameType, SecParams, UuidType, XtalAccuracy,
};
use ble_bringup::units::{app_timer_ticks, ceil_div, msec_to_units, UNIT_10_MS, UNIT_1_25_MS};

#[test]
fn msec_to_units_values() {
    assert_eq!(msec_to_units(100, UNIT_1_25_MS), 80);
    assert_eq!(msec_to_units(200, UNIT_1_25_MS), 160);
    assert_eq!(msec_to_units(4000, UNIT_10_MS), 400);
    // Rounds down.
    assert_eq!(msec_to_units(1, UNIT_1_25_MS), 0);
    assert_eq!(msec_to_units(u32::MAX, 1), u32::MAX as u64 * 1000);
}

#[test]
fn app_timer_ticks_values() {
    assert_eq!(app_timer_ticks(5000), 5 * 32768);
    assert_eq!(app_timer_ticks(30000), 30 * 32768);
    // 32.768 ticks round to 33, 0.032768 to 0.
    assert_eq!(app_timer_ticks(1), 33);
    assert_eq!(app_timer_ticks(0), 0);
}

#[test]
fn ceil_div_values() {
    assert_eq!(ceil_div(87, 4), 22);
    assert_eq!(ceil_div(88, 4), 22);
    assert_eq!(ceil_div(0, 4), 0);
    assert_eq!(ceil_div(u32::MAX, 1), u32::MAX as u64);
}

#[test]
fn event_buffer_holds_largest_event_in_words() {
    assert_eq!(event_buffer_len(), 88);
}

#[test]
fn clock_is_20_ppm_crystal() {
    assert_eq!(
        clock_lf_config(),
        ClockLfConfig {
            source: ClockSource::Xtal,
            rc_ctiv: 0,
            rc_temp_ctiv: 0,
            xtal_accuracy: XtalAccuracy::Ppm20,
        }
    );
}

#[test]
fn stack_configuration_records() {
    assert_eq!(vs_uuid_cfg(), BleCfg::CommonVsUuid { vs_uuid_count: 0 });
    assert_eq!(
        role_count_cfg(),
        BleCfg::GapRoleCount { periph_role_count: 1, central_role_count: 0, central_sec_count: 0 }
    );
}

#[test]
fn device_name_and_its_security() {
    assert_eq!(open_sec_mode(), ConnSecMode { sm: 1, lv: 1 });
    let (name, len) = device_name();
    assert_eq!(name, "RUST-BLE\0");
    assert_eq!(len as usize, name.len());
    assert_eq!(len, 9);
}

#[test]
fn preferred_connection_parameters() {
    assert_eq!(
        gap_conn_params(),
        GapConnParams {
            min_conn_interval: 80,
            max_conn_interval: 160,
            slave_latency: 0,
            conn_sup_timeout: 400,
        }
    );
}

#[test]
fn advertising_data_and_modes() {
    assert_eq!(
        adv_data(),
        AdvData {
            name_type: NameType::FullName,
            include_appearance: true,
            flags: 0x06,
            uuids_complete: [BleUuid { uuid: 0x180A, uuid_type: UuidType::Ble }],
        }
    );
    assert_eq!(
        adv_modes_config(),
        AdvModesConfig { fast_enabled: true, fast_interval: 64, fast_timeout: 180 }
    );
}

#[test]
fn connection_parameters_negotiation() {
    assert_eq!(
        conn_params_init(),
        ConnParamsInit {
            first_conn_params_update_delay: 5 * 32768,
            next_conn_params_update_delay: 30 * 32768,
            max_conn_params_update_count: 3,
            start_on_notify_cccd_handle: 0,
            disconnect_on_fail: false,
        }
    );
}

#[test]
fn security_parameters() {
    let kdist = KeyDist { enc: true, id: true, sign: false, link: false };
    assert_eq!(
        sec_params(),
        SecParams {
            bond: true,
            mitm: false,
            lesc: false,
            keypress: false,
            io_caps: IoCaps::NoInputNoOutput,
            oob: false,
            min_key_size: 7,
            max_key_size: 16,
            kdist_own: kdist,
            kdist_peer: kdist,
        }
    );
}

#[test]
fn init_sys_does_nothing() {
    init_sys();
}
