//! The configuration that the bring-up hands to the SoftDevice and the SDK modules.
use vstd::prelude::*;
use vstd::string::StringSliceAdditionalSpecFns;
use crate::sdk::{
    AdvData, AdvModesConfig, BleCfg, BleUuid, ClockLfConfig, ClockSource, ConnParamsInit,
    ConnSecMode, GapConnParams, IoCaps, KeyDist, NameType, SecParams, UuidType, XtalAccuracy,
};
use crate::units::{
    app_timer_ticks, ceil_div, ceil_div_of, msec_to_units, ticks_for_ms, units_for_ms,
    APP_TIMER_CLOCK_FREQ, UNIT_0_625_MS, UNIT_10_MS, UNIT_1_25_MS,
};

verus! {

/// Size of the largest BLE event the stack delivers: a 64-byte event header and
/// body, plus a 23-byte ATT payload.
pub const BLE_EVT_MSG_LEN: u32 = 87;

/// The event buffer is made of 32-bit words.
pub const EVT_BUFFER_WORD_BYTES: u32 = 4;

/// Minimum acceptable connection interval, in milliseconds.
pub const MIN_CONN_INTERVAL_MS: u32 = 100;

/// Maximum acceptable connection interval, in milliseconds.
pub const MAX_CONN_INTERVAL_MS: u32 = 200;

/// Number of connection events the peripheral may skip.
pub const SLAVE_LATENCY: u16 = 0;

/// Connection supervision timeout, in milliseconds.
pub const CONN_SUP_TIMEOUT_MS: u32 = 4000;

/// Fast advertising interval, in 0.625 ms units (40 ms).
pub const APP_ADV_INTERVAL: u32 = 64;

/// Fast advertising stops after this many seconds.
pub const APP_ADV_TIMEOUT_IN_SECONDS: u32 = 180;

/// Time from the start of a connection to the first parameter update request, in ms.
pub const FIRST_CONN_PARAMS_UPDATE_DELAY_MS: u32 = 5000;

/// Time between later parameter update requests, in ms.
pub const NEXT_CONN_PARAMS_UPDATE_DELAY_MS: u32 = 30000;

/// Number of update attempts before the negotiation gives up.
pub const MAX_CONN_PARAMS_UPDATE_COUNT: u8 = 3;

/// Attribute handle that no attribute has.
pub const BLE_GATT_HANDLE_INVALID: u16 = 0;

/// Number of peripheral connections the stack makes room for by default.
pub const BLE_GAP_ROLE_COUNT_PERIPH_DEFAULT: u8 = 1;

/// The 16-bit UUID of the Device Information service.
pub const BLE_UUID_DEVICE_INFORMATION_SERVICE: u16 = 0x180A;

/// Advertising flag: LE General Discoverable Mode.
pub const BLE_GAP_ADV_FLAG_LE_GENERAL_DISC_MODE: u8 = 0x02;

/// Advertising flag: BR/EDR not supported.
pub const BLE_GAP_ADV_FLAG_BR_EDR_NOT_SUPPORTED: u8 = 0x04;

/// Smallest and largest encryption key sizes accepted when pairing, in octets.
pub const SEC_PARAM_MIN_KEY_SIZE: u8 = 7;

pub const SEC_PARAM_MAX_KEY_SIZE: u8 = 16;

/// The low-frequency clock configuration, as a value.
pub open spec fn spec_clock_lf_config() -> ClockLfConfig {
    ClockLfConfig {
        source: ClockSource::Xtal,
        rc_ctiv: 0,
        rc_temp_ctiv: 0,
        xtal_accuracy: XtalAccuracy::Ppm20,
    }
}

/// Configuration of the low-frequency clock: a crystal of 20 ppm, so no calibration.
#[verifier::when_used_as_spec(spec_clock_lf_config)]
pub fn clock_lf_config() -> (c: ClockLfConfig)
    ensures
        c == spec_clock_lf_config(),
{
    ClockLfConfig {
        source: ClockSource::Xtal,
        rc_ctiv: 0,
        rc_temp_ctiv: 0,
        xtal_accuracy: XtalAccuracy::Ppm20,
    }
}

/// The event buffer length, as a value.
pub open spec fn spec_event_buffer_len() -> u16 {
    88
}

/// Length in bytes of the buffer that receives BLE events: the largest event,
/// rounded up to whole words (88).
#[verifier::when_used_as_spec(spec_event_buffer_len)]
pub fn event_buffer_len() -> (n: u16)
    ensures
        n == spec_event_buffer_len(),
        n == EVT_BUFFER_WORD_BYTES * ceil_div_of(
            BLE_EVT_MSG_LEN as int,
            EVT_BUFFER_WORD_BYTES as int,
        ),
        (n as int) % (EVT_BUFFER_WORD_BYTES as int) == 0,
        BLE_EVT_MSG_LEN <= n < BLE_EVT_MSG_LEN + EVT_BUFFER_WORD_BYTES,
{
    let words: u64 = ceil_div(BLE_EVT_MSG_LEN, EVT_BUFFER_WORD_BYTES);
    assert(words == 22);
    (words * (EVT_BUFFER_WORD_BYTES as u64)) as u16
}

/// The vendor-specific UUID configuration, as a value.
pub open spec fn spec_vs_uuid_cfg() -> BleCfg {
    BleCfg::CommonVsUuid { vs_uuid_count: 0 }
}

/// No vendor-specific UUID bases.
#[verifier::when_used_as_spec(spec_vs_uuid_cfg)]
pub fn vs_uuid_cfg() -> (c: BleCfg)
    ensures
        c == spec_vs_uuid_cfg(),
{
    BleCfg::CommonVsUuid { vs_uuid_count: 0 }
}

/// The GAP role count configuration, as a value.
pub open spec fn spec_role_count_cfg() -> BleCfg {
    BleCfg::GapRoleCount {
        periph_role_count: BLE_GAP_ROLE_COUNT_PERIPH_DEFAULT,
        central_role_count: 0,
        central_sec_count: 0,
    }
}

/// Room for the default number of peripheral connections, and for no central one.
#[verifier::when_used_as_spec(spec_role_count_cfg)]
pub fn role_count_cfg() -> (c: BleCfg)
    ensures
        c == spec_role_count_cfg(),
{
    BleCfg::GapRoleCount {
        periph_role_count: BLE_GAP_ROLE_COUNT_PERIPH_DEFAULT,
        central_role_count: 0,
        central_sec_count: 0,
    }
}

/// The security mode for writing the device name, as a value.
pub open spec fn spec_open_sec_mode() -> ConnSecMode {
    ConnSecMode { sm: 1, lv: 1 }
}

/// Security mode 1, level 1: the device name can be written without security.
#[verifier::when_used_as_spec(spec_open_sec_mode)]
pub fn open_sec_mode() -> (m: ConnSecMode)
    ensures
        m == spec_open_sec_mode(),
{
    ConnSecMode { sm: 1, lv: 1 }
}

/// The device name and its length, as values.
pub open spec fn spec_device_name() -> (&'static str, u16) {
    ("RUST-BLE\0", 9)
}

/// The device name, terminated by a NUL byte, and its length in bytes (NUL included).
#[verifier::when_used_as_spec(spec_device_name)]
pub fn device_name() -> (r: (&'static str, u16))
    ensures
        r == spec_device_name(),
        r.0@ == "RUST-BLE\0"@,
        r.1 == r.0.spec_bytes().len(),
{
    let name: &'static str = "RUST-BLE\0";
    proof {
        reveal_strlit("RUST-BLE\0");
        vstd::string::is_ascii_spec_bytes(name);
    }
    assert(vstd::string::is_ascii(name));
    (name, name.len() as u16)
}

/// The peripheral preferred connection parameters, as a value.
pub open spec fn spec_gap_conn_params() -> GapConnParams {
    GapConnParams {
        min_conn_interval: 80,
        max_conn_interval: 160,
        slave_latency: 0,
        conn_sup_timeout: 400,
    }
}

/// Peripheral preferred connection parameters: an interval of 100 to 200 ms, no
/// latency, a supervision timeout of 4 s.
#[verifier::when_used_as_spec(spec_gap_conn_params)]
pub fn gap_conn_params() -> (p: GapConnParams)
    ensures
        p == spec_gap_conn_params(),
        p.min_conn_interval == units_for_ms(MIN_CONN_INTERVAL_MS as int, UNIT_1_25_MS as int),
        p.max_conn_interval == units_for_ms(MAX_CONN_INTERVAL_MS as int, UNIT_1_25_MS as int),
        p.slave_latency == SLAVE_LATENCY,
        p.conn_sup_timeout == units_for_ms(CONN_SUP_TIMEOUT_MS as int, UNIT_10_MS as int),
{
    let min: u64 = msec_to_units(MIN_CONN_INTERVAL_MS, UNIT_1_25_MS);
    let max: u64 = msec_to_units(MAX_CONN_INTERVAL_MS, UNIT_1_25_MS);
    let timeout: u64 = msec_to_units(CONN_SUP_TIMEOUT_MS, UNIT_10_MS);
    GapConnParams {
        min_conn_interval: min as u16,
        max_conn_interval: max as u16,
        slave_latency: SLAVE_LATENCY,
        conn_sup_timeout: timeout as u16,
    }
}

/// The advertising data, as a value.
pub open spec fn spec_adv_data() -> AdvData {
    AdvData {
        name_type: NameType::FullName,
        include_appearance: true,
        flags: 0x06,
        uuids_complete: [BleUuid { uuid: BLE_UUID_DEVICE_INFORMATION_SERVICE, uuid_type: UuidType::Ble }],
    }
}

/// Advertising data: the full name, the appearance, LE-only general discoverable
/// flags, and the complete list of service UUIDs: the Device Information service.
#[verifier::when_used_as_spec(spec_adv_data)]
pub fn adv_data() -> (d: AdvData)
    ensures
        d == spec_adv_data(),
        d.flags == BLE_GAP_ADV_FLAG_LE_GENERAL_DISC_MODE | BLE_GAP_ADV_FLAG_BR_EDR_NOT_SUPPORTED,
        d.uuids_complete@ == seq![BleUuid { uuid: BLE_UUID_DEVICE_INFORMATION_SERVICE, uuid_type: UuidType::Ble }],
{
    let flags: u8 = BLE_GAP_ADV_FLAG_LE_GENERAL_DISC_MODE | BLE_GAP_ADV_FLAG_BR_EDR_NOT_SUPPORTED;
    assert(0x02u8 | 0x04u8 == 0x06u8) by (bit_vector);
    let uuids: [BleUuid; 1] = [
        BleUuid { uuid: BLE_UUID_DEVICE_INFORMATION_SERVICE, uuid_type: UuidType::Ble },
    ];
    assert(uuids@ =~= seq![BleUuid { uuid: BLE_UUID_DEVICE_INFORMATION_SERVICE, uuid_type: UuidType::Ble }]);
    AdvData {
        name_type: NameType::FullName,
        include_appearance: true,
        flags,
        uuids_complete: uuids,
    }
}

/// The advertising modes, as a value.
pub open spec fn spec_adv_modes_config() -> AdvModesConfig {
    AdvModesConfig {
        fast_enabled: true,
        fast_interval: APP_ADV_INTERVAL,
        fast_timeout: APP_ADV_TIMEOUT_IN_SECONDS,
    }
}

/// Advertising modes: fast advertising only, every 40 ms, for three minutes.
#[verifier::when_used_as_spec(spec_adv_modes_config)]
pub fn adv_modes_config() -> (o: AdvModesConfig)
    ensures
        o == spec_adv_modes_config(),
        o.fast_interval * UNIT_0_625_MS == 40_000,
{
    AdvModesConfig {
        fast_enabled: true,
        fast_interval: APP_ADV_INTERVAL,
        fast_timeout: APP_ADV_TIMEOUT_IN_SECONDS,
    }
}

/// The connection parameters negotiation settings, as a value.
pub open spec fn spec_conn_params_init() -> ConnParamsInit {
    ConnParamsInit {
        first_conn_params_update_delay: 163840,
        next_conn_params_update_delay: 983040,
        max_conn_params_update_count: MAX_CONN_PARAMS_UPDATE_COUNT,
        start_on_notify_cccd_handle: BLE_GATT_HANDLE_INVALID,
        disconnect_on_fail: false,
    }
}

/// Connection parameters negotiation: first request after 5 s, then every 30 s, at
/// most three times, started at connection, without disconnecting on failure.
#[verifier::when_used_as_spec(spec_conn_params_init)]
pub fn conn_params_init() -> (c: ConnParamsInit)
    ensures
        c == spec_conn_params_init(),
        c.first_conn_params_update_delay == ticks_for_ms(FIRST_CONN_PARAMS_UPDATE_DELAY_MS as int),
        c.next_conn_params_update_delay == ticks_for_ms(NEXT_CONN_PARAMS_UPDATE_DELAY_MS as int),
{
    let first: u64 = app_timer_ticks(FIRST_CONN_PARAMS_UPDATE_DELAY_MS);
    let next: u64 = app_timer_ticks(NEXT_CONN_PARAMS_UPDATE_DELAY_MS);
    assert(ticks_for_ms(5000) == 163840) by (nonlinear_arith);
    assert(ticks_for_ms(30000) == 983040) by (nonlinear_arith);
    ConnParamsInit {
        first_conn_params_update_delay: first as u32,
        next_conn_params_update_delay: next as u32,
        max_conn_params_update_count: MAX_CONN_PARAMS_UPDATE_COUNT,
        start_on_notify_cccd_handle: BLE_GATT_HANDLE_INVALID,
        disconnect_on_fail: false,
    }
}

/// The security parameters, as a value.
pub open spec fn spec_sec_params() -> SecParams {
    SecParams {
        bond: true,
        mitm: false,
        lesc: false,
        keypress: false,
        io_caps: IoCaps::NoInputNoOutput,
        oob: false,
        min_key_size: SEC_PARAM_MIN_KEY_SIZE,
        max_key_size: SEC_PARAM_MAX_KEY_SIZE,
        kdist_own: KeyDist { enc: true, id: true, sign: false, link: false },
        kdist_peer: KeyDist { enc: true, id: true, sign: false, link: false },
    }
}

/// Security parameters: bonding, no man-in-the-middle protection, no LE Secure
/// Connections, no keypress notifications, no input or output, no out-of-band data,
/// keys of 7 to 16 octets; both sides distribute their encryption and identity keys.
#[verifier::when_used_as_spec(spec_sec_params)]
pub fn sec_params() -> (p: SecParams)
    ensures
        p == spec_sec_params(),
{
    let kdist: KeyDist = KeyDist { enc: true, id: true, sign: false, link: false };
    SecParams {
        bond: true,
        mitm: false,
        lesc: false,
        keypress: false,
        io_caps: IoCaps::NoInputNoOutput,
        oob: false,
        min_key_size: SEC_PARAM_MIN_KEY_SIZE,
        max_key_size: SEC_PARAM_MAX_KEY_SIZE,
        kdist_own: kdist,
        kdist_peer: kdist,
    }
}


/// The preferred connection parameters stand for exactly the intervals and timeout
/// chosen in milliseconds, and the interval range is not empty.
pub proof fn law_conn_params_match_milliseconds()
    ensures
        spec_gap_conn_params().min_conn_interval <= spec_gap_conn_params().max_conn_interval,
        spec_gap_conn_params().min_conn_interval * UNIT_1_25_MS == MIN_CONN_INTERVAL_MS * 1000,
        spec_gap_conn_params().max_conn_interval * UNIT_1_25_MS == MAX_CONN_INTERVAL_MS * 1000,
        spec_gap_conn_params().conn_sup_timeout * UNIT_10_MS == CONN_SUP_TIMEOUT_MS * 1000,
        spec_conn_params_init().first_conn_params_update_delay
            == FIRST_CONN_PARAMS_UPDATE_DELAY_MS / 1000 * APP_TIMER_CLOCK_FREQ,
        spec_conn_params_init().next_conn_params_update_delay
            == NEXT_CONN_PARAMS_UPDATE_DELAY_MS / 1000 * APP_TIMER_CLOCK_FREQ,
{
}

} // verus!
