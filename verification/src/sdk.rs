//! Plain-value descriptions of the SoftDevice and SDK calls that the application makes.
//!
//! The library decides which call comes next and with which arguments; the program
//! that runs on the chip performs the call and reports the status code it returned.
use vstd::prelude::*;

verus! {

/// Source of the low-frequency clock.
#[derive(Clone, Copy, Debug, PartialEq, Eq)]
pub enum ClockSource {
    Rc,
    Xtal,
    Synth,
}

/// Accuracy of the low-frequency crystal.
#[derive(Clone, Copy, Debug, PartialEq, Eq)]
pub enum XtalAccuracy {
    Ppm250,
    Ppm500,
    Ppm150,
    Ppm100,
    Ppm75,
    Ppm50,
    Ppm30,
    Ppm20,
}

/// Configuration of the low-frequency clock handed to the SoftDevice handler.
#[derive(Clone, Copy, Debug, PartialEq, Eq)]
pub struct ClockLfConfig {
    pub source: ClockSource,
    pub rc_ctiv: u8,
    pub rc_temp_ctiv: u8,
    pub xtal_accuracy: XtalAccuracy,
}

/// One configuration record set with `sd_ble_cfg_set`; the variant names the record.
#[derive(Clone, Copy, Debug, PartialEq, Eq)]
pub enum BleCfg {
    /// Number of vendor-specific UUID bases.
    CommonVsUuid { vs_uuid_count: u8 },
    /// How many connections of each GAP role the stack reserves room for.
    GapRoleCount { periph_role_count: u8, central_role_count: u8, central_sec_count: u8 },
}

/// Security mode and level required to write a GAP attribute.
#[derive(Clone, Copy, Debug, PartialEq, Eq)]
pub struct ConnSecMode {
    pub sm: u8,
    pub lv: u8,
}

/// Peripheral preferred connection parameters, in the units the GAP layer uses.
#[derive(Clone, Copy, Debug, PartialEq, Eq)]
pub struct GapConnParams {
    /// Minimum connection interval, in 1.25 ms units.
    pub min_conn_interval: u16,
    /// Maximum connection interval, in 1.25 ms units.
    pub max_conn_interval: u16,
    pub slave_latency: u16,
    /// Supervision timeout, in 10 ms units.
    pub conn_sup_timeout: u16,
}

/// Kind of a UUID: a 16-bit Bluetooth SIG UUID, or one built on a vendor base.
#[derive(Clone, Copy, Debug, PartialEq, Eq)]
pub enum UuidType {
    Unknown,
    Ble,
    VendorBegin,
}

#[derive(Clone, Copy, Debug, PartialEq, Eq)]
pub struct BleUuid {
    pub uuid: u16,
    pub uuid_type: UuidType,
}

/// How much of the device name goes into the advertising data.
#[derive(Clone, Copy, Debug, PartialEq, Eq)]
pub enum NameType {
    NoName,
    ShortName,
    FullName,
}

/// The fields of the advertising data that the application fills; the others stay zero.
#[derive(Clone, Copy, Debug, PartialEq, Eq)]
pub struct AdvData {
    pub name_type: NameType,
    pub include_appearance: bool,
    pub flags: u8,
    /// Complete list of service UUIDs.
    pub uuids_complete: [BleUuid; 1],
}

/// Advertising modes; the fields of the other modes stay zero (disabled).
#[derive(Clone, Copy, Debug, PartialEq, Eq)]
pub struct AdvModesConfig {
    pub fast_enabled: bool,
    /// Fast advertising interval, in 0.625 ms units.
    pub fast_interval: u32,
    /// Fast advertising timeout, in seconds.
    pub fast_timeout: u32,
}

/// Settings of the connection parameters negotiation module (the two
/// handlers it calls back are fixed by the application).
#[derive(Clone, Copy, Debug, PartialEq, Eq)]
pub struct ConnParamsInit {
    /// Ticks from the start of the connection to the first update request.
    pub first_conn_params_update_delay: u32,
    /// Ticks between later update requests.
    pub next_conn_params_update_delay: u32,
    pub max_conn_params_update_count: u8,
    pub start_on_notify_cccd_handle: u16,
    pub disconnect_on_fail: bool,
}

/// Input and output capabilities of the device during pairing.
#[derive(Clone, Copy, Debug, PartialEq, Eq)]
pub enum IoCaps {
    DisplayOnly,
    DisplayYesNo,
    KeyboardOnly,
    NoInputNoOutput,
    KeyboardDisplay,
}

/// Which keys a side distributes during bonding.
#[derive(Clone, Copy, Debug, PartialEq, Eq)]
pub struct KeyDist {
    pub enc: bool,
    pub id: bool,
    pub sign: bool,
    pub link: bool,
}

/// Security parameters used for every security procedure.
#[derive(Clone, Copy, Debug, PartialEq, Eq)]
pub struct SecParams {
    pub bond: bool,
    pub mitm: bool,
    pub lesc: bool,
    pub keypress: bool,
    pub io_caps: IoCaps,
    pub oob: bool,
    pub min_key_size: u8,
    pub max_key_size: u8,
    pub kdist_own: KeyDist,
    pub kdist_peer: KeyDist,
}

/// Advertising mode to start in.
#[derive(Clone, Copy, Debug, PartialEq, Eq)]
pub enum AdvMode {
    Idle,
    Directed,
    DirectedSlow,
    Fast,
    Slow,
}

/// Board indications (LED patterns) that the application sets.
#[derive(Clone, Copy, Debug, PartialEq, Eq)]
pub enum Indication {
    Idle,
    Advertising,
}

/// One call into the SoftDevice or the SDK, with its arguments as plain values.
#[derive(Clone, Copy, Debug, PartialEq, Eq)]
pub enum SdkCall {
    /// `nrf_log_init`
    LogInit,
    /// `app_timer_init`
    AppTimerInit,
    /// `softdevice_handler_init`, with a zeroed event buffer of `evt_buffer_len` bytes.
    SoftdeviceHandlerInit { clock: ClockLfConfig, evt_buffer_len: u16 },
    /// `softdevice_app_ram_start_get`; writes the start of application RAM.
    AppRamStartGet,
    /// `sd_ble_cfg_set`
    BleCfgSet { cfg: BleCfg, ram_start: u32 },
    /// `softdevice_enable`; reads and rewrites the start of application RAM.
    SoftdeviceEnable { ram_start: u32 },
    /// `softdevice_ble_evt_handler_set`
    BleEvtHandlerSet,
    /// `softdevice_sys_evt_handler_set`
    SysEvtHandlerSet,
    /// `sd_ble_gap_device_name_set`, with the first `name_len` bytes of `name`.
    GapDeviceNameSet { sec_mode: ConnSecMode, name: &'static str, name_len: u16 },
    /// `sd_ble_gap_ppcp_set`
    GapPpcpSet { conn_params: GapConnParams },
    /// `nrf_ble_gatt_init`
    GattInit,
    /// `ble_advertising_init`
    AdvertisingInit { advdata: AdvData, options: AdvModesConfig },
    /// `ble_conn_params_init`
    ConnParamsInit { init: ConnParamsInit },
    /// `pm_init`
    PmInit,
    /// `pm_sec_params_set`
    PmSecParamsSet { sec_params: SecParams },
    /// `pm_register`
    PmRegister,
    /// `pm_peers_delete`
    PmPeersDelete,
    /// `ble_advertising_start`
    AdvertisingStart { mode: AdvMode },
    /// `bsp_indication_set`
    BspIndicationSet { indication: Indication },
    /// `bsp_btn_ble_sleep_mode_prepare`
    BspBtnBleSleepModePrepare,
    /// `sd_power_system_off`
    PowerSystemOff,
    /// `fds_gc`
    FdsGc,
    /// `pm_local_database_has_changed`
    PmLocalDatabaseHasChanged,
    /// `sd_app_evt_wait`
    AppEvtWait,
}

/// A call in a plan, and whether its status code must be success.
#[derive(Clone, Copy, Debug, PartialEq, Eq)]
pub struct Step {
    pub call: SdkCall,
    pub checked: bool,
}

/// What the program on the chip is to do next.
#[derive(Clone, Copy, Debug, PartialEq, Eq)]
pub enum Action {
    /// Make this call and report the status code it returned.
    Call(SdkCall),
    /// Every call of the plan has been made.
    Finished,
    /// A checked call returned `status`; execution stops here.
    Halt { call: SdkCall, status: u32 },
}

/// A step whose status code must be success.
pub open spec fn checked(call: SdkCall) -> Step {
    Step { call, checked: true }
}

/// A step whose status code is ignored.
pub open spec fn unchecked(call: SdkCall) -> Step {
    Step { call, checked: false }
}

} // verus!
