//! Shared data types of the orchestration layer — device descriptors,
//! controller configurations, status snapshots — and the small decisions
//! that turn raw engine answers into them.

use vstd::prelude::*;

use crate::util::{dec_val, is_digit_char, parse_u64_digits};

verus! {

/// One Android debug bridge device, as the toolkit reports it. The two
/// method masks are bit sets the engine defines; they ride through this
/// layer untouched.
#[derive(Debug, Clone)]
pub struct AdbDevice {
    pub name: String,
    pub adb_path: String,
    pub address: String,
    pub screencap_methods: u64,
    pub input_methods: u64,
    pub config: String,
}

/// One desktop window, as the toolkit reports it.
#[derive(Debug, Clone)]
pub struct Win32Window {
    pub handle: u64,
    pub class_name: String,
    pub window_name: String,
}

/// How a controller is to be created. The numeric method masks of the
/// bridge variant arrive as digit strings (to survive a front end that
/// cannot carry 64-bit integers) and are validated here.
#[derive(Debug, Clone)]
pub enum ControllerConfig {
    Adb {
        adb_path: String,
        address: String,
        /// A 64-bit method mask written in decimal digits.
        screencap_methods: String,
        /// A 64-bit method mask written in decimal digits.
        input_methods: String,
        config: String,
    },
    Win32 { handle: u64, screencap_method: u64, mouse_method: u64, keyboard_method: u64 },
    Gamepad { handle: u64, gamepad_type: Option<String>, screencap_method: Option<u64> },
    PlayCover { address: String },
}

/// Which gamepad a gamepad controller emulates.
#[derive(Clone, Copy, Debug, PartialEq, Eq, Structural)]
pub enum GamepadKind {
    Xbox360,
    DualShock4,
}

/// A validated controller creation request, ready for the engine: every
/// mask parsed, the gamepad kind decided. A gamepad screencap method left
/// unset falls to the engine's default, which the embedder supplies.
#[derive(Debug, Clone)]
pub enum ControllerRequest {
    Adb {
        adb_path: String,
        address: String,
        screencap_methods: u64,
        input_methods: u64,
        config: String,
    },
    Win32 { handle: u64, screencap_method: u64, mouse_method: u64, keyboard_method: u64 },
    Gamepad { handle: u64, gamepad_type: GamepadKind, screencap_method: Option<u64> },
}

/// Why a controller configuration was rejected.
#[derive(Clone, Copy, Debug, PartialEq, Eq, Structural)]
pub enum ControllerConfigError {
    /// The screencap method mask is not a decimal 64-bit number.
    InvalidScreencapMethods,
    /// The input method mask is not a decimal 64-bit number.
    InvalidInputMethods,
    /// This platform's controller kind is not supported here.
    PlayCoverUnsupported,
}

/// Whether a digit string carries a 64-bit value.
pub open spec fn valid_u64_digits(s: Seq<char>) -> bool {
    &&& s.len() > 0
    &&& (forall|i: int| 0 <= i < s.len() ==> is_digit_char(#[trigger] s[i]))
    &&& dec_val(s) <= u64::MAX
}

/// The gamepad kind a configured name asks for: the DualShock names pick
/// the DualShock, everything else — a different name or none — the
/// default Xbox pad.
pub open spec fn spec_gamepad_kind(name: Option<Seq<char>>) -> GamepadKind {
    match name {
        Some(n) => if n == "DualShock4"@ || n == "DS4"@ {
            GamepadKind::DualShock4
        } else {
            GamepadKind::Xbox360
        },
        None => GamepadKind::Xbox360,
    }
}

/// Validates a controller configuration into a creation request: the
/// bridge variant's masks must be decimal 64-bit numbers, the gamepad
/// name is mapped to its kind, and the platform-specific variant that
/// cannot be served here is rejected.
pub fn prepare_controller(config: &ControllerConfig) -> (r: Result<
    ControllerRequest,
    ControllerConfigError,
>)
    ensures
        match config {
            ControllerConfig::Adb {
                adb_path,
                address,
                screencap_methods,
                input_methods,
                config: cfg,
            } => {
                if !valid_u64_digits(screencap_methods@) {
                    r == Err::<ControllerRequest, _>(
                        ControllerConfigError::InvalidScreencapMethods,
                    )
                } else if !valid_u64_digits(input_methods@) {
                    r == Err::<ControllerRequest, _>(ControllerConfigError::InvalidInputMethods)
                } else {
                    r matches Ok(ControllerRequest::Adb {
                        adb_path: p,
                        address: a,
                        screencap_methods: sm,
                        input_methods: im,
                        config: c,
                    }) && p@ == adb_path@ && a@ == address@ && sm == dec_val(screencap_methods@)
                        && im == dec_val(input_methods@) && c@ == cfg@
                }
            },
            ControllerConfig::Win32 { handle, screencap_method, mouse_method, keyboard_method } => r
                == Ok::<_, ControllerConfigError>(
                ControllerRequest::Win32 {
                    handle: *handle,
                    screencap_method: *screencap_method,
                    mouse_method: *mouse_method,
                    keyboard_method: *keyboard_method,
                },
            ),
            ControllerConfig::Gamepad { handle, gamepad_type, screencap_method } => {
                r matches Ok(ControllerRequest::Gamepad {
                    handle: h,
                    gamepad_type: kind,
                    screencap_method: sm,
                }) && h == *handle && sm == *screencap_method && kind == spec_gamepad_kind(
                    match gamepad_type {
                        Some(n) => Some(n@),
                        None => None,
                    },
                )
            },
            ControllerConfig::PlayCover { .. } => r == Err::<ControllerRequest, _>(
                ControllerConfigError::PlayCoverUnsupported,
            ),
        },
{
    match config {
        ControllerConfig::Adb { adb_path, address, screencap_methods, input_methods, config } => {
            let screencap = match parse_u64_digits(screencap_methods.as_str()) {
                Some(v) => v,
                None => {
                    return Err(ControllerConfigError::InvalidScreencapMethods);
                },
            };
            let input = match parse_u64_digits(input_methods.as_str()) {
                Some(v) => v,
                None => {
                    return Err(ControllerConfigError::InvalidInputMethods);
                },
            };
            Ok(
                ControllerRequest::Adb {
                    adb_path: clone_string(adb_path),
                    address: clone_string(address),
                    screencap_methods: screencap,
                    input_methods: input,
                    config: clone_string(config),
                },
            )
        },
        ControllerConfig::Win32 { handle, screencap_method, mouse_method, keyboard_method } => Ok(
            ControllerRequest::Win32 {
                handle: *handle,
                screencap_method: *screencap_method,
                mouse_method: *mouse_method,
                keyboard_method: *keyboard_method,
            },
        ),
        ControllerConfig::Gamepad { handle, gamepad_type, screencap_method } => {
            let kind = match gamepad_type {
                Some(name) => {
                    if crate::util::str_eq_chars(name.as_str(), "DualShock4")
                        || crate::util::str_eq_chars(name.as_str(), "DS4") {
                        GamepadKind::DualShock4
                    } else {
                        GamepadKind::Xbox360
                    }
                },
                None => GamepadKind::Xbox360,
            };
            Ok(
                ControllerRequest::Gamepad {
                    handle: *handle,
                    gamepad_type: kind,
                    screencap_method: *screencap_method,
                },
            )
        },
        ControllerConfig::PlayCover { .. } => Err(ControllerConfigError::PlayCoverUnsupported),
    }
}

/// A controller's connection state, as a front end sees it.
#[derive(Debug, Clone, PartialEq, Eq, Structural)]
pub enum ConnectionStatus {
    Disconnected,
    Connecting,
    Connected,
}

/// The connection status of an instance, from whether a controller exists
/// and what the engine answered when asked whether it is connected.
pub fn connection_status_of(has_controller: bool, connected: bool) -> (r: ConnectionStatus)
    ensures
        r == (if has_controller && connected {
            ConnectionStatus::Connected
        } else {
            ConnectionStatus::Disconnected
        }),
{
    if has_controller && connected {
        ConnectionStatus::Connected
    } else {
        ConnectionStatus::Disconnected
    }
}

/// A task's state, as a front end sees it.
#[derive(Debug, Clone, Copy, PartialEq, Eq, Structural)]
pub enum TaskStatus {
    Pending,
    Running,
    Succeeded,
    Failed,
}

/// The task status a raw engine status code means, given the engine's
/// code for each known state; every other code reads as failed.
pub fn task_status_of(status: i32, pending: i32, running: i32, succeeded: i32) -> (r: TaskStatus)
    ensures
        r == (if status == pending {
            TaskStatus::Pending
        } else if status == running {
            TaskStatus::Running
        } else if status == succeeded {
            TaskStatus::Succeeded
        } else {
            TaskStatus::Failed
        }),
{
    if status == pending {
        TaskStatus::Pending
    } else if status == running {
        TaskStatus::Running
    } else if status == succeeded {
        TaskStatus::Succeeded
    } else {
        TaskStatus::Failed
    }
}

/// The authoritative snapshot of one instance: the four flags come from
/// querying the engine's handles directly, never from cached booleans;
/// the task identifiers are the instance's cached submission.
#[derive(Debug, Clone)]
pub struct InstanceState {
    pub connected: bool,
    pub resource_loaded: bool,
    pub tasker_inited: bool,
    pub is_running: bool,
    pub task_ids: Vec<i64>,
}

/// A snapshot of every instance plus the cached device and window scans.
#[derive(Debug, Clone)]
pub struct AllInstanceStates {
    pub instances: Vec<(String, InstanceState)>,
    pub cached_adb_devices: Vec<AdbDevice>,
    pub cached_win32_windows: Vec<Win32Window>,
}

/// The manifest of an incremental update package: which files it adds,
/// deletes and modifies.
#[derive(Debug, Clone)]
pub struct ChangesJson {
    pub added: Vec<String>,
    pub deleted: Vec<String>,
    pub modified: Vec<String>,
}

/// Copies a string.
fn clone_string(s: &String) -> (r: String)
    ensures
        r@ == s@,
{
    s.as_str().to_owned()
}

} // verus!
