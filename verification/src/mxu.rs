//! Built-in custom actions: each one turns the parameter object the
//! engine hands over (a JSON string) into the concrete action to perform.
//!
//! The engine invokes these actions by name during a task; the embedding
//! program performs the sleeps, process launches, requests and
//! notifications that the decided actions call for. Reading the parameter
//! object is the JSON library's work, behind trusted wrappers whose
//! results are named; every default, validation and computation after it
//! is verified.

use vstd::prelude::*;

use crate::util::{dec_val, is_digit_char, is_space_char, spec_words, split_ws, is_blank,
    parse_u32_digits, str_eq_chars};

verus! {

/// The action names under which these actions are registered with the
/// engine, one per action, in registration order.
pub const MXU_SLEEP_ACTION: &'static str = "MXU_SLEEP_ACTION";

pub const MXU_WAITUNTIL_ACTION: &'static str = "MXU_WAITUNTIL_ACTION";

pub const MXU_LAUNCH_ACTION: &'static str = "MXU_LAUNCH_ACTION";

pub const MXU_WEBHOOK_ACTION: &'static str = "MXU_WEBHOOK_ACTION";

pub const MXU_NOTIFY_ACTION: &'static str = "MXU_NOTIFY_ACTION";

pub const MXU_KILLPROC_ACTION: &'static str = "MXU_KILLPROC_ACTION";

pub const MXU_POWER_ACTION: &'static str = "MXU_POWER_ACTION";

/// Seconds an outgoing webhook request waits before giving up.
pub const WEBHOOK_TIMEOUT_SECS: u64 = 10;

/// Why a parameter object yields no action.
#[derive(Clone, Copy, Debug, PartialEq, Eq, Structural)]
pub enum ActionParamError {
    /// The parameter string is not a JSON object.
    ParamUnreadable,
    /// A required field is missing, of the wrong type, or blank.
    MissingField,
    /// A field is present but its value is out of range or malformed.
    InvalidValue,
}

// What the JSON library reads out of each parameter object. Each name
// stands for the fields of one action, a function of the parameter
// string alone.

/// The `sleep_time` field: `None` when the string does not parse as JSON
/// or the field is absent or not an unsigned integer.
pub uninterp spec fn sleep_time_of(s: Seq<char>) -> Option<u64>;

/// The `target_time` field: the outer option is whether the string parses
/// as JSON, the inner whether the field is present as a string.
pub uninterp spec fn target_time_of(s: Seq<char>) -> Option<Option<Seq<char>>>;

/// The `program`, `args` and `wait_for_exit` fields: the outer option is
/// whether the string parses as JSON.
pub uninterp spec fn launch_fields_of(s: Seq<char>) -> Option<
    (Option<Seq<char>>, Option<Seq<char>>, Option<bool>),
>;

/// The `url` field: the outer option is whether the string parses as
/// JSON, the inner whether the field is present as a string.
pub uninterp spec fn url_of(s: Seq<char>) -> Option<Option<Seq<char>>>;

/// The `title` and `body` fields: the outer option is whether the string
/// parses as JSON.
pub uninterp spec fn notify_fields_of(s: Seq<char>) -> Option<
    (Option<Seq<char>>, Option<Seq<char>>),
>;

/// The `kill_self` and `process_name` fields: the outer option is whether
/// the string parses as JSON.
pub uninterp spec fn killproc_fields_of(s: Seq<char>) -> Option<
    (Option<bool>, Option<Seq<char>>),
>;

/// The `power_action` field: the outer option is whether the string
/// parses as JSON, the inner whether the field is present as a string.
pub uninterp spec fn power_action_of(s: Seq<char>) -> Option<Option<Seq<char>>>;

/// What shell-style word splitting makes of an argument line: the words,
/// or nothing when the quoting is unbalanced.
pub uninterp spec fn shell_split_of(s: Seq<char>) -> Option<Seq<Seq<char>>>;

/// Relies on `serde_json::from_str` and `Value::get` / `Value::as_u64`:
/// reads the `sleep_time` field of the parameter object.
#[verifier::external_body]
fn parse_sleep_param(s: &str) -> (r: Option<u64>)
    ensures
        r == sleep_time_of(s@),
{
    serde_json::from_str::<serde_json::Value>(s).ok().and_then(
        |v| v.get("sleep_time").and_then(|f| f.as_u64()),
    )
}

/// Relies on `serde_json::from_str` and `Value::get` / `Value::as_str`:
/// reads the `target_time` field of the parameter object.
#[verifier::external_body]
fn parse_waituntil_param(s: &str) -> (r: Option<Option<String>>)
    ensures
        r is Some <==> target_time_of(s@) is Some,
        r is Some ==> (r->0 is Some <==> target_time_of(s@)->0 is Some),
        r is Some && r->0 is Some ==> r->0->0@ == target_time_of(s@)->0->0,
{
    serde_json::from_str::<serde_json::Value>(s).ok().map(
        |v| v.get("target_time").and_then(|f| f.as_str()).map(|t| t.to_string()),
    )
}

/// Relies on `serde_json::from_str` and `Value::get` / `Value::as_str` /
/// `Value::as_bool`: reads the `program`, `args` and `wait_for_exit`
/// fields of the parameter object.
#[verifier::external_body]
fn parse_launch_param(s: &str) -> (r: Option<(Option<String>, Option<String>, Option<bool>)>)
    ensures
        r is Some <==> launch_fields_of(s@) is Some,
        r is Some ==> {
            &&& ((r->0).0 is Some <==> (launch_fields_of(s@)->0).0 is Some)
            &&& ((r->0).0 is Some ==> (r->0).0->0@ == (launch_fields_of(s@)->0).0->0)
            &&& ((r->0).1 is Some <==> (launch_fields_of(s@)->0).1 is Some)
            &&& ((r->0).1 is Some ==> (r->0).1->0@ == (launch_fields_of(s@)->0).1->0)
            &&& (r->0).2 == (launch_fields_of(s@)->0).2
        },
{
    serde_json::from_str::<serde_json::Value>(s).ok().map(
        |v| (
            v.get("program").and_then(|f| f.as_str()).map(|t| t.to_string()),
            v.get("args").and_then(|f| f.as_str()).map(|t| t.to_string()),
            v.get("wait_for_exit").and_then(|f| f.as_bool()),
        ),
    )
}

/// Relies on `serde_json::from_str` and `Value::get` / `Value::as_str`:
/// reads the `url` field of the parameter object.
#[verifier::external_body]
fn parse_webhook_param(s: &str) -> (r: Option<Option<String>>)
    ensures
        r is Some <==> url_of(s@) is Some,
        r is Some ==> (r->0 is Some <==> url_of(s@)->0 is Some),
        r is Some && r->0 is Some ==> r->0->0@ == url_of(s@)->0->0,
{
    serde_json::from_str::<serde_json::Value>(s).ok().map(
        |v| v.get("url").and_then(|f| f.as_str()).map(|t| t.to_string()),
    )
}

/// Relies on `serde_json::from_str` and `Value::get` / `Value::as_str`:
/// reads the `title` and `body` fields of the parameter object.
#[verifier::external_body]
fn parse_notify_param(s: &str) -> (r: Option<(Option<String>, Option<String>)>)
    ensures
        r is Some <==> notify_fields_of(s@) is Some,
        r is Some ==> {
            &&& ((r->0).0 is Some <==> (notify_fields_of(s@)->0).0 is Some)
            &&& ((r->0).0 is Some ==> (r->0).0->0@ == (notify_fields_of(s@)->0).0->0)
            &&& ((r->0).1 is Some <==> (notify_fields_of(s@)->0).1 is Some)
            &&& ((r->0).1 is Some ==> (r->0).1->0@ == (notify_fields_of(s@)->0).1->0)
        },
{
    serde_json::from_str::<serde_json::Value>(s).ok().map(
        |v| (
            v.get("title").and_then(|f| f.as_str()).map(|t| t.to_string()),
            v.get("body").and_then(|f| f.as_str()).map(|t| t.to_string()),
        ),
    )
}

/// Relies on `serde_json::from_str` and `Value::get` / `Value::as_bool` /
/// `Value::as_str`: reads the `kill_self` and `process_name` fields of
/// the parameter object.
#[verifier::external_body]
fn parse_killproc_param(s: &str) -> (r: Option<(Option<bool>, Option<String>)>)
    ensures
        r is Some <==> killproc_fields_of(s@) is Some,
        r is Some ==> {
            &&& (r->0).0 == (killproc_fields_of(s@)->0).0
            &&& ((r->0).1 is Some <==> (killproc_fields_of(s@)->0).1 is Some)
            &&& ((r->0).1 is Some ==> (r->0).1->0@ == (killproc_fields_of(s@)->0).1->0)
        },
{
    serde_json::from_str::<serde_json::Value>(s).ok().map(
        |v| (
            v.get("kill_self").and_then(|f| f.as_bool()),
            v.get("process_name").and_then(|f| f.as_str()).map(|t| t.to_string()),
        ),
    )
}

/// Relies on `serde_json::from_str` and `Value::get` / `Value::as_str`:
/// reads the `power_action` field of the parameter object.
#[verifier::external_body]
fn parse_power_param(s: &str) -> (r: Option<Option<String>>)
    ensures
        r is Some <==> power_action_of(s@) is Some,
        r is Some ==> (r->0 is Some <==> power_action_of(s@)->0 is Some),
        r is Some && r->0 is Some ==> r->0->0@ == power_action_of(s@)->0->0,
{
    serde_json::from_str::<serde_json::Value>(s).ok().map(
        |v| v.get("power_action").and_then(|f| f.as_str()).map(|t| t.to_string()),
    )
}

/// A decided sleep: wait this many seconds.
#[derive(Clone, Copy, Debug, PartialEq, Eq, Structural)]
pub struct SleepAction {
    pub seconds: u64,
}

/// The sleep action for a parameter object: the `sleep_time` field, or
/// five seconds when the parameter does not parse or carries no usable
/// field.
pub fn get_mxu_sleep_action(param: &str) -> (r: SleepAction)
    ensures
        r.seconds == (match sleep_time_of(param@) {
            Some(v) => v,
            None => 5u64,
        }),
{
    match parse_sleep_param(param) {
        Some(v) => SleepAction { seconds: v },
        None => SleepAction { seconds: 5 },
    }
}

/// A decided wait: the target wall-clock time and how many seconds away
/// it is.
#[derive(Clone, Copy, Debug, PartialEq, Eq, Structural)]
pub struct WaitUntilAction {
    pub hour: u32,
    pub minute: u32,
    /// Seconds until the target time next occurs, measured from the
    /// current second of the day; a target equal to the current time
    /// means a full day's wait.
    pub wait_seconds: u32,
}

/// The number of seconds from `now` (a second of the day) until the clock
/// next reads `target` (also a second of the day).
pub open spec fn seconds_until(target: int, now: int) -> int {
    if target > now {
        target - now
    } else {
        target + 86400 - now
    }
}

/// The wait-until action for a parameter object and the current second of
/// the day: the `target_time` field must be present and hold `HH:MM` with
/// an hour below 24 and a minute below 60; the wait runs to the next
/// occurrence of that time, a day ahead if it has already passed today.
pub fn get_mxu_waituntil_action(param: &str, now_second_of_day: u32) -> (r: Result<
    WaitUntilAction,
    ActionParamError,
>)
    requires
        now_second_of_day < 86400,
    ensures
        target_time_of(param@) is None ==> r == Err::<WaitUntilAction, _>(
            ActionParamError::ParamUnreadable,
        ),
        target_time_of(param@) is Some && target_time_of(param@)->0 is None ==> r == Err::<
            WaitUntilAction,
            _,
        >(ActionParamError::MissingField),
        target_time_of(param@) is Some && target_time_of(param@)->0 is Some ==> {
            let t = target_time_of(param@)->0->0;
            if forall|i: int| 0 <= i < t.len() ==> is_space_char(#[trigger] t[i]) {
                r == Err::<WaitUntilAction, _>(ActionParamError::MissingField)
            } else {
                match r {
                    Ok(action) => {
                        &&& spec_clock(t) == Some((action.hour as int, action.minute as int))
                        &&& action.wait_seconds == seconds_until(
                            action.hour * 3600 + action.minute * 60,
                            now_second_of_day as int,
                        )
                    },
                    Err(e) => {
                        &&& e == ActionParamError::InvalidValue
                        &&& spec_clock(t) is None
                    },
                }
            }
        },
{
    let field = match parse_waituntil_param(param) {
        None => {
            return Err(ActionParamError::ParamUnreadable);
        },
        Some(f) => f,
    };
    let target = match field {
        None => {
            return Err(ActionParamError::MissingField);
        },
        Some(t) => t,
    };
    if is_blank(target.as_str()) {
        return Err(ActionParamError::MissingField);
    }
    match parse_clock(target.as_str()) {
        Some((hour, minute)) => {
            let target_second = hour * 3600 + minute * 60;
            let wait_seconds = if target_second > now_second_of_day {
                target_second - now_second_of_day
            } else {
                target_second + 86400 - now_second_of_day
            };
            Ok(WaitUntilAction { hour, minute, wait_seconds })
        },
        None => Err(ActionParamError::InvalidValue),
    }
}

/// First position at or after `k` holding a colon, or `t.len()` if
/// there is none.
pub open spec fn colon_end(t: Seq<char>, k: int) -> int
    recommends
        0 <= k <= t.len(),
    decreases t.len() - k when 0 <= k <= t.len()
{
    if k >= t.len() {
        t.len() as int
    } else if t[k] == ':' {
        k
    } else {
        colon_end(t, k + 1)
    }
}

proof fn lemma_colon_end_range(t: Seq<char>, k: int)
    requires
        0 <= k <= t.len(),
    ensures
        k <= colon_end(t, k) <= t.len(),
    decreases t.len() - k,
{
    if k < t.len() && t[k] != ':' {
        lemma_colon_end_range(t, k + 1);
    }
}

/// Every character of `s` is a decimal digit.
pub open spec fn all_digits(s: Seq<char>) -> bool {
    forall|i: int| 0 <= i < s.len() ==> is_digit_char(#[trigger] s[i])
}

/// The hour and minute that a clock text names, or nothing when it is
/// malformed: the digits before the first colon are the hour (below 24),
/// the digits between the first and second colon — or the end — are the
/// minute (below 60); anything after a second colon is ignored.
pub open spec fn spec_clock(t: Seq<char>) -> Option<(int, int)> {
    let c1 = colon_end(t, 0);
    if c1 == 0 || c1 >= t.len() {
        None
    } else {
        let hour_text = t.subrange(0, c1);
        let minute_text = t.subrange(c1 + 1, colon_end(t, c1 + 1));
        if all_digits(hour_text) && dec_val(hour_text) < 24 && minute_text.len() > 0
            && all_digits(minute_text) && dec_val(minute_text) < 60 {
            Some((dec_val(hour_text), dec_val(minute_text)))
        } else {
            None
        }
    }
}

/// Reads `HH:MM` from a clock text, exactly as [`spec_clock`] describes.
fn parse_clock(t: &str) -> (r: Option<(u32, u32)>)
    ensures
        match spec_clock(t@) {
            Some(p) => r == Some((p.0 as u32, p.1 as u32)) && 0 <= p.0 < 24 && 0 <= p.1 < 60,
            None => r is None,
        },
        r matches Some(p) ==> p.0 < 24 && p.1 < 60,
{
    let n = t.unicode_len();
    // Find the first colon.
    let mut c1: usize = 0;
    while c1 < n && t.get_char(c1) != ':'
        invariant
            n == t@.len(),
            0 <= c1 <= n,
            colon_end(t@, 0) == colon_end(t@, c1 as int),
        decreases n - c1,
    {
        c1 = c1 + 1;
    }
    assert(colon_end(t@, 0) == c1);
    if c1 == 0 || c1 >= n {
        return None;
    }
    // Find the second colon, if any.
    let mut c2: usize = c1 + 1;
    while c2 < n && t.get_char(c2) != ':'
        invariant
            n == t@.len(),
            c1 + 1 <= c2 <= n,
            colon_end(t@, c1 + 1) == colon_end(t@, c2 as int),
        decreases n - c2,
    {
        c2 = c2 + 1;
    }
    assert(colon_end(t@, c1 + 1) == c2);
    let hour_text = t.substring_char(0, c1);
    let minute_text = t.substring_char(c1 + 1, c2);
    let hour = match parse_u32_digits(hour_text) {
        Some(h) => h,
        None => {
            return None;
        },
    };
    if hour >= 24 {
        return None;
    }
    let minute = match parse_u32_digits(minute_text) {
        Some(m) => m,
        None => {
            return None;
        },
    };
    if minute >= 60 {
        return None;
    }
    Some((hour, minute))
}


/// Relies on `shell_words::split`: POSIX-shell-style word splitting of an
/// argument line; `None` when the quoting is unbalanced.
#[verifier::external_body]
fn shell_split(s: &str) -> (r: Option<Vec<String>>)
    ensures
        r is Some <==> shell_split_of(s@) is Some,
        r is Some ==> r->0@.map_values(|t: String| t@) == shell_split_of(s@)->0,
{
    shell_words::split(s).ok()
}

/// A decided program launch.
#[derive(Debug)]
pub struct LaunchAction {
    pub program: String,
    /// The split argument list, in order.
    pub args: Vec<String>,
    /// Whether to wait for the process to exit before reporting success.
    pub wait_for_exit: bool,
}

/// The argument list an argument line yields: nothing for a blank line,
/// the shell-style words where the quoting balances, and a plain
/// whitespace split as the fallback where it does not.
pub open spec fn spec_launch_args(a: Seq<char>) -> Seq<Seq<char>> {
    if forall|i: int| 0 <= i < a.len() ==> is_space_char(#[trigger] a[i]) {
        Seq::<Seq<char>>::empty()
    } else {
        match shell_split_of(a) {
            Some(words) => words,
            None => spec_words(a),
        }
    }
}

/// The launch action for a parameter object: `program` must be present
/// and not blank; `args` (default empty) is split shell-style, falling
/// back to a plain whitespace split when the quoting is unbalanced;
/// `wait_for_exit` defaults to false.
pub fn get_mxu_launch_action(param: &str) -> (r: Result<LaunchAction, ActionParamError>)
    ensures
        launch_fields_of(param@) is None ==> r == Err::<LaunchAction, _>(
            ActionParamError::ParamUnreadable,
        ),
        launch_fields_of(param@) matches Some(f) ==> {
            if f.0 is None || (forall|i: int|
                0 <= i < f.0->0.len() ==> is_space_char(#[trigger] f.0->0[i])) {
                r == Err::<LaunchAction, _>(ActionParamError::MissingField)
            } else {
                &&& r is Ok
                &&& r->Ok_0.program@ == f.0->0
                &&& r->Ok_0.wait_for_exit == (match f.2 {
                    Some(w) => w,
                    None => false,
                })
                &&& r->Ok_0.args@.map_values(|t: String| t@) == spec_launch_args(
                    match f.1 {
                        Some(a) => a,
                        None => Seq::<char>::empty(),
                    },
                )
            }
        },
{
    let fields = match parse_launch_param(param) {
        None => {
            return Err(ActionParamError::ParamUnreadable);
        },
        Some(f) => f,
    };
    let program = match fields.0 {
        None => {
            return Err(ActionParamError::MissingField);
        },
        Some(p) => p,
    };
    if is_blank(program.as_str()) {
        return Err(ActionParamError::MissingField);
    }
    let wait_for_exit = match fields.2 {
        Some(w) => w,
        None => false,
    };
    let args_line = match fields.1 {
        Some(a) => a,
        None => String::new(),
    };
    let args = if is_blank(args_line.as_str()) {
        Vec::new()
    } else {
        match shell_split(args_line.as_str()) {
            Some(words) => words,
            None => split_ws(args_line.as_str()),
        }
    };
    proof {
        if is_blank_spec(args_line@) {
            assert(args@.map_values(|t: String| t@) =~= spec_launch_args(args_line@));
        }
    }
    Ok(LaunchAction { program, args, wait_for_exit })
}

/// Every character is whitespace.
pub open spec fn is_blank_spec(s: Seq<char>) -> bool {
    forall|i: int| 0 <= i < s.len() ==> is_space_char(#[trigger] s[i])
}

/// A decided webhook call: one GET request to this address, waiting at
/// most [`WEBHOOK_TIMEOUT_SECS`] seconds.
#[derive(Debug)]
pub struct WebhookAction {
    pub url: String,
}

/// The webhook action for a parameter object: `url` must be present and
/// not blank.
pub fn get_mxu_webhook_action(param: &str) -> (r: Result<WebhookAction, ActionParamError>)
    ensures
        url_of(param@) is None ==> r == Err::<WebhookAction, _>(
            ActionParamError::ParamUnreadable,
        ),
        url_of(param@) is Some && url_of(param@)->0 is None ==> r == Err::<WebhookAction, _>(
            ActionParamError::MissingField,
        ),
        url_of(param@) is Some && url_of(param@)->0 is Some ==> {
            if is_blank_spec(url_of(param@)->0->0) {
                r == Err::<WebhookAction, _>(ActionParamError::MissingField)
            } else {
                r is Ok && r->Ok_0.url@ == url_of(param@)->0->0
            }
        },
{
    let field = match parse_webhook_param(param) {
        None => {
            return Err(ActionParamError::ParamUnreadable);
        },
        Some(f) => f,
    };
    let url = match field {
        None => {
            return Err(ActionParamError::MissingField);
        },
        Some(u) => u,
    };
    if is_blank(url.as_str()) {
        return Err(ActionParamError::MissingField);
    }
    Ok(WebhookAction { url })
}

/// A decided desktop notification.
#[derive(Debug)]
pub struct NotifyAction {
    pub title: String,
    pub body: String,
}

/// The notification action for a parameter object: `title` defaults to
/// "MXU", `body` to an empty text.
pub fn get_mxu_notify_action(param: &str) -> (r: Result<NotifyAction, ActionParamError>)
    ensures
        notify_fields_of(param@) is None ==> r == Err::<NotifyAction, _>(
            ActionParamError::ParamUnreadable,
        ),
        notify_fields_of(param@) matches Some(f) ==> {
            &&& r is Ok
            &&& r->Ok_0.title@ == (match f.0 {
                Some(t) => t,
                None => "MXU"@,
            })
            &&& r->Ok_0.body@ == (match f.1 {
                Some(b) => b,
                None => Seq::<char>::empty(),
            })
        },
{
    let fields = match parse_notify_param(param) {
        None => {
            return Err(ActionParamError::ParamUnreadable);
        },
        Some(f) => f,
    };
    let title = match fields.0 {
        Some(t) => t,
        None => "MXU".to_owned(),
    };
    let body = match fields.1 {
        Some(b) => b,
        None => String::new(),
    };
    Ok(NotifyAction { title, body })
}

/// Which process a kill action targets.
#[derive(Debug)]
pub enum KillTarget {
    /// The embedding program's own process, by its executable name.
    CurrentProcess,
    /// The process with this image name.
    Named(String),
}

/// The kill action for a parameter object: `kill_self` defaults to true;
/// a targeted kill needs a non-blank `process_name`.
pub fn get_mxu_killproc_action(param: &str) -> (r: Result<KillTarget, ActionParamError>)
    ensures
        killproc_fields_of(param@) is None ==> r == Err::<KillTarget, _>(
            ActionParamError::ParamUnreadable,
        ),
        killproc_fields_of(param@) matches Some(f) ==> {
            if (match f.0 {
                Some(k) => k,
                None => true,
            }) {
                r is Ok && r->Ok_0 is CurrentProcess
            } else if f.1 is None || is_blank_spec(f.1->0) {
                r == Err::<KillTarget, _>(ActionParamError::MissingField)
            } else {
                r is Ok && (r->Ok_0 matches KillTarget::Named(name) && name@ == f.1->0)
            }
        },
{
    let fields = match parse_killproc_param(param) {
        None => {
            return Err(ActionParamError::ParamUnreadable);
        },
        Some(f) => f,
    };
    let kill_self = match fields.0 {
        Some(k) => k,
        None => true,
    };
    if kill_self {
        return Ok(KillTarget::CurrentProcess);
    }
    let name = match fields.1 {
        None => {
            return Err(ActionParamError::MissingField);
        },
        Some(n) => n,
    };
    if is_blank(name.as_str()) {
        return Err(ActionParamError::MissingField);
    }
    Ok(KillTarget::Named(name))
}

/// The power operations an action can ask for.
#[derive(Clone, Copy, Debug, PartialEq, Eq, Structural)]
pub enum PowerKind {
    Shutdown,
    Restart,
    ScreenOff,
    Sleep,
}

/// The power action a field text names, if any.
pub open spec fn spec_power_kind(a: Seq<char>) -> Option<PowerKind> {
    if a == "shutdown"@ {
        Some(PowerKind::Shutdown)
    } else if a == "restart"@ {
        Some(PowerKind::Restart)
    } else if a == "screenoff"@ {
        Some(PowerKind::ScreenOff)
    } else if a == "sleep"@ {
        Some(PowerKind::Sleep)
    } else {
        None
    }
}

/// The power action for a parameter object: `power_action` defaults to
/// "shutdown"; an unknown operation name is rejected.
pub fn get_mxu_power_action(param: &str) -> (r: Result<PowerKind, ActionParamError>)
    ensures
        power_action_of(param@) is None ==> r == Err::<PowerKind, _>(
            ActionParamError::ParamUnreadable,
        ),
        power_action_of(param@) matches Some(f) ==> {
            let a = match f {
                Some(name) => name,
                None => "shutdown"@,
            };
            match spec_power_kind(a) {
                Some(kind) => r == Ok::<_, ActionParamError>(kind),
                None => r == Err::<PowerKind, _>(ActionParamError::InvalidValue),
            }
        },
{
    let field = match parse_power_param(param) {
        None => {
            return Err(ActionParamError::ParamUnreadable);
        },
        Some(f) => f,
    };
    let name = match field {
        Some(n) => n,
        None => "shutdown".to_owned(),
    };
    if str_eq_chars(name.as_str(), "shutdown") {
        Ok(PowerKind::Shutdown)
    } else if str_eq_chars(name.as_str(), "restart") {
        Ok(PowerKind::Restart)
    } else if str_eq_chars(name.as_str(), "screenoff") {
        Ok(PowerKind::ScreenOff)
    } else if str_eq_chars(name.as_str(), "sleep") {
        Ok(PowerKind::Sleep)
    } else {
        Err(ActionParamError::InvalidValue)
    }
}

/// The action names to register with the engine, one per built-in
/// action, in registration order.
pub fn mxu_action_names() -> (r: Vec<&'static str>)
    ensures
        r@.len() == 7,
        r@[0]@ == MXU_SLEEP_ACTION@,
        r@[1]@ == MXU_WAITUNTIL_ACTION@,
        r@[2]@ == MXU_LAUNCH_ACTION@,
        r@[3]@ == MXU_WEBHOOK_ACTION@,
        r@[4]@ == MXU_NOTIFY_ACTION@,
        r@[5]@ == MXU_KILLPROC_ACTION@,
        r@[6]@ == MXU_POWER_ACTION@,
{
    let mut names: Vec<&'static str> = Vec::new();
    names.push(MXU_SLEEP_ACTION);
    names.push(MXU_WAITUNTIL_ACTION);
    names.push(MXU_LAUNCH_ACTION);
    names.push(MXU_WEBHOOK_ACTION);
    names.push(MXU_NOTIFY_ACTION);
    names.push(MXU_KILLPROC_ACTION);
    names.push(MXU_POWER_ACTION);
    names
}

} // verus!

