//! The Wi-Fi feed: what a sample of the radio amounts to, and when the
//! producer publishes, polls on, or opens its session anew.

use vstd::prelude::*;
use crate::error::HyprvisorError;
use crate::socket::{Retry, RetryStep, RetryView};
use crate::text::same_text;

verus! {

/// Milliseconds between two samples.
pub const POLLING_INTERVAL: u64 = 500;

/// Milliseconds between two attempts to open the session.
pub const REBOOT_IWD_DELAY: u64 = 2500;

/// Attempts to open the session before the producer stops.
pub const MAX_ATTEMPT_RETRY: u32 = 10;

#[derive(Clone, Copy, Debug, PartialEq, Eq, Structural)]
pub enum WifiState {
    Disabled,
    Disconnected,
    Connecting,
    Connected,
    Unknown,
}

impl Default for WifiState {
    fn default() -> (state: WifiState)
        ensures
            state == WifiState::Unknown,
    {
        WifiState::Unknown
    }
}

/// The state that the backend's word for it stands for.
pub open spec fn spec_wifi_state(value: Seq<char>) -> WifiState {
    if value == "disabled"@ {
        WifiState::Disabled
    } else if value == "disconnected"@ {
        WifiState::Disconnected
    } else if value == "connecting"@ {
        WifiState::Connecting
    } else if value == "connected"@ {
        WifiState::Connected
    } else {
        WifiState::Unknown
    }
}

/// The four words of the backend are four different words, so that each
/// stands for its own state.
pub proof fn lemma_state_names_differ()
    ensures
        spec_wifi_state("disabled"@) == WifiState::Disabled,
        spec_wifi_state("disconnected"@) == WifiState::Disconnected,
        spec_wifi_state("connecting"@) == WifiState::Connecting,
        spec_wifi_state("connected"@) == WifiState::Connected,
        forall|value: Seq<char>|
            spec_wifi_state(value) == WifiState::Connected <==> value == "connected"@,
{
    reveal_strlit("disabled");
    reveal_strlit("disconnected");
    reveal_strlit("connecting");
    reveal_strlit("connected");
    assert("disabled"@.len() == 8);
    assert("disconnected"@.len() == 12);
    assert("connecting"@.len() == 10);
    assert("connected"@.len() == 9);
}

/// The icon shown for a state.
pub open spec fn spec_wifi_icon(state: WifiState) -> Seq<char> {
    match state {
        WifiState::Unknown => "\u{f16b5}"@,
        WifiState::Disabled => "\u{f05aa}"@,
        WifiState::Connected => "\u{f05a9}"@,
        WifiState::Connecting => "\u{f16c7}"@,
        WifiState::Disconnected => "\u{f16c5}"@,
    }
}

impl<'a> From<&'a str> for WifiState {
    fn from(value: &'a str) -> (state: WifiState) {
        if same_text(value, "disabled") {
            WifiState::Disabled
        } else if same_text(value, "disconnected") {
            WifiState::Disconnected
        } else if same_text(value, "connecting") {
            WifiState::Connecting
        } else if same_text(value, "connected") {
            WifiState::Connected
        } else {
            WifiState::Unknown
        }
    }
}

impl<'a> vstd::std_specs::convert::FromSpecImpl<&'a str> for WifiState {
    open spec fn obeys_from_spec() -> bool {
        true
    }

    open spec fn from_spec(value: &'a str) -> WifiState {
        spec_wifi_state(value@)
    }
}

/// A Wi-Fi snapshot as a mathematical value.
pub struct WifiView {
    pub state: WifiState,
    pub ssid: Seq<char>,
    pub icon: Seq<char>,
}

#[derive(Debug)]
pub struct WifiInfo {
    pub state: WifiState,
    pub ssid: String,
    pub icon: String,
}

impl View for WifiInfo {
    type V = WifiView;

    open spec fn view(&self) -> WifiView {
        WifiView { state: self.state, ssid: self.ssid@, icon: self.icon@ }
    }
}

impl Clone for WifiInfo {
    fn clone(&self) -> (copy: WifiInfo)
        ensures
            copy@ == self@,
    {
        WifiInfo { state: self.state, ssid: self.ssid.clone(), icon: self.icon.clone() }
    }
}

impl Default for WifiInfo {
    fn default() -> (info: WifiInfo)
        ensures
            info@ == (WifiView {
                state: WifiState::Unknown,
                ssid: Seq::<char>::empty(),
                icon: Seq::<char>::empty(),
            }),
    {
        WifiInfo { state: WifiState::Unknown, ssid: String::new(), icon: String::new() }
    }
}

impl PartialEq for WifiInfo {
    fn eq(&self, other: &WifiInfo) -> (same: bool) {
        self.state == other.state && self.ssid == other.ssid && self.icon == other.icon
    }
}

impl vstd::std_specs::cmp::PartialEqSpecImpl for WifiInfo {
    open spec fn obeys_eq_spec() -> bool {
        true
    }

    open spec fn eq_spec(&self, other: &WifiInfo) -> bool {
        self.state == other.state && self.ssid@ == other.ssid@ && self.icon@ == other.icon@
    }
}

impl Eq for WifiInfo {

}

/// The snapshot that a sample amounts to. `state` is the backend's word for
/// the state, or nothing where the backend did not answer: then Wi-Fi counts
/// as disabled. `ssid` is the name of the connected network, or nothing
/// where it could not be had. The snapshot names a network only when the
/// state is connected.
pub open spec fn spec_sample(state: Option<Seq<char>>, ssid: Option<Seq<char>>) -> WifiView {
    match state {
        Some(value) => WifiView {
            state: spec_wifi_state(value),
            ssid: if value == "connected"@ && ssid is Some {
                ssid.unwrap()
            } else {
                Seq::empty()
            },
            icon: spec_wifi_icon(spec_wifi_state(value)),
        },
        None => WifiView {
            state: WifiState::Disabled,
            ssid: Seq::empty(),
            icon: spec_wifi_icon(WifiState::Disabled),
        },
    }
}

impl WifiInfo {
    /// The icon shown for `state`.
    pub fn get_wifi_icon(state: WifiState) -> (icon: String)
        ensures
            icon@ == spec_wifi_icon(state),
    {
        match state {
            WifiState::Unknown => "\u{f16b5}".to_owned(),
            WifiState::Disabled => "\u{f05aa}".to_owned(),
            WifiState::Connected => "\u{f05a9}".to_owned(),
            WifiState::Connecting => "\u{f16c7}".to_owned(),
            WifiState::Disconnected => "\u{f16c5}".to_owned(),
        }
    }

    /// Whether the name of the connected network has to be asked for.
    pub fn wants_ssid(state: &str) -> (wanted: bool)
        ensures
            wanted == (state@ == "connected"@),
    {
        same_text(state, "connected")
    }

    /// Builds the snapshot from a sample of the radio.
    pub fn sample(state: Option<&str>, ssid: Option<String>) -> (info: WifiInfo)
        ensures
            info@.state != WifiState::Connected ==> info@.ssid == Seq::<char>::empty(),
            info@.icon == spec_wifi_icon(info@.state),
            info@ == spec_sample(
                match state {
                    Some(value) => Some(value@),
                    None => None,
                },
                match ssid {
                    Some(name) => Some(name@),
                    None => None,
                },
            ),
    {
        proof {
            lemma_state_names_differ();
        }
        match state {
            Some(value) => {
                let wifi_state = WifiState::from(value);
                let name = match ssid {
                    Some(name) => if same_text(value, "connected") {
                        name
                    } else {
                        String::new()
                    },
                    None => String::new(),
                };
                WifiInfo { state: wifi_state, ssid: name, icon: WifiInfo::get_wifi_icon(wifi_state) }
            },
            None => WifiInfo {
                state: WifiState::Disabled,
                ssid: String::new(),
                icon: WifiInfo::get_wifi_icon(WifiState::Disabled),
            },
        }
    }
}

/// What the producer does with a snapshot.
#[derive(Clone, Copy, Debug, PartialEq, Eq, Structural)]
pub struct WifiStep {
    /// Send the snapshot to the subscribers.
    pub publish: bool,
    /// Sample again after the polling interval; else leave the session.
    pub keep_polling: bool,
}

/// How an attempt to open the session went.
#[derive(Clone, Copy, Debug, PartialEq, Eq, Structural)]
pub enum WifiProbe {
    NoSession,
    NoDevice,
    ModeUnavailable,
    /// The device is in another mode than station mode.
    WrongMode,
    NoStation,
    /// The station is at hand and can be polled.
    Ready,
}

/// Why a session ended.
#[derive(Clone, Copy, Debug, PartialEq, Eq, Structural)]
pub enum SessionEnd {
    /// The radio or its backend failed: worth another attempt.
    RadioFault,
    /// The device does not work as a station: another attempt will not help.
    UnsupportedMode,
}

/// What a probe amounts to: only a device in another mode is no radio fault.
pub open spec fn spec_judge_probe(probe: WifiProbe) -> Result<(), SessionEnd> {
    match probe {
        WifiProbe::Ready => Ok(()),
        WifiProbe::WrongMode => Err(SessionEnd::UnsupportedMode),
        _ => Err(SessionEnd::RadioFault),
    }
}

/// Tells whether polling can start after an attempt to open the session.
pub fn judge_probe(probe: WifiProbe) -> (result: Result<(), SessionEnd>)
    ensures
        result == spec_judge_probe(probe),
{
    match probe {
        WifiProbe::Ready => Ok(()),
        WifiProbe::WrongMode => Err(SessionEnd::UnsupportedMode),
        _ => Err(SessionEnd::RadioFault),
    }
}

/// The last snapshot that was published.
#[derive(Debug)]
pub struct WifiListener {
    pub current_wifi: WifiInfo,
}

impl View for WifiListener {
    type V = WifiView;

    open spec fn view(&self) -> WifiView {
        self.current_wifi@
    }
}

impl WifiListener {
    pub fn new() -> (listener: WifiListener)
        ensures
            listener@ == (WifiView {
                state: WifiState::Unknown,
                ssid: Seq::<char>::empty(),
                icon: Seq::<char>::empty(),
            }),
    {
        WifiListener { current_wifi: WifiInfo::default() }
    }

    /// The schedule of the attempts to open the session.
    pub fn reconnect_schedule() -> (retry: Retry)
        ensures
            retry@ == (RetryView {
                max_attempt: MAX_ATTEMPT_RETRY,
                delay: Some(REBOOT_IWD_DELAY),
                made: 0,
                waited: 0,
            }),
    {
        Retry::new(MAX_ATTEMPT_RETRY, Some(REBOOT_IWD_DELAY))
    }

    /// Takes note of a snapshot. It is published when it differs from the
    /// one published last, and polling goes on unless it says that Wi-Fi is
    /// disabled.
    pub fn handle_wifi_info(&mut self, info: WifiInfo) -> (step: WifiStep)
        ensures
            step.publish == (old(self)@ != info@),
            step.keep_polling == (info@.state != WifiState::Disabled),
            final(self)@ == info@,
    {
        let keep_polling = match info.state {
            WifiState::Disabled => false,
            _ => true,
        };
        if self.current_wifi == info {
            return WifiStep { publish: false, keep_polling };
        }
        self.current_wifi = info;
        WifiStep { publish: true, keep_polling }
    }

    /// Tells what to do when a session has ended: after a radio fault the
    /// schedule goes on, and a device that is no station ends it at once.
    pub fn after_session(end: SessionEnd, retry: &mut Retry) -> (step: RetryStep)
        ensures
            step == match end {
                SessionEnd::RadioFault => old(retry)@.step(),
                SessionEnd::UnsupportedMode => RetryStep::GiveUp,
            },
            final(retry)@ == match end {
                SessionEnd::RadioFault => old(retry)@.advance(),
                SessionEnd::UnsupportedMode => old(retry)@,
            },
    {
        match end {
            SessionEnd::RadioFault => retry.next(),
            SessionEnd::UnsupportedMode => RetryStep::GiveUp,
        }
    }
}

} // verus!
