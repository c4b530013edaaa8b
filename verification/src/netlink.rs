//! The state of the network links, as the kernel reports it.

use vstd::prelude::*;

verus! {

/// What the kernel reports of a wired interface.
#[derive(Debug, Clone, Copy)]
pub struct NlWiredData {
    pub is_carrying: bool,
    pub is_operational: bool,
    pub has_ip: bool,
}

#[derive(Debug)]
pub enum WirelessState {
    Disconnected,
    Connected(WirelessData),
}

#[derive(Debug, Clone, Copy, PartialEq, Eq)]
pub enum WiredState {
    Disconnected,
    NotPlugged,
    Connected,
}

#[derive(Debug)]
pub struct WirelessData {
    pub essid: Option<String>,
    pub signal: Option<i32>,
}

/// The state of a wired interface: connected where the link carries,
/// is operational and has an address; disconnected where it only
/// carries; else not plugged.
pub open spec fn wired_state_of(data: NlWiredData) -> WiredState {
    if data.is_carrying && data.is_operational && data.has_ip {
        WiredState::Connected
    } else if data.is_carrying {
        WiredState::Disconnected
    } else {
        WiredState::NotPlugged
    }
}

/// The state of a wired interface, from what the kernel reports of it.
pub fn wired_state(data: &NlWiredData) -> (r: WiredState)
    ensures
        r == wired_state_of(*data),
{
    if data.is_carrying && data.is_operational && data.has_ip {
        WiredState::Connected
    } else if data.is_carrying {
        WiredState::Disconnected
    } else {
        WiredState::NotPlugged
    }
}

/// The signal strength that the kernel reports, where `-1` stands for
/// none.
pub open spec fn signal_of(signal: i32) -> Option<i32> {
    if signal == -1 {
        None
    } else {
        Some(signal)
    }
}

/// The state of a wireless interface, from the signal strength that
/// the kernel reports (`-1` for none) and the name of the network:
/// disconnected where there is neither.
pub fn wireless_state(signal: i32, essid: Option<String>) -> (r: WirelessState)
    ensures
        signal == -1 && essid is None ==> r is Disconnected,
        !(signal == -1 && essid is None) ==> r == WirelessState::Connected(
            WirelessData { essid, signal: signal_of(signal) },
        ),
{
    let signal = if signal == -1 {
        None
    } else {
        Some(signal)
    };
    if signal.is_none() && essid.is_none() {
        WirelessState::Disconnected
    } else {
        WirelessState::Connected(WirelessData { signal, essid })
    }
}

} // verus!
