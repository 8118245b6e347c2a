use vstd::prelude::*;

verus! {

/// The icon of a wireless network for its signal strength (in percent):
/// strong above 60, weak above 20, none otherwise.
pub fn wifi_icon(signal: u32) -> (r: &'static str)
    ensures
        signal > 60 ==> r@ == "wifi-high.svg"@,
        20 < signal <= 60 ==> r@ == "wifi-low.svg"@,
        signal <= 20 ==> r@ == "wifi-zero.svg"@,
{
    if signal > 60 {
        "wifi-high.svg"
    } else if signal > 20 {
        "wifi-low.svg"
    } else {
        "wifi-zero.svg"
    }
}

/// What a click on a wireless network does.
#[derive(Clone, Copy, Debug, PartialEq, Eq, Structural)]
pub enum WifiClick {
    Disconnect,
    /// Connect without asking for a password.
    Connect,
    /// Select the network and ask for its password.
    AskPassword,
}

/// The connected network is left; a saved or open one is joined at once;
/// any other asks for its password.
pub fn wifi_click(connected: bool, saved: bool, secured: bool) -> (r: WifiClick)
    ensures
        r == if connected {
            WifiClick::Disconnect
        } else if saved || !secured {
            WifiClick::Connect
        } else {
            WifiClick::AskPassword
        },
{
    if connected {
        WifiClick::Disconnect
    } else if saved || !secured {
        WifiClick::Connect
    } else {
        WifiClick::AskPassword
    }
}

/// The state line of a network or a Bluetooth device.
#[derive(Clone, Copy, Debug, PartialEq, Eq, Structural)]
pub enum LinkState {
    Connecting,
    Connected,
    /// A Bluetooth device paired but not connected.
    Paired,
    Unpaired,
}

/// A connection under way shows first, then a live one, then pairing.
pub fn link_state(connecting: bool, connected: bool, paired: bool) -> (r: LinkState)
    ensures
        r == if connecting {
            LinkState::Connecting
        } else if connected {
            LinkState::Connected
        } else if paired {
            LinkState::Paired
        } else {
            LinkState::Unpaired
        },
{
    if connecting {
        LinkState::Connecting
    } else if connected {
        LinkState::Connected
    } else if paired {
        LinkState::Paired
    } else {
        LinkState::Unpaired
    }
}

/// Whether the connection under way (if any) is to `id`.
pub fn is_target(under_way: &Option<String>, id: &String) -> (r: bool)
    ensures
        r == (under_way matches Some(t) && t@ == id@),
{
    match under_way {
        Some(t) => *t == *id,
        None => false,
    }
}

/// The name a Bluetooth device is listed under: its own, or its address
/// when it has none.
pub fn device_label(name: &String, mac: &String) -> (r: String)
    ensures
        r@ == if name@.len() == 0 {
            mac@
        } else {
            name@
        },
{
    if name.as_str().unicode_len() == 0 {
        mac.clone()
    } else {
        name.clone()
    }
}

} // verus!
