//! Finding peers on the local network: the settings of a search, and what
//! it decides without touching the network.

use vstd::prelude::*;

verus! {

/// The version of the Internet Protocol to search on.
#[derive(Debug, Clone, Copy, PartialEq, Eq, Structural)]
pub enum IPVersion {
    V4,
    V6,
}

/// A search for peers.
pub struct PeerDiscovery {
    pub settings: Settings,
}

/// A peer that was found: its address, without the port, and what it sent.
pub struct Discovered {
    pub address: String,
    pub payload: Vec<u8>,
}

/// The settings of a search. `delay` is the time between two broadcasts, in
/// milliseconds; `time_limit` the time to search, in seconds, and no limit
/// where it is not positive.
pub struct Settings {
    pub port: u16,
    pub multicast_address: String,
    pub payload: Vec<u8>,
    pub delay: u64,
    pub time_limit: i64,
    pub disable_broadcast: bool,
    pub ip_version: IPVersion,
}

/// What can be seen of the settings.
pub struct SettingsView {
    pub port: u16,
    pub multicast_address: Seq<char>,
    pub payload: Seq<u8>,
    pub delay: u64,
    pub time_limit: i64,
    pub disable_broadcast: bool,
    pub ip_version: IPVersion,
}

impl View for Settings {
    type V = SettingsView;

    open spec fn view(&self) -> SettingsView {
        SettingsView {
            port: self.port,
            multicast_address: self.multicast_address@,
            payload: self.payload@,
            delay: self.delay,
            time_limit: self.time_limit,
            disable_broadcast: self.disable_broadcast,
            ip_version: self.ip_version,
        }
    }
}

/// The settings of a search where none are given: port 9999, no address, no
/// payload, a broadcast each second for ten seconds, over IPv4.
pub open spec fn default_settings() -> SettingsView {
    SettingsView {
        port: 9999,
        multicast_address: Seq::<char>::empty(),
        payload: Seq::<u8>::empty(),
        delay: 1000,
        time_limit: 10,
        disable_broadcast: false,
        ip_version: IPVersion::V4,
    }
}

impl Default for Settings {
    fn default() -> (s: Settings)
        ensures
            s@ == default_settings(),
    {
        Settings {
            multicast_address: String::new(),
            port: 9999,
            payload: Vec::new(),
            delay: 1000,
            time_limit: 10,
            disable_broadcast: false,
            ip_version: IPVersion::V4,
        }
    }
}

/// A search with the first of the settings given, or with the default ones
/// where none are given.
pub fn new_peer_discovery(settings: &[Settings]) -> (p: PeerDiscovery)
    ensures
        p.settings@ == if settings@.len() == 0 {
            default_settings()
        } else {
            settings@[0]@
        },
{
    if settings.len() == 0 {
        PeerDiscovery { settings: Settings::default() }
    } else {
        let first = &settings[0];
        PeerDiscovery {
            settings: Settings {
                multicast_address: first.multicast_address.clone(),
                port: first.port,
                payload: first.payload.clone(),
                delay: first.delay,
                time_limit: first.time_limit,
                disable_broadcast: first.disable_broadcast,
                ip_version: first.ip_version,
            },
        }
    }
}

/// Whether a search that has run for `elapsed` milliseconds is over: it is
/// where it has a limit and has run for longer.
pub fn time_is_up(time_limit: i64, elapsed: u64) -> (over: bool)
    ensures
        over == (time_limit > 0 && elapsed > time_limit * 1000),
{
    time_limit > 0 && elapsed / 1000 >= time_limit as u64 && (elapsed / 1000 > time_limit as u64
        || elapsed % 1000 > 0)
}

/// What a search reads of a network interface.
#[derive(Debug, Clone, Copy, PartialEq, Eq, Structural)]
pub struct Interface {
    /// The number by which the system knows the interface.
    pub index: u32,
    pub up: bool,
    pub loopback: bool,
    pub multicast: bool,
    /// Whether one of its addresses is an IPv4 address.
    pub has_ipv4: bool,
    /// Whether one of its addresses is an IPv6 address.
    pub has_ipv6: bool,
}

/// Whether a search over IPv4, or over IPv6, can use `interface`: it is up,
/// or a loopback, or takes multicast, and has an address of that version.
pub open spec fn usable(interface: Interface, use_ipv4: bool) -> bool {
    (interface.up || interface.loopback || interface.multicast) && if use_ipv4 {
        interface.has_ipv4
    } else {
        interface.has_ipv6
    }
}

/// The interfaces that a search can use, in the order given.
pub fn filter_interfaces(interfaces: &[Interface], use_ipv4: bool) -> (kept: Vec<Interface>)
    ensures
        kept@ == interfaces@.filter(|x: Interface| usable(x, use_ipv4)),
{
    let mut kept: Vec<Interface> = Vec::new();
    let mut i: usize = 0;
    assert(interfaces@.subrange(0, 0).filter(|x: Interface| usable(x, use_ipv4)) =~= Seq::<
        Interface,
    >::empty()) by {
        reveal(Seq::filter);
    }
    while i < interfaces.len()
        invariant
            i <= interfaces@.len(),
            kept@ == interfaces@.subrange(0, i as int).filter(|x: Interface| usable(x, use_ipv4)),
        decreases interfaces@.len() - i,
    {
        let x: Interface = interfaces[i];
        proof {
            reveal(Seq::filter);
            assert(interfaces@.subrange(0, i + 1).drop_last() =~= interfaces@.subrange(
                0,
                i as int,
            ));
        }
        let fits: bool = if use_ipv4 {
            x.has_ipv4
        } else {
            x.has_ipv6
        };
        if (x.up || x.loopback || x.multicast) && fits {
            kept.push(x);
        }
        i += 1;
    }
    assert(interfaces@.subrange(0, i as int) =~= interfaces@);
    kept
}

} // verus!
