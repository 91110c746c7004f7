//! The proxy's configuration: the listening ports it declares and the capture
//! strategy it asks for.

use vstd::prelude::*;

verus! {

/// The value a field takes when two sources are merged: the first where it is
/// present, else the second.
pub open spec fn or_else<T>(first: Option<T>, second: Option<T>) -> Option<T> {
    if first is Some {
        first
    } else {
        second
    }
}

/// Fills `slot` from `other` unless it already holds a value.
pub fn fill_if_none<T>(slot: &mut Option<T>, other: Option<T>)
    ensures
        *final(slot) == or_else(*old(slot), other),
{
    if slot.is_none() {
        *slot = other;
    }
}

/// Settings of the virtual network interface.
#[derive(Clone, Copy, Debug, PartialEq, Eq)]
pub struct Tun {
    pub enable: Option<bool>,
}

impl Tun {
    /// `self` with every absent field taken from `other`.
    pub open spec fn merged(self, other: Tun) -> Tun {
        Tun { enable: or_else(self.enable, other.enable) }
    }

    /// Takes from `other` each field that `self` lacks.
    pub fn fill_if_some(&mut self, other: Tun)
        ensures
            *final(self) == old(self).merged(other),
    {
        fill_if_none(&mut self.enable, other.enable);
    }
}

impl Default for Tun {
    fn default() -> (r: Tun)
        ensures
            r == (Tun { enable: None }),
    {
        Tun { enable: None }
    }
}

/// What the proxy was told to listen on. Every field is optional; several ports
/// may be configured at once.
#[derive(Clone, Copy, Debug, PartialEq, Eq)]
pub struct Config {
    pub redir_port: Option<u16>,
    pub port: Option<u16>,
    pub socks_port: Option<u16>,
    pub mixed_port: Option<u16>,
    pub allow_lan: Option<bool>,
    pub tun: Tun,
}

/// The port that a field configures, if it configures one. Port 0 is no port:
/// a field that holds it counts as absent.
pub open spec fn configured(port: Option<u16>) -> Option<u16> {
    match port {
        Some(p) => if p == 0 {
            None
        } else {
            port
        },
        None => None,
    }
}

/// A sequence holding the port that a field configures, if it configures one.
pub open spec fn port_seq(port: Option<u16>) -> Seq<u16> {
    match configured(port) {
        Some(p) => seq![p],
        None => Seq::empty(),
    }
}

/// The port that a field configures, if it configures one.
pub fn configured_port(port: Option<u16>) -> (r: Option<u16>)
    ensures
        r == configured(port),
{
    match port {
        Some(p) => if p == 0 {
            None
        } else {
            port
        },
        None => None,
    }
}

impl Config {
    /// The configuration in which nothing is set.
    pub open spec fn empty() -> Config {
        Config {
            redir_port: None,
            port: None,
            socks_port: None,
            mixed_port: None,
            allow_lan: None,
            tun: Tun { enable: None },
        }
    }

    /// `self` with every absent field taken from `other`.
    pub open spec fn merged(self, other: Config) -> Config {
        Config {
            redir_port: or_else(self.redir_port, other.redir_port),
            port: or_else(self.port, other.port),
            socks_port: or_else(self.socks_port, other.socks_port),
            mixed_port: or_else(self.mixed_port, other.mixed_port),
            allow_lan: or_else(self.allow_lan, other.allow_lan),
            tun: self.tun.merged(other.tun),
        }
    }

    /// Whether the virtual-interface strategy is selected. An absent flag
    /// counts as off.
    pub open spec fn spec_tun_enabled(&self) -> bool {
        self.tun.enable == Some(true)
    }

    /// The configured ports in the order in which they are checked: `port`,
    /// `mixed_port`, `redir_port`, `socks_port`. A field that holds port 0
    /// configures none.
    pub open spec fn spec_ports(&self) -> Seq<u16> {
        port_seq(self.port) + port_seq(self.mixed_port) + port_seq(self.redir_port) + port_seq(
            self.socks_port,
        )
    }

    /// The port by which the proxy's process is looked up: the first that is
    /// configured of `port`, `mixed_port`, `socks_port`, `redir_port`.
    pub open spec fn spec_first_port(&self) -> Option<u16> {
        or_else(
            configured(self.port),
            or_else(
                configured(self.mixed_port),
                or_else(configured(self.socks_port), configured(self.redir_port)),
            ),
        )
    }

    /// Takes from `other` each field that `self` lacks; a field that `self`
    /// holds is kept.
    pub fn fill_if_some(&mut self, other: Config)
        ensures
            *final(self) == old(self).merged(other),
    {
        fill_if_none(&mut self.redir_port, other.redir_port);
        fill_if_none(&mut self.port, other.port);
        fill_if_none(&mut self.socks_port, other.socks_port);
        fill_if_none(&mut self.mixed_port, other.mixed_port);
        fill_if_none(&mut self.allow_lan, other.allow_lan);
        self.tun.fill_if_some(other.tun);
    }

    /// Whether the virtual-interface strategy is selected.
    #[verifier::when_used_as_spec(spec_tun_enabled)]
    pub fn tun_enabled(&self) -> (r: bool)
        ensures
            r == self.spec_tun_enabled(),
    {
        match self.tun.enable {
            Some(on) => on,
            None => false,
        }
    }

    /// The configured ports in the order in which they are checked.
    pub fn ports(&self) -> (r: Vec<u16>)
        ensures
            r@ == self.spec_ports(),
    {
        let mut r: Vec<u16> = Vec::new();
        if let Some(p) = configured_port(self.port) {
            r.push(p);
        }
        if let Some(p) = configured_port(self.mixed_port) {
            r.push(p);
        }
        if let Some(p) = configured_port(self.redir_port) {
            r.push(p);
        }
        if let Some(p) = configured_port(self.socks_port) {
            r.push(p);
        }
        r
    }

    /// The port by which the proxy's process is looked up.
    pub fn first_port(&self) -> (r: Option<u16>)
        ensures
            r == self.spec_first_port(),
    {
        let port = configured_port(self.port);
        let mixed = configured_port(self.mixed_port);
        let socks = configured_port(self.socks_port);
        if port.is_some() {
            port
        } else if mixed.is_some() {
            mixed
        } else if socks.is_some() {
            socks
        } else {
            configured_port(self.redir_port)
        }
    }

    /// Whether nothing at all is set.
    pub fn is_empty(&self) -> (r: bool)
        ensures
            r == (*self == Config::empty()),
    {
        self.redir_port.is_none() && self.port.is_none() && self.socks_port.is_none()
            && self.mixed_port.is_none() && self.allow_lan.is_none() && self.tun.enable.is_none()
    }
}

impl Default for Config {
    fn default() -> (r: Config)
        ensures
            r == Config::empty(),
    {
        Config {
            redir_port: None,
            port: None,
            socks_port: None,
            mixed_port: None,
            allow_lan: None,
            tun: Tun { enable: None },
        }
    }
}

/// Each port that a field configures is among the configured ports, and the
/// first of them is that of the first field that configures one.
pub proof fn lemma_ports_configured(config: Config)
    ensures
        configured(config.port) matches Some(p) ==> config.spec_ports().contains(p),
        configured(config.mixed_port) matches Some(p) ==> config.spec_ports().contains(p),
        configured(config.redir_port) matches Some(p) ==> config.spec_ports().contains(p),
        configured(config.socks_port) matches Some(p) ==> config.spec_ports().contains(p),
        config.spec_ports().len() > 0 ==> Some(config.spec_ports()[0]) == or_else(
            configured(config.port),
            or_else(
                configured(config.mixed_port),
                or_else(configured(config.redir_port), configured(config.socks_port)),
            ),
        ),
        config.spec_ports().len() == 0 <==> (configured(config.port) is None && configured(
            config.mixed_port,
        ) is None && configured(config.redir_port) is None && configured(config.socks_port)
            is None),
{
    let ports = config.spec_ports();
    let a = port_seq(config.port);
    let b = port_seq(config.mixed_port);
    let c = port_seq(config.redir_port);
    let d = port_seq(config.socks_port);
    assert(ports == a + b + c + d);
    if let Some(p) = configured(config.port) {
        assert(ports[0] == p);
    }
    if let Some(p) = configured(config.mixed_port) {
        assert(ports[a.len() as int] == p);
    }
    if let Some(p) = configured(config.redir_port) {
        assert(ports[(a.len() + b.len()) as int] == p);
    }
    if let Some(p) = configured(config.socks_port) {
        assert(ports[(a.len() + b.len() + c.len()) as int] == p);
    }
}

} // verus!
