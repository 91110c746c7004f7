//! The commands that the rule engines issue, as data.
//!
//! A command names tables, chains, matches and targets by what they are. The
//! two names that differ from host to host, the virtual interface and the
//! exempt address set, are referred to symbolically and filled in when the
//! command is rendered.

use vstd::prelude::*;

verus! {

/// A table of the packet filter.
#[derive(Clone, Copy, Debug, PartialEq, Eq, Structural)]
pub enum Table {
    Nat,
    Mangle,
}

/// One of the two chains this tool owns.
#[derive(Clone, Copy, Debug, PartialEq, Eq, Structural)]
pub enum Chain {
    /// `CLASH`: traffic that leaves the host itself.
    Clash,
    /// `CLASH_EXTERNAL`: traffic that the host forwards.
    ClashExternal,
}

/// A built-in chain into which an owned chain is hooked.
#[derive(Clone, Copy, Debug, PartialEq, Eq, Structural)]
pub enum Builtin {
    Output,
    Prerouting,
}

/// An IPv4 address.
#[derive(Clone, Copy, Debug, PartialEq, Eq, Structural)]
pub struct Ipv4 {
    pub a: u8,
    pub b: u8,
    pub c: u8,
    pub d: u8,
}

/// An IPv4 network in CIDR notation.
#[derive(Clone, Copy, Debug, PartialEq, Eq, Structural)]
pub struct Network {
    pub addr: Ipv4,
    pub prefix: u8,
}

/// Which packets a rule applies to.
#[derive(Clone, Copy, Debug, PartialEq, Eq, Structural)]
pub enum Matcher {
    /// Every packet.
    Any,
    /// Packets whose destination lies in the exempt address set.
    LocalDestination,
    /// Packets sent by a process of this user.
    Owner { uid: u32 },
    /// Packets that arrive on the virtual interface.
    FromTun,
    /// TCP packets.
    Tcp,
    /// TCP packets to one destination.
    TcpTo { dest: Ipv4 },
    /// UDP packets.
    Udp,
}

/// What a rule does with the packets it applies to.
#[derive(Clone, Copy, Debug, PartialEq, Eq, Structural)]
pub enum Target {
    /// Leave the chain untouched.
    Return,
    /// Rewrite the destination to a local port.
    Redirect { port: u16 },
    /// Hand over to a local port without rewriting, tagging the packet.
    Tproxy { port: u16, mark: u32 },
    /// Tag the packet for policy routing.
    Mark { mark: u32 },
}

/// The word that introduces the routing table in a policy rule. Both mean the
/// same to the routing tool.
#[derive(Clone, Copy, Debug, PartialEq, Eq, Structural)]
pub enum TableWord {
    Table,
    Lookup,
}

/// A kernel switch that the engines turn off.
#[derive(Clone, Copy, Debug, PartialEq, Eq, Structural)]
pub enum Switch {
    BridgeCallIptables,
    BridgeCallIp6tables,
    BridgeCallArptables,
    /// Reverse-path filtering on the virtual interface.
    TunRpFilter,
    /// Reverse-path filtering on all interfaces.
    AllRpFilter,
}

/// One command for the host.
#[derive(Clone, Copy, Debug, PartialEq, Eq, Structural)]
pub enum Command {
    /// Create the exempt address set, a hash of networks.
    SetCreate,
    /// Add a network to the exempt address set.
    SetAdd { net: Network },
    /// Remove the exempt address set.
    SetDestroy,
    /// Create an owned chain.
    ChainNew { table: Table, chain: Chain },
    /// Empty an owned chain.
    ChainFlush { table: Table, chain: Chain },
    /// Remove an owned chain.
    ChainDelete { table: Table, chain: Chain },
    /// Append a rule to an owned chain.
    Append { table: Table, chain: Chain, matcher: Matcher, target: Target },
    /// Send the packets of a built-in chain through an owned chain.
    Hook { table: Table, from: Builtin, chain: Chain },
    /// Undo a `Hook`.
    Unhook { table: Table, from: Builtin, chain: Chain },
    /// Route packets that carry `mark` by the routing table `table_id`.
    MarkRuleAdd { mark: u32, table_id: u32, word: TableWord },
    /// Undo a `MarkRuleAdd`.
    MarkRuleDelete { mark: u32, table_id: u32 },
    /// In `table_id`, deliver everything locally through the loopback device.
    LocalRouteAdd { table_id: u32 },
    /// Undo a `LocalRouteAdd`.
    LocalRouteDelete { table_id: u32 },
    /// In `table_id`, send everything to the virtual interface.
    TunRouteReplace { table_id: u32 },
    /// Undo a `TunRouteReplace`.
    TunRouteDelete { table_id: u32 },
    /// Turn a kernel switch off.
    SwitchOff { switch: Switch },
}

/// The public DNS resolvers whose traffic is redirected ahead of the exemption
/// rule.
pub open spec fn spec_dns_resolvers() -> Seq<Ipv4> {
    seq![Ipv4 { a: 8, b: 8, c: 8, d: 8 }, Ipv4 { a: 8, b: 8, c: 4, d: 4 }]
}

/// The loopback, private, link-local, multicast, reserved and shared ranges
/// that are never redirected, in the order in which they enter the set.
pub open spec fn spec_local_networks() -> Seq<Network> {
    seq![
        Network { addr: Ipv4 { a: 0, b: 0, c: 0, d: 0 }, prefix: 8 },
        Network { addr: Ipv4 { a: 127, b: 0, c: 0, d: 0 }, prefix: 8 },
        Network { addr: Ipv4 { a: 10, b: 0, c: 0, d: 0 }, prefix: 8 },
        Network { addr: Ipv4 { a: 169, b: 254, c: 0, d: 0 }, prefix: 16 },
        Network { addr: Ipv4 { a: 192, b: 168, c: 0, d: 0 }, prefix: 16 },
        Network { addr: Ipv4 { a: 224, b: 0, c: 0, d: 0 }, prefix: 4 },
        Network { addr: Ipv4 { a: 240, b: 0, c: 0, d: 0 }, prefix: 4 },
        Network { addr: Ipv4 { a: 172, b: 16, c: 0, d: 0 }, prefix: 12 },
        Network { addr: Ipv4 { a: 100, b: 64, c: 0, d: 0 }, prefix: 10 },
    ]
}

pub fn dns_resolvers() -> (r: Vec<Ipv4>)
    ensures
        r@ == spec_dns_resolvers(),
{
    let mut r: Vec<Ipv4> = Vec::new();
    r.push(Ipv4 { a: 8, b: 8, c: 8, d: 8 });
    r.push(Ipv4 { a: 8, b: 8, c: 4, d: 4 });
    r
}

pub fn local_networks() -> (r: Vec<Network>)
    ensures
        r@ == spec_local_networks(),
{
    let mut r: Vec<Network> = Vec::new();
    r.push(Network { addr: Ipv4 { a: 0, b: 0, c: 0, d: 0 }, prefix: 8 });
    r.push(Network { addr: Ipv4 { a: 127, b: 0, c: 0, d: 0 }, prefix: 8 });
    r.push(Network { addr: Ipv4 { a: 10, b: 0, c: 0, d: 0 }, prefix: 8 });
    r.push(Network { addr: Ipv4 { a: 169, b: 254, c: 0, d: 0 }, prefix: 16 });
    r.push(Network { addr: Ipv4 { a: 192, b: 168, c: 0, d: 0 }, prefix: 16 });
    r.push(Network { addr: Ipv4 { a: 224, b: 0, c: 0, d: 0 }, prefix: 4 });
    r.push(Network { addr: Ipv4 { a: 240, b: 0, c: 0, d: 0 }, prefix: 4 });
    r.push(Network { addr: Ipv4 { a: 172, b: 16, c: 0, d: 0 }, prefix: 12 });
    r.push(Network { addr: Ipv4 { a: 100, b: 64, c: 0, d: 0 }, prefix: 10 });
    r
}

} // verus!
