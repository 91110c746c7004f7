//! Commands as the words handed to the host's tools.
//!
//! Each command becomes an argument vector: the tool's name first, then its
//! arguments, one word each. Nothing is quoted or joined, so a name with a
//! space in it stays one argument.

use super::command::{Builtin, Chain, Command, Ipv4, Matcher, Network, Switch, Table, TableWord, Target};
use vstd::prelude::*;

verus! {

/// The character of one decimal digit.
pub open spec fn digit(d: nat) -> char {
    if d == 0 {
        '0'
    } else if d == 1 {
        '1'
    } else if d == 2 {
        '2'
    } else if d == 3 {
        '3'
    } else if d == 4 {
        '4'
    } else if d == 5 {
        '5'
    } else if d == 6 {
        '6'
    } else if d == 7 {
        '7'
    } else if d == 8 {
        '8'
    } else {
        '9'
    }
}

/// A number in decimal, without sign or leading zeros.
pub open spec fn decimal(n: nat) -> Seq<char>
    decreases n,
{
    if n < 10 {
        seq![digit(n)]
    } else {
        decimal(n / 10).push(digit(n % 10))
    }
}

fn digit_str(d: u32) -> (r: &'static str)
    requires
        d < 10,
    ensures
        r@ == seq![digit(d as nat)],
{
    proof {
        reveal_strlit("0");
        reveal_strlit("1");
        reveal_strlit("2");
        reveal_strlit("3");
        reveal_strlit("4");
        reveal_strlit("5");
        reveal_strlit("6");
        reveal_strlit("7");
        reveal_strlit("8");
        reveal_strlit("9");
    }
    let r = if d == 0 {
        "0"
    } else if d == 1 {
        "1"
    } else if d == 2 {
        "2"
    } else if d == 3 {
        "3"
    } else if d == 4 {
        "4"
    } else if d == 5 {
        "5"
    } else if d == 6 {
        "6"
    } else if d == 7 {
        "7"
    } else if d == 8 {
        "8"
    } else {
        "9"
    };
    assert(r@ =~= seq![digit(d as nat)]);
    r
}

/// Writes a number in decimal.
pub fn decimal_string(n: u32) -> (r: String)
    ensures
        r@ == decimal(n as nat),
    decreases n,
{
    if n < 10 {
        String::from_str(digit_str(n))
    } else {
        let mut r = decimal_string(n / 10);
        r.append(digit_str(n % 10));
        assert(r@ =~= decimal(n as nat));
        r
    }
}

/// An address in dotted notation.
pub open spec fn ipv4_text(ip: Ipv4) -> Seq<char> {
    decimal(ip.a as nat) + "."@ + decimal(ip.b as nat) + "."@ + decimal(ip.c as nat) + "."@
        + decimal(ip.d as nat)
}

/// A network as address, slash and prefix length.
pub open spec fn network_text(net: Network) -> Seq<char> {
    ipv4_text(net.addr) + "/"@ + decimal(net.prefix as nat)
}

pub fn ipv4_string(ip: Ipv4) -> (r: String)
    ensures
        r@ == ipv4_text(ip),
{
    let mut r = decimal_string(ip.a as u32);
    r.append(".");
    r.append(decimal_string(ip.b as u32).as_str());
    r.append(".");
    r.append(decimal_string(ip.c as u32).as_str());
    r.append(".");
    r.append(decimal_string(ip.d as u32).as_str());
    r
}

pub fn network_string(net: Network) -> (r: String)
    ensures
        r@ == network_text(net),
{
    let mut r = ipv4_string(net.addr);
    r.append("/");
    r.append(decimal_string(net.prefix as u32).as_str());
    r
}

pub open spec fn table_name(table: Table) -> Seq<char> {
    match table {
        Table::Nat => "nat"@,
        Table::Mangle => "mangle"@,
    }
}

pub open spec fn chain_name(chain: Chain) -> Seq<char> {
    match chain {
        Chain::Clash => "CLASH"@,
        Chain::ClashExternal => "CLASH_EXTERNAL"@,
    }
}

pub open spec fn builtin_name(chain: Builtin) -> Seq<char> {
    match chain {
        Builtin::Output => "OUTPUT"@,
        Builtin::Prerouting => "PREROUTING"@,
    }
}

pub open spec fn table_word(word: TableWord) -> Seq<char> {
    match word {
        TableWord::Table => "table"@,
        TableWord::Lookup => "lookup"@,
    }
}

/// The assignment that turns a switch off. `tun` is the virtual interface's
/// name.
pub open spec fn switch_text(switch: Switch, tun: Seq<char>) -> Seq<char> {
    match switch {
        Switch::BridgeCallIptables => "net.bridge.bridge-nf-call-iptables=0"@,
        Switch::BridgeCallIp6tables => "net.bridge.bridge-nf-call-ip6tables=0"@,
        Switch::BridgeCallArptables => "net.bridge.bridge-nf-call-arptables=0"@,
        Switch::TunRpFilter => "net.ipv4.conf."@ + tun + ".rp_filter=0"@,
        Switch::AllRpFilter => "net.ipv4.conf.all.rp_filter=0"@,
    }
}

/// The words that select the packets of a rule. `tun` is the virtual
/// interface's name, `set` that of the exempt address set.
pub open spec fn matcher_words(matcher: Matcher, tun: Seq<char>, set: Seq<char>) -> Seq<Seq<char>> {
    match matcher {
        Matcher::Any => Seq::empty(),
        Matcher::LocalDestination => seq!["-m"@, "set"@, "--match-set"@, set, "dst"@],
        Matcher::Owner { uid } => seq!["-m"@, "owner"@, "--uid-owner"@, decimal(uid as nat)],
        Matcher::FromTun => seq!["-i"@, tun],
        Matcher::Tcp => seq!["-p"@, "tcp"@],
        Matcher::TcpTo { dest } => seq!["-p"@, "tcp"@, "-d"@, ipv4_text(dest)],
        Matcher::Udp => seq!["-p"@, "udp"@],
    }
}

/// The words that say what a rule does.
pub open spec fn target_words(target: Target) -> Seq<Seq<char>> {
    match target {
        Target::Return => seq!["-j"@, "RETURN"@],
        Target::Redirect { port } => seq!["-j"@, "REDIRECT"@, "--to-port"@, decimal(port as nat)],
        Target::Tproxy { port, mark } => seq![
            "-j"@,
            "TPROXY"@,
            "--on-port"@,
            decimal(port as nat),
            "--tproxy-mark"@,
            decimal(mark as nat),
        ],
        Target::Mark { mark } => seq!["-j"@, "MARK"@, "--set-xmark"@, decimal(mark as nat)],
    }
}

/// The argument vector of a command: the tool, then its arguments. `tun` is
/// the virtual interface's name, `set` that of the exempt address set.
pub open spec fn argv(command: Command, tun: Seq<char>, set: Seq<char>) -> Seq<Seq<char>> {
    match command {
        Command::SetCreate => seq!["ipset"@, "create"@, set, "hash:net"@],
        Command::SetAdd { net } => seq!["ipset"@, "add"@, set, network_text(net)],
        Command::SetDestroy => seq!["ipset"@, "destroy"@, set],
        Command::ChainNew { table, chain } => seq![
            "iptables"@,
            "-t"@,
            table_name(table),
            "-N"@,
            chain_name(chain),
        ],
        Command::ChainFlush { table, chain } => seq![
            "iptables"@,
            "-t"@,
            table_name(table),
            "-F"@,
            chain_name(chain),
        ],
        Command::ChainDelete { table, chain } => seq![
            "iptables"@,
            "-t"@,
            table_name(table),
            "-X"@,
            chain_name(chain),
        ],
        Command::Append { table, chain, matcher, target } => seq![
            "iptables"@,
            "-t"@,
            table_name(table),
            "-A"@,
            chain_name(chain),
        ] + matcher_words(matcher, tun, set) + target_words(target),
        Command::Hook { table, from, chain } => seq![
            "iptables"@,
            "-t"@,
            table_name(table),
            "-A"@,
            builtin_name(from),
            "-j"@,
            chain_name(chain),
        ],
        Command::Unhook { table, from, chain } => seq![
            "iptables"@,
            "-t"@,
            table_name(table),
            "-D"@,
            builtin_name(from),
            "-j"@,
            chain_name(chain),
        ],
        Command::MarkRuleAdd { mark, table_id, word } => seq![
            "ip"@,
            "rule"@,
            "add"@,
            "fwmark"@,
            decimal(mark as nat),
            table_word(word),
            decimal(table_id as nat),
        ],
        Command::MarkRuleDelete { mark, table_id } => seq![
            "ip"@,
            "rule"@,
            "del"@,
            "fwmark"@,
            decimal(mark as nat),
            "lookup"@,
            decimal(table_id as nat),
        ],
        Command::LocalRouteAdd { table_id } => seq![
            "ip"@,
            "route"@,
            "add"@,
            "local"@,
            "default"@,
            "dev"@,
            "lo"@,
            "table"@,
            decimal(table_id as nat),
        ],
        Command::LocalRouteDelete { table_id } => seq![
            "ip"@,
            "route"@,
            "del"@,
            "local"@,
            "default"@,
            "dev"@,
            "lo"@,
            "table"@,
            decimal(table_id as nat),
        ],
        Command::TunRouteReplace { table_id } => seq![
            "ip"@,
            "route"@,
            "replace"@,
            "default"@,
            "dev"@,
            tun,
            "table"@,
            decimal(table_id as nat),
        ],
        Command::TunRouteDelete { table_id } => seq![
            "ip"@,
            "route"@,
            "del"@,
            "default"@,
            "dev"@,
            tun,
            "table"@,
            decimal(table_id as nat),
        ],
        Command::SwitchOff { switch } => seq!["sysctl"@, "-w"@, switch_text(switch, tun)],
    }
}

fn push_word(words: &mut Vec<String>, word: &str)
    ensures
        final(words).deep_view() == old(words).deep_view().push(word@),
{
    words.push(String::from_str(word));
    assert(words.deep_view() =~= old(words).deep_view().push(word@));
}

fn push_number(words: &mut Vec<String>, n: u32)
    ensures
        final(words).deep_view() == old(words).deep_view().push(decimal(n as nat)),
{
    words.push(decimal_string(n));
    assert(words.deep_view() =~= old(words).deep_view().push(decimal(n as nat)));
}

fn table_str(table: Table) -> (r: &'static str)
    ensures
        r@ == table_name(table),
{
    match table {
        Table::Nat => "nat",
        Table::Mangle => "mangle",
    }
}

fn chain_str(chain: Chain) -> (r: &'static str)
    ensures
        r@ == chain_name(chain),
{
    match chain {
        Chain::Clash => "CLASH",
        Chain::ClashExternal => "CLASH_EXTERNAL",
    }
}

fn builtin_str(chain: Builtin) -> (r: &'static str)
    ensures
        r@ == builtin_name(chain),
{
    match chain {
        Builtin::Output => "OUTPUT",
        Builtin::Prerouting => "PREROUTING",
    }
}

fn table_word_str(word: TableWord) -> (r: &'static str)
    ensures
        r@ == table_word(word),
{
    match word {
        TableWord::Table => "table",
        TableWord::Lookup => "lookup",
    }
}

fn switch_string(switch: Switch, tun: &str) -> (r: String)
    ensures
        r@ == switch_text(switch, tun@),
{
    match switch {
        Switch::BridgeCallIptables => String::from_str("net.bridge.bridge-nf-call-iptables=0"),
        Switch::BridgeCallIp6tables => String::from_str("net.bridge.bridge-nf-call-ip6tables=0"),
        Switch::BridgeCallArptables => String::from_str("net.bridge.bridge-nf-call-arptables=0"),
        Switch::TunRpFilter => {
            let mut r = String::from_str("net.ipv4.conf.");
            r.append(tun);
            r.append(".rp_filter=0");
            r
        },
        Switch::AllRpFilter => String::from_str("net.ipv4.conf.all.rp_filter=0"),
    }
}

fn push_matcher(words: &mut Vec<String>, matcher: Matcher, tun: &str, set: &str)
    ensures
        final(words).deep_view() == old(words).deep_view() + matcher_words(matcher, tun@, set@),
{
    match matcher {
        Matcher::Any => {},
        Matcher::LocalDestination => {
            push_word(words, "-m");
            push_word(words, "set");
            push_word(words, "--match-set");
            push_word(words, set);
            push_word(words, "dst");
        },
        Matcher::Owner { uid } => {
            push_word(words, "-m");
            push_word(words, "owner");
            push_word(words, "--uid-owner");
            push_number(words, uid);
        },
        Matcher::FromTun => {
            push_word(words, "-i");
            push_word(words, tun);
        },
        Matcher::Tcp => {
            push_word(words, "-p");
            push_word(words, "tcp");
        },
        Matcher::TcpTo { dest } => {
            push_word(words, "-p");
            push_word(words, "tcp");
            push_word(words, "-d");
            push_word(words, ipv4_string(dest).as_str());
        },
        Matcher::Udp => {
            push_word(words, "-p");
            push_word(words, "udp");
        },
    }
    assert(words.deep_view() =~= old(words).deep_view() + matcher_words(matcher, tun@, set@));
}

fn push_target(words: &mut Vec<String>, target: Target)
    ensures
        final(words).deep_view() == old(words).deep_view() + target_words(target),
{
    match target {
        Target::Return => {
            push_word(words, "-j");
            push_word(words, "RETURN");
        },
        Target::Redirect { port } => {
            push_word(words, "-j");
            push_word(words, "REDIRECT");
            push_word(words, "--to-port");
            push_number(words, port as u32);
        },
        Target::Tproxy { port, mark } => {
            push_word(words, "-j");
            push_word(words, "TPROXY");
            push_word(words, "--on-port");
            push_number(words, port as u32);
            push_word(words, "--tproxy-mark");
            push_number(words, mark);
        },
        Target::Mark { mark } => {
            push_word(words, "-j");
            push_word(words, "MARK");
            push_word(words, "--set-xmark");
            push_number(words, mark);
        },
    }
    assert(words.deep_view() =~= old(words).deep_view() + target_words(target));
}

fn chain_command(table: Table, flag: &str, chain: &str) -> (r: Vec<String>)
    ensures
        r.deep_view() == seq!["iptables"@, "-t"@, table_name(table), flag@, chain@],
{
    let mut r: Vec<String> = Vec::new();
    push_word(&mut r, "iptables");
    push_word(&mut r, "-t");
    push_word(&mut r, table_str(table));
    push_word(&mut r, flag);
    push_word(&mut r, chain);
    assert(r.deep_view() =~= seq!["iptables"@, "-t"@, table_name(table), flag@, chain@]);
    r
}

/// Renders a command as the argument vector to execute: the tool, then its
/// arguments. `tun` is the virtual interface's name, `set` that of the exempt
/// address set.
pub fn render(command: &Command, tun: &str, set: &str) -> (r: Vec<String>)
    ensures
        r.deep_view() == argv(*command, tun@, set@),
{
    let mut r: Vec<String> = Vec::new();
    match *command {
        Command::SetCreate => {
            push_word(&mut r, "ipset");
            push_word(&mut r, "create");
            push_word(&mut r, set);
            push_word(&mut r, "hash:net");
        },
        Command::SetAdd { net } => {
            push_word(&mut r, "ipset");
            push_word(&mut r, "add");
            push_word(&mut r, set);
            push_word(&mut r, network_string(net).as_str());
        },
        Command::SetDestroy => {
            push_word(&mut r, "ipset");
            push_word(&mut r, "destroy");
            push_word(&mut r, set);
        },
        Command::ChainNew { table, chain } => {
            r = chain_command(table, "-N", chain_str(chain));
        },
        Command::ChainFlush { table, chain } => {
            r = chain_command(table, "-F", chain_str(chain));
        },
        Command::ChainDelete { table, chain } => {
            r = chain_command(table, "-X", chain_str(chain));
        },
        Command::Append { table, chain, matcher, target } => {
            r = chain_command(table, "-A", chain_str(chain));
            push_matcher(&mut r, matcher, tun, set);
            push_target(&mut r, target);
        },
        Command::Hook { table, from, chain } => {
            r = chain_command(table, "-A", builtin_str(from));
            push_word(&mut r, "-j");
            push_word(&mut r, chain_str(chain));
        },
        Command::Unhook { table, from, chain } => {
            r = chain_command(table, "-D", builtin_str(from));
            push_word(&mut r, "-j");
            push_word(&mut r, chain_str(chain));
        },
        Command::MarkRuleAdd { mark, table_id, word } => {
            push_word(&mut r, "ip");
            push_word(&mut r, "rule");
            push_word(&mut r, "add");
            push_word(&mut r, "fwmark");
            push_number(&mut r, mark);
            push_word(&mut r, table_word_str(word));
            push_number(&mut r, table_id);
        },
        Command::MarkRuleDelete { mark, table_id } => {
            push_word(&mut r, "ip");
            push_word(&mut r, "rule");
            push_word(&mut r, "del");
            push_word(&mut r, "fwmark");
            push_number(&mut r, mark);
            push_word(&mut r, "lookup");
            push_number(&mut r, table_id);
        },
        Command::LocalRouteAdd { table_id } => {
            push_word(&mut r, "ip");
            push_word(&mut r, "route");
            push_word(&mut r, "add");
            push_word(&mut r, "local");
            push_word(&mut r, "default");
            push_word(&mut r, "dev");
            push_word(&mut r, "lo");
            push_word(&mut r, "table");
            push_number(&mut r, table_id);
        },
        Command::LocalRouteDelete { table_id } => {
            push_word(&mut r, "ip");
            push_word(&mut r, "route");
            push_word(&mut r, "del");
            push_word(&mut r, "local");
            push_word(&mut r, "default");
            push_word(&mut r, "dev");
            push_word(&mut r, "lo");
            push_word(&mut r, "table");
            push_number(&mut r, table_id);
        },
        Command::TunRouteReplace { table_id } => {
            push_word(&mut r, "ip");
            push_word(&mut r, "route");
            push_word(&mut r, "replace");
            push_word(&mut r, "default");
            push_word(&mut r, "dev");
            push_word(&mut r, tun);
            push_word(&mut r, "table");
            push_number(&mut r, table_id);
        },
        Command::TunRouteDelete { table_id } => {
            push_word(&mut r, "ip");
            push_word(&mut r, "route");
            push_word(&mut r, "del");
            push_word(&mut r, "default");
            push_word(&mut r, "dev");
            push_word(&mut r, tun);
            push_word(&mut r, "table");
            push_number(&mut r, table_id);
        },
        Command::SwitchOff { switch } => {
            push_word(&mut r, "sysctl");
            push_word(&mut r, "-w");
            push_word(&mut r, switch_string(switch, tun).as_str());
        },
    }
    assert(r.deep_view() =~= argv(*command, tun@, set@));
    r
}

} // verus!
