//! The ordered command sequences of the rule engines.
//!
//! A plan is a sequence of steps. It is laid out in full before anything is
//! run, so what a run will do can be read, compared and reasoned about. The
//! order is part of the contract with the host: within a chain the first rule
//! that applies to a packet decides.

use super::command::{
    spec_dns_resolvers, spec_local_networks, Builtin, Chain, Command, Matcher, Network, Switch,
    Table, TableWord, Target,
};
use vstd::prelude::*;

verus! {

/// What the failure of a step means for the run.
#[derive(Clone, Copy, Debug, PartialEq, Eq, Structural)]
pub enum Policy {
    /// The run stops and reports the step, unless the command found in place
    /// what it was to put there.
    FailFast,
    /// The failure is worth a warning; the run goes on.
    BestEffort,
}

/// One command of a plan and how much depends on it.
#[derive(Clone, Copy, Debug, PartialEq, Eq, Structural)]
pub struct Step {
    pub command: Command,
    pub policy: Policy,
}

/// A rule of an owned chain.
#[derive(Clone, Copy, Debug, PartialEq, Eq, Structural)]
pub struct Rule {
    pub matcher: Matcher,
    pub target: Target,
}

/// The commands as steps that share one policy.
pub open spec fn steps_of(commands: Seq<Command>, policy: Policy) -> Seq<Step> {
    commands.map_values(|command: Command| Step { command, policy })
}

/// The commands of a plan, in order.
pub open spec fn commands_of(steps: Seq<Step>) -> Seq<Command> {
    steps.map_values(|step: Step| step.command)
}

/// The commands that append the rules to an owned chain, in order.
pub open spec fn rule_commands(table: Table, chain: Chain, rules: Seq<Rule>) -> Seq<Command> {
    rules.map_values(
        |rule: Rule| Command::Append { table, chain, matcher: rule.matcher, target: rule.target },
    )
}

/// The commands that set one owned chain up: create it, empty it, append its
/// rules in order, then hook it into a built-in chain.
pub open spec fn chain_setup(table: Table, chain: Chain, rules: Seq<Rule>, from: Builtin) -> Seq<
    Command,
> {
    seq![Command::ChainNew { table, chain }, Command::ChainFlush { table, chain }]
        + rule_commands(table, chain, rules) + seq![Command::Hook { table, from, chain }]
}

/// The commands that take one owned chain down: unhook it from both built-in
/// chains, empty it, remove it.
pub open spec fn chain_teardown(table: Table, chain: Chain) -> Seq<Command> {
    seq![
        Command::Unhook { table, from: Builtin::Output, chain },
        Command::Unhook { table, from: Builtin::Prerouting, chain },
        Command::ChainFlush { table, chain },
        Command::ChainDelete { table, chain },
    ]
}

/// The commands that add the networks to the exempt address set, in order.
pub open spec fn set_adds(nets: Seq<Network>) -> Seq<Command> {
    nets.map_values(|net: Network| Command::SetAdd { net })
}

/// The commands that create the exempt address set and fill it.
pub open spec fn set_setup() -> Seq<Command> {
    seq![Command::SetCreate] + set_adds(spec_local_networks())
}

/// Packet rewriting, traffic of the host itself: local destinations and the
/// proxy's own traffic pass, the remaining TCP is redirected.
pub open spec fn redir_local_rules(uid: u32, port: u16) -> Seq<Rule> {
    seq![
        Rule { matcher: Matcher::LocalDestination, target: Target::Return },
        Rule { matcher: Matcher::Owner { uid }, target: Target::Return },
        Rule { matcher: Matcher::Tcp, target: Target::Redirect { port } },
    ]
}

/// Packet rewriting, forwarded TCP: the public resolvers are redirected first,
/// then local destinations pass, the remaining TCP is redirected.
pub open spec fn redir_forward_rules(port: u16) -> Seq<Rule> {
    seq![
        Rule {
            matcher: Matcher::TcpTo { dest: spec_dns_resolvers()[0] },
            target: Target::Redirect { port },
        },
        Rule {
            matcher: Matcher::TcpTo { dest: spec_dns_resolvers()[1] },
            target: Target::Redirect { port },
        },
        Rule { matcher: Matcher::LocalDestination, target: Target::Return },
        Rule { matcher: Matcher::Tcp, target: Target::Redirect { port } },
    ]
}

/// Packet rewriting, forwarded UDP: local destinations pass, the remaining UDP
/// is handed to the proxy and tagged.
pub open spec fn redir_udp_rules(port: u16, mark: u32) -> Seq<Rule> {
    seq![
        Rule { matcher: Matcher::LocalDestination, target: Target::Return },
        Rule { matcher: Matcher::Udp, target: Target::Tproxy { port, mark } },
    ]
}

/// Marking, traffic of the host itself: the proxy's own traffic and local
/// destinations pass, the rest is tagged.
pub open spec fn tun_local_rules(uid: u32, mark: u32) -> Seq<Rule> {
    seq![
        Rule { matcher: Matcher::Owner { uid }, target: Target::Return },
        Rule { matcher: Matcher::LocalDestination, target: Target::Return },
        Rule { matcher: Matcher::Any, target: Target::Mark { mark } },
    ]
}

/// Marking, forwarded traffic: local destinations and what arrives on the
/// virtual interface pass, the rest is tagged.
pub open spec fn tun_forward_rules(mark: u32) -> Seq<Rule> {
    seq![
        Rule { matcher: Matcher::LocalDestination, target: Target::Return },
        Rule { matcher: Matcher::FromTun, target: Target::Return },
        Rule { matcher: Matcher::Any, target: Target::Mark { mark } },
    ]
}

/// The firewall commands of the packet-rewriting strategy.
pub open spec fn redir_firewall(uid: u32, port: u16, mark: u32) -> Seq<Command> {
    chain_setup(Table::Nat, Chain::Clash, redir_local_rules(uid, port), Builtin::Output)
        + chain_setup(
        Table::Nat,
        Chain::ClashExternal,
        redir_forward_rules(port),
        Builtin::Prerouting,
    ) + chain_setup(
        Table::Mangle,
        Chain::ClashExternal,
        redir_udp_rules(port, mark),
        Builtin::Prerouting,
    )
}

/// The routing commands of the packet-rewriting strategy: tagged packets are
/// routed by `table_id`, which delivers everything locally.
pub open spec fn redir_routing(mark: u32, table_id: u32) -> Seq<Command> {
    seq![
        Command::MarkRuleAdd { mark, table_id, word: TableWord::Table },
        Command::LocalRouteAdd { table_id },
    ]
}

/// The kernel switches that the packet-rewriting strategy turns off, so that
/// bridged traffic is not intercepted as well.
pub open spec fn redir_switches() -> Seq<Command> {
    seq![
        Command::SwitchOff { switch: Switch::BridgeCallIptables },
        Command::SwitchOff { switch: Switch::BridgeCallIp6tables },
        Command::SwitchOff { switch: Switch::BridgeCallArptables },
    ]
}

/// The firewall commands of the marking strategy.
pub open spec fn tun_firewall(uid: u32, mark: u32) -> Seq<Command> {
    chain_setup(Table::Mangle, Chain::Clash, tun_local_rules(uid, mark), Builtin::Output)
        + chain_setup(
        Table::Mangle,
        Chain::ClashExternal,
        tun_forward_rules(mark),
        Builtin::Prerouting,
    )
}

/// The routing commands of the marking strategy: `table_id` sends everything
/// to the virtual interface, and tagged packets are routed by it.
pub open spec fn tun_routing(mark: u32, table_id: u32) -> Seq<Command> {
    seq![
        Command::TunRouteReplace { table_id },
        Command::MarkRuleAdd { mark, table_id, word: TableWord::Lookup },
    ]
}

/// The kernel switches that the marking strategy turns off: rerouted packets
/// would not pass reverse-path filtering.
pub open spec fn tun_switches() -> Seq<Command> {
    seq![
        Command::SwitchOff { switch: Switch::TunRpFilter },
        Command::SwitchOff { switch: Switch::AllRpFilter },
    ]
}

/// The plan that creates and fills the exempt address set. Every step is
/// needed.
pub open spec fn set_plan() -> Seq<Step> {
    steps_of(set_setup(), Policy::FailFast)
}

/// The plan of the packet-rewriting strategy: firewall and routing steps are
/// needed, the kernel switches are attempted.
pub open spec fn redir_plan(uid: u32, port: u16, mark: u32, table_id: u32) -> Seq<Step> {
    steps_of(redir_firewall(uid, port, mark) + redir_routing(mark, table_id), Policy::FailFast)
        + steps_of(redir_switches(), Policy::BestEffort)
}

/// The plan of the marking strategy: firewall and routing steps are needed,
/// the kernel switches are attempted.
pub open spec fn tun_plan(uid: u32, mark: u32, table_id: u32) -> Seq<Step> {
    steps_of(tun_firewall(uid, mark) + tun_routing(mark, table_id), Policy::FailFast) + steps_of(
        tun_switches(),
        Policy::BestEffort,
    )
}

/// The commands that undo whatever either strategy may have set up.
pub open spec fn teardown(mark: u32, table_id: u32) -> Seq<Command> {
    seq![
        Command::MarkRuleDelete { mark, table_id },
        Command::TunRouteDelete { table_id },
        Command::LocalRouteDelete { table_id },
    ] + chain_teardown(Table::Nat, Chain::Clash) + chain_teardown(Table::Nat, Chain::ClashExternal)
        + chain_teardown(Table::Mangle, Chain::Clash) + chain_teardown(
        Table::Mangle,
        Chain::ClashExternal,
    ) + seq![Command::SetDestroy]
}

/// The cleanup plan. Every step is attempted, none is needed: what was never
/// set up cannot be removed, and that is no error.
pub open spec fn clean_plan(mark: u32, table_id: u32) -> Seq<Step> {
    steps_of(teardown(mark, table_id), Policy::BestEffort)
}

/// Appends the items of `src` to `dst`.
pub fn append_all<T: Copy>(dst: &mut Vec<T>, src: &Vec<T>)
    ensures
        final(dst)@ == old(dst)@ + src@,
{
    let mut i: usize = 0;
    while i < src.len()
        invariant
            i <= src.len(),
            dst@ == old(dst)@ + src@.subrange(0, i as int),
        decreases src.len() - i,
    {
        dst.push(src[i]);
        i += 1;
        assert(dst@ =~= old(dst)@ + src@.subrange(0, i as int));
    }
    assert(src@.subrange(0, src.len() as int) =~= src@);
}

/// Appends the commands to a plan as steps that share one policy.
pub fn append_steps(plan: &mut Vec<Step>, commands: &Vec<Command>, policy: Policy)
    ensures
        final(plan)@ == old(plan)@ + steps_of(commands@, policy),
{
    let mut i: usize = 0;
    while i < commands.len()
        invariant
            i <= commands.len(),
            plan@ == old(plan)@ + steps_of(commands@.subrange(0, i as int), policy),
        decreases commands.len() - i,
    {
        plan.push(Step { command: commands[i], policy });
        i += 1;
        assert(plan@ =~= old(plan)@ + steps_of(commands@.subrange(0, i as int), policy));
    }
    assert(commands@.subrange(0, commands.len() as int) =~= commands@);
}

/// Lays out the setup of one owned chain.
pub fn setup_chain(table: Table, chain: Chain, rules: &Vec<Rule>, from: Builtin) -> (r: Vec<
    Command,
>)
    ensures
        r@ == chain_setup(table, chain, rules@, from),
{
    let mut r: Vec<Command> = Vec::new();
    r.push(Command::ChainNew { table, chain });
    r.push(Command::ChainFlush { table, chain });
    let ghost head = r@;
    let mut i: usize = 0;
    while i < rules.len()
        invariant
            i <= rules.len(),
            r@ == head + rule_commands(table, chain, rules@.subrange(0, i as int)),
        decreases rules.len() - i,
    {
        let rule = rules[i];
        r.push(Command::Append { table, chain, matcher: rule.matcher, target: rule.target });
        i += 1;
        assert(r@ =~= head + rule_commands(table, chain, rules@.subrange(0, i as int)));
    }
    assert(rules@.subrange(0, rules.len() as int) =~= rules@);
    r.push(Command::Hook { table, from, chain });
    assert(head =~= seq![Command::ChainNew { table, chain }, Command::ChainFlush { table, chain }]);
    r
}

/// Lays out the teardown of one owned chain: unhook it from both built-in
/// chains, empty it, remove it. Each step is attempted whatever became of the
/// one before.
pub fn clean_chain(table: Table, chain: Chain) -> (r: Vec<Step>)
    ensures
        r@ == steps_of(chain_teardown(table, chain), Policy::BestEffort),
{
    let mut commands: Vec<Command> = Vec::new();
    commands.push(Command::Unhook { table, from: Builtin::Output, chain });
    commands.push(Command::Unhook { table, from: Builtin::Prerouting, chain });
    commands.push(Command::ChainFlush { table, chain });
    commands.push(Command::ChainDelete { table, chain });
    assert(commands@ =~= chain_teardown(table, chain));
    let mut r: Vec<Step> = Vec::new();
    append_steps(&mut r, &commands, Policy::BestEffort);
    assert(r@ =~= steps_of(chain_teardown(table, chain), Policy::BestEffort));
    r
}

} // verus!
