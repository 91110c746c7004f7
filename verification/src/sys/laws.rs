//! What holds of every plan that the rule engines lay out.

use super::command::{Chain, Command, Matcher, Switch, Table, Target};
use super::ipt::{ConfigError, IptView};
use super::plan::{
    clean_plan, commands_of, redir_firewall, redir_plan, redir_routing, redir_switches, set_plan,
    tun_firewall, tun_plan, tun_routing, tun_switches, Policy, Step,
};
use super::run::{fatal, in_place, run, run_from, spec_advance, spec_start, Outcome, Progress};
use crate::clash::configured;
use vstd::prelude::*;

verus! {

/// The command appends a rule to the chain that lets packets pass untouched.
pub open spec fn is_pass(command: Command, table: Table, chain: Chain) -> bool {
    command matches Command::Append { table: t, chain: c, target, .. } && t == table && c == chain
        && target == Target::Return
}

/// The command appends the rule that lets packets to local destinations pass.
pub open spec fn is_exemption(command: Command, table: Table, chain: Chain) -> bool {
    command == (Command::Append {
        table,
        chain,
        matcher: Matcher::LocalDestination,
        target: Target::Return,
    })
}

/// The command appends the rule that lets the packets of user `uid` pass.
pub open spec fn is_owner_pass(command: Command, table: Table, chain: Chain, uid: u32) -> bool {
    command == (Command::Append {
        table,
        chain,
        matcher: Matcher::Owner { uid },
        target: Target::Return,
    })
}

/// The command appends the rule that captures what the chain has not let pass:
/// a redirect, a transparent hand-over or a mark that is not bound to one
/// destination.
pub open spec fn is_capture(command: Command, table: Table, chain: Chain) -> bool {
    command matches Command::Append { table: t, chain: c, matcher, target } && t == table && c
        == chain && target != Target::Return && !(matcher is TcpTo)
}

/// The command appends a rule to the chain.
pub open spec fn is_rule(command: Command, table: Table, chain: Chain) -> bool {
    command matches Command::Append { table: t, chain: c, .. } && t == table && c == chain
}

/// The command belongs to packet rewriting: it redirects or hands over
/// packets, routes tagged packets to the host itself, or keeps bridged
/// traffic away from the packet filter.
pub open spec fn rewrites(command: Command) -> bool {
    match command {
        Command::Append { target, .. } => target is Redirect || target is Tproxy,
        Command::LocalRouteAdd { .. } => true,
        Command::SwitchOff { switch } => switch == Switch::BridgeCallIptables || switch
            == Switch::BridgeCallIp6tables || switch == Switch::BridgeCallArptables,
        _ => false,
    }
}

/// The command belongs to marking: it tags packets, names the virtual
/// interface in a rule, routes tagged packets to the virtual interface, or
/// turns reverse-path filtering off.
pub open spec fn marks(command: Command) -> bool {
    match command {
        Command::Append { matcher, target, .. } => target is Mark || matcher is FromTun,
        Command::TunRouteReplace { .. } => true,
        Command::SwitchOff { switch } => switch == Switch::TunRpFilter || switch
            == Switch::AllRpFilter,
        _ => false,
    }
}

/// No step of the plan is needed.
pub open spec fn all_best_effort(plan: Seq<Step>) -> bool {
    forall|i: int| 0 <= i < plan.len() ==> (#[trigger] plan[i]).policy == Policy::BestEffort
}

/// A run of a plan of which no step is needed cannot fail, and is done once
/// every step has had its outcome.
pub proof fn lemma_best_effort_run(plan: Seq<Step>, progress: Progress, outcomes: Seq<Outcome>)
    requires
        all_best_effort(plan),
        plan.len() <= usize::MAX,
        !(progress is Failed),
        progress matches Progress::Run { index } ==> index < plan.len(),
    ensures
        !(run_from(plan, progress, outcomes) is Failed),
        progress matches Progress::Run { index } ==> (index + outcomes.len() >= plan.len()
            ==> run_from(plan, progress, outcomes) is Done),
        progress is Done ==> run_from(plan, progress, outcomes) is Done,
    decreases outcomes.len(),
{
    if let Progress::Run { index } = progress {
        if outcomes.len() > 0 {
            let next = spec_advance(plan, index, outcomes[0]);
            assert(!fatal(plan[index as int], outcomes[0]));
            lemma_best_effort_run(plan, next, outcomes.drop_first());
        }
    }
}

/// Nothing that counts has failed among the first `n` outcomes.
pub open spec fn none_fatal(plan: Seq<Step>, outcomes: Seq<Outcome>, n: int) -> bool {
    forall|i: int|
        0 <= i < n && i < plan.len() && i < outcomes.len() ==> !fatal(
            #[trigger] plan[i],
            outcomes[i],
        )
}

/// A run that stands at step `index` with `rest` still to come goes as the
/// outcomes say.
proof fn lemma_run_from(plan: Seq<Step>, outcomes: Seq<Outcome>, index: usize, rest: Seq<Outcome>)
    requires
        plan.len() <= usize::MAX,
        index < plan.len(),
        index <= outcomes.len(),
        rest == outcomes.subrange(index as int, outcomes.len() as int),
        none_fatal(plan, outcomes, index as int),
    ensures
        forall|k: int|
            index <= k < plan.len() && k < outcomes.len() && fatal(plan[k], outcomes[k])
                && none_fatal(plan, outcomes, k) ==> run_from(
                plan,
                Progress::Run { index },
                rest,
            ) == (Progress::Failed { index: k as usize }),
        none_fatal(plan, outcomes, plan.len() as int) ==> run_from(
            plan,
            Progress::Run { index },
            rest,
        ) == (if outcomes.len() >= plan.len() {
            Progress::Done
        } else {
            Progress::Run { index: outcomes.len() as usize }
        }),
    decreases rest.len(),
{
    let here = Progress::Run { index };
    if rest.len() == 0 {
        assert(index == outcomes.len());
        assert(run_from(plan, here, rest) == here);
    } else {
        let outcome = outcomes[index as int];
        let next = spec_advance(plan, index, outcome);
        assert(rest[0] == outcome);
        assert(rest.drop_first() =~= outcomes.subrange(index + 1, outcomes.len() as int));
        assert(run_from(plan, here, rest) == run_from(plan, next, rest.drop_first()));
        if fatal(plan[index as int], outcome) {
            assert(next == Progress::Failed { index });
            assert(!none_fatal(plan, outcomes, plan.len() as int));
            assert forall|k: int|
                index <= k < plan.len() && k < outcomes.len() && fatal(plan[k], outcomes[k])
                    && none_fatal(plan, outcomes, k) implies k == index by {
                if k > index {
                    assert(!fatal(plan[index as int], outcomes[index as int]));
                }
            }
        } else if index + 1 < plan.len() {
            assert(next == Progress::Run { index: (index + 1) as usize });
            assert(none_fatal(plan, outcomes, index + 1));
            lemma_run_from(plan, outcomes, (index + 1) as usize, rest.drop_first());
        } else {
            assert(next == Progress::Done);
            assert(run_from(plan, next, rest.drop_first()) == next);
        }
    }
}

/// A run stops at the first needed step that fails, and names it; a run in
/// which none fails goes through the whole plan.
///
/// Take a plan and the outcomes of its steps, one for each step that gets its
/// turn. If step `k` is the first whose outcome ends the run, the run has
/// failed at `k`, whatever the outcomes after it. If no outcome ends the run,
/// the run is done once every step has had its outcome, and until then the
/// next step is due.
pub proof fn lemma_run(plan: Seq<Step>, outcomes: Seq<Outcome>)
    requires
        plan.len() <= usize::MAX,
    ensures
        forall|k: int|
            0 <= k < plan.len() && k < outcomes.len() && fatal(plan[k], outcomes[k]) && none_fatal(
                plan,
                outcomes,
                k,
            ) ==> run(plan, outcomes) == (Progress::Failed { index: k as usize }),
        none_fatal(plan, outcomes, plan.len() as int) ==> run(plan, outcomes) == (if outcomes.len()
            >= plan.len() {
            Progress::Done
        } else {
            Progress::Run { index: outcomes.len() as usize }
        }),
{
    if plan.len() > 0 {
        assert(outcomes.subrange(0, outcomes.len() as int) =~= outcomes);
        lemma_run_from(plan, outcomes, 0, outcomes);
    }
}

/// Cleanup cannot fail. Whatever becomes of its commands, on a host where
/// nothing was ever installed as on one where everything was, and the second
/// time as the first, the run never ends in a failure; once every command has
/// had its turn it is done.
pub proof fn lemma_cleanup_never_fails(
    mark: u32,
    table_id: u32,
    first: Seq<Outcome>,
    second: Seq<Outcome>,
)
    ensures
        !(run(clean_plan(mark, table_id), first) is Failed),
        !(run(clean_plan(mark, table_id), second) is Failed),
        first.len() >= clean_plan(mark, table_id).len() ==> run(clean_plan(mark, table_id), first)
            is Done,
        second.len() >= clean_plan(mark, table_id).len() ==> run(
            clean_plan(mark, table_id),
            second,
        ) is Done,
{
    let plan = clean_plan(mark, table_id);
    assert(plan.len() == 20);
    assert(all_best_effort(plan));
    lemma_best_effort_run(plan, spec_start(plan), first);
    lemma_best_effort_run(plan, spec_start(plan), second);
}

/// The commands that install the selected strategy once the exempt address
/// set is there.
spec fn strategy_commands(view: IptView, uid: u32) -> Seq<Command> {
    if view.clash_config.spec_tun_enabled() {
        tun_firewall(uid, view.mark_id) + tun_routing(view.mark_id, view.table_id) + tun_switches()
    } else {
        redir_firewall(uid, configured(view.clash_config.redir_port)->Some_0, view.mark_id)
            + redir_routing(view.mark_id, view.table_id) + redir_switches()
    }
}

/// An installation, position by position: ten steps for the exempt address
/// set, then the commands of the selected strategy. All but the kernel
/// switches at the end are needed.
proof fn lemma_install_commands(view: IptView, uid: u32, steps: Seq<Step>)
    requires
        view.install_plan(uid) == Ok::<Seq<Step>, ConfigError>(steps),
    ensures
        steps.len() == if view.clash_config.spec_tun_enabled() {
            26int
        } else {
            33int
        },
        steps.len() == 10 + strategy_commands(view, uid).len(),
        forall|i: int|
            0 <= i < 10 ==> ((#[trigger] steps[i]).command is SetCreate || steps[i].command
                is SetAdd),
        forall|k: int|
            10 <= k < steps.len() ==> (#[trigger] steps[k]).command == strategy_commands(
                view,
                uid,
            )[k - 10],
{
    let mark = view.mark_id;
    let table_id = view.table_id;
    assert(set_plan().len() == 10);
    if view.clash_config.spec_tun_enabled() {
        let plan = tun_plan(uid, mark, table_id);
        assert(steps =~= set_plan() + plan);
        assert(commands_of(plan) =~= strategy_commands(view, uid));
        assert forall|k: int| 10 <= k < steps.len() implies (#[trigger] steps[k]).command
            == strategy_commands(view, uid)[k - 10] by {
            assert(steps[k].command == commands_of(plan)[k - 10]);
        }
    } else {
        let port = configured(view.clash_config.redir_port)->Some_0;
        let plan = redir_plan(uid, port, mark, table_id);
        assert(steps =~= set_plan() + plan);
        assert(commands_of(plan) =~= strategy_commands(view, uid));
        assert forall|k: int| 10 <= k < steps.len() implies (#[trigger] steps[k]).command
            == strategy_commands(view, uid)[k - 10] by {
            assert(steps[k].command == commands_of(plan)[k - 10]);
        }
    }
}

/// Within every chain of an installation, the rules that let packets pass
/// come before the rule that captures the rest.
///
/// Take the rule that captures in a chain of the plan. Then the rule that
/// exempts local destinations stands before it in that chain; in the chain for
/// the host's own traffic the rule that exempts the proxy's user stands before
/// it too; and no rule that lets packets pass stands after it. So neither
/// local traffic nor the proxy's own can reach the capture.
pub proof fn lemma_passes_precede_capture(
    view: IptView,
    uid: u32,
    steps: Seq<Step>,
    table: Table,
    chain: Chain,
    j: int,
)
    requires
        view.install_plan(uid) == Ok::<Seq<Step>, ConfigError>(steps),
        0 <= j < steps.len(),
        is_capture(steps[j].command, table, chain),
    ensures
        exists|i: int| 0 <= i < j && is_exemption(#[trigger] steps[i].command, table, chain),
        chain == Chain::Clash ==> exists|i: int|
            0 <= i < j && is_owner_pass(#[trigger] steps[i].command, table, chain, uid),
        forall|i: int|
            0 <= i < steps.len() && is_pass(#[trigger] steps[i].command, table, chain) ==> i < j,
{
    lemma_install_commands(view, uid, steps);
    // where the exemption and the owner's pass stand, by where the capture does
    let (exemption, owner) = if view.clash_config.spec_tun_enabled() {
        if j == 14 {
            (13int, 12int)
        } else {
            (18int, 18int)
        }
    } else {
        if j == 14 {
            (12int, 13int)
        } else if j == 21 {
            (20int, 20int)
        } else {
            (25int, 25int)
        }
    };
    assert(is_exemption(steps[exemption].command, table, chain));
    if chain == Chain::Clash {
        assert(is_owner_pass(steps[owner].command, table, chain, uid));
    }
}

/// A chain is there and empty before it is filled, and it is complete before
/// packets are sent through it.
///
/// Take a rule that an installation appends to a chain. Then the chain is
/// created and emptied before the rule is appended, in that order, and hooked
/// into a built-in chain only after it.
pub proof fn lemma_chain_is_ready(
    view: IptView,
    uid: u32,
    steps: Seq<Step>,
    table: Table,
    chain: Chain,
    j: int,
)
    requires
        view.install_plan(uid) == Ok::<Seq<Step>, ConfigError>(steps),
        0 <= j < steps.len(),
        is_rule(steps[j].command, table, chain),
    ensures
        exists|n: int, f: int|
            0 <= n < f < j && (#[trigger] steps[n]).command == (Command::ChainNew { table, chain })
                && (#[trigger] steps[f]).command == (Command::ChainFlush { table, chain }),
        forall|h: int|
            0 <= h < steps.len() && ((#[trigger] steps[h]).command matches Command::Hook {
                table: t,
                chain: c,
                ..
            } && t == table && c == chain) ==> j < h,
{
    lemma_install_commands(view, uid, steps);
    // where the chain of the rule begins
    let created = if j <= 14 {
        10int
    } else if j <= 21 {
        16int
    } else {
        23int
    };
    assert(steps[created].command == (Command::ChainNew { table, chain }));
    assert(steps[created + 1].command == (Command::ChainFlush { table, chain }));
}

/// The two strategies never mix, and one of them is always selected.
///
/// An installation with the virtual interface enabled holds no command of
/// packet rewriting, and one without it holds no command of marking: no rule
/// that tags packets or names the virtual interface, no route to it, no change
/// to reverse-path filtering. There is an installation whenever the virtual
/// interface is enabled or a port to redirect to is configured.
pub proof fn lemma_strategies_exclusive(view: IptView, uid: u32, i: int)
    ensures
        match view.install_plan(uid) {
            Ok(steps) => 0 <= i < steps.len() ==> (if view.clash_config.spec_tun_enabled() {
                !rewrites(steps[i].command)
            } else {
                !marks(steps[i].command)
            }),
            Err(_) => !view.clash_config.spec_tun_enabled() && configured(
                view.clash_config.redir_port,
            ) is None,
        },
{
    if let Ok(steps) = view.install_plan(uid) {
        lemma_install_commands(view, uid, steps);
    }
}

/// An installation can be repeated.
///
/// Take a run of an installation in which every command does its work or finds
/// it done: on a fresh host, on one that still holds all of an earlier
/// installation, or on one that holds part of it. Then the run does not fail,
/// and it is done once every step has had its outcome.
pub proof fn lemma_install_is_repeatable(
    view: IptView,
    uid: u32,
    steps: Seq<Step>,
    outcomes: Seq<Outcome>,
)
    requires
        view.install_plan(uid) == Ok::<Seq<Step>, ConfigError>(steps),
        forall|i: int| 0 <= i < outcomes.len() ==> in_place(#[trigger] outcomes[i]),
    ensures
        !(run(steps, outcomes) is Failed),
        outcomes.len() >= steps.len() ==> run(steps, outcomes) is Done,
{
    lemma_install_commands(view, uid, steps);
    assert(none_fatal(steps, outcomes, steps.len() as int));
    lemma_run(steps, outcomes);
}

} // verus!
