use docker_clash::clash::{Config, Tun};
use docker_clash::sys::command::{
    dns_resolvers, local_networks, Builtin, Chain, Command, Ipv4, Matcher, Network, Switch, Table,
    TableWord, Target,
};
use docker_clash::sys::ipt::{ConfigError, Field};
use docker_clash::sys::plan::{append_all, append_steps, setup_chain, Policy, Rule, Step};
use docker_clash::sys::render::{decimal_string, ipv4_string, network_string, render};
use docker_clash::sys::run::{advance, replay, start, text_contains, Outcome, Progress};
use docker_clash::sys::{clean_chain, IptInfo, IptInfoBuilder, IptInfoBuilderError};

fn info_for(config: Config) -> IptInfo {
    IptInfoBuilder::default()
        .tun_name("utun".to_string())
        .table_id(0x162)
        .mark_id(0x162)
        .local_ipset("local_net_clash".to_string())
        .clash_config(config)
        .build()
        .unwrap()
}

fn redir_config() -> Config {
    Config { redir_port: Some(7892), tun: Tun { enable: Some(false) }, ..Config::default() }
}

fn tun_config() -> Config {
    Config { tun: Tun { enable: Some(true) }, ..Config::default() }
}

fn line(info: &IptInfo, command: &Command) -> String {
    info.render(command).join(" ")
}

fn lines(info: &IptInfo, plan: &[Step]) -> Vec<String> {
    plan.iter().map(|step| line(info, &step.command)).collect()
}

/// Runs a plan against a fake host that records each command it is handed and
/// answers by `script`.
fn play_plan(
    info: &IptInfo,
    plan: &Vec<Step>,
    script: &dyn Fn(usize, &Command) -> Outcome,
) -> (Vec<String>, Progress) {
    let mut recorded = Vec::new();
    let mut progress = start(plan);
    while let Progress::Run { index } = progress {
        let command = plan[index].command;
        recorded.push(line(info, &command));
        progress = advance(plan, index, script(index, &command));
    }
    (recorded, progress)
}

fn set_lines() -> Vec<&'static str> {
    vec![
        "ipset create local_net_clash hash:net",
        "ipset add local_net_clash 0.0.0.0/8",
        "ipset add local_net_clash 127.0.0.0/8",
        "ipset add local_net_clash 10.0.0.0/8",
        "ipset add local_net_clash 169.254.0.0/16",
        "ipset add local_net_clash 192.168.0.0/16",
        "ipset add local_net_clash 224.0.0.0/4",
        "ipset add local_net_clash 240.0.0.0/4",
        "ipset add local_net_clash 172.16.0.0/12",
        "ipset add local_net_clash 100.64.0.0/10",
    ]
}

fn redir_lines() -> Vec<&'static str> {
    vec![
        "iptables -t nat -N CLASH",
        "iptables -t nat -F CLASH",
        "iptables -t nat -A CLASH -m set --match-set local_net_clash dst -j RETURN",
        "iptables -t nat -A CLASH -m owner --uid-owner 1000 -j RETURN",
        "iptables -t nat -A CLASH -p tcp -j REDIRECT --to-port 7892",
        "iptables -t nat -A OUTPUT -j CLASH",
        "iptables -t nat -N CLASH_EXTERNAL",
        "iptables -t nat -F CLASH_EXTERNAL",
        "iptables -t nat -A CLASH_EXTERNAL -p tcp -d 8.8.8.8 -j REDIRECT --to-port 7892",
        "iptables -t nat -A CLASH_EXTERNAL -p tcp -d 8.8.4.4 -j REDIRECT --to-port 7892",
        "iptables -t nat -A CLASH_EXTERNAL -m set --match-set local_net_clash dst -j RETURN",
        "iptables -t nat -A CLASH_EXTERNAL -p tcp -j REDIRECT --to-port 7892",
        "iptables -t nat -A PREROUTING -j CLASH_EXTERNAL",
        "iptables -t mangle -N CLASH_EXTERNAL",
        "iptables -t mangle -F CLASH_EXTERNAL",
        "iptables -t mangle -A CLASH_EXTERNAL -m set --match-set local_net_clash dst -j RETURN",
        "iptables -t mangle -A CLASH_EXTERNAL -p udp -j TPROXY --on-port 7892 --tproxy-mark 354",
        "iptables -t mangle -A PREROUTING -j CLASH_EXTERNAL",
        "ip rule add fwmark 354 table 354",
        "ip route add local default dev lo table 354",
        "sysctl -w net.bridge.bridge-nf-call-iptables=0",
        "sysctl -w net.bridge.bridge-nf-call-ip6tables=0",
        "sysctl -w net.bridge.bridge-nf-call-arptables=0",
    ]
}

fn tun_lines() -> Vec<&'static str> {
    vec![
        "iptables -t mangle -N CLASH",
        "iptables -t mangle -F CLASH",
        "iptables -t mangle -A CLASH -m owner --uid-owner 1000 -j RETURN",
        "iptables -t mangle -A CLASH -m set --match-set local_net_clash dst -j RETURN",
        "iptables -t mangle -A CLASH -j MARK --set-xmark 354",
        "iptables -t mangle -A OUTPUT -j CLASH",
        "iptables -t mangle -N CLASH_EXTERNAL",
        "iptables -t mangle -F CLASH_EXTERNAL",
        "iptables -t mangle -A CLASH_EXTERNAL -m set --match-set local_net_clash dst -j RETURN",
        "iptables -t mangle -A CLASH_EXTERNAL -i utun -j RETURN",
        "iptables -t mangle -A CLASH_EXTERNAL -j MARK --set-xmark 354",
        "iptables -t mangle -A PREROUTING -j CLASH_EXTERNAL",
        "ip route replace default dev utun table 354",
        "ip rule add fwmark 354 lookup 354",
        "sysctl -w net.ipv4.conf.utun.rp_filter=0",
        "sysctl -w net.ipv4.conf.all.rp_filter=0",
    ]
}

fn clean_lines() -> Vec<&'static str> {
    vec![
        "ip rule del fwmark 354 lookup 354",
        "ip route del default dev utun table 354",
        "ip route del local default dev lo table 354",
        "iptables -t nat -D OUTPUT -j CLASH",
        "iptables -t nat -D PREROUTING -j CLASH",
        "iptables -t nat -F CLASH",
        "iptables -t nat -X CLASH",
        "iptables -t nat -D OUTPUT -j CLASH_EXTERNAL",
        "iptables -t nat -D PREROUTING -j CLASH_EXTERNAL",
        "iptables -t nat -F CLASH_EXTERNAL",
        "iptables -t nat -X CLASH_EXTERNAL",
        "iptables -t mangle -D OUTPUT -j CLASH",
        "iptables -t mangle -D PREROUTING -j CLASH",
        "iptables -t mangle -F CLASH",
        "iptables -t mangle -X CLASH",
        "iptables -t mangle -D OUTPUT -j CLASH_EXTERNAL",
        "iptables -t mangle -D PREROUTING -j CLASH_EXTERNAL",
        "iptables -t mangle -F CLASH_EXTERNAL",
        "iptables -t mangle -X CLASH_EXTERNAL",
        "ipset destroy local_net_clash",
    ]
}

fn both(first: Vec<&'static str>, second: Vec<&'static str>) -> Vec<String> {
    first.into_iter().chain(second).map(str::to_string).collect()
}

#[test]
fn redir_without_redir_port_is_refused() {
    let config = Config {
        port: Some(7890),
        socks_port: Some(7891),
        mixed_port: Some(7893),
        tun: Tun { enable: Some(false) },
        ..Config::default()
    };
    let info = info_for(config);
    assert_eq!(info.config(1000), Err(ConfigError::MissingRedirPort));
    assert_eq!(info.config_redir(1000), Err(ConfigError::MissingRedirPort));
}

#[test]
fn an_absent_tun_flag_selects_redir() {
    let info = info_for(Config { port: Some(7890), ..Config::default() });
    assert_eq!(info.config(1000), Err(ConfigError::MissingRedirPort));
    let info = info_for(Config { redir_port: Some(7892), ..Config::default() });
    assert_eq!(lines(&info, &info.config(1000).unwrap()), both(set_lines(), redir_lines()));
}

#[test]
fn redir_installs_the_exact_command_list() {
    let info = info_for(redir_config());
    let plan = info.config(1000).unwrap();
    let (recorded, progress) = play_plan(&info, &plan, &|_, _| Outcome::Succeeded);
    assert_eq!(progress, Progress::Done);
    assert_eq!(recorded, both(set_lines(), redir_lines()));
}

#[test]
fn tun_installs_the_exact_command_list() {
    let info = info_for(tun_config());
    let plan = info.config(1000).unwrap();
    let (recorded, progress) = play_plan(&info, &plan, &|_, _| Outcome::Succeeded);
    assert_eq!(progress, Progress::Done);
    assert_eq!(recorded, both(set_lines(), tun_lines()));
}

#[test]
fn tun_needs_no_port() {
    let info = info_for(tun_config());
    assert!(info.config(1000).is_ok());
    // and a port that is there does not bring packet rewriting in
    let info = info_for(Config { redir_port: Some(7892), ..tun_config() });
    assert_eq!(lines(&info, &info.config(1000).unwrap()), both(set_lines(), tun_lines()));
}

#[test]
fn the_parts_of_an_installation_are_its_engines() {
    let info = info_for(redir_config());
    assert_eq!(lines(&info, &info.config_ipset()), both(set_lines(), vec![]));
    assert_eq!(lines(&info, &info.config_redir(1000).unwrap()), both(redir_lines(), vec![]));
    assert_eq!(lines(&info, &info.config_tun(1000)), both(tun_lines(), vec![]));
}

#[test]
fn needed_and_attempted_steps_are_told_apart() {
    let info = info_for(redir_config());
    let plan = info.config(1000).unwrap();
    assert_eq!(plan.len(), 33);
    for (i, step) in plan.iter().enumerate() {
        let expected = if i < 30 { Policy::FailFast } else { Policy::BestEffort };
        assert_eq!(step.policy, expected, "step {}", i);
    }
    let plan = info_for(tun_config()).config(1000).unwrap();
    assert_eq!(plan.len(), 26);
    for (i, step) in plan.iter().enumerate() {
        let expected = if i < 24 { Policy::FailFast } else { Policy::BestEffort };
        assert_eq!(step.policy, expected, "step {}", i);
    }
    assert!(info.clean().iter().all(|step| step.policy == Policy::BestEffort));
}

#[test]
fn cleanup_is_the_exact_command_list() {
    let info = info_for(redir_config());
    assert_eq!(lines(&info, &info.clean()), both(clean_lines(), vec![]));
    // it is the same whichever strategy the configuration selects
    let info = info_for(tun_config());
    assert_eq!(lines(&info, &info.clean()), both(clean_lines(), vec![]));
}

#[test]
fn clean_chain_unhooks_flushes_deletes() {
    let steps = clean_chain(Table::Mangle, Chain::ClashExternal);
    let chain = Chain::ClashExternal;
    let table = Table::Mangle;
    let expected = vec![
        Command::Unhook { table, from: Builtin::Output, chain },
        Command::Unhook { table, from: Builtin::Prerouting, chain },
        Command::ChainFlush { table, chain },
        Command::ChainDelete { table, chain },
    ];
    assert_eq!(steps.iter().map(|s| s.command).collect::<Vec<_>>(), expected);
    assert!(steps.iter().all(|s| s.policy == Policy::BestEffort));
}

#[test]
fn cleanup_never_fails_and_runs_every_command() {
    let info = info_for(redir_config());
    let plan = info.clean();
    // a fresh host: nothing is there to remove, every command fails
    let (recorded, progress) = play_plan(&info, &plan, &|_, _| Outcome::Failed);
    assert_eq!(progress, Progress::Done);
    assert_eq!(recorded, both(clean_lines(), vec![]));
    // and again
    let (recorded, progress) = play_plan(&info, &info.clean(), &|_, _| Outcome::Failed);
    assert_eq!(progress, Progress::Done);
    assert_eq!(recorded.len(), 20);
    // only one strategy was installed: some commands fail, some do not
    let (recorded, progress) = play_plan(&info, &plan, &|i, _| {
        if i % 2 == 0 {
            Outcome::Failed
        } else {
            Outcome::Succeeded
        }
    });
    assert_eq!(progress, Progress::Done);
    assert_eq!(recorded.len(), 20);
}

#[test]
fn a_needed_step_that_fails_stops_the_run() {
    let info = info_for(redir_config());
    let plan = info.config(1000).unwrap();
    let (recorded, progress) = play_plan(&info, &plan, &|i, _| {
        if i == 14 {
            Outcome::Failed
        } else {
            Outcome::Succeeded
        }
    });
    assert_eq!(progress, Progress::Failed { index: 14 });
    assert_eq!(recorded.len(), 15);
    assert_eq!(recorded[14], "iptables -t nat -A CLASH -p tcp -j REDIRECT --to-port 7892");
    // the routing steps are needed too
    let (_, progress) = play_plan(&info, &plan, &|i, _| {
        if i == 29 {
            Outcome::Failed
        } else {
            Outcome::Succeeded
        }
    });
    assert_eq!(progress, Progress::Failed { index: 29 });
}

#[test]
fn kernel_switches_are_only_attempted() {
    let info = info_for(redir_config());
    let plan = info.config(1000).unwrap();
    let (recorded, progress) = play_plan(&info, &plan, &|_, command| match command {
        Command::SwitchOff { .. } => Outcome::Failed,
        _ => Outcome::Succeeded,
    });
    assert_eq!(progress, Progress::Done);
    assert_eq!(recorded.len(), 33);
    let info = info_for(tun_config());
    let plan = info.config(1000).unwrap();
    let (recorded, progress) = play_plan(&info, &plan, &|_, command| match command {
        Command::SwitchOff { .. } => Outcome::Failed,
        _ => Outcome::Succeeded,
    });
    assert_eq!(progress, Progress::Done);
    assert_eq!(recorded.len(), 26);
}

#[test]
fn what_is_there_already_is_no_failure() {
    let info = info_for(redir_config());
    let set = info.config_ipset();
    let (recorded, progress) = play_plan(&info, &set, &|_, _| Outcome::AlreadyExists);
    assert_eq!(progress, Progress::Done);
    assert_eq!(recorded.len(), 10);
    // the set, a range of it, a chain, a policy rule, a route
    let plan = info.config(1000).unwrap();
    for index in [0, 1, 9, 10, 16, 23, 28, 29] {
        assert_eq!(
            advance(&plan, index, Outcome::AlreadyExists),
            Progress::Run { index: index + 1 },
            "step {}",
            index
        );
    }
    // any other failure of a needed step ends the run
    for index in [0, 1, 9, 10, 11, 14, 15, 16, 23, 28, 29] {
        assert_eq!(
            advance(&plan, index, Outcome::Failed),
            Progress::Failed { index },
            "step {}",
            index
        );
    }
}

#[test]
fn an_installation_can_be_repeated() {
    for config in [redir_config(), tun_config()] {
        let info = info_for(config);
        let plan = info.config(1000).unwrap();
        // the first time everything goes in
        let (first, progress) = play_plan(&info, &plan, &|_, _| Outcome::Succeeded);
        assert_eq!(progress, Progress::Done);
        // the second time the host holds it all: what creates or adds is
        // refused, what empties or appends goes through
        let (second, progress) = play_plan(&info, &plan, &|_, command| match command {
            Command::SetCreate
            | Command::SetAdd { .. }
            | Command::ChainNew { .. }
            | Command::MarkRuleAdd { .. }
            | Command::LocalRouteAdd { .. } => Outcome::AlreadyExists,
            _ => Outcome::Succeeded,
        });
        assert_eq!(progress, Progress::Done);
        assert_eq!(first, second);
        assert_eq!(second.len(), plan.len());
        // and the same by the tools' own words
        let (third, progress) = play_plan(&info, &plan, &|_, command| match command {
            Command::SetCreate => Outcome::of(
                false,
                "ipset v7.15: Set cannot be created: set with the same name already exists",
            ),
            Command::SetAdd { .. } => Outcome::of(
                false,
                "ipset v7.15: Element cannot be added to the set: it's already added",
            ),
            Command::ChainNew { .. } => Outcome::of(false, "iptables: Chain already exists."),
            Command::MarkRuleAdd { .. } | Command::LocalRouteAdd { .. } => {
                Outcome::of(false, "RTNETLINK answers: File exists")
            }
            _ => Outcome::of(true, ""),
        });
        assert_eq!(progress, Progress::Done);
        assert_eq!(third, first);
        assert_eq!(replay(&plan, &vec![Outcome::AlreadyExists; plan.len()]), Progress::Done);
    }
}

#[test]
fn start_and_advance_walk_the_plan() {
    let empty: Vec<Step> = Vec::new();
    assert_eq!(start(&empty), Progress::Done);
    assert_eq!(advance(&empty, 0, Outcome::Failed), Progress::Done);
    let info = info_for(redir_config());
    let plan = info.clean();
    assert_eq!(start(&plan), Progress::Run { index: 0 });
    assert_eq!(advance(&plan, 0, Outcome::Succeeded), Progress::Run { index: 1 });
    assert_eq!(advance(&plan, 18, Outcome::Failed), Progress::Run { index: 19 });
    assert_eq!(advance(&plan, 19, Outcome::Succeeded), Progress::Done);
    assert_eq!(advance(&plan, 20, Outcome::Failed), Progress::Done);
    assert_eq!(advance(&plan, usize::MAX, Outcome::Failed), Progress::Done);
}

#[test]
fn replay_plays_a_script_of_outcomes() {
    let info = info_for(redir_config());
    let plan = info.config(1000).unwrap();
    assert_eq!(replay(&plan, &vec![]), Progress::Run { index: 0 });
    assert_eq!(replay(&plan, &vec![Outcome::Succeeded; 5]), Progress::Run { index: 5 });
    assert_eq!(replay(&plan, &vec![Outcome::Succeeded; 33]), Progress::Done);
    assert_eq!(replay(&plan, &vec![Outcome::Succeeded; 40]), Progress::Done);
    // the address set and the chain are there, a rule does not go in
    let mut script = vec![Outcome::Succeeded; 33];
    script[0] = Outcome::AlreadyExists;
    script[10] = Outcome::AlreadyExists;
    script[12] = Outcome::Failed;
    script[14] = Outcome::Failed;
    assert_eq!(replay(&plan, &script), Progress::Failed { index: 12 });
    // only the kernel switches fail
    let mut script = vec![Outcome::Succeeded; 33];
    script[30] = Outcome::Failed;
    script[32] = Outcome::Failed;
    assert_eq!(replay(&plan, &script), Progress::Done);
    // cleanup, twice over, on a host where nothing is there
    let clean = info.clean();
    assert_eq!(replay(&clean, &vec![Outcome::Failed; 20]), Progress::Done);
    assert_eq!(replay(&clean, &vec![Outcome::Failed; 20]), Progress::Done);
    assert_eq!(replay(&clean, &vec![Outcome::Failed; 7]), Progress::Run { index: 7 });
    assert_eq!(replay(&Vec::new(), &vec![Outcome::Failed]), Progress::Done);
}

#[test]
fn is_fatal_by_policy_and_outcome() {
    let needed = Step { command: Command::SetDestroy, policy: Policy::FailFast };
    let attempted = Step { command: Command::SetDestroy, policy: Policy::BestEffort };
    let create = Step { command: Command::SetCreate, policy: Policy::FailFast };
    assert!(!needed.is_fatal(Outcome::Succeeded));
    assert!(needed.is_fatal(Outcome::Failed));
    assert!(!needed.is_fatal(Outcome::AlreadyExists));
    assert!(!attempted.is_fatal(Outcome::Succeeded));
    assert!(!attempted.is_fatal(Outcome::Failed));
    assert!(!attempted.is_fatal(Outcome::AlreadyExists));
    assert!(!create.is_fatal(Outcome::Succeeded));
    assert!(!create.is_fatal(Outcome::AlreadyExists));
    assert!(create.is_fatal(Outcome::Failed));
}

#[test]
fn outcomes_are_read_from_exit_and_message() {
    assert_eq!(Outcome::of(true, ""), Outcome::Succeeded);
    assert_eq!(Outcome::of(true, "already exists"), Outcome::Succeeded);
    assert_eq!(
        Outcome::of(
            false,
            "ipset v7.15: Set cannot be created: set with the same name already exists\n"
        ),
        Outcome::AlreadyExists
    );
    assert_eq!(Outcome::of(false, "already exists"), Outcome::AlreadyExists);
    assert_eq!(Outcome::of(false, "iptables: Chain already exists.\n"), Outcome::AlreadyExists);
    assert_eq!(
        Outcome::of(false, "ipset v7.15: Element cannot be added to the set: it's already added\n"),
        Outcome::AlreadyExists
    );
    assert_eq!(Outcome::of(false, "RTNETLINK answers: File exists\n"), Outcome::AlreadyExists);
    assert_eq!(Outcome::of(true, "RTNETLINK answers: File exists\n"), Outcome::Succeeded);
    assert_eq!(Outcome::of(false, "RTNETLINK answers: No such file or directory"), Outcome::Failed);
    assert_eq!(Outcome::of(false, "file exists"), Outcome::Failed);
    assert_eq!(Outcome::of(false, ""), Outcome::Failed);
    assert_eq!(Outcome::of(false, "already exist"), Outcome::Failed);
    assert_eq!(Outcome::of(false, "Already Exists"), Outcome::Failed);
    assert_eq!(Outcome::of(false, "iptables: No chain/target/match by that name."), Outcome::Failed);
}

#[test]
fn text_contains_finds_what_is_there() {
    assert!(text_contains("", ""));
    assert!(text_contains("abc", ""));
    assert!(text_contains("abc", "abc"));
    assert!(text_contains("abc", "a"));
    assert!(text_contains("abc", "bc"));
    assert!(text_contains("aab", "ab"));
    assert!(text_contains("sät exists", "ät e"));
    assert!(!text_contains("", "a"));
    assert!(!text_contains("abc", "abcd"));
    assert!(!text_contains("abc", "ac"));
    assert!(!text_contains("abc", "cb"));
}

#[test]
fn passes_precede_the_capture_in_every_chain() {
    for config in [redir_config(), tun_config()] {
        let plan = info_for(config).config(1000).unwrap();
        let mut seen = 0;
        for (j, step) in plan.iter().enumerate() {
            let (table, chain) = match step.command {
                Command::Append { table, chain, matcher, target }
                    if target != Target::Return && !matches!(matcher, Matcher::TcpTo { .. }) =>
                {
                    (table, chain)
                }
                _ => continue,
            };
            seen += 1;
            let rule_at = |matcher: Matcher| {
                plan.iter().position(|s| {
                    s.command == Command::Append { table, chain, matcher, target: Target::Return }
                })
            };
            let exemption = rule_at(Matcher::LocalDestination).unwrap();
            assert!(exemption < j);
            if chain == Chain::Clash {
                assert!(rule_at(Matcher::Owner { uid: 1000 }).unwrap() < j);
            }
            for (i, other) in plan.iter().enumerate() {
                if let Command::Append { table: t, chain: c, target: Target::Return, .. } =
                    other.command
                {
                    if t == table && c == chain {
                        assert!(i < j);
                    }
                }
            }
        }
        assert!(seen >= 2);
    }
}

#[test]
fn the_strategies_do_not_mix() {
    let rewrites = |c: &Command| match c {
        Command::Append { target, .. } => {
            matches!(target, Target::Redirect { .. } | Target::Tproxy { .. })
        }
        Command::LocalRouteAdd { .. } => true,
        Command::SwitchOff { switch } => matches!(
            switch,
            Switch::BridgeCallIptables | Switch::BridgeCallIp6tables | Switch::BridgeCallArptables
        ),
        _ => false,
    };
    let marks = |c: &Command| match c {
        Command::Append { matcher, target, .. } => {
            matches!(target, Target::Mark { .. }) || matches!(matcher, Matcher::FromTun)
        }
        Command::TunRouteReplace { .. } => true,
        Command::SwitchOff { switch } => {
            matches!(switch, Switch::TunRpFilter | Switch::AllRpFilter)
        }
        _ => false,
    };
    let tun = info_for(tun_config()).config(1000).unwrap();
    assert!(tun.iter().all(|s| !rewrites(&s.command)));
    assert!(tun.iter().any(|s| marks(&s.command)));
    let redir = info_for(redir_config()).config(1000).unwrap();
    assert!(redir.iter().all(|s| !marks(&s.command)));
    assert!(redir.iter().any(|s| rewrites(&s.command)));
    // nor does a rendered line of one name what belongs to the other
    let info = info_for(redir_config());
    for text in lines(&info, &redir) {
        for word in ["MARK", "-i utun", "route replace", "rp_filter"] {
            assert!(!text.contains(word), "{}", text);
        }
    }
    let info = info_for(tun_config());
    for text in lines(&info, &tun) {
        for word in ["REDIRECT", "TPROXY", "-t nat", "dev lo", "bridge-nf"] {
            assert!(!text.contains(word), "{}", text);
        }
    }
}

#[test]
fn render_fills_in_the_names() {
    let append = Command::Append {
        table: Table::Mangle,
        chain: Chain::ClashExternal,
        matcher: Matcher::FromTun,
        target: Target::Return,
    };
    assert_eq!(
        render(&append, "tun 0", "my set"),
        vec!["iptables", "-t", "mangle", "-A", "CLASH_EXTERNAL", "-i", "tun 0", "-j", "RETURN"]
    );
    assert_eq!(render(&Command::SetCreate, "t", "my set"), vec!["ipset", "create", "my set", "hash:net"]);
    assert_eq!(
        render(&Command::SwitchOff { switch: Switch::TunRpFilter }, "tun0", "s"),
        vec!["sysctl", "-w", "net.ipv4.conf.tun0.rp_filter=0"]
    );
    assert_eq!(
        render(&Command::TunRouteDelete { table_id: 7 }, "tun0", "s"),
        vec!["ip", "route", "del", "default", "dev", "tun0", "table", "7"]
    );
    assert_eq!(
        render(&Command::MarkRuleAdd { mark: 1, table_id: 2, word: TableWord::Lookup }, "t", "s"),
        vec!["ip", "rule", "add", "fwmark", "1", "lookup", "2"]
    );
    assert_eq!(
        render(
            &Command::Append {
                table: Table::Nat,
                chain: Chain::Clash,
                matcher: Matcher::Any,
                target: Target::Tproxy { port: 65535, mark: u32::MAX }
            },
            "t",
            "s"
        ),
        vec![
            "iptables", "-t", "nat", "-A", "CLASH", "-j", "TPROXY", "--on-port", "65535",
            "--tproxy-mark", "4294967295"
        ]
    );
}

#[test]
fn numbers_are_written_in_decimal() {
    for n in [0u32, 1, 9, 10, 99, 100, 101, 354, 7892, 65535, 1000000, 4294967295] {
        assert_eq!(decimal_string(n), n.to_string());
    }
    assert_eq!(decimal_string(0x162), "354");
    assert_eq!(ipv4_string(Ipv4 { a: 8, b: 8, c: 4, d: 4 }), "8.8.4.4");
    assert_eq!(ipv4_string(Ipv4 { a: 255, b: 0, c: 10, d: 100 }), "255.0.10.100");
    assert_eq!(
        network_string(Network { addr: Ipv4 { a: 100, b: 64, c: 0, d: 0 }, prefix: 10 }),
        "100.64.0.0/10"
    );
}

#[test]
fn local_networks_and_resolvers_are_the_fixed_lists() {
    let nets: Vec<String> = local_networks().into_iter().map(network_string).collect();
    assert_eq!(
        nets,
        vec![
            "0.0.0.0/8", "127.0.0.0/8", "10.0.0.0/8", "169.254.0.0/16", "192.168.0.0/16",
            "224.0.0.0/4", "240.0.0.0/4", "172.16.0.0/12", "100.64.0.0/10"
        ]
    );
    let resolvers: Vec<String> = dns_resolvers().into_iter().map(ipv4_string).collect();
    assert_eq!(resolvers, vec!["8.8.8.8", "8.8.4.4"]);
}

#[test]
fn setup_chain_creates_flushes_fills_hooks() {
    let rules = vec![
        Rule { matcher: Matcher::Udp, target: Target::Return },
        Rule { matcher: Matcher::Any, target: Target::Mark { mark: 1 } },
    ];
    let (table, chain) = (Table::Nat, Chain::Clash);
    assert_eq!(
        setup_chain(table, chain, &rules, Builtin::Output),
        vec![
            Command::ChainNew { table, chain },
            Command::ChainFlush { table, chain },
            Command::Append { table, chain, matcher: Matcher::Udp, target: Target::Return },
            Command::Append { table, chain, matcher: Matcher::Any, target: Target::Mark { mark: 1 } },
            Command::Hook { table, from: Builtin::Output, chain },
        ]
    );
    assert_eq!(
        setup_chain(table, chain, &vec![], Builtin::Prerouting),
        vec![
            Command::ChainNew { table, chain },
            Command::ChainFlush { table, chain },
            Command::Hook { table, from: Builtin::Prerouting, chain },
        ]
    );
}

#[test]
fn appending_keeps_the_order() {
    let mut all = vec![1u8, 2];
    append_all(&mut all, &vec![3, 4]);
    append_all(&mut all, &vec![]);
    assert_eq!(all, vec![1, 2, 3, 4]);
    let mut plan = vec![Step { command: Command::SetCreate, policy: Policy::FailFast }];
    append_steps(&mut plan, &vec![Command::SetDestroy, Command::SetCreate], Policy::BestEffort);
    assert_eq!(
        plan,
        vec![
            Step { command: Command::SetCreate, policy: Policy::FailFast },
            Step { command: Command::SetDestroy, policy: Policy::BestEffort },
            Step { command: Command::SetCreate, policy: Policy::BestEffort },
        ]
    );
}

#[test]
fn the_builder_wants_every_field() {
    let missing = |field| Err(IptInfoBuilderError::UninitializedField { field });
    let mut builder = IptInfoBuilder::default();
    assert_eq!(builder.build().map(|_| ()), missing(Field::TunName));
    builder.tun_name("utun".to_string());
    assert_eq!(builder.build().map(|_| ()), missing(Field::TableId));
    builder.table_id(1);
    assert_eq!(builder.build().map(|_| ()), missing(Field::MarkId));
    builder.mark_id(2);
    assert_eq!(builder.build().map(|_| ()), missing(Field::LocalIpset));
    builder.local_ipset("set".to_string());
    assert_eq!(builder.build().map(|_| ()), missing(Field::ClashConfig));
    builder.clash_config(redir_config());
    let info = builder.build().unwrap();
    assert_eq!(info.tun_name(), "utun");
    assert_eq!(*info.table_id(), 1);
    assert_eq!(*info.mark_id(), 2);
    assert_eq!(info.local_ipset(), "set");
    assert_eq!(*info.clash_config(), redir_config());
    let copy = info.clone();
    assert_eq!(copy.tun_name(), "utun");
    assert_eq!(lines(&copy, &copy.clean()), lines(&info, &info.clean()));
}

#[test]
fn the_builder_refuses_zero_identifiers() {
    let mut builder = IptInfoBuilder::default();
    builder
        .tun_name("utun".to_string())
        .table_id(0)
        .mark_id(0)
        .local_ipset("set".to_string())
        .clash_config(redir_config());
    assert_eq!(
        builder.build().map(|_| ()),
        Err(IptInfoBuilderError::ZeroField { field: Field::TableId })
    );
    builder.table_id(1);
    assert_eq!(
        builder.build().map(|_| ()),
        Err(IptInfoBuilderError::ZeroField { field: Field::MarkId })
    );
    builder.mark_id(1);
    assert!(builder.build().is_ok());
    // a missing field is reported before a zero one
    let mut builder = IptInfoBuilder::default();
    builder.tun_name("utun".to_string()).table_id(0).mark_id(1);
    assert_eq!(
        builder.build().map(|_| ()),
        Err(IptInfoBuilderError::UninitializedField { field: Field::LocalIpset })
    );
}
