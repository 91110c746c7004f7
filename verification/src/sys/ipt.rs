//! The parameters of a redirection and the plans that follow from them.

use super::command::{
    dns_resolvers, local_networks, spec_local_networks, Builtin, Chain, Command, Matcher, Switch,
    Table, TableWord, Target,
};
use super::plan::{
    append_all, append_steps, clean_chain, clean_plan, redir_firewall, redir_forward_rules,
    redir_local_rules, redir_plan, redir_routing, redir_switches, redir_udp_rules, set_adds,
    set_plan, setup_chain, tun_firewall, tun_forward_rules, tun_local_rules, tun_plan,
    tun_routing, tun_switches, Policy, Rule, Step,
};
use super::render::{argv, render};
use crate::clash::{configured, configured_port, Config};
use vstd::prelude::*;

verus! {

/// Why no plan could be laid out.
#[derive(Clone, Copy, Debug, PartialEq, Eq, Structural)]
pub enum ConfigError {
    /// Packet rewriting was selected and the configuration names no port to
    /// redirect to.
    MissingRedirPort,
}

/// The parameters of a redirection. They are fixed once built; the routing
/// table and the firewall mark are never zero.
#[derive(Debug)]
pub struct IptInfo {
    tun_name: String,
    table_id: u32,
    mark_id: u32,
    local_ipset: String,
    clash_config: Config,
}

/// What an `IptInfo` holds.
pub struct IptView {
    /// The virtual interface's name.
    pub tun_name: Seq<char>,
    /// The routing table that tagged packets are routed by.
    pub table_id: u32,
    /// The tag that captured packets carry.
    pub mark_id: u32,
    /// The name of the exempt address set.
    pub local_ipset: Seq<char>,
    /// The proxy's configuration.
    pub clash_config: Config,
}

impl IptView {
    /// The identifiers that must not be zero are not.
    pub open spec fn wf(self) -> bool {
        self.table_id != 0 && self.mark_id != 0
    }

    /// The plan that installs the selected strategy: the exempt address set
    /// first, then marking if the virtual interface is enabled, else packet
    /// rewriting. Packet rewriting needs a port to redirect to, and port 0 is
    /// none; without one there is no plan, and so nothing is run.
    pub open spec fn install_plan(self, uid: u32) -> Result<Seq<Step>, ConfigError> {
        if self.clash_config.spec_tun_enabled() {
            Ok(set_plan() + tun_plan(uid, self.mark_id, self.table_id))
        } else {
            match configured(self.clash_config.redir_port) {
                Some(port) => Ok(set_plan() + redir_plan(uid, port, self.mark_id, self.table_id)),
                None => Err(ConfigError::MissingRedirPort),
            }
        }
    }
}

impl View for IptInfo {
    type V = IptView;

    closed spec fn view(&self) -> IptView {
        IptView {
            tun_name: self.tun_name@,
            table_id: self.table_id,
            mark_id: self.mark_id,
            local_ipset: self.local_ipset@,
            clash_config: self.clash_config,
        }
    }
}

impl Clone for IptInfo {
    fn clone(&self) -> (r: IptInfo)
        ensures
            r@ == self@,
    {
        proof {
            use_type_invariant(self);
        }
        IptInfo {
            tun_name: self.tun_name.clone(),
            table_id: self.table_id,
            mark_id: self.mark_id,
            local_ipset: self.local_ipset.clone(),
            clash_config: self.clash_config,
        }
    }
}

impl IptInfo {
    #[verifier::type_invariant]
    closed spec fn inv(&self) -> bool {
        self@.wf()
    }

    /// Lays out the steps that create the exempt address set and fill it with
    /// the local networks. On a host where the set is there, or holds some of
    /// the networks, those steps find their work done and the run goes on.
    pub fn config_ipset(&self) -> (r: Vec<Step>)
        ensures
            r@ == set_plan(),
    {
        let nets = local_networks();
        let mut commands: Vec<Command> = Vec::new();
        commands.push(Command::SetCreate);
        let mut i: usize = 0;
        while i < nets.len()
            invariant
                i <= nets.len(),
                nets@ == spec_local_networks(),
                commands@ == seq![Command::SetCreate] + set_adds(nets@.subrange(0, i as int)),
            decreases nets.len() - i,
        {
            commands.push(Command::SetAdd { net: nets[i] });
            i += 1;
            assert(commands@ =~= seq![Command::SetCreate] + set_adds(nets@.subrange(0, i as int)));
        }
        assert(nets@.subrange(0, nets.len() as int) =~= nets@);
        let mut r: Vec<Step> = Vec::new();
        append_steps(&mut r, &commands, Policy::FailFast);
        assert(r@ =~= set_plan());
        r
    }

    /// Lays out the packet-rewriting strategy for a proxy that runs as `uid`.
    /// Fails, before any step exists, if the configuration names no port to
    /// redirect to; port 0 is none.
    ///
    /// The plan can be run on a host that holds an earlier installation: a
    /// chain that is there is emptied and filled anew, and a policy rule or a
    /// route that is there is left as it is. One thing doubles. The jump from
    /// `OUTPUT` or `PREROUTING` into a chain is appended each time, and the
    /// packet filter takes a second jump without a word. The order of the
    /// commands is fixed, so the plan cannot take the old jump out first. Run
    /// the cleanup between two installations; after two installations in a
    /// row, run it twice, since each cleanup removes one jump.
    pub fn config_redir(&self, uid: u32) -> (r: Result<Vec<Step>, ConfigError>)
        ensures
            match r {
                Ok(steps) => configured(self@.clash_config.redir_port) matches Some(port) && steps@
                    == redir_plan(uid, port, self@.mark_id, self@.table_id),
                Err(e) => configured(self@.clash_config.redir_port) is None && e
                    == ConfigError::MissingRedirPort,
            },
    {
        let port = match configured_port(self.clash_config.redir_port) {
            Some(port) => port,
            None => {
                return Err(ConfigError::MissingRedirPort);
            },
        };
        let (mark, table_id) = (self.mark_id, self.table_id);
        let return_local = Rule { matcher: Matcher::LocalDestination, target: Target::Return };
        let redirect_tcp = Rule { matcher: Matcher::Tcp, target: Target::Redirect { port } };

        // traffic of the host itself: the proxy's own packets must pass, or
        // they would loop
        let mut local: Vec<Rule> = Vec::new();
        local.push(return_local);
        local.push(Rule { matcher: Matcher::Owner { uid }, target: Target::Return });
        local.push(redirect_tcp);
        assert(local@ =~= redir_local_rules(uid, port));

        // forwarded TCP: the public resolvers first
        let resolvers = dns_resolvers();
        let mut forward: Vec<Rule> = Vec::new();
        forward.push(
            Rule { matcher: Matcher::TcpTo { dest: resolvers[0] }, target: Target::Redirect { port } },
        );
        forward.push(
            Rule { matcher: Matcher::TcpTo { dest: resolvers[1] }, target: Target::Redirect { port } },
        );
        forward.push(return_local);
        forward.push(redirect_tcp);
        assert(forward@ =~= redir_forward_rules(port));

        // forwarded UDP
        let mut udp: Vec<Rule> = Vec::new();
        udp.push(return_local);
        udp.push(Rule { matcher: Matcher::Udp, target: Target::Tproxy { port, mark } });
        assert(udp@ =~= redir_udp_rules(port, mark));

        let mut needed = setup_chain(Table::Nat, Chain::Clash, &local, Builtin::Output);
        append_all(
            &mut needed,
            &setup_chain(Table::Nat, Chain::ClashExternal, &forward, Builtin::Prerouting),
        );
        append_all(
            &mut needed,
            &setup_chain(Table::Mangle, Chain::ClashExternal, &udp, Builtin::Prerouting),
        );
        assert(needed@ =~= redir_firewall(uid, port, mark));
        needed.push(Command::MarkRuleAdd { mark, table_id, word: TableWord::Table });
        needed.push(Command::LocalRouteAdd { table_id });
        assert(needed@ =~= redir_firewall(uid, port, mark) + redir_routing(mark, table_id));

        let mut attempted: Vec<Command> = Vec::new();
        attempted.push(Command::SwitchOff { switch: Switch::BridgeCallIptables });
        attempted.push(Command::SwitchOff { switch: Switch::BridgeCallIp6tables });
        attempted.push(Command::SwitchOff { switch: Switch::BridgeCallArptables });
        assert(attempted@ =~= redir_switches());

        let mut steps: Vec<Step> = Vec::new();
        append_steps(&mut steps, &needed, Policy::FailFast);
        append_steps(&mut steps, &attempted, Policy::BestEffort);
        assert(steps@ =~= redir_plan(uid, port, mark, table_id));
        Ok(steps)
    }

    /// Lays out the marking strategy for a proxy that runs as `uid`.
    ///
    /// The plan can be run on a host that holds an earlier installation: a
    /// chain that is there is emptied and filled anew, the route is replaced,
    /// and a policy rule that is there is left as it is. One thing doubles.
    /// The jump from `OUTPUT` or `PREROUTING` into a chain is appended each
    /// time, and the packet filter takes a second jump without a word. The
    /// order of the commands is fixed, so the plan cannot take the old jump
    /// out first. Run the cleanup between two installations; after two
    /// installations in a row, run it twice, since each cleanup removes one
    /// jump.
    pub fn config_tun(&self, uid: u32) -> (r: Vec<Step>)
        ensures
            r@ == tun_plan(uid, self@.mark_id, self@.table_id),
    {
        let (mark, table_id) = (self.mark_id, self.table_id);
        let return_local = Rule { matcher: Matcher::LocalDestination, target: Target::Return };
        let mark_all = Rule { matcher: Matcher::Any, target: Target::Mark { mark } };

        // traffic of the host itself: the proxy's own packets pass before
        // anything is tagged
        let mut local: Vec<Rule> = Vec::new();
        local.push(Rule { matcher: Matcher::Owner { uid }, target: Target::Return });
        local.push(return_local);
        local.push(mark_all);
        assert(local@ =~= tun_local_rules(uid, mark));

        // forwarded traffic: what the proxy emits on the virtual interface is
        // not tagged again
        let mut forward: Vec<Rule> = Vec::new();
        forward.push(return_local);
        forward.push(Rule { matcher: Matcher::FromTun, target: Target::Return });
        forward.push(mark_all);
        assert(forward@ =~= tun_forward_rules(mark));

        let mut needed = setup_chain(Table::Mangle, Chain::Clash, &local, Builtin::Output);
        append_all(
            &mut needed,
            &setup_chain(Table::Mangle, Chain::ClashExternal, &forward, Builtin::Prerouting),
        );
        assert(needed@ =~= tun_firewall(uid, mark));
        needed.push(Command::TunRouteReplace { table_id });
        needed.push(Command::MarkRuleAdd { mark, table_id, word: TableWord::Lookup });
        assert(needed@ =~= tun_firewall(uid, mark) + tun_routing(mark, table_id));

        let mut attempted: Vec<Command> = Vec::new();
        attempted.push(Command::SwitchOff { switch: Switch::TunRpFilter });
        attempted.push(Command::SwitchOff { switch: Switch::AllRpFilter });
        assert(attempted@ =~= tun_switches());

        let mut steps: Vec<Step> = Vec::new();
        append_steps(&mut steps, &needed, Policy::FailFast);
        append_steps(&mut steps, &attempted, Policy::BestEffort);
        assert(steps@ =~= tun_plan(uid, mark, table_id));
        steps
    }

    /// Lays out the installation of the selected strategy for a proxy that
    /// runs as `uid`: marking if the configuration enables the virtual
    /// interface, packet rewriting otherwise, never both. A configuration that
    /// the selected strategy cannot use is refused before any step exists.
    ///
    /// An installation can be repeated; see the strategies for what a second
    /// one leaves on the host.
    pub fn config(&self, uid: u32) -> (r: Result<Vec<Step>, ConfigError>)
        ensures
            match r {
                Ok(steps) => self@.install_plan(uid) == Ok::<Seq<Step>, ConfigError>(steps@),
                Err(e) => self@.install_plan(uid) == Err::<Seq<Step>, ConfigError>(e),
            },
    {
        let strategy = if self.clash_config.tun_enabled() {
            self.config_tun(uid)
        } else {
            match self.config_redir(uid) {
                Ok(steps) => steps,
                Err(e) => {
                    return Err(e);
                },
            }
        };
        let mut steps = self.config_ipset();
        append_all(&mut steps, &strategy);
        Ok(steps)
    }

    /// Lays out the cleanup: the policy rule, both default routes, both owned
    /// chains in both tables, the exempt address set. It undoes either
    /// strategy and needs neither to have been installed.
    pub fn clean(&self) -> (r: Vec<Step>)
        ensures
            r@ == clean_plan(self@.mark_id, self@.table_id),
    {
        let (mark, table_id) = (self.mark_id, self.table_id);
        let mut routing: Vec<Command> = Vec::new();
        routing.push(Command::MarkRuleDelete { mark, table_id });
        routing.push(Command::TunRouteDelete { table_id });
        routing.push(Command::LocalRouteDelete { table_id });
        let mut steps: Vec<Step> = Vec::new();
        append_steps(&mut steps, &routing, Policy::BestEffort);

        append_all(&mut steps, &clean_chain(Table::Nat, Chain::Clash));
        append_all(&mut steps, &clean_chain(Table::Nat, Chain::ClashExternal));
        append_all(&mut steps, &clean_chain(Table::Mangle, Chain::Clash));
        append_all(&mut steps, &clean_chain(Table::Mangle, Chain::ClashExternal));

        let mut set: Vec<Command> = Vec::new();
        set.push(Command::SetDestroy);
        append_steps(&mut steps, &set, Policy::BestEffort);
        assert(steps@ =~= clean_plan(mark, table_id));
        steps
    }

    /// The virtual interface's name.
    pub fn tun_name(&self) -> (r: &String)
        ensures
            r@ == self@.tun_name,
    {
        &self.tun_name
    }

    /// The routing table that tagged packets are routed by. It is not zero.
    pub fn table_id(&self) -> (r: &u32)
        ensures
            *r == self@.table_id,
            *r != 0,
    {
        proof {
            use_type_invariant(self);
        }
        &self.table_id
    }

    /// The tag that captured packets carry. It is not zero.
    pub fn mark_id(&self) -> (r: &u32)
        ensures
            *r == self@.mark_id,
            *r != 0,
    {
        proof {
            use_type_invariant(self);
        }
        &self.mark_id
    }

    /// The name of the exempt address set.
    pub fn local_ipset(&self) -> (r: &String)
        ensures
            r@ == self@.local_ipset,
    {
        &self.local_ipset
    }

    /// The proxy's configuration.
    pub fn clash_config(&self) -> (r: &Config)
        ensures
            *r == self@.clash_config,
    {
        &self.clash_config
    }

    /// Renders a command of one of this redirection's plans as the argument
    /// vector to execute, with the names of the virtual interface and the
    /// exempt address set filled in.
    pub fn render(&self, command: &Command) -> (r: Vec<String>)
        ensures
            r.deep_view() == argv(*command, self@.tun_name, self@.local_ipset),
    {
        render(command, self.tun_name.as_str(), self.local_ipset.as_str())
    }
}

/// A parameter of a redirection.
#[derive(Clone, Copy, Debug, PartialEq, Eq, Structural)]
pub enum Field {
    TunName,
    TableId,
    MarkId,
    LocalIpset,
    ClashConfig,
}

/// Why the parameters of a redirection could not be built.
#[derive(Clone, Copy, Debug, PartialEq, Eq, Structural)]
pub enum IptInfoBuilderError {
    /// The parameter was never set.
    UninitializedField { field: Field },
    /// The parameter is zero, which the host would take for "none".
    ZeroField { field: Field },
}

/// Collects the parameters of a redirection one by one.
#[derive(Debug)]
pub struct IptInfoBuilder {
    tun_name: Option<String>,
    table_id: Option<u32>,
    mark_id: Option<u32>,
    local_ipset: Option<String>,
    clash_config: Option<Config>,
}

/// What an `IptInfoBuilder` holds.
pub struct IptInfoBuilderView {
    pub tun_name: Option<Seq<char>>,
    pub table_id: Option<u32>,
    pub mark_id: Option<u32>,
    pub local_ipset: Option<Seq<char>>,
    pub clash_config: Option<Config>,
}

impl IptInfoBuilderView {
    /// What `build` makes of the parameters: the redirection if every
    /// parameter was set and neither identifier is zero, else the first thing
    /// that is missing, then the first that is zero, in the order of the
    /// fields.
    pub open spec fn build(self) -> Result<IptView, IptInfoBuilderError> {
        if self.tun_name is None {
            Err(IptInfoBuilderError::UninitializedField { field: Field::TunName })
        } else if self.table_id is None {
            Err(IptInfoBuilderError::UninitializedField { field: Field::TableId })
        } else if self.mark_id is None {
            Err(IptInfoBuilderError::UninitializedField { field: Field::MarkId })
        } else if self.local_ipset is None {
            Err(IptInfoBuilderError::UninitializedField { field: Field::LocalIpset })
        } else if self.clash_config is None {
            Err(IptInfoBuilderError::UninitializedField { field: Field::ClashConfig })
        } else if self.table_id == Some(0u32) {
            Err(IptInfoBuilderError::ZeroField { field: Field::TableId })
        } else if self.mark_id == Some(0u32) {
            Err(IptInfoBuilderError::ZeroField { field: Field::MarkId })
        } else {
            Ok(
                IptView {
                    tun_name: self.tun_name->Some_0,
                    table_id: self.table_id->Some_0,
                    mark_id: self.mark_id->Some_0,
                    local_ipset: self.local_ipset->Some_0,
                    clash_config: self.clash_config->Some_0,
                },
            )
        }
    }
}

/// The text that an optional string holds.
pub open spec fn text_of(s: Option<String>) -> Option<Seq<char>> {
    match s {
        Some(s) => Some(s@),
        None => None,
    }
}

impl View for IptInfoBuilder {
    type V = IptInfoBuilderView;

    closed spec fn view(&self) -> IptInfoBuilderView {
        IptInfoBuilderView {
            tun_name: text_of(self.tun_name),
            table_id: self.table_id,
            mark_id: self.mark_id,
            local_ipset: text_of(self.local_ipset),
            clash_config: self.clash_config,
        }
    }
}

impl Default for IptInfoBuilder {
    fn default() -> (r: IptInfoBuilder)
        ensures
            r@ == (IptInfoBuilderView {
                tun_name: None,
                table_id: None,
                mark_id: None,
                local_ipset: None,
                clash_config: None,
            }),
    {
        IptInfoBuilder {
            tun_name: None,
            table_id: None,
            mark_id: None,
            local_ipset: None,
            clash_config: None,
        }
    }
}

impl IptInfoBuilder {
    /// Sets the virtual interface's name.
    pub fn tun_name(&mut self, value: String) -> (r: &mut IptInfoBuilder)
        ensures
            r@ == (IptInfoBuilderView { tun_name: Some(value@), ..old(self)@ }),
            *final(self) == *final(r),
    {
        self.tun_name = Some(value);
        self
    }

    /// Sets the routing table that tagged packets are routed by.
    pub fn table_id(&mut self, value: u32) -> (r: &mut IptInfoBuilder)
        ensures
            r@ == (IptInfoBuilderView { table_id: Some(value), ..old(self)@ }),
            *final(self) == *final(r),
    {
        self.table_id = Some(value);
        self
    }

    /// Sets the tag that captured packets carry.
    pub fn mark_id(&mut self, value: u32) -> (r: &mut IptInfoBuilder)
        ensures
            r@ == (IptInfoBuilderView { mark_id: Some(value), ..old(self)@ }),
            *final(self) == *final(r),
    {
        self.mark_id = Some(value);
        self
    }

    /// Sets the name of the exempt address set.
    pub fn local_ipset(&mut self, value: String) -> (r: &mut IptInfoBuilder)
        ensures
            r@ == (IptInfoBuilderView { local_ipset: Some(value@), ..old(self)@ }),
            *final(self) == *final(r),
    {
        self.local_ipset = Some(value);
        self
    }

    /// Sets the proxy's configuration.
    pub fn clash_config(&mut self, value: Config) -> (r: &mut IptInfoBuilder)
        ensures
            r@ == (IptInfoBuilderView { clash_config: Some(value), ..old(self)@ }),
            *final(self) == *final(r),
    {
        self.clash_config = Some(value);
        self
    }

    /// Builds the redirection from the parameters collected so far. Every
    /// parameter must have been set, and neither the routing table nor the
    /// mark may be zero.
    pub fn build(&self) -> (r: Result<IptInfo, IptInfoBuilderError>)
        ensures
            match r {
                Ok(info) => self@.build() == Ok::<IptView, IptInfoBuilderError>(info@),
                Err(e) => self@.build() == Err::<IptView, IptInfoBuilderError>(e),
            },
    {
        let tun_name = match &self.tun_name {
            Some(name) => name.clone(),
            None => {
                return Err(IptInfoBuilderError::UninitializedField { field: Field::TunName });
            },
        };
        let table_id = match self.table_id {
            Some(id) => id,
            None => {
                return Err(IptInfoBuilderError::UninitializedField { field: Field::TableId });
            },
        };
        let mark_id = match self.mark_id {
            Some(id) => id,
            None => {
                return Err(IptInfoBuilderError::UninitializedField { field: Field::MarkId });
            },
        };
        let local_ipset = match &self.local_ipset {
            Some(name) => name.clone(),
            None => {
                return Err(IptInfoBuilderError::UninitializedField { field: Field::LocalIpset });
            },
        };
        let clash_config = match self.clash_config {
            Some(config) => config,
            None => {
                return Err(IptInfoBuilderError::UninitializedField { field: Field::ClashConfig });
            },
        };
        if table_id == 0 {
            return Err(IptInfoBuilderError::ZeroField { field: Field::TableId });
        }
        if mark_id == 0 {
            return Err(IptInfoBuilderError::ZeroField { field: Field::MarkId });
        }
        Ok(IptInfo { tun_name, table_id, mark_id, local_ipset, clash_config })
    }
}

} // verus!
