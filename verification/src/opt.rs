//! What a run was asked to do, and the checks that come before anything is
//! changed on the host.

use crate::clash::{configured, configured_port, lemma_ports_configured, Config};
use crate::sys::port::{lemma_resolution, owners, sole, NetworkEnvironment, ResolveError};
use vstd::prelude::*;

verus! {

/// The name of the exempt address set unless another is given.
pub const DEFAULT_LOCAL_IPSET_NAME: &'static str = "local_net_clash";

/// The routing table and the firewall mark unless others are given. The two
/// share this default and are set independently.
pub const DEFAULT_ID: u32 = 0x162;

/// The parameters of the redirection as given on the command line.
#[derive(Clone, Debug, PartialEq, Eq)]
pub struct IptConfig {
    /// The virtual interface's name.
    pub tun_name: String,
    /// The routing table that tagged packets are routed by.
    pub table_id: u32,
    /// The tag that captured packets carry.
    pub mark_id: u32,
}

impl Default for IptConfig {
    fn default() -> (r: IptConfig)
        ensures
            r.tun_name@ == "utun"@,
            r.table_id == DEFAULT_ID,
            r.mark_id == DEFAULT_ID,
    {
        IptConfig { tun_name: String::from_str("utun"), table_id: DEFAULT_ID, mark_id: DEFAULT_ID }
    }
}

/// What a run was asked to do.
#[derive(Clone, Debug, PartialEq, Eq)]
pub struct Opt {
    /// The parameters of the redirection.
    pub ipt_config: IptConfig,
    /// Where the proxy's configuration file is, if one was named.
    pub config_path: Option<String>,
    /// The proxy's configuration as far as the command line gave it.
    pub config: Config,
    /// The proxy's process, if it was named.
    pub pid: Option<u32>,
    /// Whether to tear down instead of installing.
    pub clean: bool,
    /// How much to log: the number of times that more was asked for.
    pub verbose: u8,
}

impl Default for Opt {
    fn default() -> (r: Opt)
        ensures
            r.ipt_config.tun_name@ == "utun"@,
            r.ipt_config.table_id == DEFAULT_ID,
            r.ipt_config.mark_id == DEFAULT_ID,
            r.config_path is None,
            r.config == Config::empty(),
            r.pid is None,
            !r.clean,
            r.verbose == 0,
    {
        Opt {
            ipt_config: IptConfig::default(),
            config_path: None,
            config: Config::default(),
            pid: None,
            clean: false,
            verbose: 0,
        }
    }
}

/// Why a configured port does not show the proxy at work.
#[derive(Clone, Copy, Debug, PartialEq, Eq, Structural)]
pub enum Reason {
    /// The port could be bound: nothing listens on it.
    NotInUse,
    /// The port is taken, and no single process can be named as its owner.
    NoOwner { cause: ResolveError },
    /// The port belongs to another process than the expected one.
    PidMismatch { found: u32 },
}

/// Why a run was refused before it changed anything.
#[derive(Clone, Copy, Debug, PartialEq, Eq, Structural)]
pub enum OptError {
    /// A teardown was asked for together with arguments that only an
    /// installation takes.
    InvalidCleanArguments,
    /// No process was named and the configuration has no port to find it by.
    NoPorts,
    /// No process was named and the owner of the configured port cannot be.
    PidNotFound { port: u16, cause: ResolveError },
    /// The proxy has not started: a port that it should have bound does not
    /// show it at work.
    NotStarted { port: u16, reason: Reason },
}

/// What is wrong with a port that the process `pid` should have bound, if
/// anything is. The probe is asked first: a port that could be bound is not in
/// use, whoever the tables name.
pub open spec fn port_verdict(env: NetworkEnvironment, port: u16, pid: u32) -> Option<Reason> {
    if env.is_free(port) {
        Some(Reason::NotInUse)
    } else {
        match env.owner(port) {
            Ok(found) => if found == pid {
                None
            } else {
                Some(Reason::PidMismatch { found })
            },
            Err(cause) => Some(Reason::NoOwner { cause }),
        }
    }
}

/// The check of one field of the configuration. A field that configures no
/// port, be it absent or 0, has nothing to show and passes.
pub open spec fn spec_port_enabled(env: NetworkEnvironment, port: Option<u16>, pid: u32) -> Result<
    (),
    OptError,
> {
    match configured(port) {
        None => Ok(()),
        Some(port) => match port_verdict(env, port, pid) {
            None => Ok(()),
            Some(reason) => Err(OptError::NotStarted { port, reason }),
        },
    }
}

/// The check of a whole configuration: every configured port must show the
/// process `pid` at work. The ports are taken in the order `port`,
/// `mixed_port`, `redir_port`, `socks_port`, and the first that fails is
/// reported.
pub open spec fn verification(config: Config, pid: u32, env: NetworkEnvironment) -> Result<
    (),
    OptError,
> {
    if spec_port_enabled(env, config.port, pid) is Err {
        spec_port_enabled(env, config.port, pid)
    } else if spec_port_enabled(env, config.mixed_port, pid) is Err {
        spec_port_enabled(env, config.mixed_port, pid)
    } else if spec_port_enabled(env, config.redir_port, pid) is Err {
        spec_port_enabled(env, config.redir_port, pid)
    } else {
        spec_port_enabled(env, config.socks_port, pid)
    }
}

/// The process to redirect to: the one that was named, else the owner of the
/// first configured port.
pub open spec fn spec_pid(named: Option<u32>, config: Config, env: NetworkEnvironment) -> Result<
    u32,
    OptError,
> {
    match named {
        Some(pid) => Ok(pid),
        None => match config.spec_first_port() {
            None => Err(OptError::NoPorts),
            Some(port) => match env.owner(port) {
                Ok(pid) => Ok(pid),
                Err(cause) => Err(OptError::PidNotFound { port, cause }),
            },
        },
    }
}

/// The configuration of a run: what the command line gave, completed from the
/// file where one was loaded.
pub open spec fn spec_config(given: Config, file: Option<Config>) -> Config {
    match file {
        Some(file) => given.merged(file),
        None => given,
    }
}

/// Checks that one field of the configuration shows the process `pid` at
/// work. A field that configures no port, be it absent or 0, passes.
pub fn port_enabled(env: &NetworkEnvironment, port: Option<u16>, pid: u32) -> (r: Result<
    (),
    OptError,
>)
    ensures
        r == spec_port_enabled(*env, port, pid),
{
    let port = match configured_port(port) {
        Some(port) => port,
        None => {
            return Ok(());
        },
    };
    if env.port_is_free(port) {
        return Err(OptError::NotStarted { port, reason: Reason::NotInUse });
    }
    match env.owner_of(port) {
        Ok(found) => if found == pid {
            Ok(())
        } else {
            Err(OptError::NotStarted { port, reason: Reason::PidMismatch { found } })
        },
        Err(cause) => Err(OptError::NotStarted { port, reason: Reason::NoOwner { cause } }),
    }
}

/// Checks that every port that the configuration names is taken, and taken by
/// the process `pid`. The first port that fails is reported; a configuration
/// that names no port passes.
pub fn verify(config: &Config, pid: u32, env: &NetworkEnvironment) -> (r: Result<(), OptError>)
    ensures
        r == verification(*config, pid, *env),
{
    if let Err(e) = port_enabled(env, config.port, pid) {
        return Err(e);
    }
    if let Err(e) = port_enabled(env, config.mixed_port, pid) {
        return Err(e);
    }
    if let Err(e) = port_enabled(env, config.redir_port, pid) {
        return Err(e);
    }
    port_enabled(env, config.socks_port, pid)
}

impl Opt {
    /// What a teardown may be asked with: no configuration file, no
    /// configuration, no process.
    pub open spec fn clean_arguments_valid(&self) -> bool {
        self.config_path is None && self.config == Config::empty() && self.pid is None
    }

    /// Refuses a teardown that was asked for together with arguments that only
    /// an installation takes. Anything else passes.
    pub fn check_clean(&self) -> (r: Result<(), OptError>)
        ensures
            r is Ok <==> (self.clean ==> self.clean_arguments_valid()),
            r is Err ==> r == Err::<(), OptError>(OptError::InvalidCleanArguments),
    {
        if !self.clean {
            return Ok(());
        }
        if self.config_path.is_none() && self.config.is_empty() && self.pid.is_none() {
            Ok(())
        } else {
            Err(OptError::InvalidCleanArguments)
        }
    }

    /// The configuration of the run: what the command line gave, completed
    /// from `file`, the configuration file's content where one was loaded. A
    /// value from the command line wins over one from the file.
    pub fn get_config(&self, file: Option<Config>) -> (r: Config)
        ensures
            r == spec_config(self.config, file),
    {
        let mut config = self.config;
        if let Some(file) = file {
            config.fill_if_some(file);
        }
        config
    }

    /// The process to redirect to: the one that was named, else the owner of
    /// the first port that `config` names, taken in the order `port`,
    /// `mixed_port`, `socks_port`, `redir_port`.
    pub fn get_pid(&self, config: &Config, env: &NetworkEnvironment) -> (r: Result<u32, OptError>)
        ensures
            r == spec_pid(self.pid, *config, *env),
    {
        if let Some(pid) = self.pid {
            return Ok(pid);
        }
        let port = match config.first_port() {
            Some(port) => port,
            None => {
                return Err(OptError::NoPorts);
            },
        };
        match env.owner_of(port) {
            Ok(pid) => Ok(pid),
            Err(cause) => Err(OptError::PidNotFound { port, cause }),
        }
    }

    /// Checks that the proxy has started: finds its process, then checks that
    /// every port that the run's configuration names is taken, and taken by
    /// that process. `file` is the configuration file's content where one was
    /// loaded, `env` what was observed of the host.
    ///
    /// The observation is a moment. A port may change hands between the check
    /// and what follows it, so a pass is the best that can be known, not a
    /// guarantee.
    pub fn check_clash_started(&self, file: Option<Config>, env: &NetworkEnvironment) -> (r: Result<
        (),
        OptError,
    >)
        ensures
            r == match spec_pid(self.pid, spec_config(self.config, file), *env) {
                Ok(pid) => verification(spec_config(self.config, file), pid, *env),
                Err(e) => Err(e),
            },
    {
        let config = self.get_config(file);
        let pid = match self.get_pid(&config, env) {
            Ok(pid) => pid,
            Err(e) => {
                return Err(e);
            },
        };
        verify(&config, pid, env)
    }
}

/// Where no process is bound to any configured port, the proxy has not
/// started.
///
/// Take a configuration that names at least one port, and a host on which no
/// process holds a socket on any of them. Then the check fails, for whatever
/// process it is made, and it is the first configured port that is reported.
/// (A configuration that names no port has nothing to show and passes.)
pub proof fn lemma_unbound_ports_fail(config: Config, pid: u32, env: NetworkEnvironment)
    requires
        config.spec_ports().len() > 0,
        forall|port: u16, q: u32|
            config.spec_ports().contains(port) ==> !owners(
                port,
                env.sockets@,
                env.processes@,
            ).contains(q),
    ensures
        verification(config, pid, env) matches Err(OptError::NotStarted { port, reason })
            && port == config.spec_ports()[0] && (reason == Reason::NotInUse || reason == (
        Reason::NoOwner { cause: ResolveError::NotFound })),
{
    let ports = config.spec_ports();
    let first = ports[0];
    assert(ports.contains(first));
    lemma_resolution(owners(first, env.sockets@, env.processes@));
    assert(port_verdict(env, first, pid) is Some);
}

/// Where one process holds every configured port, the check passes for that
/// process and for no other.
///
/// Take a host on which every configured port is taken, and taken by the
/// process `owner` alone. Then the check made for `owner` passes. Made
/// for any other process it fails, if a port is configured at all, with a
/// mismatch that names the first configured port and `owner`.
pub proof fn lemma_bound_ports_pass(config: Config, owner: u32, pid: u32, env: NetworkEnvironment)
    requires
        forall|port: u16|
            config.spec_ports().contains(port) ==> !env.is_free(port) && sole(
                owners(port, env.sockets@, env.processes@),
                owner,
            ),
    ensures
        pid == owner ==> verification(config, pid, env) is Ok,
        pid != owner && config.spec_ports().len() > 0 ==> verification(config, pid, env) == Err::<
            (),
            OptError,
        >(
            OptError::NotStarted {
                port: config.spec_ports()[0],
                reason: Reason::PidMismatch { found: owner },
            },
        ),
{
    let ports = config.spec_ports();
    assert forall|slot: Option<u16>|
        (configured(slot) matches Some(port) ==> ports.contains(port))
        implies #[trigger] spec_port_enabled(env, slot, pid) == (match configured(slot) {
        Some(port) if pid != owner => Err::<(), OptError>(
            OptError::NotStarted { port, reason: Reason::PidMismatch { found: owner } },
        ),
        _ => Ok(()),
    }) by {
        if let Some(port) = configured(slot) {
            lemma_resolution(owners(port, env.sockets@, env.processes@));
        }
    }
    lemma_ports_configured(config);
}

} // verus!
