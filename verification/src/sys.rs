//! The host-facing side: who owns a port, which user is meant, and the
//! firewall, routing and address-set commands of each capture strategy.

pub mod command;
pub mod ipt;
pub mod laws;
pub mod plan;
pub mod port;
pub mod render;
pub mod run;
pub mod user;

pub use self::ipt::{IptInfo, IptInfoBuilder, IptInfoBuilderError};
pub use self::plan::clean_chain;
pub use self::port::get_pid_by_port;
pub use self::user::parse_user;
