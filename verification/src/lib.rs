//! Transparent redirection of a host's traffic into a locally running proxy.
//!
//! The library decides; it never touches the host. It resolves which process
//! owns a listening port from a snapshot of the socket tables, checks that the
//! proxy has bound the ports its configuration declares, and lays out the
//! ordered firewall and routing commands of the two capture strategies together
//! with the rules by which a run of those commands goes on or stops.

pub mod clash;
pub mod opt;
pub mod sys;
