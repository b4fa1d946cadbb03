//! Reachability probing over UDP: the probe payload, the table of pending
//! probes keyed by peer address, the reply dispatcher's decisions and the
//! probe client's classification of outcomes.

pub mod magic_head;
pub mod peer;
pub mod request_manager;
pub mod probe;
pub mod dispatcher;
pub mod driver;
