//! Port-forward tunnelling core of a cluster manager: the per-session
//! traffic counters, the session registry with its one-session-per-port
//! rule, the resolution of services to pods and of named ports, and the
//! decisions of the session runner. Besides: reading resource quantities,
//! picking the variables to take over from a login shell, and the plain
//! summaries of cluster objects.

pub mod forward;
pub mod stats;
pub mod registry;
pub mod resolve;
pub mod runner;
pub mod text;
pub mod quantity;
pub mod login_env;
pub mod cluster;
