//! A periodic health-check watcher: endpoint descriptions, the plan of one
//! probing tick, the policy that routes each probe outcome to a channel with
//! a message, and the scheduler that alternates sleeping and dispatching.

pub mod endpoint;
pub mod policy;
pub mod dispatch;
pub mod scheduler;
