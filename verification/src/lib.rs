//! An actor runtime core: identifiers, mailboxes, supervision and spawning,
//! written as deterministic state transitions whose contracts are proved.

pub mod actor_inner_error;
pub mod actor_system;
pub mod auto_respond;
pub mod clock;
pub mod config;
pub mod endpoint;
pub mod event_stream;
pub mod mailbox;
pub mod message;
pub mod message_envelope;
pub mod message_headers;
pub mod messages;
pub mod middleware_chain;
pub mod pid;
pub mod process;
pub mod pid_set;
pub mod props;
pub mod registry;
pub mod restart_statistics;
pub mod supervision_event;
pub mod supervisor;
pub mod system_view;
pub mod text;

use vstd::prelude::*;

verus! {

/// Sum of two sizes. The sum has to fit into a `usize`.
pub fn add(left: usize, right: usize) -> (sum: usize)
    requires
        left + right <= usize::MAX,
    ensures
        sum == left + right,
{
    left + right
}

} // verus!
