//! The live things that daemons are held by. The library moves them about and never looks
//! inside, so their types are left open.
use vstd::prelude::*;

verus! {

/// The types of the handles that a program keeps on the daemons it runs. A clone of a handle is
/// a handle on the same thing.
pub trait Handles: Clone {
    /// A spawned process.
    type Process: Clone;

    /// A client of bitcoind's RPC interface.
    type BitcoindClient: Clone;

    /// A connection to lightningd's RPC socket.
    type ClnRpc: Clone;

    /// A client of lnd's RPC interface.
    type LndClient: Clone;

    /// A running federation.
    type Federation: Clone;

    /// Where a file lies.
    type Path;

    /// What is reported when work on any of these fails.
    type Error;
}

/// What one attempt of a repeated check found.
pub enum Poll {
    /// The awaited condition holds.
    Ready,
    /// It does not hold yet: wait for the condition named `poll` and attempt again.
    Pending { poll: &'static str },
}

/// The outcome of an attempt that found the condition named `poll` to hold or not.
pub open spec fn poll_of(holds: bool, poll: &'static str) -> Poll {
    if holds {
        Poll::Ready
    } else {
        Poll::Pending { poll }
    }
}

/// An attempt is over exactly when the condition holds, and else waits for the condition's name.
pub proof fn law_attempt_is_over_when_it_holds(holds: bool, poll: &'static str)
    ensures
        poll_of(holds, poll) is Ready <==> holds,
        poll_of(holds, poll) matches Poll::Pending { poll: name } ==> name == poll,
{
}

} // verus!
