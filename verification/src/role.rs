use vstd::prelude::*;

verus! {

/// The part a connection plays in a session, fixed for its lifetime.
#[derive(Clone, Copy, Debug, PartialEq, Eq, Structural)]
pub enum Role {
    /// Owns the shared stream; at most one per session.
    Horizon,
    /// Watches and sends control input; any number per session.
    Voyager,
}

} // verus!
