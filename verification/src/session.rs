//! The authenticated sector exchange run once per detected card.
//!
//! Each session authenticates the target block with the shared key, then —
//! only if authentication succeeded — performs exactly one of a block read
//! or a block write, chosen by the configured mode flag. Whatever the
//! outcome, the session ends by halting the card and resetting the crypto
//! session, so the reader is idle again for the next poll. Every failure at
//! this layer is recoverable: it is logged by the driver and the loop goes
//! on to the next poll.

use vstd::prelude::*;

use crate::actions::Action;
use crate::config::{Config, ConfigV};

verus! {

/// The single data operation of a session: a write in write mode, a read
/// otherwise — never both.
pub open spec fn op_seq(cfg: ConfigV) -> Seq<Action> {
    if cfg.write {
        seq![Action::WriteBlock { block: cfg.sector }]
    } else {
        seq![Action::ReadBlock { block: cfg.sector }]
    }
}

/// The unconditional end of every session attempt: halt the card, then
/// reset the crypto session.
pub open spec fn cleanup_seq() -> Seq<Action> {
    seq![Action::Halt, Action::StopSession]
}

/// Builds the session's one data operation.
pub fn session_op(cfg: &Config) -> (v: Vec<Action>)
    ensures
        v@ == op_seq(cfg@),
{
    let mut v: Vec<Action> = Vec::new();
    if cfg.write {
        v.push(Action::WriteBlock { block: cfg.sector });
    } else {
        v.push(Action::ReadBlock { block: cfg.sector });
    }
    proof {
        assert(v@ =~= op_seq(cfg@));
    }
    v
}

/// Builds the unconditional session cleanup.
pub fn session_cleanup() -> (v: Vec<Action>)
    ensures
        v@ == cleanup_seq(),
{
    let mut v: Vec<Action> = Vec::new();
    v.push(Action::Halt);
    v.push(Action::StopSession);
    proof {
        assert(v@ =~= cleanup_seq());
    }
    v
}

} // verus!
