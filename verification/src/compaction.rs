//! When the interactive session compacts its context on its own after a
//! reply, and what it tells the user.
use vstd::prelude::*;
use crate::text::owned;

verus! {

/// How the last assistant reply stopped.
#[derive(Clone, Copy, Debug, PartialEq, Eq, Structural)]
pub enum ReplyStop {
    Aborted,
    Error,
    /// Any other stop: the end of a turn, a tool call, the length limit.
    Finished,
}

/// What the check reads of the last assistant reply.
#[derive(Clone, Copy, Debug, PartialEq, Eq, Structural)]
pub struct ReplyFacts {
    pub stop: ReplyStop,
    /// The reply came from the model now selected (same provider and id).
    pub same_model: bool,
    /// The reply reports that the context window overflowed.
    pub overflowed: bool,
    /// Whether the context is over the compaction threshold: `None` where
    /// the reply failed and no message carries a token count to estimate
    /// the context from.
    pub over_threshold: Option<bool>,
}

/// What the check reads of the session.
#[derive(Clone, Copy, Debug, PartialEq, Eq, Structural)]
pub struct CompactionFacts {
    /// Auto-compaction is switched on in the settings.
    pub enabled: bool,
    /// The last assistant reply, if there is one.
    pub last_reply: Option<ReplyFacts>,
    /// An overflow was already answered by a compact-and-retry.
    pub overflow_recovery_attempted: bool,
}

/// What to do after a reply.
#[derive(Clone, Copy, Debug, PartialEq, Eq, Structural)]
pub enum CompactionStep {
    /// Nothing.
    Skip,
    /// Tell the user that recovering from an overflow failed.
    RecoveryFailed,
    /// Compact, drop the failed reply and continue the turn.
    RecoverOverflow,
    /// Compact, and continue the turn where messages are queued.
    Compact,
}

/// The step after a reply: nothing when auto-compaction is off, there is
/// no reply, the reply was aborted or came from another model; on an
/// overflow, a compact-and-retry the first time and a failure notice after
/// that; otherwise a compaction exactly when the context is over the
/// threshold.
pub open spec fn compaction_step_of(facts: CompactionFacts) -> CompactionStep {
    if !facts.enabled {
        CompactionStep::Skip
    } else {
        match facts.last_reply {
            None => CompactionStep::Skip,
            Some(reply) => if reply.stop == ReplyStop::Aborted || !reply.same_model {
                CompactionStep::Skip
            } else if reply.overflowed {
                if facts.overflow_recovery_attempted {
                    CompactionStep::RecoveryFailed
                } else {
                    CompactionStep::RecoverOverflow
                }
            } else if reply.over_threshold == Some(true) {
                CompactionStep::Compact
            } else {
                CompactionStep::Skip
            },
        }
    }
}

/// Whether an overflow recovery counts as attempted after the check: the
/// check marks it on every overflow it looks at.
pub open spec fn recovery_attempted_after(facts: CompactionFacts) -> bool {
    facts.overflow_recovery_attempted || (facts.enabled && match facts.last_reply {
        Some(reply) => reply.stop != ReplyStop::Aborted && reply.same_model && reply.overflowed,
        None => false,
    })
}

/// Decides the step after a reply (see `compaction_step_of`) and whether
/// an overflow recovery counts as attempted afterwards.
pub fn auto_compaction_step(facts: &CompactionFacts) -> (r: (CompactionStep, bool))
    ensures
        r.0 == compaction_step_of(*facts),
        r.1 == recovery_attempted_after(*facts),
{
    if !facts.enabled {
        return (CompactionStep::Skip, facts.overflow_recovery_attempted);
    }
    let reply = match facts.last_reply {
        None => {
            return (CompactionStep::Skip, facts.overflow_recovery_attempted);
        },
        Some(reply) => reply,
    };
    if matches!(reply.stop, ReplyStop::Aborted) || !reply.same_model {
        return (CompactionStep::Skip, facts.overflow_recovery_attempted);
    }
    if reply.overflowed {
        if facts.overflow_recovery_attempted {
            return (CompactionStep::RecoveryFailed, true);
        }
        return (CompactionStep::RecoverOverflow, true);
    }
    match reply.over_threshold {
        Some(true) => (CompactionStep::Compact, facts.overflow_recovery_attempted),
        _ => (CompactionStep::Skip, facts.overflow_recovery_attempted),
    }
}

/// What the user is told after the step, given whether a compaction it
/// asked for compacted anything.
pub open spec fn compaction_notice_of(step: CompactionStep, compacted: bool) -> Option<Seq<char>> {
    match step {
        CompactionStep::Skip => None,
        CompactionStep::RecoveryFailed => Some(
            "Context overflow recovery failed after one compact-and-retry attempt. Try reducing context or switching to a larger-context model."@,
        ),
        CompactionStep::RecoverOverflow => if compacted {
            Some("Recovering from context overflow with compaction..."@)
        } else {
            None
        },
        CompactionStep::Compact => if compacted {
            Some("Automatically compacted session context"@)
        } else {
            None
        },
    }
}

/// The notice after the step (see `compaction_notice_of`).
pub fn auto_compaction_notice(step: CompactionStep, compacted: bool) -> (r: Option<String>)
    ensures
        match r {
            Some(s) => compaction_notice_of(step, compacted) == Some(s@),
            None => compaction_notice_of(step, compacted) is None,
        },
{
    match step {
        CompactionStep::Skip => None,
        CompactionStep::RecoveryFailed => Some(
            owned(
                "Context overflow recovery failed after one compact-and-retry attempt. Try reducing context or switching to a larger-context model.",
            ),
        ),
        CompactionStep::RecoverOverflow => if compacted {
            Some(owned("Recovering from context overflow with compaction..."))
        } else {
            None
        },
        CompactionStep::Compact => if compacted {
            Some(owned("Automatically compacted session context"))
        } else {
            None
        },
    }
}

/// An overflow is retried at most once: after a recovery was attempted,
/// every later overflow is answered with the failure notice.
pub proof fn lemma_overflow_retried_once(first: CompactionFacts, later: CompactionFacts)
    requires
        compaction_step_of(first) == CompactionStep::RecoverOverflow,
        later.overflow_recovery_attempted == recovery_attempted_after(first),
        later.enabled,
        later.last_reply matches Some(reply) && reply.overflowed && reply.same_model && reply.stop != ReplyStop::Aborted,
    ensures
        compaction_step_of(later) == CompactionStep::RecoveryFailed,
{
}

} // verus!
