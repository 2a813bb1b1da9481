//! Thinking levels: their names, the level a model can use, and cycling.
use vstd::prelude::*;
use crate::args::ThinkingLevel;

verus! {

/// The name of a level.
pub open spec fn level_name(level: ThinkingLevel) -> Seq<char> {
    match level {
        ThinkingLevel::Off => "off"@,
        ThinkingLevel::Minimal => "minimal"@,
        ThinkingLevel::Low => "low"@,
        ThinkingLevel::Medium => "medium"@,
        ThinkingLevel::High => "high"@,
        ThinkingLevel::XHigh => "xhigh"@,
    }
}

/// The name of a level.
pub fn thinking_level_label(level: ThinkingLevel) -> (r: &'static str)
    ensures
        r@ == level_name(level),
{
    match level {
        ThinkingLevel::Off => "off",
        ThinkingLevel::Minimal => "minimal",
        ThinkingLevel::Low => "low",
        ThinkingLevel::Medium => "medium",
        ThinkingLevel::High => "high",
        ThinkingLevel::XHigh => "xhigh",
    }
}

/// The level a model uses when `level` is asked for: off for a model that
/// does not reason, high in place of xhigh where xhigh is not supported.
pub open spec fn clamped_level(level: ThinkingLevel, reasoning: bool, supports_xhigh: bool) -> ThinkingLevel {
    if !reasoning {
        ThinkingLevel::Off
    } else if level == ThinkingLevel::XHigh && !supports_xhigh {
        ThinkingLevel::High
    } else {
        level
    }
}

/// Computes `clamped_level`.
pub fn clamp_thinking_level(level: ThinkingLevel, reasoning: bool, supports_xhigh: bool) -> (r: ThinkingLevel)
    ensures
        r == clamped_level(level, reasoning, supports_xhigh),
{
    if !reasoning {
        ThinkingLevel::Off
    } else if matches!(level, ThinkingLevel::XHigh) && !supports_xhigh {
        ThinkingLevel::High
    } else {
        level
    }
}

/// The position of a level in the cycle off, minimal, low, medium, high, xhigh.
pub open spec fn level_rank(level: ThinkingLevel) -> nat {
    match level {
        ThinkingLevel::Off => 0,
        ThinkingLevel::Minimal => 1,
        ThinkingLevel::Low => 2,
        ThinkingLevel::Medium => 3,
        ThinkingLevel::High => 4,
        ThinkingLevel::XHigh => 5,
    }
}

/// The level at position `k` of the cycle.
pub open spec fn level_at(k: nat) -> ThinkingLevel {
    if k == 0 {
        ThinkingLevel::Off
    } else if k == 1 {
        ThinkingLevel::Minimal
    } else if k == 2 {
        ThinkingLevel::Low
    } else if k == 3 {
        ThinkingLevel::Medium
    } else if k == 4 {
        ThinkingLevel::High
    } else {
        ThinkingLevel::XHigh
    }
}

/// The level after `current`: `None` for a model that does not reason;
/// the cycle ends at xhigh where the model supports it and at high
/// otherwise, then starts again at off. A level outside the cycle counts as off.
pub open spec fn next_level(current: ThinkingLevel, reasoning: bool, supports_xhigh: bool) -> Option<ThinkingLevel> {
    if !reasoning {
        None
    } else {
        let n: nat = if supports_xhigh {
            6
        } else {
            5
        };
        let k = if level_rank(current) < n {
            level_rank(current)
        } else {
            0
        };
        Some(level_at(((k + 1) % n) as nat))
    }
}

/// Computes `next_level`.
pub fn next_thinking_level(current: ThinkingLevel, reasoning: bool, supports_xhigh: bool) -> (r: Option<ThinkingLevel>)
    ensures
        r == next_level(current, reasoning, supports_xhigh),
{
    if !reasoning {
        return None;
    }
    let next = match current {
        ThinkingLevel::Off => ThinkingLevel::Minimal,
        ThinkingLevel::Minimal => ThinkingLevel::Low,
        ThinkingLevel::Low => ThinkingLevel::Medium,
        ThinkingLevel::Medium => ThinkingLevel::High,
        ThinkingLevel::High => if supports_xhigh {
            ThinkingLevel::XHigh
        } else {
            ThinkingLevel::Off
        },
        ThinkingLevel::XHigh => if supports_xhigh {
            ThinkingLevel::Off
        } else {
            ThinkingLevel::Minimal
        },
    };
    Some(next)
}

/// Every level the cycle gives is one the model can use.
pub proof fn lemma_next_level_is_usable(current: ThinkingLevel, reasoning: bool, supports_xhigh: bool)
    requires
        reasoning,
    ensures
        next_level(current, reasoning, supports_xhigh) matches Some(l) && clamped_level(l, reasoning, supports_xhigh) == l,
{
}

/// Clamping twice is clamping once.
pub proof fn lemma_clamp_idempotent(level: ThinkingLevel, reasoning: bool, supports_xhigh: bool)
    ensures
        clamped_level(clamped_level(level, reasoning, supports_xhigh), reasoning, supports_xhigh) == clamped_level(
            level,
            reasoning,
            supports_xhigh,
        ),
{
}

/// For a model that reasons, each step moves one level up the cycle off,
/// minimal, low, medium, high (and xhigh where supported), and from the top
/// back to off; a model that does not reason has no cycle.
pub proof fn lemma_next_level_steps_up(current: ThinkingLevel, reasoning: bool, supports_xhigh: bool)
    ensures
        !reasoning ==> next_level(current, reasoning, supports_xhigh) is None,
        reasoning && current != ThinkingLevel::High && current != ThinkingLevel::XHigh ==> (next_level(
            current,
            reasoning,
            supports_xhigh,
        ) matches Some(l) && level_rank(l) == level_rank(current) + 1),
        reasoning && current == ThinkingLevel::High ==> next_level(current, reasoning, supports_xhigh) == Some(
            if supports_xhigh {
                ThinkingLevel::XHigh
            } else {
                ThinkingLevel::Off
            },
        ),
        reasoning && supports_xhigh && current == ThinkingLevel::XHigh ==> next_level(
            current,
            reasoning,
            supports_xhigh,
        ) == Some(ThinkingLevel::Off),
{
}

/// Each level's name reads back as that level, and only the six names are
/// levels.
pub proof fn lemma_level_names_round_trip(level: ThinkingLevel, s: Seq<char>)
    ensures
        crate::args::thinking_level_of(level_name(level)) == Some(level),
        crate::args::thinking_level_of(s) matches Some(l) ==> level_name(l) == s,
{
    reveal_strlit("off");
    reveal_strlit("minimal");
    reveal_strlit("low");
    reveal_strlit("medium");
    reveal_strlit("high");
    reveal_strlit("xhigh");
    assert("off"@ != "xhigh"@) by {
        assert("off"@.len() != "xhigh"@.len());
    }
    assert("minimal"@ != "off"@) by {
        assert("minimal"@.len() != "off"@.len());
    }
    assert("minimal"@ != "xhigh"@) by {
        assert("minimal"@.len() != "xhigh"@.len());
    }
    assert("low"@ != "off"@) by {
        assert("low"@[0] != "off"@[0]);
    }
    assert("low"@ != "minimal"@) by {
        assert("low"@.len() != "minimal"@.len());
    }
    assert("low"@ != "medium"@) by {
        assert("low"@.len() != "medium"@.len());
    }
    assert("low"@ != "xhigh"@) by {
        assert("low"@.len() != "xhigh"@.len());
    }
    assert("medium"@ != "off"@) by {
        assert("medium"@.len() != "off"@.len());
    }
    assert("medium"@ != "minimal"@) by {
        assert("medium"@.len() != "minimal"@.len());
    }
    assert("medium"@ != "xhigh"@) by {
        assert("medium"@.len() != "xhigh"@.len());
    }
    assert("high"@ != "off"@) by {
        assert("high"@.len() != "off"@.len());
    }
    assert("high"@ != "minimal"@) by {
        assert("high"@.len() != "minimal"@.len());
    }
    assert("high"@ != "low"@) by {
        assert("high"@.len() != "low"@.len());
    }
    assert("high"@ != "medium"@) by {
        assert("high"@.len() != "medium"@.len());
    }
    assert("high"@ != "xhigh"@) by {
        assert("high"@.len() != "xhigh"@.len());
    }
}

} // verus!
