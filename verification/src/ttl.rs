//! Human-readable rendering of a key's remaining time to live.

use vstd::prelude::*;
use vstd::string::*;
use crate::text::{decimal, push_decimal};

verus! {

/// Seconds in one unit of each kind, smallest unit first.
pub const SECOND: u64 = 1;

pub const MINUTE: u64 = 60;

pub const HOUR: u64 = 3_600;

pub const DAY: u64 = 86_400;

pub const MONTH: u64 = 2_592_000;

pub const YEAR: u64 = 31_104_000;

/// A display unit: its suffix and the number of seconds it spans.
pub struct TtlUnit {
    pub suffix: Seq<char>,
    pub seconds: nat,
}

/// The units a time to live can be shown in, ordered by growing span. A
/// month counts thirty days and a year twelve such months.
pub open spec fn ttl_units() -> Seq<TtlUnit> {
    seq![
        TtlUnit { suffix: seq!['s'], seconds: 1 },
        TtlUnit { suffix: seq!['m', 'i', 'n'], seconds: 60 },
        TtlUnit { suffix: seq!['h'], seconds: 3_600 },
        TtlUnit { suffix: seq!['d'], seconds: 86_400 },
        TtlUnit { suffix: seq!['m', 'o', 'n'], seconds: 2_592_000 },
        TtlUnit { suffix: seq!['y'], seconds: 31_104_000 },
    ]
}

/// The index in [`ttl_units`] of the largest unit that `seconds` reaches,
/// or `None` when it reaches none (that is, for zero).
pub open spec fn ttl_unit_index(seconds: nat) -> Option<int> {
    if seconds >= 31_104_000 {
        Some(5)
    } else if seconds >= 2_592_000 {
        Some(4)
    } else if seconds >= 86_400 {
        Some(3)
    } else if seconds >= 3_600 {
        Some(2)
    } else if seconds >= 60 {
        Some(1)
    } else if seconds >= 1 {
        Some(0)
    } else {
        None
    }
}

/// The number that is rendered for a time to live: the value itself when it
/// is not negative, and otherwise its two's-complement reading as an
/// unsigned 64-bit number.
pub open spec fn ttl_magnitude(ttl: i64) -> nat {
    if ttl >= 0 {
        ttl as nat
    } else {
        (ttl + 0x1_0000_0000_0000_0000) as nat
    }
}

/// The text shown for a time to live: `"-"` for the no-expiry mark `-1` and
/// for a value that reaches no unit, and otherwise the truncated count of
/// the largest unit reached, followed by that unit's suffix.
pub open spec fn ttl_text(ttl: i64) -> Seq<char> {
    if ttl == -1 {
        seq!['-']
    } else {
        match ttl_unit_index(ttl_magnitude(ttl)) {
            Some(i) => decimal(ttl_magnitude(ttl) / ttl_units()[i].seconds) + ttl_units()[i].suffix,
            None => seq!['-'],
        }
    }
}

/// The unit chosen for a number of seconds is one that the number reaches,
/// and no larger unit of the table is reached; no unit is chosen only when
/// none is reached.
pub proof fn lemma_ttl_unit_is_largest(seconds: nat)
    ensures
        match ttl_unit_index(seconds) {
            Some(i) => {
                &&& 0 <= i < ttl_units().len()
                &&& ttl_units()[i].seconds <= seconds
                &&& forall|j: int| i < j < ttl_units().len() ==> seconds < (#[trigger] ttl_units()[j]).seconds
            },
            None => forall|j: int| 0 <= j < ttl_units().len() ==> seconds < (#[trigger] ttl_units()[j]).seconds,
        },
{
}

/// The units of the table grow strictly from one entry to the next.
pub proof fn lemma_ttl_units_grow()
    ensures
        forall|i: int, j: int|
            0 <= i < j < ttl_units().len() ==> (#[trigger] ttl_units()[i]).seconds < (
            #[trigger] ttl_units()[j]).seconds,
{
}

/// Renders a time to live in seconds for display.
pub fn format_ttl_to_human_readable(ttl_in_seconds: &i64) -> (text: String)
    ensures
        text@ == ttl_text(*ttl_in_seconds),
{
    let ttl: i64 = *ttl_in_seconds;
    if ttl == -1 {
        proof {
            reveal_strlit("-");
        }
        let text = "-".to_owned();
        assert(text@ =~= seq!['-']);
        return text;
    }
    let seconds: u64 = if ttl >= 0 {
        ttl as u64
    } else {
        u64::MAX - ((-(ttl + 1)) as u64)
    };
    assert(seconds as nat == ttl_magnitude(ttl));
    proof {
        reveal_strlit("-");
        reveal_strlit("s");
        reveal_strlit("min");
        reveal_strlit("h");
        reveal_strlit("d");
        reveal_strlit("mon");
        reveal_strlit("y");
    }
    if seconds < SECOND {
        let text = "-".to_owned();
        assert(text@ =~= seq!['-']);
        return text;
    }
    let mut text = String::new();
    if seconds >= YEAR {
        push_decimal(&mut text, seconds / YEAR);
        text.append("y");
        assert("y"@ =~= ttl_units()[5].suffix);
    } else if seconds >= MONTH {
        push_decimal(&mut text, seconds / MONTH);
        text.append("mon");
        assert("mon"@ =~= ttl_units()[4].suffix);
    } else if seconds >= DAY {
        push_decimal(&mut text, seconds / DAY);
        text.append("d");
        assert("d"@ =~= ttl_units()[3].suffix);
    } else if seconds >= HOUR {
        push_decimal(&mut text, seconds / HOUR);
        text.append("h");
        assert("h"@ =~= ttl_units()[2].suffix);
    } else if seconds >= MINUTE {
        push_decimal(&mut text, seconds / MINUTE);
        text.append("min");
        assert("min"@ =~= ttl_units()[1].suffix);
    } else {
        push_decimal(&mut text, seconds / SECOND);
        text.append("s");
        assert("s"@ =~= ttl_units()[0].suffix);
    }
    assert(text@ =~= ttl_text(ttl));
    text
}

} // verus!
