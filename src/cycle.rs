//! One measurement cycle: start a range measurement, read it, and show it.
//!
//! The caller performs each bus transfer and the display refresh, then waits
//! for the cycle interval before starting the next cycle.
use vstd::prelude::*;
use crate::frame::BusReply;

verus! {

/// Minimum time between the starts of two measurement cycles, in milliseconds.
pub const CYCLE_INTERVAL_MS: u64 = 50;

/// The range reading that means "no target / out of range".
pub const OUT_OF_RANGE: u8 = 255;

/// Where a cycle stands when the bus replies.
#[derive(Clone, Copy, Debug, PartialEq, Eq, Structural)]
pub enum CycleStage {
    /// The range-start write was issued.
    Starting,
    /// The range-result read was issued.
    Reading,
}

/// What the caller does next.
#[derive(Clone, Debug, PartialEq, Eq)]
pub enum CycleAction {
    /// Issue the range-result read.
    ReadRange,
    /// Refresh the display with this text; the cycle is over.
    Draw(String),
    /// Measurement cannot go on: stop.
    Halt,
}

/// The character of decimal digit `d`.
pub open spec fn digit_char(d: nat) -> char {
    if d == 0 { '0' }
    else if d == 1 { '1' }
    else if d == 2 { '2' }
    else if d == 3 { '3' }
    else if d == 4 { '4' }
    else if d == 5 { '5' }
    else if d == 6 { '6' }
    else if d == 7 { '7' }
    else if d == 8 { '8' }
    else { '9' }
}

/// The decimal digits of `n`, without leading zeros.
pub open spec fn decimal(n: nat) -> Seq<char>
    decreases n,
{
    if n < 10 {
        seq![digit_char(n)]
    } else {
        decimal(n / 10).push(digit_char(n % 10))
    }
}

/// The text shown for a reading: "<r> mm", "OUT mm" for the out-of-range
/// sentinel, " Err" when the read failed.
pub open spec fn reading_text(reply: BusReply) -> Seq<char> {
    match reply {
        BusReply::Read(r) => if r == OUT_OF_RANGE {
            "OUT mm"@
        } else {
            decimal(r as nat) + " mm"@
        },
        _ => " Err"@,
    }
}

/// The one-character string of decimal digit `d`.
fn digit_str(d: u8) -> (s: &'static str)
    requires
        d < 10,
    ensures
        s@ == seq![digit_char(d as nat)],
{
    proof {
        reveal_strlit("0");
        reveal_strlit("1");
        reveal_strlit("2");
        reveal_strlit("3");
        reveal_strlit("4");
        reveal_strlit("5");
        reveal_strlit("6");
        reveal_strlit("7");
        reveal_strlit("8");
        reveal_strlit("9");
    }
    match d {
        0 => "0",
        1 => "1",
        2 => "2",
        3 => "3",
        4 => "4",
        5 => "5",
        6 => "6",
        7 => "7",
        8 => "8",
        _ => "9",
    }
}

/// The decimal digits of `n`.
pub fn decimal_text(n: u8) -> (s: String)
    ensures
        s@ == decimal(n as nat),
{
    let mut s = String::new();
    if n >= 100 {
        s.append(digit_str(n / 100));
    }
    if n >= 10 {
        s.append(digit_str((n / 10) % 10));
    }
    s.append(digit_str(n % 10));
    proof {
        reveal_with_fuel(decimal, 3);
        let m = n as nat;
        if n >= 100 {
            assert(m / 10 / 10 == m / 100);
        }
        assert(s@ =~= decimal(m));
    }
    s
}

/// Whether `c` is a decimal digit.
pub open spec fn is_digit(c: char) -> bool {
    '0' <= c && c <= '9'
}

/// A reading in [0, 254] is shown as its decimal digits followed by " mm";
/// the out-of-range sentinel is shown as a marker that holds no digit.
pub proof fn lemma_reading_text(r: u8)
    ensures
        r < OUT_OF_RANGE ==> reading_text(BusReply::Read(r)) == decimal(r as nat) + " mm"@,
        r == OUT_OF_RANGE ==> reading_text(BusReply::Read(r)) == "OUT mm"@,
        r == OUT_OF_RANGE ==> forall|i: int|
            0 <= i < reading_text(BusReply::Read(r)).len() ==> !is_digit(#[trigger] reading_text(BusReply::Read(r))[i]),
{
    reveal_strlit("OUT mm");
}

/// The text the display shows for the reply to the range-result read.
pub fn range_text(reply: BusReply) -> (s: String)
    ensures
        s@ == reading_text(reply),
{
    proof {
        reveal_strlit("OUT mm");
        reveal_strlit(" mm");
        reveal_strlit(" Err");
    }
    match reply {
        BusReply::Read(r) => if r == OUT_OF_RANGE {
            String::from_str("OUT mm")
        } else {
            let mut s = decimal_text(r);
            s.append(" mm");
            s
        },
        _ => String::from_str(" Err"),
    }
}

/// Decide what follows the bus's reply at `stage`.
pub fn cycle_step(stage: CycleStage, reply: BusReply) -> (a: CycleAction)
    ensures
        stage == CycleStage::Starting ==> (a == if reply is Failed {
            CycleAction::Halt
        } else {
            CycleAction::ReadRange
        }),
        stage == CycleStage::Reading ==> (a matches CycleAction::Draw(s) && s@ == reading_text(reply)),
{
    match stage {
        CycleStage::Starting => match reply {
            BusReply::Failed(_) => CycleAction::Halt,
            _ => CycleAction::ReadRange,
        },
        CycleStage::Reading => CycleAction::Draw(range_text(reply)),
    }
}

} // verus!
