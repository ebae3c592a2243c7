use vstd::prelude::*;
use vstd::string::StringExecFns;

use crate::square::Side;

verus! {

/// Length of a game on each side's clock, in milliseconds.
pub const GAME_DURATION_MS: u64 = 600_000;

/// The per-side countdown: the time each side has, the time each side has
/// used, and whether the clocks run.
#[derive(Clone, Copy, Debug, PartialEq, Eq, Structural)]
pub struct GameState {
    pub duration_ms: u64,
    pub white_elapsed_ms: u64,
    pub black_elapsed_ms: u64,
    pub is_running: bool,
}

impl GameState {
    /// Time used by `side`.
    pub open spec fn spec_elapsed(self, side: Side) -> u64 {
        match side {
            Side::White => self.white_elapsed_ms,
            Side::Black => self.black_elapsed_ms,
        }
    }

    /// Time left to `side`: the duration less the time used, and zero once
    /// the time used reaches the duration.
    pub open spec fn spec_remaining(self, side: Side) -> nat {
        if self.spec_elapsed(side) >= self.duration_ms {
            0
        } else {
            (self.duration_ms - self.spec_elapsed(side)) as nat
        }
    }

    /// Clocks for a game of `duration_ms` per side, stopped, nothing used.
    pub fn new(duration_ms: u64) -> (r: GameState)
        ensures
            r == (GameState {
                duration_ms,
                white_elapsed_ms: 0,
                black_elapsed_ms: 0,
                is_running: false,
            }),
    {
        GameState { duration_ms, white_elapsed_ms: 0, black_elapsed_ms: 0, is_running: false }
    }

    /// Starts the clocks.
    pub fn start(&mut self)
        ensures
            *final(self) == (GameState { is_running: true, ..*old(self) }),
    {
        self.is_running = true;
    }

    /// Adds `delta_ms` to the time used by the side to move, while the clocks
    /// run; the count stops at `u64::MAX`.
    pub fn tick(&mut self, to_move: Side, delta_ms: u64)
        ensures
            !old(self).is_running ==> *final(self) == *old(self),
            old(self).is_running && to_move == Side::White ==> *final(self) == (GameState {
                white_elapsed_ms: if old(self).white_elapsed_ms + delta_ms > u64::MAX {
                    u64::MAX
                } else {
                    (old(self).white_elapsed_ms + delta_ms) as u64
                },
                ..*old(self)
            }),
            old(self).is_running && to_move == Side::Black ==> *final(self) == (GameState {
                black_elapsed_ms: if old(self).black_elapsed_ms + delta_ms > u64::MAX {
                    u64::MAX
                } else {
                    (old(self).black_elapsed_ms + delta_ms) as u64
                },
                ..*old(self)
            }),
    {
        if !self.is_running {
            return;
        }
        match to_move {
            Side::White => {
                self.white_elapsed_ms = self.white_elapsed_ms.saturating_add(delta_ms);
            },
            Side::Black => {
                self.black_elapsed_ms = self.black_elapsed_ms.saturating_add(delta_ms);
            },
        }
    }

    /// Time left to `side`, in milliseconds.
    pub fn remaining_ms(&self, side: Side) -> (r: u64)
        ensures
            r == self.spec_remaining(side),
    {
        let used = match side {
            Side::White => self.white_elapsed_ms,
            Side::Black => self.black_elapsed_ms,
        };
        match self.duration_ms.checked_sub(used) {
            Some(left) => left,
            None => 0,
        }
    }

    /// Time left to `side` as shown on its clock, "MM:SS".
    pub fn display(&self, side: Side) -> (r: String)
        ensures
            r@ == clock_text((self.spec_remaining(side) / 1000) as int),
    {
        format_duration(self.remaining_ms(side) / 1000)
    }
}

/// The decimal digit `d`.
pub open spec fn digit_char(d: int) -> char {
    ('0' as int + d) as char
}

/// `n` below 100 written with two digits.
pub open spec fn two_digits(n: int) -> Seq<char> {
    seq![digit_char(n / 10), digit_char(n % 10)]
}

/// A count of seconds shown as minutes and seconds within the hour, "MM:SS".
pub open spec fn clock_text(secs: int) -> Seq<char> {
    two_digits((secs / 60) % 60) + seq![':'] + two_digits(secs % 60)
}

/// The one-character text of the decimal digit `d`.
fn digit_text(d: u64) -> (r: &'static str)
    requires
        d < 10,
    ensures
        r@ == seq![digit_char(d as int)],
{
    proof {
        reveal_strlit("0");
        reveal_strlit("1");
        reveal_strlit("2");
        reveal_strlit("3");
        reveal_strlit("4");
        reveal_strlit("5");
        reveal_strlit("6");
        reveal_strlit("7");
        reveal_strlit("8");
        reveal_strlit("9");
    }
    let r = if d == 0 {
        "0"
    } else if d == 1 {
        "1"
    } else if d == 2 {
        "2"
    } else if d == 3 {
        "3"
    } else if d == 4 {
        "4"
    } else if d == 5 {
        "5"
    } else if d == 6 {
        "6"
    } else if d == 7 {
        "7"
    } else if d == 8 {
        "8"
    } else {
        "9"
    };
    assert(r@ =~= seq![digit_char(d as int)]);
    r
}

/// Appends `n`, below 100, with two digits.
fn push_two_digits(s: &mut String, n: u64)
    requires
        n < 100,
    ensures
        final(s)@ == old(s)@ + two_digits(n as int),
{
    s.append(digit_text(n / 10));
    s.append(digit_text(n % 10));
    assert(final(s)@ =~= old(s)@ + two_digits(n as int));
}

/// Shows a count of seconds as minutes and seconds within the hour, each
/// with two digits: 0 is "00:00", 75 is "01:15", 3599 is "59:59".
pub fn format_duration(secs: u64) -> (r: String)
    ensures
        r@ == clock_text(secs as int),
{
    let seconds = secs % 60;
    let minutes = (secs / 60) % 60;
    let mut s = String::new();
    push_two_digits(&mut s, minutes);
    proof {
        reveal_strlit(":");
    }
    s.append(":");
    push_two_digits(&mut s, seconds);
    assert(s@ =~= clock_text(secs as int));
    s
}

} // verus!
