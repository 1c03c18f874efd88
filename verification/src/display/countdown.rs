use vstd::prelude::*;

verus! {

/// The character of a decimal digit.
pub open spec fn digit_char(d: int) -> char {
    ('0' as int + d) as char
}

/// The decimal digits of a natural number, most significant first.
pub open spec fn decimal_digits(n: nat) -> Seq<char>
    decreases n,
{
    if n < 10 {
        seq![digit_char(n as int)]
    } else {
        decimal_digits(n / 10).push(digit_char((n % 10) as int))
    }
}

/// The decimal text of an integer, with a leading minus sign when negative.
pub open spec fn decimal_text(n: int) -> Seq<char> {
    if n < 0 {
        seq!['-'] + decimal_digits((-n) as nat)
    } else {
        decimal_digits(n as nat)
    }
}

/// Integer division rounding toward zero, for a positive divisor.
pub open spec fn div_toward_zero(a: int, b: int) -> int {
    if a >= 0 { a / b } else { -((-a) / b) }
}

/// The remainder of `div_toward_zero`: it has the sign of `a`.
pub open spec fn rem_toward_zero(a: int, b: int) -> int {
    if a >= 0 { a % b } else { -((-a) % b) }
}

/// What the display shows for a departure `delta` seconds away: whole
/// minutes, `.5` from the thirtieth second of a minute on, and the unit,
/// singular only for one minute and under thirty seconds.
pub open spec fn countdown_text(delta: int) -> Seq<char> {
    let mins = div_toward_zero(delta, 60);
    let secs = rem_toward_zero(delta, 60);
    decimal_text(mins) + (if secs >= 30 {
        ".5"@
    } else {
        Seq::<char>::empty()
    }) + (if mins == 1 && secs < 30 {
        " minute"@
    } else {
        " minutes"@
    })
}

/// What the display shows for the departures still ahead: a placeholder
/// when there is none, else the countdown of the first.
pub open spec fn display_text(deltas: Seq<i32>) -> Seq<char> {
    if deltas.len() == 0 {
        "--"@
    } else {
        countdown_text(deltas[0] as int)
    }
}

/// The departures that remain once a departed first one (a negative
/// countdown) is dropped; only one is dropped per second.
pub open spec fn after_departure(deltas: Seq<i32>) -> Seq<i32> {
    if deltas.len() > 0 && deltas[0] < 0 {
        deltas.drop_first()
    } else {
        deltas
    }
}

/// Every countdown one second lower.
pub open spec fn one_second_later(deltas: Seq<i32>) -> Seq<i32> {
    deltas.map_values(|d: i32| (d - 1) as i32)
}

/// Every countdown can still be lowered by one second.
pub open spec fn can_count_down(deltas: Seq<i32>) -> bool {
    forall|i: int| 0 <= i < deltas.len() ==> (#[trigger] deltas[i]) > i32::MIN
}

/// The countdowns are in order, soonest first.
pub open spec fn soonest_first(deltas: Seq<i32>) -> bool {
    forall|i: int, j: int| 0 <= i <= j < deltas.len() ==> deltas[i] <= deltas[j]
}

/// The text of one decimal digit.
fn digit_str(d: u64) -> (s: &'static str)
    requires
        d < 10,
    ensures
        s@ == seq![digit_char(d as int)],
{
    proof {
        reveal_strlit("0");
        reveal_strlit("1");
        reveal_strlit("2");
        reveal_strlit("3");
        reveal_strlit("4");
        reveal_strlit("5");
        reveal_strlit("6");
        reveal_strlit("7");
        reveal_strlit("8");
        reveal_strlit("9");
    }
    if d == 0 {
        "0"
    } else if d == 1 {
        "1"
    } else if d == 2 {
        "2"
    } else if d == 3 {
        "3"
    } else if d == 4 {
        "4"
    } else if d == 5 {
        "5"
    } else if d == 6 {
        "6"
    } else if d == 7 {
        "7"
    } else if d == 8 {
        "8"
    } else {
        "9"
    }
}

/// Appends the decimal digits of `n`.
fn push_digits(s: &mut String, n: u64)
    ensures
        final(s)@ == old(s)@ + decimal_digits(n as nat),
    decreases n,
{
    if n >= 10 {
        push_digits(s, n / 10);
    }
    s.append(digit_str(n % 10));
    proof {
        if n >= 10 {
            assert(decimal_digits(n as nat) == decimal_digits((n / 10) as nat).push(
                digit_char((n % 10) as int),
            ));
        }
    }
}

/// The decimal text of an integer, as `to_string` writes it.
pub fn decimal_string(n: i32) -> (text: String)
    ensures
        text@ == decimal_text(n as int),
{
    let mut s = String::new();
    if n < 0 {
        s.append("-");
        proof {
            reveal_strlit("-");
        }
        let m: u64 = (-(n as i64)) as u64;
        push_digits(&mut s, m);
    } else {
        push_digits(&mut s, n as u64);
    }
    s
}

/// The text shown for a departure `seconds_delta` seconds away.
pub fn format_countdown(seconds_delta: i32) -> (text: String)
    ensures
        text@ == countdown_text(seconds_delta as int),
{
    let mins: i32;
    let seconds: i32;
    if seconds_delta >= 0 {
        mins = seconds_delta / 60;
        seconds = seconds_delta % 60;
    } else {
        let a: i64 = -(seconds_delta as i64);
        mins = -((a / 60) as i32);
        seconds = -((a % 60) as i32);
    }
    let textual_seconds = if seconds >= 30 {
        ".5"
    } else {
        ""
    };
    let suffix = if mins == 1 && seconds < 30 {
        " minute"
    } else {
        " minutes"
    };
    proof {
        reveal_strlit("");
    }
    let text = decimal_string(mins).concat(textual_seconds);
    text.concat(suffix)
}

/// The text shown for the departures still ahead.
pub fn display_text_of(deltas: &Vec<i32>) -> (text: String)
    ensures
        text@ == display_text(deltas@),
{
    if deltas.len() == 0 {
        String::from_str("--")
    } else {
        format_countdown(deltas[0])
    }
}

/// What to do with the screen this second.
#[derive(Debug)]
pub enum Frame {
    /// The text is what is already shown.
    Unchanged,
    /// Clear the screen and draw the route name and this text.
    Redraw(String),
}

/// The countdown board: the seconds until each upcoming departure, soonest
/// first, and the text that is on the screen.
#[derive(Debug)]
pub struct Countdown {
    pub seconds_deltas: Vec<i32>,
    pub last_output: String,
}

impl Countdown {
    /// A board for these departures with nothing shown yet.
    pub fn new(seconds_deltas: Vec<i32>) -> (board: Countdown)
        ensures
            board.seconds_deltas@ == seconds_deltas@,
            board.last_output@ == Seq::<char>::empty(),
    {
        Countdown { seconds_deltas, last_output: String::new() }
    }

    /// One second of the board: a departure whose countdown went negative
    /// is dropped, the text for the next departure is worked out and drawn
    /// if it differs from what is shown, and every countdown goes one second
    /// down.
    pub fn tick(&mut self) -> (frame: Frame)
        requires
            can_count_down(old(self).seconds_deltas@),
        ensures
            final(self).seconds_deltas@ == one_second_later(
                after_departure(old(self).seconds_deltas@),
            ),
            final(self).last_output@ == display_text(after_departure(old(self).seconds_deltas@)),
            frame is Unchanged <==> display_text(after_departure(old(self).seconds_deltas@))
                == old(self).last_output@,
            frame matches Frame::Redraw(text) ==> text@ == display_text(
                after_departure(old(self).seconds_deltas@),
            ),
    {
        let ghost start = self.seconds_deltas@;
        if self.seconds_deltas.len() > 0 && self.seconds_deltas[0] < 0 {
            self.seconds_deltas.remove(0);
        }
        assert(self.seconds_deltas@ == after_departure(start));
        let final_output = display_text_of(&self.seconds_deltas);
        let frame = if final_output != self.last_output {
            self.last_output = final_output.clone();
            Frame::Redraw(final_output)
        } else {
            Frame::Unchanged
        };
        let ghost kept = self.seconds_deltas@;
        assert(self.last_output@ == display_text(kept));
        assert forall|k: int| 0 <= k < kept.len() implies (#[trigger] kept[k]) > i32::MIN by {
            if start.len() > 0 && start[0] < 0 {
                assert(kept[k] == start[k + 1]);
            }
        }
        let n = self.seconds_deltas.len();
        let mut i: usize = 0;
        while i < n
            invariant
                n == self.seconds_deltas.len() == kept.len(),
                i <= n,
                self.last_output@ == display_text(kept),
                forall|k: int| 0 <= k < kept.len() ==> (#[trigger] kept[k]) > i32::MIN,
                forall|k: int| 0 <= k < i ==> self.seconds_deltas@[k] == kept[k] - 1,
                forall|k: int| i <= k < n ==> self.seconds_deltas@[k] == kept[k],
            decreases n - i,
        {
            let v = self.seconds_deltas[i];
            assert(v == kept[i as int] && kept[i as int] > i32::MIN);
            self.seconds_deltas.set(i, v - 1);
            i = i + 1;
        }
        assert(self.seconds_deltas@ == one_second_later(kept));
        frame
    }
}

/// A tick keeps the departures soonest first: dropping the first one and
/// counting every other down by one second keeps their order.
pub proof fn lemma_tick_keeps_soonest_first(deltas: Seq<i32>)
    requires
        soonest_first(deltas),
        can_count_down(deltas),
    ensures
        soonest_first(one_second_later(after_departure(deltas))),
{
    let kept = after_departure(deltas);
    let later = one_second_later(kept);
    assert forall|i: int, j: int| 0 <= i <= j < later.len() implies later[i] <= later[j] by {
        if deltas.len() > 0 && deltas[0] < 0 {
            assert(kept[i] == deltas[i + 1] && kept[j] == deltas[j + 1]);
            assert(deltas[i + 1] > i32::MIN && deltas[j + 1] > i32::MIN);
        } else {
            assert(deltas[i] > i32::MIN && deltas[j] > i32::MIN);
        }
    }
}

/// The placeholder `--` is shown exactly when no departure is left: the
/// countdown text of a departure never reads `--`.
pub proof fn lemma_placeholder_iff_no_departure(deltas: Seq<i32>)
    ensures
        display_text(deltas) == "--"@ <==> deltas.len() == 0,
{
    reveal_strlit("--");
    reveal_strlit(" minute");
    reveal_strlit(" minutes");
    reveal_strlit(".5");
    if deltas.len() > 0 {
        let t = countdown_text(deltas[0] as int);
        assert(t.len() >= 7);
        assert(t.len() != ("--"@).len());
    }
}

} // verus!
