//! Exact textual rendering of timestamps and timeline events.
//!
//! A timestamp of `t` centiseconds renders as the decimal seconds with
//! exactly two fractional digits, e.g. `10` renders as `0.10` and `1234` as
//! `12.34`. Event lines and log lines are built from these pieces, so the
//! whole prompt and every log record is pinned down character by character.

use crate::event::{Event, EventV};
use vstd::prelude::*;

verus! {

/// The decimal digit character for `d` (`d < 10`).
pub open spec fn digit_char(d: nat) -> char {
    if d == 0 {
        '0'
    } else if d == 1 {
        '1'
    } else if d == 2 {
        '2'
    } else if d == 3 {
        '3'
    } else if d == 4 {
        '4'
    } else if d == 5 {
        '5'
    } else if d == 6 {
        '6'
    } else if d == 7 {
        '7'
    } else if d == 8 {
        '8'
    } else {
        '9'
    }
}

/// The usual decimal rendering of `n`, most significant digit first, with no
/// leading zeros except for `n == 0` itself.
pub open spec fn dec_chars(n: nat) -> Seq<char>
    decreases n,
{
    if n < 10 {
        seq![digit_char(n)]
    } else {
        dec_chars(n / 10) + seq![digit_char(n % 10)]
    }
}

/// A timestamp of `cs` centiseconds rendered as seconds with exactly two
/// fractional digits.
pub open spec fn ts_chars(cs: u64) -> Seq<char> {
    dec_chars(cs as nat / 100) + seq!['.'] + seq![
        digit_char((cs as nat / 10) % 10),
        digit_char(cs as nat % 10),
    ]
}

/// One prompt line for one event, ending in a newline.
pub open spec fn prompt_line_chars(ev: EventV) -> Seq<char> {
    match ev {
        EventV::Transcribed { text, timestamp_cs } => ("[")@ + ts_chars(timestamp_cs) + (
        "s] Speech: ")@ + text + ("\n")@,
        EventV::KeyPressed { symbol, timestamp_cs } => ("[")@ + ts_chars(timestamp_cs) + (
        "s] Symbol: ")@ + symbol + ("\n")@,
    }
}

/// One persisted-log line for one event, ending in a newline.
pub open spec fn log_line_chars(ev: EventV) -> Seq<char> {
    match ev {
        EventV::Transcribed { text, timestamp_cs } => ("[")@ + ts_chars(timestamp_cs) + (
        "] SPEECH: ")@ + text + ("\n")@,
        EventV::KeyPressed { symbol, timestamp_cs } => ("[")@ + ts_chars(timestamp_cs) + (
        "] KEY: ")@ + symbol + ("\n")@,
    }
}

/// One free-form status line for the persisted log.
pub open spec fn message_line_chars(msg: Seq<char>) -> Seq<char> {
    (">>> ")@ + msg + ("\n")@
}

/// The one-character string for digit `d`.
fn digit_str(d: u64) -> (r: &'static str)
    requires
        d < 10,
    ensures
        r@ == seq![digit_char(d as nat)],
{
    if d == 0 {
        proof {
            reveal_strlit("0");
        }
        "0"
    } else if d == 1 {
        proof {
            reveal_strlit("1");
        }
        "1"
    } else if d == 2 {
        proof {
            reveal_strlit("2");
        }
        "2"
    } else if d == 3 {
        proof {
            reveal_strlit("3");
        }
        "3"
    } else if d == 4 {
        proof {
            reveal_strlit("4");
        }
        "4"
    } else if d == 5 {
        proof {
            reveal_strlit("5");
        }
        "5"
    } else if d == 6 {
        proof {
            reveal_strlit("6");
        }
        "6"
    } else if d == 7 {
        proof {
            reveal_strlit("7");
        }
        "7"
    } else if d == 8 {
        proof {
            reveal_strlit("8");
        }
        "8"
    } else {
        proof {
            reveal_strlit("9");
        }
        "9"
    }
}

/// Renders `n` in decimal.
pub fn u64_to_dec(n: u64) -> (r: String)
    ensures
        r@ == dec_chars(n as nat),
    decreases n,
{
    if n < 10 {
        String::from_str(digit_str(n))
    } else {
        let mut s = u64_to_dec(n / 10);
        s.append(digit_str(n % 10));
        s
    }
}

/// Renders a centisecond timestamp as seconds with two fractional digits.
pub fn format_centis(cs: u64) -> (r: String)
    ensures
        r@ == ts_chars(cs),
{
    let mut s = u64_to_dec(cs / 100);
    proof {
        reveal_strlit(".");
    }
    s.append(".");
    s.append(digit_str((cs / 10) % 10));
    s.append(digit_str(cs % 10));
    proof {
        assert(s@ =~= ts_chars(cs));
    }
    s
}

/// Builds the prompt line for one event.
pub fn prompt_line(e: &Event) -> (r: String)
    ensures
        r@ == prompt_line_chars(e@),
{
    let mut s = String::from_str("[");
    let ts = format_centis(e.timestamp());
    s.append(ts.as_str());
    match e {
        Event::Transcribed { text, .. } => {
            s.append("s] Speech: ");
            s.append(text.as_str());
        },
        Event::KeyPressed { symbol, .. } => {
            s.append("s] Symbol: ");
            s.append(symbol.as_str());
        },
    }
    s.append("\n");
    proof {
        assert(s@ =~= prompt_line_chars(e@));
    }
    s
}

/// Builds the persisted-log line for one event.
pub fn log_line(e: &Event) -> (r: String)
    ensures
        r@ == log_line_chars(e@),
{
    let mut s = String::from_str("[");
    let ts = format_centis(e.timestamp());
    s.append(ts.as_str());
    match e {
        Event::Transcribed { text, .. } => {
            s.append("] SPEECH: ");
            s.append(text.as_str());
        },
        Event::KeyPressed { symbol, .. } => {
            s.append("] KEY: ");
            s.append(symbol.as_str());
        },
    }
    s.append("\n");
    proof {
        assert(s@ =~= log_line_chars(e@));
    }
    s
}

/// Builds a free-form status line for the persisted log.
pub fn message_line(msg: &str) -> (r: String)
    ensures
        r@ == message_line_chars(msg@),
{
    let mut s = String::from_str(">>> ");
    s.append(msg);
    s.append("\n");
    proof {
        assert(s@ =~= message_line_chars(msg@));
    }
    s
}

} // verus!
