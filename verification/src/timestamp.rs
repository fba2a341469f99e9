use vstd::prelude::*;

verus! {

/// A timestamp with time zone, modeled as the signed count of microseconds
/// since the timestamp epoch. The canonical textual representation used in
/// policy values is the plain signed decimal rendering of that count.
#[derive(Clone, Copy, Debug, PartialEq, Eq, Structural)]
pub struct TimestampTz {
    pub micros: i64,
}

/// The decimal digit character for `d` (`0 <= d <= 9`).
pub open spec fn digit_char(d: nat) -> char {
    if d == 0 {
        '0'
    } else if d == 1 {
        '1'
    } else if d == 2 {
        '2'
    } else if d == 3 {
        '3'
    } else if d == 4 {
        '4'
    } else if d == 5 {
        '5'
    } else if d == 6 {
        '6'
    } else if d == 7 {
        '7'
    } else if d == 8 {
        '8'
    } else {
        '9'
    }
}

/// Decimal digit sequence of a natural number, most significant digit first,
/// without leading zeros (a single `'0'` for zero).
pub open spec fn dec_digits(n: nat) -> Seq<char>
    decreases n,
{
    if n < 10 {
        seq![digit_char(n)]
    } else {
        dec_digits(n / 10).push(digit_char(n % 10))
    }
}

/// Signed decimal rendering of an integer.
pub open spec fn int_text(i: int) -> Seq<char> {
    if i < 0 {
        seq!['-'] + dec_digits((-i) as nat)
    } else {
        dec_digits(i as nat)
    }
}

/// The canonical textual representation of a timestamp.
pub open spec fn timestamp_text(t: TimestampTz) -> Seq<char> {
    int_text(t.micros as int)
}

/// A decimal rendering is never empty.
pub proof fn lemma_dec_digits_nonempty(n: nat)
    ensures
        dec_digits(n).len() >= 1,
    decreases n,
{
    if n >= 10 {
        lemma_dec_digits_nonempty(n / 10);
    }
}

/// The canonical text of any timestamp is non-empty.
pub proof fn lemma_timestamp_text_nonempty(t: TimestampTz)
    ensures
        timestamp_text(t).len() >= 1,
{
    if t.micros < 0 {
        lemma_dec_digits_nonempty((-(t.micros as int)) as nat);
    } else {
        lemma_dec_digits_nonempty(t.micros as nat);
    }
}

fn digit_str(d: u64) -> (r: &'static str)
    requires
        d < 10,
    ensures
        r@ =~= seq![digit_char(d as nat)],
{
    proof {
        reveal_strlit("0");
        reveal_strlit("1");
        reveal_strlit("2");
        reveal_strlit("3");
        reveal_strlit("4");
        reveal_strlit("5");
        reveal_strlit("6");
        reveal_strlit("7");
        reveal_strlit("8");
        reveal_strlit("9");
    }
    if d == 0 {
        "0"
    } else if d == 1 {
        "1"
    } else if d == 2 {
        "2"
    } else if d == 3 {
        "3"
    } else if d == 4 {
        "4"
    } else if d == 5 {
        "5"
    } else if d == 6 {
        "6"
    } else if d == 7 {
        "7"
    } else if d == 8 {
        "8"
    } else {
        "9"
    }
}

/// Renders a natural number in decimal.
pub fn dec_string(n: u64) -> (r: String)
    ensures
        r@ == dec_digits(n as nat),
    decreases n,
{
    if n < 10 {
        String::from_str(digit_str(n))
    } else {
        let mut s = dec_string(n / 10);
        s.append(digit_str(n % 10));
        proof {
            assert(dec_digits(n as nat) =~= dec_digits((n / 10) as nat) + seq![
                digit_char((n % 10) as nat),
            ]);
        }
        s
    }
}

/// Renders a signed integer in decimal.
pub fn int_string(n: i64) -> (r: String)
    ensures
        r@ == int_text(n as int),
{
    if n >= 0 {
        dec_string(n as u64)
    } else {
        let m: u64 = ((-(n + 1)) as u64) + 1;
        proof {
            assert(m as nat == (-(n as int)) as nat);
            reveal_strlit("-");
        }
        let mut s = String::from_str("-");
        let digits = dec_string(m);
        s.append(digits.as_str());
        proof {
            assert("-"@ =~= seq!['-']);
        }
        s
    }
}

impl TimestampTz {
    /// The canonical textual representation: the signed decimal count of
    /// microseconds since the epoch. Deterministic and never empty.
    pub fn canonical_text(&self) -> (r: String)
        ensures
            r@ == timestamp_text(*self),
            r@.len() >= 1,
    {
        proof {
            lemma_timestamp_text_nonempty(*self);
        }
        int_string(self.micros)
    }
}

} // verus!
