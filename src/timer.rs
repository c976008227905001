//! The timer stage: the elapsed time of a request, written as a response header.
use vstd::prelude::*;
use vstd::string::*;

verus! {

/// One decimal digit as text.
pub open spec fn digit_text(d: nat) -> Seq<char> {
    if d == 0 {
        "0"@
    } else if d == 1 {
        "1"@
    } else if d == 2 {
        "2"@
    } else if d == 3 {
        "3"@
    } else if d == 4 {
        "4"@
    } else if d == 5 {
        "5"@
    } else if d == 6 {
        "6"@
    } else if d == 7 {
        "7"@
    } else if d == 8 {
        "8"@
    } else {
        "9"@
    }
}

/// The decimal numeral of `n`, without leading zeros.
pub open spec fn decimal(n: nat) -> Seq<char>
    decreases n,
{
    if n < 10 {
        digit_text(n)
    } else {
        decimal(n / 10) + digit_text(n % 10)
    }
}

/// The last `width` decimal digits of `n`, zero-padded.
pub open spec fn padded(n: nat, width: nat) -> Seq<char>
    decreases width,
{
    if width == 0 {
        Seq::empty()
    } else {
        padded(n / 10, (width - 1) as nat) + digit_text(n % 10)
    }
}

/// Elapsed microseconds as seconds with six decimals, e.g. `1.250000`.
pub open spec fn seconds_text(micros: nat) -> Seq<char> {
    decimal(micros / 1_000_000) + "."@ + padded(micros % 1_000_000, 6)
}

/// The name of the elapsed-time response header.
pub open spec fn process_time_header() -> Seq<char> {
    "x-process-time-s"@
}

fn digit(d: u64) -> (r: &'static str)
    requires
        d < 10,
    ensures
        r@ == digit_text(d as nat),
{
    if d == 0 {
        "0"
    } else if d == 1 {
        "1"
    } else if d == 2 {
        "2"
    } else if d == 3 {
        "3"
    } else if d == 4 {
        "4"
    } else if d == 5 {
        "5"
    } else if d == 6 {
        "6"
    } else if d == 7 {
        "7"
    } else if d == 8 {
        "8"
    } else {
        "9"
    }
}

pub(crate) fn write_decimal(out: &mut String, n: u64)
    ensures
        final(out)@ == old(out)@ + decimal(n as nat),
    decreases n,
{
    if n >= 10 {
        write_decimal(out, n / 10);
    }
    out.append(digit(n % 10));
    assert(final(out)@ =~= old(out)@ + decimal(n as nat));
}

fn write_padded(out: &mut String, n: u64, width: u64)
    ensures
        final(out)@ == old(out)@ + padded(n as nat, width as nat),
    decreases width,
{
    if width > 0 {
        write_padded(out, n / 10, width - 1);
        out.append(digit(n % 10));
    }
    assert(final(out)@ =~= old(out)@ + padded(n as nat, width as nat));
}

/// The elapsed-time header value for `micros` microseconds.
pub fn seconds_value(micros: u64) -> (r: String)
    ensures
        r@ == seconds_text(micros as nat),
{
    let mut out = String::new();
    write_decimal(&mut out, micros / 1_000_000);
    out.append(".");
    write_padded(&mut out, micros % 1_000_000, 6);
    assert(out@ =~= seconds_text(micros as nat));
    out
}

/// A fresh request id for the `n`-th request: its decimal numeral.
pub fn request_id_text(n: u64) -> (r: String)
    ensures
        r@ == decimal(n as nat),
        r@.len() > 0,
{
    let mut out = String::new();
    write_decimal(&mut out, n);
    proof {
        lemma_decimal_len(n as nat);
    }
    out
}

proof fn lemma_digit(a: nat)
    requires
        a < 10,
    ensures
        digit_text(a).len() == 1,
{
    reveal_strlit("0");
    reveal_strlit("1");
    reveal_strlit("2");
    reveal_strlit("3");
    reveal_strlit("4");
    reveal_strlit("5");
    reveal_strlit("6");
    reveal_strlit("7");
    reveal_strlit("8");
    reveal_strlit("9");
}

proof fn lemma_digits_distinct(a: nat, b: nat)
    requires
        a < 10,
        b < 10,
        a != b,
    ensures
        digit_text(a) != digit_text(b),
{
    reveal_strlit("0");
    reveal_strlit("1");
    reveal_strlit("2");
    reveal_strlit("3");
    reveal_strlit("4");
    reveal_strlit("5");
    reveal_strlit("6");
    reveal_strlit("7");
    reveal_strlit("8");
    reveal_strlit("9");
    assert(digit_text(a)[0] != digit_text(b)[0]);
}

proof fn lemma_decimal_len(n: nat)
    ensures
        decimal(n).len() >= 1,
        n >= 10 ==> decimal(n).len() >= 2,
    decreases n,
{
    if n < 10 {
        lemma_digit(n);
    } else {
        lemma_decimal_len(n / 10);
        lemma_digit(n % 10);
    }
}

/// Distinct numbers have distinct decimal numerals, so request ids made from
/// distinct counter values are distinct; each is non-empty.
pub proof fn decimal_injective(a: nat, b: nat)
    requires
        a != b,
    ensures
        decimal(a) != decimal(b),
        decimal(a).len() > 0,
    decreases a,
{
    lemma_decimal_len(a);
    lemma_decimal_len(b);
    if a < 10 && b < 10 {
        lemma_digits_distinct(a, b);
    } else if a < 10 {
        lemma_digit(a);
    } else if b < 10 {
        lemma_digit(b);
    } else {
        lemma_digit(a % 10);
        lemma_digit(b % 10);
        let da = decimal(a);
        let db = decimal(b);
        if da == db {
            let pa = decimal(a / 10);
            let pb = decimal(b / 10);
            assert(da.last() == digit_text(a % 10)[0]);
            assert(db.last() == digit_text(b % 10)[0]);
            assert(da.subrange(0, da.len() - 1) =~= pa);
            assert(db.subrange(0, db.len() - 1) =~= pb);
            if a % 10 != b % 10 {
                lemma_digits_distinct(a % 10, b % 10);
                assert(digit_text(a % 10) =~= seq![da.last()]);
                assert(digit_text(b % 10) =~= seq![db.last()]);
            } else {
                assert(a / 10 != b / 10);
                decimal_injective(a / 10, b / 10);
            }
        }
    }
}

/// The timer stage's factory: wraps the next service of the chain.
pub struct Timer;

/// The timer stage around the next service `S`.
pub struct TimerMiddleware<S> {
    pub service: S,
}

impl Timer {
    /// Wraps `service` in a timer stage.
    pub fn new_transform<S>(&self, service: S) -> (r: TimerMiddleware<S>)
        ensures
            r.service == service,
    {
        TimerMiddleware { service }
    }
}

impl<S> TimerMiddleware<S> {
    /// The header name and value this stage adds after `micros` microseconds.
    pub fn elapsed_header(&self, micros: u64) -> (r: (String, String))
        ensures
            r.0@ == process_time_header(),
            r.1@ == seconds_text(micros as nat),
    {
        (String::from_str("x-process-time-s"), seconds_value(micros))
    }
}

} // verus!
