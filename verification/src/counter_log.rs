//! The lines that the ITM demo writes to stimulus port 0: after a greeting,
//! one line per timer tick, `"<counter>: This is a very useful logger"`,
//! where the counter starts at zero and grows by one each tick.

use vstd::prelude::*;
use vstd::string::StringSliceAdditionalSpecFns;

verus! {

/// Text that follows the counter on every line, the line end included.
pub const COUNTER_MESSAGE: &'static str = ": This is a very useful logger\n";

/// The ASCII byte of a decimal digit.
pub open spec fn digit_byte(d: nat) -> u8 {
    (d + 48) as u8
}

/// Decimal digits of `n`, most significant first, without leading zeros
/// (zero is the single digit `0`).
pub open spec fn decimal_digits(n: nat) -> Seq<u8>
    decreases n,
{
    if n < 10 {
        seq![digit_byte(n)]
    } else {
        decimal_digits(n / 10).push(digit_byte(n % 10))
    }
}

/// Decimal text of an integer, with a `-` in front of a negative one.
pub open spec fn decimal_text(n: int) -> Seq<u8> {
    if n < 0 {
        seq![45u8] + decimal_digits((-n) as nat)
    } else {
        decimal_digits(n as nat)
    }
}

/// The bytes of the line that the demo writes for `counter`.
pub open spec fn counter_line(counter: int) -> Seq<u8> {
    decimal_text(counter) + COUNTER_MESSAGE.spec_bytes()
}

/// Whether a byte is an ASCII decimal digit.
pub open spec fn is_digit_byte(b: u8) -> bool {
    48 <= b <= 57
}

/// The number that a sequence of decimal digit bytes denotes.
pub open spec fn digits_value(s: Seq<u8>) -> nat
    decreases s.len(),
{
    if s.len() == 0 {
        0
    } else {
        digits_value(s.drop_last()) * 10 + (s.last() - 48) as nat
    }
}

/// Decimal text reads back: the digits of `n` are decimal digit bytes,
/// there is at least one, the first is not `0` unless `n` is zero, and
/// they denote `n`.
pub proof fn lemma_decimal_digits_denote(n: nat)
    ensures
        decimal_digits(n).len() >= 1,
        forall|i: int| 0 <= i < decimal_digits(n).len() ==> is_digit_byte(#[trigger] decimal_digits(n)[i]),
        n != 0 ==> decimal_digits(n)[0] != 48u8,
        digits_value(decimal_digits(n)) == n,
    decreases n,
{
    let s = decimal_digits(n);
    if n >= 10 {
        lemma_decimal_digits_denote(n / 10);
        assert(s.drop_last() =~= decimal_digits(n / 10));
        assert(s[0] == decimal_digits(n / 10)[0]);
        assert(s.last() == n % 10 + 48);
        assert(n == (n / 10) * 10 + n % 10);
        assert(digits_value(s) == digits_value(s.drop_last()) * 10 + (s.last() - 48) as nat);
        assert(digits_value(s) == (n / 10) * 10 + n % 10);
    } else {
        assert(s.drop_last() =~= Seq::<u8>::empty());
        assert(s.last() == n + 48);
        assert(digits_value(s) == digits_value(s.drop_last()) * 10 + (s.last() - 48) as nat);
        assert(digits_value(Seq::<u8>::empty()) == 0);
    }
}

/// Whether `text` is `n` written in decimal, by how it reads: digit bytes
/// that denote the magnitude of `n`, with a `-` in front when `n` is
/// negative, at least one digit and no leading zero.
pub open spec fn reads_as_decimal(text: Seq<u8>, n: int) -> bool {
    if n >= 0 {
        &&& text.len() >= 1
        &&& forall|i: int| 0 <= i < text.len() ==> is_digit_byte(#[trigger] text[i])
        &&& digits_value(text) == n
        &&& n == 0 ==> text.len() == 1
        &&& n != 0 ==> text[0] != 48u8
    } else {
        &&& text.len() >= 2
        &&& text[0] == 45u8
        &&& forall|i: int| 1 <= i < text.len() ==> is_digit_byte(#[trigger] text[i])
        &&& digits_value(text.subrange(1, text.len() as int)) == -n
        &&& text[1] != 48u8
    }
}

/// Whether `line` is the demo's line for `counter`, by how it reads: the
/// counter in decimal, then the message.
pub open spec fn reads_as_counter_line(line: Seq<u8>, counter: int) -> bool {
    let m = COUNTER_MESSAGE.spec_bytes();
    let k = line.len() - m.len();
    &&& line.len() >= m.len()
    &&& line.subrange(k, line.len() as int) == m
    &&& reads_as_decimal(line.subrange(0, k), counter)
}

/// The decimal text of an integer reads back as that integer.
pub proof fn lemma_decimal_text_reads_back(n: int)
    ensures
        reads_as_decimal(decimal_text(n), n),
{
    let t = decimal_text(n);
    if n >= 0 {
        lemma_decimal_digits_denote(n as nat);
        if n == 0 {
            assert(t =~= seq![48u8]);
        }
    } else {
        let d = decimal_digits((-n) as nat);
        lemma_decimal_digits_denote((-n) as nat);
        assert(t.subrange(1, t.len() as int) =~= d);
        assert forall|i: int| 1 <= i < t.len() implies is_digit_byte(#[trigger] t[i]) by {
            assert(t[i] == d[i - 1]);
        }
        assert(t[1] == d[0]);
    }
}

/// The demo's line for a counter reads back as that counter followed by
/// the message.
pub proof fn lemma_counter_line_reads_back(counter: int)
    ensures
        reads_as_counter_line(counter_line(counter), counter),
{
    let line = counter_line(counter);
    let m = COUNTER_MESSAGE.spec_bytes();
    let t = decimal_text(counter);
    let k = line.len() - m.len();
    assert(k == t.len());
    assert(line.subrange(k, line.len() as int) =~= m);
    assert(line.subrange(0, k) =~= t);
    lemma_decimal_text_reads_back(counter);
}

/// Appends the decimal digits of `m` to `out`.
fn push_digits(out: &mut Vec<u8>, m: u32)
    ensures
        final(out)@ == old(out)@ + decimal_digits(m as nat),
    decreases m,
{
    if m >= 10 {
        push_digits(out, m / 10);
    }
    let d: u32 = m % 10;
    let b: u8 = (d + 48) as u8;
    out.push(b);
    proof {
        if m < 10 {
            assert(old(out)@ + decimal_digits(m as nat) =~= old(out)@.push(b));
        } else {
            assert(old(out)@ + decimal_digits(m as nat) =~= (old(out)@ + decimal_digits(
                (m / 10) as nat,
            )).push(b));
        }
    }
}

/// Decimal text of `n`, as the `{}` format of an `i32` writes it.
pub fn decimal_bytes(n: i32) -> (text: Vec<u8>)
    ensures
        text@ == decimal_text(n as int),
        reads_as_decimal(text@, n as int),
{
    proof {
        lemma_decimal_text_reads_back(n as int);
    }
    let mut text: Vec<u8> = Vec::new();
    if n < 0 {
        text.push(45u8);
        let wide: i64 = n as i64;
        let magnitude: u32 = (-wide) as u32;
        push_digits(&mut text, magnitude);
        assert(text@ =~= decimal_text(n as int));
    } else {
        let magnitude: u32 = n as u32;
        push_digits(&mut text, magnitude);
        assert(text@ =~= decimal_text(n as int));
    }
    text
}

/// The line that the demo writes for `counter`: its decimal text, then
/// the message.
pub fn format_counter_line(counter: i32) -> (line: Vec<u8>)
    ensures
        line@ == counter_line(counter as int),
        reads_as_counter_line(line@, counter as int),
{
    proof {
        lemma_counter_line_reads_back(counter as int);
    }
    let mut line = decimal_bytes(counter);
    let message: &[u8] = COUNTER_MESSAGE.as_bytes();
    let ghost prefix = line@;
    let mut i: usize = 0;
    while i < message.len()
        invariant
            i <= message@.len(),
            message@ == COUNTER_MESSAGE.spec_bytes(),
            prefix == decimal_text(counter as int),
            line@ == prefix + message@.subrange(0, i as int),
        decreases message@.len() - i,
    {
        line.push(message[i]);
        i = i + 1;
        assert(line@ =~= prefix + message@.subrange(0, i as int));
    }
    assert(message@.subrange(0, message@.len() as int) =~= message@);
    line
}

/// State of the ITM demo: the value that the next line shows.
pub struct CounterLog {
    pub counter: i32,
}

impl CounterLog {
    /// The demo before its first tick: the counter is zero.
    pub fn new() -> (log: CounterLog)
        ensures
            log.counter == 0,
    {
        CounterLog { counter: 0 }
    }

    /// The line that the demo writes on the current tick.
    pub fn current_line(&self) -> (line: Vec<u8>)
        ensures
            line@ == counter_line(self.counter as int),
            reads_as_counter_line(line@, self.counter as int),
    {
        format_counter_line(self.counter)
    }

    /// The end of a tick: the counter grows by one. The demo's
    /// `counter += 1` overflows (and panics) once the counter is
    /// `i32::MAX`, so that state does not advance.
    pub fn advance(&mut self)
        requires
            old(self).counter < i32::MAX,
        ensures
            final(self).counter == old(self).counter + 1,
    {
        self.counter = self.counter + 1;
    }
}

} // verus!
