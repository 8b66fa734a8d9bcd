//! Numbers and substrings in text.

use vstd::prelude::*;

verus! {

/// `c` is an ASCII decimal digit.
pub open spec fn is_digit(c: char) -> bool {
    '0' <= c && c <= '9'
}

/// The value of a string of decimal digits.
pub open spec fn digits_value(s: Seq<char>) -> nat
    decreases s.len(),
{
    if s.len() == 0 {
        0
    } else {
        digits_value(s.drop_last()) * 10 + (s.last() as nat - '0' as nat) as nat
    }
}

/// What is left of a number once the optional plus sign is taken off.
pub open spec fn unsigned_part(s: Seq<char>) -> Seq<char> {
    if s.len() > 0 && s[0] == '+' {
        s.skip(1)
    } else {
        s
    }
}

/// The machine word that `s` writes: an optional plus sign, then one or more decimal digits, and
/// nothing else.
pub open spec fn number_in(s: Seq<char>) -> Option<usize> {
    let d = unsigned_part(s);
    if d.len() > 0 && (forall|i: int| 0 <= i < d.len() ==> is_digit(#[trigger] d[i]))
        && digits_value(d) <= usize::MAX {
        Some(digits_value(d) as usize)
    } else {
        None
    }
}

/// Why a text writes no machine word.
#[derive(Clone, Copy, Debug, PartialEq, Eq, Structural)]
pub enum ParseFailure {
    Empty,
    InvalidDigit,
    PosOverflow,
}

impl ParseFailure {
    /// What is said of the failure.
    pub open spec fn text(self) -> Seq<char> {
        match self {
            ParseFailure::Empty => "cannot parse integer from empty string"@,
            ParseFailure::InvalidDigit => "invalid digit found in string"@,
            ParseFailure::PosOverflow => "number too large to fit in target type"@,
        }
    }

    pub fn message(&self) -> (r: &'static str)
        ensures
            r@ == self.text(),
    {
        match self {
            ParseFailure::Empty => "cannot parse integer from empty string",
            ParseFailure::InvalidDigit => "invalid digit found in string",
            ParseFailure::PosOverflow => "number too large to fit in target type",
        }
    }
}

/// The first `n` characters of `d` are digits that write more than a machine word.
pub open spec fn overflows_by(d: Seq<char>, n: int) -> bool {
    &&& 0 <= n <= d.len()
    &&& forall|i: int| 0 <= i < n ==> is_digit(#[trigger] d[i])
    &&& digits_value(d.take(n)) > usize::MAX
}

/// Why `s`, read from the left, writes no machine word: there is nothing to read, the digits that
/// it begins with are too many already, or something else than a digit comes first.
pub open spec fn failure_in(s: Seq<char>) -> ParseFailure {
    if s.len() == 0 {
        ParseFailure::Empty
    } else if exists|n: int| #[trigger] overflows_by(unsigned_part(s), n) {
        ParseFailure::PosOverflow
    } else {
        ParseFailure::InvalidDigit
    }
}

/// What reading `s` as a number comes to.
pub open spec fn parsed(s: Seq<char>) -> Result<usize, ParseFailure> {
    match number_in(s) {
        Some(n) => Ok(n),
        None => Err(failure_in(s)),
    }
}

/// The decimal digit that writes `d`.
pub open spec fn digit_char(d: nat) -> char {
    ('0' as nat + d) as char
}

/// `n` in decimal, without leading zeros.
pub open spec fn decimal(n: nat) -> Seq<char>
    decreases n,
{
    if n < 10 {
        seq![digit_char(n)]
    } else {
        decimal(n / 10).push(digit_char(n % 10))
    }
}

/// The characters of `s`.
pub fn chars_of(s: &str) -> (r: Vec<char>)
    ensures
        r@ == s@,
{
    let mut r: Vec<char> = Vec::new();
    for c in it: s.chars()
        invariant
            it.seq() == s@,
            r@ == s@.take(it.index()),
    {
        proof {
            assert(s@.take(it.index() + 1) =~= s@.take(it.index()).push(c));
        }
        r.push(c);
    }
    proof {
        assert(s@.take(s@.len() as int) =~= s@);
    }
    r
}

proof fn lemma_digits_value_grows(s: Seq<char>, n: int)
    requires
        0 <= n <= s.len(),
        forall|i: int| 0 <= i < s.len() ==> is_digit(#[trigger] s[i]),
    ensures
        digits_value(s.take(n)) <= digits_value(s),
    decreases s.len(),
{
    if n == s.len() {
        assert(s.take(n) =~= s);
    } else {
        lemma_digits_value_grows(s.drop_last(), n);
        assert(s.drop_last().take(n) =~= s.take(n));
    }
}

/// Reads the number that the characters of `cs` from `from` up to `to` write.
pub fn parse_chars(cs: &Vec<char>, from: usize, to: usize) -> (r: Result<usize, ParseFailure>)
    requires
        from <= to <= cs@.len(),
    ensures
        r == parsed(cs@.subrange(from as int, to as int)),
{
    let ghost s = cs@.subrange(from as int, to as int);
    if from == to {
        return Err(ParseFailure::Empty);
    }
    let mut i: usize = from;
    if from < to && cs[from] == '+' {
        i = from + 1;
    }
    let start: usize = i;
    let ghost d = unsigned_part(s);
    if start >= to {
        proof {
            assert forall|n: int| !#[trigger] overflows_by(d, n) by {
                if overflows_by(d, n) {
                    assert(d.take(n).len() == 0);
                }
            }
        }
        return Err(ParseFailure::InvalidDigit);
    }
    let mut value: usize = 0;
    while i < to
        invariant
            from <= start <= i <= to <= cs@.len(),
            start <= from + 1,
            s == cs@.subrange(from as int, to as int),
            d == s.skip(start - from),
            d == unsigned_part(s),
            d.len() > 0,
            forall|j: int| 0 <= j < i - start ==> is_digit(#[trigger] d[j]),
            value == digits_value(d.take(i - start)),
        decreases to - i,
    {
        let c = cs[i];
        proof {
            assert(d[i - start] == c);
        }
        if c < '0' || c > '9' {
            proof {
                assert forall|n: int| !#[trigger] overflows_by(d, n) by {
                    if overflows_by(d, n) {
                        assert(n <= i - start);
                        let read = d.take(i - start);
                        lemma_digits_value_grows(read, n);
                        assert(read.take(n) =~= d.take(n));
                    }
                }
            }
            return Err(ParseFailure::InvalidDigit);
        }
        let digit: usize = (c as u32 - '0' as u32) as usize;
        proof {
            let next = d.take(i - start + 1);
            assert(next.drop_last() =~= d.take(i - start));
            assert(next.last() == c);
            assert(digits_value(next) == value * 10 + digit);
            if forall|j: int| 0 <= j < d.len() ==> is_digit(#[trigger] d[j]) {
                lemma_digits_value_grows(d, i - start + 1);
            }
        }
        if value > (usize::MAX - digit) / 10 {
            proof {
                assert(overflows_by(d, i - start + 1));
            }
            return Err(ParseFailure::PosOverflow);
        }
        value = value * 10 + digit;
        i = i + 1;
    }
    proof {
        assert(d.take(i - start) =~= d);
    }
    Ok(value)
}

/// Reads a number the way the numeric settings of the environment are read.
pub fn parse_usize(s: &str) -> (r: Result<usize, ParseFailure>)
    ensures
        r == parsed(s@),
{
    let cs = chars_of(s);
    proof {
        assert(cs@.subrange(0, cs@.len() as int) =~= s@);
    }
    parse_chars(&cs, 0, cs.len())
}

fn digit_str(d: usize) -> (r: &'static str)
    requires
        d < 10,
    ensures
        r@ == seq![digit_char(d as nat)],
{
    proof {
        reveal_strlit("0");
        reveal_strlit("1");
        reveal_strlit("2");
        reveal_strlit("3");
        reveal_strlit("4");
        reveal_strlit("5");
        reveal_strlit("6");
        reveal_strlit("7");
        reveal_strlit("8");
        reveal_strlit("9");
    }
    match d {
        0 => "0",
        1 => "1",
        2 => "2",
        3 => "3",
        4 => "4",
        5 => "5",
        6 => "6",
        7 => "7",
        8 => "8",
        _ => "9",
    }
}

/// Writes a number in decimal.
pub fn usize_to_string(n: usize) -> (r: String)
    ensures
        r@ == decimal(n as nat),
    decreases n,
{
    if n < 10 {
        String::from_str(digit_str(n))
    } else {
        let mut r = usize_to_string(n / 10);
        r.append(digit_str(n % 10));
        r
    }
}

/// A digit behind a number makes it ten times as large, and adds its own value.
pub proof fn law_number_grows_digit_by_digit(s: Seq<char>, c: char, n: usize)
    requires
        number_in(s) == Some(n),
        '0' <= c <= '9',
        n * 10 + (c as int - '0' as int) <= usize::MAX,
    ensures
        number_in(s.push(c)) == Some((n * 10 + (c as int - '0' as int)) as usize),
{
    let d = unsigned_part(s);
    let e = unsigned_part(s.push(c));
    assert(e =~= d.push(c));
    assert(e.drop_last() =~= d);
    assert forall|i: int| 0 <= i < e.len() implies is_digit(#[trigger] e[i]) by {
        if i < d.len() {
            assert(e[i] == d[i]);
        }
    }
}

/// A digit alone writes its value, and a plus sign before a number changes nothing.
pub proof fn law_number_begins(c: char, s: Seq<char>)
    requires
        '0' <= c <= '9',
        s.len() > 0,
        s[0] != '+',
    ensures
        number_in(seq![c]) == Some((c as int - '0' as int) as usize),
        number_in(seq!['+'] + s) == number_in(s),
{
    assert(seq![c].drop_last() =~= Seq::<char>::empty());
    assert(digits_value(Seq::<char>::empty()) == 0);
    assert(unsigned_part(seq![c])[0] == c);
    assert(unsigned_part(seq!['+'] + s) =~= s);
}

/// Nothing but a leading plus sign may stand beside the digits, and there must be one.
pub proof fn law_only_digits_are_a_number(s: Seq<char>, i: int)
    requires
        0 <= i < s.len(),
        s[i] < '0' || s[i] > '9',
        i > 0 || s[0] != '+' || s.len() == 1,
    ensures
        number_in(s) is None,
        number_in(Seq::<char>::empty()) is None,
{
    let d = unsigned_part(s);
    if s[0] == '+' {
        if s.len() > 1 {
            assert(d[i - 1] == s[i]);
        }
    } else {
        assert(d[i] == s[i]);
    }
}

/// Reading stops at the first character that spoils the number so far: a digit that makes it too
/// large is an overflow, and anything else is no digit, whatever comes behind.
pub proof fn law_first_failure_counts(s: Seq<char>, c: char, rest: Seq<char>, n: usize)
    requires
        number_in(s) == Some(n),
    ensures
        '0' <= c <= '9' && n * 10 + (c as int - '0' as int) > usize::MAX ==> parsed(
            s.push(c) + rest,
        ) == Err::<usize, ParseFailure>(ParseFailure::PosOverflow),
        c < '0' || c > '9' ==> parsed(s.push(c) + rest) == Err::<usize, ParseFailure>(
            ParseFailure::InvalidDigit,
        ),
        parsed(s) == Ok::<usize, ParseFailure>(n),
        parsed(Seq::<char>::empty()) == Err::<usize, ParseFailure>(ParseFailure::Empty),
        parsed(seq!['+']) == Err::<usize, ParseFailure>(ParseFailure::InvalidDigit),
{
    let t = s.push(c) + rest;
    let d = unsigned_part(s);
    let e = unsigned_part(t);
    assert(e =~= d.push(c) + rest);
    let m = d.len() as int;
    assert(e.take(m) =~= d);
    assert(e[m] == c);
    assert forall|i: int| 0 <= i < m implies is_digit(#[trigger] e[i]) by {
        assert(e[i] == d[i]);
    }
    if '0' <= c <= '9' {
        let next = e.take(m + 1);
        assert(next.drop_last() =~= d);
        assert(next.last() == c);
        assert(digits_value(next) == n * 10 + (c as int - '0' as int));
        if digits_value(next) > usize::MAX {
            assert(overflows_by(e, m + 1));
            if forall|i: int| 0 <= i < e.len() ==> is_digit(#[trigger] e[i]) {
                lemma_digits_value_grows(e, m + 1);
            }
        }
    } else {
        assert(!is_digit(e[m]));
        assert forall|k: int| !#[trigger] overflows_by(e, k) by {
            if overflows_by(e, k) {
                assert(k <= m);
                lemma_digits_value_grows(d, k);
                assert(d.take(k) =~= e.take(k));
            }
        }
    }
    let plus = unsigned_part(seq!['+']);
    assert(plus.len() == 0);
    assert forall|k: int| !#[trigger] overflows_by(plus, k) by {
        if overflows_by(plus, k) {
            assert(plus.take(k).len() == 0);
        }
    }
}

/// A text that begins with something else than a digit, with or without a plus sign before it,
/// writes no number, however many digits come behind.
pub proof fn law_numbers_begin_with_a_digit(c: char, rest: Seq<char>)
    requires
        c < '0' || c > '9',
    ensures
        c != '+' ==> parsed(seq![c] + rest) == Err::<usize, ParseFailure>(
            ParseFailure::InvalidDigit,
        ),
        parsed(seq!['+', c] + rest) == Err::<usize, ParseFailure>(ParseFailure::InvalidDigit),
{
    let bare = seq![c] + rest;
    let plus = seq!['+', c] + rest;
    assert(unsigned_part(plus) =~= bare);
    assert(!is_digit(bare[0]));
    assert forall|k: int| !#[trigger] overflows_by(bare, k) by {
        if overflows_by(bare, k) {
            assert(k <= 0);
            assert(bare.take(k).len() == 0);
        }
    }
}

/// A number that is written out reads back, and is written without leading zeros.
pub proof fn law_decimal_reads_back(n: usize)
    ensures
        number_in(decimal(n as nat)) == Some(n),
        decimal(n as nat).len() > 1 ==> decimal(n as nat)[0] != '0',
        decimal(n as nat)[0] == '0' ==> n == 0,
    decreases n,
{
    let c = digit_char(n as nat % 10);
    assert(c as int == '0' as int + n % 10);
    if n < 10 {
        law_number_begins(c, seq![c]);
    } else {
        law_decimal_reads_back(n / 10);
        law_number_grows_digit_by_digit(decimal(n as nat / 10), c, n / 10);
        assert(decimal(n as nat)[0] == decimal(n as nat / 10)[0]);
    }
}

} // verus!
