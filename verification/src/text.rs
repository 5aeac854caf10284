//! Decimal text of integers, and character level helpers for strings.
use vstd::prelude::*;

verus! {

broadcast use vstd::string::group_string_axioms;

/// The character of a decimal digit.
pub open spec fn digit_char(d: int) -> char {
    (48 + d) as char
}

/// Whether a character is an ASCII decimal digit.
pub open spec fn is_digit(c: char) -> bool {
    '0' <= c && c <= '9'
}

/// The value of an ASCII decimal digit character.
pub open spec fn digit_value(c: char) -> int {
    c as int - 48
}

/// The shortest decimal text of a natural number, most significant digit first.
pub open spec fn decimal(n: nat) -> Seq<char>
    decreases n,
{
    if n < 10 {
        seq![digit_char(n as int)]
    } else {
        decimal(n / 10).push(digit_char((n % 10) as int))
    }
}

/// The decimal text of a signed number: a minus sign before the digits of a negative one.
pub open spec fn signed_decimal(n: int) -> Seq<char> {
    if n < 0 {
        seq!['-'] + decimal((-n) as nat)
    } else {
        decimal(n as nat)
    }
}

/// Whether every character of a sequence is a decimal digit.
pub open spec fn all_digits(s: Seq<char>) -> bool {
    forall|i: int| 0 <= i < s.len() ==> #[trigger] is_digit(s[i])
}

/// The number that a sequence of decimal digits denotes.
pub open spec fn digits_value(s: Seq<char>) -> nat
    decreases s.len(),
{
    if s.len() == 0 {
        0
    } else {
        (digits_value(s.drop_last()) * 10 + digit_value(s.last())) as nat
    }
}

/// The digits of a number's text: the text without one leading `+`.
pub open spec fn unsigned_body(s: Seq<char>) -> Seq<char> {
    if s.len() > 0 && s[0] == '+' {
        s.drop_first()
    } else {
        s
    }
}

/// What `str::parse` gives for an unsigned integer type whose largest value is `max`: an
/// optional leading `+`, then one or more decimal digits whose value is at most `max`.
pub open spec fn parse_bounded_spec(s: Seq<char>, max: nat) -> Option<nat> {
    let body = unsigned_body(s);
    if body.len() > 0 && all_digits(body) && digits_value(body) <= max {
        Some(digits_value(body))
    } else {
        None
    }
}

/// What `str::parse::<u64>` gives for a text.
pub open spec fn parse_u64_spec(s: Seq<char>) -> Option<u64> {
    match parse_bounded_spec(s, u64::MAX as nat) {
        Some(n) => Some(n as u64),
        None => None,
    }
}

/// Why a text is not the decimal text of an unsigned number, as `ParseIntError` tells it.
#[derive(Clone, Copy, Debug, PartialEq, Eq, Structural)]
pub enum IntParseError {
    /// The text is empty.
    Empty,
    /// A character that is not a digit comes before the value grew too large.
    InvalidDigit,
    /// The value grew larger than the type can hold.
    PosOverflow,
}

/// Whether, reading the digits from the left, a character that is not a digit is met before
/// the value read so far exceeds `max`.
pub open spec fn invalid_digit_first(body: Seq<char>, max: nat) -> bool {
    exists|k: int|
        0 <= k < body.len() && !is_digit(#[trigger] body[k]) && all_digits(body.take(k))
            && digits_value(body.take(k)) <= max
}

/// What `str::parse` gives for an unsigned integer type whose largest value is `max`, with
/// the kind of error for a text that it refuses.
pub open spec fn parse_outcome(s: Seq<char>, max: nat) -> Result<nat, IntParseError> {
    match parse_bounded_spec(s, max) {
        Some(n) => Ok(n),
        None => if s.len() == 0 {
            Err(IntParseError::Empty)
        } else if unsigned_body(s).len() == 0 || invalid_digit_first(unsigned_body(s), max) {
            Err(IntParseError::InvalidDigit)
        } else {
            Err(IntParseError::PosOverflow)
        },
    }
}

/// The message that `ParseIntError` shows for each kind of error.
pub open spec fn int_parse_error_text(e: IntParseError) -> Seq<char> {
    match e {
        IntParseError::Empty => "cannot parse integer from empty string"@,
        IntParseError::InvalidDigit => "invalid digit found in string"@,
        IntParseError::PosOverflow => "number too large to fit in target type"@,
    }
}

impl IntParseError {
    /// The message of this error, as `ParseIntError` displays it.
    pub fn message(&self) -> (s: String)
        ensures
            s@ == int_parse_error_text(*self),
    {
        match self {
            IntParseError::Empty => owned("cannot parse integer from empty string"),
            IntParseError::InvalidDigit => owned("invalid digit found in string"),
            IntParseError::PosOverflow => owned("number too large to fit in target type"),
        }
    }
}

/// Appends one character to a string.
///
/// Calls `String::push`, which appends the character to the end of the string.
#[verifier::external_body]
pub(crate) fn push_char(s: &mut String, c: char)
    ensures
        final(s)@ == old(s)@.push(c),
{
    s.push(c);
}

/// Appends a string slice to a string.
pub(crate) fn push_str(s: &mut String, t: &str)
    ensures
        final(s)@ == old(s)@ + t@,
{
    s.append(t);
}

/// A string holding the characters of a string slice.
pub(crate) fn owned(t: &str) -> (s: String)
    ensures
        s@ == t@,
{
    String::from_str(t)
}

/// Whether two texts hold the same characters.
pub fn same_text(a: &str, b: &str) -> (r: bool)
    ensures
        r == (a@ == b@),
{
    owned(a) == owned(b)
}

/// A string holding one text followed by another.
pub fn concat(a: &str, b: &str) -> (s: String)
    ensures
        s@ == a@ + b@,
{
    let mut s = owned(a);
    push_str(&mut s, b);
    s
}

/// The text without any occurrence of a character.
pub open spec fn without_char(s: Seq<char>, c: char) -> Seq<char>
    decreases s.len(),
{
    if s.len() == 0 {
        seq![]
    } else if s.last() == c {
        without_char(s.drop_last(), c)
    } else {
        without_char(s.drop_last(), c).push(s.last())
    }
}

/// Whether a text ends with another.
pub open spec fn ends_with(s: Seq<char>, suffix: Seq<char>) -> bool {
    suffix.len() <= s.len() && s.subrange(s.len() - suffix.len(), s.len() as int) == suffix
}

/// A string holding the characters of a range of a character vector.
pub fn text_of(cs: &Vec<char>, from: usize, to: usize) -> (s: String)
    requires
        from <= to <= cs.len(),
    ensures
        s@ == cs@.subrange(from as int, to as int),
{
    let mut s = String::new();
    let mut i = from;
    while i < to
        invariant
            from <= i <= to <= cs.len(),
            s@ == cs@.subrange(from as int, i as int),
        decreases to - i,
    {
        push_char(&mut s, cs[i]);
        assert(cs@.subrange(from as int, i + 1) =~= cs@.subrange(from as int, i as int).push(cs@[i as int]));
        i = i + 1;
    }
    s
}

/// The text with every occurrence of a character removed.
pub fn remove_char(t: &str, c: char) -> (s: String)
    ensures
        s@ == without_char(t@, c),
{
    let cs = chars_of(t);
    let mut s = String::new();
    let mut i: usize = 0;
    while i < cs.len()
        invariant
            i <= cs.len(),
            cs@ == t@,
            s@ == without_char(t@.take(i as int), c),
        decreases cs.len() - i,
    {
        assert(t@.take(i + 1).drop_last() =~= t@.take(i as int));
        assert(t@.take(i + 1).last() == cs@[i as int]);
        if cs[i] != c {
            push_char(&mut s, cs[i]);
        }
        i = i + 1;
    }
    assert(t@.take(cs.len() as int) =~= t@);
    s
}

/// The text before a suffix, when the text ends with it.
pub fn strip_suffix_text(t: &str, suffix: &str) -> (r: Option<String>)
    ensures
        match r {
            Some(p) => ends_with(t@, suffix@) && p@ == t@.subrange(0, t@.len() - suffix@.len()),
            None => !ends_with(t@, suffix@),
        },
{
    let cs = chars_of(t);
    let ss = chars_of(suffix);
    if ss.len() > cs.len() {
        return None;
    }
    let start = cs.len() - ss.len();
    let mut i: usize = 0;
    while i < ss.len()
        invariant
            i <= ss.len(),
            start + ss.len() == cs.len(),
            cs@ == t@,
            ss@ == suffix@,
            forall|j: int| 0 <= j < i ==> cs@[start + j] == ss@[j],
        decreases ss.len() - i,
    {
        if cs[start + i] != ss[i] {
            assert(t@.subrange(start as int, t@.len() as int)[i as int] != suffix@[i as int]);
            return None;
        }
        i = i + 1;
    }
    assert(t@.subrange(start as int, t@.len() as int) =~= suffix@);
    Some(text_of(&cs, 0, start))
}

/// Collects the characters of a string slice.
pub fn chars_of(s: &str) -> (v: Vec<char>)
    ensures
        v@ == s@,
{
    let mut v: Vec<char> = Vec::new();
    for c in it: s.chars()
        invariant
            v@ == it.history(),
    {
        v.push(c);
    }
    v
}

/// Appends the decimal text of `n` to `s`.
pub fn write_decimal(s: &mut String, n: u64)
    ensures
        final(s)@ == old(s)@ + decimal(n as nat),
    decreases n,
{
    if n >= 10 {
        write_decimal(s, n / 10);
    }
    push_char(s, ((n % 10) as u8 + 48u8) as char);
    proof {
        assert(((n % 10) as u8 + 48u8) as char == digit_char((n % 10) as int));
    }
}

/// The decimal text of an unsigned number, as `u64::to_string` gives it.
pub fn u64_to_text(n: u64) -> (s: String)
    ensures
        s@ == decimal(n as nat),
{
    let mut s = String::new();
    write_decimal(&mut s, n);
    s
}

/// The decimal text of a signed number, as `i64::to_string` gives it.
pub fn i64_to_text(n: i64) -> (s: String)
    ensures
        s@ == signed_decimal(n as int),
{
    let mut s = String::new();
    if n < 0 {
        push_char(&mut s, '-');
        let m: u64 = if n == i64::MIN { 9223372036854775808u64 } else { (-n) as u64 };
        write_decimal(&mut s, m);
    } else {
        write_decimal(&mut s, n as u64);
    }
    s
}

/// Parses a text as `str::parse` does for an unsigned integer type whose largest value is
/// `max`: an optional leading `+`, then decimal digits whose value is at most `max`.
pub fn parse_unsigned(t: &str, max: u64) -> (r: Result<u64, IntParseError>)
    ensures
        match parse_outcome(t@, max as nat) {
            Ok(n) => r == Ok::<u64, IntParseError>(n as u64),
            Err(e) => r == Err::<u64, IntParseError>(e),
        },
{
    let cs = chars_of(t);
    if cs.len() == 0 {
        return Err(IntParseError::Empty);
    }
    let start: usize = if cs[0] == '+' { 1 } else { 0 };
    let ghost body = unsigned_body(t@);
    if start >= cs.len() {
        return Err(IntParseError::InvalidDigit);
    }
    let mut acc: u64 = 0;
    let mut i: usize = start;
    while i < cs.len()
        invariant
            start <= i <= cs.len(),
            cs@ == t@,
            start == 0 || start == 1,
            body == cs@.subrange(start as int, cs@.len() as int),
            body == unsigned_body(t@),
            body.len() > 0,
            all_digits(body.take(i - start)),
            acc as nat == digits_value(body.take(i - start)),
            acc <= max,
        decreases cs.len() - i,
    {
        let c = cs[i];
        let ghost k = i - start;
        proof {
            lemma_digit_step(body, k);
        }
        if !('0' <= c && c <= '9') {
            assert(invalid_digit_first(body, max as nat)) by {
                assert(!is_digit(body[k]));
            }
            return Err(IntParseError::InvalidDigit);
        }
        let d: u64 = (c as u32 - 48) as u64;
        if d > max || acc > (max - d) / 10 {
            proof {
                assert(acc * 10 + d > max) by (nonlinear_arith)
                    requires d > max || acc > (max - d) / 10, d <= 9;
                lemma_overflow_first(body, k + 1, max as nat);
                if all_digits(body) {
                    lemma_digits_value_prefix_le(body, k + 1);
                }
            }
            return Err(IntParseError::PosOverflow);
        }
        assert(acc * 10 + d <= max) by (nonlinear_arith)
            requires d <= max, acc <= (max - d) / 10;
        acc = acc * 10 + d;
        i = i + 1;
    }
    assert(body.take(i - start) =~= body);
    Ok(acc)
}

/// Parses a text as `str::parse::<u64>` does. Any text it refuses, the empty one included,
/// gives `None`.
pub fn parse_u64(t: &str) -> (r: Option<u64>)
    ensures
        r == parse_u64_spec(t@),
{
    match parse_unsigned(t, u64::MAX) {
        Ok(n) => Some(n),
        Err(_) => None,
    }
}

/// Reading one more character of a text of digits extends the prefix by that character.
pub proof fn lemma_digit_step(body: Seq<char>, k: int)
    requires
        0 <= k < body.len(),
    ensures
        body.take(k + 1).drop_last() == body.take(k),
        body.take(k + 1).last() == body[k],
        is_digit(body[k]) ==> digits_value(body.take(k + 1)) == digits_value(body.take(k)) * 10
            + digit_value(body[k]),
        all_digits(body.take(k)) && is_digit(body[k]) ==> all_digits(body.take(k + 1)),
{
    assert(body.take(k + 1).drop_last() =~= body.take(k));
    assert(body.take(k + 1).last() == body[k]);
    if all_digits(body.take(k)) && is_digit(body[k]) {
        assert forall|i: int| 0 <= i < k + 1 implies #[trigger] is_digit(body.take(k + 1)[i]) by {
            if i < k {
                assert(body.take(k + 1)[i] == body.take(k)[i]);
            }
        }
    }
}

/// When the digits up to position `j` already exceed `max`, no character that is not a digit
/// is met before the value grew too large.
pub proof fn lemma_overflow_first(body: Seq<char>, j: int, max: nat)
    requires
        0 < j <= body.len(),
        all_digits(body.take(j)),
        digits_value(body.take(j)) > max,
    ensures
        !invalid_digit_first(body, max),
{
    assert forall|k: int|
        0 <= k < body.len() && !is_digit(#[trigger] body[k]) && all_digits(body.take(k)) implies
        digits_value(body.take(k)) > max by {
        if k < j {
            assert(body.take(j)[k] == body[k]);
        } else {
            assert(body.take(k).take(j) =~= body.take(j));
            lemma_digits_value_prefix_le(body.take(k), j);
        }
    }
}

/// The value of a prefix of digits never exceeds the value of the whole.
pub proof fn lemma_digits_value_prefix_le(s: Seq<char>, k: int)
    requires
        0 <= k <= s.len(),
        all_digits(s),
    ensures
        digits_value(s.take(k)) <= digits_value(s),
    decreases s.len() - k,
{
    if k < s.len() {
        lemma_digits_value_prefix_le(s, k + 1);
        assert(s.take(k + 1).drop_last() =~= s.take(k));
        assert(is_digit(s[k]));
        assert(digits_value(s.take(k + 1)) == digits_value(s.take(k)) * 10 + digit_value(s[k]));
        assert(digits_value(s.take(k)) <= digits_value(s.take(k)) * 10 + digit_value(s[k])) by (nonlinear_arith)
            requires digit_value(s[k]) >= 0;
    } else {
        assert(s.take(k) =~= s);
    }
}

/// The decimal text of a number is all digits, does not start with `+`, and denotes it.
pub proof fn lemma_decimal_digits(n: nat)
    ensures
        decimal(n).len() > 0,
        all_digits(decimal(n)),
        digits_value(decimal(n)) == n,
        decimal(n)[0] != '+',
    decreases n,
{
    if n >= 10 {
        lemma_decimal_digits(n / 10);
        let s = decimal(n / 10);
        let t = s.push(digit_char((n % 10) as int));
        assert(t.drop_last() =~= s);
        assert(t.last() == digit_char((n % 10) as int));
        assert(digit_value(digit_char((n % 10) as int)) == n % 10);
        assert(digits_value(t) == digits_value(s) * 10 + n % 10);
        assert(n == (n / 10) * 10 + n % 10) by (nonlinear_arith);
        assert(digits_value(t) == n);
        assert(forall|i: int| 0 <= i < t.len() ==> #[trigger] t[i] == (if i < s.len() { s[i] } else { digit_char((n % 10) as int) }));
        assert(all_digits(t)) by {
            assert forall|i: int| 0 <= i < t.len() implies #[trigger] is_digit(t[i]) by {
                if i < s.len() {
                    assert(is_digit(s[i]));
                }
            }
        }
    } else {
        let t = decimal(n);
        assert(t.drop_last() =~= Seq::<char>::empty());
        assert(digit_value(digit_char(n as int)) == n);
        assert(t.last() == digit_char(n as int));
        assert(digits_value(t.drop_last()) == 0);
        assert(digits_value(t) == n);
    }
}

/// Law: parsing the decimal text of any number up to the largest value of the type gives
/// the number back; in particular `parse_u64(&u64_to_text(n)) == Some(n)` for every `n`.
pub proof fn law_decimal_parse_round_trip(n: nat, max: nat)
    requires
        n <= max,
    ensures
        parse_bounded_spec(decimal(n), max) == Some(n),
        parse_outcome(decimal(n), max) == Ok::<nat, IntParseError>(n),
{
    lemma_decimal_digits(n);
}

} // verus!
