//! Text as the rest of the library reads and writes it: trimming, decimal
//! numbers and concatenation, each stated over sequences of characters.

use vstd::prelude::*;

verus! {

/// The characters with the Unicode property `White_Space`.
pub open spec fn is_white_space(c: char) -> bool {
    let n = c as int;
    ||| 0x9 <= n <= 0xd
    ||| n == 0x20
    ||| n == 0x85
    ||| n == 0xa0
    ||| n == 0x1680
    ||| 0x2000 <= n <= 0x200a
    ||| n == 0x2028
    ||| n == 0x2029
    ||| n == 0x202f
    ||| n == 0x205f
    ||| n == 0x3000
}

/// `s` without its leading white space.
pub open spec fn trimmed_start(s: Seq<char>) -> Seq<char>
    decreases s.len(),
{
    if s.len() > 0 && is_white_space(s.first()) {
        trimmed_start(s.drop_first())
    } else {
        s
    }
}

/// `s` without its trailing white space.
pub open spec fn trimmed_end(s: Seq<char>) -> Seq<char>
    decreases s.len(),
{
    if s.len() > 0 && is_white_space(s.last()) {
        trimmed_end(s.drop_last())
    } else {
        s
    }
}

/// `s` without its leading and trailing white space.
pub open spec fn trimmed(s: Seq<char>) -> Seq<char> {
    trimmed_end(trimmed_start(s))
}

/// One of the ten characters `0` to `9`.
pub open spec fn is_digit(c: char) -> bool {
    '0' <= c <= '9'
}

/// Nothing but the characters `0` to `9`.
pub open spec fn all_digits(s: Seq<char>) -> bool {
    forall|i: int| 0 <= i < s.len() ==> is_digit(#[trigger] s[i])
}

/// The number that a sequence of digits writes in base ten.
pub open spec fn decimal_value(s: Seq<char>) -> nat
    decreases s.len(),
{
    if s.len() == 0 {
        0
    } else {
        10 * decimal_value(s.drop_last()) + (s.last() as nat - '0' as nat) as nat
    }
}

/// The character that writes the digit `d`.
pub open spec fn digit_char(d: nat) -> char {
    ('0' as nat + d) as char
}

/// A natural number in base ten, without leading zeros.
pub open spec fn decimal_text(n: nat) -> Seq<char>
    decreases n,
{
    if n < 10 {
        seq![digit_char(n)]
    } else {
        decimal_text(n / 10).push(digit_char(n % 10))
    }
}

/// An integer in base ten, with a minus sign where it is negative.
pub open spec fn integer_text(n: int) -> Seq<char> {
    if n < 0 {
        seq!['-'] + decimal_text((-n) as nat)
    } else {
        decimal_text(n as nat)
    }
}

/// The number that `s` writes as an unsigned 64-bit integer: one or more digits
/// after an optional plus sign, with a value that fits.
pub open spec fn unsigned_of_text(s: Seq<char>) -> Option<u64> {
    let digits = if s.len() > 0 && s[0] == '+' {
        s.drop_first()
    } else {
        s
    };
    if digits.len() > 0 && all_digits(digits) && decimal_value(digits) <= u64::MAX {
        Some(decimal_value(digits) as u64)
    } else {
        None
    }
}

/// What the standard library says of a text that is no unsigned 64-bit integer:
/// the text of the error of `str::parse::<u64>`.
pub uninterp spec fn unsigned_error_text(s: Seq<char>) -> Seq<char>;

/// `str::trim` of the standard library: the text without its leading and
/// trailing characters of the Unicode property `White_Space`.
pub assume_specification[ str::trim ](s: &str) -> (r: &str)
    ensures
        r@ == trimmed(s@),
;

/// `str::parse::<u64>` of the standard library: one or more digits after an
/// optional plus sign give their value where it fits; every other text is
/// refused, and the text of that refusal is only named.
#[verifier::external_body]
pub(crate) fn parse_unsigned(s: &str) -> (r: Result<u64, String>)
    ensures
        match r {
            Ok(n) => unsigned_of_text(s@) == Some(n),
            Err(e) => unsigned_of_text(s@) is None && e@ == unsigned_error_text(s@),
        },
{
    s.parse::<u64>().map_err(|e| e.to_string())
}

/// What the standard library writes for a text in its debug form: the text in
/// double quotes, with what is not plain escaped.
pub uninterp spec fn quoted(s: Seq<char>) -> Seq<char>;

/// The debug form of a `str` of the standard library, which is only named.
#[verifier::external_body]
pub(crate) fn quote(s: &str) -> (r: String)
    ensures
        r@ == quoted(s@),
{
    format!("{:?}", s)
}

/// Whether two texts are the same.
pub fn same_text(a: &str, b: &str) -> (r: bool)
    ensures
        r == (a@ == b@),
{
    a.to_owned() == b.to_owned()
}

/// One text after another.
pub fn joined(a: &str, b: &str) -> (r: String)
    ensures
        r@ == a@ + b@,
{
    let mut r = a.to_owned();
    r.append(b);
    r
}

/// The text of a single digit.
fn digit_text(d: u64) -> (r: &'static str)
    requires
        d < 10,
    ensures
        r@ == seq![digit_char(d as nat)],
{
    proof {
        reveal_strlit("0");
        reveal_strlit("1");
        reveal_strlit("2");
        reveal_strlit("3");
        reveal_strlit("4");
        reveal_strlit("5");
        reveal_strlit("6");
        reveal_strlit("7");
        reveal_strlit("8");
        reveal_strlit("9");
    }
    match d {
        0 => "0",
        1 => "1",
        2 => "2",
        3 => "3",
        4 => "4",
        5 => "5",
        6 => "6",
        7 => "7",
        8 => "8",
        _ => "9",
    }
}

/// A natural number in base ten.
pub fn natural_to_string(n: u64) -> (r: String)
    ensures
        r@ == decimal_text(n as nat),
    decreases n,
{
    if n < 10 {
        digit_text(n).to_owned()
    } else {
        let r = joined(natural_to_string(n / 10).as_str(), digit_text(n % 10));
        assert(r@ =~= decimal_text(n as nat));
        r
    }
}

/// An integer in base ten.
pub fn integer_to_string(n: i64) -> (r: String)
    ensures
        r@ == integer_text(n as int),
{
    if n < 0 {
        proof {
            reveal_strlit("-");
        }
        let magnitude: u64 = (-(n as i128)) as u64;
        let r = joined("-", natural_to_string(magnitude).as_str());
        assert(r@ =~= integer_text(n as int));
        r
    } else {
        natural_to_string(n as u64)
    }
}

/// Whether the text holds nothing but digits.
pub fn is_all_digits(s: &str) -> (r: bool)
    ensures
        r == all_digits(s@),
{
    let n: usize = s.unicode_len();
    let mut i: usize = 0;
    while i < n
        invariant
            i <= n,
            n == s@.len(),
            forall|j: int| 0 <= j < i ==> is_digit(#[trigger] s@[j]),
        decreases n - i,
    {
        let c: char = s.get_char(i);
        if c < '0' || c > '9' {
            assert(!is_digit(s@[i as int]));
            return false;
        }
        i += 1;
    }
    true
}

/// A natural number is written in digits, without leading zeros, and its text writes
/// that number.
pub proof fn law_decimal_text_reads_back(n: nat)
    ensures
        decimal_text(n).len() > 0,
        all_digits(decimal_text(n)),
        n > 0 ==> decimal_text(n)[0] != '0',
        decimal_value(decimal_text(n)) == n,
    decreases n,
{
    if n < 10 {
        assert(decimal_text(n).drop_last() =~= Seq::<char>::empty());
        assert(decimal_value(Seq::<char>::empty()) == 0);
    } else {
        let rest = decimal_text(n / 10);
        law_decimal_text_reads_back(n / 10);
        assert(decimal_text(n).drop_last() =~= rest);
        assert(decimal_text(n)[0] == rest[0]);
    }
}

/// A text that neither begins nor ends with white space is its own trimming.
pub proof fn lemma_trimmed_fixed(s: Seq<char>)
    requires
        s.len() > 0 ==> !is_white_space(s.first()) && !is_white_space(s.last()),
    ensures
        trimmed(s) == s,
{
}

/// Trimming twice is trimming once.
pub proof fn lemma_trimmed_idempotent(s: Seq<char>)
    ensures
        trimmed(trimmed(s)) == trimmed(s),
{
    lemma_trimmed_start(s);
    lemma_trimmed_end(trimmed_start(s));
    lemma_trimmed_fixed(trimmed(s));
}

proof fn lemma_trimmed_start(s: Seq<char>)
    ensures
        trimmed_start(s).len() > 0 ==> !is_white_space(trimmed_start(s).first()),
    decreases s.len(),
{
    if s.len() > 0 && is_white_space(s.first()) {
        lemma_trimmed_start(s.drop_first());
    }
}

proof fn lemma_trimmed_end(s: Seq<char>)
    ensures
        trimmed_end(s).len() > 0 ==> {
            &&& !is_white_space(trimmed_end(s).last())
            &&& trimmed_end(s).first() == s.first()
        },
    decreases s.len(),
{
    if s.len() > 0 && is_white_space(s.last()) {
        lemma_trimmed_end(s.drop_last());
    }
}

/// The text of an integer is its digits, after a minus sign exactly where it is
/// negative, and so writes that integer and no other.
pub proof fn law_integer_text(n: int, m: int)
    ensures
        n >= 0 ==> all_digits(integer_text(n)) && decimal_value(integer_text(n)) == n,
        n < 0 ==> integer_text(n).len() > 1 && integer_text(n)[0] == '-' && all_digits(
            integer_text(n).drop_first(),
        ) && decimal_value(integer_text(n).drop_first()) == -n,
        integer_text(n) == integer_text(m) ==> n == m,
{
    lemma_integer_text(n);
    lemma_integer_text(m);
    if n < 0 && m >= 0 {
        law_decimal_text_reads_back(m as nat);
        assert(integer_text(m)[0] != '-') by {
            assert(is_digit(integer_text(m)[0]));
        }
    }
    if m < 0 && n >= 0 {
        law_decimal_text_reads_back(n as nat);
        assert(integer_text(n)[0] != '-') by {
            assert(is_digit(integer_text(n)[0]));
        }
    }
}

proof fn lemma_integer_text(n: int)
    ensures
        n >= 0 ==> all_digits(integer_text(n)) && decimal_value(integer_text(n)) == n,
        n < 0 ==> integer_text(n).len() > 1 && integer_text(n)[0] == '-' && all_digits(
            integer_text(n).drop_first(),
        ) && decimal_value(integer_text(n).drop_first()) == -n,
{
    if n >= 0 {
        law_decimal_text_reads_back(n as nat);
    } else {
        law_decimal_text_reads_back((-n) as nat);
        assert(integer_text(n).drop_first() =~= decimal_text((-n) as nat));
    }
}

/// Digits are read as the number that they write, with or without a plus sign before
/// them, as long as it fits; whatever else a text holds, it is not read.
pub proof fn law_unsigned_texts(s: Seq<char>, digits: Seq<char>)
    requires
        digits.len() > 0,
        all_digits(digits),
    ensures
        s == digits || s == seq!['+'] + digits ==> unsigned_of_text(s) == (if decimal_value(digits)
            <= 0xffff_ffff_ffff_ffff {
            Some(decimal_value(digits) as u64)
        } else {
            None
        }),
        s.len() == 0 ==> unsigned_of_text(s) is None,
        (exists|i: int| 1 <= i < s.len() && !('0' <= #[trigger] s[i] <= '9'))
            ==> unsigned_of_text(s) is None,
        s.len() > 0 && s[0] != '+' && !('0' <= s[0] <= '9') ==> unsigned_of_text(s) is None,
{
    assert(is_digit(digits[0]));
    assert((seq!['+'] + digits).drop_first() =~= digits);
    if exists|i: int| 1 <= i < s.len() && !('0' <= #[trigger] s[i] <= '9') {
        let i = choose|i: int| 1 <= i < s.len() && !('0' <= #[trigger] s[i] <= '9');
        assert(s.drop_first()[i - 1] == s[i]);
        assert(!is_digit(s[i]));
    }
    if s.len() > 0 && s[0] != '+' && !('0' <= s[0] <= '9') {
        assert(!is_digit(s[0]));
    }
}

/// White space before and after a text goes when the text is trimmed, and nothing
/// else does.
pub proof fn law_trimming_takes_white_space_alone(before: Seq<char>, s: Seq<char>, after: Seq<char>)
    requires
        forall|i: int| 0 <= i < before.len() ==> is_white_space(#[trigger] before[i]),
        forall|i: int| 0 <= i < after.len() ==> is_white_space(#[trigger] after[i]),
        s.len() > 0,
        !is_white_space(s.first()),
        !is_white_space(s.last()),
    ensures
        trimmed(before + s + after) == s,
    decreases before.len() + after.len(),
{
    if before.len() > 0 {
        let whole = before + s + after;
        assert(whole.first() == before[0]);
        assert(whole.drop_first() =~= before.drop_first() + s + after);
        law_trimming_takes_white_space_alone(before.drop_first(), s, after);
    } else if after.len() > 0 {
        let whole = before + s + after;
        assert(whole.first() == s.first());
        assert(whole.last() == after.last());
        assert(whole.drop_last() =~= before + s + after.drop_last());
        assert((before + s + after.drop_last()).first() == s.first());
        law_trimming_takes_white_space_alone(before, s, after.drop_last());
    } else {
        assert(before + s + after =~= s);
    }
}

} // verus!
