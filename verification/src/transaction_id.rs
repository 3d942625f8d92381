//! Transaction identifiers: universally unique identifiers, held as their 128-bit
//! value.

use vstd::prelude::*;

verus! {

/// A hexadecimal digit of either case.
pub open spec fn is_hex_digit(c: char) -> bool {
    '0' <= c <= '9' || 'a' <= c <= 'f' || 'A' <= c <= 'F'
}

/// The value of a hexadecimal digit.
pub open spec fn hex_digit_value(c: char) -> nat {
    if '0' <= c <= '9' {
        (c as nat - '0' as nat) as nat
    } else if 'a' <= c <= 'f' {
        (c as nat - 'a' as nat + 10) as nat
    } else {
        (c as nat - 'A' as nat + 10) as nat
    }
}

/// The number that a sequence of hexadecimal digits writes.
pub open spec fn hex_value(s: Seq<char>) -> nat
    decreases s.len(),
{
    if s.len() == 0 {
        0
    } else {
        16 * hex_value(s.drop_last()) + hex_digit_value(s.last())
    }
}

/// The lower-case hexadecimal digit with the value `d`.
pub open spec fn hex_char(d: nat) -> char {
    if d < 10 {
        ('0' as nat + d) as char
    } else {
        ('a' as nat + (d - 10)) as char
    }
}

/// The last `n` hexadecimal digits of `v`, in lower case.
pub open spec fn hex_text(v: nat, n: nat) -> Seq<char>
    decreases n,
{
    if n == 0 {
        Seq::empty()
    } else {
        hex_text(v / 16, (n - 1) as nat).push(hex_char(v % 16))
    }
}

/// The 32 places of digits in the hyphenated form, where `s` has that form's
/// length and hyphens.
pub open spec fn hyphenated_digits(s: Seq<char>) -> Option<Seq<char>> {
    if s.len() == 36 && s[8] == '-' && s[13] == '-' && s[18] == '-' && s[23] == '-' {
        Some(
            s.subrange(0, 8) + s.subrange(9, 13) + s.subrange(14, 18) + s.subrange(19, 23)
                + s.subrange(24, 36),
        )
    } else {
        None
    }
}

/// Whether `s` begins with `urn:uuid:`, in either case.
pub open spec fn has_urn_prefix(s: Seq<char>) -> bool {
    &&& s.len() >= 9
    &&& s[0] == 'u' || s[0] == 'U'
    &&& s[1] == 'r' || s[1] == 'R'
    &&& s[2] == 'n' || s[2] == 'N'
    &&& s[3] == ':'
    &&& s[4] == 'u' || s[4] == 'U'
    &&& s[5] == 'u' || s[5] == 'U'
    &&& s[6] == 'i' || s[6] == 'I'
    &&& s[7] == 'd' || s[7] == 'D'
    &&& s[8] == ':'
}

/// The 32 places of digits in a text that has the shape of an identifier: 32
/// characters, or the hyphenated form, alone, in braces or after `urn:uuid:`.
pub open spec fn uuid_digits(s: Seq<char>) -> Option<Seq<char>> {
    if s.len() == 32 {
        Some(s)
    } else if s.len() == 36 {
        hyphenated_digits(s)
    } else if s.len() == 38 && s[0] == '{' && s[37] == '}' {
        hyphenated_digits(s.subrange(1, 37))
    } else if s.len() == 45 && has_urn_prefix(s) {
        hyphenated_digits(s.subrange(9, 45))
    } else {
        None
    }
}

/// The identifier that a text writes, where it writes one.
pub open spec fn uuid_of_text(s: Seq<char>) -> Option<u128> {
    match uuid_digits(s) {
        Some(digits) => if forall|i: int| 0 <= i < digits.len() ==> is_hex_digit(#[trigger] digits[i]) {
            Some(hex_value(digits) as u128)
        } else {
            None
        },
        None => None,
    }
}

/// The hyphenated form of an identifier: 32 lower-case hexadecimal digits, in
/// groups of 8, 4, 4, 4 and 12.
pub open spec fn uuid_text(v: u128) -> Seq<char> {
    let digits = hex_text(v as nat, 32);
    digits.subrange(0, 8) + seq!['-'] + digits.subrange(8, 12) + seq!['-'] + digits.subrange(12, 16)
        + seq!['-'] + digits.subrange(16, 20) + seq!['-'] + digits.subrange(20, 32)
}

/// Whether the value has the version and variant of a random identifier.
pub open spec fn is_random_uuid(v: u128) -> bool {
    &&& (v as int / 0x1000_0000_0000_0000_0000) % 16 == 4
    &&& (v as int / 0x4000_0000_0000_0000) % 4 == 2
}

/// What `uuid::Uuid::parse_str` says of a text that writes no identifier.
pub uninterp spec fn uuid_error_text(s: Seq<char>) -> Seq<char>;

/// `uuid::Uuid::parse_str`, with the identifier taken as its 128-bit value: the
/// plain, hyphenated, braced and URN forms are read, in either case; every other
/// text is refused, and the text of that refusal is only named.
#[verifier::external_body]
pub(crate) fn parse_uuid(s: &str) -> (r: Result<u128, String>)
    ensures
        match r {
            Ok(v) => uuid_of_text(s@) == Some(v),
            Err(e) => uuid_of_text(s@) is None && e@ == uuid_error_text(s@),
        },
{
    match uuid::Uuid::parse_str(s) {
        Ok(id) => Ok(id.as_u128()),
        Err(e) => Err(e.to_string()),
    }
}

/// `uuid::Uuid::new_v4`, with the identifier taken as its 128-bit value: some
/// value with the version and variant of a random identifier. The other bits come
/// from the operating system; where that gives none, the call does not return.
#[verifier::external_body]
fn random_uuid() -> (r: u128)
    ensures
        is_random_uuid(r),
{
    uuid::Uuid::new_v4().as_u128()
}

/// The text that `uuid::Uuid` displays as: the lower-case hyphenated form.
#[verifier::external_body]
fn format_uuid(v: u128) -> (r: String)
    ensures
        r@ == uuid_text(v),
{
    uuid::Uuid::from_u128(v).to_string()
}

/// The identifier of a transaction.
#[derive(Debug, Clone, Copy, PartialEq, Eq, Structural)]
pub struct TransactionId(u128);

impl View for TransactionId {
    type V = u128;

    closed spec fn view(&self) -> u128 {
        self.0
    }
}

impl Default for TransactionId {
    /// The nil identifier.
    fn default() -> (r: TransactionId)
        ensures
            r@ == 0,
    {
        TransactionId(0)
    }
}

impl TransactionId {
    /// A random identifier.
    pub fn new() -> (r: TransactionId)
        ensures
            is_random_uuid(r@),
    {
        TransactionId(random_uuid())
    }

    /// The identifier with the 128-bit value.
    pub fn from_uuid(uuid: u128) -> (r: TransactionId)
        ensures
            r@ == uuid,
    {
        TransactionId(uuid)
    }

    /// The 128-bit value of the identifier.
    pub fn as_uuid(&self) -> (r: u128)
        ensures
            r == self@,
    {
        self.0
    }

    /// The hyphenated form of the identifier.
    pub fn to_string(&self) -> (r: String)
        ensures
            r@ == uuid_text(self@),
    {
        format_uuid(self.0)
    }
}

/// Two identifiers are the same exactly where their 128-bit values are.
pub proof fn law_identifiers_are_told_apart(a: TransactionId, b: TransactionId)
    ensures
        a@ == b@ <==> a == b,
{
}

/// Reading the text of an identifier gives the identifier back.
pub proof fn law_uuid_text_reads_back(v: u128)
    ensures
        uuid_of_text(uuid_text(v)) == Some(v),
{
    let digits = hex_text(v as nat, 32);
    lemma_hex_text(v as nat, 32);
    let s = uuid_text(v);
    assert(s.len() == 36);
    assert(hyphenated_digits(s) == Some(digits)) by {
        assert(s.subrange(0, 8) + s.subrange(9, 13) + s.subrange(14, 18) + s.subrange(19, 23)
            + s.subrange(24, 36) =~= digits);
    }
    assert(pow16(32) == 0x1_0000_0000_0000_0000_0000_0000_0000_0000) by {
        reveal_with_fuel(pow16, 33);
    }
}

/// Sixteen to the power of `n`.
spec fn pow16(n: nat) -> nat
    decreases n,
{
    if n == 0 {
        1
    } else {
        16 * pow16((n - 1) as nat)
    }
}

proof fn lemma_hex_text(v: nat, n: nat)
    ensures
        hex_text(v, n).len() == n,
        forall|i: int| 0 <= i < n ==> is_hex_digit(#[trigger] hex_text(v, n)[i]),
        v < pow16(n) ==> hex_value(hex_text(v, n)) == v,
    decreases n,
{
    if n > 0 {
        let rest = hex_text(v / 16, (n - 1) as nat);
        lemma_hex_text(v / 16, (n - 1) as nat);
        assert(hex_text(v, n).drop_last() =~= rest);
        let c = hex_char(v % 16);
        assert(is_hex_digit(c) && hex_digit_value(c) == v % 16);
    }
}

/// The text of an identifier is of 36 characters: hyphens after the eighth, twelfth,
/// sixteenth and twentieth digit, and lower-case hexadecimal digits everywhere else.
pub proof fn law_uuid_text_has_its_form(v: u128, i: int)
    requires
        0 <= i < 36,
    ensures
        uuid_text(v).len() == 36,
        i == 8 || i == 13 || i == 18 || i == 23 <==> uuid_text(v)[i] == '-',
        !(i == 8 || i == 13 || i == 18 || i == 23) ==> '0' <= uuid_text(v)[i] <= '9' || 'a'
            <= uuid_text(v)[i] <= 'f',
{
    lemma_hex_text(v as nat, 32);
    lemma_lower_case(v as nat, 32);
    let digits = hex_text(v as nat, 32);
    let s = uuid_text(v);
    if i < 8 {
        assert(s[i] == digits[i]);
    } else if 8 < i < 13 {
        assert(s[i] == digits[i - 1]);
    } else if 13 < i < 18 {
        assert(s[i] == digits[i - 2]);
    } else if 18 < i < 23 {
        assert(s[i] == digits[i - 3]);
    } else if 23 < i {
        assert(s[i] == digits[i - 4]);
    }
}

proof fn lemma_lower_case(v: nat, n: nat)
    ensures
        hex_text(v, n).len() == n,
        forall|i: int|
            0 <= i < n ==> '0' <= #[trigger] hex_text(v, n)[i] <= '9' || 'a' <= hex_text(v, n)[i]
                <= 'f',
    decreases n,
{
    if n > 0 {
        lemma_lower_case(v / 16, (n - 1) as nat);
        let c = hex_char(v % 16);
        assert('0' <= c <= '9' || 'a' <= c <= 'f');
    }
}

/// An identifier reads the same in its hyphenated form alone, in braces and after
/// `urn:uuid:`, and every 128-bit value reads back from its 32 digits alone.
pub proof fn law_uuid_forms(s: Seq<char>, v: u128)
    requires
        s.len() == 36,
    ensures
        uuid_of_text(seq!['{'] + s + seq!['}']) == uuid_of_text(s),
        uuid_of_text(seq!['u', 'r', 'n', ':', 'u', 'u', 'i', 'd', ':'] + s) == uuid_of_text(s),
        uuid_of_text(seq!['U', 'R', 'N', ':', 'U', 'U', 'I', 'D', ':'] + s) == uuid_of_text(s),
        uuid_of_text(hex_text(v as nat, 32)) == Some(v),
{
    assert((seq!['{'] + s + seq!['}']).subrange(1, 37) =~= s);
    assert((seq!['u', 'r', 'n', ':', 'u', 'u', 'i', 'd', ':'] + s).subrange(9, 45) =~= s);
    assert((seq!['U', 'R', 'N', ':', 'U', 'U', 'I', 'D', ':'] + s).subrange(9, 45) =~= s);
    lemma_hex_text(v as nat, 32);
    assert(pow16(32) == 0x1_0000_0000_0000_0000_0000_0000_0000_0000) by {
        reveal_with_fuel(pow16, 33);
    }
}

} // verus!
