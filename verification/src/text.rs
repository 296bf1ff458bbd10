//! Text rules shared by the request encoders: UTF-8 bytes, interior NUL
//! detection, byte-wise ordering and decimal rendering of integers.

use vstd::prelude::*;
use vstd::utf8::encode_utf8;
use vstd::utf8::encode_utf8_decode_utf8;

verus! {

/// The UTF-8 bytes of a text, as the C ABI receives them.
pub open spec fn utf8_bytes(text: Seq<char>) -> Seq<u8> {
    encode_utf8(text)
}

/// `i` is the index of the first zero byte of `bytes`.
pub open spec fn is_first_zero(bytes: Seq<u8>, i: int) -> bool {
    &&& 0 <= i < bytes.len()
    &&& bytes[i] == 0
    &&& forall|j: int| 0 <= j < i ==> bytes[j] != 0
}

/// Index of the first zero byte of `bytes`, or `None` when there is none.
pub open spec fn first_zero(bytes: Seq<u8>) -> Option<int> {
    if exists|i: int| 0 <= i < bytes.len() && bytes[i] == 0 {
        Some(choose|i: int| is_first_zero(bytes, i))
    } else {
        None
    }
}

/// Byte position of the first interior NUL of a text, as `CString::new` reports it.
pub open spec fn nul_position(text: Seq<char>) -> Option<int> {
    first_zero(utf8_bytes(text))
}

/// Lexicographic order of byte strings, the order of Rust's `str` and `String`.
pub open spec fn bytes_less(a: Seq<u8>, b: Seq<u8>) -> bool
    decreases a.len(),
{
    if a.len() == 0 {
        b.len() > 0
    } else if b.len() == 0 {
        false
    } else if a[0] < b[0] {
        true
    } else if a[0] > b[0] {
        false
    } else {
        bytes_less(a.drop_first(), b.drop_first())
    }
}

/// Order of texts by their UTF-8 bytes, the order of Rust's `String`.
pub open spec fn text_less(a: Seq<char>, b: Seq<char>) -> bool {
    bytes_less(utf8_bytes(a), utf8_bytes(b))
}

/// The decimal digit `d` as a character.
pub open spec fn digit_char(d: int) -> char {
    seq!['0', '1', '2', '3', '4', '5', '6', '7', '8', '9'][d]
}

/// Decimal text of a natural number, without sign or leading zeros.
pub open spec fn decimal(n: nat) -> Seq<char>
    decreases n,
{
    if n < 10 {
        seq![digit_char(n as int)]
    } else {
        decimal(n / 10).push(digit_char((n % 10) as int))
    }
}

/// Decimal text of an integer, with a leading `-` when it is negative.
pub open spec fn signed_decimal(n: int) -> Seq<char> {
    if n < 0 {
        seq!['-'] + decimal((-n) as nat)
    } else {
        decimal(n as nat)
    }
}

/// Text of a boolean as the runtime reads it.
pub open spec fn bool_text(b: bool) -> Seq<char> {
    if b {
        "true"@
    } else {
        "false"@
    }
}

/// Result of comparing two byte strings.
#[derive(Debug, Clone, Copy, PartialEq, Eq, Structural)]
pub enum Order {
    /// The first comes before the second.
    Less,
    /// Both are equal.
    Equal,
    /// The first comes after the second.
    Greater,
}

/// Texts are equal exactly when their UTF-8 bytes are.
pub proof fn lemma_utf8_injective(a: Seq<char>, b: Seq<char>)
    ensures
        (utf8_bytes(a) == utf8_bytes(b)) <==> (a == b),
{
    encode_utf8_decode_utf8(a);
    encode_utf8_decode_utf8(b);
}

/// No byte string comes before itself.
pub proof fn lemma_bytes_less_irreflexive(a: Seq<u8>)
    ensures
        !bytes_less(a, a),
    decreases a.len(),
{
    if a.len() > 0 {
        lemma_bytes_less_irreflexive(a.drop_first());
    }
}

/// Two byte strings are not each before the other.
pub proof fn lemma_bytes_less_asymmetric(a: Seq<u8>, b: Seq<u8>)
    ensures
        !(bytes_less(a, b) && bytes_less(b, a)),
    decreases a.len(),
{
    if a.len() > 0 && b.len() > 0 && a[0] == b[0] {
        lemma_bytes_less_asymmetric(a.drop_first(), b.drop_first());
    }
}

/// The byte order is transitive.
pub proof fn lemma_bytes_less_transitive(a: Seq<u8>, b: Seq<u8>, c: Seq<u8>)
    requires
        bytes_less(a, b),
        bytes_less(b, c),
    ensures
        bytes_less(a, c),
    decreases a.len(),
{
    if a.len() > 0 && b.len() > 0 && c.len() > 0 && a[0] == b[0] && b[0] == c[0] {
        lemma_bytes_less_transitive(a.drop_first(), b.drop_first(), c.drop_first());
    }
}

/// Comparing after an equal prefix is comparing the rest.
proof fn lemma_bytes_less_skip(a: Seq<u8>, b: Seq<u8>, i: int)
    requires
        0 <= i <= a.len(),
        i <= b.len(),
        a.take(i) == b.take(i),
    ensures
        bytes_less(a, b) == bytes_less(a.skip(i), b.skip(i)),
    decreases i,
{
    if i > 0 {
        assert(a[0] == a.take(i)[0]);
        assert(b[0] == b.take(i)[0]);
        assert(a.drop_first().take(i - 1) =~= a.take(i).drop_first());
        assert(b.drop_first().take(i - 1) =~= b.take(i).drop_first());
        lemma_bytes_less_skip(a.drop_first(), b.drop_first(), i - 1);
        assert(a.drop_first().skip(i - 1) =~= a.skip(i));
        assert(b.drop_first().skip(i - 1) =~= b.skip(i));
    } else {
        assert(a.skip(0) =~= a);
        assert(b.skip(0) =~= b);
    }
}

/// Compares two byte strings in lexicographic order.
pub fn compare_bytes(a: &[u8], b: &[u8]) -> (r: Order)
    ensures
        r == Order::Equal <==> a@ == b@,
        r == Order::Less <==> bytes_less(a@, b@),
        r == Order::Greater <==> bytes_less(b@, a@),
{
    proof {
        lemma_bytes_less_irreflexive(a@);
        lemma_bytes_less_asymmetric(a@, b@);
    }
    let mut i: usize = 0;
    while i < a.len() && i < b.len()
        invariant
            0 <= i <= a@.len(),
            i <= b@.len(),
            a@.take(i as int) == b@.take(i as int),
        decreases a@.len() - i,
    {
        if a[i] != b[i] {
            proof {
                lemma_bytes_less_skip(a@, b@, i as int);
                assert(a@.skip(i as int)[0] == a@[i as int]);
                assert(b@.skip(i as int)[0] == b@[i as int]);
                lemma_bytes_less_skip(b@, a@, i as int);
                assert(a@[i as int] != b@[i as int]);
                if a@ == b@ {
                    assert(a@[i as int] == b@[i as int]);
                }
            }
            if a[i] < b[i] {
                return Order::Less;
            } else {
                return Order::Greater;
            }
        }
        assert(a@.take(i + 1) =~= a@.take(i as int).push(a@[i as int]));
        assert(b@.take(i + 1) =~= b@.take(i as int).push(b@[i as int]));
        i = i + 1;
    }
    proof {
        lemma_bytes_less_skip(a@, b@, i as int);
        lemma_bytes_less_skip(b@, a@, i as int);
    }
    if a.len() == b.len() {
        assert(a@ =~= a@.take(i as int));
        assert(b@ =~= b@.take(i as int));
        Order::Equal
    } else if a.len() < b.len() {
        assert(a@.skip(i as int).len() == 0);
        assert(a@ != b@);
        Order::Less
    } else {
        assert(b@.skip(i as int).len() == 0);
        assert(a@ != b@);
        Order::Greater
    }
}

/// Compares two texts in the order of Rust's `String`.
pub fn compare_text(a: &str, b: &str) -> (r: Order)
    ensures
        r == Order::Equal <==> a@ == b@,
        r == Order::Less <==> text_less(a@, b@),
        r == Order::Greater <==> text_less(b@, a@),
{
    proof {
        lemma_utf8_injective(a@, b@);
    }
    compare_bytes(a.as_bytes(), b.as_bytes())
}

/// Whether two texts are equal.
pub fn same_text(a: &str, b: &str) -> (r: bool)
    ensures
        r == (a@ == b@),
{
    match compare_text(a, b) {
        Order::Equal => true,
        _ => false,
    }
}

/// Byte position of the first interior NUL of `text`, or `None`.
pub fn find_nul(text: &str) -> (r: Option<usize>)
    ensures
        r matches Some(p) ==> nul_position(text@) == Some(p as int),
        r is None ==> nul_position(text@) is None,
{
    let bytes = text.as_bytes();
    let mut i: usize = 0;
    while i < bytes.len()
        invariant
            0 <= i <= bytes@.len(),
            bytes@ == utf8_bytes(text@),
            forall|j: int| 0 <= j < i ==> bytes@[j] != 0,
        decreases bytes@.len() - i,
    {
        if bytes[i] == 0 {
            proof {
                let b = bytes@;
                assert(is_first_zero(b, i as int));
                let c = choose|k: int| is_first_zero(b, k);
                assert(is_first_zero(b, c));
                if c < i {
                    assert(b[c] != 0);
                } else if c > i {
                    assert(b[i as int] != 0);
                }
            }
            return Some(i);
        }
        i = i + 1;
    }
    None
}

/// `String::push`: appends one character.
#[verifier::external_body]
fn push_char(s: &mut String, c: char)
    ensures
        final(s)@ == old(s)@.push(c),
{
    s.push(c);
}

/// The character of a decimal digit.
fn digit(d: u64) -> (c: char)
    requires
        d < 10,
    ensures
        c == digit_char(d as int),
{
    if d == 0 {
        '0'
    } else if d == 1 {
        '1'
    } else if d == 2 {
        '2'
    } else if d == 3 {
        '3'
    } else if d == 4 {
        '4'
    } else if d == 5 {
        '5'
    } else if d == 6 {
        '6'
    } else if d == 7 {
        '7'
    } else if d == 8 {
        '8'
    } else {
        '9'
    }
}

/// Appends the decimal text of `n`.
fn write_decimal(s: &mut String, n: u64)
    ensures
        final(s)@ == old(s)@ + decimal(n as nat),
    decreases n,
{
    if n >= 10 {
        write_decimal(s, n / 10);
    }
    let c = digit(n % 10);
    push_char(s, c);
    assert(s@ =~= old(s)@ + decimal(n as nat));
}

/// Decimal text of an unsigned integer, as `u32::to_string` writes it.
pub fn u32_text(n: u32) -> (s: String)
    ensures
        s@ == decimal(n as nat),
{
    let mut s = String::new();
    write_decimal(&mut s, n as u64);
    assert(s@ =~= decimal(n as nat));
    s
}

/// Decimal text of a signed integer, as `i32::to_string` writes it.
pub fn i32_text(n: i32) -> (s: String)
    ensures
        s@ == signed_decimal(n as int),
{
    let mut s = String::new();
    if n < 0 {
        push_char(&mut s, '-');
        let m: i64 = -(n as i64);
        write_decimal(&mut s, m as u64);
    } else {
        write_decimal(&mut s, n as u64);
    }
    assert(s@ =~= signed_decimal(n as int));
    s
}

/// Text of a boolean: `true` or `false`.
pub fn bool_to_text(b: bool) -> (s: String)
    ensures
        s@ == bool_text(b),
{
    if b {
        String::from_str("true")
    } else {
        String::from_str("false")
    }
}

/// Owned copy of a text.
pub fn owned(text: &str) -> (s: String)
    ensures
        s@ == text@,
{
    String::from_str(text)
}

/// Concatenation of two texts.
pub fn concat(a: &str, b: &str) -> (s: String)
    ensures
        s@ == a@ + b@,
{
    let mut s = String::from_str(a);
    s.append(b);
    s
}


/// The number a decimal digit character stands for.
pub open spec fn digit_value(c: char) -> int {
    (c as int) - ('0' as int)
}

/// The number a string of decimal digits stands for.
pub open spec fn decimal_value(s: Seq<char>) -> int
    decreases s.len(),
{
    if s.len() == 0 {
        0
    } else {
        decimal_value(s.drop_last()) * 10 + digit_value(s.last())
    }
}

/// Each decimal digit character stands for its digit.
proof fn lemma_digit_char(d: int)
    requires
        0 <= d < 10,
    ensures
        '0' <= digit_char(d) <= '9',
        digit_value(digit_char(d)) == d,
        digit_char(d) == '0' ==> d == 0,
{
    let t = seq!['0', '1', '2', '3', '4', '5', '6', '7', '8', '9'];
    assert(digit_char(d) == t[d]);
    if d == 0 {} else if d == 1 {} else if d == 2 {} else if d == 3 {} else if d == 4 {}
    else if d == 5 {} else if d == 6 {} else if d == 7 {} else if d == 8 {} else {}
}

/// The decimal text of `n` is a non-empty string of the digits `0`..`9`,
/// without a leading zero unless it is `0` itself, and read back as a
/// number it is `n`.
pub proof fn law_decimal_reads_back(n: nat)
    ensures
        decimal(n).len() > 0,
        forall|i: int| 0 <= i < decimal(n).len() ==> '0' <= #[trigger] decimal(n)[i] <= '9',
        decimal(n)[0] == '0' ==> n == 0,
        decimal_value(decimal(n)) == n,
    decreases n,
{
    if n < 10 {
        lemma_digit_char(n as int);
        assert(decimal(n) == seq![digit_char(n as int)]);
        assert(decimal(n).drop_last() =~= Seq::<char>::empty());
        assert(decimal(n).last() == digit_char(n as int));
        assert(decimal_value(decimal(n).drop_last()) == 0);
        assert(decimal_value(decimal(n)) == decimal_value(decimal(n).drop_last()) * 10 + digit_value(decimal(n).last()));
    } else {
        let m = n / 10;
        law_decimal_reads_back(m);
        let d = (n % 10) as int;
        lemma_digit_char(d);
        assert(decimal(n) == decimal(m).push(digit_char(d)));
        assert(decimal(n).drop_last() =~= decimal(m));
        assert(decimal(n)[0] == decimal(m)[0]);
        assert(m * 10 + d == n);
        assert(decimal(n).last() == digit_char(d));
        assert(decimal_value(decimal(n)) == decimal_value(decimal(n).drop_last()) * 10 + digit_value(decimal(n).last()));
        assert forall|i: int| 0 <= i < decimal(n).len() implies '0' <= #[trigger] decimal(n)[i] <= '9' by {
            if i < decimal(m).len() {
                assert(decimal(n)[i] == decimal(m)[i]);
            }
        }
    }
}

/// The decimal text of a negative number is a minus sign followed by the
/// decimal text of its magnitude; that of any other number has no sign.
pub proof fn law_signed_decimal(n: int)
    ensures
        n < 0 ==> signed_decimal(n)[0] == '-' && signed_decimal(n).drop_first() == decimal((-n) as nat),
        n >= 0 ==> signed_decimal(n) == decimal(n as nat),
{
    if n < 0 {
        assert((seq!['-'] + decimal((-n) as nat)).drop_first() =~= decimal((-n) as nat));
    }
}

/// The texts of the two booleans.
pub proof fn law_bool_text()
    ensures
        bool_text(true) == "true"@,
        bool_text(false) == "false"@,
{
}


/// Byte strings are ordered at their first difference: past a common prefix
/// of length `i`, `a` comes first exactly when it ends there while `b` goes
/// on, or its next byte is the smaller one.
pub proof fn law_bytes_less_first_difference(a: Seq<u8>, b: Seq<u8>, i: int)
    requires
        0 <= i <= a.len(),
        i <= b.len(),
        a.take(i) == b.take(i),
        i == a.len() || i == b.len() || a[i] != b[i],
    ensures
        bytes_less(a, b) <==> (i == a.len() && i < b.len()) || (i < a.len() && i < b.len() && a[i] < b[i]),
{
    lemma_bytes_less_skip(a, b, i);
    if i < a.len() {
        assert(a.skip(i)[0] == a[i]);
    }
    if i < b.len() {
        assert(b.skip(i)[0] == b[i]);
    }
}

} // verus!
