//! Text rules: tokens, human-readable names, trimming and decimal numbers.

use vstd::prelude::*;
use vstd::string::*;
use vstd::utf8::encode_utf8;

verus! {

/// A character that may stand in an opaque token: an ASCII letter or digit, `-`, `_`, `.` or `:`.
pub open spec fn token_char(c: char) -> bool {
    ||| 'a' <= c <= 'z'
    ||| 'A' <= c <= 'Z'
    ||| '0' <= c <= '9'
    ||| c == '-'
    ||| c == '_'
    ||| c == '.'
    ||| c == ':'
}

/// A non-empty run of at most `max` token characters.
pub open spec fn is_token(s: Seq<char>, max: nat) -> bool {
    &&& 0 < s.len() <= max
    &&& forall|i: int| 0 <= i < s.len() ==> token_char(#[trigger] s[i])
}

/// A code point with the Unicode `White_Space` property.
pub open spec fn white_space(c: char) -> bool {
    ||| '\u{9}' <= c <= '\u{d}'
    ||| c == '\u{20}'
    ||| c == '\u{85}'
    ||| c == '\u{a0}'
    ||| c == '\u{1680}'
    ||| '\u{2000}' <= c <= '\u{200a}'
    ||| c == '\u{2028}'
    ||| c == '\u{2029}'
    ||| c == '\u{202f}'
    ||| c == '\u{205f}'
    ||| c == '\u{3000}'
}

/// A code point of the Unicode general category `Cc`.
pub open spec fn control(c: char) -> bool {
    c <= '\u{1f}' || '\u{7f}' <= c <= '\u{9f}'
}

/// `s` without the white space at either end.
pub open spec fn trimmed(s: Seq<char>) -> Seq<char>
    decreases s.len(),
{
    if s.len() > 0 && white_space(s[0]) {
        trimmed(s.subrange(1, s.len() as int))
    } else if s.len() > 0 && white_space(s.last()) {
        trimmed(s.drop_last())
    } else {
        s
    }
}

/// Something a person can read: not blank, at most `max` bytes of UTF-8, no control character.
pub open spec fn is_human_name(s: Seq<char>, max: nat) -> bool {
    &&& trimmed(s).len() > 0
    &&& encode_utf8(s).len() <= max
    &&& forall|i: int| 0 <= i < s.len() ==> !control(#[trigger] s[i])
}

/// The ASCII digit for `d`.
pub open spec fn digit(d: nat) -> char {
    if d == 0 {
        '0'
    } else if d == 1 {
        '1'
    } else if d == 2 {
        '2'
    } else if d == 3 {
        '3'
    } else if d == 4 {
        '4'
    } else if d == 5 {
        '5'
    } else if d == 6 {
        '6'
    } else if d == 7 {
        '7'
    } else if d == 8 {
        '8'
    } else {
        '9'
    }
}

/// The shortest decimal notation of `n`.
pub open spec fn decimal(n: nat) -> Seq<char>
    decreases n,
{
    if n < 10 {
        seq![digit(n)]
    } else {
        decimal(n / 10).push(digit(n % 10))
    }
}

/// The decimal notation of `n`, with a leading `-` where it is negative.
pub open spec fn integer_text(n: int) -> Seq<char> {
    if n < 0 {
        seq!['-'] + decimal((-n) as nat)
    } else {
        decimal(n as nat)
    }
}

/// The number that a run of digits denotes.
pub open spec fn digits_value(s: Seq<char>) -> nat
    decreases s.len(),
{
    if s.len() == 0 {
        0
    } else {
        10 * digits_value(s.drop_last()) + digit_value(s.last())
    }
}

/// The number that one digit denotes.
pub open spec fn digit_value(c: char) -> nat {
    if '0' <= c <= '9' {
        (c as int - '0' as int) as nat
    } else {
        0
    }
}

/// Every character is an ASCII digit.
pub open spec fn all_digits(s: Seq<char>) -> bool {
    forall|i: int| 0 <= i < s.len() ==> '0' <= #[trigger] s[i] <= '9'
}

/// Decimal notation is made of digits, has no superfluous leading zero, and is read back by
/// `digits_value`.
pub proof fn decimal_reads_back(n: nat)
    ensures
        decimal(n).len() > 0,
        all_digits(decimal(n)),
        decimal(n)[0] == '0' ==> n == 0 && decimal(n).len() == 1,
        digits_value(decimal(n)) == n,
    decreases n,
{
    if n < 10 {
        assert(decimal(n).drop_last() =~= Seq::<char>::empty());
        reveal_with_fuel(digits_value, 2);
    } else {
        decimal_reads_back(n / 10);
        assert(decimal(n).drop_last() =~= decimal(n / 10));
        assert(decimal(n)[0] == decimal(n / 10)[0]);
    }
}

/// Two numbers with the same decimal notation are equal.
pub proof fn decimal_is_injective(m: nat, n: nat)
    requires
        decimal(m) == decimal(n),
    ensures
        m == n,
{
    decimal_reads_back(m);
    decimal_reads_back(n);
}

/// A run of digits without a superfluous leading zero is the decimal notation of its value.
proof fn canonical_digits(s: Seq<char>)
    requires
        s.len() > 0,
        all_digits(s),
        s[0] == '0' ==> s.len() == 1,
    ensures
        decimal(digits_value(s)) == s,
        s.len() > 1 ==> digits_value(s) >= 10,
        s[0] != '0' ==> digits_value(s) >= 1,
    decreases s.len(),
{
    let front = s.drop_last();
    assert('0' <= s.last() <= '9');
    if s.len() == 1 {
        assert(front =~= Seq::<char>::empty());
        reveal_with_fuel(digits_value, 2);
        assert(decimal(digits_value(s)) =~= s);
    } else {
        assert forall|i: int| 0 <= i < front.len() implies '0' <= #[trigger] front[i] <= '9' by {
            assert(front[i] == s[i]);
        }
        assert(front[0] == s[0]);
        canonical_digits(front);
        let v = digits_value(front);
        let d = digit_value(s.last());
        assert(digits_value(s) == 10 * v + d);
        assert((10 * v + d) / 10 == v && (10 * v + d) % 10 == d);
        assert(decimal(digits_value(s)) =~= s);
    }
}

/// The characters of a string.
fn chars_of(s: &str) -> (r: Vec<char>)
    ensures
        r@ == s@,
{
    let mut out: Vec<char> = Vec::new();
    for c in it: s.chars()
        invariant
            it.seq() == s@,
            out@ == s@.subrange(0, it.index() as int),
    {
        out.push(c);
        assert(out@ =~= s@.subrange(0, it.index() + 1));
    }
    assert(s@.subrange(0, s@.len() as int) =~= s@);
    out
}

/// Whether two strings hold the same characters.
pub fn same_text(a: &str, b: &str) -> (r: bool)
    ensures
        r == (a@ == b@),
{
    let x = a.as_bytes();
    let y = b.as_bytes();
    proof {
        vstd::utf8::encode_utf8_decode_utf8(a@);
        vstd::utf8::encode_utf8_decode_utf8(b@);
    }
    if x.len() != y.len() {
        return false;
    }
    let mut i: usize = 0;
    while i < x.len()
        invariant
            i <= x.len(),
            x.len() == y.len(),
            x@ == a.spec_bytes(),
            y@ == b.spec_bytes(),
            forall|j: int| 0 <= j < i ==> x@[j] == y@[j],
        decreases x.len() - i,
    {
        if x[i] != y[i] {
            return false;
        }
        i = i + 1;
    }
    assert(x@ =~= y@);
    true
}

/// Whether the characters of `value` end with those of `end`.
pub fn ends_with(value: &str, end: &str) -> (r: bool)
    ensures
        r == end@.is_suffix_of(value@),
{
    let x = chars_of(value);
    let y = chars_of(end);
    if y.len() > x.len() {
        return false;
    }
    let skip: usize = x.len() - y.len();
    let mut i: usize = 0;
    while i < y.len()
        invariant
            i <= y.len(),
            skip + y.len() == x.len(),
            x@ == value@,
            y@ == end@,
            forall|j: int| 0 <= j < i ==> x@[skip + j] == y@[j],
        decreases y.len() - i,
    {
        if x[skip + i] != y[i] {
            assert(value@.subrange(skip as int, x.len() as int)[i as int] == x@[skip + i]);
            return false;
        }
        i = i + 1;
    }
    assert(value@.subrange(skip as int, x.len() as int) =~= end@);
    true
}

/// Whether `value` is a token of at most `max` characters.
pub fn valid_token(value: &str, max: usize) -> (r: bool)
    ensures
        r == is_token(value@, max as nat),
{
    let chars = chars_of(value);
    if chars.len() == 0 || chars.len() > max {
        return false;
    }
    let mut i: usize = 0;
    while i < chars.len()
        invariant
            i <= chars.len(),
            chars@ == value@,
            forall|j: int| 0 <= j < i ==> token_char(#[trigger] value@[j]),
        decreases chars.len() - i,
    {
        let c = chars[i];
        let ok = ('a' <= c && c <= 'z') || ('A' <= c && c <= 'Z') || ('0' <= c && c <= '9')
            || c == '-' || c == '_' || c == '.' || c == ':';
        assert(ok == token_char(value@[i as int]));
        if !ok {
            return false;
        }
        i = i + 1;
    }
    true
}

/// Whether `value` is a canonical subject.
pub fn valid_subject(value: &str) -> (r: bool)
    ensures
        r == is_token(value@, 256),
{
    valid_token(value, 256)
}

/// Whether `value` is an idempotency key.
pub fn valid_idempotency_key(value: &str) -> (r: bool)
    ensures
        r == is_token(value@, 128),
{
    valid_token(value, 128)
}

/// Whether `value` names an authority.
pub fn valid_name(value: &str) -> (r: bool)
    ensures
        r == is_token(value@, 128),
{
    valid_token(value, 128)
}

/// Whether `value` can refer to a secret.
pub fn valid_secret_reference(value: &str) -> (r: bool)
    ensures
        r == is_token(value@, 256),
{
    valid_token(value, 256)
}

/// Whether `c` has the Unicode `White_Space` property.
fn is_white_space(c: char) -> (r: bool)
    ensures
        r == white_space(c),
{
    ('\u{9}' <= c && c <= '\u{d}') || c == '\u{20}' || c == '\u{85}' || c == '\u{a0}'
        || c == '\u{1680}' || ('\u{2000}' <= c && c <= '\u{200a}') || c == '\u{2028}'
        || c == '\u{2029}' || c == '\u{202f}' || c == '\u{205f}' || c == '\u{3000}'
}

/// Whether `c` is a control character.
fn is_control(c: char) -> (r: bool)
    ensures
        r == control(c),
{
    c <= '\u{1f}' || ('\u{7f}' <= c && c <= '\u{9f}')
}

/// The part of `value` that is left when the white space at either end is dropped.
pub fn trim(value: &str) -> (r: &str)
    ensures
        r@ == trimmed(value@),
{
    let chars = chars_of(value);
    let mut from: usize = 0;
    let mut to: usize = chars.len();
    assert(chars@.subrange(0, to as int) =~= chars@);
    while from < to && is_white_space(chars[from])
        invariant
            from <= to,
            to == chars@.len(),
            trimmed(chars@) == trimmed(chars@.subrange(from as int, to as int)),
        decreases to - from,
    {
        assert(chars@.subrange(from as int, to as int).subrange(1, to - from) =~= chars@.subrange(
            from + 1,
            to as int,
        ));
        from = from + 1;
    }
    while from < to && is_white_space(chars[to - 1])
        invariant
            from <= to <= chars@.len(),
            from < to ==> !white_space(chars@[from as int]),
            trimmed(chars@) == trimmed(chars@.subrange(from as int, to as int)),
        decreases to - from,
    {
        assert(chars@.subrange(from as int, to as int).drop_last() =~= chars@.subrange(
            from as int,
            to - 1,
        ));
        to = to - 1;
    }
    value.substring_char(from, to)
}

/// Whether `value` is a human-readable name of at most `max` bytes.
pub fn valid_human_name(value: &str, max: usize) -> (r: bool)
    ensures
        r == is_human_name(value@, max as nat),
{
    if trim(value).is_empty() || value.as_bytes().len() > max {
        return false;
    }
    let chars = chars_of(value);
    let mut i: usize = 0;
    while i < chars.len()
        invariant
            i <= chars.len(),
            chars@ == value@,
            forall|j: int| 0 <= j < i ==> !control(#[trigger] value@[j]),
        decreases chars.len() - i,
    {
        if is_control(chars[i]) {
            return false;
        }
        i = i + 1;
    }
    true
}

/// The one-character text of a digit.
fn digit_text(d: u64) -> (r: &'static str)
    requires
        d < 10,
    ensures
        r@ == seq![digit(d as nat)],
{
    proof {
        reveal_strlit("0");
        reveal_strlit("1");
        reveal_strlit("2");
        reveal_strlit("3");
        reveal_strlit("4");
        reveal_strlit("5");
        reveal_strlit("6");
        reveal_strlit("7");
        reveal_strlit("8");
        reveal_strlit("9");
    }
    let r = if d == 0 {
        "0"
    } else if d == 1 {
        "1"
    } else if d == 2 {
        "2"
    } else if d == 3 {
        "3"
    } else if d == 4 {
        "4"
    } else if d == 5 {
        "5"
    } else if d == 6 {
        "6"
    } else if d == 7 {
        "7"
    } else if d == 8 {
        "8"
    } else {
        "9"
    };
    assert(r@ =~= seq![digit(d as nat)]);
    r
}

/// The decimal notation of an unsigned number.
pub fn unsigned_text(n: u64) -> (r: String)
    ensures
        r@ == decimal(n as nat),
    decreases n,
{
    if n < 10 {
        digit_text(n).to_owned()
    } else {
        let mut s = unsigned_text(n / 10);
        s.append(digit_text(n % 10));
        assert(s@ =~= decimal(n as nat));
        s
    }
}

/// The decimal notation of a signed number.
pub fn signed_text(n: i64) -> (r: String)
    ensures
        r@ == integer_text(n as int),
{
    if n < 0 {
        let magnitude: u64 = (-(n as i128)) as u64;
        proof {
            reveal_strlit("-");
        }
        let r = "-".to_owned().concat(unsigned_text(magnitude).as_str());
        assert(r@ =~= integer_text(n as int));
        r
    } else {
        unsigned_text(n as u64)
    }
}

/// The revision that a text denotes, if it is the decimal notation of a non-negative 64-bit
/// integer.
pub open spec fn revision_of(s: Seq<char>) -> Option<i64> {
    if exists|n: i64| 0 <= n && s == #[trigger] integer_text(n as int) {
        Some(choose|n: i64| 0 <= n && s == #[trigger] integer_text(n as int))
    } else {
        None
    }
}

/// A revision reads back from its notation.
pub proof fn revision_reads_back(n: i64)
    requires
        0 <= n,
    ensures
        revision_of(integer_text(n as int)) == Some(n),
{
    let m = choose|m: i64| 0 <= m && integer_text(n as int) == #[trigger] integer_text(m as int);
    decimal_is_injective(m as nat, n as nat);
}

/// Reads a revision: the canonical decimal notation of a non-negative 64-bit integer.
pub fn parse_revision(value: &str) -> (r: Option<i64>)
    ensures
        r == revision_of(value@),
        r matches Some(n) ==> n >= 0 && value@ == integer_text(n as int),
{
    let r = parse_digits(value);
    proof {
        match r {
            Some(n) => revision_reads_back(n),
            None => {},
        }
    }
    r
}

fn parse_digits(value: &str) -> (r: Option<i64>)
    ensures
        match r {
            Some(n) => n >= 0 && value@ == integer_text(n as int),
            None => forall|n: int| 0 <= n <= i64::MAX ==> value@ != #[trigger] integer_text(n),
        },
{
    proof {
        assert forall|n: int| 0 <= n <= i64::MAX implies {
            let t = #[trigger] integer_text(n);
            &&& t.len() > 0
            &&& all_digits(t)
            &&& t[0] == '0' ==> t.len() == 1
            &&& digits_value(t) == n
        } by {
            decimal_reads_back(n as nat);
        }
    }
    let chars = chars_of(value);
    if chars.len() == 0 || (chars.len() > 1 && chars[0] == '0') {
        return None;
    }
    let mut acc: i64 = 0;
    let mut i: usize = 0;
    assert(value@.subrange(0, 0) =~= Seq::<char>::empty());
    while i < chars.len()
        invariant
            i <= chars.len(),
            chars@ == value@,
            acc >= 0,
            acc == digits_value(value@.subrange(0, i as int)),
            forall|j: int| 0 <= j < i ==> '0' <= #[trigger] value@[j] <= '9',
            forall|n: int|
                0 <= n <= i64::MAX ==> {
                    &&& all_digits(#[trigger] integer_text(n))
                    &&& digits_value(integer_text(n)) == n
                },
        decreases chars.len() - i,
    {
        let c = chars[i];
        if c < '0' || '9' < c {
            assert(!all_digits(value@)) by {
                assert(value@[i as int] == c);
            }
            return None;
        }
        let d: i64 = (c as u32 - '0' as u32) as i64;
        let ghost front = value@.subrange(0, i as int);
        let ghost longer = value@.subrange(0, i + 1);
        assert(longer.drop_last() =~= front);
        assert(digits_value(longer) == 10 * acc + d);
        if acc > (i64::MAX - d) / 10 {
            proof {
                prefix_value_bound(value@, i + 1);
            }
            return None;
        }
        acc = acc * 10 + d;
        i = i + 1;
    }
    assert(value@.subrange(0, value@.len() as int) =~= value@);
    proof {
        canonical_digits(value@);
    }
    Some(acc)
}

/// A prefix of a run of digits denotes no more than the whole run.
proof fn prefix_value_bound(s: Seq<char>, k: int)
    requires
        0 <= k <= s.len(),
    ensures
        digits_value(s.subrange(0, k)) <= digits_value(s),
    decreases s.len() - k,
{
    if k == s.len() {
        assert(s.subrange(0, k) =~= s);
    } else {
        prefix_value_bound(s, k + 1);
        assert(s.subrange(0, k + 1).drop_last() =~= s.subrange(0, k));
    }
}

} // verus!
