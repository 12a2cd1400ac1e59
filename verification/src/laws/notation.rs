//! What texts mean: numbers, tokens, names and identifiers, character by character.

use vstd::prelude::*;
use vstd::utf8::encode_utf8;

use crate::failure::PasskeyPluginError;
use crate::identifier::{
    identifier, identifier_of, is_identifier, random_id, six_bits, url_safe_base64,
    url_safe_base64_is_injective,
    url_safe_symbol,
};
use crate::text::{
    all_digits, decimal, decimal_reads_back, digits_value,
    ends_with, integer_text, is_human_name, is_token, parse_revision, revision_of,
    revision_reads_back, same_text, signed_text, trim, trimmed, unsigned_text, valid_human_name,
    valid_idempotency_key, valid_name, valid_secret_reference, valid_subject, valid_token,
    white_space,
};

verus! {

/// The number that a run of digits denotes, place by place.
pub open spec fn number(s: Seq<char>) -> int
    decreases s.len(),
{
    if s.len() == 0 {
        0
    } else {
        10 * number(s.drop_last()) + (s.last() as int - 48)
    }
}

/// A run of ASCII digits without a superfluous zero in front.
pub open spec fn is_number(s: Seq<char>) -> bool {
    &&& s.len() > 0
    &&& forall|i: int| 0 <= i < s.len() ==> 48 <= (#[trigger] s[i]) as int <= 57
    &&& s[0] == '0' ==> s.len() == 1
}

/// A number in its one notation that a signed integer of 64 bits can hold.
pub open spec fn is_revision(s: Seq<char>) -> bool {
    is_number(s) && number(s) <= 9_223_372_036_854_775_807
}

/// A character that is white space.
pub open spec fn is_blank(c: char) -> bool {
    let n = c as int;
    ||| 9 <= n <= 13
    ||| n == 32
    ||| n == 133
    ||| n == 160
    ||| n == 5760
    ||| 8192 <= n <= 8202
    ||| n == 8232
    ||| n == 8233
    ||| n == 8239
    ||| n == 8287
    ||| n == 12288
}

/// 1 to `max` characters, each an ASCII letter or digit, `-`, `.`, `:` or `_`.
pub open spec fn is_plain(s: Seq<char>, max: int) -> bool {
    &&& 1 <= s.len() <= max
    &&& forall|i: int|
        0 <= i < s.len() ==> {
            let n = (#[trigger] s[i]) as int;
            ||| 48 <= n <= 57
            ||| 65 <= n <= 90
            ||| 97 <= n <= 122
            ||| n == 45
            ||| n == 46
            ||| n == 58
            ||| n == 95
        }
}

/// A text of at most `max` bytes with some character that is not white space, and none that is a
/// control character.
pub open spec fn is_readable(s: Seq<char>, max: int) -> bool {
    &&& exists|i: int| 0 <= i < s.len() && !is_blank(#[trigger] s[i])
    &&& encode_utf8(s).len() <= max
    &&& forall|i: int|
        0 <= i < s.len() ==> {
            let n = (#[trigger] s[i]) as int;
            n > 31 && !(127 <= n <= 159)
        }
}

/// Whether a piece of a text begins and ends with something else than white space, and all that is
/// in front of it and behind it is white space.
pub open spec fn is_core(s: Seq<char>, from: int, to: int) -> bool {
    &&& 0 <= from <= to <= s.len()
    &&& forall|i: int| 0 <= i < from ==> is_blank(#[trigger] s[i])
    &&& forall|i: int| to <= i < s.len() ==> is_blank(#[trigger] s[i])
    &&& from < to ==> !is_blank(s[from]) && !is_blank(s[to - 1])
}

/// A text without the white space at its ends.
pub open spec fn is_trimmed_to(s: Seq<char>, left: Seq<char>) -> bool {
    exists|from: int, to: int| #[trigger] is_core(s, from, to) && left == s.subrange(from, to)
}

proof fn digits_denote_numbers(s: Seq<char>)
    requires
        all_digits(s),
    ensures
        digits_value(s) == number(s),
    decreases s.len(),
{
    if s.len() > 0 {
        let front = s.drop_last();
        assert forall|i: int| 0 <= i < front.len() implies '0' <= #[trigger] front[i] <= '9' by {
            assert(front[i] == s[i]);
        }
        digits_denote_numbers(front);
        assert('0' <= s[s.len() - 1] <= '9');
    }
}

/// Every number is written so that its digits denote it, without a superfluous zero, and with a
/// `-` in front where it is negative.
pub proof fn numbers_are_written_as_they_are(n: int)
    ensures
        n >= 0 ==> is_number(integer_text(n)) && number(integer_text(n)) == n,
        n < 0 ==> {
            let text = integer_text(n);
            &&& text[0] == '-'
            &&& is_number(text.subrange(1, text.len() as int))
            &&& number(text.subrange(1, text.len() as int)) == -n
        },
        n >= 0 ==> is_number(decimal(n as nat)) && number(decimal(n as nat)) == n,
{
    let m = if n < 0 {
        (-n) as nat
    } else {
        n as nat
    };
    decimal_reads_back(m);
    digits_denote_numbers(decimal(m));
    assert forall|i: int| 0 <= i < decimal(m).len() implies 48 <= (
    #[trigger] decimal(m)[i]) as int <= 57 by {}
    if n < 0 {
        let text = integer_text(n);
        assert(text.subrange(1, text.len() as int) =~= decimal(m));
    }
}

proof fn numbers_have_one_notation(s: Seq<char>)
    requires
        is_number(s),
    ensures
        number(s) >= 0,
        s[0] != '0' ==> number(s) >= 1,
        s.len() > 1 ==> number(s) >= 10,
        decimal(number(s) as nat) == s,
    decreases s.len(),
{
    let front = s.drop_last();
    assert(48 <= s[s.len() - 1] as int <= 57);
    if s.len() == 1 {
        assert(front =~= Seq::<char>::empty());
        reveal_with_fuel(number, 2);
        assert(decimal(number(s) as nat) =~= s);
    } else {
        assert forall|i: int| 0 <= i < front.len() implies 48 <= (
        #[trigger] front[i]) as int <= 57 by {
            assert(front[i] == s[i]);
        }
        assert(front[0] == s[0]);
        numbers_have_one_notation(front);
        let v = number(front);
        let d = s.last() as int - 48;
        assert(number(s) == 10 * v + d);
        assert((10 * v + d) / 10 == v && (10 * v + d) % 10 == d) by (nonlinear_arith)
            requires
                0 <= d < 10,
                v >= 0,
        ;
        assert(decimal(number(s) as nat) =~= s);
    }
}

/// A revision is read of exactly the texts that are numbers in their one notation and fit, and it
/// is the number that they denote.
pub proof fn revisions_are_read_as_they_are_written(s: Seq<char>)
    ensures
        revision_of(s) is Some <==> is_revision(s),
        revision_of(s) matches Some(n) ==> n == number(s) && n >= 0,
{
    if is_revision(s) {
        numbers_have_one_notation(s);
        let n = number(s) as i64;
        assert(integer_text(n as int) == s);
        revision_reads_back(n);
    }
    if let Some(n) = revision_of(s) {
        assert(exists|m: i64| 0 <= m && s == #[trigger] integer_text(m as int));
        numbers_are_written_as_they_are(n as int);
    }
}

proof fn white_space_is_blank(c: char)
    ensures
        white_space(c) <==> is_blank(c),
{
}

proof fn a_core_stays_in_front(s: Seq<char>, from: int, to: int)
    requires
        s.len() > 0,
        is_blank(s[0]),
        is_core(s.subrange(1, s.len() as int), from, to),
    ensures
        is_core(s, from + 1, to + 1),
        s.subrange(from + 1, to + 1) == s.subrange(1, s.len() as int).subrange(from, to),
{
    let rest = s.subrange(1, s.len() as int);
    assert(s.subrange(from + 1, to + 1) =~= rest.subrange(from, to));
    assert forall|i: int| 0 <= i < from + 1 implies is_blank(#[trigger] s[i]) by {
        if i > 0 {
            assert(is_blank(rest[i - 1]));
        }
    }
    assert forall|i: int| to + 1 <= i < s.len() implies is_blank(#[trigger] s[i]) by {
        assert(is_blank(rest[i - 1]));
    }
}

proof fn a_core_stays_behind(s: Seq<char>, from: int, to: int)
    requires
        s.len() > 0,
        is_blank(s.last()),
        is_core(s.drop_last(), from, to),
    ensures
        is_core(s, from, to),
        s.subrange(from, to) == s.drop_last().subrange(from, to),
{
    let rest = s.drop_last();
    assert(s.subrange(from, to) =~= rest.subrange(from, to));
    assert forall|i: int| 0 <= i < from implies is_blank(#[trigger] s[i]) by {
        assert(is_blank(rest[i]));
    }
    assert forall|i: int| to <= i < s.len() implies is_blank(#[trigger] s[i]) by {
        if i < rest.len() {
            assert(is_blank(rest[i]));
        }
    }
}

/// Trimming takes the white space off both ends of a text, and nothing else.
pub proof fn trimming_takes_white_space_off_the_ends(s: Seq<char>)
    ensures
        is_trimmed_to(s, trimmed(s)),
    decreases s.len(),
{
    if s.len() > 0 {
        white_space_is_blank(s[0]);
        white_space_is_blank(s.last());
    }
    if s.len() > 0 && white_space(s[0]) {
        let rest = s.subrange(1, s.len() as int);
        trimming_takes_white_space_off_the_ends(rest);
        let (from, to) = choose|from: int, to: int| #[trigger]
            is_core(rest, from, to) && trimmed(rest) == rest.subrange(from, to);
        a_core_stays_in_front(s, from, to);
    } else if s.len() > 0 && white_space(s.last()) {
        let rest = s.drop_last();
        trimming_takes_white_space_off_the_ends(rest);
        let (from, to) = choose|from: int, to: int| #[trigger]
            is_core(rest, from, to) && trimmed(rest) == rest.subrange(from, to);
        a_core_stays_behind(s, from, to);
    } else {
        assert(s.subrange(0, s.len() as int) =~= s);
        assert(is_core(s, 0, s.len() as int));
    }
}

/// What a text is trimmed to is determined by the text, and is nothing where all is white space.
pub proof fn trimming_has_one_result(s: Seq<char>, a: Seq<char>, b: Seq<char>)
    requires
        is_trimmed_to(s, a),
        is_trimmed_to(s, b),
    ensures
        a == b,
        a.len() > 0 <==> exists|i: int| 0 <= i < s.len() && !is_blank(#[trigger] s[i]),
{
    let (from, to) = choose|from: int, to: int| #[trigger]
        is_core(s, from, to) && a == s.subrange(from, to);
    let (first, last) = choose|from: int, to: int| #[trigger]
        is_core(s, from, to) && b == s.subrange(from, to);
    if from < to {
        assert(!is_blank(s[from]) && !is_blank(s[to - 1]));
    }
    if first < last {
        assert(!is_blank(s[first]) && !is_blank(s[last - 1]));
    }
    assert(a =~= b);
}

/// Tokens are what they are, character by character.
pub proof fn tokens_are_plain(s: Seq<char>, max: nat)
    ensures
        is_token(s, max) <==> is_plain(s, max as int),
{
    if is_plain(s, max as int) {
        assert forall|i: int| 0 <= i < s.len() implies crate::text::token_char(
            #[trigger] s[i],
        ) by {}
    }
}

/// Names for people are what they are, character by character: any script, spaces and punctuation
/// are fine.
pub proof fn names_are_readable(s: Seq<char>, max: nat)
    ensures
        is_human_name(s, max) <==> is_readable(s, max as int),
{
    trimming_takes_white_space_off_the_ends(s);
    trimming_has_one_result(s, trimmed(s), trimmed(s));
    if is_readable(s, max as int) {
        assert forall|i: int| 0 <= i < s.len() implies !crate::text::control(#[trigger] s[i]) by {}
    }
}

/// An identifier is its prefix and 32 characters behind it, each an ASCII letter or digit, `-` or
/// `_`, that tell the 24 bytes it was made of.
pub proof fn identifiers_have_their_prefix(prefix: Seq<char>, text: Seq<char>)
    requires
        is_identifier(prefix, text),
    ensures
        text.len() == prefix.len() + 32,
        prefix == text.subrange(0, prefix.len() as int),
        forall|i: int|
            prefix.len() <= i < text.len() ==> {
                let n = (#[trigger] text[i]) as int;
                48 <= n <= 57 || 65 <= n <= 90 || 97 <= n <= 122 || n == 45 || n == 95
            },
{
    let bytes = choose|bytes: Seq<u8>|
        bytes.len() == 24 && text == #[trigger] identifier(prefix, bytes);
    let tail = url_safe_base64(bytes);
    assert(tail.len() == 32);
    assert(text.subrange(0, prefix.len() as int) =~= prefix);
    assert forall|i: int| prefix.len() <= i < text.len() implies {
        let n = (#[trigger] text[i]) as int;
        48 <= n <= 57 || 65 <= n <= 90 || 97 <= n <= 122 || n == 45 || n == 95
    } by {
        let j = i - prefix.len();
        assert(text[i] == tail[j]);
        assert(tail[j] == url_safe_symbol(six_bits(bytes, j)));
        assert(0 <= six_bits(bytes, j) < 64);
    }
}

/// Identifiers that were made of other bytes, or have another prefix of the same length, differ.
pub proof fn identifiers_differ(
    prefix: Seq<char>,
    other_prefix: Seq<char>,
    bytes: Seq<u8>,
    other: Seq<u8>,
)
    requires
        prefix.len() == other_prefix.len(),
        identifier(prefix, bytes) == identifier(other_prefix, other),
    ensures
        prefix == other_prefix,
        bytes == other,
{
    let a = identifier(prefix, bytes);
    let b = identifier(other_prefix, other);
    assert(a.subrange(0, prefix.len() as int) =~= prefix);
    assert(b.subrange(0, prefix.len() as int) =~= other_prefix);
    assert(a.subrange(prefix.len() as int, a.len() as int) =~= url_safe_base64(bytes));
    assert(b.subrange(prefix.len() as int, b.len() as int) =~= url_safe_base64(other));
    url_safe_base64_is_injective(bytes, other);
}

/// The text functions take any text, and say of it what it is character by character.
pub proof fn text_functions_say_what_is_there(a: &str, b: &str, max: usize, r: bool)
    ensures
        call_requires(same_text, (a, b)),
        call_ensures(same_text, (a, b), r) ==> r == (a@.len() == b@.len() && forall|i: int|
            0 <= i < a@.len() ==> a@[i] == b@[i]),
        call_requires(ends_with, (a, b)),
        call_ensures(ends_with, (a, b), r) ==> r == (b@.len() <= a@.len() && forall|i: int|
            0 <= i < b@.len() ==> a@[a@.len() - b@.len() + i] == b@[i]),
        call_requires(valid_token, (a, max)),
        call_ensures(valid_token, (a, max), r) ==> r == is_plain(a@, max as int),
        call_requires(valid_human_name, (a, max)),
        call_ensures(valid_human_name, (a, max), r) ==> r == is_readable(a@, max as int),
        call_ensures(valid_subject, (a,), r) ==> r == is_plain(a@, 256),
        call_ensures(valid_idempotency_key, (a,), r) ==> r == is_plain(a@, 128),
        call_ensures(valid_name, (a,), r) ==> r == is_plain(a@, 128),
        call_ensures(valid_secret_reference, (a,), r) ==> r == is_plain(a@, 256),
{
    let x = a@;
    let y = b@;
    if x.len() == y.len() && forall|i: int| 0 <= i < x.len() ==> x[i] == y[i] {
        assert(x =~= y);
    }
    if y.len() <= x.len() {
        let tail = x.subrange(x.len() - y.len(), x.len() as int);
        assert forall|i: int| 0 <= i < y.len() implies tail[i] == x[x.len() - y.len() + i] by {}
        if forall|i: int| 0 <= i < y.len() ==> x[x.len() - y.len() + i] == y[i] {
            assert(tail =~= y);
        }
        if tail == y {
            assert forall|i: int| 0 <= i < y.len() implies x[x.len() - y.len() + i] == y[i] by {
                assert(tail[i] == y[i]);
            }
        }
    }
    tokens_are_plain(a@, max as nat);
    tokens_are_plain(a@, 256);
    tokens_are_plain(a@, 128);
    names_are_readable(a@, max as nat);
}

/// Numbers are written, and revisions read, as what they are; and what is trimmed is the text
/// without the white space at its ends.
pub proof fn number_functions_say_what_is_there(
    text: &str,
    n: u64,
    m: i64,
    written: String,
    read: Option<i64>,
    left: &str,
)
    ensures
        call_requires(unsigned_text, (n,)),
        call_ensures(unsigned_text, (n,), written) ==> is_number(written@) && number(written@) == n,
        call_requires(signed_text, (m,)),
        call_ensures(signed_text, (m,), written) && m >= 0 ==> is_number(written@) && number(
            written@,
        ) == m,
        call_ensures(signed_text, (m,), written) && m < 0 ==> written@.len() > 1 && written@[0]
            == '-' && number(written@.subrange(1, written@.len() as int)) == -m,
        call_requires(parse_revision, (text,)),
        call_ensures(parse_revision, (text,), read) ==> (read is Some <==> is_revision(text@)),
        call_ensures(parse_revision, (text,), Some(m)) ==> number(text@) == m,
        call_requires(trim, (text,)),
        call_ensures(trim, (text,), left) ==> is_trimmed_to(text@, left@),
{
    numbers_are_written_as_they_are(n as int);
    numbers_are_written_as_they_are(m as int);
    revisions_are_read_as_they_are_written(text@);
    trimming_takes_white_space_off_the_ends(text@);
}

/// An identifier is made of its prefix and of the bytes, and a random one of 24 bytes.
pub proof fn identifier_functions_keep_the_prefix(
    prefix: &str,
    bytes: &[u8],
    id: String,
    drawn: Result<String, PasskeyPluginError>,
)
    ensures
        call_requires(identifier_of, (prefix, bytes)),
        call_ensures(identifier_of, (prefix, bytes), id) ==> id@ == prefix@ + url_safe_base64(
            bytes@,
        ),
        call_requires(random_id, (prefix,)),
        call_ensures(random_id, (prefix,), drawn) ==> match drawn {
            Ok(id) => id@.len() == prefix@.len() + 32 && id@.subrange(0, prefix@.len() as int)
                == prefix@,
            Err(error) => error is Random,
        },
{
    if let Ok(id) = drawn {
        if is_identifier(prefix@, id@) {
            identifiers_have_their_prefix(prefix@, id@);
        }
    }
}

} // verus!
