//! TXT properties of a service record, and ports written as text.

use vstd::prelude::*;
use vstd::string::StrSliceExecFns;
use vstd::string::StringExecFns;

verus! {

/// One key and value of a service's TXT record.
///
/// Multicast DNS compares keys without regard to case: the browser hands
/// them over in lower case, and they are matched exactly here.
#[derive(Debug, Clone, PartialEq, Eq)]
pub struct TxtProperty {
    /// The key, in lower case.
    pub key: String,
    /// The value as text; empty where the property has none.
    pub value: String,
}

/// Whether `c` is one of `0` to `9`.
pub open spec fn spec_is_digit(c: char) -> bool {
    '0' <= c && c <= '9'
}

/// Whether every character of `text` is a decimal digit.
pub open spec fn spec_all_digits(text: Seq<char>) -> bool {
    forall|i: int| 0 <= i < text.len() ==> spec_is_digit(#[trigger] text[i])
}

/// The number that the decimal digits `digits` denote.
pub open spec fn spec_decimal_value(digits: Seq<char>) -> nat
    decreases digits.len(),
{
    if digits.len() == 0 {
        0
    } else {
        spec_decimal_value(digits.drop_last()) * 10 + (digits.last() as nat - '0' as nat) as nat
    }
}

/// The port that `text` denotes: an optional `+`, then one or more decimal
/// digits whose value fits sixteen bits. Anything else denotes none.
pub open spec fn spec_parse_u16(text: Seq<char>) -> Option<u16> {
    let digits = if text.len() > 0 && text[0] == '+' {
        text.subrange(1, text.len() as int)
    } else {
        text
    };
    if digits.len() > 0 && spec_all_digits(digits) && spec_decimal_value(digits) <= 0xFFFF {
        Some(spec_decimal_value(digits) as u16)
    } else {
        None
    }
}

/// The value of the first property of `properties` whose key is `key`.
pub open spec fn spec_find_property(properties: Seq<TxtProperty>, key: Seq<char>) -> Option<
    Seq<char>,
>
    decreases properties.len(),
{
    if properties.len() == 0 {
        None
    } else if properties[0].key@ == key {
        Some(properties[0].value@)
    } else {
        spec_find_property(properties.subrange(1, properties.len() as int), key)
    }
}

/// The port under `key`, where the property exists and its value denotes one.
pub open spec fn spec_get_u16(properties: Seq<TxtProperty>, key: Seq<char>) -> Option<u16> {
    match spec_find_property(properties, key) {
        Some(value) => spec_parse_u16(value),
        None => None,
    }
}

/// Whether two string slices hold the same text, by `str`'s own `==`,
/// which compares the two byte for byte.
#[verifier::external_body]
pub(crate) fn str_eq(a: &str, b: &str) -> (r: bool)
    ensures
        r == (a@ == b@),
{
    a == b
}

/// A number is at least the number its leading digits denote.
proof fn lemma_decimal_value_grows(digits: Seq<char>, k: int)
    requires
        0 <= k <= digits.len(),
        spec_all_digits(digits),
    ensures
        spec_decimal_value(digits.subrange(0, k)) <= spec_decimal_value(digits),
    decreases digits.len(),
{
    if k == digits.len() {
        assert(digits.subrange(0, k) =~= digits);
    } else {
        let shorter = digits.drop_last();
        assert(spec_is_digit(digits[digits.len() - 1]));
        assert forall|i: int| 0 <= i < shorter.len() implies spec_is_digit(
            #[trigger] shorter[i],
        ) by {
            assert(shorter[i] == digits[i]);
        }
        lemma_decimal_value_grows(shorter, k);
        assert(shorter.subrange(0, k) =~= digits.subrange(0, k));
    }
}

/// Reads a port from `text`: an optional `+`, then decimal digits, at most
/// 65535.
pub fn parse_u16(text: &str) -> (r: Option<u16>)
    ensures
        r == spec_parse_u16(text@),
{
    let n: usize = text.unicode_len();
    if n == 0 {
        return None;
    }
    let start: usize = if text.get_char(0) == '+' {
        1
    } else {
        0
    };
    if start == n {
        return None;
    }
    let ghost digits = if text@[0] == '+' {
        text@.subrange(1, n as int)
    } else {
        text@
    };
    let mut acc: u32 = 0;
    let mut i: usize = start;
    while i < n
        invariant
            start <= i <= n,
            n == text@.len(),
            n > 0,
            start == if text@[0] == '+' {
                1usize
            } else {
                0usize
            },
            acc <= 0xFFFF,
            digits == if text@[0] == '+' {
                text@.subrange(1, n as int)
            } else {
                text@
            },
            spec_all_digits(digits.subrange(0, i - start)),
            acc == spec_decimal_value(digits.subrange(0, i - start)),
        decreases n - i,
    {
        let c: char = text.get_char(i);
        assert(c == digits[i - start]);
        if c < '0' || c > '9' {
            return None;
        }
        let next: u32 = acc * 10 + (c as u32 - '0' as u32);
        proof {
            let longer = digits.subrange(0, i + 1 - start);
            assert(longer.drop_last() =~= digits.subrange(0, i - start));
            assert(longer.last() == c);
            assert(next == spec_decimal_value(longer));
            assert forall|j: int| 0 <= j < longer.len() implies spec_is_digit(
                #[trigger] longer[j],
            ) by {
                if j < i - start {
                    assert(longer[j] == digits.subrange(0, i - start)[j]);
                }
            }
        }
        if next > 0xFFFF {
            proof {
                if spec_all_digits(digits) {
                    lemma_decimal_value_grows(digits, i + 1 - start);
                }
            }
            return None;
        }
        acc = next;
        i += 1;
    }
    assert(digits.subrange(0, n - start) =~= digits);
    Some(acc as u16)
}

/// The value of the first property whose key is `key`.
pub fn find_property<'a>(properties: &'a Vec<TxtProperty>, key: &str) -> (r: Option<&'a String>)
    ensures
        match r {
            Some(value) => spec_find_property(properties@, key@) == Some(value@),
            None => spec_find_property(properties@, key@).is_none(),
        },
{
    let mut i: usize = 0;
    assert(properties@.subrange(0, properties@.len() as int) =~= properties@);
    while i < properties.len()
        invariant
            i <= properties.len(),
            spec_find_property(properties@, key@) == spec_find_property(
                properties@.subrange(i as int, properties@.len() as int),
                key@,
            ),
        decreases properties.len() - i,
    {
        let ghost tail = properties@.subrange(i as int, properties@.len() as int);
        assert(tail[0] == properties@[i as int]);
        if str_eq(properties[i].key.as_str(), key) {
            return Some(&properties[i].value);
        }
        assert(tail.subrange(1, tail.len() as int) =~= properties@.subrange(
            i + 1,
            properties@.len() as int,
        ));
        i += 1;
    }
    assert(properties@.subrange(i as int, properties@.len() as int).len() == 0);
    None
}

/// The port under `key`: `None` where the property is missing or its value
/// is not a port.
pub fn get_u16(properties: &Vec<TxtProperty>, key: &str) -> (r: Option<u16>)
    ensures
        r == spec_get_u16(properties@, key@),
{
    match find_property(properties, key) {
        Some(value) => parse_u16(value.as_str()),
        None => None,
    }
}

/// The text under `key`: `None` where the property is missing.
pub fn get_string(properties: &Vec<TxtProperty>, key: &str) -> (r: Option<String>)
    ensures
        match r {
            Some(value) => spec_find_property(properties@, key@) == Some(value@),
            None => spec_find_property(properties@, key@).is_none(),
        },
{
    match find_property(properties, key) {
        Some(value) => Some(value.clone()),
        None => None,
    }
}

/// The character that writes the digit `d`.
pub open spec fn spec_digit_char(d: nat) -> char
    recommends
        d < 10,
{
    (d + 48) as char
}

/// `n` written in decimal, without sign or leading zeros.
pub open spec fn spec_decimal_text(n: nat) -> Seq<char>
    decreases n,
{
    if n < 10 {
        seq![spec_digit_char(n)]
    } else {
        spec_decimal_text(n / 10).push(spec_digit_char(n % 10))
    }
}

/// The digit `d` as text.
fn digit_text(d: u16) -> (r: &'static str)
    requires
        d < 10,
    ensures
        r@ == seq![spec_digit_char(d as nat)],
{
    proof {
        reveal_strlit("0");
        reveal_strlit("1");
        reveal_strlit("2");
        reveal_strlit("3");
        reveal_strlit("4");
        reveal_strlit("5");
        reveal_strlit("6");
        reveal_strlit("7");
        reveal_strlit("8");
        reveal_strlit("9");
    }
    let r = if d == 0 {
        "0"
    } else if d == 1 {
        "1"
    } else if d == 2 {
        "2"
    } else if d == 3 {
        "3"
    } else if d == 4 {
        "4"
    } else if d == 5 {
        "5"
    } else if d == 6 {
        "6"
    } else if d == 7 {
        "7"
    } else if d == 8 {
        "8"
    } else {
        "9"
    };
    assert(r@ =~= seq![spec_digit_char(d as nat)]);
    r
}

/// Writes `n` in decimal, without sign or leading zeros.
pub fn decimal_text(n: u16) -> (r: String)
    ensures
        r@ == spec_decimal_text(n as nat),
    decreases n,
{
    if n < 10 {
        String::from_str(digit_text(n))
    } else {
        let mut text = decimal_text(n / 10);
        let ghost head = text@;
        text.append(digit_text(n % 10));
        assert(text@ =~= head.push(spec_digit_char((n % 10) as nat)));
        text
    }
}

/// A number written in decimal consists of digits that denote it.
pub proof fn lemma_decimal_text_denotes(n: nat)
    ensures
        spec_decimal_text(n).len() > 0,
        spec_all_digits(spec_decimal_text(n)),
        spec_decimal_value(spec_decimal_text(n)) == n,
    decreases n,
{
    let text = spec_decimal_text(n);
    if n < 10 {
        assert(text.drop_last() =~= Seq::<char>::empty());
        assert(spec_decimal_value(text.drop_last()) == 0);
    } else {
        lemma_decimal_text_denotes(n / 10);
        let head = spec_decimal_text(n / 10);
        assert(text.drop_last() =~= head);
        assert forall|i: int| 0 <= i < text.len() implies spec_is_digit(#[trigger] text[i]) by {
            if i < head.len() {
                assert(text[i] == head[i]);
            }
        }
    }
}

/// What is written is read back: a port written in decimal parses to
/// itself.
pub proof fn lemma_written_port_parses(port: u16)
    ensures
        spec_parse_u16(spec_decimal_text(port as nat)) == Some(port),
{
    lemma_decimal_text_denotes(port as nat);
    let text = spec_decimal_text(port as nat);
    assert(spec_is_digit(text[0]));
}

} // verus!
