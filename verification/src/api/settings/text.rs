//! Text that the library writes itself: numbers in decimal, lists, and the
//! step from characters to a `String`.

use vstd::prelude::*;

verus! {

/// `String::from_iter` over the characters of a vector: the string that
/// holds exactly those characters, in their order.
#[verifier::external_body]
pub(crate) fn string_of_chars(chars: &Vec<char>) -> (r: String)
    ensures
        r@ == chars@,
{
    String::from_iter(chars)
}

/// The characters that ASCII bytes stand for.
pub open spec fn ascii_chars(bytes: Seq<u8>) -> Seq<char> {
    Seq::new(bytes.len(), |i: int| bytes[i] as char)
}

/// The text of ASCII bytes.
pub fn ascii_to_string(bytes: &[u8]) -> (r: String)
    requires
        forall|i: int| 0 <= i < bytes@.len() ==> bytes@[i] < 128,
    ensures
        r@ == ascii_chars(bytes@),
{
    let mut chars: Vec<char> = Vec::new();
    let mut i: usize = 0;
    while i < bytes.len()
        invariant
            i <= bytes@.len(),
            chars@.len() == i,
            forall|j: int| 0 <= j < i ==> chars@[j] == bytes@[j] as char,
        decreases bytes@.len() - i,
    {
        chars.push(bytes[i] as char);
        i = i + 1;
    }
    assert(chars@ =~= ascii_chars(bytes@));
    string_of_chars(&chars)
}

/// How a truth value is written out.
pub open spec fn truth_text(value: bool) -> Seq<char> {
    if value {
        "true"@
    } else {
        "false"@
    }
}

/// Exec counterpart of [`truth_text`].
pub fn truth_to_string(value: bool) -> (r: String)
    ensures
        r@ == truth_text(value),
{
    if value {
        "true".to_owned()
    } else {
        "false".to_owned()
    }
}

/// The character of a decimal digit.
pub open spec fn digit_char(digit: int) -> char {
    ((48 + digit) as u8) as char
}

/// A natural number in decimal, without leading zeros.
pub open spec fn decimal_text(n: nat) -> Seq<char>
    decreases n,
{
    if n < 10 {
        seq![digit_char(n as int)]
    } else {
        decimal_text(n / 10) + seq![digit_char((n % 10) as int)]
    }
}

/// An integer in decimal, with a minus sign in front if it is negative.
pub open spec fn integer_text(value: int) -> Seq<char> {
    if value < 0 {
        seq!['-'] + decimal_text((-value) as nat)
    } else {
        decimal_text(value as nat)
    }
}

/// The integers of a list in decimal, separated by a comma and a space.
pub open spec fn list_items_text(items: Seq<int>) -> Seq<char>
    decreases items.len(),
{
    if items.len() == 0 {
        Seq::empty()
    } else if items.len() == 1 {
        integer_text(items[0])
    } else {
        list_items_text(items.drop_last()) + seq![',', ' '] + integer_text(items.last())
    }
}

/// A list of integers in square brackets.
pub open spec fn list_text(items: Seq<int>) -> Seq<char> {
    seq!['['] + list_items_text(items) + seq![']']
}

/// Appends a natural number in decimal.
pub fn push_decimal(out: &mut Vec<char>, n: u32)
    ensures
        final(out)@ == old(out)@ + decimal_text(n as nat),
    decreases n,
{
    if n >= 10 {
        push_decimal(out, n / 10);
    }
    let digit: u8 = (n % 10) as u8;
    let ghost before = out@;
    out.push((48 + digit) as char);
    assert(out@ =~= before + seq![digit_char((n % 10) as int)]);
    assert(old(out)@ + decimal_text(n as nat) =~= out@) by {
        if n >= 10 {
            assert(before == old(out)@ + decimal_text((n / 10) as nat));
        }
    }
}

/// Appends an integer in decimal.
pub fn push_integer(out: &mut Vec<char>, value: i32)
    ensures
        final(out)@ == old(out)@ + integer_text(value as int),
{
    if value < 0 {
        out.push('-');
        let magnitude: u32 = (-(value as i64)) as u32;
        push_decimal(out, magnitude);
        assert(out@ =~= old(out)@ + integer_text(value as int));
    } else {
        push_decimal(out, value as u32);
    }
}

/// The text of an integer.
pub fn integer_to_string(value: i32) -> (r: String)
    ensures
        r@ == integer_text(value as int),
{
    let mut chars: Vec<char> = Vec::new();
    push_integer(&mut chars, value);
    assert(chars@ =~= integer_text(value as int));
    string_of_chars(&chars)
}

/// The text of a list of integers.
pub fn list_to_string(items: &Vec<i16>) -> (r: String)
    ensures
        r@ == list_text(items@.map_values(|item: i16| item as int)),
{
    let ghost model = items@.map_values(|item: i16| item as int);
    let mut chars: Vec<char> = Vec::new();
    chars.push('[');
    let mut i: usize = 0;
    while i < items.len()
        invariant
            i <= items@.len(),
            model == items@.map_values(|item: i16| item as int),
            chars@ == seq!['['] + list_items_text(model.take(i as int)),
        decreases items@.len() - i,
    {
        if i > 0 {
            chars.push(',');
            chars.push(' ');
        }
        push_integer(&mut chars, items[i] as i32);
        proof {
            let next = model.take(i + 1);
            assert(next.drop_last() =~= model.take(i as int));
            assert(next.last() == items@[i as int] as int);
            assert(chars@ =~= seq!['['] + list_items_text(next));
        }
        i = i + 1;
    }
    assert(model.take(i as int) =~= model);
    chars.push(']');
    assert(chars@ =~= list_text(model));
    string_of_chars(&chars)
}

} // verus!
