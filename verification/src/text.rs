//! Text helpers shared by identifiers, role keys and persisted names.

use vstd::prelude::*;
use vstd::string::StringExecFns;
use vstd::utf8::{decode_utf8, encode_utf8, valid_utf8};

verus! {

/// `std::string::String::push` appends one character to the end of the text.
pub assume_specification[ std::string::String::push ](buffer: &mut String, appended: char)
    ensures
        final(buffer)@ == old(buffer)@.push(appended),
;

/// The error `std::str::from_utf8` gives for bytes that are not UTF-8. Nothing is read from it.
#[verifier::external_type_specification]
#[verifier::external_body]
pub struct ExUtf8Error(std::str::Utf8Error);

/// `std::str::from_utf8` succeeds exactly on valid UTF-8 and then returns the text whose encoding
/// is the bytes it was given.
pub assume_specification[ std::str::from_utf8 ](encoded: &[u8]) -> (result: Result<
    &str,
    std::str::Utf8Error,
>)
    ensures
        result is Ok <==> valid_utf8(encoded@),
        result matches Ok(decoded) ==> decoded@ == decode_utf8(encoded@),
;

/// The character that writes one decimal digit.
pub open spec fn digit_character(digit: nat) -> char {
    seq!['0', '1', '2', '3', '4', '5', '6', '7', '8', '9'][digit as int]
}

/// The decimal spelling of a number, without leading zeros.
pub open spec fn decimal_spelling(number: nat) -> Seq<char>
    decreases number,
{
    if number < 10 {
        seq![digit_character(number)]
    } else {
        decimal_spelling(number / 10).push(digit_character(number % 10))
    }
}

/// The decimal spelling of a number, with a sign in front where it is negative.
pub open spec fn signed_decimal_spelling(number: int) -> Seq<char> {
    if number < 0 {
        seq!['-'] + decimal_spelling((-number) as nat)
    } else {
        decimal_spelling(number as nat)
    }
}

/// Whether `left` comes strictly before `right` in dictionary order of their bytes.
pub open spec fn bytes_precede(left: Seq<u8>, right: Seq<u8>) -> bool
    decreases left.len(),
{
    if right.len() == 0 {
        false
    } else if left.len() == 0 {
        true
    } else if left[0] != right[0] {
        left[0] < right[0]
    } else {
        bytes_precede(left.drop_first(), right.drop_first())
    }
}

/// Whether `left` comes strictly before `right` in the order Rust gives to strings.
pub open spec fn text_precedes(left: Seq<char>, right: Seq<char>) -> bool {
    bytes_precede(encode_utf8(left), encode_utf8(right))
}

/// What follows the first `separator` in `text`, if there is one.
pub open spec fn after_first(text: Seq<char>, separator: char) -> Option<Seq<char>>
    decreases text.len(),
{
    if text.len() == 0 {
        None
    } else if text[0] == separator {
        Some(text.drop_first())
    } else {
        after_first(text.drop_first(), separator)
    }
}

/// The characters of `text`, in order.
pub fn characters(text: &str) -> (result: Vec<char>)
    ensures
        result@ == text@,
{
    let mut result: Vec<char> = Vec::new();
    for character in iter: text.chars()
        invariant
            result@ == iter.seq().take(iter.index()),
            iter.seq() == text@,
    {
        result.push(character);
        assert(iter.seq().take(iter.index() + 1) =~= iter.seq().take(iter.index()).push(character));
    }
    assert(result@ =~= text@);
    result
}

/// The text made of `characters`, in order.
pub fn from_characters(characters: &[char]) -> (result: String)
    ensures
        result@ == characters@,
{
    let mut result: String = String::new();
    let mut index: usize = 0;
    while index < characters.len()
        invariant
            index <= characters.len(),
            result@ == characters@.take(index as int),
        decreases characters.len() - index,
    {
        result.push(characters[index]);
        assert(characters@.take(index + 1) =~= characters@.take(index as int).push(
            characters@[index as int],
        ));
        index += 1;
    }
    assert(characters@.take(index as int) =~= characters@);
    result
}

/// `first` followed by `second`.
pub fn joined(first: &str, second: &str) -> (result: String)
    ensures
        result@ == first@ + second@,
{
    let mut result: String = String::from_str(first);
    result.append(second);
    result
}

/// What is left of `text` after `prefix`, or `None` when `text` does not start with it.
pub fn without_prefix(text: &str, prefix: &str) -> (result: Option<String>)
    ensures
        match result {
            Some(rest) => text@ == prefix@ + rest@,
            None => !prefix@.is_prefix_of(text@),
        },
{
    let text_characters = characters(text);
    let prefix_characters = characters(prefix);
    if text_characters.len() < prefix_characters.len() {
        return None;
    }
    let mut index: usize = 0;
    while index < prefix_characters.len()
        invariant
            index <= prefix_characters.len() <= text_characters.len(),
            prefix_characters@ == prefix@,
            text_characters@ == text@,
            forall|i: int| 0 <= i < index ==> prefix@[i] == text@[i],
        decreases prefix_characters.len() - index,
    {
        if prefix_characters[index] != text_characters[index] {
            assert(prefix@[index as int] != text@.subrange(0, prefix@.len() as int)[index as int]);
            return None;
        }
        index += 1;
    }
    let rest = from_characters(
        vstd::slice::slice_subrange(text_characters.as_slice(), index, text_characters.len()),
    );
    assert(prefix@ + rest@ =~= text@);
    Some(rest)
}

/// Whether `text` starts with `prefix`.
pub fn starts_with(text: &str, prefix: &str) -> (result: bool)
    ensures
        result == prefix@.is_prefix_of(text@),
{
    match without_prefix(text, prefix) {
        Some(rest) => {
            assert((prefix@ + rest@).subrange(0, prefix@.len() as int) =~= prefix@);
            true
        },
        None => false,
    }
}

/// What follows the first `separator` in `text`, if there is one.
pub fn text_after_first(text: &str, separator: char) -> (result: Option<String>)
    ensures
        match after_first(text@, separator) {
            Some(rest) => result matches Some(found) && found@ == rest,
            None => result is None,
        },
{
    let text_characters = characters(text);
    let mut index: usize = 0;
    assert(text@.skip(0) =~= text@);
    while index < text_characters.len()
        invariant
            index <= text_characters.len(),
            text_characters@ == text@,
            after_first(text@, separator) == after_first(text@.skip(index as int), separator),
        decreases text_characters.len() - index,
    {
        assert(text@.skip(index as int).drop_first() =~= text@.skip(index + 1));
        if text_characters[index] == separator {
            let rest = vstd::slice::slice_subrange(
                text_characters.as_slice(),
                index + 1,
                text_characters.len(),
            );
            assert(rest@ =~= text@.skip(index + 1));
            return Some(from_characters(rest));
        }
        index += 1;
    }
    None
}

/// The decimal spelling of `number`.
pub fn decimal(number: u64) -> (result: String)
    ensures
        result@ == decimal_spelling(number as nat),
    decreases number,
{
    let digits: [char; 10] = ['0', '1', '2', '3', '4', '5', '6', '7', '8', '9'];
    if number < 10 {
        let mut result: String = String::new();
        result.push(digits[number as usize]);
        assert(result@ =~= decimal_spelling(number as nat));
        result
    } else {
        let mut result: String = decimal(number / 10);
        result.push(digits[(number % 10) as usize]);
        result
    }
}

/// The decimal spelling of `number`, with a sign in front where it is negative.
pub fn signed_decimal(number: i32) -> (result: String)
    ensures
        result@ == signed_decimal_spelling(number as int),
{
    if number < 0 {
        let mut result: String = String::new();
        result.push('-');
        result.append(decimal((-(number as i64)) as u64).as_str());
        assert(result@ =~= signed_decimal_spelling(number as int));
        result
    } else {
        decimal(number as u64)
    }
}

/// Whether `left` comes strictly before `right` in the order Rust gives to strings.
pub fn precedes(left: &str, right: &str) -> (result: bool)
    ensures
        result == text_precedes(left@, right@),
{
    let left_bytes = left.as_bytes();
    let right_bytes = right.as_bytes();
    let mut index: usize = 0;
    assert(left_bytes@.skip(0) =~= left_bytes@);
    assert(right_bytes@.skip(0) =~= right_bytes@);
    while index < left_bytes.len() && index < right_bytes.len()
        invariant
            index <= left_bytes.len(),
            index <= right_bytes.len(),
            bytes_precede(left_bytes@, right_bytes@) == bytes_precede(
                left_bytes@.skip(index as int),
                right_bytes@.skip(index as int),
            ),
        ensures
            index == left_bytes.len() || index == right_bytes.len() || left_bytes@[index as int]
                != right_bytes@[index as int],
        decreases left_bytes.len() - index,
    {
        if left_bytes[index] != right_bytes[index] {
            break;
        }
        assert(left_bytes@.skip(index as int).drop_first() =~= left_bytes@.skip(index + 1));
        assert(right_bytes@.skip(index as int).drop_first() =~= right_bytes@.skip(index + 1));
        index += 1;
    }
    if index == right_bytes.len() {
        false
    } else if index == left_bytes.len() {
        true
    } else {
        left_bytes[index] < right_bytes[index]
    }
}

proof fn bytes_precede_is_a_strict_order(a: Seq<u8>, b: Seq<u8>, c: Seq<u8>)
    ensures
        !bytes_precede(a, a),
        bytes_precede(a, b) && bytes_precede(b, c) ==> bytes_precede(a, c),
        bytes_precede(a, b) ==> !bytes_precede(b, a),
        bytes_precede(a, b) || bytes_precede(b, a) || a == b,
    decreases a.len(),
{
    if a.len() > 0 {
        let rest_b = if b.len() > 0 {
            b.drop_first()
        } else {
            b
        };
        let rest_c = if c.len() > 0 {
            c.drop_first()
        } else {
            c
        };
        bytes_precede_is_a_strict_order(a.drop_first(), rest_b, rest_c);
        if b.len() > 0 && a[0] == b[0] && a.drop_first() == b.drop_first() {
            assert(a =~= seq![a[0]] + a.drop_first());
            assert(b =~= seq![b[0]] + b.drop_first());
        }
    } else if b.len() == 0 {
        assert(a =~= b);
    }
}

/// Texts are totally ordered: none precedes itself, precedence is transitive and goes one way only,
/// and of two different texts one precedes the other.
pub proof fn text_order_is_total(a: Seq<char>, b: Seq<char>, c: Seq<char>)
    ensures
        !text_precedes(a, a),
        text_precedes(a, b) && text_precedes(b, c) ==> text_precedes(a, c),
        text_precedes(a, b) ==> !text_precedes(b, a),
        a != b ==> text_precedes(a, b) || text_precedes(b, a),
{
    bytes_precede_is_a_strict_order(encode_utf8(a), encode_utf8(b), encode_utf8(c));
    vstd::utf8::encode_utf8_decode_utf8(a);
    vstd::utf8::encode_utf8_decode_utf8(b);
}

/// The number that decimal digits spell, read from the left.
pub open spec fn number_spelled_by(digits: Seq<char>) -> int
    decreases digits.len(),
{
    if digits.len() == 0 {
        0
    } else {
        number_spelled_by(digits.drop_last()) * 10 + (digits.last() as int - '0' as int)
    }
}

/// The decimal spelling of a number reads back as that number, consists of digits alone, and has no
/// zero in front unless it is the number zero. So different numbers are spelled differently.
pub proof fn a_decimal_spelling_reads_back(number: nat)
    ensures
        number_spelled_by(decimal_spelling(number)) == number,
        decimal_spelling(number).len() > 0,
        forall|i: int|
            0 <= i < decimal_spelling(number).len() ==> '0' <= #[trigger] decimal_spelling(number)[i]
                <= '9',
        number > 0 ==> decimal_spelling(number)[0] != '0',
    decreases number,
{
    let last = digit_character(number % 10);
    assert(last as int - '0' as int == number % 10);
    if number < 10 {
        let spelling = decimal_spelling(number);
        assert(spelling.drop_last() =~= Seq::empty());
        assert(number_spelled_by(spelling.drop_last()) == 0);
        assert(spelling.last() == last);
    } else {
        let front = decimal_spelling(number / 10);
        a_decimal_spelling_reads_back(number / 10);
        assert(decimal_spelling(number) == front.push(last));
        assert(front.push(last).drop_last() =~= front);
        assert(front.push(last).last() == last);
        assert(front.push(last)[0] == front[0]);
        assert forall|i: int| 0 <= i < decimal_spelling(number).len() implies '0'
            <= #[trigger] decimal_spelling(number)[i] <= '9' by {
            if i < front.len() {
                assert(decimal_spelling(number)[i] == front[i]);
            }
        }
    }
}

/// A negative number is spelled as its positive counterpart with a sign in front.
pub proof fn a_negative_number_is_spelled_with_a_sign(number: int)
    ensures
        number >= 0 ==> number_spelled_by(signed_decimal_spelling(number)) == number,
        number < 0 ==> {
            let spelling = signed_decimal_spelling(number);
            &&& spelling[0] == '-'
            &&& number_spelled_by(spelling.skip(1)) == -number
        },
{
    if number < 0 {
        a_decimal_spelling_reads_back((-number) as nat);
        assert(signed_decimal_spelling(number).skip(1) =~= decimal_spelling((-number) as nat));
    } else {
        a_decimal_spelling_reads_back(number as nat);
    }
}

/// What follows the first separator is the rest of the text: with what is in front, which holds no
/// separator, and the separator it is the whole text. There is nothing exactly where the text holds no
/// separator.
pub proof fn text_is_split_at_its_first_separator(text: Seq<char>, separator: char)
    ensures
        after_first(text, separator) is None <==> !text.contains(separator),
        after_first(text, separator) matches Some(rest) ==> {
            let place = text.len() - rest.len() - 1;
            &&& 0 <= place < text.len()
            &&& text[place] == separator
            &&& text.skip(place + 1) == rest
            &&& !text.take(place).contains(separator)
        },
    decreases text.len(),
{
    if text.len() > 0 {
        if text[0] == separator {
            assert(text.skip(1) =~= text.drop_first());
            assert(text.contains(separator));
        } else {
            let tail = text.drop_first();
            text_is_split_at_its_first_separator(tail, separator);
            match after_first(text, separator) {
                Some(rest) => {
                    let place = text.len() - rest.len() - 1;
                    assert(tail[place - 1] == text[place]);
                    assert(text.skip(place + 1) =~= tail.skip(place));
                    assert(text.contains(separator));
                    if text.take(place).contains(separator) {
                        let i = choose|i: int|
                            0 <= i < place && text.take(place)[i] == separator;
                        assert(tail.take(place - 1)[i - 1] == separator);
                    }
                },
                None => {
                    if text.contains(separator) {
                        let i = choose|i: int| 0 <= i < text.len() && text[i] == separator;
                        assert(tail[i - 1] == separator);
                    }
                },
            }
        }
    }
}

} // verus!
