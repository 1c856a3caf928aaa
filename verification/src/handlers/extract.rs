//! Typed values out of the text of a request: numbers from pieces of the
//! path, text from bytes, required fields from the query.

use crate::error::{ServiceError, ServiceErrorView};
use vstd::prelude::*;
use vstd::string::StringExecFns;
use vstd::utf8::{decode_utf8, valid_utf8};

verus! {

/// The byte of the sign `+`.
pub const PLUS: u8 = 43;

/// The byte of the sign `-`.
pub const MINUS: u8 = 45;

/// Whether a byte is one of the digits `0` to `9`.
pub open spec fn is_digit(byte: u8) -> bool {
    48 <= byte <= 57
}

/// Whether a text is made of digits only.
pub open spec fn all_digits(text: Seq<u8>) -> bool {
    forall|i: int| 0 <= i < text.len() ==> is_digit(#[trigger] text[i])
}

/// The number that a text of digits spells in base ten.
pub open spec fn digits_value(digits: Seq<u8>) -> nat
    decreases digits.len(),
{
    if digits.len() == 0 {
        0
    } else {
        digits_value(digits.drop_last()) * 10 + (digits.last() - 48) as nat
    }
}

/// The integer that a text spells: an optional sign, `-` only where
/// `signed`, and then at least one digit and nothing else. No spaces, no
/// separators.
pub open spec fn number_of(text: Seq<u8>, signed: bool) -> Option<int> {
    let negative = signed && text.len() > 0 && text[0] == MINUS;
    let digits = if text.len() > 0 && (text[0] == PLUS || negative) {
        text.skip(1)
    } else {
        text
    };
    if digits.len() == 0 || !all_digits(digits) {
        None
    } else if negative {
        Some(-(digits_value(digits) as int))
    } else {
        Some(digits_value(digits) as int)
    }
}

/// The `i32` that a text spells; none where it spells no integer, or one
/// that an `i32` cannot hold.
pub open spec fn i32_of(text: Seq<u8>) -> Option<i32> {
    match number_of(text, true) {
        Some(value) => if i32::MIN <= value <= i32::MAX {
            Some(value as i32)
        } else {
            None
        },
        None => None,
    }
}

/// The `u32` that a text spells; none where it spells no integer, or one
/// that a `u32` cannot hold. A text that begins with `-` spells none.
pub open spec fn u32_of(text: Seq<u8>) -> Option<u32> {
    match number_of(text, false) {
        Some(value) => if value <= u32::MAX {
            Some(value as u32)
        } else {
            None
        },
        None => None,
    }
}

/// A text of digits spells at least what its beginning spells.
pub proof fn lemma_digits_value_grows(digits: Seq<u8>, count: int)
    requires
        0 <= count <= digits.len(),
    ensures
        digits_value(digits.take(count)) <= digits_value(digits),
    decreases digits.len(),
{
    if count == digits.len() {
        assert(digits.take(count) =~= digits);
    } else {
        lemma_digits_value_grows(digits.drop_last(), count);
        assert(digits.drop_last().take(count) =~= digits.take(count));
    }
}

/// The number that the digits spell, where it is at most `limit`.
fn magnitude(digits: &[u8], limit: u64) -> (value: Option<u64>)
    requires
        limit <= 0x1_0000_0000,
    ensures
        value == (if digits@.len() > 0 && all_digits(digits@) && digits_value(digits@) <= limit {
            Some(digits_value(digits@) as u64)
        } else {
            None
        }),
{
    if digits.len() == 0 {
        return None;
    }
    let mut total: u64 = 0;
    let mut i: usize = 0;
    assert(digits@.take(0) =~= Seq::<u8>::empty());
    while i < digits.len()
        invariant
            i <= digits.len(),
            limit <= 0x1_0000_0000,
            all_digits(digits@.take(i as int)),
            total == digits_value(digits@.take(i as int)),
            total <= limit,
        decreases digits.len() - i,
    {
        let byte = digits[i];
        let ghost longer = digits@.take(i + 1);
        assert(longer.drop_last() =~= digits@.take(i as int));
        assert(longer.last() == byte);
        if byte < 48 || byte > 57 {
            assert(!is_digit(digits@[i as int]));
            return None;
        }
        total = total * 10 + (byte - 48) as u64;
        if total > limit {
            proof {
                if all_digits(digits@) {
                    lemma_digits_value_grows(digits@, i + 1);
                }
            }
            return None;
        }
        assert(all_digits(longer)) by {
            assert forall|k: int| 0 <= k < longer.len() implies is_digit(#[trigger] longer[k]) by {
                if k < i {
                    assert(longer[k] == digits@.take(i as int)[k]);
                }
            }
        }
        i += 1;
    }
    assert(digits@.take(digits.len() as int) =~= digits@);
    Some(total)
}

/// Reads an `i32` in base ten: an optional sign and then digits.
pub fn parse_i32(text: &[u8]) -> (value: Option<i32>)
    ensures
        value == i32_of(text@),
{
    let negative = text.len() > 0 && text[0] == MINUS;
    let start: usize = if text.len() > 0 && (text[0] == PLUS || negative) {
        1
    } else {
        0
    };
    let digits = vstd::slice::slice_subrange(text, start, text.len());
    assert(digits@ =~= if start == 1 {
        text@.skip(1)
    } else {
        text@
    });
    if negative {
        match magnitude(digits, 0x8000_0000) {
            Some(size) => Some((0 - size as i64) as i32),
            None => None,
        }
    } else {
        match magnitude(digits, 0x7fff_ffff) {
            Some(size) => Some(size as i32),
            None => None,
        }
    }
}

/// Reads a `u32` in base ten: an optional `+` and then digits.
pub fn parse_u32(text: &[u8]) -> (value: Option<u32>)
    ensures
        value == u32_of(text@),
{
    let start: usize = if text.len() > 0 && text[0] == PLUS {
        1
    } else {
        0
    };
    let digits = vstd::slice::slice_subrange(text, start, text.len());
    assert(digits@ =~= if start == 1 {
        text@.skip(1)
    } else {
        text@
    });
    match magnitude(digits, 0xffff_ffff) {
        Some(size) => Some(size as u32),
        None => None,
    }
}

/// The text that answers a path whose id is not an `i32`.
pub open spec fn bad_id() -> Seq<char> {
    "the id in the path is not a 32-bit integer"@
}

/// The id of an employee from a piece of the path; a validation failure
/// where the piece does not spell an `i32`.
pub fn employee_id(piece: &[u8]) -> (result: Result<i32, ServiceError>)
    ensures
        match result {
            Ok(id) => i32_of(piece@) == Some(id),
            Err(error) => i32_of(piece@) is None && error@ == ServiceErrorView::Validation(
                bad_id(),
            ),
        },
{
    match parse_i32(piece) {
        Some(id) => Ok(id),
        None => Err(
            ServiceError::Validation(
                String::from_str("the id in the path is not a 32-bit integer"),
            ),
        ),
    }
}

/// `std::string::FromUtf8Error`, what `String::from_utf8` reports for bytes
/// that are not UTF-8.
#[verifier::external_type_specification]
#[verifier::external_body]
pub struct ExFromUtf8Error(std::string::FromUtf8Error);

/// `String::from_utf8`: the text that the bytes encode, where they are valid
/// UTF-8, and an error where they are not.
#[verifier::external_body]
fn utf8_text(bytes: Vec<u8>) -> (result: Result<String, std::string::FromUtf8Error>)
    ensures
        match result {
            Ok(text) => valid_utf8(bytes@) && text@ == decode_utf8(bytes@),
            Err(_) => !valid_utf8(bytes@),
        },
{
    String::from_utf8(bytes)
}

/// The text that the bytes encode in UTF-8; none where they encode none.
pub fn text_of(bytes: &[u8]) -> (text: Option<String>)
    ensures
        match text {
            Some(text) => valid_utf8(bytes@) && text@ == decode_utf8(bytes@),
            None => !valid_utf8(bytes@),
        },
{
    match utf8_text(vstd::slice::slice_to_vec(bytes)) {
        Ok(text) => Some(text),
        Err(_) => None,
    }
}

/// The character of a digit.
pub open spec fn digit_char(digit: nat) -> char {
    if digit == 0 {
        '0'
    } else if digit == 1 {
        '1'
    } else if digit == 2 {
        '2'
    } else if digit == 3 {
        '3'
    } else if digit == 4 {
        '4'
    } else if digit == 5 {
        '5'
    } else if digit == 6 {
        '6'
    } else if digit == 7 {
        '7'
    } else if digit == 8 {
        '8'
    } else {
        '9'
    }
}

/// A number written in base ten, without sign and without leading zeros.
pub open spec fn decimal(number: nat) -> Seq<char>
    decreases number,
{
    if number < 10 {
        seq![digit_char(number)]
    } else {
        decimal(number / 10).push(digit_char(number % 10))
    }
}

fn digit_text(digit: u32) -> (text: &'static str)
    requires
        digit < 10,
    ensures
        text@ == seq![digit_char(digit as nat)],
{
    proof {
        reveal_strlit("0");
        reveal_strlit("1");
        reveal_strlit("2");
        reveal_strlit("3");
        reveal_strlit("4");
        reveal_strlit("5");
        reveal_strlit("6");
        reveal_strlit("7");
        reveal_strlit("8");
        reveal_strlit("9");
    }
    let text = if digit == 0 {
        "0"
    } else if digit == 1 {
        "1"
    } else if digit == 2 {
        "2"
    } else if digit == 3 {
        "3"
    } else if digit == 4 {
        "4"
    } else if digit == 5 {
        "5"
    } else if digit == 6 {
        "6"
    } else if digit == 7 {
        "7"
    } else if digit == 8 {
        "8"
    } else {
        "9"
    };
    assert(text@ =~= seq![digit_char(digit as nat)]);
    text
}

/// Writes a number in base ten.
pub fn decimal_text(number: u32) -> (text: String)
    ensures
        text@ == decimal(number as nat),
    decreases number,
{
    if number < 10 {
        String::from_str(digit_text(number))
    } else {
        let mut text = decimal_text(number / 10);
        let last = digit_text(number % 10);
        text.append(last);
        assert(text@ =~= decimal(number as nat));
        text
    }
}

/// The fields of a query as mathematical values.
pub open spec fn fields_of(fields: Seq<(String, String)>) -> Seq<(Seq<char>, Seq<char>)> {
    Seq::new(fields.len(), |i: int| (fields[i].0@, fields[i].1@))
}

/// The fields that a query string spells, name and value decoded, in their
/// order; none where the string cannot be decoded. This is what
/// `serde_urlencoded` makes of the string.
pub uninterp spec fn decoded_fields(query: Seq<char>) -> Option<Seq<(Seq<char>, Seq<char>)>>;

/// `ntex::web::types::Query::from_query`, for a list of pairs: the fields of
/// the query string, as `serde_urlencoded` decodes them.
#[verifier::external_body]
fn decode_query(query: &str) -> (fields: Option<Vec<(String, String)>>)
    ensures
        match fields {
            Some(fields) => decoded_fields(query@) == Some(fields_of(fields@)),
            None => decoded_fields(query@) is None,
        },
{
    match ntex::web::types::Query::<Vec<(String, String)>>::from_query(query) {
        Ok(fields) => Some(fields.into_inner()),
        Err(_) => None,
    }
}

/// How many of the fields are called `name`.
pub open spec fn count_of(fields: Seq<(Seq<char>, Seq<char>)>, name: Seq<char>) -> nat
    decreases fields.len(),
{
    if fields.len() == 0 {
        0
    } else if fields.last().0 == name {
        count_of(fields.drop_last(), name) + 1
    } else {
        count_of(fields.drop_last(), name)
    }
}

/// The value of the first field called `name`, if there is one.
pub open spec fn field_value(fields: Seq<(Seq<char>, Seq<char>)>, name: Seq<char>) -> Option<
    Seq<char>,
>
    decreases fields.len(),
{
    if fields.len() == 0 {
        None
    } else {
        match field_value(fields.drop_last(), name) {
            Some(value) => Some(value),
            None => if fields.last().0 == name {
                Some(fields.last().1)
            } else {
                None
            },
        }
    }
}

/// The text that answers a query without the field `name`.
pub open spec fn missing_field(name: Seq<char>) -> Seq<char> {
    "missing field `"@ + name + "`"@
}

/// The text that answers a query with more than one field `name`.
pub open spec fn duplicate_field(name: Seq<char>) -> Seq<char> {
    "duplicate field `"@ + name + "`"@
}

/// The text that answers a query string that cannot be decoded.
pub open spec fn bad_query() -> Seq<char> {
    "the query string is malformed"@
}

/// The value of the one field called `name`: a query has to have the field,
/// and has to have it once. Other fields are passed over.
pub open spec fn required(fields: Seq<(Seq<char>, Seq<char>)>, name: Seq<char>) -> Result<
    Seq<char>,
    ServiceErrorView,
> {
    if count_of(fields, name) == 0 {
        Err(ServiceErrorView::Validation(missing_field(name)))
    } else if count_of(fields, name) > 1 {
        Err(ServiceErrorView::Validation(duplicate_field(name)))
    } else {
        Ok(field_value(fields, name).unwrap())
    }
}

/// The value that a query string gives to the required field `name`.
pub open spec fn required_in(query: Seq<char>, name: Seq<char>) -> Result<
    Seq<char>,
    ServiceErrorView,
> {
    match decoded_fields(query) {
        Some(fields) => required(fields, name),
        None => Err(ServiceErrorView::Validation(bad_query())),
    }
}

/// A field that occurs has a value.
pub proof fn lemma_counted_field_has_value(fields: Seq<(Seq<char>, Seq<char>)>, name: Seq<char>)
    ensures
        count_of(fields, name) > 0 <==> field_value(fields, name) is Some,
    decreases fields.len(),
{
    if fields.len() > 0 {
        lemma_counted_field_has_value(fields.drop_last(), name);
    }
}

/// The value of the one field called `name` among decoded fields.
pub fn required_field(fields: &Vec<(String, String)>, name: &str) -> (result: Result<
    String,
    ServiceError,
>)
    ensures
        match result {
            Ok(value) => required(fields_of(fields@), name@) == Ok::<Seq<char>, ServiceErrorView>(
                value@,
            ),
            Err(error) => required(fields_of(fields@), name@) == Err::<
                Seq<char>,
                ServiceErrorView,
            >(error@),
        },
{
    let wanted = String::from_str(name);
    let mut first: Option<String> = None;
    let mut count: usize = 0;
    let mut i: usize = 0;
    assert(fields_of(fields@).take(0) =~= Seq::<(Seq<char>, Seq<char>)>::empty());
    while i < fields.len()
        invariant
            i <= fields.len(),
            wanted@ == name@,
            count <= i,
            count == count_of(fields_of(fields@).take(i as int), name@),
            match first {
                Some(value) => field_value(fields_of(fields@).take(i as int), name@) == Some(
                    value@,
                ),
                None => field_value(fields_of(fields@).take(i as int), name@) is None,
            },
        decreases fields.len() - i,
    {
        let ghost longer = fields_of(fields@).take(i + 1);
        assert(longer.drop_last() =~= fields_of(fields@).take(i as int));
        assert(longer.last() == (fields@[i as int].0@, fields@[i as int].1@));
        if fields[i].0 == wanted {
            count += 1;
            if first.is_none() {
                first = Some(fields[i].1.clone());
            }
        }
        i += 1;
    }
    assert(fields_of(fields@).take(fields.len() as int) =~= fields_of(fields@));
    proof {
        lemma_counted_field_has_value(fields_of(fields@), name@);
    }
    if count > 1 {
        let mut text = String::from_str("duplicate field `");
        text.append(name);
        text.append("`");
        return Err(ServiceError::Validation(text));
    }
    match first {
        Some(value) => Ok(value),
        None => {
            let mut text = String::from_str("missing field `");
            text.append(name);
            text.append("`");
            Err(ServiceError::Validation(text))
        },
    }
}

/// The value that a query string gives to the required field `name`. A
/// string that cannot be decoded, or that has the field not at all or more
/// than once, is refused as malformed.
pub fn required_in_query(query: &str, name: &str) -> (result: Result<String, ServiceError>)
    ensures
        match result {
            Ok(value) => required_in(query@, name@) == Ok::<Seq<char>, ServiceErrorView>(value@),
            Err(error) => required_in(query@, name@) == Err::<Seq<char>, ServiceErrorView>(
                error@,
            ),
        },
{
    match decode_query(query) {
        Some(fields) => required_field(&fields, name),
        None => Err(ServiceError::Validation(String::from_str("the query string is malformed"))),
    }
}

} // verus!
