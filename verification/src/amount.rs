//! Amounts: from an integer number of minor units to the text that a
//! connector expects, and back.

use vstd::prelude::*;
use vstd::string::*;
use crate::currency::Currency;
use crate::errors::ConnectorError;

verus! {

/// Why an amount could not be converted.
#[derive(Clone, Copy, Debug, PartialEq, Eq, Structural)]
pub enum ConversionError {
    /// The connector's unit cannot express amounts of the currency.
    UnsupportedCurrency,
    /// The text is not an amount of the currency in the connector's unit, or
    /// the amount does not fit in 64 bits.
    MalformedAmount,
}

/// The character of a decimal digit.
pub open spec fn digit_char(digit: nat) -> char {
    if digit == 0 {
        '0'
    } else if digit == 1 {
        '1'
    } else if digit == 2 {
        '2'
    } else if digit == 3 {
        '3'
    } else if digit == 4 {
        '4'
    } else if digit == 5 {
        '5'
    } else if digit == 6 {
        '6'
    } else if digit == 7 {
        '7'
    } else if digit == 8 {
        '8'
    } else {
        '9'
    }
}

/// Whether a character is a decimal digit.
pub open spec fn is_digit(c: char) -> bool {
    c == '0' || c == '1' || c == '2' || c == '3' || c == '4' || c == '5' || c == '6' || c == '7'
        || c == '8' || c == '9'
}

/// The value of a decimal digit; 0 for any other character.
pub open spec fn digit_value(c: char) -> nat {
    if c == '1' {
        1
    } else if c == '2' {
        2
    } else if c == '3' {
        3
    } else if c == '4' {
        4
    } else if c == '5' {
        5
    } else if c == '6' {
        6
    } else if c == '7' {
        7
    } else if c == '8' {
        8
    } else if c == '9' {
        9
    } else {
        0
    }
}

/// Whether every character of a text is a decimal digit.
pub open spec fn all_digits(text: Seq<char>) -> bool {
    forall|i: int| 0 <= i < text.len() ==> is_digit(#[trigger] text[i])
}

/// The number that a text of digits writes in base ten.
pub open spec fn digits_value(text: Seq<char>) -> nat
    decreases text.len(),
{
    if text.len() == 0 {
        0
    } else {
        digits_value(text.drop_last()) * 10 + digit_value(text.last())
    }
}

/// Ten to the power `exponent`.
pub open spec fn pow10(exponent: nat) -> nat
    decreases exponent,
{
    if exponent == 0 {
        1
    } else {
        10 * pow10((exponent - 1) as nat)
    }
}

/// A natural number in base ten, without leading zeros.
pub open spec fn nat_text(n: nat) -> Seq<char>
    decreases n,
{
    if n < 10 {
        seq![digit_char(n)]
    } else {
        nat_text(n / 10).push(digit_char(n % 10))
    }
}

/// The last `width` digits of a natural number, with leading zeros.
pub open spec fn padded_text(n: nat, width: nat) -> Seq<char>
    decreases width,
{
    if width == 0 {
        Seq::empty()
    } else {
        padded_text(n / 10, (width - 1) as nat).push(digit_char(n % 10))
    }
}

/// The magnitude of an integer.
pub open spec fn magnitude(amount: int) -> nat {
    if amount < 0 {
        (-amount) as nat
    } else {
        amount as nat
    }
}

/// The sign that an amount is written with: `-` for a negative one, nothing
/// otherwise.
pub open spec fn sign_text(amount: int) -> Seq<char> {
    if amount < 0 {
        seq!['-']
    } else {
        Seq::empty()
    }
}

/// An amount of minor units written in major units with `exponent` decimals:
/// the sign, the whole units, and for a positive exponent a point and
/// exactly `exponent` digits. With exponent 2, 1000 is `10.00` and -5 is
/// `-0.05`.
pub open spec fn major_unit_text(amount: int, exponent: nat) -> Seq<char> {
    let size = magnitude(amount);
    if exponent == 0 {
        sign_text(amount) + nat_text(size)
    } else {
        sign_text(amount) + nat_text(size / pow10(exponent)) + seq!['.'] + padded_text(
            size % pow10(exponent),
            exponent,
        )
    }
}

/// An amount of minor units written as an integer.
pub open spec fn minor_unit_text(amount: int) -> Seq<char> {
    major_unit_text(amount, 0)
}

/// The amount of minor units that a text in major units with `exponent`
/// decimals stands for: an optional `-`, digits, and for a positive exponent
/// a point followed by exactly `exponent` digits. `None` for any other text.
pub open spec fn parse_major_unit(text: Seq<char>, exponent: nat) -> Option<int> {
    let negative = text.len() > 0 && text[0] == '-';
    let body = if negative {
        text.skip(1)
    } else {
        text
    };
    if exponent == 0 {
        if body.len() >= 1 && all_digits(body) {
            Some(signed(negative, digits_value(body)))
        } else {
            None
        }
    } else {
        let point = body.len() - exponent - 1;
        if point >= 1 && body[point] == '.' && all_digits(body.take(point)) && all_digits(
            body.skip(point + 1),
        ) {
            Some(signed(negative, digits_value(body.take(point) + body.skip(point + 1))))
        } else {
            None
        }
    }
}

/// A magnitude with its sign.
pub open spec fn signed(negative: bool, size: nat) -> int {
    if negative {
        -(size as int)
    } else {
        size as int
    }
}

/// The number of decimals with which the major-unit text of a currency is
/// written; `None` for a currency that this unit cannot express, which is one
/// with four decimals.
pub open spec fn major_unit_exponent(currency: Currency) -> Option<nat> {
    if currency.spec_is_four_decimal_currency() {
        None
    } else {
        Some(currency.spec_number_of_digits_after_decimal_point())
    }
}

/// An amount in major units as decimal text, such as `10.00`.
#[derive(Clone, Debug, PartialEq, Eq)]
pub struct StringMajorUnit {
    value: String,
}

/// An amount in minor units as text, such as `1000`.
#[derive(Clone, Debug, PartialEq, Eq)]
pub struct StringMinorUnit {
    value: String,
}

impl View for StringMajorUnit {
    type V = Seq<char>;

    closed spec fn view(&self) -> Seq<char> {
        self.value@
    }
}

impl View for StringMinorUnit {
    type V = Seq<char>;

    closed spec fn view(&self) -> Seq<char> {
        self.value@
    }
}

impl StringMajorUnit {
    /// Takes `value` as an amount in major units.
    pub fn new(value: String) -> (result: StringMajorUnit)
        ensures
            result@ == value@,
    {
        StringMajorUnit { value }
    }

    /// Returns the text of the amount.
    pub fn get_amount_as_string(&self) -> (result: String)
        ensures
            result@ == self@,
    {
        self.value.clone()
    }

    /// Copies the amount.
    pub fn duplicate(&self) -> (result: StringMajorUnit)
        ensures
            result@ == self@,
    {
        StringMajorUnit { value: self.value.clone() }
    }
}

impl StringMinorUnit {
    /// Takes `value` as an amount in minor units.
    pub fn new(value: String) -> (result: StringMinorUnit)
        ensures
            result@ == value@,
    {
        StringMinorUnit { value }
    }

    /// Returns the text of the amount.
    pub fn get_amount_as_string(&self) -> (result: String)
        ensures
            result@ == self@,
    {
        self.value.clone()
    }

    /// Copies the amount.
    pub fn duplicate(&self) -> (result: StringMinorUnit)
        ensures
            result@ == self@,
    {
        StringMinorUnit { value: self.value.clone() }
    }
}

/// Every text of digits with a digit added is a text of digits.
pub proof fn lemma_all_digits_push(text: Seq<char>, digit: nat)
    requires
        all_digits(text),
        digit < 10,
    ensures
        all_digits(text.push(digit_char(digit))),
        digits_value(text.push(digit_char(digit))) == digits_value(text) * 10 + digit,
{
    let pushed = text.push(digit_char(digit));
    assert(pushed.drop_last() =~= text);
    assert(pushed.last() == digit_char(digit));
    assert forall|i: int| 0 <= i < pushed.len() implies is_digit(#[trigger] pushed[i]) by {
        if i < text.len() {
            assert(pushed[i] == text[i]);
        }
    }
}

/// The text of a natural number is made of digits, is not empty, and writes
/// that number.
pub proof fn lemma_nat_text(n: nat)
    ensures
        all_digits(nat_text(n)),
        nat_text(n).len() >= 1,
        digits_value(nat_text(n)) == n,
    decreases n,
{
    if n < 10 {
        let text = seq![digit_char(n)];
        assert(text.drop_last() =~= Seq::<char>::empty());
        assert(text.last() == digit_char(n));
        assert(digits_value(text.drop_last()) == 0);
        assert(digits_value(text) == digits_value(text.drop_last()) * 10 + digit_value(
            text.last(),
        ));
        assert forall|i: int| 0 <= i < text.len() implies is_digit(#[trigger] text[i]) by {
            assert(text[i] == digit_char(n));
        }
    } else {
        lemma_nat_text(n / 10);
        lemma_all_digits_push(nat_text(n / 10), n % 10);
    }
}

/// The padded text of a number has the width asked for, is made of digits,
/// and writes the number modulo ten to the width.
pub proof fn lemma_padded_text(n: nat, width: nat)
    ensures
        all_digits(padded_text(n, width)),
        padded_text(n, width).len() == width,
        digits_value(padded_text(n, width)) == n % pow10(width),
    decreases width,
{
    if width == 0 {
        assert(pow10(0) == 1);
    } else {
        let rest = (width - 1) as nat;
        lemma_padded_text(n / 10, rest);
        lemma_all_digits_push(padded_text(n / 10, rest), n % 10);
        lemma_pow10_positive(rest);
        let p = pow10(rest);
        assert(pow10(width) == 10 * p);
        assert(((n / 10) % p) * 10 + n % 10 == n % (10 * p)) by (nonlinear_arith)
            requires
                p > 0,
        ;
    }
}

/// A power of ten is positive.
pub proof fn lemma_pow10_positive(exponent: nat)
    ensures
        pow10(exponent) > 0,
    decreases exponent,
{
    if exponent > 0 {
        lemma_pow10_positive((exponent - 1) as nat);
    }
}

/// Writing two texts of digits one after the other shifts the first by the
/// length of the second.
pub proof fn lemma_digits_value_concat(front: Seq<char>, back: Seq<char>)
    ensures
        digits_value(front + back) == digits_value(front) * pow10(back.len()) + digits_value(back),
    decreases back.len(),
{
    if back.len() == 0 {
        assert(front + back =~= front);
        assert(pow10(0) == 1);
    } else {
        let whole = front + back;
        assert(whole.drop_last() =~= front + back.drop_last());
        assert(whole.last() == back.last());
        lemma_digits_value_concat(front, back.drop_last());
        let shorter = pow10(back.drop_last().len());
        assert(pow10(back.len()) == 10 * shorter);
        let a = digits_value(front);
        let b = digits_value(back.drop_last());
        let d = digit_value(back.last());
        assert((a * shorter + b) * 10 + d == a * (10 * shorter) + (b * 10 + d))
            by (nonlinear_arith);
    }
}

/// Reading back what was written gives the amount: for every amount and
/// every number of decimals, the text of the amount parses to the amount.
pub proof fn lemma_major_unit_round_trip(amount: int, exponent: nat)
    ensures
        parse_major_unit(major_unit_text(amount, exponent), exponent) == Some(amount),
{
    let size = magnitude(amount);
    let text = major_unit_text(amount, exponent);
    let negative = text.len() > 0 && text[0] == '-';
    lemma_pow10_positive(exponent);
    let p = pow10(exponent);
    let whole = if exponent == 0 {
        size
    } else {
        size / p
    };
    lemma_nat_text(whole);
    let front = nat_text(whole);
    assert(is_digit(front[0]));
    let unsigned = if exponent == 0 {
        front
    } else {
        front + seq!['.'] + padded_text(size % p, exponent)
    };
    assert(text =~= sign_text(amount) + unsigned);
    assert(unsigned[0] == front[0]);
    if amount < 0 {
        assert(text[0] == '-');
        assert(text.skip(1) =~= unsigned);
    } else {
        assert(text =~= unsigned);
        assert(text[0] != '-');
    }
    assert(negative == (amount < 0));
    let body = if negative {
        text.skip(1)
    } else {
        text
    };
    assert(body =~= unsigned);
    if exponent == 0 {
        assert(signed(negative, digits_value(body)) == amount);
    } else {
        let back = padded_text(size % p, exponent);
        lemma_padded_text(size % p, exponent);
        let point = body.len() - exponent - 1;
        assert(point == front.len());
        assert(body[point] == '.');
        assert(body.take(point) =~= front);
        assert(body.skip(point + 1) =~= back);
        lemma_digits_value_concat(front, back);
        assert((size % p) % p == size % p) by (nonlinear_arith)
            requires
                p > 0,
        ;
        assert((size / p) * p + size % p == size) by (nonlinear_arith)
            requires
                p > 0,
        ;
        assert(digits_value(front + back) == size);
        assert(signed(negative, size) == amount);
    }
}

/// The largest magnitude of an amount that fits in 64 bits: that of the
/// smallest one.
pub open spec fn magnitude_limit() -> nat {
    0x8000_0000_0000_0000
}

/// What converting `amount` of `currency` to major-unit text gives.
pub open spec fn major_unit_conversion(amount: i64, currency: Currency) -> Result<
    Seq<char>,
    ConversionError,
> {
    match major_unit_exponent(currency) {
        Some(exponent) => Ok(major_unit_text(amount as int, exponent)),
        None => Err(ConversionError::UnsupportedCurrency),
    }
}

/// The amount that a parsed text gives: the number read where there is one
/// and it fits in 64 bits.
pub open spec fn checked_amount(parsed: Option<int>) -> Result<i64, ConversionError> {
    match parsed {
        Some(value) => if i64::MIN <= value <= i64::MAX {
            Ok(value as i64)
        } else {
            Err(ConversionError::MalformedAmount)
        },
        None => Err(ConversionError::MalformedAmount),
    }
}

/// What reading the major-unit text `text` of `currency` gives.
pub open spec fn major_unit_reading(text: Seq<char>, currency: Currency) -> Result<
    i64,
    ConversionError,
> {
    match major_unit_exponent(currency) {
        Some(exponent) => checked_amount(parse_major_unit(text, exponent)),
        None => Err(ConversionError::UnsupportedCurrency),
    }
}

/// What reading the minor-unit text `text` gives.
pub open spec fn minor_unit_reading(text: Seq<char>) -> Result<i64, ConversionError> {
    checked_amount(parse_major_unit(text, 0))
}

/// Conversion to major-unit text loses nothing: for every amount and every
/// currency that the unit can express, reading the converted text gives the
/// amount back.
pub proof fn lemma_major_unit_conversion_round_trips(amount: i64, currency: Currency)
    requires
        major_unit_conversion(amount, currency) is Ok,
    ensures
        major_unit_reading(major_unit_conversion(amount, currency)->Ok_0, currency) == Ok::<
            i64,
            ConversionError,
        >(amount),
{
    lemma_major_unit_round_trip(amount as int, major_unit_exponent(currency)->Some_0);
}

/// Conversion to minor-unit text loses nothing: for every amount, reading
/// the converted text gives the amount back.
pub proof fn lemma_minor_unit_conversion_round_trips(amount: i64)
    ensures
        minor_unit_reading(minor_unit_text(amount as int)) == Ok::<i64, ConversionError>(amount),
{
    lemma_major_unit_round_trip(amount as int, 0);
}

fn digit_text(digit: u8) -> (result: &'static str)
    requires
        digit < 10,
    ensures
        result@ == seq![digit_char(digit as nat)],
{
    proof {
        reveal_strlit("0");
        reveal_strlit("1");
        reveal_strlit("2");
        reveal_strlit("3");
        reveal_strlit("4");
        reveal_strlit("5");
        reveal_strlit("6");
        reveal_strlit("7");
        reveal_strlit("8");
        reveal_strlit("9");
    }
    let text = if digit == 0 {
        "0"
    } else if digit == 1 {
        "1"
    } else if digit == 2 {
        "2"
    } else if digit == 3 {
        "3"
    } else if digit == 4 {
        "4"
    } else if digit == 5 {
        "5"
    } else if digit == 6 {
        "6"
    } else if digit == 7 {
        "7"
    } else if digit == 8 {
        "8"
    } else {
        "9"
    };
    assert(text@ =~= seq![digit_char(digit as nat)]);
    text
}

fn nat_to_text(n: u64) -> (result: String)
    ensures
        result@ == nat_text(n as nat),
    decreases n,
{
    if n < 10 {
        String::from_str(digit_text(n as u8))
    } else {
        let mut text = nat_to_text(n / 10);
        text.append(digit_text((n % 10) as u8));
        assert(text@ =~= nat_text((n / 10) as nat).push(digit_char((n % 10) as nat)));
        text
    }
}

fn padded_to_text(n: u64, width: u8) -> (result: String)
    ensures
        result@ == padded_text(n as nat, width as nat),
    decreases width,
{
    if width == 0 {
        String::new()
    } else {
        let mut text = padded_to_text(n / 10, width - 1);
        text.append(digit_text((n % 10) as u8));
        assert(text@ =~= padded_text((n / 10) as nat, (width - 1) as nat).push(
            digit_char((n % 10) as nat),
        ));
        text
    }
}

fn power_of_ten(exponent: u8) -> (result: u64)
    requires
        exponent <= 4,
    ensures
        result == pow10(exponent as nat),
        result > 0,
{
    proof {
        reveal_with_fuel(pow10, 6);
    }
    if exponent == 0 {
        1
    } else if exponent == 1 {
        10
    } else if exponent == 2 {
        100
    } else if exponent == 3 {
        1000
    } else {
        10000
    }
}

fn magnitude_of(amount: i64) -> (result: u64)
    ensures
        result == magnitude(amount as int),
{
    if amount >= 0 {
        amount as u64
    } else {
        ((-(amount + 1)) as u64) + 1
    }
}

fn to_major_unit_text(amount: i64, exponent: u8) -> (result: String)
    requires
        exponent <= 4,
    ensures
        result@ == major_unit_text(amount as int, exponent as nat),
{
    proof {
        reveal_strlit("-");
        reveal_strlit(".");
    }
    let size = magnitude_of(amount);
    let mut text = String::new();
    if amount < 0 {
        text.append("-");
    }
    assert(text@ =~= sign_text(amount as int));
    if exponent == 0 {
        let whole = nat_to_text(size);
        text.append(whole.as_str());
    } else {
        let unit = power_of_ten(exponent);
        let whole = nat_to_text(size / unit);
        let fraction = padded_to_text(size % unit, exponent);
        text.append(whole.as_str());
        text.append(".");
        text.append(fraction.as_str());
        assert("."@ =~= seq!['.']);
    }
    assert(text@ =~= major_unit_text(amount as int, exponent as nat));
    text
}

fn digit_of(c: char) -> (result: Option<u8>)
    ensures
        match result {
            Some(digit) => is_digit(c) && digit == digit_value(c) && digit < 10,
            None => !is_digit(c),
        },
{
    if c == '0' {
        Some(0)
    } else if c == '1' {
        Some(1)
    } else if c == '2' {
        Some(2)
    } else if c == '3' {
        Some(3)
    } else if c == '4' {
        Some(4)
    } else if c == '5' {
        Some(5)
    } else if c == '6' {
        Some(6)
    } else if c == '7' {
        Some(7)
    } else if c == '8' {
        Some(8)
    } else if c == '9' {
        Some(9)
    } else {
        None
    }
}

/// A text of digits writes at least what its beginning writes.
proof fn lemma_digits_value_grows(front: Seq<char>, back: Seq<char>)
    ensures
        digits_value(front + back) >= digits_value(front),
{
    lemma_digits_value_concat(front, back);
    lemma_pow10_positive(back.len());
    let a = digits_value(front);
    let p = pow10(back.len());
    assert(a * p >= a) by (nonlinear_arith)
        requires
            p >= 1,
    ;
}

/// Reads the digits of `text` from `from` up to `to` behind those that gave
/// `start`. `None` where a character is no digit or the number passes the
/// limit.
fn read_digits(text: &str, from: usize, to: usize, start: u64) -> (result: Option<u64>)
    requires
        from <= to <= text@.len(),
        start <= magnitude_limit(),
    ensures
        match result {
            Some(value) => all_digits(text@.subrange(from as int, to as int)) && value == start
                * pow10((to - from) as nat) + digits_value(text@.subrange(from as int, to as int))
                && value <= magnitude_limit(),
            None => !all_digits(text@.subrange(from as int, to as int)) || start * pow10(
                (to - from) as nat,
            ) + digits_value(text@.subrange(from as int, to as int)) > magnitude_limit(),
        },
{
    let ghost whole = text@.subrange(from as int, to as int);
    let mut value = start;
    let mut index = from;
    proof {
        assert(text@.subrange(from as int, from as int) =~= Seq::<char>::empty());
        assert(pow10(0) == 1);
        assert(digits_value(Seq::<char>::empty()) == 0);
        assert(start * pow10(0) == start) by (nonlinear_arith)
            requires
                pow10(0) == 1,
        ;
    }
    while index < to
        invariant
            from <= index <= to <= text@.len(),
            whole == text@.subrange(from as int, to as int),
            all_digits(text@.subrange(from as int, index as int)),
            value == start * pow10((index - from) as nat) + digits_value(
                text@.subrange(from as int, index as int),
            ),
            value <= magnitude_limit(),
        decreases to - index,
    {
        let c = text.get_char(index);
        let ghost seen = text@.subrange(from as int, index as int);
        let ghost next = text@.subrange(from as int, index + 1);
        let ghost rest = text@.subrange(index + 1, to as int);
        proof {
            assert(next =~= seen.push(c));
            assert(next.drop_last() =~= seen);
            assert(whole =~= next + rest);
            assert(pow10((index + 1 - from) as nat) == 10 * pow10((index - from) as nat));
        }
        let digit = match digit_of(c) {
            Some(digit) => digit,
            None => {
                proof {
                    assert(whole[index - from] == c);
                }
                return None;
            },
        };
        proof {
            assert(digits_value(next) == digits_value(seen) * 10 + digit);
            let a = start as int;
            let p = pow10((index - from) as nat) as int;
            let b = digits_value(seen) as int;
            assert((a * p + b) * 10 + digit == a * (10 * p) + (b * 10 + digit))
                by (nonlinear_arith);
            assert forall|i: int| 0 <= i < next.len() implies is_digit(#[trigger] next[i]) by {
                if i < seen.len() {
                    assert(next[i] == seen[i]);
                }
            }
        }
        if value > (0x8000_0000_0000_0000u64 - digit as u64) / 10 {
            proof {
                let grown = (value * 10 + digit) as nat;
                assert(grown > magnitude_limit());
                assert(grown == start * pow10((index + 1 - from) as nat) + digits_value(next));
                lemma_digits_value_concat(next, rest);
                lemma_pow10_positive(rest.len());
                lemma_pow10_sum((index + 1 - from) as nat, rest.len());
                let a = start as int;
                let q = pow10((index + 1 - from) as nat) as int;
                let r = pow10(rest.len()) as int;
                let n = digits_value(next) as int;
                let m = digits_value(rest) as int;
                assert(a * (q * r) + (n * r + m) >= a * q + n) by (nonlinear_arith)
                    requires
                        r >= 1,
                        a >= 0,
                        q >= 0,
                        n >= 0,
                        m >= 0,
                ;
            }
            return None;
        }
        value = value * 10 + digit as u64;
        index += 1;
    }
    proof {
        assert(text@.subrange(from as int, index as int) =~= whole);
    }
    Some(value)
}

/// Powers of ten multiply as their exponents add.
proof fn lemma_pow10_sum(a: nat, b: nat)
    ensures
        pow10(a + b) == pow10(a) * pow10(b),
    decreases b,
{
    if b == 0 {
        assert(pow10(0) == 1);
    } else {
        lemma_pow10_sum(a, (b - 1) as nat);
        let x = pow10(a) as int;
        let y = pow10((b - 1) as nat) as int;
        assert(pow10(a + b) == 10 * pow10((a + b - 1) as nat));
        assert(10 * (x * y) == x * (10 * y)) by (nonlinear_arith);
    }
}

fn with_sign(negative: bool, size: u64) -> (result: Option<i64>)
    requires
        size <= magnitude_limit(),
    ensures
        checked_amount(Some(signed(negative, size as nat))) == match result {
            Some(value) => Ok::<i64, ConversionError>(value),
            None => Err::<i64, ConversionError>(ConversionError::MalformedAmount),
        },
{
    if negative {
        if size == 0x8000_0000_0000_0000u64 {
            Some(i64::MIN)
        } else {
            Some(-(size as i64))
        }
    } else if size > 0x7fff_ffff_ffff_ffffu64 {
        None
    } else {
        Some(size as i64)
    }
}

fn parse_major_unit_text(text: &str, exponent: u8) -> (result: Result<i64, ConversionError>)
    requires
        exponent <= 4,
    ensures
        result == checked_amount(parse_major_unit(text@, exponent as nat)),
{
    let length = text.unicode_len();
    if length == 0 {
        return Err(ConversionError::MalformedAmount);
    }
    let negative = text.get_char(0) == '-';
    let start: usize = if negative {
        1
    } else {
        0
    };
    let ghost body = if negative {
        text@.skip(1)
    } else {
        text@
    };
    proof {
        assert(body =~= text@.subrange(start as int, length as int));
    }
    if exponent == 0 {
        if length - start < 1 {
            return Err(ConversionError::MalformedAmount);
        }
        match read_digits(text, start, length, 0) {
            Some(size) => match with_sign(negative, size) {
                Some(value) => Ok(value),
                None => Err(ConversionError::MalformedAmount),
            },
            None => Err(ConversionError::MalformedAmount),
        }
    } else {
        if length - start < exponent as usize + 2 {
            return Err(ConversionError::MalformedAmount);
        }
        let point = length - exponent as usize - 1;
        let ghost front = text@.subrange(start as int, point as int);
        let ghost back = text@.subrange(point + 1, length as int);
        proof {
            assert(body[point - start] == text@[point as int]);
            assert(body.take(point - start) =~= front);
            assert(body.skip(point - start + 1) =~= back);
            lemma_digits_value_concat(front, back);
            lemma_digits_value_grows(front, back);
        }
        if text.get_char(point) != '.' {
            return Err(ConversionError::MalformedAmount);
        }
        let whole = match read_digits(text, start, point, 0) {
            Some(whole) => whole,
            None => {
                return Err(ConversionError::MalformedAmount);
            },
        };
        match read_digits(text, point + 1, length, whole) {
            Some(size) => match with_sign(negative, size) {
                Some(value) => Ok(value),
                None => Err(ConversionError::MalformedAmount),
            },
            None => Err(ConversionError::MalformedAmount),
        }
    }
}

/// The converter of a connector that takes amounts in major units as decimal
/// text.
#[derive(Clone, Copy, Debug, PartialEq, Eq, Structural)]
pub struct StringMajorUnitForConnector;

/// The converter of a connector that takes amounts in minor units as text.
#[derive(Clone, Copy, Debug, PartialEq, Eq, Structural)]
pub struct StringMinorUnitForConnector;

impl StringMajorUnitForConnector {
    /// Writes `amount`, a number of minor units of `currency`, in major
    /// units. Fails with `UnsupportedCurrency` for a currency with four
    /// decimals, and for no other.
    pub fn convert(&self, amount: i64, currency: Currency) -> (result: Result<
        StringMajorUnit,
        ConversionError,
    >)
        ensures
            match (result, major_unit_conversion(amount, currency)) {
                (Ok(text), Ok(wanted)) => text@ == wanted,
                (Err(error), Err(wanted)) => error == wanted,
                _ => false,
            },
    {
        if currency.is_four_decimal_currency() {
            return Err(ConversionError::UnsupportedCurrency);
        }
        let exponent = currency.number_of_digits_after_decimal_point();
        Ok(StringMajorUnit::new(to_major_unit_text(amount, exponent)))
    }

    /// Reads `amount`, a major-unit text of `currency`, as a number of minor
    /// units.
    pub fn convert_back(&self, amount: &StringMajorUnit, currency: Currency) -> (result: Result<
        i64,
        ConversionError,
    >)
        ensures
            result == major_unit_reading(amount@, currency),
    {
        if currency.is_four_decimal_currency() {
            return Err(ConversionError::UnsupportedCurrency);
        }
        let exponent = currency.number_of_digits_after_decimal_point();
        let text = amount.get_amount_as_string();
        parse_major_unit_text(text.as_str(), exponent)
    }
}

impl StringMinorUnitForConnector {
    /// Writes `amount`, a number of minor units, as text. Every currency can
    /// be expressed.
    pub fn convert(&self, amount: i64, currency: Currency) -> (result: Result<
        StringMinorUnit,
        ConversionError,
    >)
        ensures
            result matches Ok(text) && text@ == minor_unit_text(amount as int),
    {
        Ok(StringMinorUnit::new(to_major_unit_text(amount, 0)))
    }

    /// Reads `amount`, a minor-unit text, as a number of minor units.
    pub fn convert_back(&self, amount: &StringMinorUnit, currency: Currency) -> (result: Result<
        i64,
        ConversionError,
    >)
        ensures
            result == minor_unit_reading(amount@),
    {
        let text = amount.get_amount_as_string();
        parse_major_unit_text(text.as_str(), 0)
    }
}

/// The failure of the connector layer that a conversion failure becomes.
pub open spec fn conversion_failure(error: ConversionError) -> ConnectorError {
    match error {
        ConversionError::UnsupportedCurrency => ConnectorError::UnsupportedCurrency,
        ConversionError::MalformedAmount => ConnectorError::AmountConversionFailed,
    }
}

/// Converts `amount` of `currency` with the major-unit converter, for use in
/// a request.
pub fn convert_amount(
    converter: &StringMajorUnitForConnector,
    amount: i64,
    currency: Currency,
) -> (result: Result<StringMajorUnit, ConnectorError>)
    ensures
        match (result, major_unit_conversion(amount, currency)) {
            (Ok(text), Ok(wanted)) => text@ == wanted,
            (Err(error), Err(wanted)) => error == conversion_failure(wanted),
            _ => false,
        },
{
    match converter.convert(amount, currency) {
        Ok(text) => Ok(text),
        Err(ConversionError::UnsupportedCurrency) => Err(ConnectorError::UnsupportedCurrency),
        Err(ConversionError::MalformedAmount) => Err(ConnectorError::AmountConversionFailed),
    }
}

/// Converts `amount` with the minor-unit converter, for use in a request.
pub fn convert_minor_amount(
    converter: &StringMinorUnitForConnector,
    amount: i64,
    currency: Currency,
) -> (result: Result<StringMinorUnit, ConnectorError>)
    ensures
        result matches Ok(text) && text@ == minor_unit_text(amount as int),
{
    match converter.convert(amount, currency) {
        Ok(text) => Ok(text),
        Err(ConversionError::UnsupportedCurrency) => Err(ConnectorError::UnsupportedCurrency),
        Err(ConversionError::MalformedAmount) => Err(ConnectorError::AmountConversionFailed),
    }
}

} // verus!
