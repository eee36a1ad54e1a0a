use signed_connectors::amount::{
    convert_amount, convert_minor_amount, ConversionError, StringMajorUnit,
    StringMajorUnitForConnector, StringMinorUnit, StringMinorUnitForConnector,
};
use signed_connectors::currency::Currency;
use signed_connectors::errors::ConnectorError;

fn major(amount: i64, currency: Currency) -> String {
    StringMajorUnitForConnector.convert(amount, currency).unwrap().get_amount_as_string()
}

fn read_major(text: &str, currency: Currency) -> Result<i64, ConversionError> {
    StringMajorUnitForConnector.convert_back(&StringMajorUnit::new(text.to_string()), currency)
}

fn read_minor(text: &str) -> Result<i64, ConversionError> {
    StringMinorUnitForConnector
        .convert_back(&StringMinorUnit::new(text.to_string()), Currency::EUR)
}

#[test]
fn two_decimal_currency_is_written_with_two_decimals() {
    assert_eq!(major(1000, Currency::EUR), "10.00");
    assert_eq!(major(1, Currency::EUR), "0.01");
    assert_eq!(major(0, Currency::USD), "0.00");
    assert_eq!(major(123456789, Currency::SEK), "1234567.89");
    assert_eq!(major(99, Currency::DKK), "0.99");
    assert_eq!(major(100, Currency::NOK), "1.00");
}

#[test]
fn negative_amounts_keep_their_sign() {
    assert_eq!(major(-5, Currency::EUR), "-0.05");
    assert_eq!(major(-1000, Currency::EUR), "-10.00");
    assert_eq!(major(-7, Currency::JPY), "-7");
    assert_eq!(major(-1, Currency::KWD), "-0.001");
}

#[test]
fn zero_decimal_currency_is_written_whole() {
    assert_eq!(major(1000, Currency::JPY), "1000");
    assert_eq!(major(0, Currency::KRW), "0");
    assert_eq!(major(15, Currency::VND), "15");
}

#[test]
fn three_decimal_currency_is_written_with_three_decimals() {
    assert_eq!(major(1234, Currency::KWD), "1.234");
    assert_eq!(major(5, Currency::BHD), "0.005");
    assert_eq!(major(1000, Currency::TND), "1.000");
}

#[test]
fn extreme_amounts_are_written_exactly() {
    assert_eq!(major(i64::MAX, Currency::EUR), "92233720368547758.07");
    assert_eq!(major(i64::MIN, Currency::EUR), "-92233720368547758.08");
    assert_eq!(major(i64::MIN, Currency::JPY), "-9223372036854775808");
    assert_eq!(major(i64::MAX, Currency::OMR), "9223372036854775.807");
}

#[test]
fn four_decimal_currency_is_unsupported() {
    assert_eq!(
        StringMajorUnitForConnector.convert(1000, Currency::CLF),
        Err(ConversionError::UnsupportedCurrency)
    );
    assert_eq!(read_major("1.0000", Currency::CLF), Err(ConversionError::UnsupportedCurrency));
    assert_eq!(
        convert_amount(&StringMajorUnitForConnector, 1, Currency::CLF),
        Err(ConnectorError::UnsupportedCurrency)
    );
}

#[test]
fn minor_unit_converter_supports_every_currency() {
    let converter = StringMinorUnitForConnector;
    assert_eq!(converter.convert(1000, Currency::EUR).unwrap().get_amount_as_string(), "1000");
    assert_eq!(converter.convert(1000, Currency::CLF).unwrap().get_amount_as_string(), "1000");
    assert_eq!(converter.convert(-42, Currency::JPY).unwrap().get_amount_as_string(), "-42");
    assert_eq!(converter.convert(0, Currency::KWD).unwrap().get_amount_as_string(), "0");
    assert_eq!(
        convert_minor_amount(&converter, 250, Currency::USD).unwrap().get_amount_as_string(),
        "250"
    );
}

#[test]
fn conversion_round_trips() {
    let amounts = [
        0,
        1,
        -1,
        9,
        10,
        99,
        100,
        101,
        999,
        1000,
        1001,
        -5,
        -100,
        123456789,
        -987654321,
        i64::MAX,
        i64::MIN,
        i64::MAX - 1,
        i64::MIN + 1,
    ];
    let currencies =
        [Currency::EUR, Currency::USD, Currency::JPY, Currency::KWD, Currency::SEK, Currency::BIF];
    for currency in currencies {
        for amount in amounts {
            let text = StringMajorUnitForConnector.convert(amount, currency).unwrap();
            assert_eq!(StringMajorUnitForConnector.convert_back(&text, currency), Ok(amount));
            let minor = StringMinorUnitForConnector.convert(amount, currency).unwrap();
            assert_eq!(StringMinorUnitForConnector.convert_back(&minor, currency), Ok(amount));
        }
    }
}

#[test]
fn reading_accepts_the_written_form() {
    assert_eq!(read_major("10.00", Currency::EUR), Ok(1000));
    assert_eq!(read_major("-0.05", Currency::EUR), Ok(-5));
    assert_eq!(read_major("0010.00", Currency::EUR), Ok(1000));
    assert_eq!(read_major("1.234", Currency::KWD), Ok(1234));
    assert_eq!(read_major("1000", Currency::JPY), Ok(1000));
    assert_eq!(read_major("-0.00", Currency::EUR), Ok(0));
    assert_eq!(read_minor("1000"), Ok(1000));
    assert_eq!(read_minor("-9223372036854775808"), Ok(i64::MIN));
}

#[test]
fn reading_rejects_other_text() {
    for text in ["", "-", "10", "10.0", "10.000", ".00", "-.00", "1,00", "10.0a", "a0.00", "+1.00",
        " 1.00", "1.00 ", "1..00", "--1.00", "１.00"]
    {
        assert_eq!(read_major(text, Currency::EUR), Err(ConversionError::MalformedAmount), "{}", text);
    }
    for text in ["", "-", "1.0", "1e3", "0x10", "12a", " 1"] {
        assert_eq!(read_major(text, Currency::JPY), Err(ConversionError::MalformedAmount), "{}", text);
        assert_eq!(read_minor(text), Err(ConversionError::MalformedAmount), "{}", text);
    }
    assert_eq!(read_major("1.23", Currency::KWD), Err(ConversionError::MalformedAmount));
}

#[test]
fn reading_rejects_amounts_beyond_64_bits() {
    assert_eq!(read_minor("9223372036854775807"), Ok(i64::MAX));
    assert_eq!(read_minor("9223372036854775808"), Err(ConversionError::MalformedAmount));
    assert_eq!(read_minor("-9223372036854775809"), Err(ConversionError::MalformedAmount));
    assert_eq!(read_minor("99999999999999999999999999"), Err(ConversionError::MalformedAmount));
    assert_eq!(
        read_major("92233720368547758.08", Currency::EUR),
        Err(ConversionError::MalformedAmount)
    );
    assert_eq!(read_major("92233720368547758.07", Currency::EUR), Ok(i64::MAX));
    assert_eq!(read_major("-92233720368547758.08", Currency::EUR), Ok(i64::MIN));
    assert_eq!(
        read_major("000000000000000000000000000000000001.00", Currency::EUR),
        Ok(100)
    );
}

#[test]
fn currency_decimals_and_codes() {
    assert_eq!(Currency::EUR.number_of_digits_after_decimal_point(), 2);
    assert_eq!(Currency::JPY.number_of_digits_after_decimal_point(), 0);
    assert_eq!(Currency::KWD.number_of_digits_after_decimal_point(), 3);
    assert_eq!(Currency::CLF.number_of_digits_after_decimal_point(), 4);
    assert!(Currency::JPY.is_zero_decimal_currency());
    assert!(!Currency::EUR.is_zero_decimal_currency());
    assert!(Currency::BHD.is_three_decimal_currency());
    assert!(!Currency::EUR.is_three_decimal_currency());
    assert!(Currency::CLF.is_four_decimal_currency());
    assert!(!Currency::CLP.is_four_decimal_currency());
    assert_eq!(Currency::EUR.iso_code(), "EUR");
    assert_eq!(Currency::SEK.iso_code(), "SEK");
    assert_eq!(Currency::ZWL.iso_code(), "ZWL");
}
