use league_archive::error::{Error, Unsupported};
use league_archive::value::{adapt, adapt_row, reinterpret, SinkParam, SourceValue};

fn date() -> SourceValue {
    SourceValue::Date { year: 2016, month: 2, day: 29, hour: 12, minute: 30, second: 5, micros: 7 }
}

fn time() -> SourceValue {
    SourceValue::Time { negative: true, days: 1, hours: 2, minutes: 3, seconds: 4, micros: 5 }
}

#[test]
fn null_adapts_to_null() {
    assert_eq!(adapt(&SourceValue::Null), Ok(SinkParam::Null));
}

#[test]
fn bytes_adapt_to_decoded_text() {
    let value = SourceValue::Bytes(r"Fu\337ball".as_bytes().to_vec());
    assert_eq!(adapt(&value), Ok(SinkParam::Text("Fußball".to_string())));
    assert_eq!(adapt(&SourceValue::Bytes(Vec::new())), Ok(SinkParam::Text(String::new())));
}

#[test]
fn signed_integers_adapt_unchanged() {
    assert_eq!(adapt(&SourceValue::SignedInt(0)), Ok(SinkParam::Integer(0)));
    assert_eq!(adapt(&SourceValue::SignedInt(-42)), Ok(SinkParam::Integer(-42)));
    assert_eq!(adapt(&SourceValue::SignedInt(i64::MIN)), Ok(SinkParam::Integer(i64::MIN)));
    assert_eq!(adapt(&SourceValue::SignedInt(i64::MAX)), Ok(SinkParam::Integer(i64::MAX)));
}

#[test]
fn unsigned_integers_up_to_i64_max_keep_their_value() {
    assert_eq!(adapt(&SourceValue::UnsignedInt(0)), Ok(SinkParam::Integer(0)));
    assert_eq!(adapt(&SourceValue::UnsignedInt(1456704000)), Ok(SinkParam::Integer(1456704000)));
    assert_eq!(
        adapt(&SourceValue::UnsignedInt(9223372036854775807)),
        Ok(SinkParam::Integer(9223372036854775807))
    );
}

#[test]
fn unsigned_integers_above_i64_max_wrap_to_negative() {
    assert_eq!(
        adapt(&SourceValue::UnsignedInt(9223372036854775808)),
        Ok(SinkParam::Integer(-9223372036854775808))
    );
    assert_eq!(adapt(&SourceValue::UnsignedInt(u64::MAX)), Ok(SinkParam::Integer(-1)));
    assert_eq!(adapt(&SourceValue::UnsignedInt(u64::MAX - 41)), Ok(SinkParam::Integer(-42)));
}

#[test]
fn reinterpret_keeps_the_bit_pattern() {
    assert_eq!(reinterpret(0), 0);
    assert_eq!(reinterpret(i64::MAX as u64), i64::MAX);
    assert_eq!(reinterpret(i64::MAX as u64 + 1), i64::MIN);
    assert_eq!(reinterpret(u64::MAX), -1);
    assert_eq!(reinterpret(0x8000_0000_0000_0001), -0x7fff_ffff_ffff_ffff);
}

#[test]
fn floats_adapt_bit_for_bit() {
    for f in [0.0f64, -0.0, 1.5, -2.25e300, f64::INFINITY, f64::MIN_POSITIVE] {
        match adapt(&SourceValue::Float(f.to_bits())) {
            Ok(SinkParam::Real(bits)) => assert_eq!(bits, f.to_bits()),
            other => panic!("{other:?}"),
        }
    }
    let nan = f64::NAN.to_bits();
    assert_eq!(adapt(&SourceValue::Float(nan)), Ok(SinkParam::Real(nan)));
}

#[test]
fn dates_and_times_are_refused() {
    assert_eq!(adapt(&date()), Err(Error::UnsupportedValue(Unsupported::Date)));
    assert_eq!(adapt(&time()), Err(Error::UnsupportedValue(Unsupported::Time)));
}

#[test]
fn a_row_adapts_value_by_value_in_column_order() {
    let row = vec![
        SourceValue::UnsignedInt(7),
        SourceValue::Bytes(r"Abw\344rts".as_bytes().to_vec()),
        SourceValue::Null,
        SourceValue::SignedInt(-1),
        SourceValue::Float(2.5f64.to_bits()),
    ];
    assert_eq!(
        adapt_row(&row),
        Ok(vec![
            SinkParam::Integer(7),
            SinkParam::Text("Abwärts".to_string()),
            SinkParam::Null,
            SinkParam::Integer(-1),
            SinkParam::Real(2.5f64.to_bits()),
        ])
    );
    assert_eq!(adapt_row(&Vec::new()), Ok(Vec::new()));
}

#[test]
fn the_first_refused_value_refuses_the_row() {
    let row = vec![SourceValue::SignedInt(1), time(), SourceValue::Null, date()];
    assert_eq!(adapt_row(&row), Err(Error::UnsupportedValue(Unsupported::Time)));
    let row = vec![date(), time()];
    assert_eq!(adapt_row(&row), Err(Error::UnsupportedValue(Unsupported::Date)));
}
