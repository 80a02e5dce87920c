//! Source values and what the sink binds in their place.

use crate::decode::{decode_bytes, decoded};
use crate::error::{Error, Unsupported};
use vstd::prelude::*;

verus! {

/// One value of a source row.
#[derive(Debug, PartialEq, Eq)]
pub enum SourceValue {
    Null,
    /// Raw bytes: text in the legacy encoding, octal escapes and all.
    Bytes(Vec<u8>),
    SignedInt(i64),
    UnsignedInt(u64),
    /// A 64-bit float, held as its IEEE 754 bit pattern.
    Float(u64),
    Date { year: u16, month: u8, day: u8, hour: u8, minute: u8, second: u8, micros: u32 },
    Time { negative: bool, days: u32, hours: u8, minutes: u8, seconds: u8, micros: u32 },
}

/// One parameter of the sink's insert statement.
#[derive(Debug, PartialEq, Eq)]
pub enum SinkParam {
    Null,
    Text(String),
    Integer(i64),
    /// A 64-bit float, held as its IEEE 754 bit pattern.
    Real(u64),
}

/// A sink parameter as a mathematical value: text is a sequence of characters.
pub enum SinkParamView {
    Null,
    Text(Seq<char>),
    Integer(i64),
    Real(u64),
}

impl View for SinkParam {
    type V = SinkParamView;

    open spec fn view(&self) -> SinkParamView {
        match *self {
            SinkParam::Null => SinkParamView::Null,
            SinkParam::Text(s) => SinkParamView::Text(s@),
            SinkParam::Integer(i) => SinkParamView::Integer(i),
            SinkParam::Real(bits) => SinkParamView::Real(bits),
        }
    }
}

/// The views of a row of parameters, in order.
pub open spec fn params_view(params: Seq<SinkParam>) -> Seq<SinkParamView> {
    Seq::new(params.len(), |i: int| params[i]@)
}

/// The signed integer with the bit pattern of `u`: `u` itself up to
/// `i64::MAX`, and `u - 2^64` above it.
pub open spec fn reinterpreted(u: u64) -> i64 {
    if u <= i64::MAX {
        u as i64
    } else {
        (u - 0x1_0000_0000_0000_0000) as i64
    }
}

/// What the sink binds for `value`, or why it binds nothing.
pub open spec fn adapted(value: SourceValue) -> Result<SinkParamView, Error> {
    match value {
        SourceValue::Null => Ok(SinkParamView::Null),
        SourceValue::Bytes(bytes) => Ok(SinkParamView::Text(decoded(bytes@))),
        SourceValue::SignedInt(i) => Ok(SinkParamView::Integer(i)),
        SourceValue::UnsignedInt(u) => Ok(SinkParamView::Integer(reinterpreted(u))),
        SourceValue::Float(bits) => Ok(SinkParamView::Real(bits)),
        SourceValue::Date { .. } => Err(Error::UnsupportedValue(Unsupported::Date)),
        SourceValue::Time { .. } => Err(Error::UnsupportedValue(Unsupported::Time)),
    }
}

/// Converts one source value into the parameter to bind for it.
///
/// Bytes are decoded as text. An unsigned integer keeps its bit pattern, as
/// the sink has no unsigned 64-bit type: above `i64::MAX` it turns negative.
/// Dates and times are refused.
pub fn adapt(value: &SourceValue) -> (result: Result<SinkParam, Error>)
    ensures
        match adapted(*value) {
            Ok(param) => result matches Ok(p) && p@ == param,
            Err(error) => result == Err::<SinkParam, Error>(error),
        },
{
    match value {
        SourceValue::Null => Ok(SinkParam::Null),
        SourceValue::Bytes(bytes) => Ok(SinkParam::Text(decode_bytes(bytes))),
        SourceValue::SignedInt(i) => Ok(SinkParam::Integer(*i)),
        SourceValue::UnsignedInt(u) => Ok(SinkParam::Integer(reinterpret(*u))),
        SourceValue::Float(bits) => Ok(SinkParam::Real(*bits)),
        SourceValue::Date { .. } => Err(Error::UnsupportedValue(Unsupported::Date)),
        SourceValue::Time { .. } => Err(Error::UnsupportedValue(Unsupported::Time)),
    }
}

/// Reads the bits of `u` as a signed integer.
pub fn reinterpret(u: u64) -> (i: i64)
    ensures
        i == reinterpreted(u),
        u <= i64::MAX ==> i == u,
        u > i64::MAX ==> i == u - 0x1_0000_0000_0000_0000,
{
    let i = #[verifier::truncate] (u as i64);
    assert(u <= 0x7fff_ffff_ffff_ffffu64 ==> (u as i64) == u) by (bit_vector);
    assert(u > 0x7fff_ffff_ffff_ffffu64 ==> (u as i64) == u - 0x1_0000_0000_0000_0000)
        by (bit_vector);
    i
}

/// Whether every value of `row` has a place in the sink.
pub open spec fn adaptable(row: Seq<SourceValue>) -> bool {
    forall|i: int| 0 <= i < row.len() ==> (#[trigger] adapted(row[i])) is Ok
}

/// Whether `k` is the first column of `row` whose value the sink cannot hold.
pub open spec fn first_refused_at(row: Seq<SourceValue>, k: int) -> bool {
    &&& 0 <= k < row.len()
    &&& adapted(row[k]) is Err
    &&& forall|j: int| 0 <= j < k ==> (#[trigger] adapted(row[j])) is Ok
}

/// The parameters to bind for `row`, one for each value and in column order,
/// or the refusal of the first value that has no place in the sink.
pub open spec fn adapted_row(row: Seq<SourceValue>) -> Result<Seq<SinkParamView>, Error> {
    if adaptable(row) {
        Ok(Seq::new(row.len(), |i: int| adapted(row[i])->Ok_0))
    } else {
        let k = choose|k: int| first_refused_at(row, k);
        Err(adapted(row[k])->Err_0)
    }
}

/// Converts a source row into the parameters of the insert statement, one for
/// each value and in column order. The first value that the sink cannot hold
/// refuses the whole row.
pub fn adapt_row(row: &Vec<SourceValue>) -> (result: Result<Vec<SinkParam>, Error>)
    ensures
        match adapted_row(row@) {
            Ok(params) => result matches Ok(bound) && params_view(bound@) == params,
            Err(error) => result == Err::<Vec<SinkParam>, Error>(error),
        },
        result matches Ok(bound) ==> bound@.len() == row@.len(),
{
    let mut params: Vec<SinkParam> = Vec::new();
    let mut i: usize = 0;
    while i < row.len()
        invariant
            i <= row.len(),
            params@.len() == i,
            forall|j: int|
                0 <= j < i ==> adapted(row@[j]) == Ok::<SinkParamView, Error>(
                    #[trigger] params@[j]@,
                ),
        decreases row.len() - i,
    {
        match adapt(&row[i]) {
            Ok(param) => {
                params.push(param);
            },
            Err(error) => {
                proof {
                    assert forall|j: int| 0 <= j < i implies (#[trigger] adapted(
                        row@[j],
                    )) is Ok by {
                        assert(adapted(row@[j]) == Ok::<SinkParamView, Error>(params@[j]@));
                    }
                    assert(first_refused_at(row@, i as int));
                }
                return Err(error);
            },
        }
        i += 1;
    }
    proof {
        assert forall|j: int| 0 <= j < row@.len() implies (#[trigger] adapted(row@[j])) is Ok by {
            assert(adapted(row@[j]) == Ok::<SinkParamView, Error>(params@[j]@));
        }
    }
    Ok(params)
}

} // verus!
