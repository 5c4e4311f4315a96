//! SQL type tags and the codec traits that are selected by them.

use crate::sink::ByteSink;
use vstd::prelude::*;

verus! {

/// A marker for one SQL column type.
///
/// Tags are never built at run time; they only select which codec and which
/// expression lifting applies to a host value.
pub trait NativeSqlType {
    /// Whether a column of this type may hold SQL NULL.
    spec fn nullable() -> bool;
}

/// Boolean column.
pub struct Bool;

/// Auto-incrementing 16-bit integer column.
pub struct SmallSerial;

/// Auto-incrementing 32-bit integer column.
pub struct Serial;

/// Auto-incrementing 64-bit integer column.
pub struct BigSerial;

/// 16-bit integer column.
pub struct SmallInt;

/// 32-bit integer column.
pub struct Integer;

/// 64-bit integer column.
pub struct BigInt;

/// Single-precision floating-point column.
pub struct Float;

/// Double-precision floating-point column.
pub struct Double;

/// Variable-length text column with a length limit.
pub struct VarChar;

/// Variable-length text column.
pub struct Text;

/// Raw byte column.
pub struct Binary;

/// The NULL-capable form of the column type `T`.
pub struct Nullable<T: NativeSqlType>(pub T);

impl NativeSqlType for Bool {
    open spec fn nullable() -> bool {
        false
    }
}

impl NativeSqlType for SmallSerial {
    open spec fn nullable() -> bool {
        false
    }
}

impl NativeSqlType for Serial {
    open spec fn nullable() -> bool {
        false
    }
}

impl NativeSqlType for BigSerial {
    open spec fn nullable() -> bool {
        false
    }
}

impl NativeSqlType for SmallInt {
    open spec fn nullable() -> bool {
        false
    }
}

impl NativeSqlType for Integer {
    open spec fn nullable() -> bool {
        false
    }
}

impl NativeSqlType for BigInt {
    open spec fn nullable() -> bool {
        false
    }
}

impl NativeSqlType for Float {
    open spec fn nullable() -> bool {
        false
    }
}

impl NativeSqlType for Double {
    open spec fn nullable() -> bool {
        false
    }
}

impl NativeSqlType for VarChar {
    open spec fn nullable() -> bool {
        false
    }
}

impl NativeSqlType for Text {
    open spec fn nullable() -> bool {
        false
    }
}

impl NativeSqlType for Binary {
    open spec fn nullable() -> bool {
        false
    }
}

impl<T: NativeSqlType> NativeSqlType for Nullable<T> {
    open spec fn nullable() -> bool {
        true
    }
}

/// Whether an encoded value is SQL NULL.
#[derive(Debug, Clone, Copy, PartialEq, Eq, Structural)]
pub enum IsNull {
    /// The value is SQL NULL; no payload was written for it.
    Yes,
    /// The value is not NULL; its payload was written.
    No,
}

/// Why a column payload could not be decoded.
#[derive(Debug, Clone, Copy, PartialEq, Eq, Structural)]
pub enum DecodeError {
    /// The column was SQL NULL but the target type is not nullable.
    UnexpectedNull,
    /// The payload is not a well-formed value of the target type.
    MalformedPayload,
}

/// Why a value could not be encoded.
#[derive(Debug, PartialEq, Eq)]
pub enum EncodeError<E> {
    /// The sink refused the payload; carries the sink's own error.
    SinkWriteFailure(E),
}

/// The view of an optional payload buffer.
pub open spec fn payload(bytes: Option<&[u8]>) -> Option<Seq<u8>> {
    match bytes {
        Some(buf) => Some(buf@),
        None => None,
    }
}

/// Reading a host value from the payload of a column of type `ST`.
pub trait FromSql<ST: NativeSqlType>: Sized + DeepView {
    /// What a column payload decodes to; `None` stands for SQL NULL.
    spec fn decoded(bytes: Option<Seq<u8>>) -> Result<<Self as DeepView>::V, DecodeError>;

    /// Decodes one column payload.
    ///
    /// The result is the one given by [`FromSql::decoded`]. A NULL column is
    /// always rejected with [`DecodeError::UnexpectedNull`] unless `ST` is
    /// nullable.
    fn from_sql(bytes: Option<&[u8]>) -> (res: Result<Self, DecodeError>)
        ensures
            match res {
                Ok(value) => Self::decoded(payload(bytes)) == Ok::<
                    <Self as DeepView>::V,
                    DecodeError,
                >(value.deep_view()),
                Err(e) => Self::decoded(payload(bytes)) == Err::<<Self as DeepView>::V, DecodeError>(
                    e,
                ),
            },
            bytes is None && !ST::nullable() ==> res == Err::<Self, DecodeError>(
                DecodeError::UnexpectedNull,
            ),
    ;
}

/// What encoding a value with the given NULL flag and payload does to a sink
/// and returns.
pub open spec fn encoded<W: ByteSink>(
    null: bool,
    wire: Seq<u8>,
    before: W,
    after: W,
    res: Result<IsNull, EncodeError<W::Error>>,
) -> bool {
    if null {
        &&& res == Ok::<IsNull, EncodeError<W::Error>>(IsNull::Yes)
        &&& after.written() == before.written()
    } else {
        match W::refusal(before.written(), wire) {
            None => {
                &&& res == Ok::<IsNull, EncodeError<W::Error>>(IsNull::No)
                &&& after.written() == before.written() + wire
            },
            Some(e) => {
                &&& res == Err::<IsNull, EncodeError<W::Error>>(EncodeError::SinkWriteFailure(e))
                &&& after.written() == before.written()
            },
        }
    }
}

/// Writing a host value as the payload of a parameter of type `ST`.
pub trait ToSql<ST: NativeSqlType> {
    /// Whether this value is SQL NULL.
    spec fn null(&self) -> bool;

    /// The payload bytes that stand for this value.
    spec fn wire(&self) -> Seq<u8>;

    /// Appends the payload of this value to `out`.
    ///
    /// A NULL value writes nothing and reports [`IsNull::Yes`]. Any other
    /// value is offered to the sink as one whole payload: either the sink
    /// takes all of [`ToSql::wire`] and the result is [`IsNull::No`], or the
    /// sink refuses, nothing is written, and the sink's error comes back
    /// inside [`EncodeError::SinkWriteFailure`].
    fn to_sql<W: ByteSink>(&self, out: &mut W) -> (res: Result<IsNull, EncodeError<W::Error>>)
        ensures
            encoded(self.null(), self.wire(), *old(out), *final(out), res),
    ;
}

} // verus!
