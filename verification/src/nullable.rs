//! Codecs of optional host values for nullable columns.
//!
//! `None` is SQL NULL: it is written as no payload at all and read back from
//! an absent payload. `Some(value)` is written and read as `value` is.

use crate::sink::ByteSink;
use crate::types::{DecodeError, EncodeError, FromSql, IsNull, NativeSqlType, Nullable, ToSql};
use vstd::prelude::*;

verus! {

impl<ST: NativeSqlType, T: FromSql<ST>> FromSql<Nullable<ST>> for Option<T> {
    open spec fn decoded(bytes: Option<Seq<u8>>) -> Result<Option<<T as DeepView>::V>, DecodeError> {
        match bytes {
            None => Ok(None),
            Some(buf) => match T::decoded(Some(buf)) {
                Ok(value) => Ok(Some(value)),
                Err(e) => Err(e),
            },
        }
    }

    fn from_sql(bytes: Option<&[u8]>) -> (res: Result<Option<T>, DecodeError>) {
        match bytes {
            None => Ok(None),
            Some(buf) => match T::from_sql(Some(buf)) {
                Ok(value) => Ok(Some(value)),
                Err(e) => Err(e),
            },
        }
    }
}

impl<ST: NativeSqlType, T: ToSql<ST>> ToSql<Nullable<ST>> for Option<T> {
    open spec fn null(&self) -> bool {
        match self {
            None => true,
            Some(value) => value.null(),
        }
    }

    open spec fn wire(&self) -> Seq<u8> {
        match self {
            None => Seq::empty(),
            Some(value) => value.wire(),
        }
    }

    fn to_sql<W: ByteSink>(&self, out: &mut W) -> (res: Result<IsNull, EncodeError<W::Error>>) {
        match self {
            None => Ok(IsNull::Yes),
            Some(value) => value.to_sql(out),
        }
    }
}

} // verus!
