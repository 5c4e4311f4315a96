//! Codecs of the primitive host types: booleans, text and raw bytes.

use crate::sink::ByteSink;
use crate::types::{
    encoded, Binary, Bool, DecodeError, EncodeError, FromSql, IsNull, Text, ToSql, VarChar,
};
use std::string::FromUtf8Error;
use vstd::prelude::*;
use vstd::slice::slice_to_vec;
use vstd::utf8::{decode_utf8, encode_utf8, valid_utf8};

verus! {

/// The error that `String::from_utf8` reports; nothing is read from it.
#[verifier::external_type_specification]
#[verifier::external_body]
pub struct ExFromUtf8Error(FromUtf8Error);

/// `String::from_utf8` succeeds exactly on well-formed UTF-8 and then returns
/// the string whose UTF-8 encoding is the given bytes.
pub assume_specification[ String::from_utf8 ](vec: Vec<u8>) -> (res: Result<String, FromUtf8Error>)
    ensures
        res is Ok <==> valid_utf8(vec@),
        res matches Ok(s) ==> encode_utf8(s@) == vec@,
;

/// Offers `buf` to `out` as the whole payload of a value that is not NULL.
pub fn write_payload<W: ByteSink>(out: &mut W, buf: &[u8]) -> (res: Result<
    IsNull,
    EncodeError<W::Error>,
>)
    ensures
        encoded(false, buf@, *old(out), *final(out), res),
{
    match out.write_all(buf) {
        Ok(()) => Ok(IsNull::No),
        Err(e) => Err(EncodeError::SinkWriteFailure(e)),
    }
}

/// The one-byte payload of a boolean.
pub open spec fn bool_wire(value: bool) -> Seq<u8> {
    if value {
        seq![1u8]
    } else {
        seq![0u8]
    }
}

/// What a column payload means as a boolean: the first byte, nonzero for true.
pub open spec fn bool_decoded(bytes: Option<Seq<u8>>) -> Result<bool, DecodeError> {
    match bytes {
        None => Err(DecodeError::UnexpectedNull),
        Some(buf) => if buf.len() == 0 {
            Err(DecodeError::MalformedPayload)
        } else {
            Ok(buf[0] != 0)
        },
    }
}

/// What a column payload means as text: its UTF-8 decoding.
pub open spec fn text_decoded(bytes: Option<Seq<u8>>) -> Result<Seq<char>, DecodeError> {
    match bytes {
        None => Err(DecodeError::UnexpectedNull),
        Some(buf) => if valid_utf8(buf) {
            Ok(decode_utf8(buf))
        } else {
            Err(DecodeError::MalformedPayload)
        },
    }
}

/// What a column payload means as raw bytes: itself.
pub open spec fn binary_decoded(bytes: Option<Seq<u8>>) -> Result<Seq<u8>, DecodeError> {
    match bytes {
        None => Err(DecodeError::UnexpectedNull),
        Some(buf) => Ok(buf),
    }
}

impl FromSql<Bool> for bool {
    open spec fn decoded(bytes: Option<Seq<u8>>) -> Result<bool, DecodeError> {
        bool_decoded(bytes)
    }

    fn from_sql(bytes: Option<&[u8]>) -> (res: Result<bool, DecodeError>) {
        match bytes {
            None => Err(DecodeError::UnexpectedNull),
            Some(buf) => {
                if buf.len() == 0 {
                    Err(DecodeError::MalformedPayload)
                } else {
                    Ok(buf[0] != 0)
                }
            },
        }
    }
}

impl ToSql<Bool> for bool {
    open spec fn null(&self) -> bool {
        false
    }

    open spec fn wire(&self) -> Seq<u8> {
        bool_wire(*self)
    }

    fn to_sql<W: ByteSink>(&self, out: &mut W) -> (res: Result<IsNull, EncodeError<W::Error>>) {
        if *self {
            let one: [u8; 1] = [1];
            assert(one@ =~= bool_wire(true));
            write_payload(out, one.as_slice())
        } else {
            let zero: [u8; 1] = [0];
            assert(zero@ =~= bool_wire(false));
            write_payload(out, zero.as_slice())
        }
    }
}

impl FromSql<VarChar> for String {
    open spec fn decoded(bytes: Option<Seq<u8>>) -> Result<Seq<char>, DecodeError> {
        text_decoded(bytes)
    }

    fn from_sql(bytes: Option<&[u8]>) -> (res: Result<String, DecodeError>) {
        match bytes {
            None => Err(DecodeError::UnexpectedNull),
            Some(buf) => match String::from_utf8(slice_to_vec(buf)) {
                Ok(text) => {
                    proof {
                        vstd::utf8::encode_utf8_decode_utf8(text@);
                    }
                    Ok(text)
                },
                Err(_) => Err(DecodeError::MalformedPayload),
            },
        }
    }
}

impl ToSql<VarChar> for String {
    open spec fn null(&self) -> bool {
        false
    }

    open spec fn wire(&self) -> Seq<u8> {
        encode_utf8(self@)
    }

    fn to_sql<W: ByteSink>(&self, out: &mut W) -> (res: Result<IsNull, EncodeError<W::Error>>) {
        write_payload(out, self.as_str().as_bytes())
    }
}

impl<'a> ToSql<VarChar> for &'a str {
    open spec fn null(&self) -> bool {
        false
    }

    open spec fn wire(&self) -> Seq<u8> {
        encode_utf8(self@)
    }

    fn to_sql<W: ByteSink>(&self, out: &mut W) -> (res: Result<IsNull, EncodeError<W::Error>>) {
        write_payload(out, self.as_bytes())
    }
}

impl FromSql<Text> for String {
    open spec fn decoded(bytes: Option<Seq<u8>>) -> Result<Seq<char>, DecodeError> {
        <String as FromSql<VarChar>>::decoded(bytes)
    }

    fn from_sql(bytes: Option<&[u8]>) -> (res: Result<String, DecodeError>) {
        <String as FromSql<VarChar>>::from_sql(bytes)
    }
}

impl ToSql<Text> for String {
    open spec fn null(&self) -> bool {
        false
    }

    open spec fn wire(&self) -> Seq<u8> {
        <String as ToSql<VarChar>>::wire(self)
    }

    fn to_sql<W: ByteSink>(&self, out: &mut W) -> (res: Result<IsNull, EncodeError<W::Error>>) {
        <String as ToSql<VarChar>>::to_sql(self, out)
    }
}

impl<'a> ToSql<Text> for &'a str {
    open spec fn null(&self) -> bool {
        false
    }

    open spec fn wire(&self) -> Seq<u8> {
        <&'a str as ToSql<VarChar>>::wire(self)
    }

    fn to_sql<W: ByteSink>(&self, out: &mut W) -> (res: Result<IsNull, EncodeError<W::Error>>) {
        <&'a str as ToSql<VarChar>>::to_sql(self, out)
    }
}

impl FromSql<Binary> for Vec<u8> {
    open spec fn decoded(bytes: Option<Seq<u8>>) -> Result<Seq<u8>, DecodeError> {
        binary_decoded(bytes)
    }

    fn from_sql(bytes: Option<&[u8]>) -> (res: Result<Vec<u8>, DecodeError>) {
        match bytes {
            None => Err(DecodeError::UnexpectedNull),
            Some(buf) => {
                let copy = slice_to_vec(buf);
                assert(copy.deep_view() =~= buf@);
                Ok(copy)
            },
        }
    }
}

impl ToSql<Binary> for Vec<u8> {
    open spec fn null(&self) -> bool {
        false
    }

    open spec fn wire(&self) -> Seq<u8> {
        self@
    }

    fn to_sql<W: ByteSink>(&self, out: &mut W) -> (res: Result<IsNull, EncodeError<W::Error>>) {
        write_payload(out, self.as_slice())
    }
}

impl<'a> ToSql<Binary> for &'a [u8] {
    open spec fn null(&self) -> bool {
        false
    }

    open spec fn wire(&self) -> Seq<u8> {
        self@
    }

    fn to_sql<W: ByteSink>(&self, out: &mut W) -> (res: Result<IsNull, EncodeError<W::Error>>) {
        write_payload(out, self)
    }
}

} // verus!
