//! Laws that relate encoding, decoding and lifting.

use crate::expression::{AsExpression, Bound};
use crate::primitives::{binary_decoded, bool_decoded, bool_wire, text_decoded};
use crate::types::{
    Binary, Bool, DecodeError, FromSql, NativeSqlType, Nullable, Text, ToSql, VarChar,
};
use vstd::prelude::*;
use vstd::utf8::{encode_utf8, encode_utf8_decode_utf8, encode_utf8_valid_utf8};

verus! {

/// The payload under which a value travels: none for SQL NULL, else its wire
/// bytes.
pub open spec fn sent<ST: NativeSqlType, T: ToSql<ST>>(value: T) -> Option<Seq<u8>> {
    if value.null() {
        None
    } else {
        Some(value.wire())
    }
}

/// Decoding what was encoded gives the value back.
pub open spec fn round_trips<ST: NativeSqlType, T: FromSql<ST> + ToSql<ST>>(value: T) -> bool {
    <T as FromSql<ST>>::decoded(sent::<ST, T>(value)) == Ok::<<T as DeepView>::V, DecodeError>(
        value.deep_view(),
    )
}

/// Every boolean survives encoding and decoding.
pub proof fn lemma_bool_round_trip(value: bool)
    ensures
        round_trips::<Bool, bool>(value),
{
}

/// Every string survives encoding and decoding as bounded text.
pub proof fn lemma_varchar_round_trip(value: String)
    ensures
        round_trips::<VarChar, String>(value),
{
    encode_utf8_valid_utf8(value@);
    encode_utf8_decode_utf8(value@);
}

/// Every string survives encoding and decoding as text.
pub proof fn lemma_text_round_trip(value: String)
    ensures
        round_trips::<Text, String>(value),
{
    lemma_varchar_round_trip(value);
}

/// Every byte vector, the empty one included, survives encoding and
/// decoding unchanged.
pub proof fn lemma_binary_round_trip(value: Vec<u8>)
    ensures
        round_trips::<Binary, Vec<u8>>(value),
        binary_decoded(Some(value@)) == Ok::<Seq<u8>, DecodeError>(value@),
{
    assert(value.deep_view() =~= value@);
}

/// An optional value survives encoding and decoding for the nullable column
/// type whenever the value inside it, if any, is not NULL itself and
/// survives for the plain column type.
pub proof fn lemma_option_round_trip<ST: NativeSqlType, T: FromSql<ST> + ToSql<ST>>(
    value: Option<T>,
)
    requires
        value matches Some(inner) ==> !inner.null() && round_trips::<ST, T>(inner),
    ensures
        round_trips::<Nullable<ST>, Option<T>>(value),
{
}

/// A borrowed string is written exactly as the owned string with the same
/// characters, so what is read back is that string.
pub proof fn lemma_str_encodes_as_string(borrowed: &str, owned: String)
    requires
        borrowed@ == owned@,
    ensures
        <&str as ToSql<VarChar>>::wire(&borrowed) == <String as ToSql<VarChar>>::wire(&owned),
        <&str as ToSql<Text>>::wire(&borrowed) == <String as ToSql<Text>>::wire(&owned),
        text_decoded(Some(<&str as ToSql<Text>>::wire(&borrowed))) == Ok::<
            Seq<char>,
            DecodeError,
        >(owned@),
{
    encode_utf8_valid_utf8(owned@);
    encode_utf8_decode_utf8(owned@);
}

/// A borrowed byte slice is written exactly as the vector with the same
/// bytes.
pub proof fn lemma_slice_encodes_as_vec(borrowed: &[u8], owned: Vec<u8>)
    requires
        borrowed@ == owned@,
    ensures
        <&[u8] as ToSql<Binary>>::wire(&borrowed) == <Vec<u8> as ToSql<Binary>>::wire(&owned),
{
}

/// An absent payload is rejected as an unexpected NULL by the decoder of
/// every primitive, none of whose tags is nullable.
pub proof fn lemma_null_rejected()
    ensures
        <bool as FromSql<Bool>>::decoded(None) == Err::<bool, DecodeError>(
            DecodeError::UnexpectedNull,
        ),
        <String as FromSql<VarChar>>::decoded(None) == Err::<Seq<char>, DecodeError>(
            DecodeError::UnexpectedNull,
        ),
        <String as FromSql<Text>>::decoded(None) == Err::<Seq<char>, DecodeError>(
            DecodeError::UnexpectedNull,
        ),
        <Vec<u8> as FromSql<Binary>>::decoded(None) == Err::<Seq<u8>, DecodeError>(
            DecodeError::UnexpectedNull,
        ),
{
}

/// An absent payload is a value, not an error, for a nullable column.
pub proof fn lemma_null_accepted<ST: NativeSqlType, T: FromSql<ST>>()
    ensures
        <Option<T> as FromSql<Nullable<ST>>>::decoded(None) == Ok::<
            Option<<T as DeepView>::V>,
            DecodeError,
        >(None),
{
}

/// `true` is written as the byte 1 and `false` as the byte 0; a payload whose
/// first byte is `first` reads as `true` exactly when `first` is not zero.
pub proof fn lemma_bool_encoding(first: u8, rest: Seq<u8>)
    ensures
        bool_wire(true) == seq![1u8],
        bool_wire(false) == seq![0u8],
        bool_decoded(Some(seq![first] + rest)) == Ok::<bool, DecodeError>(first != 0),
        bool_decoded(Some(seq![first])) == Ok::<bool, DecodeError>(first != 0),
        bool_decoded(Some(Seq::empty())) == Err::<bool, DecodeError>(
            DecodeError::MalformedPayload,
        ),
{
}

/// Bounded text and text are the same on the wire: a string is written to
/// the same bytes under either tag, and any payload reads the same under
/// either tag.
pub proof fn lemma_text_varchar_equivalent(value: String, bytes: Option<Seq<u8>>)
    ensures
        <String as ToSql<VarChar>>::wire(&value) == <String as ToSql<Text>>::wire(&value),
        <String as FromSql<VarChar>>::decoded(bytes) == <String as FromSql<Text>>::decoded(bytes),
        <String as FromSql<VarChar>>::decoded(sent::<VarChar, String>(value)) == <String as FromSql<
            Text,
        >>::decoded(sent::<Text, String>(value)),
{
}

/// Lifting a value for the nullable form of a tag gives the very expression
/// that lifting it for the tag itself gives.
pub proof fn lemma_nullable_lifting<ST: NativeSqlType, T: AsExpression<ST>>(value: T)
    ensures
        <T as AsExpression<Nullable<ST>>>::lifted(value) == <T as AsExpression<ST>>::lifted(value),
{
}

/// The expression a primitive is lifted into holds exactly that primitive,
/// under the plain tag and under its nullable form alike.
pub proof fn lemma_lifting_keeps_value(flag: bool, text: String, bytes: Vec<u8>)
    ensures
        <bool as AsExpression<Bool>>::lifted(flag)@ == flag,
        <bool as AsExpression<Nullable<Bool>>>::lifted(flag)@ == flag,
        <String as AsExpression<Text>>::lifted(text)@ == text,
        <String as AsExpression<Nullable<Text>>>::lifted(text)@ == text,
        <Vec<u8> as AsExpression<Binary>>::lifted(bytes)@ == bytes,
        <Vec<u8> as AsExpression<Nullable<Binary>>>::lifted(bytes)@ == bytes,
{
    Bound::<Bool, bool>::lemma_holding(flag);
    Bound::<Text, String>::lemma_holding(text);
    Bound::<Binary, Vec<u8>>::lemma_holding(bytes);
}

} // verus!
