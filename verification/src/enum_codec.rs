//! How an enum field of a protobuf message is written and read back: by the
//! name of a known value, by the number of an unknown one, or as nothing when
//! the field is absent.
use vstd::prelude::*;

verus! {

/// What an enum field holds, as the protobuf runtime reports it.
pub enum EnumField {
    /// A value the enum declares, with its number and its name.
    Known { number: i32, name: String },
    /// A number the enum does not declare.
    Unknown(i32),
}

/// How a field is written.
pub enum EnumEncoding {
    /// As a string.
    Name(String),
    /// As a 32-bit integer.
    Number(i32),
    /// As a unit value.
    Unit,
}

/// What a reader is handed for an enum field.
pub enum EnumToken {
    Str(String),
    Int(i32),
    Unit,
}

/// How a field is written: a known value by its name, an unknown one by its
/// number, an absent field as a unit value.
pub open spec fn encoding_of(field: Option<EnumField>) -> EnumEncoding {
    match field {
        Some(EnumField::Known { number: _, name }) => EnumEncoding::Name(name),
        Some(EnumField::Unknown(n)) => EnumEncoding::Number(n),
        None => EnumEncoding::Unit,
    }
}

/// Writes an enum field.
pub fn serialize_enum_or_unknown(field: Option<EnumField>) -> (e: EnumEncoding)
    ensures
        e == encoding_of(field),
        field matches Some(EnumField::Known { number: _, name }) ==> e == EnumEncoding::Name(name),
        field matches Some(EnumField::Unknown(n)) ==> e == EnumEncoding::Number(n),
        field is None ==> e is Unit,
{
    match field {
        Some(EnumField::Known { number: _, name }) => EnumEncoding::Name(name),
        Some(EnumField::Unknown(n)) => EnumEncoding::Number(n),
        None => EnumEncoding::Unit,
    }
}

/// What reading a token gives, with the error message taken by its characters:
/// a name gives the number that the enum's descriptor finds for it
/// (`by_name`), and is an error when it finds none; a number gives itself; a
/// unit value gives an absent field.
pub open spec fn decoded(token: EnumToken, by_name: Option<i32>) -> Result<Option<i32>, Seq<char>> {
    match token {
        EnumToken::Str(v) => match by_name {
            Some(n) => Ok(Some(n)),
            None => Err("unknown enum value: "@ + v@),
        },
        EnumToken::Int(n) => Ok(Some(n)),
        EnumToken::Unit => Ok(None),
    }
}

/// A result with its error message taken by its characters.
pub open spec fn result_view(r: Result<Option<i32>, String>) -> Result<Option<i32>, Seq<char>> {
    match r {
        Ok(v) => Ok(v),
        Err(m) => Err(m@),
    }
}

/// Reads an enum field from a token; `by_name` is what the enum's descriptor
/// finds for the token's text when the token is a string.
pub fn deserialize_enum_or_unknown(token: EnumToken, by_name: Option<i32>) -> (r: Result<
    Option<i32>,
    String,
>)
    ensures
        result_view(r) == decoded(token, by_name),
        token matches EnumToken::Int(n) ==> r == Ok::<Option<i32>, String>(Some(n)),
        token is Unit ==> r == Ok::<Option<i32>, String>(None),
        token is Str ==> (by_name matches Some(n) ==> r == Ok::<Option<i32>, String>(Some(n))),
        by_name is None ==> (token matches EnumToken::Str(v) ==> (r matches Err(m) && m@.len()
            == 20 + v@.len() && m@.subrange(20, m@.len() as int) == v@)),
{
    proof {
        reveal_strlit("unknown enum value: ");
    }
    match token {
        EnumToken::Str(v) => match by_name {
            Some(n) => Ok(Some(n)),
            None => {
                let mut m = String::from_str("unknown enum value: ");
                m.append(v.as_str());
                Err(m)
            },
        },
        EnumToken::Int(n) => Ok(Some(n)),
        EnumToken::Unit => Ok(None),
    }
}

/// The token a reader is handed for what was written.
pub open spec fn token_of(e: EnumEncoding) -> EnumToken {
    match e {
        EnumEncoding::Name(s) => EnumToken::Str(s),
        EnumEncoding::Number(n) => EnumToken::Int(n),
        EnumEncoding::Unit => EnumToken::Unit,
    }
}

/// The number a field holds, if any.
pub open spec fn field_number(field: Option<EnumField>) -> Option<i32> {
    match field {
        Some(EnumField::Known { number, name: _ }) => Some(number),
        Some(EnumField::Unknown(n)) => Some(n),
        None => None,
    }
}

/// Reading back what was written gives the field's number, or nothing for an
/// absent field, provided that the descriptor finds a known value's number by
/// its name.
pub proof fn lemma_enum_round_trip(field: Option<EnumField>, by_name: Option<i32>)
    requires
        field matches Some(EnumField::Known { number, name: _ }) ==> by_name == Some(number),
    ensures
        decoded(token_of(encoding_of(field)), by_name) == Ok::<Option<i32>, Seq<char>>(
            field_number(field),
        ),
{
}

} // verus!
