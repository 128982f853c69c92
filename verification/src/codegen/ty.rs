//! Rendering of a value type as the source text that rebuilds it.
use vstd::prelude::*;

use crate::text::{append_decimal, decimal_text};

verus! {

/// The value types an entry point can take or return.
pub enum ClType {
    Bool,
    I32,
    I64,
    U8,
    U32,
    U64,
    U128,
    U256,
    U512,
    Unit,
    String,
    Key,
    URef,
    PublicKey,
    Option(Box<ClType>),
    List(Box<ClType>),
    ByteArray(u32),
    Result { ok: Box<ClType>, err: Box<ClType> },
    MapOf { key: Box<ClType>, value: Box<ClType> },
    Tuple1(Box<ClType>),
    Tuple2(Box<ClType>, Box<ClType>),
    Tuple3(Box<ClType>, Box<ClType>, Box<ClType>),
    Any,
}

/// Source text of the expression that builds `ty`.
///
/// A three-element tuple is written with the two-element tuple constructor, given three items.
pub open spec fn wrapped_type_text(ty: ClType) -> Seq<char>
    decreases ty,
{
    match ty {
        ClType::Bool => "odra::types::CLType::Bool"@,
        ClType::I32 => "odra::types::CLType::I32"@,
        ClType::I64 => "odra::types::CLType::I64"@,
        ClType::U8 => "odra::types::CLType::U8"@,
        ClType::U32 => "odra::types::CLType::U32"@,
        ClType::U64 => "odra::types::CLType::U64"@,
        ClType::U128 => "odra::types::CLType::U128"@,
        ClType::U256 => "odra::types::CLType::U256"@,
        ClType::U512 => "odra::types::CLType::U512"@,
        ClType::Unit => "odra::types::CLType::Unit"@,
        ClType::String => "odra::types::CLType::String"@,
        ClType::Option(t) => "odra::types::CLType::Option(Box::new("@ + wrapped_type_text(*t)
            + "))"@,
        ClType::Any => "odra::types::CLType::Any"@,
        ClType::Key => "odra::types::CLType::Key"@,
        ClType::URef => "odra::types::CLType::URef"@,
        ClType::PublicKey => "odra::types::CLType::PublicKey"@,
        ClType::List(t) => "odra::types::CLType::List(Box::new("@ + wrapped_type_text(*t)
            + "))"@,
        ClType::ByteArray(n) => "odra::types::CLType::ByteArray("@ + decimal_text(n as nat)
            + "u32)"@,
        ClType::Result { ok, err } => "odra::types::CLType::Result { ok: Box::new("@
            + wrapped_type_text(*ok) + "), err: Box::new("@ + wrapped_type_text(*err) + "), }"@,
        ClType::MapOf { key, value } => "odra::types::CLType::Map { key: Box::new("@
            + wrapped_type_text(*key) + "), value: Box::new("@ + wrapped_type_text(*value)
            + "), }"@,
        ClType::Tuple1(t) => "odra::types::CLType::Tuple1(["@ + wrapped_type_text(*t) + "])"@,
        ClType::Tuple2(t1, t2) => "odra::types::CLType::Tuple2(["@ + wrapped_type_text(*t1)
            + ", "@ + wrapped_type_text(*t2) + "])"@,
        ClType::Tuple3(t1, t2, t3) => "odra::types::CLType::Tuple2(["@ + wrapped_type_text(*t1)
            + ", "@ + wrapped_type_text(*t2) + ", "@ + wrapped_type_text(*t3) + "])"@,
    }
}

/// A value type to be written out as the source expression that rebuilds it.
pub struct WrappedType<'a>(pub &'a ClType);

impl<'a> WrappedType<'a> {
    /// Appends the source expression of the wrapped type to `tokens`.
    pub fn to_tokens(&self, tokens: &mut String)
        ensures
            final(tokens)@ == old(tokens)@ + wrapped_type_text(*self.0),
        decreases self.0,
    {
        match self.0 {
            ClType::Bool => tokens.append("odra::types::CLType::Bool"),
            ClType::I32 => tokens.append("odra::types::CLType::I32"),
            ClType::I64 => tokens.append("odra::types::CLType::I64"),
            ClType::U8 => tokens.append("odra::types::CLType::U8"),
            ClType::U32 => tokens.append("odra::types::CLType::U32"),
            ClType::U64 => tokens.append("odra::types::CLType::U64"),
            ClType::U128 => tokens.append("odra::types::CLType::U128"),
            ClType::U256 => tokens.append("odra::types::CLType::U256"),
            ClType::U512 => tokens.append("odra::types::CLType::U512"),
            ClType::Unit => tokens.append("odra::types::CLType::Unit"),
            ClType::String => tokens.append("odra::types::CLType::String"),
            ClType::Option(ty) => {
                tokens.append("odra::types::CLType::Option(Box::new(");
                WrappedType(&**ty).to_tokens(tokens);
                tokens.append("))");
            },
            ClType::Any => tokens.append("odra::types::CLType::Any"),
            ClType::Key => tokens.append("odra::types::CLType::Key"),
            ClType::URef => tokens.append("odra::types::CLType::URef"),
            ClType::PublicKey => tokens.append("odra::types::CLType::PublicKey"),
            ClType::List(ty) => {
                tokens.append("odra::types::CLType::List(Box::new(");
                WrappedType(&**ty).to_tokens(tokens);
                tokens.append("))");
            },
            ClType::ByteArray(bytes) => {
                tokens.append("odra::types::CLType::ByteArray(");
                append_decimal(*bytes, tokens);
                tokens.append("u32)");
            },
            ClType::Result { ok, err } => {
                tokens.append("odra::types::CLType::Result { ok: Box::new(");
                WrappedType(&**ok).to_tokens(tokens);
                tokens.append("), err: Box::new(");
                WrappedType(&**err).to_tokens(tokens);
                tokens.append("), }");
            },
            ClType::MapOf { key, value } => {
                tokens.append("odra::types::CLType::Map { key: Box::new(");
                WrappedType(&**key).to_tokens(tokens);
                tokens.append("), value: Box::new(");
                WrappedType(&**value).to_tokens(tokens);
                tokens.append("), }");
            },
            ClType::Tuple1(ty) => {
                tokens.append("odra::types::CLType::Tuple1([");
                WrappedType(&**ty).to_tokens(tokens);
                tokens.append("])");
            },
            ClType::Tuple2(t1, t2) => {
                tokens.append("odra::types::CLType::Tuple2([");
                WrappedType(&**t1).to_tokens(tokens);
                tokens.append(", ");
                WrappedType(&**t2).to_tokens(tokens);
                tokens.append("])");
            },
            ClType::Tuple3(t1, t2, t3) => {
                tokens.append("odra::types::CLType::Tuple2([");
                WrappedType(&**t1).to_tokens(tokens);
                tokens.append(", ");
                WrappedType(&**t2).to_tokens(tokens);
                tokens.append(", ");
                WrappedType(&**t3).to_tokens(tokens);
                tokens.append("])");
            },
        }
    }
}

} // verus!
