//! Reading a value type back from the source expression that rebuilds it: the rendering of
//! `ty` loses nothing, so each type has its own text.
use vstd::prelude::*;

use super::ty::{wrapped_type_text, ClType};
use crate::text::{
    decimal_text, digits_end, digits_value, is_decimal_digit, lemma_decimal_reads_back,
    lemma_digits_end,
};

verus! {

/// Whether `lit` is written in `s` at position `at`.
pub open spec fn text_at(s: Seq<char>, at: int, lit: Seq<char>) -> bool {
    0 <= at && at + lit.len() <= s.len() && s.subrange(at, at + lit.len()) =~= lit
}

/// Reads a type written as an expression over `odra::types::CLType` from position `pos` of
/// `s`: the type and the position where its expression ends, or `None` where no such
/// expression starts there. A `Tuple2` constructor given three items is read as a
/// three-element tuple.
#[verifier::opaque]
pub open spec fn read_cl_type(s: Seq<char>, pos: int) -> Option<(ClType, int)>
    decreases s.len() - pos,
{
    if pos < 0 || pos + 23 > s.len() {
        None
    } else {
        let c = s[pos + 21];
        let d = s[pos + 22];
        if c == 'B' && d == 'o' {
            if text_at(s, pos, "odra::types::CLType::Bool"@) { Some((ClType::Bool, pos + 25)) } else { None }
        } else if c == 'B' {
            let start = pos + 31;
            let end = digits_end(s, start);
            if text_at(s, pos, "odra::types::CLType::ByteArray("@) && start < end && text_at(
                s,
                end,
                "u32)"@,
            ) && digits_value(s.subrange(start, end)) < 0x1_0000_0000 {
                Some((ClType::ByteArray(digits_value(s.subrange(start, end)) as u32), end + 4))
            } else {
                None
            }
        } else if c == 'I' && d == '3' {
            if text_at(s, pos, "odra::types::CLType::I32"@) { Some((ClType::I32, pos + 24)) } else { None }
        } else if c == 'I' {
            if text_at(s, pos, "odra::types::CLType::I64"@) { Some((ClType::I64, pos + 24)) } else { None }
        } else if c == 'U' && d == '8' {
            if text_at(s, pos, "odra::types::CLType::U8"@) { Some((ClType::U8, pos + 23)) } else { None }
        } else if c == 'U' && d == '3' {
            if text_at(s, pos, "odra::types::CLType::U32"@) { Some((ClType::U32, pos + 24)) } else { None }
        } else if c == 'U' && d == '6' {
            if text_at(s, pos, "odra::types::CLType::U64"@) { Some((ClType::U64, pos + 24)) } else { None }
        } else if c == 'U' && d == '1' {
            if text_at(s, pos, "odra::types::CLType::U128"@) { Some((ClType::U128, pos + 25)) } else { None }
        } else if c == 'U' && d == '2' {
            if text_at(s, pos, "odra::types::CLType::U256"@) { Some((ClType::U256, pos + 25)) } else { None }
        } else if c == 'U' && d == '5' {
            if text_at(s, pos, "odra::types::CLType::U512"@) { Some((ClType::U512, pos + 25)) } else { None }
        } else if c == 'U' && d == 'n' {
            if text_at(s, pos, "odra::types::CLType::Unit"@) { Some((ClType::Unit, pos + 25)) } else { None }
        } else if c == 'U' {
            if text_at(s, pos, "odra::types::CLType::URef"@) { Some((ClType::URef, pos + 25)) } else { None }
        } else if c == 'S' {
            if text_at(s, pos, "odra::types::CLType::String"@) { Some((ClType::String, pos + 27)) } else { None }
        } else if c == 'A' {
            if text_at(s, pos, "odra::types::CLType::Any"@) { Some((ClType::Any, pos + 24)) } else { None }
        } else if c == 'K' {
            if text_at(s, pos, "odra::types::CLType::Key"@) { Some((ClType::Key, pos + 24)) } else { None }
        } else if c == 'P' {
            if text_at(s, pos, "odra::types::CLType::PublicKey"@) {
                Some((ClType::PublicKey, pos + 30))
            } else {
                None
            }
        } else if c == 'O' || c == 'L' {
            let opening = if c == 'O' {
                "odra::types::CLType::Option(Box::new("@
            } else {
                "odra::types::CLType::List(Box::new("@
            };
            let inner = if c == 'O' { pos + 37 } else { pos + 35 };
            if text_at(s, pos, opening) && inner <= s.len() {
                match read_cl_type(s, inner) {
                    Some((t, e)) => if inner <= e && text_at(s, e, "))"@) {
                        if c == 'O' {
                            Some((ClType::Option(Box::new(t)), e + 2))
                        } else {
                            Some((ClType::List(Box::new(t)), e + 2))
                        }
                    } else {
                        None
                    },
                    None => None,
                }
            } else {
                None
            }
        } else if c == 'R' || c == 'M' {
            let opening = if c == 'R' {
                "odra::types::CLType::Result { ok: Box::new("@
            } else {
                "odra::types::CLType::Map { key: Box::new("@
            };
            let middle = if c == 'R' {
                "), err: Box::new("@
            } else {
                "), value: Box::new("@
            };
            let inner = if c == 'R' { pos + 43 } else { pos + 41 };
            let skip = if c == 'R' { 17int } else { 19int };
            if text_at(s, pos, opening) && inner <= s.len() {
                match read_cl_type(s, inner) {
                    Some((t1, e1)) => if inner <= e1 && e1 + skip <= s.len() && text_at(s, e1, middle) {
                        match read_cl_type(s, e1 + skip) {
                            Some((t2, e2)) => if e1 + skip <= e2 && text_at(s, e2, "), }"@) {
                                if c == 'R' {
                                    Some(
                                        (ClType::Result { ok: Box::new(t1), err: Box::new(t2) }, e2 + 4),
                                    )
                                } else {
                                    Some(
                                        (
                                            ClType::MapOf { key: Box::new(t1), value: Box::new(t2) },
                                            e2 + 4,
                                        ),
                                    )
                                }
                            } else {
                                None
                            },
                            None => None,
                        }
                    } else {
                        None
                    },
                    None => None,
                }
            } else {
                None
            }
        } else if c == 'T' && s[pos + 26] == '1' {
            if text_at(s, pos, "odra::types::CLType::Tuple1(["@) && pos + 29 <= s.len() {
                match read_cl_type(s, pos + 29) {
                    Some((t, e)) => if pos + 29 <= e && text_at(s, e, "])"@) {
                        Some((ClType::Tuple1(Box::new(t)), e + 2))
                    } else {
                        None
                    },
                    None => None,
                }
            } else {
                None
            }
        } else if c == 'T' {
            if text_at(s, pos, "odra::types::CLType::Tuple2(["@) && pos + 29 <= s.len() {
                match read_cl_type(s, pos + 29) {
                    Some((t1, e1)) => if pos + 29 <= e1 && e1 + 2 <= s.len() && text_at(s, e1, ", "@) {
                        match read_cl_type(s, e1 + 2) {
                            Some((t2, e2)) => if e1 + 2 <= e2 && text_at(s, e2, "])"@) {
                                Some((ClType::Tuple2(Box::new(t1), Box::new(t2)), e2 + 2))
                            } else if e1 + 2 <= e2 && e2 + 2 <= s.len() && text_at(s, e2, ", "@) {
                                match read_cl_type(s, e2 + 2) {
                                    Some((t3, e3)) => if e2 + 2 <= e3 && text_at(s, e3, "])"@) {
                                        Some(
                                            (
                                                ClType::Tuple3(
                                                    Box::new(t1),
                                                    Box::new(t2),
                                                    Box::new(t3),
                                                ),
                                                e3 + 2,
                                            ),
                                        )
                                    } else {
                                        None
                                    },
                                    None => None,
                                }
                            } else {
                                None
                            },
                            None => None,
                        }
                    } else {
                        None
                    },
                    None => None,
                }
            } else {
                None
            }
        } else {
            None
        }
    }
}

/// `lit` written between `pre` and `rest` stands at the end of `pre`.
proof fn lemma_text_at(pre: Seq<char>, lit: Seq<char>, rest: Seq<char>)
    ensures
        text_at(pre + lit + rest, pre.len() as int, lit),
{
    let s = pre + lit + rest;
    assert(s.subrange(pre.len() as int, (pre.len() + lit.len()) as int) =~= lit);
}

/// A closing `lit` that does not start with the character at `at` is not written there.
proof fn lemma_not_text_at(s: Seq<char>, at: int, lit: Seq<char>)
    requires
        0 <= at < s.len(),
        lit.len() > 0,
        s[at] != lit[0],
    ensures
        !text_at(s, at, lit),
{
    if text_at(s, at, lit) {
        assert(s.subrange(at, at + lit.len())[0] == s[at]);
    }
}

/// Reading the expression of a type that has no inner types.
proof fn lemma_read_plain_type(t: ClType, pre: Seq<char>, rest: Seq<char>)
    requires
        !(t is ByteArray || t is Option || t is List || t is Result || t is MapOf || t is Tuple1
            || t is Tuple2 || t is Tuple3),
    ensures
        read_cl_type(pre + wrapped_type_text(t) + rest, pre.len() as int) == Some(
            (t, (pre.len() + wrapped_type_text(t).len()) as int),
        ),
{
    reveal(read_cl_type);
    let s = pre + wrapped_type_text(t) + rest;
    let pos = pre.len() as int;
    match t {
        ClType::Bool => {
            reveal_strlit("odra::types::CLType::Bool");
            lemma_text_at(pre, "odra::types::CLType::Bool"@, rest);
            assert(s[pos + 21] == "odra::types::CLType::Bool"@[21]);
            assert(s[pos + 22] == "odra::types::CLType::Bool"@[22]);
        },
        ClType::I32 => {
            reveal_strlit("odra::types::CLType::I32");
            lemma_text_at(pre, "odra::types::CLType::I32"@, rest);
            assert(s[pos + 21] == "odra::types::CLType::I32"@[21]);
            assert(s[pos + 22] == "odra::types::CLType::I32"@[22]);
        },
        ClType::I64 => {
            reveal_strlit("odra::types::CLType::I64");
            lemma_text_at(pre, "odra::types::CLType::I64"@, rest);
            assert(s[pos + 21] == "odra::types::CLType::I64"@[21]);
            assert(s[pos + 22] == "odra::types::CLType::I64"@[22]);
        },
        ClType::U8 => {
            reveal_strlit("odra::types::CLType::U8");
            lemma_text_at(pre, "odra::types::CLType::U8"@, rest);
            assert(s[pos + 21] == "odra::types::CLType::U8"@[21]);
            assert(s[pos + 22] == "odra::types::CLType::U8"@[22]);
        },
        ClType::U32 => {
            reveal_strlit("odra::types::CLType::U32");
            lemma_text_at(pre, "odra::types::CLType::U32"@, rest);
            assert(s[pos + 21] == "odra::types::CLType::U32"@[21]);
            assert(s[pos + 22] == "odra::types::CLType::U32"@[22]);
        },
        ClType::U64 => {
            reveal_strlit("odra::types::CLType::U64");
            lemma_text_at(pre, "odra::types::CLType::U64"@, rest);
            assert(s[pos + 21] == "odra::types::CLType::U64"@[21]);
            assert(s[pos + 22] == "odra::types::CLType::U64"@[22]);
        },
        ClType::U128 => {
            reveal_strlit("odra::types::CLType::U128");
            lemma_text_at(pre, "odra::types::CLType::U128"@, rest);
            assert(s[pos + 21] == "odra::types::CLType::U128"@[21]);
            assert(s[pos + 22] == "odra::types::CLType::U128"@[22]);
        },
        ClType::U256 => {
            reveal_strlit("odra::types::CLType::U256");
            lemma_text_at(pre, "odra::types::CLType::U256"@, rest);
            assert(s[pos + 21] == "odra::types::CLType::U256"@[21]);
            assert(s[pos + 22] == "odra::types::CLType::U256"@[22]);
        },
        ClType::U512 => {
            reveal_strlit("odra::types::CLType::U512");
            lemma_text_at(pre, "odra::types::CLType::U512"@, rest);
            assert(s[pos + 21] == "odra::types::CLType::U512"@[21]);
            assert(s[pos + 22] == "odra::types::CLType::U512"@[22]);
        },
        ClType::Unit => {
            reveal_strlit("odra::types::CLType::Unit");
            lemma_text_at(pre, "odra::types::CLType::Unit"@, rest);
            assert(s[pos + 21] == "odra::types::CLType::Unit"@[21]);
            assert(s[pos + 22] == "odra::types::CLType::Unit"@[22]);
        },
        ClType::String => {
            reveal_strlit("odra::types::CLType::String");
            lemma_text_at(pre, "odra::types::CLType::String"@, rest);
            assert(s[pos + 21] == "odra::types::CLType::String"@[21]);
            assert(s[pos + 22] == "odra::types::CLType::String"@[22]);
        },
        ClType::Any => {
            reveal_strlit("odra::types::CLType::Any");
            lemma_text_at(pre, "odra::types::CLType::Any"@, rest);
            assert(s[pos + 21] == "odra::types::CLType::Any"@[21]);
            assert(s[pos + 22] == "odra::types::CLType::Any"@[22]);
        },
        ClType::Key => {
            reveal_strlit("odra::types::CLType::Key");
            lemma_text_at(pre, "odra::types::CLType::Key"@, rest);
            assert(s[pos + 21] == "odra::types::CLType::Key"@[21]);
            assert(s[pos + 22] == "odra::types::CLType::Key"@[22]);
        },
        ClType::URef => {
            reveal_strlit("odra::types::CLType::URef");
            lemma_text_at(pre, "odra::types::CLType::URef"@, rest);
            assert(s[pos + 21] == "odra::types::CLType::URef"@[21]);
            assert(s[pos + 22] == "odra::types::CLType::URef"@[22]);
        },
        ClType::PublicKey => {
            reveal_strlit("odra::types::CLType::PublicKey");
            lemma_text_at(pre, "odra::types::CLType::PublicKey"@, rest);
            assert(s[pos + 21] == "odra::types::CLType::PublicKey"@[21]);
            assert(s[pos + 22] == "odra::types::CLType::PublicKey"@[22]);
        },
        _ => {},
    }
}

proof fn lemma_read_byte_array(t: ClType, pre: Seq<char>, rest: Seq<char>)
    requires
        t is ByteArray,
    ensures
        read_cl_type(pre + wrapped_type_text(t) + rest, pre.len() as int) == Some(
            (t, (pre.len() + wrapped_type_text(t).len()) as int),
        ),
    decreases t, 0int,
{
    reveal(read_cl_type);
    let s = pre + wrapped_type_text(t) + rest;
    let pos = pre.len() as int;
    match t {
        ClType::ByteArray(n) => {
            let l = "odra::types::CLType::ByteArray("@;
            reveal_strlit("odra::types::CLType::ByteArray(");
            reveal_strlit("u32)");
            let d = decimal_text(n as nat);
            lemma_decimal_reads_back(n as nat);
            assert(s =~= pre + l + (d + "u32)"@ + rest));
            lemma_text_at(pre, l, d + "u32)"@ + rest);
            assert(s[pos + 21] == 'B');
            assert(s[pos + 22] == 'y');
            let start = pos + 31;
            let end = start + d.len();
            assert(s =~= (pre + l) + d + ("u32)"@ + rest));
            assert forall|k: int| start <= k < end implies is_decimal_digit(#[trigger] s[k]) by {
                assert(s[k] == d[k - start]);
            }
            assert(s[end] == 'u');
            lemma_digits_end(s, start, end);
            assert(s.subrange(start, end) =~= d);
            assert(s =~= (pre + l + d) + "u32)"@ + rest);
            lemma_text_at(pre + l + d, "u32)"@, rest);
        },
        _ => {},
    }
}

proof fn lemma_read_option(t: ClType, pre: Seq<char>, rest: Seq<char>)
    requires
        t is Option,
    ensures
        read_cl_type(pre + wrapped_type_text(t) + rest, pre.len() as int) == Some(
            (t, (pre.len() + wrapped_type_text(t).len()) as int),
        ),
    decreases t, 0int,
{
    reveal(read_cl_type);
    let s = pre + wrapped_type_text(t) + rest;
    let pos = pre.len() as int;
    match t {
        ClType::Option(b) => {
            let l = "odra::types::CLType::Option(Box::new("@;
            reveal_strlit("odra::types::CLType::Option(Box::new(");
            reveal_strlit("))");
            let inner = wrapped_type_text(*b);
            assert(s =~= pre + l + (inner + "))"@ + rest));
            lemma_text_at(pre, l, inner + "))"@ + rest);
            assert(s[pos + 21] == 'O');
            assert(s =~= (pre + l) + inner + ("))"@ + rest));
            lemma_read_cl_type_at(*b, pre + l, "))"@ + rest);
            assert(s =~= (pre + l + inner) + "))"@ + rest);
            lemma_text_at(pre + l + inner, "))"@, rest);
        },
        _ => {},
    }
}

proof fn lemma_read_list(t: ClType, pre: Seq<char>, rest: Seq<char>)
    requires
        t is List,
    ensures
        read_cl_type(pre + wrapped_type_text(t) + rest, pre.len() as int) == Some(
            (t, (pre.len() + wrapped_type_text(t).len()) as int),
        ),
    decreases t, 0int,
{
    reveal(read_cl_type);
    let s = pre + wrapped_type_text(t) + rest;
    let pos = pre.len() as int;
    match t {
        ClType::List(b) => {
            let l = "odra::types::CLType::List(Box::new("@;
            reveal_strlit("odra::types::CLType::List(Box::new(");
            reveal_strlit("))");
            let inner = wrapped_type_text(*b);
            assert(s =~= pre + l + (inner + "))"@ + rest));
            lemma_text_at(pre, l, inner + "))"@ + rest);
            assert(s[pos + 21] == 'L');
            assert(s =~= (pre + l) + inner + ("))"@ + rest));
            lemma_read_cl_type_at(*b, pre + l, "))"@ + rest);
            assert(s =~= (pre + l + inner) + "))"@ + rest);
            lemma_text_at(pre + l + inner, "))"@, rest);
        },
        _ => {},
    }
}

proof fn lemma_read_tuple1(t: ClType, pre: Seq<char>, rest: Seq<char>)
    requires
        t is Tuple1,
    ensures
        read_cl_type(pre + wrapped_type_text(t) + rest, pre.len() as int) == Some(
            (t, (pre.len() + wrapped_type_text(t).len()) as int),
        ),
    decreases t, 0int,
{
    reveal(read_cl_type);
    let s = pre + wrapped_type_text(t) + rest;
    let pos = pre.len() as int;
    match t {
        ClType::Tuple1(b) => {
            let l = "odra::types::CLType::Tuple1(["@;
            reveal_strlit("odra::types::CLType::Tuple1([");
            reveal_strlit("])");
            let inner = wrapped_type_text(*b);
            assert(s =~= pre + l + (inner + "])"@ + rest));
            lemma_text_at(pre, l, inner + "])"@ + rest);
            assert(s[pos + 21] == 'T');
            assert(s[pos + 26] == '1');
            assert(s =~= (pre + l) + inner + ("])"@ + rest));
            lemma_read_cl_type_at(*b, pre + l, "])"@ + rest);
            assert(s =~= (pre + l + inner) + "])"@ + rest);
            lemma_text_at(pre + l + inner, "])"@, rest);
        },
        _ => {},
    }
}

#[verifier::spinoff_prover]
#[verifier::rlimit(60)]
proof fn lemma_read_result(t: ClType, pre: Seq<char>, rest: Seq<char>)
    requires
        t is Result,
    ensures
        read_cl_type(pre + wrapped_type_text(t) + rest, pre.len() as int) == Some(
            (t, (pre.len() + wrapped_type_text(t).len()) as int),
        ),
    decreases t, 0int,
{
    reveal(read_cl_type);
    let s = pre + wrapped_type_text(t) + rest;
    let pos = pre.len() as int;
    match t {
        ClType::Result { ok, err } => {
            let l = "odra::types::CLType::Result { ok: Box::new("@;
            let m = "), err: Box::new("@;
            let e = "), }"@;
            reveal_strlit("odra::types::CLType::Result { ok: Box::new(");
            reveal_strlit("), err: Box::new(");
            reveal_strlit("), }");
            let a = wrapped_type_text(*ok);
            let b = wrapped_type_text(*err);
            assert(s =~= pre + l + (a + m + b + e + rest));
            lemma_text_at(pre, l, a + m + b + e + rest);
            assert(s[pos + 21] == 'R');
            assert(s =~= (pre + l) + a + (m + b + e + rest));
            lemma_read_cl_type_at(*ok, pre + l, m + b + e + rest);
            assert(s =~= (pre + l + a) + m + (b + e + rest));
            lemma_text_at(pre + l + a, m, b + e + rest);
            assert(s =~= (pre + l + a + m) + b + (e + rest));
            lemma_read_cl_type_at(*err, pre + l + a + m, e + rest);
            assert(s =~= (pre + l + a + m + b) + e + rest);
            lemma_text_at(pre + l + a + m + b, e, rest);
        },
        _ => {},
    }
}

#[verifier::spinoff_prover]
#[verifier::rlimit(60)]
proof fn lemma_read_map_of(t: ClType, pre: Seq<char>, rest: Seq<char>)
    requires
        t is MapOf,
    ensures
        read_cl_type(pre + wrapped_type_text(t) + rest, pre.len() as int) == Some(
            (t, (pre.len() + wrapped_type_text(t).len()) as int),
        ),
    decreases t, 0int,
{
    reveal(read_cl_type);
    let s = pre + wrapped_type_text(t) + rest;
    let pos = pre.len() as int;
    match t {
        ClType::MapOf { key, value } => {
            let l = "odra::types::CLType::Map { key: Box::new("@;
            let m = "), value: Box::new("@;
            let e = "), }"@;
            reveal_strlit("odra::types::CLType::Map { key: Box::new(");
            reveal_strlit("), value: Box::new(");
            reveal_strlit("), }");
            let a = wrapped_type_text(*key);
            let b = wrapped_type_text(*value);
            assert(s =~= pre + l + (a + m + b + e + rest));
            lemma_text_at(pre, l, a + m + b + e + rest);
            assert(s[pos + 21] == 'M');
            assert(s =~= (pre + l) + a + (m + b + e + rest));
            lemma_read_cl_type_at(*key, pre + l, m + b + e + rest);
            assert(s =~= (pre + l + a) + m + (b + e + rest));
            lemma_text_at(pre + l + a, m, b + e + rest);
            assert(s =~= (pre + l + a + m) + b + (e + rest));
            lemma_read_cl_type_at(*value, pre + l + a + m, e + rest);
            assert(s =~= (pre + l + a + m + b) + e + rest);
            lemma_text_at(pre + l + a + m + b, e, rest);
        },
        _ => {},
    }
}

#[verifier::spinoff_prover]
#[verifier::rlimit(60)]
proof fn lemma_read_tuple2(t: ClType, pre: Seq<char>, rest: Seq<char>)
    requires
        t is Tuple2,
    ensures
        read_cl_type(pre + wrapped_type_text(t) + rest, pre.len() as int) == Some(
            (t, (pre.len() + wrapped_type_text(t).len()) as int),
        ),
    decreases t, 0int,
{
    reveal(read_cl_type);
    let s = pre + wrapped_type_text(t) + rest;
    let pos = pre.len() as int;
    match t {
        ClType::Tuple2(x, y) => {
            let l = "odra::types::CLType::Tuple2(["@;
            let m = ", "@;
            let e = "])"@;
            reveal_strlit("odra::types::CLType::Tuple2([");
            reveal_strlit(", ");
            reveal_strlit("])");
            let a = wrapped_type_text(*x);
            let b = wrapped_type_text(*y);
            assert(s =~= pre + l + (a + m + b + e + rest));
            lemma_text_at(pre, l, a + m + b + e + rest);
            assert(s[pos + 21] == 'T');
            assert(s[pos + 26] == '2');
            assert(s =~= (pre + l) + a + (m + b + e + rest));
            lemma_read_cl_type_at(*x, pre + l, m + b + e + rest);
            assert(s =~= (pre + l + a) + m + (b + e + rest));
            lemma_text_at(pre + l + a, m, b + e + rest);
            assert(s =~= (pre + l + a + m) + b + (e + rest));
            lemma_read_cl_type_at(*y, pre + l + a + m, e + rest);
            assert(s =~= (pre + l + a + m + b) + e + rest);
            lemma_text_at(pre + l + a + m + b, e, rest);
        },
        _ => {},
    }
}

#[verifier::spinoff_prover]
#[verifier::rlimit(60)]
proof fn lemma_read_tuple3(t: ClType, pre: Seq<char>, rest: Seq<char>)
    requires
        t is Tuple3,
    ensures
        read_cl_type(pre + wrapped_type_text(t) + rest, pre.len() as int) == Some(
            (t, (pre.len() + wrapped_type_text(t).len()) as int),
        ),
    decreases t, 0int,
{
    let s = pre + wrapped_type_text(t) + rest;
    let pos = pre.len() as int;
    match t {
        ClType::Tuple3(x, y, z) => {
            let l = "odra::types::CLType::Tuple2(["@;
            let m = ", "@;
            let e = "])"@;
            lemma_tuple_literals();
            let a = wrapped_type_text(*x);
            let b = wrapped_type_text(*y);
            let c = wrapped_type_text(*z);
            let p1 = pre + l;
            let p2 = p1 + a + m;
            let p3 = p2 + b;
            let p4 = p3 + m;
            let p5 = p4 + c;
            assert(s =~= p5 + e + rest);
            assert(text_at(s, pos, l) && s[pos + 21] == 'T' && s[pos + 26] == '2') by {
                assert(s =~= pre + l + (a + m + b + m + c + e + rest));
                lemma_text_at(pre, l, a + m + b + m + c + e + rest);
            }
            assert(read_cl_type(s, p1.len() as int) == Some((*x, (p1 + a).len() as int))) by {
                assert(s =~= p1 + a + (m + b + m + c + e + rest));
                lemma_read_cl_type_at(*x, p1, m + b + m + c + e + rest);
            }
            assert(text_at(s, (p1 + a).len() as int, m)) by {
                assert(s =~= (p1 + a) + m + (b + m + c + e + rest));
                lemma_text_at(p1 + a, m, b + m + c + e + rest);
            }
            assert(read_cl_type(s, p2.len() as int) == Some((*y, p3.len() as int))) by {
                assert(s =~= p2 + b + (m + c + e + rest));
                lemma_read_cl_type_at(*y, p2, m + c + e + rest);
            }
            assert(text_at(s, p3.len() as int, m) && !text_at(s, p3.len() as int, e)) by {
                assert(s =~= p3 + m + (c + e + rest));
                lemma_text_at(p3, m, c + e + rest);
                assert(s[p3.len() as int] == ',');
                lemma_not_text_at(s, p3.len() as int, e);
            }
            assert(read_cl_type(s, p4.len() as int) == Some((*z, p5.len() as int))) by {
                assert(s =~= p4 + c + (e + rest));
                lemma_read_cl_type_at(*z, p4, e + rest);
            }
            assert(text_at(s, p5.len() as int, e)) by {
                lemma_text_at(p5, e, rest);
            }
            lemma_read_three_items(s, pos, *x, *y, *z, (p1 + a).len() as int, p3.len() as int, p5.len() as int);
            assert(ClType::Tuple3(Box::new(*x), Box::new(*y), Box::new(*z)) == t);
        },
        _ => {},
    }
}

/// A `Tuple2` constructor given three items reads as a three-element tuple.
#[verifier::spinoff_prover]
proof fn lemma_read_three_items(s: Seq<char>, pos: int, x: ClType, y: ClType, z: ClType, e1: int, e2: int, e3: int)
    requires
        0 <= pos,
        pos + 29 <= s.len(),
        text_at(s, pos, "odra::types::CLType::Tuple2(["@),
        s[pos + 21] == 'T',
        s[pos + 26] == '2',
        read_cl_type(s, pos + 29) == Some((x, e1)),
        pos + 29 <= e1,
        e1 + 2 <= s.len(),
        text_at(s, e1, ", "@),
        read_cl_type(s, e1 + 2) == Some((y, e2)),
        e1 + 2 <= e2,
        e2 + 2 <= s.len(),
        !text_at(s, e2, "])"@),
        text_at(s, e2, ", "@),
        read_cl_type(s, e2 + 2) == Some((z, e3)),
        e2 + 2 <= e3,
        text_at(s, e3, "])"@),
    ensures
        read_cl_type(s, pos) == Some((ClType::Tuple3(Box::new(x), Box::new(y), Box::new(z)), e3 + 2)),
{
    reveal(read_cl_type);
}

/// The lengths and distinguishing characters of the pieces of a tuple's expression.
proof fn lemma_tuple_literals()
    ensures
        "odra::types::CLType::Tuple2(["@.len() == 29,
        "odra::types::CLType::Tuple2(["@[21] == 'T',
        "odra::types::CLType::Tuple2(["@[26] == '2',
        ", "@.len() == 2,
        ", "@[0] == ',',
        "])"@.len() == 2,
        "])"@[0] == ']',
{
    reveal_strlit("odra::types::CLType::Tuple2([");
    reveal_strlit(", ");
    reveal_strlit("])");
}

/// Reading the expression of `t`, written anywhere in a text and followed by anything,
/// gives back `t` and the end of its expression.
pub proof fn lemma_read_cl_type_at(t: ClType, pre: Seq<char>, rest: Seq<char>)
    ensures
        read_cl_type(pre + wrapped_type_text(t) + rest, pre.len() as int) == Some(
            (t, (pre.len() + wrapped_type_text(t).len()) as int),
        ),
    decreases t, 1int,
{
    if !(t is ByteArray || t is Option || t is List || t is Result || t is MapOf || t is Tuple1
        || t is Tuple2 || t is Tuple3) {
        lemma_read_plain_type(t, pre, rest);
    } else if t is ByteArray {
        lemma_read_byte_array(t, pre, rest);
    } else if t is Option {
        lemma_read_option(t, pre, rest);
    } else if t is List {
        lemma_read_list(t, pre, rest);
    } else if t is Tuple1 {
        lemma_read_tuple1(t, pre, rest);
    } else if t is Result {
        lemma_read_result(t, pre, rest);
    } else if t is MapOf {
        lemma_read_map_of(t, pre, rest);
    } else if t is Tuple2 {
        lemma_read_tuple2(t, pre, rest);
    } else if t is Tuple3 {
        lemma_read_tuple3(t, pre, rest);
    }
}

/// The expression that renders a type reads back as that type: rendering loses nothing.
pub proof fn lemma_wrapped_type_reads_back(t: ClType)
    ensures
        read_cl_type(wrapped_type_text(t), 0) == Some((t, wrapped_type_text(t).len() as int)),
{
    lemma_read_cl_type_at(t, Seq::empty(), Seq::empty());
    assert(Seq::<char>::empty() + wrapped_type_text(t) + Seq::<char>::empty() =~= wrapped_type_text(t));
}

/// Two types are rendered as the same expression only if they are the same type.
pub proof fn lemma_wrapped_type_text_injective(a: ClType, b: ClType)
    ensures
        wrapped_type_text(a) == wrapped_type_text(b) ==> a == b,
{
    lemma_wrapped_type_reads_back(a);
    lemma_wrapped_type_reads_back(b);
}

} // verus!
