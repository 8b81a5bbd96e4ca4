use vstd::prelude::*;
use vstd::string::*;
use vstd::utf8::{decode_utf8, valid_utf8};

use crate::target::{Target, ValueType};
use crate::text::{decimal, push_decimal, push_signed_decimal, signed_decimal};

verus! {

/// A value as an agent returns it in a variable binding, by its protocol type.
#[derive(Clone, Debug)]
pub enum Scalar {
    Integer(i64),
    Counter32(u32),
    Counter64(u64),
    Unsigned32(u32),
    Opaque(Vec<u8>),
    OctetString(Vec<u8>),
    /// Any other protocol type (null, timeticks, an address, ...).
    Other,
}

/// The value type that a scalar's protocol tag corresponds to.
pub open spec fn scalar_type(v: Scalar) -> Option<ValueType> {
    match v {
        Scalar::Integer(_) => Some(ValueType::Integer),
        Scalar::Counter32(_) => Some(ValueType::Counter32),
        Scalar::Counter64(_) => Some(ValueType::Counter64),
        Scalar::Unsigned32(_) => Some(ValueType::Unsigned32),
        Scalar::Opaque(_) => Some(ValueType::Opaque),
        Scalar::OctetString(_) => Some(ValueType::OctetString),
        Scalar::Other => None,
    }
}

/// The order in which the types are tried for a target that expects any type.
pub open spec fn unknown_priority() -> Seq<ValueType> {
    seq![
        ValueType::Counter32,
        ValueType::Unsigned32,
        ValueType::Counter64,
        ValueType::Integer,
        ValueType::Opaque,
        ValueType::OctetString,
    ]
}

/// Whether a target expecting `expected` accepts `v`: its tag must be the expected one,
/// or, for `Unknown`, one of the types in `unknown_priority`.
pub open spec fn accepts(expected: ValueType, v: Scalar) -> bool {
    if expected == ValueType::Unknown {
        exists|i: int| 0 <= i < 6 && scalar_type(v) == Some(#[trigger] unknown_priority()[i])
    } else {
        scalar_type(v) == Some(expected)
    }
}

/// What `String::from_utf8_lossy` makes of some bytes.
pub uninterp spec fn utf8_lossy_of(b: Seq<u8>) -> Seq<char>;

/// What `Debug` writes for a string: the text in double quotes, with escapes.
pub uninterp spec fn debug_quote_of(s: Seq<char>) -> Seq<char>;

/// Printable ASCII that `Debug` leaves as it is.
pub open spec fn plain_text(s: Seq<char>) -> bool {
    forall|i: int|
        0 <= i < s.len() ==> ' ' <= #[trigger] s[i] && s[i] <= '~' && s[i] != '"' && s[i] != '\\'
            && s[i] != '\''
}

/// Relies on `String::from_utf8_lossy`: valid UTF-8 is decoded as it is, and
/// invalid sequences become replacement characters.
#[verifier::external_body]
fn lossy_text(b: &[u8]) -> (r: String)
    ensures
        r@ == utf8_lossy_of(b@),
        valid_utf8(b@) ==> r@ == decode_utf8(b@),
{
    String::from_utf8_lossy(b).into_owned()
}

/// Relies on `<str as Debug>::fmt`: the text between double quotes, where printable
/// ASCII other than quotes and backslashes stands as it is.
#[verifier::external_body]
fn debug_quoted(s: &str) -> (r: String)
    ensures
        r@ == debug_quote_of(s@),
        plain_text(s@) ==> r@ == seq!['"'] + s@ + seq!['"'],
{
    format!("{:?}", s)
}

/// The text of an accepted value: decimal for the numeric types, the bytes decoded as
/// UTF-8 (lossily) and quoted for the octet types.
pub open spec fn scalar_text(v: Scalar) -> Seq<char> {
    match v {
        Scalar::Integer(n) => signed_decimal(n as int),
        Scalar::Counter32(n) => decimal(n as nat),
        Scalar::Counter64(n) => decimal(n as nat),
        Scalar::Unsigned32(n) => decimal(n as nat),
        Scalar::Opaque(b) => debug_quote_of(utf8_lossy_of(b@)),
        Scalar::OctetString(b) => debug_quote_of(utf8_lossy_of(b@)),
        Scalar::Other => Seq::empty(),
    }
}

/// The text of the value in a reply for a target expecting `expected`; none when the
/// reply holds no binding or the target does not accept it.
pub open spec fn value_text(expected: ValueType, binding: Option<Scalar>) -> Option<Seq<char>> {
    match binding {
        Some(v) => if accepts(expected, v) {
            Some(scalar_text(v))
        } else {
            None
        },
        None => None,
    }
}

/// Renders a value accepted by a target expecting `expected`.
pub fn render_value(expected: ValueType, binding: &Option<Scalar>) -> (r: Option<String>)
    ensures
        r is Some <==> value_text(expected, *binding) is Some,
        r is Some ==> r->0@ == value_text(expected, *binding)->0,
{
    let v = match binding {
        Some(v) => v,
        None => {
            return None;
        },
    };
    proof {
        if expected == ValueType::Unknown && scalar_type(*v) is Some {
            let t = scalar_type(*v)->0;
            let i: int = if t == ValueType::Counter32 {
                0
            } else if t == ValueType::Unsigned32 {
                1
            } else if t == ValueType::Counter64 {
                2
            } else if t == ValueType::Integer {
                3
            } else if t == ValueType::Opaque {
                4
            } else {
                5
            };
            assert(scalar_type(*v) == Some(unknown_priority()[i]));
        }
    }
    let any = expected == ValueType::Unknown;
    let mut out = String::new();
    match v {
        Scalar::Counter32(n) => {
            if !any && expected != ValueType::Counter32 {
                return None;
            }
            push_decimal(&mut out, *n as u64);
        },
        Scalar::Unsigned32(n) => {
            if !any && expected != ValueType::Unsigned32 {
                return None;
            }
            push_decimal(&mut out, *n as u64);
        },
        Scalar::Counter64(n) => {
            if !any && expected != ValueType::Counter64 {
                return None;
            }
            push_decimal(&mut out, *n);
        },
        Scalar::Integer(n) => {
            if !any && expected != ValueType::Integer {
                return None;
            }
            push_signed_decimal(&mut out, *n);
        },
        Scalar::Opaque(b) => {
            if !any && expected != ValueType::Opaque {
                return None;
            }
            let text = lossy_text(b.as_slice());
            out = debug_quoted(text.as_str());
        },
        Scalar::OctetString(b) => {
            if !any && expected != ValueType::OctetString {
                return None;
            }
            let text = lossy_text(b.as_slice());
            out = debug_quoted(text.as_str());
        },
        Scalar::Other => {
            return None;
        },
    }
    assert(out@ =~= scalar_text(*v));
    Some(out)
}

} // verus!
