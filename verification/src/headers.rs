//! The header fields of an HTTP request, as the `http` crate keeps them.
use http::header::{HeaderMap, HeaderValue, ToStrError};
use vstd::prelude::*;
use vstd::string::*;

verus! {

/// The header map of the `http` crate.
#[verifier::external_type_specification]
#[verifier::external_body]
#[verifier::reject_recursive_types(T)]
pub struct ExHeaderMap<T>(HeaderMap<T>);

/// A header value of the `http` crate.
#[verifier::external_type_specification]
#[verifier::external_body]
pub struct ExHeaderValue(HeaderValue);

/// The error of `HeaderValue::to_str`.
#[verifier::external_type_specification]
#[verifier::external_body]
pub struct ExToStrError(ToStrError);

/// The bytes that a header value holds, those that `HeaderValue::as_bytes` gives.
pub uninterp spec fn header_value_bytes(value: HeaderValue) -> Seq<u8>;

/// The fields that a header map holds, each a name and the bytes of a value, in the order in
/// which `HeaderMap::iter` visits them.
pub uninterp spec fn header_fields(map: HeaderMap<HeaderValue>) -> Seq<(Seq<char>, Seq<u8>)>;

/// Whether a byte is visible ASCII, a space or a tab.
pub open spec fn is_visible(b: u8) -> bool {
    32 <= b < 127 || b == 9
}

/// Whether a byte string is text: every byte is visible ASCII, a space or a tab.
pub open spec fn is_text(bytes: Seq<u8>) -> bool {
    forall|i: int| 0 <= i < bytes.len() ==> is_visible(#[trigger] bytes[i])
}

/// The text that ASCII bytes spell.
pub open spec fn text(bytes: Seq<u8>) -> Seq<char> {
    Seq::new(bytes.len(), |i: int| bytes[i] as char)
}

/// `http::HeaderValue::to_str` gives the bytes of a value as text exactly when all of them are
/// visible ASCII, spaces or tabs.
pub assume_specification[ HeaderValue::to_str ](value: &HeaderValue) -> (r: Result<
    &str,
    ToStrError,
>)
    ensures
        r is Ok <==> is_text(header_value_bytes(*value)),
        r matches Ok(s) ==> s@ == text(header_value_bytes(*value)),
;

/// `http::HeaderMap::iter` visits every field of a map once, a name with each of its values.
/// The fields are handed out here in that order, with the names as text.
#[verifier::external_body]
pub(crate) fn fields<'a>(map: &'a HeaderMap<HeaderValue>) -> (r: Vec<(&'a str, &'a HeaderValue)>)
    ensures
        r@.len() == header_fields(*map).len(),
        forall|i: int|
            0 <= i < r@.len() ==> (#[trigger] r@[i]).0@ == header_fields(*map)[i].0
                && header_value_bytes(*r@[i].1) == header_fields(*map)[i].1,
{
    map.iter().map(|(name, value)| (name.as_str(), value)).collect()
}

/// Whether a header name, in the lower case in which names are kept, is `host`.
pub fn is_host(name: &str) -> (r: bool)
    ensures
        r == (name@ == "host"@),
{
    proof {
        reveal_strlit("host");
    }
    let r: bool = name.unicode_len() == 4 && name.get_char(0) == 'h' && name.get_char(1) == 'o'
        && name.get_char(2) == 's' && name.get_char(3) == 't';
    assert(r ==> name@ =~= "host"@);
    r
}

/// Whether `i` is the position of the first of `names` that is `host`.
pub open spec fn first_host_at(names: Seq<Seq<char>>, i: int) -> bool {
    &&& 0 <= i < names.len()
    &&& names[i] == "host"@
    &&& forall|j: int| 0 <= j < i ==> #[trigger] names[j] != "host"@
}

/// The names of a list of fields.
pub open spec fn names<V>(fields: Seq<(&str, V)>) -> Seq<Seq<char>> {
    fields.map_values(|f: (&str, V)| f.0@)
}

/// The position of the first field that is named `host`.
pub fn find_host<V>(fields: &Vec<(&str, V)>) -> (r: Option<usize>)
    ensures
        r matches Some(i) ==> first_host_at(names(fields@), i as int),
        r is None ==> !names(fields@).contains("host"@),
        r matches Some(i) ==> i < fields@.len() && fields@[i as int].0@ == "host"@,
        forall|j: int|
            0 <= j < fields@.len() && (r matches Some(i) ==> j < i) ==> (#[trigger] fields@[j]).0@
                != "host"@,
{
    let mut i: usize = 0;
    while i < fields.len()
        invariant
            i <= fields@.len(),
            forall|j: int| 0 <= j < i ==> #[trigger] names(fields@)[j] != "host"@,
            forall|j: int| 0 <= j < i ==> (#[trigger] fields@[j]).0@ != "host"@,
        decreases fields@.len() - i,
    {
        if is_host(fields[i].0) {
            return Some(i);
        }
        i = i + 1;
    }
    None
}

/// Bytes are text exactly when each of them is visible ASCII, a space or a tab.
pub proof fn law_text_is_visible(bytes: Seq<u8>)
    ensures
        is_text(bytes) <==> forall|i: int|
            0 <= i < bytes.len() ==> (32 <= #[trigger] bytes[i] <= 126 || bytes[i] == 9),
{
    assert forall|i: int| 0 <= i < bytes.len() implies (is_visible(#[trigger] bytes[i]) <==> (32
        <= bytes[i] <= 126 || bytes[i] == 9)) by {}
    if forall|i: int| 0 <= i < bytes.len() ==> (32 <= #[trigger] bytes[i] <= 126 || bytes[i] == 9) {
        assert forall|i: int| 0 <= i < bytes.len() implies is_visible(#[trigger] bytes[i]) by {}
    }
}

/// A text has one character for each byte, and the number of the character is the byte.
pub proof fn law_text_spells_its_bytes(bytes: Seq<u8>)
    ensures
        text(bytes).len() == bytes.len(),
        forall|i: int| 0 <= i < bytes.len() ==> (#[trigger] text(bytes)[i]) as u32 == bytes[i],
{
}

} // verus!
