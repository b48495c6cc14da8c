//! Outbound request metadata: the `tonic` metadata map as this crate sees it,
//! and best-effort insertion of text headers.

use tonic::metadata::{Ascii, MetadataMap, MetadataValue};
use vstd::multiset::Multiset;
use vstd::prelude::*;

verus! {

/// Declares `tonic::metadata::MetadataMap`, the header map of an outbound call.
#[verifier::external_type_specification]
#[verifier::external_body]
pub struct ExMetadataMap(MetadataMap);

/// The `(key, value)` pairs a metadata map holds, one per appended value.
pub uninterp spec fn metadata_entries(m: MetadataMap) -> Multiset<(Seq<char>, Seq<char>)>;

/// Bound on the number of values under which appending never fails: the
/// underlying `http::HeaderMap` may try to grow past its maximum size, and
/// panic, from 6554 distinct names on (after a run of hash collisions), and
/// a map never holds more names than values.
pub const METADATA_MAX_SIZE: usize = 6554;

/// The characters a text header value may hold: a tab, or anything from the
/// space upwards except DEL (a non-ASCII character encodes to bytes above DEL).
pub open spec fn header_char_ok(c: char) -> bool {
    c == '\t' || (' ' <= c && c != '\x7f')
}

/// A text may be sent as a header value.
pub open spec fn header_value_ok(s: Seq<char>) -> bool {
    forall|i: int| 0 <= i < s.len() ==> #[trigger] header_char_ok(s[i])
}

/// The characters of a lower-case header name: letters, digits and the
/// token punctuation that HTTP/2 header names admit.
pub open spec fn key_char_ok(c: char) -> bool {
    ||| ('a' <= c && c <= 'z')
    ||| ('0' <= c && c <= '9')
    ||| c == '!' || c == '"' || c == '#' || c == '$' || c == '%' || c == '&' || c == '\''
    ||| c == '*' || c == '+' || c == '-' || c == '.' || c == '^' || c == '_' || c == '`'
    ||| c == '|' || c == '~'
}

/// A text key of a metadata map: a non-empty lower-case token that does not
/// carry the `-bin` suffix reserved for binary values.
pub open spec fn metadata_key_ok(k: Seq<char>) -> bool {
    &&& 0 < k.len() <= 65535
    &&& forall|i: int| 0 <= i < k.len() ==> #[trigger] key_char_ok(k[i])
    &&& !(k.len() >= 4 && k.subrange(k.len() - 4, k.len() as int) == "-bin"@)
}

/// Whether `s` can be sent as a header value.
pub fn header_value_encodable(s: &str) -> (r: bool)
    ensures
        r == header_value_ok(s@),
{
    let n = s.unicode_len();
    let mut i: usize = 0;
    while i < n
        invariant
            n == s@.len(),
            i <= n,
            forall|j: int| 0 <= j < i ==> #[trigger] header_char_ok(s@[j]),
        decreases n - i,
    {
        let c = s.get_char(i);
        if !(c == '\t' || (' ' <= c && c != '\x7f')) {
            assert(!header_char_ok(s@[i as int]));
            return false;
        }
        i = i + 1;
    }
    true
}

/// `key` may be appended to `m` without a panic.
pub open spec fn append_allowed(m: MetadataMap, key: Seq<char>) -> bool {
    metadata_key_ok(key) && metadata_entries(m).len() + 1 < METADATA_MAX_SIZE
}

/// What appending `value` under `key` adds: the pair when the value is a
/// valid header value, nothing otherwise.
pub open spec fn header_if_valid(key: Seq<char>, value: Seq<char>) -> Multiset<(Seq<char>, Seq<char>)> {
    if header_value_ok(value) {
        Multiset::singleton((key, value))
    } else {
        Multiset::empty()
    }
}

/// Relies on `FromStr for MetadataValue<Ascii>` and `MetadataMap::append`.
/// Parsing defers to `http::HeaderValue::from_str`, which accepts a text
/// exactly when each of its bytes is a tab or at least 32 and not 127, and
/// keeps the text; `append` adds the value to those of `key`, keeping the
/// earlier ones. `append` is reached only for a value that parsed, and it
/// panics on a key that is not a valid lower-case header name, on a `-bin`
/// key, and where the map would have to grow past its maximum size. The two
/// calls share one item because the parsed value's type cannot be named here.
#[verifier::external_body]
pub(crate) fn append_if_valid(map: &mut MetadataMap, key: &'static str, value: &str) -> (r: bool)
    requires
        header_value_ok(value@) ==> append_allowed(*old(map), key@),
    ensures
        r == header_value_ok(value@),
        metadata_entries(*final(map)) == metadata_entries(*old(map)).add(
            header_if_valid(key@, value@),
        ),
{
    match value.parse::<MetadataValue<Ascii>>() {
        Ok(v) => {
            map.append(key, v);
            true
        },
        Err(_) => false,
    }
}

/// Best-effort insertion of text headers.
pub trait MetadataExt: Sized {
    /// `value` may be offered under `key` without a panic.
    spec fn can_append(&self, key: Seq<char>, value: Seq<char>) -> bool;

    /// `after` is `self` with `value` appended under `key` where it is a valid
    /// header value, and `self` unchanged otherwise.
    spec fn appended(&self, key: Seq<char>, value: Seq<char>, after: &Self) -> bool;

    /// Appends `value` under `key` when it can be encoded as a header value,
    /// and skips it otherwise; `err_message` names the header for a caller
    /// that reports skipped ones. Returns `true` when the value was appended.
    fn safe_append(&mut self, key: &'static str, value: &str, err_message: &str) -> (r: bool)
        requires
            old(self).can_append(key@, value@),
        ensures
            r == header_value_ok(value@),
            old(self).appended(key@, value@, final(self)),
    ;
}

impl MetadataExt for MetadataMap {
    open spec fn can_append(&self, key: Seq<char>, value: Seq<char>) -> bool {
        header_value_ok(value) ==> append_allowed(*self, key)
    }

    open spec fn appended(&self, key: Seq<char>, value: Seq<char>, after: &Self) -> bool {
        metadata_entries(*after) == metadata_entries(*self).add(header_if_valid(key, value))
    }

    fn safe_append(&mut self, key: &'static str, value: &str, _err_message: &str) -> (r: bool) {
        append_if_valid(self, key, value)
    }
}

} // verus!
