//! Identity of stored items: an explicit id when the caller gave one, else a
//! content hash of the raw text.

use vstd::prelude::*;

verus! {

/// The lower-case hex MD5 digest of a text's UTF-8 bytes.
pub uninterp spec fn md5_hex(text: Seq<char>) -> Seq<char>;

/// Relies on `md5::compute` and the digest's `LowerHex` format, which writes
/// each of the sixteen digest bytes as two hex digits.
#[verifier::external_body]
fn content_hash(text: &str) -> (r: String)
    ensures
        r@ == md5_hex(text@),
        r@.len() == 32,
{
    format!("{:x}", md5::compute(text))
}

/// The id an item is stored under: its own id when present and non-empty,
/// else the content hash of its text.
pub open spec fn resolved_id(id: Option<Seq<char>>, text: Seq<char>) -> Seq<char> {
    match id {
        Some(i) => if i.len() > 0 { i } else { md5_hex(text) },
        None => md5_hex(text),
    }
}

/// The view of an optional string.
pub open spec fn opt_view(o: Option<String>) -> Option<Seq<char>> {
    match o {
        Some(s) => Some(s@),
        None => None,
    }
}

/// Resolves the id of an item with optional `id` and raw `text`.
pub fn resolve(id: &Option<String>, text: &String) -> (r: String)
    ensures
        r@ == resolved_id(opt_view(*id), text@),
        r@.len() > 0,
{
    match id {
        Some(i) => {
            if i.as_str().is_empty() {
                content_hash(text.as_str())
            } else {
                i.clone()
            }
        },
        None => content_hash(text.as_str()),
    }
}

/// Resolving is deterministic: two items without an explicit id and with the
/// same raw text get the same id, on every call.
pub proof fn lemma_resolve_deterministic(a: Option<Seq<char>>, b: Option<Seq<char>>, text: Seq<char>)
    requires
        a is None || a == Some(Seq::<char>::empty()),
        b is None || b == Some(Seq::<char>::empty()),
    ensures
        resolved_id(a, text) == resolved_id(b, text),
        resolved_id(a, text) == md5_hex(text),
{
}

/// An explicit non-empty id is kept as it is, whatever the text.
pub proof fn lemma_explicit_id_kept(id: Seq<char>, text: Seq<char>)
    requires
        id.len() > 0,
    ensures
        resolved_id(Some(id), text) == id,
{
}

} // verus!
