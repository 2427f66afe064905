//! The crate's only trusted boundary: extraction of one field of one
//! response child through `serde_json`.
//!
//! What a field of a decoded body holds is a function of the body text
//! and the path alone, far too long to state here; the two uninterpreted
//! names stand for it, and the two extractors are trusted to return
//! exactly the named value. Everything assembled from the extracted
//! plain values is verified in `reddit`.

use vstd::prelude::*;

verus! {

/// The string member `field` of the object at `outer`.`list`[`idx`].`inner`
/// of the JSON text `body`, where `body` is well-formed and that path
/// leads through objects and an array to a string; nothing otherwise.
pub uninterp spec fn child_str_of(
    body: Seq<char>,
    outer: Seq<char>,
    list: Seq<char>,
    idx: int,
    inner: Seq<char>,
    field: Seq<char>,
) -> Option<Seq<char>>;

/// The integer member `field` of the object at `outer`.`list`[`idx`].`inner`
/// of the JSON text `body`, where `body` is well-formed, that path leads
/// there, and the number fits a 64-bit signed integer; nothing otherwise.
pub uninterp spec fn child_int_of(
    body: Seq<char>,
    outer: Seq<char>,
    list: Seq<char>,
    idx: int,
    inner: Seq<char>,
    field: Seq<char>,
) -> Option<int>;

/// Relies on `serde_json::from_str`, `Value::get` and `Value::as_str`:
/// decodes `body` and reads the string at `outer`.`list`[`idx`].`inner`.`field`.
/// The result depends on the arguments alone.
#[verifier::external_body]
pub fn child_str(body: &str, outer: &str, list: &str, idx: usize, inner: &str, field: &str) -> (r:
    Option<String>)
    ensures
        child_str_of(body@, outer@, list@, idx as int, inner@, field@) == match r {
            Option::Some(s) => Option::Some(s@),
            Option::None => Option::None::<Seq<char>>,
        },
{
    let decoded = serde_json::from_str::<serde_json::Value>(body).ok()?;
    let s = decoded.get(outer)?.get(list)?.get(idx)?.get(inner)?.get(field)?.as_str()?;
    Some(s.to_owned())
}

/// Relies on `serde_json::from_str`, `Value::get` and `Value::as_i64`:
/// decodes `body` and reads the integer at `outer`.`list`[`idx`].`inner`.`field`.
/// The result depends on the arguments alone.
#[verifier::external_body]
pub fn child_int(body: &str, outer: &str, list: &str, idx: usize, inner: &str, field: &str) -> (r:
    Option<i64>)
    ensures
        child_int_of(body@, outer@, list@, idx as int, inner@, field@) == match r {
            Option::Some(v) => Option::Some(v as int),
            Option::None => Option::None::<int>,
        },
{
    let decoded = serde_json::from_str::<serde_json::Value>(body).ok()?;
    decoded.get(outer)?.get(list)?.get(idx)?.get(inner)?.get(field)?.as_i64()
}

} // verus!
