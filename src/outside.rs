//! The calls this library makes into other crates and into the parts of std
//! that have no specification of their own. Each item states only what the
//! called function's documentation or source shows.
use crate::abi::WallTime;
use rand::{Rng, SeedableRng};
use vstd::prelude::*;

verus! {

/// The seeded generator shared by the attempts of one workflow instance.
#[verifier::external_type_specification]
#[verifier::external_body]
pub struct ExStdRng(rand::rngs::StdRng);

/// The reason phrase that `http::StatusCode::canonical_reason` gives for a code.
pub uninterp spec fn reason_phrase_of(code: u16) -> Option<Seq<char>>;

/// The text that `http::StatusCode`'s `Display` gives for a code.
pub uninterp spec fn status_display_of(code: u16) -> Seq<char>;

/// The text that `String::from_utf8_lossy` gives for a byte string.
pub uninterp spec fn lossy_text_of(bytes: Seq<u8>) -> Seq<char>;

/// Relies on `uuid::Uuid::new_v4` and its `Display`: a fresh random
/// correlation id in hyphenated form. Nothing is promised of its value.
#[verifier::external_body]
pub(crate) fn fresh_id() -> (r: String) {
    uuid::Uuid::new_v4().to_string()
}

/// Relies on `std::time::SystemTime::now` and `duration_since(UNIX_EPOCH)`:
/// the wall-clock time, or `None` when the clock reads before the epoch.
/// `subsec_nanos` is documented to be below one billion.
#[verifier::external_body]
pub(crate) fn wall_clock() -> (r: Option<WallTime>)
    ensures
        r matches Some(t) ==> t.tv_nsec < 1_000_000_000,
{
    match std::time::SystemTime::now().duration_since(std::time::UNIX_EPOCH) {
        Ok(d) => Some(WallTime { tv_sec: d.as_secs(), tv_nsec: d.subsec_nanos() }),
        Err(_) => None,
    }
}

/// Relies on `rand::SeedableRng::from_entropy`: a generator seeded from the
/// operating system's entropy source. Nothing is promised of its state.
#[verifier::external_body]
pub(crate) fn entropy_rng() -> (r: rand::rngs::StdRng) {
    rand::rngs::StdRng::from_entropy()
}

/// Relies on `rand::Rng::gen::<bool>`: one draw from the generator.
#[verifier::external_body]
pub(crate) fn draw_bool(rng: &mut rand::rngs::StdRng) -> (r: bool) {
    rng.gen::<bool>()
}

/// Relies on `rand::Rng::gen::<i32>`: one draw, handed on as its bit pattern.
#[verifier::external_body]
pub(crate) fn draw_i32_bits(rng: &mut rand::rngs::StdRng) -> (r: u32) {
    rng.gen::<i32>() as u32
}

/// Relies on `http::StatusCode::from_u16` and `canonical_reason`: the
/// standard reason phrase of a code, if it has one. `from_u16` accepts the
/// codes 100 to 999.
#[verifier::external_body]
pub(crate) fn canonical_reason(code: u16) -> (r: Option<String>)
    requires
        100 <= code <= 999,
    ensures
        match r {
            Some(s) => reason_phrase_of(code) == Some(s@),
            None => reason_phrase_of(code) is None,
        },
{
    http::StatusCode::from_u16(code).ok().and_then(|s| s.canonical_reason()).map(
        |s| s.to_string(),
    )
}

/// Relies on `http::StatusCode::from_u16` and the `Display` of the code.
#[verifier::external_body]
pub(crate) fn status_display(code: u16) -> (r: String)
    requires
        100 <= code <= 999,
    ensures
        r@ == status_display_of(code),
{
    match http::StatusCode::from_u16(code) {
        Ok(s) => s.to_string(),
        Err(_) => String::new(),
    }
}

/// Relies on `String::from_utf8_lossy`: the bytes as text, invalid
/// sequences replaced; an empty input gives an empty text.
#[verifier::external_body]
pub(crate) fn lossy_text(bytes: &Vec<u8>) -> (r: String)
    ensures
        r@ == lossy_text_of(bytes@),
        bytes@.len() == 0 ==> r@.len() == 0,
{
    String::from_utf8_lossy(bytes).into_owned()
}

} // verus!
