//! The types and functions that the library takes from `egui` and `uuid`.
//!
//! Everything here is trusted: Verus reads the contracts below and not the
//! bodies, which make the outside calls.

use vstd::prelude::*;

use egui::{Id, Pos2, Rect, Vec2, ViewportId};

verus! {

/// `egui::Id`, carried through as an opaque value.
#[verifier::external_type_specification]
#[verifier::external_body]
pub struct ExId(Id);

/// `egui::ViewportId`, carried through as an opaque value.
#[verifier::external_type_specification]
#[verifier::external_body]
pub struct ExViewportId(ViewportId);

/// `egui::Rect`, carried through as an opaque value.
#[verifier::external_type_specification]
#[verifier::external_body]
pub struct ExRect(Rect);

/// `egui::Pos2`, carried through as an opaque value.
#[verifier::external_type_specification]
#[verifier::external_body]
pub struct ExPos2(Pos2);

/// `egui::Vec2`, carried through as an opaque value.
#[verifier::external_type_specification]
#[verifier::external_body]
pub struct ExVec2(Vec2);

/// `Clone` of `egui::Rect`, which derives `Copy`: the clone is the value itself.
pub assume_specification[ <Rect as Clone>::clone ](r: &Rect) -> (c: Rect)
    ensures
        c == *r,
;

/// The rectangle `recorded.unwrap_or(egui::Rect::NOTHING)`: the recorded one,
/// or else egui's rectangle that holds no point.
pub uninterp spec fn spec_rect_or_nothing(recorded: Option<Rect>) -> Rect;

/// Calls `Option::unwrap_or` with `egui::Rect::NOTHING`, the rectangle that holds
/// no point: the recorded rectangle if there is one. What `NOTHING` is holds
/// floating-point values and is named, not described.
#[verifier::external_body]
pub(crate) fn rect_or_nothing(recorded: Option<Rect>) -> (r: Rect)
    ensures
        r == spec_rect_or_nothing(recorded),
        recorded matches Some(s) ==> r == s,
{
    recorded.unwrap_or(Rect::NOTHING)
}

/// The `Id` that `egui::Id::new` derives from a string.
pub uninterp spec fn spec_id_of_str(source: Seq<char>) -> Id;

/// The viewport ID that `egui::ViewportId::from_hash_of` derives from an `Id`.
pub uninterp spec fn spec_viewport_id_of(source: Id) -> ViewportId;

/// Calls `egui::Id::new` on a string. It hashes the string with fixed seeds, so
/// the result depends on the string alone; it is named, not described.
#[verifier::external_body]
pub(crate) fn id_new(source: &str) -> (r: Id)
    ensures
        r == spec_id_of_str(source@),
{
    Id::new(source)
}

/// Calls `egui::ViewportId::from_hash_of` on an `Id`. It hashes the `Id` with
/// fixed seeds, so the result depends on the `Id` alone; it is named, not described.
#[verifier::external_body]
pub(crate) fn viewport_id_from_hash_of(source: Id) -> (r: ViewportId)
    ensures
        r == spec_viewport_id_of(source),
{
    ViewportId::from_hash_of(source)
}

/// The shape of a version-4 UUID in hyphenated form: 36 characters, hyphens at
/// positions 8, 13, 18 and 23, and the version digit `4` at position 14.
pub open spec fn is_uuid_v4_text(s: Seq<char>) -> bool {
    &&& s.len() == 36
    &&& s[8] == '-'
    &&& s[13] == '-'
    &&& s[18] == '-'
    &&& s[23] == '-'
    &&& s[14] == '4'
}

/// Calls `uuid::Uuid::new_v4` and formats the result with `to_string`.
///
/// The value is random. What is claimed holds of every outcome, as `uuid`'s
/// hyphenated formatter writes it: 36 characters, hyphens at positions 8, 13, 18
/// and 23, and the version digit `4` at position 14.
#[verifier::external_body]
pub(crate) fn uuid_v4_string() -> (s: String)
    ensures
        is_uuid_v4_text(s@),
{
    uuid::Uuid::new_v4().to_string()
}

} // verus!
