//! The egui value types that groups carry, and the few egui constructors that the
//! library calls to make them.
//!
//! egui keeps coordinates, sizes and thicknesses as single-precision floats. The library
//! never computes with them: it hands whole numbers to egui's constructors, and it keeps
//! a float that it only stores by the IEEE-754 bit pattern that `to_bits` gives.

use vstd::prelude::*;

verus! {

/// A screen-space position (`egui::Pos2`), carried through the library unopened.
#[verifier::external_type_specification]
#[verifier::external_body]
pub struct ExPos2(egui::Pos2);

/// A two-dimensional extent (`egui::Vec2`), carried through the library unopened.
#[verifier::external_type_specification]
#[verifier::external_body]
pub struct ExVec2(egui::Vec2);

/// An axis-aligned rectangle (`egui::Rect`), carried through the library unopened.
#[verifier::external_type_specification]
#[verifier::external_body]
pub struct ExRect(egui::Rect);

/// An sRGBA colour with premultiplied alpha (`egui::Color32`), carried unopened.
#[verifier::external_type_specification]
#[verifier::external_body]
pub struct ExColor32(egui::Color32);

/// The index of a shape inside a paint layer (`egui::layers::ShapeIdx`), carried unopened.
#[verifier::external_type_specification]
#[verifier::external_body]
pub struct ExShapeIdx(egui::layers::ShapeIdx);

/// What `egui::pos2(x, y)` returns for whole-number coordinates.
pub uninterp spec fn pos2_at(x: u16, y: u16) -> egui::Pos2;

/// What `egui::vec2(x, y)` returns for whole-number components.
pub uninterp spec fn vec2_of(x: u16, y: u16) -> egui::Vec2;

/// What `<egui::Rect as From<[egui::Pos2; 2]>>::from([min, max])` returns.
pub uninterp spec fn rect_between(min: egui::Pos2, max: egui::Pos2) -> egui::Rect;

/// What `egui::Color32::from_rgba_premultiplied(r, g, b, a)` returns.
pub uninterp spec fn color32_premultiplied(r: u8, g: u8, b: u8, a: u8) -> egui::Color32;

/// Calls `egui::pos2` on `x` and `y`, each widened exactly from `u16` to a float.
/// The contract names the result: the same position for the same two numbers.
#[verifier::external_body]
pub(crate) fn make_pos2(x: u16, y: u16) -> (p: egui::Pos2)
    ensures
        p == pos2_at(x, y),
{
    egui::pos2(x.into(), y.into())
}

/// Calls `egui::vec2` on `x` and `y`, each widened exactly from `u16` to a float.
/// The contract names the result: the same extent for the same two numbers.
#[verifier::external_body]
pub(crate) fn make_vec2(x: u16, y: u16) -> (v: egui::Vec2)
    ensures
        v == vec2_of(x, y),
{
    egui::vec2(x.into(), y.into())
}

/// Calls `<egui::Rect as From<[egui::Pos2; 2]>>::from`, which makes the rectangle whose
/// corners are `min` and `max`. The contract names the result.
#[verifier::external_body]
pub(crate) fn make_rect(min: egui::Pos2, max: egui::Pos2) -> (r: egui::Rect)
    ensures
        r == rect_between(min, max),
{
    egui::Rect::from([min, max])
}

/// Calls `egui::Color32::from_rgba_premultiplied`, which stores the four bytes as given.
/// The contract names the result: the same colour for the same four bytes.
#[verifier::external_body]
pub(crate) fn make_color32(r: u8, g: u8, b: u8, a: u8) -> (c: egui::Color32)
    ensures
        c == color32_premultiplied(r, g, b, a),
{
    egui::Color32::from_rgba_premultiplied(r, g, b, a)
}

} // verus!
