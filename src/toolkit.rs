//! The plain data types of the egui toolkit that the library hands over.
//!
//! Each declaration below lets Verus read the public fields or variants of the
//! toolkit's own type, so that contracts can speak of them.

use vstd::prelude::*;

verus! {

/// egui's `Key`: a keyboard key, a plain enum without fields.
#[verifier::external_type_specification]
pub struct ExKey(egui::Key);

/// egui's `Modifiers`: five public `bool` fields.
#[verifier::external_type_specification]
pub struct ExModifiers(egui::Modifiers);

/// egui's `TouchPhase`: a plain enum without fields.
#[verifier::external_type_specification]
pub struct ExTouchPhase(egui::TouchPhase);

/// egui's `Theme`: a plain enum without fields.
#[verifier::external_type_specification]
pub struct ExTheme(egui::Theme);

/// epaint's `Margin` (re-exported by egui): four public `i8` fields.
#[verifier::external_type_specification]
pub struct ExMargin(egui::Margin);

} // verus!
