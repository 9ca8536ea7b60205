//! Generation of complete editor color themes.
//!
//! For a small set of declared appearance variants, the crate derives a
//! named color palette (a parameterized model with structural
//! inheritance/override) and binds a fixed catalog of workspace regions and
//! syntax scopes to palette colors, yielding one complete, non-contradictory
//! rule set per variant. Persisting the finished rule sets is left to an
//! external theme builder.

pub mod color;
pub mod palette;
pub mod rules;
pub mod scope;
pub mod variants;
