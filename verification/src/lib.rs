//! A single-line text-input widget for an immediate-mode UI.
//!
//! The crate composes an editable text box with an optional label. A caller
//! builds an [`input::InputText`] configuration, chains setters for the
//! optional fields, and finalizes it against a mutable [`ui::Ui`] context and
//! a mutable text buffer. Finalization resolves the widget geometry (explicit
//! overrides win over computed defaults), forwards masking, filtering, font
//! and margin options to the inner editable box, applies the pending
//! keystrokes to the buffer, and draws the label beside the box.
//!
//! Geometry is measured in integer units, and the width fraction reserved for
//! the editable box is an exact rational, so that every layout computation
//! carries a contract.

pub mod editbox;
pub mod filter;
pub mod geom;
pub mod input;
pub mod ui;
