//! Focus management and event dispatch for forms of interactive text-mode
//! input widgets, together with the state machine backing a text-input widget.
//!
//! A form is an ordered, fixed collection of named widget states plus one
//! "currently focused" slot. The engine in [`form`] routes events to the
//! focused widget and cycles focus over the fields; [`text_input`] holds the
//! concrete text-input widget state and its editing rules; [`registry`]
//! builds a form from a declarative field list, and [`struct_form`] shows
//! the same glue written out over a struct's own fields. [`text_input_view`]
//! fixes the state-dependent rendering decisions; drawing itself stays with
//! the host application.

pub mod events;
pub mod form;
pub mod registry;
pub mod stdlib_utils;
pub mod struct_form;
pub mod text_input;
pub mod text_input_view;
pub mod widget_state;
