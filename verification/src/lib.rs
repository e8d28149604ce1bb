//! A login-form controller: field state, a show-password toggle, client-side
//! validation, and a formatted echo of the submitted values.
//!
//! The controller is a pure state machine: [`form::FormState`] holds the
//! fields, and [`form::FormState::update`] applies one UI event
//! ([`form::Msg`]) to it. Rendering decisions that depend on the state live
//! in [`render`].

pub mod form;
pub mod render;
