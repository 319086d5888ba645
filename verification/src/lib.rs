//! A register-map toolkit: a model of hardware register families
//! (named registers holding named bit-fields), the bit-manipulation
//! semantics of the field accessors it generates, a C accessor text
//! generator, and the state machine of the interactive editor.

pub mod bitfield;
pub mod cli;
pub mod codegen;
pub mod editor;
pub mod register;
pub mod textparse;
