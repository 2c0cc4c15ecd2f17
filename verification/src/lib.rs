//! Click events of rich-text chat components, with their two wire codecs.
//!
//! A [`ClickEvent`] says what happens when a piece of chat text is clicked.
//! It travels in two formats: a tagged text container ([`text`]) and a binary
//! tree of named, typed leaves ([`nbt`]). Both codecs share the table of wire
//! keys and the rule by which a legacy key stands in for the unified one
//! ([`alias`]).

pub mod action;
pub mod alias;
pub mod click_event;
pub mod fields;
pub mod nbt;
pub mod strings;
pub mod text;

pub use action::Action;
pub use click_event::{ClickEvent, ClickEventView, DecodeError};
