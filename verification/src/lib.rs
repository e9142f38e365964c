//! Conversion of Japanese text between full-width (zenkaku) and half-width
//! (hankaku) character forms.
//!
//! The converter is a pure function over sequences of Unicode scalar values:
//! each input unit (a single character, or a half-width katakana base followed
//! by a voicing mark) is classified into one of three character classes and,
//! when its class is enabled in the configuration, rewritten through a static
//! mapping table for the requested direction.  Characters outside the enabled
//! classes, and characters the table does not know, pass through unchanged.

pub mod classify;
pub mod convert;
pub mod laws;
pub mod tables;
