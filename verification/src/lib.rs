//! Typed events out of an iCalendar feed.
//!
//! A feed's text is read into calendar components; each event component is a
//! list of name/value properties, and the library maps such a list to an
//! [`event::Event`] with five independent optional fields. Every executable function
//! carries a contract that Verus proves; the few calls into other crates are
//! marked where they stand.

pub mod event;
pub mod extract;
pub mod laws;
pub mod raw;
pub mod text;
pub mod timestamp;
