//! Turn an XMLTV TV listing into an RSS channel or an Atom feed.
//!
//! The library works on an already-parsed listing (`xmltv::Tv`) and a set of
//! export options, and produces an in-memory feed model (`export::rss::Channel`
//! or `export::atom::Feed`).  Reading the listing document and serializing the
//! finished feed belong to the surrounding program, not to this crate.

pub mod datetime;
pub mod error;
pub mod export;
pub mod text;
pub mod xmltv;
