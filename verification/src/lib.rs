//! `crabodon` Mastodon client
//!
//! The goal of `crabodon` is to assist in building Mastodon clients.
//!
//! # Status content
//!
//! Mastodon status content is written in HTML, and HTML is notoriously hard to parse
//! correctly. `crabodon` ships the [`content`] module to help dealing with it.
//!
//! # Requests
//!
//! The [`rest`] module builds the bodies of the requests that register an application
//! and obtain a token.
//!
//! # What is proved
//!
//! The library is verified with Verus. Each function carries a contract over a
//! mathematical model of its data, and the proofs in [`content::laws`] and
//! [`content::stream`] state what holds of every content. The only code that is
//! trusted rather than proved is the thin layer that calls the HTML parser and the URL
//! parser: [`content::markup`] and [`content::href`] say what is assumed of them.

pub mod content;
pub mod rest;
