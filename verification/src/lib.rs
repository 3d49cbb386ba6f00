//! Turns a serialized web novel into an ordered set of text documents that a
//! document converter can package as one e-book.
//!
//! The work on one novel has three stages, and this library holds the
//! decisions of each:
//!
//! - [`fetch`] says which pages to ask the site for, and keeps them in the
//!   order of the table of contents;
//! - [`document`], on top of [`extract`] and [`text`], turns one page into the
//!   text of one document, and the table of contents into the metadata
//!   block; [`novel`] does so for a whole novel and names the files;
//! - [`novel`] also plans the converter's invocation over those files.
//!
//! [`report`] gathers what became of every novel of a run.
//!
//! Requests, files and the converter's process are the caller's: the library
//! works on text alone.

pub mod document;
pub mod extract;
pub mod fetch;
pub mod novel;
pub mod report;
pub mod text;
