//! The tools of a file-system server: a directory listing and a file
//! reader, the parameter schemas they advertise, and the dispatcher that
//! routes a named call to one of them.
//!
//! The crate decides and computes; it touches neither processes nor files.
//! A caller hands `dispatch` two host functions, one that runs a command to
//! its end and one that reads a whole file as text. The contracts say which
//! command or path the host is handed and what is made of its answer,
//! whatever that answer is.
//!
//! Two facts are taken from the standard library without proof, both in
//! `text`: which characters `char::is_whitespace` counts as white space,
//! and what `String::from_utf8_lossy` makes of bytes that are not
//! well-formed UTF-8.

pub mod descriptor;
pub mod dispatcher;
pub mod error;
pub mod handler;
pub mod params;
pub mod result;
pub mod server;
pub mod text;
pub mod tools;
