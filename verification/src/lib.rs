//! Request-handling core of a small web framework: ordered multi-value maps,
//! a request with fill-once caches, a form and multipart body parser, a
//! response container and the dispatcher with its error cascade.
//!
//! The library computes and decides; it does not read from the network or
//! the file system. A caller hands it what was read (the parts of a
//! message, the chunks of a body, the content of a file) and sends what it
//! returns.

pub mod app;
pub mod datastructures;
pub mod formparser;
pub mod helpers;
pub mod http_errors;
pub mod httputils;
pub mod routing;
pub mod serving;
pub mod text;
pub mod types;
pub mod utils;
pub mod wrappers;

pub use app::Pencil;
pub use datastructures::MultiDict;
pub use helpers::{
    abort, escape, redirect, safe_join, send_file, send_file_range, send_from_directory,
    send_from_directory_range,
};
pub use http_errors::HTTPError;
pub use types::{PencilError, PencilResult, PencilValue, UserError, ViewArgs};
pub use wrappers::{Body, Headers, Request, Response};
