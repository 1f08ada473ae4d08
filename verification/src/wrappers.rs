//! Request and response objects, and what they are made of.

pub mod body;
pub mod cell;
pub mod headers;
pub mod request;
pub mod response;

pub use self::body::{
    chunk_views, drain_rest, drain_result, drain_view, drained, exceeds, first_stop, gathered,
    lemma_first_stop, one_more, Body, BodyView, ChunkView, DrainError, DrainFault, StreamError,
};
pub use self::cell::LazyCell;
pub use self::headers::Headers;
pub use self::request::{
    content_type_of, form_load_result, fresh_request, full_path_text, host_of, host_text,
    host_url_text, json_document, json_of, lemma_form_drains_once, lemma_form_loads_once,
    lemma_json_loads_once, query_args, routed, with_form_loaded, with_json_loaded, Request,
    RequestView,
};
pub use self::response::{
    new_response, one_header, response_from_bytes, stored_length, with_header, Response,
    ResponseView,
};
