//! A small verified core for a "readable article" web service: it turns a
//! request path into a target URL, plans one outbound fetch, hands the fetched
//! page to a readability extractor, and renders the result — or a rendered
//! error page — through a fixed HTML template.

pub mod agent;
pub mod clock;
pub mod extract;
pub mod handler;
pub mod render;
pub mod target;
pub mod text;
