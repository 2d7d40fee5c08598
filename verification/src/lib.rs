//! A configurable mock image server library.
//!
//! The verified core of a test-fixture HTTP server: it interprets the query
//! of `GET /api/image` into exactly one response decision (not-modified,
//! redirect, error status, or a freshly encoded image), builds the redirect
//! URLs, and exposes the encoded image bytes as a chunked stream.

pub mod codec;
pub mod decision;
pub mod laws;
pub mod mime;
pub mod stream;
pub mod query;

pub use decision::Decision;
pub use decision::Response;
pub use decision::decide;
pub use decision::handle_request;
pub use mime::ImageFormat;
pub use query::ImageServerQuery;
pub use query::make_redirect_test_server_url;
pub use query::make_test_server_url;
