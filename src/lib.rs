//! Push-and-merge-request support for a GitLab-compatible REST API: request
//! construction, page bookkeeping for paginated listings, and the
//! merge-request wire payload.
pub mod data;
pub mod error;
pub mod merge_request;
pub mod paging;
pub mod request;
pub mod text;
