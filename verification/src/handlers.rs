//! What the gateway does with a request: the routes, and the checks of an
//! upload request before anything is stored.

pub mod file_upload;
pub mod router;
