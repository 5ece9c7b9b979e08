//! A tenant: its storage uploader, its optional chat mirror, and the course
//! of one upload.

pub mod google;
pub mod proj;
pub mod slack;
