//! A small client for the organizations and users endpoints of the GitHub REST API:
//! request construction, status classification, decoding of response bodies into
//! typed records, and table rendering of those records.
pub mod decimal;
pub mod error;
pub mod json;
pub mod config;
pub mod request;
pub mod response;
pub mod table;
pub mod orgs;
pub mod github;
pub mod users;
pub mod output;
pub mod util;
