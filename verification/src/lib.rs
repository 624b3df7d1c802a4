//! A client for the qBittorrent Web API: the requests it sends and how it judges
//! the responses, each with a proved contract. Sending requests is left to the
//! caller.

pub mod encode;
pub mod error;
pub mod url_text;
pub mod header;
pub mod request;
pub mod params;
pub mod endpoint;
pub mod client;
pub mod laws;
pub mod endpoint_laws;
