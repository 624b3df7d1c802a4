//! The errors that the client reports.
use vstd::prelude::*;

verus! {

/// What went wrong while making a call to the server.
#[derive(Debug, Clone)]
pub enum ClientError {
    /// The client could not be set up (bad host URL, missing environment variable, ...).
    Initialize(String),
    /// A torrent upload names neither a URL nor a torrent file.
    InvalidMultipart(String),
    /// The URL of an endpoint could not be formed from the host.
    InvalidUrl(String),
    /// The host cannot be sent as the `Referer` header.
    InvalidHeader(String),
    /// The request could not be sent or its response could not be read.
    Request(String),
    /// The server answered with a status outside the success range 200..=299.
    Status(u16),
    /// Any other failure.
    Other(String),
}

} // verus!
