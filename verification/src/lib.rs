//! A typed, transport-free client for the Consul HTTP API.
//!
//! The library decides what is sent to the server and what a reply means.
//! Every operation has two halves: one builds the `Request` to send, the other
//! turns the `Response` that came back into a result with its metadata.
//! Sending the request and decoding a JSON body are left to the caller.

use std::time::Duration;
use vstd::prelude::*;

pub mod agent;
pub mod catalog;
pub mod connect_ca;
pub mod decimal;
pub mod errors;
pub mod kv;
pub mod params;
pub mod request;

verus! {

/// Where the server is and how to address it.
#[derive(Clone, Debug)]
pub struct Config {
    /// The base address, scheme included: every path is appended to it.
    pub address: String,
    /// The datacenter to ask when a call names none.
    pub datacenter: Option<String>,
    /// The ACL token, sent with every request when there is one.
    pub token: Option<String>,
}

/// A client of one server.
#[derive(Clone, Debug)]
pub struct Client {
    pub config: Config,
}

impl Client {
    /// A client that talks to the server that `config` describes.
    pub fn new(config: Config) -> (client: Client)
        ensures
            client.config == config,
    {
        Client { config }
    }
}

/// What a read may ask for beyond its path.
#[derive(Clone, Debug)]
pub struct QueryOptions {
    /// The datacenter to ask, in place of the client's own.
    pub datacenter: Option<String>,
    /// Block until the server's index has passed this one.
    pub wait_index: Option<u64>,
    /// How long the server may block. Only its whole seconds are sent.
    pub wait_time: Option<Duration>,
}

/// What came with the answer to a read.
#[derive(Debug)]
pub struct QueryMeta {
    /// The server's index at the time of the answer, where it sent one.
    pub last_index: Option<u64>,
    /// How long the call took, as the caller measured it.
    pub request_time: Duration,
}

/// What a write may ask for beyond its path.
#[derive(Clone, Debug)]
pub struct WriteOptions {
    /// The datacenter to write to, in place of the client's own.
    pub datacenter: Option<String>,
}

/// What came with the answer to a write.
#[derive(Debug)]
pub struct WriteMeta {
    /// How long the call took, as the caller measured it.
    pub request_time: Duration,
}

} // verus!
