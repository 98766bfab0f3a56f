//! The certificate authority of the service mesh: its roots and its
//! configuration, and the requests that read and set them.

use crate::errors::Error;
use crate::params::Params;
use crate::request::{
    built, get, put, query_pairs, request_of, write_pairs, Body, BodyView, Method, Request,
};
use crate::{Client, Config, QueryOptions, WriteOptions};
use vstd::prelude::*;

verus! {

/// Makes `serde_json::Value`, any JSON value, known as a type. Nothing is
/// claimed of its values.
#[verifier::external_type_specification]
#[verifier::external_body]
pub struct ExJsonValue(serde_json::Value);

/// The configuration of the certificate authority.
#[allow(non_snake_case)]
#[derive(Debug)]
pub struct CAConfig {
    pub Provider: String,
    /// What the provider is configured with. Each provider has a schema of
    /// its own, so the value is carried as it came and never looked into.
    pub Config: serde_json::Value,
    pub CreateIndex: u64,
    pub ModifyIndex: u64,
}

/// Calls `serde_json::Value::default`, which gives the JSON null value.
///
/// Nothing here is proved, and nothing is claimed of the result: a JSON
/// value is carried, never looked into.
#[verifier::external_body]
fn default_value() -> serde_json::Value {
    serde_json::Value::default()
}

impl Default for CAConfig {
    /// The configuration of no provider, with the provider's part as
    /// `serde_json::Value::default` gives it.
    fn default() -> (config: CAConfig)
        ensures
            config.Provider@ == Seq::<char>::empty(),
            config.CreateIndex == 0,
            config.ModifyIndex == 0,
    {
        CAConfig { Provider: String::new(), Config: default_value(), CreateIndex: 0, ModifyIndex: 0 }
    }
}

/// The trust roots of the certificate authority.
#[allow(non_snake_case)]
#[derive(Debug, Default)]
pub struct CARootList {
    pub ActiveRootID: String,
    pub TrustDomain: String,
    pub Roots: Vec<CARoot>,
}

/// One trust root.
#[allow(non_snake_case)]
#[derive(Debug, Default, PartialEq, Eq)]
pub struct CARoot {
    pub ID: String,
    pub Name: String,
    pub RootCert: String,
    pub Active: bool,
    pub CreateIndex: u64,
    pub ModifyIndex: u64,
}

/// The path of the trust roots.
pub open spec fn roots_path() -> Seq<char> {
    "/v1/connect/ca/roots"@
}

/// The path of the configuration.
pub open spec fn configuration_path() -> Seq<char> {
    "/v1/connect/ca/configuration"@
}

/// The requests of the certificate authority. Each is built for the server
/// of `config()`; the comment of each says which function reads the response.
pub trait ConnectCA {
    /// The configuration that the requests are built for.
    spec fn config(&self) -> Config;

    /// The request that reads the trust roots. The response is read by
    /// `get_response`, with `CARootList`.
    fn ca_roots(&self, q: Option<&QueryOptions>) -> (r: Result<Request<()>, Error>)
        ensures
            built(r) == request_of::<()>(
                Method::Get,
                roots_path(),
                self.config(),
                query_pairs(Seq::empty(), self.config(), q),
                None,
            ),
    ;

    /// The request that reads the configuration. The response is read by
    /// `get_response`, with `CAConfig`.
    fn ca_get_config(&self, q: Option<&QueryOptions>) -> (r: Result<Request<()>, Error>)
        ensures
            built(r) == request_of::<()>(
                Method::Get,
                configuration_path(),
                self.config(),
                query_pairs(Seq::empty(), self.config(), q),
                None,
            ),
    ;

    /// The request that sets the configuration to `conf`, sent as JSON. The
    /// response is read by `write_response`, with `()`.
    fn ca_set_config<'a>(&self, conf: &'a CAConfig, q: Option<&WriteOptions>) -> (r: Result<
        Request<&'a CAConfig>,
        Error,
    >)
        ensures
            built(r) == request_of(
                Method::Put,
                configuration_path(),
                self.config(),
                write_pairs(Seq::empty(), self.config(), q),
                Some(BodyView::AsJson(conf)),
            ),
    ;
}

impl ConnectCA for Client {
    open spec fn config(&self) -> Config {
        self.config
    }

    fn ca_roots(&self, q: Option<&QueryOptions>) -> (r: Result<Request<()>, Error>) {
        get("/v1/connect/ca/roots", &self.config, Params::new(), q)
    }

    fn ca_get_config(&self, q: Option<&QueryOptions>) -> (r: Result<Request<()>, Error>) {
        get("/v1/connect/ca/configuration", &self.config, Params::new(), q)
    }

    fn ca_set_config<'a>(&self, conf: &'a CAConfig, q: Option<&WriteOptions>) -> (r: Result<
        Request<&'a CAConfig>,
        Error,
    >) {
        put("/v1/connect/ca/configuration", Some(Body::AsJson(conf)), &self.config, Params::new(), q)
    }
}

} // verus!
