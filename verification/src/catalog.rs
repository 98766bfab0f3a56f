//! The catalog: nodes and services as the server registers them, and the
//! requests that read and change the registrations.

use crate::agent::{AgentCheck, AgentService};
use crate::errors::Error;
use crate::params::Params;
use crate::request::{
    built, dispatch, get, put, query_pairs, request_of, write_pairs, Body, BodyView, Method,
    Request,
};
use crate::{Client, Config, QueryOptions, WriteOptions};
use std::collections::HashMap;
use vstd::prelude::*;

verus! {

/// The weights that the server gives a service in DNS answers.
#[allow(non_snake_case)]
#[derive(Debug, Default, PartialEq, Eq)]
pub struct Weights {
    pub Passing: u32,
    pub Warning: u32,
}

/// A node of the catalog. The two indices are the server's version stamps.
#[allow(non_snake_case)]
#[derive(Debug, Default, PartialEq, Eq)]
pub struct Node {
    pub ID: String,
    pub Node: String,
    pub Address: String,
    pub Datacenter: String,
    pub TaggedAddresses: HashMap<String, String>,
    pub Meta: HashMap<String, String>,
    pub CreateIndex: u64,
    pub ModifyIndex: u64,
}

/// A service together with the node that offers it.
#[allow(non_snake_case)]
#[derive(Debug, Default, PartialEq, Eq)]
pub struct CatalogService {
    pub ID: String,
    pub Node: String,
    pub Address: String,
    pub Datacenter: String,
    pub TaggedAddresses: HashMap<String, String>,
    pub NodeMeta: HashMap<String, String>,
    pub ServiceID: String,
    pub ServiceName: String,
    pub ServiceAddress: String,
    pub ServiceTags: Vec<String>,
    pub ServiceMeta: HashMap<String, String>,
    pub ServicePort: u32,
    pub ServiceWeights: Weights,
    pub ServiceEnableTagOverride: bool,
    pub CreateIndex: u64,
    pub ModifyIndex: u64,
}

/// A node with the services that it offers, by name.
#[allow(non_snake_case)]
#[derive(Debug, Default, PartialEq, Eq)]
pub struct CatalogNode {
    pub Node: Option<Node>,
    pub Services: HashMap<String, AgentService>,
}

/// The body of a registration.
#[allow(non_snake_case)]
#[derive(Debug, Default, PartialEq, Eq)]
pub struct CatalogRegistration {
    pub ID: String,
    pub Node: String,
    pub Address: String,
    pub TaggedAddresses: HashMap<String, String>,
    pub NodeMeta: HashMap<String, String>,
    pub Datacenter: String,
    pub Service: Option<AgentService>,
    pub Check: Option<AgentCheck>,
    /// Leave the node's own data as the server has it.
    pub SkipNodeUpdate: bool,
}

/// The body of a deregistration.
#[allow(non_snake_case)]
#[derive(Debug, Default, PartialEq, Eq)]
pub struct CatalogDeregistration {
    pub Node: String,
    pub Address: String,
    pub Datacenter: String,
    pub ServiceID: String,
    pub CheckID: String,
}

/// The path that a registration is put to. It is the path on which the
/// server creates sessions, not `/v1/catalog/register`, its documented path
/// for registrations: a server of today answers such a request by creating a
/// session.
pub open spec fn register_path() -> Seq<char> {
    "/v1/session/create"@
}

/// The path that a deregistration is put to.
pub open spec fn deregister_path() -> Seq<char> {
    "/v1/catalog/deregister"@
}

/// The path under which the server lists its datacenters.
pub open spec fn datacenters_path() -> Seq<char> {
    "/v1/catalog/datacenters"@
}

/// The path under which the server lists its nodes.
pub open spec fn nodes_path() -> Seq<char> {
    "/v1/catalog/nodes"@
}

/// The path under which the server lists its services.
pub open spec fn services_path() -> Seq<char> {
    "/v1/catalog/services"@
}

/// The requests of the catalog. Each is built for the server of `config()`;
/// the comment of each says which function reads the response.
pub trait Catalog {
    /// The configuration that the requests are built for.
    spec fn config(&self) -> Config;

    /// The request that sends the registration `reg` as JSON, to
    /// `register_path()`. The response is read by `write_response`, with `()`.
    fn register<'a>(&self, reg: &'a CatalogRegistration, q: Option<&WriteOptions>) -> (r: Result<
        Request<&'a CatalogRegistration>,
        Error,
    >)
        ensures
            built(r) == request_of(
                Method::Put,
                register_path(),
                self.config(),
                write_pairs(Seq::empty(), self.config(), q),
                Some(BodyView::AsJson(reg)),
            ),
    ;

    /// The request that sends the deregistration `dereg` as JSON. The
    /// response is read by `write_response`, with `()`.
    fn deregister<'a>(&self, dereg: &'a CatalogDeregistration, q: Option<&WriteOptions>) -> (r:
        Result<Request<&'a CatalogDeregistration>, Error>)
        ensures
            built(r) == request_of(
                Method::Put,
                deregister_path(),
                self.config(),
                write_pairs(Seq::empty(), self.config(), q),
                Some(BodyView::AsJson(dereg)),
            ),
    ;

    /// The request that lists the datacenters. It has no parameter, not even
    /// the client's own datacenter. The response is read by `get_response`,
    /// with a vector of names.
    fn datacenters(&self) -> (r: Result<Request<()>, Error>)
        ensures
            built(r) == request_of::<()>(
                Method::Get,
                datacenters_path(),
                self.config(),
                Seq::empty(),
                None,
            ),
    ;

    /// The request that lists the nodes. The response is read by
    /// `get_response`, with a vector of `Node`.
    fn nodes(&self, q: Option<&QueryOptions>) -> (r: Result<Request<()>, Error>)
        ensures
            built(r) == request_of::<()>(
                Method::Get,
                nodes_path(),
                self.config(),
                query_pairs(Seq::empty(), self.config(), q),
                None,
            ),
    ;

    /// The request that lists the services. The response is read by
    /// `get_response`, with a map from each service's name to its tags.
    fn services(&self, q: Option<&QueryOptions>) -> (r: Result<Request<()>, Error>)
        ensures
            built(r) == request_of::<()>(
                Method::Get,
                services_path(),
                self.config(),
                query_pairs(Seq::empty(), self.config(), q),
                None,
            ),
    ;
}

impl Catalog for Client {
    open spec fn config(&self) -> Config {
        self.config
    }

    fn register<'a>(&self, reg: &'a CatalogRegistration, q: Option<&WriteOptions>) -> (r: Result<
        Request<&'a CatalogRegistration>,
        Error,
    >) {
        put("/v1/session/create", Some(Body::AsJson(reg)), &self.config, Params::new(), q)
    }

    fn deregister<'a>(&self, dereg: &'a CatalogDeregistration, q: Option<&WriteOptions>) -> (r:
        Result<Request<&'a CatalogDeregistration>, Error>) {
        put("/v1/catalog/deregister", Some(Body::AsJson(dereg)), &self.config, Params::new(), q)
    }

    fn datacenters(&self) -> (r: Result<Request<()>, Error>) {
        dispatch(Method::Get, "/v1/catalog/datacenters", &self.config, &Params::new(), None)
    }

    fn nodes(&self, q: Option<&QueryOptions>) -> (r: Result<Request<()>, Error>) {
        get("/v1/catalog/nodes", &self.config, Params::new(), q)
    }

    fn services(&self, q: Option<&QueryOptions>) -> (r: Result<Request<()>, Error>) {
        get("/v1/catalog/services", &self.config, Params::new(), q)
    }
}

} // verus!
