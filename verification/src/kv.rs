//! The key/value store: pairs, and the requests that read, write and lock
//! them.

use crate::decimal::{ascii_bytes, decimal, lemma_decimal_round_trip, parse_u64, u64_to_string};
use crate::errors::Error;
use crate::params::{
    lemma_lookup_other, lemma_lookup_same, lemma_with_optional_param, lemma_with_param_unique,
    lookup, with_optional_param, with_param, Pairs, Params,
};
use crate::request::{
    body_view, built, delete, get, get_outcome, get_response, get_vec, lemma_write_parameters, put,
    query_pairs, request_of, write_pairs, Body, BodyView, Method, Request, Response,
};
use crate::{Client, Config, QueryMeta, QueryOptions, WriteOptions};
use std::time::Duration;
use vstd::prelude::*;

verus! {

/// One entry of the key/value store.
#[allow(non_snake_case)]
#[derive(Clone, Debug, PartialEq, Eq)]
pub struct KVPair {
    pub Key: String,
    pub CreateIndex: Option<u64>,
    pub ModifyIndex: Option<u64>,
    pub LockIndex: Option<u64>,
    pub Flags: Option<u64>,
    pub Value: Option<String>,
    /// The session that holds the lock on the key, or is to take or give it.
    pub Session: Option<String>,
}

impl Default for KVPair {
    /// The pair with an empty key and nothing else set.
    fn default() -> (pair: KVPair)
        ensures
            pair.Key@ == Seq::<char>::empty(),
            pair.CreateIndex is None,
            pair.ModifyIndex is None,
            pair.LockIndex is None,
            pair.Flags is None,
            pair.Value is None,
            pair.Session is None,
    {
        KVPair {
            Key: String::new(),
            CreateIndex: None,
            ModifyIndex: None,
            LockIndex: None,
            Flags: None,
            Value: None,
            Session: None,
        }
    }
}

/// The path under which `key` is stored.
pub open spec fn kv_path(key: Seq<char>) -> Seq<char> {
    "/v1/kv/"@ + key
}

/// The value of the `flags` parameter of a write: the flags in decimal where
/// they are set and not zero, else no parameter.
pub open spec fn flags_param(flags: Option<u64>) -> Option<Seq<char>> {
    match flags {
        Some(n) => if n != 0 {
            Some(decimal(n as nat))
        } else {
            None
        },
        None => None,
    }
}

/// The parameters of a write of `pair`, before those of the options.
pub open spec fn put_pairs(pair: KVPair) -> Pairs {
    with_optional_param(Seq::empty(), "flags"@, flags_param(pair.Flags))
}

/// The parameters of a lock step on `pair`, before those of the options:
/// those of a write, then the step `step` with the session `session`.
pub open spec fn lock_pairs(pair: KVPair, step: Seq<char>, session: Seq<char>) -> Pairs {
    with_param(put_pairs(pair), step, session)
}

/// The body of a write of `pair`: its value as text, where it has one.
pub open spec fn value_body(pair: KVPair) -> Option<BodyView<String>> {
    match pair.Value {
        Some(value) => Some(BodyView::AsText(value@)),
        None => None,
    }
}

/// The parameters of a list read, before those of the options.
pub open spec fn list_pairs() -> Pairs {
    with_param(Seq::empty(), "recurse"@, ""@)
}

/// The parameters of a read of key names, before those of the options.
pub open spec fn keys_pairs(separator: Option<&str>) -> Pairs {
    let keys = with_param(Seq::empty(), "keys"@, ""@);
    match separator {
        Some(sep) => with_param(keys, "separator"@, sep@),
        None => keys,
    }
}

/// The first pair of `list`, if it has any.
pub open spec fn first_of(list: Seq<KVPair>) -> Option<KVPair> {
    if list.len() > 0 {
        Some(list[0])
    } else {
        None
    }
}

/// What a read of one key comes to: what the read of the list under that key
/// comes to, with the first pair in place of the list.
pub open spec fn pair_outcome(sent: Result<Response<Vec<KVPair>>, String>, request_time: Duration) -> Result<
    (Option<KVPair>, QueryMeta),
    Error,
> {
    match get_outcome(sent, request_time) {
        Ok((list, meta)) => Ok((first_of(list@), meta)),
        Err(e) => Err(e),
    }
}

/// The path of `key`, as text.
fn path_of(key: &str) -> (path: String)
    ensures
        path@ == kv_path(key@),
{
    let mut path = String::from_str("/v1/kv/");
    path.append(key);
    path
}

/// The parameters and the body of a write of `pair`.
fn write_parts(pair: &KVPair) -> (parts: (Params, Option<Body<String>>))
    ensures
        parts.0@ == put_pairs(*pair),
        body_view(parts.1) == value_body(*pair),
{
    let mut params = Params::new();
    if let Some(flags) = pair.Flags {
        if flags != 0 {
            params.insert(String::from_str("flags"), u64_to_string(flags));
        }
    }
    let body = match &pair.Value {
        Some(value) => Some(Body::AsText(value.clone())),
        None => None,
    };
    (params, body)
}

/// The requests of the key/value store. Each is built for the server of
/// `config()`; the comment of each says which function reads the response.
pub trait KV {
    /// The configuration that the requests are built for.
    spec fn config(&self) -> Config;

    /// The request that writes `pair` and takes the lock on its key for the
    /// session of the pair. Without a session nothing is built and the call
    /// fails. The response is read by `write_response`, with `bool`.
    fn acquire(&self, pair: &KVPair, o: Option<&WriteOptions>) -> (r: Result<Request<String>, Error>)
        ensures
            built(r) == match pair.Session {
                Some(session) => request_of(
                    Method::Put,
                    kv_path(pair.Key@),
                    self.config(),
                    write_pairs(lock_pairs(*pair, "acquire"@, session@), self.config(), o),
                    value_body(*pair),
                ),
                None => Err(Error::Validation),
            },
    ;

    /// The request that deletes `key`. The response is read by
    /// `write_response`, with `bool`.
    fn delete(&self, key: &str, options: Option<&WriteOptions>) -> (r: Result<Request<()>, Error>)
        ensures
            built(r) == request_of::<()>(
                Method::Delete,
                kv_path(key@),
                self.config(),
                write_pairs(Seq::empty(), self.config(), options),
                None,
            ),
    ;

    /// The request that reads `key`. The response is read by
    /// `get_response` of this module.
    fn get(&self, key: &str, options: Option<&QueryOptions>) -> (r: Result<Request<()>, Error>)
        ensures
            built(r) == request_of::<()>(
                Method::Get,
                kv_path(key@),
                self.config(),
                query_pairs(Seq::empty(), self.config(), options),
                None,
            ),
    ;

    /// The request that reads every pair whose key begins with `prefix`. The
    /// response is read by `get_vec_response`, with `KVPair`.
    fn list(&self, prefix: &str, o: Option<&QueryOptions>) -> (r: Result<Request<()>, Error>)
        ensures
            built(r) == request_of::<()>(
                Method::Get,
                kv_path(prefix@),
                self.config(),
                query_pairs(list_pairs(), self.config(), o),
                None,
            ),
    ;

    /// The request that reads the keys that begin with `prefix`, folded at
    /// `separator` where one is given. The response is read by
    /// `get_vec_response`, with `String`.
    fn keys(&self, prefix: &str, separator: Option<&str>, o: Option<&QueryOptions>) -> (r: Result<
        Request<()>,
        Error,
    >)
        ensures
            built(r) == request_of::<()>(
                Method::Get,
                kv_path(prefix@),
                self.config(),
                query_pairs(keys_pairs(separator), self.config(), o),
                None,
            ),
    ;

    /// The request that writes `pair`. The response is read by
    /// `write_response`, with `bool`.
    fn put(&self, pair: &KVPair, o: Option<&WriteOptions>) -> (r: Result<Request<String>, Error>)
        ensures
            built(r) == request_of(
                Method::Put,
                kv_path(pair.Key@),
                self.config(),
                write_pairs(put_pairs(*pair), self.config(), o),
                value_body(*pair),
            ),
    ;

    /// The request that writes `pair` and gives up the lock on its key for
    /// the session of the pair. Without a session nothing is built and the
    /// call fails. The response is read by `write_response`, with `bool`.
    fn release(&self, pair: &KVPair, o: Option<&WriteOptions>) -> (r: Result<Request<String>, Error>)
        ensures
            built(r) == match pair.Session {
                Some(session) => request_of(
                    Method::Put,
                    kv_path(pair.Key@),
                    self.config(),
                    write_pairs(lock_pairs(*pair, "release"@, session@), self.config(), o),
                    value_body(*pair),
                ),
                None => Err(Error::Validation),
            },
    ;
}

impl KV for Client {
    open spec fn config(&self) -> Config {
        self.config
    }

    fn acquire(&self, pair: &KVPair, o: Option<&WriteOptions>) -> (r: Result<Request<String>, Error>) {
        let (mut params, value) = write_parts(pair);
        if let Some(session) = &pair.Session {
            params.insert(String::from_str("acquire"), session.clone());
            let path = path_of(pair.Key.as_str());
            put(path.as_str(), value, &self.config, params, o)
        } else {
            Err(Error::Validation)
        }
    }

    fn delete(&self, key: &str, options: Option<&WriteOptions>) -> (r: Result<Request<()>, Error>) {
        let path = path_of(key);
        delete(path.as_str(), &self.config, Params::new(), options)
    }

    fn get(&self, key: &str, options: Option<&QueryOptions>) -> (r: Result<Request<()>, Error>) {
        let path = path_of(key);
        get(path.as_str(), &self.config, Params::new(), options)
    }

    fn list(&self, prefix: &str, o: Option<&QueryOptions>) -> (r: Result<Request<()>, Error>) {
        let mut params = Params::new();
        params.insert(String::from_str("recurse"), String::from_str(""));
        let path = path_of(prefix);
        get_vec(path.as_str(), &self.config, params, o)
    }

    fn keys(&self, prefix: &str, separator: Option<&str>, o: Option<&QueryOptions>) -> (r: Result<
        Request<()>,
        Error,
    >) {
        let mut params = Params::new();
        params.insert(String::from_str("keys"), String::from_str(""));
        if let Some(sep) = separator {
            params.insert(String::from_str("separator"), String::from_str(sep));
        }
        let path = path_of(prefix);
        get_vec(path.as_str(), &self.config, params, o)
    }

    fn put(&self, pair: &KVPair, o: Option<&WriteOptions>) -> (r: Result<Request<String>, Error>) {
        let (params, value) = write_parts(pair);
        let path = path_of(pair.Key.as_str());
        put(path.as_str(), value, &self.config, params, o)
    }

    fn release(&self, pair: &KVPair, o: Option<&WriteOptions>) -> (r: Result<Request<String>, Error>) {
        let (mut params, value) = write_parts(pair);
        if let Some(session) = &pair.Session {
            params.insert(String::from_str("release"), session.clone());
            let path = path_of(pair.Key.as_str());
            put(path.as_str(), value, &self.config, params, o)
        } else {
            Err(Error::Validation)
        }
    }
}

/// Reads the response to a request made by `KV::get`: the first pair that
/// the server listed under the key, or none where it listed none.
pub fn pair_response(sent: Result<Response<Vec<KVPair>>, String>, request_time: Duration) -> (r: Result<
    (Option<KVPair>, QueryMeta),
    Error,
>)
    ensures
        r == pair_outcome(sent, request_time),
{
    match get_response(sent, request_time) {
        Ok((list, meta)) => {
            let mut list = list;
            let first = if list.len() > 0 {
                Some(list.remove(0))
            } else {
                None
            };
            Ok((first, meta))
        },
        Err(e) => Err(e),
    }
}

/// A write sends the flags of its pair if and only if they are set and not
/// zero, and then in decimal, from which the same number is read back.
pub proof fn lemma_flags_sent_unless_zero(
    pair: KVPair,
    config: Config,
    options: Option<&WriteOptions>,
)
    ensures
        lookup(write_pairs(put_pairs(pair), config, options), "flags"@) == match pair.Flags {
            Some(n) => if n != 0 {
                Some(decimal(n as nat))
            } else {
                None
            },
            None => None,
        },
        pair.Flags matches Some(n) ==> parse_u64(ascii_bytes(decimal(n as nat))) == Some(n),
{
    reveal_strlit("flags");
    reveal_strlit("dc");
    assert("flags"@.len() == 5 && "dc"@.len() == 2);
    let none = Seq::<(Seq<char>, Seq<char>)>::empty();
    lemma_with_optional_param(none, "flags"@, flags_param(pair.Flags), "dc"@);
    lemma_write_parameters(put_pairs(pair), config, options, "flags"@);
    if let Some(n) = pair.Flags {
        lemma_decimal_round_trip(n);
    }
}

/// A lock step sends the flags of its pair as a write does, and the session
/// under the name of the step.
pub proof fn lemma_lock_parameters(
    pair: KVPair,
    step: Seq<char>,
    session: Seq<char>,
    config: Config,
    options: Option<&WriteOptions>,
)
    requires
        step == "acquire"@ || step == "release"@,
    ensures
        lookup(write_pairs(lock_pairs(pair, step, session), config, options), "flags"@)
            == flags_param(pair.Flags),
        lookup(write_pairs(lock_pairs(pair, step, session), config, options), step) == Some(
            session,
        ),
{
    reveal_strlit("flags");
    reveal_strlit("dc");
    reveal_strlit("acquire");
    reveal_strlit("release");
    assert("flags"@.len() == 5 && "dc"@.len() == 2 && "acquire"@.len() == 7 && "release"@.len()
        == 7);
    let none = Seq::<(Seq<char>, Seq<char>)>::empty();
    lemma_with_optional_param(none, "flags"@, flags_param(pair.Flags), step);
    lemma_with_param_unique(put_pairs(pair), step, session);
    lemma_lookup_same(put_pairs(pair), step, session);
    lemma_lookup_other(put_pairs(pair), step, session, "flags"@);
    lemma_write_parameters(lock_pairs(pair, step, session), config, options, "flags"@);
    lemma_write_parameters(lock_pairs(pair, step, session), config, options, step);
}

/// A pair written without flags and its key read, both with no options, go
/// to the same URL, and what is written there is the value of the pair.
pub proof fn lemma_written_and_read_at_one_url(pair: KVPair, config: Config)
    requires
        flags_param(pair.Flags) is None,
    ensures
        ({
            let written = request_of(
                Method::Put,
                kv_path(pair.Key@),
                config,
                write_pairs(put_pairs(pair), config, None),
                value_body(pair),
            );
            let read = request_of::<()>(
                Method::Get,
                kv_path(pair.Key@),
                config,
                query_pairs(Seq::empty(), config, None),
                None,
            );
            &&& written is Ok <==> read is Ok
            &&& written matches Ok(w) ==> read matches Ok(r) && w.url == r.url && w.body
                == value_body(pair)
        }),
{
}

} // verus!
