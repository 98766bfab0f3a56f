//! The request dispatcher: it assembles the parameters and the URL of a
//! request, and reads the metadata and the result out of a response.

use crate::decimal::{decimal, parse_index, parse_u64, u64_to_string};
use crate::errors::Error;
use crate::params::{
    lemma_with_optional_param, lookup, pairs_of, unique_keys, with_optional_param, Pairs, Params,
};
use crate::{Config, QueryMeta, QueryOptions, WriteMeta, WriteOptions};
use std::time::Duration;
use vstd::prelude::*;
use vstd::utf8::encode_utf8;

verus! {

/// The status with which the server reports that nothing is stored under a
/// path.
pub const NOT_FOUND: u16 = 404;

/// The name of the response header that carries the server's index.
pub const INDEX_HEADER: &'static str = "X-Consul-Index";

/// The most bytes that an address, a path and the parameters may hold
/// together. The URL parser counts positions in 32 bits; below this limit no
/// encoded form of the input comes near that.
pub const MAX_URL_INPUT: usize = 0x1000_0000;

/// The HTTP method of a request.
#[derive(Clone, Copy, Debug, PartialEq, Eq, Structural)]
pub enum Method {
    Get,
    Put,
    Delete,
}

/// The body of a request.
#[derive(Debug)]
pub enum Body<T> {
    /// A value to be sent as JSON.
    AsJson(T),
    /// Text to be sent as it is.
    AsText(String),
}

/// A body as mathematics.
pub enum BodyView<T> {
    AsJson(T),
    AsText(Seq<char>),
}

impl<T> View for Body<T> {
    type V = BodyView<T>;

    open spec fn view(&self) -> BodyView<T> {
        match *self {
            Body::AsJson(value) => BodyView::AsJson(value),
            Body::AsText(text) => BodyView::AsText(text@),
        }
    }
}

/// What is to be sent to the server.
#[derive(Debug)]
pub struct Request<T> {
    pub method: Method,
    /// The full URL, query string included.
    pub url: String,
    /// The headers to attach, each a name and a value.
    pub headers: Vec<(String, String)>,
    pub body: Option<Body<T>>,
}

/// A request as mathematics.
pub struct RequestView<T> {
    pub method: Method,
    pub url: Seq<char>,
    pub headers: Pairs,
    pub body: Option<BodyView<T>>,
}

/// The view of a body that may be absent.
pub open spec fn body_view<T>(body: Option<Body<T>>) -> Option<BodyView<T>> {
    match body {
        Some(b) => Some(b@),
        None => None,
    }
}

impl<T> View for Request<T> {
    type V = RequestView<T>;

    open spec fn view(&self) -> RequestView<T> {
        RequestView {
            method: self.method,
            url: self.url@,
            headers: pairs_of(self.headers@),
            body: body_view(self.body),
        }
    }
}

/// The view of the outcome of building a request.
pub open spec fn built<T>(r: Result<Request<T>, Error>) -> Result<RequestView<T>, Error> {
    match r {
        Ok(request) => Ok(request@),
        Err(e) => Err(e),
    }
}

/// What the server answered, as far as the library reads it.
#[derive(Debug)]
pub struct Response<R> {
    /// The HTTP status code.
    pub status: u16,
    /// The bytes of the `X-Consul-Index` header, where the response has one.
    pub index: Option<Vec<u8>>,
    /// The decoded body; `None` where the body did not decode.
    pub body: Option<R>,
}

/// The text of a string that may be absent.
pub open spec fn text_of(s: Option<String>) -> Option<Seq<char>> {
    match s {
        Some(t) => Some(t@),
        None => None,
    }
}

/// The datacenter that a call goes to: the one the call names, else the
/// client's own, else none.
pub open spec fn datacenter_of(per_call: Option<String>, config: Config) -> Option<Seq<char>> {
    match per_call {
        Some(dc) => Some(dc@),
        None => text_of(config.datacenter),
    }
}

/// The datacenter that the options of a read name.
pub open spec fn query_datacenter(options: Option<&QueryOptions>) -> Option<String> {
    match options {
        Some(o) => o.datacenter,
        None => None,
    }
}

/// The datacenter that the options of a write name.
pub open spec fn write_datacenter(options: Option<&WriteOptions>) -> Option<String> {
    match options {
        Some(o) => o.datacenter,
        None => None,
    }
}

/// The value of the `index` parameter of a read, if it has one.
pub open spec fn index_param(options: Option<&QueryOptions>) -> Option<Seq<char>> {
    match options {
        Some(o) => match o.wait_index {
            Some(index) => Some(decimal(index as nat)),
            None => None,
        },
        None => None,
    }
}

/// The whole seconds that `time` holds, as `Duration::as_secs` gives them.
pub uninterp spec fn whole_seconds(time: Duration) -> u64;

/// Calls `Duration::as_secs`.
///
/// Nothing here is proved. The contract gives what the call returns the name
/// `whole_seconds` and claims only that it depends on the duration alone.
#[verifier::external_body]
fn as_secs(time: &Duration) -> (seconds: u64)
    ensures
        seconds == whole_seconds(*time),
{
    time.as_secs()
}

/// The text of a wait of `seconds` seconds: the number in decimal, then the
/// letter `s`.
pub open spec fn wait_text(seconds: u64) -> Seq<char> {
    decimal(seconds as nat) + "s"@
}

/// The value of the `wait` parameter of a read, if it has one: the text of
/// the whole seconds of the wait time.
pub open spec fn wait_param(options: Option<&QueryOptions>) -> Option<Seq<char>> {
    match options {
        Some(o) => match o.wait_time {
            Some(time) => Some(wait_text(whole_seconds(time))),
            None => None,
        },
        None => None,
    }
}

/// The parameters of a read: those of the caller, then the datacenter, the
/// blocking index and the wait time, each where there is one.
pub open spec fn query_pairs(params: Pairs, config: Config, options: Option<&QueryOptions>) -> Pairs {
    let with_dc = with_optional_param(
        params,
        "dc"@,
        datacenter_of(query_datacenter(options), config),
    );
    let with_index = with_optional_param(with_dc, "index"@, index_param(options));
    with_optional_param(with_index, "wait"@, wait_param(options))
}

/// The parameters of a write: those of the caller, then the datacenter where
/// there is one.
pub open spec fn write_pairs(params: Pairs, config: Config, options: Option<&WriteOptions>) -> Pairs {
    with_optional_param(params, "dc"@, datacenter_of(write_datacenter(options), config))
}

/// The headers that the configuration asks for: the token, where there is one.
pub open spec fn token_headers(config: Config) -> Pairs {
    match config.token {
        Some(token) => seq![("X-Consul-Token"@, token@)],
        None => Seq::empty(),
    }
}

/// The bytes that the parameters `params` take: those of each name and value,
/// and two more for each pair.
pub open spec fn pairs_len(params: Pairs) -> nat
    decreases params.len(),
{
    if params.len() == 0 {
        0
    } else {
        pairs_len(params.drop_last()) + encode_utf8(params.last().0).len() + encode_utf8(
            params.last().1,
        ).len() + 2
    }
}

/// The bytes that the text `input` and the parameters `params` take together.
pub open spec fn url_input_len(input: Seq<char>, params: Pairs) -> nat {
    encode_utf8(input).len() + pairs_len(params)
}

/// The URL that `url::Url::parse_with_params` makes of the text `input` and
/// the pairs `params`, as a string; `None` where it refuses `input`.
pub uninterp spec fn url_with_params(input: Seq<char>, params: Pairs) -> Option<Seq<char>>;

/// The URL of a request to `input` with the parameters `params`: what the
/// parser makes of them, where they are within the limit.
pub open spec fn url_of(input: Seq<char>, params: Pairs) -> Option<Seq<char>> {
    if url_input_len(input, params) <= MAX_URL_INPUT {
        url_with_params(input, params)
    } else {
        None
    }
}

/// The request with the method `method` for the path `path` on the server of
/// `config`, with the parameters `params` and the body `body`; a failure
/// where these make no URL.
pub open spec fn request_of<T>(
    method: Method,
    path: Seq<char>,
    config: Config,
    params: Pairs,
    body: Option<BodyView<T>>,
) -> Result<RequestView<T>, Error> {
    match url_of(config.address@ + path, params) {
        Some(url) => Ok(RequestView { method, url, headers: token_headers(config), body }),
        None => Err(Error::UrlBuild),
    }
}

/// Makes `url::ParseError`, the reason for which the parser refuses a text,
/// known as a type. Nothing is claimed of its values.
#[verifier::external_type_specification]
#[verifier::external_body]
pub struct ExUrlParseError(url::ParseError);

/// Calls `url::Url::parse_with_params` and gives the URL back as a string.
///
/// Nothing here is proved. The contract gives what the parser returns the
/// name `url_with_params` and claims only that it depends on the text and
/// the pairs alone. The parser keeps positions in 32 bits and panics where a
/// URL outgrows them, so input over the limit is left out.
#[verifier::external_body]
fn parse_with_params(input: &str, params: &Vec<(String, String)>) -> (r: Result<
    String,
    url::ParseError,
>)
    requires
        url_input_len(input@, pairs_of(params@)) <= MAX_URL_INPUT,
    ensures
        url_with_params(input@, pairs_of(params@)) == match r {
            Ok(url) => Some(url@),
            Err(_) => None,
        },
{
    match url::Url::parse_with_params(input, params.iter()) {
        Ok(url) => Ok(String::from(url)),
        Err(e) => Err(e),
    }
}

/// A prefix of a parameter list takes no more bytes than the list.
pub proof fn lemma_pairs_len_prefix(params: Pairs, k: int)
    requires
        0 <= k <= params.len(),
    ensures
        pairs_len(params.take(k)) <= pairs_len(params),
    decreases params.len(),
{
    if k == params.len() {
        assert(params.take(k) =~= params);
    } else {
        lemma_pairs_len_prefix(params.drop_last(), k);
        assert(params.drop_last().take(k) =~= params.take(k));
    }
}

/// Whether `input` and `params` are within the limit on what goes into a URL.
pub fn url_input_fits(input: &str, params: &Vec<(String, String)>) -> (fits: bool)
    ensures
        fits == (url_input_len(input@, pairs_of(params@)) <= MAX_URL_INPUT),
{
    let ghost pairs = pairs_of(params@);
    let mut total: usize = input.as_bytes().len();
    if total > MAX_URL_INPUT {
        return false;
    }
    let mut i: usize = 0;
    assert(pairs.take(0) =~= Seq::empty());
    while i < params.len()
        invariant
            i <= params@.len(),
            pairs == pairs_of(params@),
            total == encode_utf8(input@).len() + pairs_len(pairs.take(i as int)),
            total <= MAX_URL_INPUT,
        decreases params@.len() - i,
    {
        let name: usize = params[i].0.as_str().as_bytes().len();
        let value: usize = params[i].1.as_str().as_bytes().len();
        proof {
            let next = pairs.take(i + 1);
            assert(next.drop_last() =~= pairs.take(i as int));
            assert(next.last() == (params@[i as int].0@, params@[i as int].1@));
            lemma_pairs_len_prefix(pairs, i + 1);
        }
        if name > MAX_URL_INPUT || value > MAX_URL_INPUT {
            return false;
        }
        let step: usize = name + value + 2;
        if step > MAX_URL_INPUT - total {
            return false;
        }
        total = total + step;
        i = i + 1;
    }
    assert(pairs.take(i as int) =~= pairs);
    true
}

/// Attaches to `request` the headers that `config` asks for.
pub fn add_config_options<T>(request: Request<T>, config: &Config) -> (r: Request<T>)
    ensures
        r@ == (RequestView { headers: request@.headers + token_headers(*config), ..request@ }),
{
    let ghost before = request@.headers;
    let mut request = request;
    match &config.token {
        Some(token) => {
            request.headers.push((String::from_str("X-Consul-Token"), token.clone()));
            assert(request@.headers =~= before + token_headers(*config));
        },
        None => {
            assert(before + token_headers(*config) =~= before);
        },
    }
    request
}

/// What a read sends under each name that the dispatcher sets. The
/// datacenter is that of the call, else that of the client, else whatever
/// the caller's parameters hold; the index and the wait time are those of
/// the options, else whatever the caller's parameters hold. Every other name
/// keeps the caller's value.
pub proof fn lemma_query_parameters(
    params: Pairs,
    config: Config,
    options: Option<&QueryOptions>,
    other: Seq<char>,
)
    requires
        unique_keys(params),
        other != "dc"@,
        other != "index"@,
        other != "wait"@,
    ensures
        unique_keys(query_pairs(params, config, options)),
        lookup(query_pairs(params, config, options), "dc"@) == match datacenter_of(
            query_datacenter(options),
            config,
        ) {
            Some(dc) => Some(dc),
            None => lookup(params, "dc"@),
        },
        lookup(query_pairs(params, config, options), "index"@) == match index_param(options) {
            Some(index) => Some(index),
            None => lookup(params, "index"@),
        },
        lookup(query_pairs(params, config, options), "wait"@) == match wait_param(options) {
            Some(wait) => Some(wait),
            None => lookup(params, "wait"@),
        },
        lookup(query_pairs(params, config, options), other) == lookup(params, other),
{
    reveal_strlit("dc");
    reveal_strlit("index");
    reveal_strlit("wait");
    assert("dc"@.len() == 2 && "index"@.len() == 5 && "wait"@.len() == 4);
    let dc = datacenter_of(query_datacenter(options), config);
    let with_dc = with_optional_param(params, "dc"@, dc);
    let with_index = with_optional_param(with_dc, "index"@, index_param(options));
    lemma_with_optional_param(params, "dc"@, dc, "index"@);
    lemma_with_optional_param(params, "dc"@, dc, "wait"@);
    lemma_with_optional_param(params, "dc"@, dc, other);
    lemma_with_optional_param(with_dc, "index"@, index_param(options), "dc"@);
    lemma_with_optional_param(with_dc, "index"@, index_param(options), "wait"@);
    lemma_with_optional_param(with_dc, "index"@, index_param(options), other);
    lemma_with_optional_param(with_index, "wait"@, wait_param(options), "dc"@);
    lemma_with_optional_param(with_index, "wait"@, wait_param(options), "index"@);
    lemma_with_optional_param(with_index, "wait"@, wait_param(options), other);
}

/// What a write sends under each name. The datacenter is that of the call,
/// else that of the client, else whatever the caller's parameters hold.
/// Every other name keeps the caller's value.
pub proof fn lemma_write_parameters(
    params: Pairs,
    config: Config,
    options: Option<&WriteOptions>,
    other: Seq<char>,
)
    requires
        unique_keys(params),
        other != "dc"@,
    ensures
        unique_keys(write_pairs(params, config, options)),
        lookup(write_pairs(params, config, options), "dc"@) == match datacenter_of(
            write_datacenter(options),
            config,
        ) {
            Some(dc) => Some(dc),
            None => lookup(params, "dc"@),
        },
        lookup(write_pairs(params, config, options), other) == lookup(params, other),
{
    lemma_with_optional_param(
        params,
        "dc"@,
        datacenter_of(write_datacenter(options), config),
        other,
    );
}

/// Writes the value of the `wait` parameter for a wait of `seconds` seconds.
pub fn wait_value(seconds: u64) -> (r: String)
    ensures
        r@ == wait_text(seconds),
{
    let mut wait = u64_to_string(seconds);
    wait.append("s");
    wait
}

/// Adds to `params` what a read sends besides the caller's own parameters.
pub fn add_query_options(params: Params, config: &Config, options: Option<&QueryOptions>) -> (r:
    Params)
    ensures
        r@ == query_pairs(params@, *config, options),
{
    let mut params = params;
    let per_call: Option<&String> = match options {
        Some(o) => o.datacenter.as_ref(),
        None => None,
    };
    let datacenter: Option<&String> = match per_call {
        Some(dc) => Some(dc),
        None => config.datacenter.as_ref(),
    };
    if let Some(dc) = datacenter {
        params.insert(String::from_str("dc"), dc.clone());
    }
    if let Some(o) = options {
        if let Some(index) = o.wait_index {
            params.insert(String::from_str("index"), u64_to_string(index));
        }
        if let Some(time) = &o.wait_time {
            params.insert(String::from_str("wait"), wait_value(as_secs(time)));
        }
    }
    params
}

/// Adds to `params` what a write sends besides the caller's own parameters.
pub fn add_write_options(params: Params, config: &Config, options: Option<&WriteOptions>) -> (r:
    Params)
    ensures
        r@ == write_pairs(params@, *config, options),
{
    let mut params = params;
    let per_call: Option<&String> = match options {
        Some(o) => o.datacenter.as_ref(),
        None => None,
    };
    let datacenter: Option<&String> = match per_call {
        Some(dc) => Some(dc),
        None => config.datacenter.as_ref(),
    };
    if let Some(dc) = datacenter {
        params.insert(String::from_str("dc"), dc.clone());
    }
    params
}

/// The request that goes to the URL `parsed`, or the failure where the
/// parser refused the URL.
pub fn request_for<T>(
    method: Method,
    parsed: Result<String, url::ParseError>,
    config: &Config,
    body: Option<Body<T>>,
) -> (r: Result<Request<T>, Error>)
    ensures
        built(r) == match parsed {
            Ok(url) => Ok(
                RequestView {
                    method,
                    url: url@,
                    headers: token_headers(*config),
                    body: body_view(body),
                },
            ),
            Err(_) => Err(Error::UrlBuild),
        },
{
    match parsed {
        Ok(url) => {
            let request = Request { method, url, headers: Vec::new(), body };
            assert(request@.headers =~= Seq::empty());
            let request = add_config_options(request, config);
            assert(request@.headers =~= token_headers(*config));
            Ok(request)
        },
        Err(_) => Err(Error::UrlBuild),
    }
}

/// Builds the request for `path` on the server of `config`, with the
/// parameters `params` as they stand.
pub(crate) fn dispatch<T>(
    method: Method,
    path: &str,
    config: &Config,
    params: &Params,
    body: Option<Body<T>>,
) -> (r: Result<Request<T>, Error>)
    ensures
        built(r) == request_of(method, path@, *config, params@, body_view(body)),
{
    let mut input = config.address.clone();
    input.append(path);
    if !url_input_fits(input.as_str(), params.entries()) {
        return Err(Error::UrlBuild);
    }
    let parsed = parse_with_params(input.as_str(), params.entries());
    request_for(method, parsed, config, body)
}

/// The request of a read that answers with one object.
///
/// The URL is the address of `config` followed by `path`, with the
/// parameters of `params` and then those that `options` and `config` add.
/// The response is read by `get_response`.
pub fn get(path: &str, config: &Config, params: Params, options: Option<&QueryOptions>) -> (r:
    Result<Request<()>, Error>)
    ensures
        built(r) == request_of::<()>(
            Method::Get,
            path@,
            *config,
            query_pairs(params@, *config, options),
            None,
        ),
{
    let params = add_query_options(params, config, options);
    dispatch(Method::Get, path, config, &params, None)
}

/// The request of a read that answers with a list.
///
/// It is built as that of `get` is. The response is read by
/// `get_vec_response`, to which a missing path is an empty list.
pub fn get_vec(path: &str, config: &Config, params: Params, options: Option<&QueryOptions>) -> (r:
    Result<Request<()>, Error>)
    ensures
        built(r) == request_of::<()>(
            Method::Get,
            path@,
            *config,
            query_pairs(params@, *config, options),
            None,
        ),
{
    let params = add_query_options(params, config, options);
    dispatch(Method::Get, path, config, &params, None)
}

/// The request of a write with the method `method`.
fn write_with_body<T>(
    path: &str,
    body: Option<Body<T>>,
    config: &Config,
    params: Params,
    options: Option<&WriteOptions>,
    method: Method,
) -> (r: Result<Request<T>, Error>)
    ensures
        built(r) == request_of(
            method,
            path@,
            *config,
            write_pairs(params@, *config, options),
            body_view(body),
        ),
{
    let params = add_write_options(params, config, options);
    dispatch(method, path, config, &params, body)
}

/// The request that deletes what is stored under `path`. The response is
/// read by `write_response`.
pub fn delete(path: &str, config: &Config, params: Params, options: Option<&WriteOptions>) -> (r:
    Result<Request<()>, Error>)
    ensures
        built(r) == request_of::<()>(
            Method::Delete,
            path@,
            *config,
            write_pairs(params@, *config, options),
            None,
        ),
{
    write_with_body(path, None, config, params, options, Method::Delete)
}

/// The request that puts `body` under `path`. The response is read by
/// `write_response`.
pub fn put<T>(
    path: &str,
    body: Option<Body<T>>,
    config: &Config,
    params: Params,
    options: Option<&WriteOptions>,
) -> (r: Result<Request<T>, Error>)
    ensures
        built(r) == request_of(
            Method::Put,
            path@,
            *config,
            write_pairs(params@, *config, options),
            body_view(body),
        ),
{
    write_with_body(path, body, config, params, options, Method::Put)
}

/// The index that a response carries: none where it has no index header,
/// the number where the header holds one, a failure where it holds anything
/// else.
pub open spec fn last_index(index: Option<Vec<u8>>) -> Result<Option<u64>, Error> {
    match index {
        None => Ok(None),
        Some(bytes) => match parse_u64(bytes@) {
            Some(n) => Ok(Some(n)),
            None => Err(Error::IndexParse),
        },
    }
}

/// Reads the index header of a response.
pub fn read_last_index(index: &Option<Vec<u8>>) -> (r: Result<Option<u64>, Error>)
    ensures
        r == last_index(*index),
{
    match index {
        None => Ok(None),
        Some(bytes) => match parse_index(bytes.as_slice()) {
            Some(n) => Ok(Some(n)),
            None => Err(Error::IndexParse),
        },
    }
}

/// Whether `status` reports success: the codes from 200 to 299.
pub open spec fn is_success(status: u16) -> bool {
    200 <= status <= 299
}

/// Whether `status` reports success.
pub fn status_is_success(status: u16) -> (success: bool)
    ensures
        success == is_success(status),
{
    200 <= status && status <= 299
}

/// What a read of one object comes to. No response is a transport failure
/// with its cause. A status that does not report success is a decode
/// failure, whatever the body holds: what the server sends with such a
/// status, `NOT_FOUND` among them, is no object. A body that did not decode
/// is a decode failure; a malformed index is an index failure; else the body
/// and the metadata.
pub open spec fn get_outcome<R>(sent: Result<Response<R>, String>, request_time: Duration) -> Result<
    (R, QueryMeta),
    Error,
> {
    match sent {
        Err(cause) => Err(Error::Transport(cause)),
        Ok(response) => if !is_success(response.status) {
            Err(Error::Decode)
        } else {
            match response.body {
                None => Err(Error::Decode),
                Some(body) => match last_index(response.index) {
                    Err(e) => Err(e),
                    Ok(index) => Ok((body, QueryMeta { last_index: index, request_time })),
                },
            }
        },
    }
}

/// Reads the response to a request made by `get`. `sent` is the response,
/// or the cause for which the request could not be sent or no response came;
/// `request_time` is the time the exchange took.
pub fn get_response<R>(sent: Result<Response<R>, String>, request_time: Duration) -> (r: Result<
    (R, QueryMeta),
    Error,
>)
    ensures
        r == get_outcome(sent, request_time),
{
    match sent {
        Err(cause) => Err(Error::Transport(cause)),
        Ok(response) => {
            let Response { status, index, body } = response;
            if !status_is_success(status) {
                return Err(Error::Decode);
            }
            match body {
                None => Err(Error::Decode),
                Some(body) => match read_last_index(&index) {
                    Err(e) => Err(e),
                    Ok(last_index) => Ok((body, QueryMeta { last_index, request_time })),
                },
            }
        },
    }
}

/// The list that a response to a list read holds. With the status
/// `NOT_FOUND` the body is not looked at and the list is empty. Any other
/// status that does not report success is a decode failure, whatever the
/// body holds. With success the list is the body, and a body that did not
/// decode is a decode failure.
pub open spec fn list_of<R>(response: Response<Vec<R>>) -> Result<Seq<R>, Error> {
    if response.status == NOT_FOUND {
        Ok(Seq::empty())
    } else if !is_success(response.status) {
        Err(Error::Decode)
    } else {
        match response.body {
            Some(list) => Ok(list@),
            None => Err(Error::Decode),
        }
    }
}

/// What a read of a list comes to. No response is a transport failure with
/// its cause; a response without a list fails as `list_of` says; a malformed
/// index is an index failure; else the list and the metadata.
pub open spec fn get_vec_outcome<R>(
    sent: Result<Response<Vec<R>>, String>,
    request_time: Duration,
) -> Result<(Seq<R>, QueryMeta), Error> {
    match sent {
        Err(cause) => Err(Error::Transport(cause)),
        Ok(response) => match list_of(response) {
            Err(e) => Err(e),
            Ok(list) => match last_index(response.index) {
                Err(e) => Err(e),
                Ok(index) => Ok((list, QueryMeta { last_index: index, request_time })),
            },
        },
    }
}

/// The view of the outcome of a read of a list.
pub open spec fn listed<R>(r: Result<(Vec<R>, QueryMeta), Error>) -> Result<
    (Seq<R>, QueryMeta),
    Error,
> {
    match r {
        Ok((list, meta)) => Ok((list@, meta)),
        Err(e) => Err(e),
    }
}

/// Reads the response to a request made by `get_vec`. `sent` is the
/// response, or the cause for which the request could not be sent or no
/// response came; `request_time` is the time the exchange took.
pub fn get_vec_response<R>(sent: Result<Response<Vec<R>>, String>, request_time: Duration) -> (r:
    Result<(Vec<R>, QueryMeta), Error>)
    ensures
        listed(r) == get_vec_outcome(sent, request_time),
{
    match sent {
        Err(cause) => Err(Error::Transport(cause)),
        Ok(response) => {
            let Response { status, index, body } = response;
            let list: Vec<R> = if status == NOT_FOUND {
                Vec::new()
            } else if !status_is_success(status) {
                return Err(Error::Decode);
            } else {
                match body {
                    Some(list) => list,
                    None => {
                        return Err(Error::Decode);
                    },
                }
            };
            match read_last_index(&index) {
                Err(e) => Err(e),
                Ok(last_index) => Ok((list, QueryMeta { last_index, request_time })),
            }
        },
    }
}

/// What a write comes to. No response is a transport failure with its
/// cause. A status that does not report success is a decode failure,
/// whatever the body holds: the flag of a write counts only in an answer
/// that the server gave with success. A body that did not decode is a decode
/// failure; else the body and the metadata.
pub open spec fn write_outcome<R>(sent: Result<Response<R>, String>, request_time: Duration) -> Result<
    (R, WriteMeta),
    Error,
> {
    match sent {
        Err(cause) => Err(Error::Transport(cause)),
        Ok(response) => if !is_success(response.status) {
            Err(Error::Decode)
        } else {
            match response.body {
                None => Err(Error::Decode),
                Some(body) => Ok((body, WriteMeta { request_time })),
            }
        },
    }
}

/// Reads the response to a request made by `put` or `delete`. `sent` is the
/// response, or the cause for which the request could not be sent or no
/// response came; `request_time` is the time the exchange took.
pub fn write_response<R>(sent: Result<Response<R>, String>, request_time: Duration) -> (r: Result<
    (R, WriteMeta),
    Error,
>)
    ensures
        r == write_outcome(sent, request_time),
{
    match sent {
        Err(cause) => Err(Error::Transport(cause)),
        Ok(response) => {
            let Response { status, index: _, body } = response;
            if !status_is_success(status) {
                return Err(Error::Decode);
            }
            match body {
                None => Err(Error::Decode),
                Some(body) => Ok((body, WriteMeta { request_time })),
            }
        },
    }
}

/// A list read of a path that the server does not know gives the empty list
/// and no failure, whatever the body holds, where the index header is absent
/// or well formed.
pub proof fn lemma_not_found_is_empty<R>(response: Response<Vec<R>>, request_time: Duration)
    requires
        response.status == NOT_FOUND,
        last_index(response.index) is Ok,
    ensures
        get_vec_outcome(Ok(response), request_time) == Ok::<(Seq<R>, QueryMeta), Error>(
            (
                Seq::<R>::empty(),
                QueryMeta { last_index: last_index(response.index)->Ok_0, request_time },
            ),
        ),
{
}

/// A status that does not report success fails the call, whatever the body
/// and the index header hold. The one exception is a list read with the
/// status `NOT_FOUND`.
pub proof fn lemma_failing_status_fails<R>(
    one: Response<R>,
    many: Response<Vec<R>>,
    request_time: Duration,
)
    requires
        !is_success(one.status),
        !is_success(many.status),
        many.status != NOT_FOUND,
    ensures
        get_outcome(Ok(one), request_time) == Err::<(R, QueryMeta), Error>(Error::Decode),
        write_outcome(Ok(one), request_time) == Err::<(R, WriteMeta), Error>(Error::Decode),
        get_vec_outcome(Ok(many), request_time) == Err::<(Seq<R>, QueryMeta), Error>(
            Error::Decode,
        ),
{
}

} // verus!
