//! What every request shares: the client that knows where the service is,
//! the URL of a request, the request traits, and the response envelope.

use vstd::prelude::*;

use reqwest::Client as HttpClient;

use crate::common::{mode_token, Coordinates, TransportationMode};
use crate::errors::{status_token, DecodeError, Error, OsrmStatus};
use crate::json::{decode_field, expect_object, field, FromJson, Json};
use crate::options::{pairs_view, service_token, OptionPair, Service};
use crate::text::WireForm;

verus! {

/// Declares `reqwest::Client`, the HTTP client that a `Client` holds for the
/// transport; nothing inside it is read here.
#[verifier::external_type_specification]
#[verifier::external_body]
pub struct ExHttpClient(HttpClient);

/// The default URL of the service.
pub const OSRM_BASE: &'static str = "http://router.project-osrm.org";

/// The default version of the API.
pub const OSRM_VERSION: &'static str = "v1";

/// Relies on `reqwest::Client::new`: an HTTP client with reqwest's default
/// configuration. Nothing is claimed of it. It panics only where a TLS
/// backend or a DNS resolver's system configuration fails to load, and this
/// crate enables neither.
#[verifier::external_body]
fn new_http_client() -> HttpClient {
    HttpClient::new()
}

/// The connection to a routing service: where it is, which version of the
/// API it speaks, and the HTTP client that carries the calls.
#[derive(Debug)]
pub struct Client {
    /// The HTTP client that performs the calls.
    pub http: HttpClient,
    /// The base URL of the service instance.
    pub base_url: String,
    /// The version of the API.
    pub version: String,
}

impl Default for Client {
    fn default() -> (r: Client)
        ensures
            r.base_url@ == OSRM_BASE@,
            r.version@ == OSRM_VERSION@,
    {
        Client {
            http: new_http_client(),
            base_url: String::from_str(OSRM_BASE),
            version: String::from_str(OSRM_VERSION),
        }
    }
}

impl Client {
    /// A client of the service at `base_url` that speaks `version` of the API.
    pub fn with_endpoint(base_url: String, version: String) -> (r: Client)
        ensures
            r.base_url@ == base_url@,
            r.version@ == version@,
    {
        Client { http: new_http_client(), base_url, version }
    }
}

/// The URL `{base}/{service}/{version}/{profile}/{coordinates}`.
pub open spec fn request_url(
    base: Seq<char>,
    service: Service,
    version: Seq<char>,
    profile: TransportationMode,
    coordinates: Seq<char>,
) -> Seq<char> {
    base + seq!['/'] + service_token(service) + seq!['/'] + version + seq!['/'] + mode_token(
        profile,
    ) + seq!['/'] + coordinates
}

/// Writes the URL of a request to `service`.
pub fn build_url(
    client: &Client,
    service: Service,
    profile: TransportationMode,
    coordinates: &Coordinates,
) -> (r: String)
    ensures
        r@ == request_url(
            client.base_url@,
            service,
            client.version@,
            profile,
            coordinates.wire_spec(),
        ),
{
    proof {
        reveal_strlit("/");
    }
    let coords = coordinates.wire();
    let mut url = client.base_url.clone();
    url.append("/");
    url.append(service.token());
    url.append("/");
    url.append(client.version.as_str());
    url.append("/");
    url.append(profile.token());
    url.append("/");
    url.append(coords.as_str());
    url
}

/// A value that turns into an option table.
pub trait WithOptions {
    /// The option table, as text.
    spec fn options_spec(&self) -> Seq<OptionPair>;

    /// The options of this value, in a fixed order.
    fn options(&self) -> (r: Vec<(&'static str, String)>)
        ensures
            pairs_view(r@) == self.options_spec(),
    ;
}

/// A request to one of the services.
pub trait Request: WithOptions {
    /// What a successful call returns.
    type Response: FromJson;

    /// The URL of this request, for a service at `base` speaking `version`.
    spec fn url_spec(&self, base: Seq<char>, version: Seq<char>) -> Seq<char>;

    /// The whole query: the service's own options, then the general ones.
    spec fn query_spec(&self) -> Seq<OptionPair>;

    /// Writes the URL of this request.
    fn url(&self, client: &Client) -> (r: String)
        ensures
            r@ == self.url_spec(client.base_url@, client.version@),
    ;

    /// Builds the query parameters of this request.
    fn query(&self) -> (r: Vec<(&'static str, String)>)
        ensures
            pairs_view(r@) == self.query_spec(),
    ;
}

/// The envelope of every response: a status code, an optional message and
/// data version, and the payload, whose fields stand in the same object.
#[derive(Debug)]
pub struct Response<T> {
    pub code: OsrmStatus,
    pub message: Option<String>,
    pub data_version: Option<String>,
    pub data: T,
}

impl<T: FromJson> FromJson for Response<T> {
    open spec fn decodes(j: Json) -> bool {
        &&& j is Object
        &&& OsrmStatus::decodes(field(j, "code"@))
        &&& <Option<String> as FromJson>::decodes(field(j, "message"@))
        &&& <Option<String> as FromJson>::decodes(field(j, "data_version"@))
        &&& T::decodes(j)
    }

    open spec fn decoded(j: Json, v: Response<T>) -> bool {
        &&& OsrmStatus::decoded(field(j, "code"@), v.code)
        &&& <Option<String> as FromJson>::decoded(field(j, "message"@), v.message)
        &&& <Option<String> as FromJson>::decoded(field(j, "data_version"@), v.data_version)
        &&& T::decoded(j, v.data)
    }

    fn from_json(j: &Json) -> (r: Result<Response<T>, DecodeError>) {
        expect_object(j)?;
        let code = decode_field(j, "code")?;
        let message = decode_field(j, "message")?;
        let data_version = decode_field(j, "data_version")?;
        let data = T::from_json(j)?;
        Ok(Response { code, message, data_version, data })
    }
}

/// What the envelope conversion yields: the payload on `Ok`, the status as a
/// protocol failure otherwise.
pub open spec fn envelope_result<T>(v: Response<T>) -> Result<T, Error> {
    if v.code == OsrmStatus::Success {
        Ok(v.data)
    } else {
        Err(Error::ProtocolError(v.code))
    }
}

impl<T> From<Response<T>> for Result<T, Error> {
    fn from(v: Response<T>) -> (r: Result<T, Error>) {
        match v.code {
            OsrmStatus::Success => Ok(v.data),
            _ => Err(Error::ProtocolError(v.code)),
        }
    }
}

impl<T> vstd::std_specs::convert::FromSpecImpl<Response<T>> for Result<T, Error> {
    open spec fn obeys_from_spec() -> bool {
        true
    }

    open spec fn from_spec(v: Response<T>) -> Result<T, Error> {
        envelope_result(v)
    }
}

/// Whether `j` is an envelope whose status is `st`.
pub open spec fn envelope_status(j: Json, st: OsrmStatus) -> bool {
    j is Object && OsrmStatus::decoded(field(j, "code"@), st)
}

proof fn lemma_success_token(st: OsrmStatus)
    ensures
        status_token(st) == "Ok"@ ==> st == OsrmStatus::Success,
{
    reveal_strlit("Ok");
    reveal_strlit("InvalidUrl");
    reveal_strlit("InvalidService");
    reveal_strlit("InvalidVersion");
    reveal_strlit("InvalidOptions");
    reveal_strlit("InvalidQuery");
    reveal_strlit("InvalidValue");
    reveal_strlit("NoSegment");
    reveal_strlit("TooBig");
    reveal_strlit("NoRoute");
    reveal_strlit("NoTable");
    reveal_strlit("NoMatch");
    reveal_strlit("NoTrips");
    reveal_strlit("NotImplemented");
    match st {
        OsrmStatus::Success => {},
        OsrmStatus::InvalidUrl => assert(status_token(st).len() != "Ok"@.len()),
        OsrmStatus::InvalidService => assert(status_token(st).len() != "Ok"@.len()),
        OsrmStatus::InvalidVersion => assert(status_token(st).len() != "Ok"@.len()),
        OsrmStatus::InvalidOptions => assert(status_token(st).len() != "Ok"@.len()),
        OsrmStatus::InvalidQuery => assert(status_token(st).len() != "Ok"@.len()),
        OsrmStatus::InvalidValue => assert(status_token(st).len() != "Ok"@.len()),
        OsrmStatus::NoSegment => assert(status_token(st).len() != "Ok"@.len()),
        OsrmStatus::TooBig => assert(status_token(st).len() != "Ok"@.len()),
        OsrmStatus::NoRoute => assert(status_token(st).len() != "Ok"@.len()),
        OsrmStatus::NoTable => assert(status_token(st).len() != "Ok"@.len()),
        OsrmStatus::NoMatch => assert(status_token(st).len() != "Ok"@.len()),
        OsrmStatus::NoTrips => assert(status_token(st).len() != "Ok"@.len()),
        OsrmStatus::NotImplemented => assert(status_token(st).len() != "Ok"@.len()),
    }
}

/// Reads a response body: the status code decides; only an `Ok` envelope has
/// its payload read. A protocol failure carries the status, and a body of
/// the wrong shape is a decode failure.
pub fn decode_response<T: FromJson>(j: &Json) -> (r: Result<T, Error>)
    ensures
        r is Ok <==> envelope_status(*j, OsrmStatus::Success) && T::decodes(*j),
        r matches Ok(v) ==> T::decoded(*j, v),
        r matches Err(Error::ProtocolError(st)) ==> st != OsrmStatus::Success && envelope_status(
            *j,
            st,
        ),
        (exists|st: OsrmStatus| st != OsrmStatus::Success && envelope_status(*j, st))
            ==> r matches Err(Error::ProtocolError(_)),
        !(r matches Err(Error::HttpError(_))),
{
    if let Err(e) = expect_object(j) {
        return Err(Error::DecodeError(e));
    }
    let code: OsrmStatus = match decode_field(j, "code") {
        Ok(c) => c,
        Err(e) => return Err(Error::DecodeError(e)),
    };
    proof {
        lemma_success_token(code);
        assert forall|st: OsrmStatus| envelope_status(*j, st) implies (st == OsrmStatus::Success
            <==> code == OsrmStatus::Success) by {
            lemma_success_token(st);
        }
    }
    match code {
        OsrmStatus::Success => match T::from_json(j) {
            Ok(v) => Ok(v),
            Err(e) => Err(Error::DecodeError(e)),
        },
        _ => Err(Error::ProtocolError(code)),
    }
}

} // verus!
