//! The failures that a call to a routing service can end in.

use vstd::prelude::*;

use reqwest::Error as TransportError;

use crate::text::str_eq;

verus! {

/// Declares `reqwest::Error`, the transport failure that `Error::HttpError`
/// carries unchanged; nothing inside it is read here.
#[verifier::external_type_specification]
#[verifier::external_body]
pub struct ExTransportError(TransportError);

/// The problems that may arise when interacting with a routing service.
#[derive(Debug)]
pub enum Error {
    /// The transport failed before any body could be read.
    HttpError(TransportError),
    /// The service answered with a status other than `Ok`.
    ProtocolError(OsrmStatus),
    /// The body did not have the shape that the protocol describes.
    DecodeError(DecodeError),
}

impl From<TransportError> for Error {
    fn from(e: TransportError) -> (r: Error) {
        Error::HttpError(e)
    }
}

impl vstd::std_specs::convert::FromSpecImpl<TransportError> for Error {
    open spec fn obeys_from_spec() -> bool {
        true
    }

    open spec fn from_spec(e: TransportError) -> Error {
        Error::HttpError(e)
    }
}

/// A JSON value that does not have the expected shape; `expected` names the
/// shape that was looked for.
#[derive(Debug, Clone, Copy)]
pub struct DecodeError {
    pub expected: &'static str,
}

/// The status discriminant of every response envelope.
#[derive(Debug, Clone, Copy, PartialEq, Eq, Structural)]
pub enum OsrmStatus {
    /// Everything went ok (the token `Ok` on the wire)
    Success,
    /// url string is invalid
    InvalidUrl,
    /// service name is invalid
    InvalidService,
    /// version is not found
    InvalidVersion,
    /// options are invalid
    InvalidOptions,
    /// the query string is syntactically malformed
    InvalidQuery,
    /// the successfully parsed query parameters are invalid
    InvalidValue,
    /// one of the supplied input coordinates could not snap to street segment
    NoSegment,
    /// the request size violates one of the service specific request size restrictions
    TooBig,
    /// no route was found
    NoRoute,
    /// no route was found for the table
    NoTable,
    /// no matching was found
    NoMatch,
    /// no trip was found because the coordinates are not connected
    NoTrips,
    /// the request is not supported; never sent on the wire
    NotImplemented,
}

/// The token of each status on the wire.
pub open spec fn status_token(s: OsrmStatus) -> Seq<char> {
    match s {
        OsrmStatus::Success => "Ok"@,
        OsrmStatus::InvalidUrl => "InvalidUrl"@,
        OsrmStatus::InvalidService => "InvalidService"@,
        OsrmStatus::InvalidVersion => "InvalidVersion"@,
        OsrmStatus::InvalidOptions => "InvalidOptions"@,
        OsrmStatus::InvalidQuery => "InvalidQuery"@,
        OsrmStatus::InvalidValue => "InvalidValue"@,
        OsrmStatus::NoSegment => "NoSegment"@,
        OsrmStatus::TooBig => "TooBig"@,
        OsrmStatus::NoRoute => "NoRoute"@,
        OsrmStatus::NoTable => "NoTable"@,
        OsrmStatus::NoMatch => "NoMatch"@,
        OsrmStatus::NoTrips => "NoTrips"@,
        OsrmStatus::NotImplemented => "NotImplemented"@,
    }
}

/// The fixed human-readable phrase of each status.
pub open spec fn status_phrase(s: OsrmStatus) -> Seq<char> {
    match s {
        OsrmStatus::Success => "everything went ok"@,
        OsrmStatus::InvalidUrl => "url string is invalid"@,
        OsrmStatus::InvalidService => "service name is invalid"@,
        OsrmStatus::InvalidVersion => "version is not found"@,
        OsrmStatus::InvalidOptions => "options are invalid"@,
        OsrmStatus::InvalidQuery => "the query string is synctactically malformed"@,
        OsrmStatus::InvalidValue => "the successfully parsed query parameters are invalid"@,
        OsrmStatus::NoSegment => "one of the supplied input coordinates could not snap to street segment"@,
        OsrmStatus::TooBig => "the request size violates one of the service specific request size restrictions"@,
        OsrmStatus::NoRoute => "no route found"@,
        OsrmStatus::NoTable => "no route found between the sources and destinations"@,
        OsrmStatus::NoMatch => "no matchings found"@,
        OsrmStatus::NoTrips => "no trips found because input coordinates are not connected"@,
        OsrmStatus::NotImplemented => "this request is not supported"@,
    }
}

impl OsrmStatus {
    /// The token of this status on the wire.
    pub fn token(self) -> (r: &'static str)
        ensures
            r@ == status_token(self),
    {
        match self {
            OsrmStatus::Success => "Ok",
            OsrmStatus::InvalidUrl => "InvalidUrl",
            OsrmStatus::InvalidService => "InvalidService",
            OsrmStatus::InvalidVersion => "InvalidVersion",
            OsrmStatus::InvalidOptions => "InvalidOptions",
            OsrmStatus::InvalidQuery => "InvalidQuery",
            OsrmStatus::InvalidValue => "InvalidValue",
            OsrmStatus::NoSegment => "NoSegment",
            OsrmStatus::TooBig => "TooBig",
            OsrmStatus::NoRoute => "NoRoute",
            OsrmStatus::NoTable => "NoTable",
            OsrmStatus::NoMatch => "NoMatch",
            OsrmStatus::NoTrips => "NoTrips",
            OsrmStatus::NotImplemented => "NotImplemented",
        }
    }

    /// The fixed phrase that describes this status to a person.
    pub fn description(self) -> (r: &'static str)
        ensures
            r@ == status_phrase(self),
    {
        match self {
            OsrmStatus::Success => "everything went ok",
            OsrmStatus::InvalidUrl => "url string is invalid",
            OsrmStatus::InvalidService => "service name is invalid",
            OsrmStatus::InvalidVersion => "version is not found",
            OsrmStatus::InvalidOptions => "options are invalid",
            OsrmStatus::InvalidQuery => "the query string is synctactically malformed",
            OsrmStatus::InvalidValue => "the successfully parsed query parameters are invalid",
            OsrmStatus::NoSegment => "one of the supplied input coordinates could not snap to street segment",
            OsrmStatus::TooBig => "the request size violates one of the service specific request size restrictions",
            OsrmStatus::NoRoute => "no route found",
            OsrmStatus::NoTable => "no route found between the sources and destinations",
            OsrmStatus::NoMatch => "no matchings found",
            OsrmStatus::NoTrips => "no trips found because input coordinates are not connected",
            OsrmStatus::NotImplemented => "this request is not supported",
        }
    }

    /// The status whose token is `s`, if any.
    pub fn from_token(s: &str) -> (r: Option<OsrmStatus>)
        ensures
            r matches Some(st) ==> status_token(st) == s@,
            r is None ==> forall|st: OsrmStatus| status_token(st) != s@,
    {
        let all = [
            OsrmStatus::Success,
            OsrmStatus::InvalidUrl,
            OsrmStatus::InvalidService,
            OsrmStatus::InvalidVersion,
            OsrmStatus::InvalidOptions,
            OsrmStatus::InvalidQuery,
            OsrmStatus::InvalidValue,
            OsrmStatus::NoSegment,
            OsrmStatus::TooBig,
            OsrmStatus::NoRoute,
            OsrmStatus::NoTable,
            OsrmStatus::NoMatch,
            OsrmStatus::NoTrips,
            OsrmStatus::NotImplemented,
        ];
        let mut i: usize = 0;
        while i < 14
            invariant
                i <= 14,
                all@.len() == 14,
                forall|k: int| 0 <= k < i ==> status_token(#[trigger] all@[k]) != s@,
            decreases 14 - i,
        {
            let st = all[i];
            if str_eq(st.token(), s) {
                return Some(st);
            }
            i += 1;
        }
        assert forall|st: OsrmStatus| status_token(st) != s@ by {
            assert(all@.contains(st)) by {
                match st {
                    OsrmStatus::Success => assert(all@[0] == st),
                    OsrmStatus::InvalidUrl => assert(all@[1] == st),
                    OsrmStatus::InvalidService => assert(all@[2] == st),
                    OsrmStatus::InvalidVersion => assert(all@[3] == st),
                    OsrmStatus::InvalidOptions => assert(all@[4] == st),
                    OsrmStatus::InvalidQuery => assert(all@[5] == st),
                    OsrmStatus::InvalidValue => assert(all@[6] == st),
                    OsrmStatus::NoSegment => assert(all@[7] == st),
                    OsrmStatus::TooBig => assert(all@[8] == st),
                    OsrmStatus::NoRoute => assert(all@[9] == st),
                    OsrmStatus::NoTable => assert(all@[10] == st),
                    OsrmStatus::NoMatch => assert(all@[11] == st),
                    OsrmStatus::NoTrips => assert(all@[12] == st),
                    OsrmStatus::NotImplemented => assert(all@[13] == st),
                }
            }
        }
        None
    }
}

} // verus!
