//! The provider's side: which call stands for which resource, and what an
//! answer to that call is worth.
//!
//! Nothing here touches the network. A [`Request`] says what is to be sent;
//! a [`Transfer`] says what came of sending it.

use crate::config::{AppConfig, ConfigModel};
use crate::payload::{json_document, parse_document};
use serde_json::Value;
use vstd::prelude::*;

verus! {

/// Cache key of the current conditions, and the leading part of no other key.
pub const CURRENT: &'static str = "current";

/// Leading part of the cache key of every forecast.
pub const FORECAST: &'static str = "forecast";

/// What every outbound call sends as `Accept-Encoding`.
pub const ACCEPT_ENCODING: &'static str = "gzip";

/// What every outbound call sends as `User-Agent`.
pub const USER_AGENT: &'static str = "weather-cache";

/// After how many seconds an outbound call is given up.
pub const FETCH_TIMEOUT_SECS: u64 = 5;

/// One kind of upstream data, with the parameters that a client chose.
#[derive(Debug)]
pub enum Resource {
    /// The current conditions at the configured station.
    Current,
    /// The five day forecast for a place, in a language. Both parameters are
    /// taken as the client wrote them.
    Forecast { geocode: String, language: String },
}

/// What a resource is, to a contract.
pub enum ResourceModel {
    Current,
    Forecast { geocode: Seq<char>, language: Seq<char> },
}

impl View for Resource {
    type V = ResourceModel;

    open spec fn view(&self) -> ResourceModel {
        match self {
            Resource::Current => ResourceModel::Current,
            Resource::Forecast { geocode, language } => ResourceModel::Forecast {
                geocode: geocode@,
                language: language@,
            },
        }
    }
}

/// The key under which the answer for `resource` is cached.
pub open spec fn cache_key_of(resource: ResourceModel) -> Seq<char> {
    match resource {
        ResourceModel::Current => CURRENT@,
        ResourceModel::Forecast { geocode, language } => FORECAST@ + "_"@ + geocode + "_"@
            + language,
    }
}

/// The address that is asked for `resource`, for a station and a credential.
pub open spec fn url_of(resource: ResourceModel, pws_id: Seq<char>, api_key: Seq<char>) -> Seq<
    char,
> {
    match resource {
        ResourceModel::Current =>
            "https://api.weather.com/v2/pws/observations/current?stationId="@ + pws_id
                + "&format=json&units=m&apiKey="@ + api_key + "&numericPrecision=decimal"@,
        ResourceModel::Forecast { geocode, language } =>
            "https://api.weather.com/v3/wx/forecast/daily/5day?geocode="@ + geocode
                + "&format=json&units=m&apiKey="@ + api_key + "&language="@ + language,
    }
}

/// One outbound call, in full.
#[derive(Debug)]
pub struct Request {
    pub url: String,
    pub accept_encoding: String,
    pub user_agent: String,
    pub timeout_secs: u64,
}

/// What an outbound call is, to a contract.
pub struct RequestModel {
    pub url: Seq<char>,
    pub accept_encoding: Seq<char>,
    pub user_agent: Seq<char>,
    pub timeout_secs: u64,
}

impl View for Request {
    type V = RequestModel;

    open spec fn view(&self) -> RequestModel {
        RequestModel {
            url: self.url@,
            accept_encoding: self.accept_encoding@,
            user_agent: self.user_agent@,
            timeout_secs: self.timeout_secs,
        }
    }
}

/// The call that fetches `resource` under `config`: its address, the two
/// fixed headers and the fixed timeout.
pub open spec fn request_of(resource: ResourceModel, config: ConfigModel) -> RequestModel {
    RequestModel {
        url: url_of(resource, config.pws_id, config.api_key),
        accept_encoding: ACCEPT_ENCODING@,
        user_agent: USER_AGENT@,
        timeout_secs: FETCH_TIMEOUT_SECS,
    }
}

impl Resource {
    /// The key under which the answer for this resource is cached.
    pub fn cache_key(&self) -> (key: String)
        ensures
            key@ == cache_key_of(self@),
    {
        match self {
            Resource::Current => String::from_str(CURRENT),
            Resource::Forecast { geocode, language } => {
                let mut key = String::from_str(FORECAST);
                key.append("_");
                key.append(geocode.as_str());
                key.append("_");
                key.append(language.as_str());
                key
            },
        }
    }

    /// The address that is asked for this resource.
    pub fn url(&self, config: &AppConfig) -> (url: String)
        ensures
            url@ == url_of(self@, config@.pws_id, config@.api_key),
    {
        match self {
            Resource::Current => {
                let mut url = String::from_str(
                    "https://api.weather.com/v2/pws/observations/current?stationId=",
                );
                url.append(config.pws_id());
                url.append("&format=json&units=m&apiKey=");
                url.append(config.api_key());
                url.append("&numericPrecision=decimal");
                url
            },
            Resource::Forecast { geocode, language } => {
                let mut url = String::from_str(
                    "https://api.weather.com/v3/wx/forecast/daily/5day?geocode=",
                );
                url.append(geocode.as_str());
                url.append("&format=json&units=m&apiKey=");
                url.append(config.api_key());
                url.append("&language=");
                url.append(language.as_str());
                url
            },
        }
    }

    /// The call that fetches this resource.
    pub fn request(&self, config: &AppConfig) -> (request: Request)
        ensures
            request@ == request_of(self@, config@),
    {
        Request {
            url: self.url(config),
            accept_encoding: String::from_str(ACCEPT_ENCODING),
            user_agent: String::from_str(USER_AGENT),
            timeout_secs: FETCH_TIMEOUT_SECS,
        }
    }
}

/// What came of one outbound call.
#[derive(Debug)]
pub enum Transfer {
    /// No answer arrived: the connection failed, or the time ran out.
    Failed,
    /// An answer arrived, with this status and this body.
    Received { status: u16, body: Vec<u8> },
}

/// What a transfer is, to a contract.
pub enum TransferModel {
    Failed,
    Received { status: u16, body: Seq<u8> },
}

impl View for Transfer {
    type V = TransferModel;

    open spec fn view(&self) -> TransferModel {
        match self {
            Transfer::Failed => TransferModel::Failed,
            Transfer::Received { status, body } => TransferModel::Received {
                status: *status,
                body: body@,
            },
        }
    }
}

/// Why a fetch yielded no payload. A handler treats all three alike.
#[derive(Clone, Copy, Debug, PartialEq, Eq, Structural)]
pub enum FetchError {
    /// No answer arrived.
    Transport,
    /// The provider answered with a status outside 200 to 299.
    Status,
    /// The body of the answer is no JSON document.
    Body,
}

/// The sentence that tells a client why there is no payload.
pub open spec fn failure_text(error: FetchError) -> Seq<char> {
    match error {
        FetchError::Transport => "upstream fetch failed: no response"@,
        FetchError::Status => "upstream fetch failed: unsuccessful status"@,
        FetchError::Body => "upstream fetch failed: invalid body"@,
    }
}

impl FetchError {
    /// The sentence that tells a client why there is no payload.
    pub fn message(&self) -> (text: &'static str)
        ensures
            text@ == failure_text(*self),
    {
        match self {
            FetchError::Transport => "upstream fetch failed: no response",
            FetchError::Status => "upstream fetch failed: unsuccessful status",
            FetchError::Body => "upstream fetch failed: invalid body",
        }
    }
}

/// Whether `status` reports success.
pub open spec fn is_success(status: u16) -> bool {
    200 <= status <= 299
}

/// What a transfer is worth: the document in its body, where an answer
/// arrived, reports success and holds one; else the first reason why not.
pub open spec fn fetched(transfer: TransferModel) -> Result<Value, FetchError> {
    match transfer {
        TransferModel::Failed => Err(FetchError::Transport),
        TransferModel::Received { status, body } => if !is_success(status) {
            Err(FetchError::Status)
        } else {
            match json_document(body) {
                Some(document) => Ok(document),
                None => Err(FetchError::Body),
            }
        },
    }
}

/// What a parsed body is worth: the document, or the report that the body
/// held none.
pub fn accept_body(parsed: Result<Value, serde_json::Error>) -> (outcome: Result<Value, FetchError>)
    ensures
        match parsed {
            Ok(document) => outcome == Ok::<Value, FetchError>(document),
            Err(_) => outcome == Err::<Value, FetchError>(FetchError::Body),
        },
{
    match parsed {
        Ok(document) => Ok(document),
        Err(_) => Err(FetchError::Body),
    }
}

/// Judges what came of an outbound call. The body is parsed only where the
/// status reports success.
pub fn interpret(transfer: &Transfer) -> (outcome: Result<Value, FetchError>)
    ensures
        outcome == fetched(transfer@),
{
    match transfer {
        Transfer::Failed => Err(FetchError::Transport),
        Transfer::Received { status, body } => {
            if *status < 200 || *status > 299 {
                Err(FetchError::Status)
            } else {
                accept_body(parse_document(body.as_slice()))
            }
        },
    }
}

} // verus!
