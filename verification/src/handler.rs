//! The per-endpoint decision steps. The surrounding HTTP server performs
//! the two outbound calls (key validation, then the data call) and hands
//! their outcomes to these functions; everything decided here — status
//! codes, bodies, error messages — is stated in the contracts.

use vstd::prelude::*;
use crate::csvtext::servers_csv;
use crate::csvtext::spec_servers_csv;
use crate::csvtext::spec_whereis_csv;
use crate::csvtext::whereis_csv;
use crate::query::ParamError;
use crate::query::params_view;
use crate::query::spec_whereis_body;
use crate::query::whereis_body;
use crate::query::whereis_search_type;
use crate::query::SearchTypeV;
use crate::table::lookup;
use crate::upstream::server_records;
use crate::upstream::spec_server_records;
use crate::upstream::spec_whereis_records;
use crate::upstream::whereis_records;
use crate::upstream::Problem;
use crate::upstream::ProblemV;
use crate::upstream::UpstreamBody;
use crate::upstream::UpstreamBodyV;

verus! {

/// An HTTP status code and response body.
#[derive(Debug)]
pub struct HttpReply {
    pub status: u16,
    pub body: String,
}

pub open spec fn key_prompt_text() -> Seq<char> {
    "Please provide an API key using the api_key query parameter."@
}

pub open spec fn invalid_key_text() -> Seq<char> {
    "Invalid API key"@
}

pub open spec fn user_info_fail_text() -> Seq<char> {
    "Failed to send request to /user_info: "@
}

pub open spec fn both_params_text() -> Seq<char> {
    "You cannot provide a name and a UUID at the same time!"@
}

pub open spec fn neither_param_text() -> Seq<char> {
    "Please provide either name or uuid in the query!"@
}

pub open spec fn whereis_send_fail_text() -> Seq<char> {
    "Error sending request to /whereis: "@
}

pub open spec fn servers_send_fail_text() -> Seq<char> {
    "Error sending request: "@
}

pub open spec fn json_fail_text() -> Seq<char> {
    "Failed to deserialize json: "@
}

pub open spec fn shape_fail_text() -> Seq<char> {
    "Upstream response did not match the expected record shape"@
}

/// Whether an upstream status code accepts the presented API key: only
/// 200 does.
pub fn key_status_valid(status: u16) -> (r: bool)
    ensures
        r == (status == 200),
{
    status == 200
}

/// Requires the `api_key` parameter; a request without one is answered
/// 401 with a prompt for the key, whatever else it carries.
pub fn require_api_key(params: &Vec<(String, String)>) -> (r: Result<String, HttpReply>)
    ensures
        match r {
            Ok(k) => lookup(params_view(params@), "api_key"@) == Some(k@),
            Err(rep) => lookup(params_view(params@), "api_key"@) is None && rep.status == 401
                && rep.body@ == key_prompt_text(),
        },
{
    match crate::table::get_entry(params, "api_key") {
        Some(k) => Ok(k.clone()),
        None => Err(
            HttpReply {
                status: 401,
                body: String::from_str(
                    "Please provide an API key using the api_key query parameter.",
                ),
            },
        ),
    }
}

/// Turns the outcome of the key-validation call into a reply, or lets the
/// request proceed: a transport failure is a 500 carrying its message, a
/// rejected key a 401, and an accepted key passes through.
pub fn auth_reply(auth: &Result<bool, String>) -> (r: Option<HttpReply>)
    ensures
        match r {
            None => auth == Ok::<bool, String>(true),
            Some(rep) => match auth {
                Ok(b) => b == false && rep.status == 401 && rep.body@ == invalid_key_text(),
                Err(m) => rep.status == 500 && rep.body@ == user_info_fail_text() + m@,
            },
        },
{
    match auth {
        Ok(true) => None,
        Ok(false) => Some(
            HttpReply { status: 401, body: String::from_str("Invalid API key") },
        ),
        Err(m) => {
            let body = String::from_str("Failed to send request to /user_info: ").concat(
                m.as_str(),
            );
            Some(HttpReply { status: 500, body })
        },
    }
}

/// Builds the whereis request body, or the 400 reply a bad parameter
/// choice deserves: both `name` and `uuid` is rejected, neither is
/// rejected, exactly one yields the one-field JSON body.
pub fn whereis_request(params: &Vec<(String, String)>) -> (r: Result<String, HttpReply>)
    ensures
        ({
            let n = lookup(params_view(params@), "name"@);
            let u = lookup(params_view(params@), "uuid"@);
            match r {
                Ok(b) => match (n, u) {
                    (Some(nv), None) => b@ == spec_whereis_body(SearchTypeV::Name(nv)),
                    (None, Some(uv)) => b@ == spec_whereis_body(SearchTypeV::Uuid(uv)),
                    _ => false,
                },
                Err(rep) => rep.status == 400 && match (n, u) {
                    (Some(_), Some(_)) => rep.body@ == both_params_text(),
                    (None, None) => rep.body@ == neither_param_text(),
                    _ => false,
                },
            }
        }),
{
    match whereis_search_type(params) {
        Ok(st) => Ok(whereis_body(&st)),
        Err(ParamError::BothNameAndUuid) => Err(
            HttpReply {
                status: 400,
                body: String::from_str("You cannot provide a name and a UUID at the same time!"),
            },
        ),
        Err(ParamError::NeitherNameNorUuid) => Err(
            HttpReply {
                status: 400,
                body: String::from_str("Please provide either name or uuid in the query!"),
            },
        ),
    }
}

/// How the data call ended: a transport failure, a response body that was
/// not JSON, or a decoded JSON body.
pub enum FetchOutcome {
    Transport(String),
    BadJson(String),
    Body(UpstreamBody),
}

pub enum FetchOutcomeV {
    Transport(Seq<char>),
    BadJson(Seq<char>),
    Body(UpstreamBodyV),
}

impl View for FetchOutcome {
    type V = FetchOutcomeV;

    open spec fn view(&self) -> FetchOutcomeV {
        match self {
            FetchOutcome::Transport(m) => FetchOutcomeV::Transport(m@),
            FetchOutcome::BadJson(m) => FetchOutcomeV::BadJson(m@),
            FetchOutcome::Body(b) => FetchOutcomeV::Body(b@),
        }
    }
}

fn problem_reply(p: Problem) -> (r: HttpReply)
    ensures
        r.status == 500,
        match p@ {
            ProblemV::ErrorField(m) => r.body@ == m,
            ProblemV::Shape => r.body@ == shape_fail_text(),
        },
{
    match p {
        Problem::ErrorField(m) => HttpReply { status: 500, body: m },
        Problem::Shape => HttpReply {
            status: 500,
            body: String::from_str("Upstream response did not match the expected record shape"),
        },
    }
}

/// The final reply of the whereis endpoint. An upstream `error` field is
/// surfaced as an error reply carrying its message, never as a 200; good
/// records become 200 with their CSV text.
pub fn whereis_reply(outcome: &FetchOutcome) -> (r: HttpReply)
    ensures
        match outcome@ {
            FetchOutcomeV::Transport(m) => r.status == 500 && r.body@ == whereis_send_fail_text()
                + m,
            FetchOutcomeV::BadJson(m) => r.status == 500 && r.body@ == json_fail_text() + m,
            FetchOutcomeV::Body(b) => match spec_whereis_records(b) {
                Err(ProblemV::ErrorField(m)) => r.status == 500 && r.body@ == m,
                Err(ProblemV::Shape) => r.status == 500 && r.body@ == shape_fail_text(),
                Ok(rs) => r.status == 200 && r.body@ == spec_whereis_csv(rs),
            },
        },
{
    match outcome {
        FetchOutcome::Transport(m) => {
            let body = String::from_str("Error sending request to /whereis: ").concat(m.as_str());
            HttpReply { status: 500, body }
        },
        FetchOutcome::BadJson(m) => {
            let body = String::from_str("Failed to deserialize json: ").concat(m.as_str());
            HttpReply { status: 500, body }
        },
        FetchOutcome::Body(b) => match whereis_records(b) {
            Ok(rs) => HttpReply { status: 200, body: whereis_csv(&rs) },
            Err(p) => problem_reply(p),
        },
    }
}

/// The final reply of the servers endpoint, in the same shape; only the
/// transport-failure message differs.
pub fn servers_reply(outcome: &FetchOutcome) -> (r: HttpReply)
    ensures
        match outcome@ {
            FetchOutcomeV::Transport(m) => r.status == 500 && r.body@ == servers_send_fail_text()
                + m,
            FetchOutcomeV::BadJson(m) => r.status == 500 && r.body@ == json_fail_text() + m,
            FetchOutcomeV::Body(b) => match spec_server_records(b) {
                Err(ProblemV::ErrorField(m)) => r.status == 500 && r.body@ == m,
                Err(ProblemV::Shape) => r.status == 500 && r.body@ == shape_fail_text(),
                Ok(rs) => r.status == 200 && r.body@ == spec_servers_csv(rs),
            },
        },
{
    match outcome {
        FetchOutcome::Transport(m) => {
            let body = String::from_str("Error sending request: ").concat(m.as_str());
            HttpReply { status: 500, body }
        },
        FetchOutcome::BadJson(m) => {
            let body = String::from_str("Failed to deserialize json: ").concat(m.as_str());
            HttpReply { status: 500, body }
        },
        FetchOutcome::Body(b) => match server_records(b) {
            Ok(rs) => HttpReply { status: 200, body: servers_csv(&rs) },
            Err(p) => problem_reply(p),
        },
    }
}

} // verus!
