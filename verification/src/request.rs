//! Building one prepared request from a template and a computed ordinal,
//! and verifying the status of its response.
//!
//! Building substitutes the `{i}` placeholder of the body template with the
//! request's ordinal, re-parses the result as JSON (a fatal construction
//! error if it no longer parses), and attaches the bearer authorization.
//! No network I/O happens here: the embedding application sends the
//! prepared request and hands the outcome back to [`Request::evaluate`].

use vstd::prelude::*;
use crate::config::RequestParameters;
use crate::text::{dec_string, spec_dec, spec_subst, str_eq, substitute};

verus! {

/// The request methods the engine supports.
#[derive(Clone, Copy, PartialEq, Eq, Structural, Debug)]
pub enum Method {
    Get,
    Post,
    Put,
}

/// A fatal construction error: the run aborts before any request is sent.
#[derive(Clone, Copy, PartialEq, Eq, Structural, Debug)]
pub enum BuildError {
    /// The configured concurrency level is zero.
    InvalidConcurrency,
    /// A template's action is none of `GET`, `POST` and `PUT`.
    UnsupportedAction,
    /// A body template no longer parses as JSON once its placeholder is
    /// substituted.
    TemplateSubstitution,
}

/// A per-request execution error, carrying its description. It is recorded
/// in the metrics and never aborts the batch.
#[derive(Debug)]
pub struct RequestError {
    pub msg: String,
}

/// Whether a sequence of characters parses as one JSON document.
pub uninterp spec fn json_well_formed(s: Seq<char>) -> bool;

/// Relies on `serde_json::from_str::<serde_json::Value>`: whether a string
/// parses as a JSON document depends on the string alone.
#[verifier::external_body]
fn parse_json_check(s: &str) -> (r: bool)
    ensures
        r == json_well_formed(s@),
{
    serde_json::from_str::<serde_json::Value>(s).is_ok()
}

/// The method a template's action names, if the engine supports it.
pub open spec fn spec_method_of(action: Seq<char>) -> Option<Method> {
    if action == "GET"@ {
        Some(Method::Get)
    } else if action == "POST"@ {
        Some(Method::Post)
    } else if action == "PUT"@ {
        Some(Method::Put)
    } else {
        None
    }
}

fn method_of(action: &str) -> (r: Option<Method>)
    ensures
        r == spec_method_of(action@),
{
    if str_eq(action, "GET") {
        Some(Method::Get)
    } else if str_eq(action, "POST") {
        Some(Method::Post)
    } else if str_eq(action, "PUT") {
        Some(Method::Put)
    } else {
        None
    }
}

/// The ordinal identifying a request within its executor:
/// `executor * tasks_per_executor + task_in_executor`, with
/// `task_in_executor` 1-based. It substitutes into `{i}` placeholders and
/// correlates metrics; it is not guaranteed globally unique when batch
/// sizes are uneven.
pub open spec fn spec_ordinal(executor: int, tasks_per_executor: int, task_in_executor: int) -> int {
    executor * tasks_per_executor + task_in_executor
}

/// A fully prepared, ready-to-send request. Immutable once built.
pub struct Request {
    pub method: Method,
    pub url: String,
    /// The authorization header value: `Bearer ` followed by the token.
    pub authorization: String,
    /// The body template with `{i}` replaced by the ordinal; it parses as
    /// JSON.
    pub body: Option<String>,
    /// The response status the request expects, if any.
    pub status_code: Option<u16>,
    pub executor: usize,
    pub task_in_executor: usize,
    pub request_number: usize,
}

/// Whether building a prepared request from `req` succeeds for the given
/// executor slot: the action is supported, and the substituted body — if
/// there is a body — still parses as JSON.
pub open spec fn spec_buildable(
    req: RequestParameters,
    executor: int,
    tasks_per_executor: int,
    task_in_executor: int,
) -> bool {
    &&& spec_method_of(req.action@) is Some
    &&& match req.data {
        Some(d) => json_well_formed(
            spec_subst(d@, spec_ordinal(executor, tasks_per_executor, task_in_executor) as nat),
        ),
        None => true,
    }
}

/// How a prepared request relates to the template and executor slot it was
/// built from.
pub open spec fn request_built_from(
    r: Request,
    req: RequestParameters,
    auth: Seq<char>,
    executor: int,
    tasks_per_executor: int,
    task_in_executor: int,
) -> bool {
    &&& Some(r.method) == spec_method_of(req.action@)
    &&& r.url == req.url
    &&& r.authorization@ == "Bearer "@ + auth
    &&& r.status_code == req.status_code
    &&& r.executor == executor
    &&& r.task_in_executor == task_in_executor
    &&& r.request_number == spec_ordinal(executor, tasks_per_executor, task_in_executor)
    &&& match (req.data, r.body) {
        (Some(d), Some(b)) => b@ == spec_subst(
            d@,
            spec_ordinal(executor, tasks_per_executor, task_in_executor) as nat,
        ),
        (None, None) => true,
        _ => false,
    }
}

/// The description of a status verification failure:
/// `status code error: expected E, actual A`.
pub open spec fn spec_status_error_msg(expected: int, actual: int) -> Seq<char> {
    "status code error: expected "@ + spec_dec(expected as nat) + ", actual "@ + spec_dec(
        actual as nat,
    )
}

impl Request {
    /// Builds the prepared request for one executor slot: computes the
    /// ordinal, substitutes it into the body template and re-parses the
    /// result, and attaches the bearer token. Fails — before anything is
    /// sent — on an unsupported action, or on a body that no longer parses
    /// once substituted.
    pub fn new(
        req: RequestParameters,
        auth: &str,
        executor: usize,
        tasks_per_executor: usize,
        task_in_executor: usize,
    ) -> (res: Result<Request, BuildError>)
        requires
            spec_ordinal(executor as int, tasks_per_executor as int, task_in_executor as int)
                <= usize::MAX as int,
        ensures
            res is Ok <==> spec_buildable(
                req,
                executor as int,
                tasks_per_executor as int,
                task_in_executor as int,
            ),
            res matches Ok(r) ==> request_built_from(
                r,
                req,
                auth@,
                executor as int,
                tasks_per_executor as int,
                task_in_executor as int,
            ),
            spec_method_of(req.action@) is None ==> res == Err::<Request, BuildError>(
                BuildError::UnsupportedAction,
            ),
            res is Err && spec_method_of(req.action@) is Some ==> res == Err::<
                Request,
                BuildError,
            >(BuildError::TemplateSubstitution),
    {
        let method = match method_of(req.action.as_str()) {
            Some(m) => m,
            None => {
                return Err(BuildError::UnsupportedAction);
            },
        };
        let request_number = executor * tasks_per_executor + task_in_executor;
        let body = match &req.data {
            Some(d) => {
                let s = substitute(d.as_str(), request_number as u64);
                if !parse_json_check(s.as_str()) {
                    return Err(BuildError::TemplateSubstitution);
                }
                Some(s)
            },
            None => None,
        };
        let mut authorization = "Bearer ".to_owned();
        authorization.append(auth);
        Ok(
            Request {
                method,
                url: req.url,
                authorization,
                body,
                status_code: req.status_code,
                executor,
                task_in_executor,
                request_number,
            },
        )
    }

    /// Decides this request's outcome from what the transport returned.
    /// A transport-level failure is an error carrying the transport's
    /// description. A response is an error exactly when the request expects
    /// a status and the response's differs, with the description naming
    /// both; with no expected status, any response at all is a success.
    pub fn evaluate(&self, response: Result<u16, String>) -> (r: Result<u16, RequestError>)
        ensures
            match response {
                Ok(status) => match self.status_code {
                    Some(expected) => if status == expected {
                        r matches Ok(s) && s == status
                    } else {
                        r matches Err(e) && e.msg@ == spec_status_error_msg(
                            expected as int,
                            status as int,
                        )
                    },
                    None => r matches Ok(s) && s == status,
                },
                Err(m) => r matches Err(e) && e.msg == m,
            },
    {
        match response {
            Ok(status) => {
                match self.status_code {
                    Some(expected) => {
                        if status != expected {
                            let mut msg = "status code error: expected ".to_owned();
                            msg.append(dec_string(expected as u64).as_str());
                            msg.append(", actual ");
                            msg.append(dec_string(status as u64).as_str());
                            Err(RequestError { msg })
                        } else {
                            Ok(status)
                        }
                    },
                    None => Ok(status),
                }
            },
            Err(m) => Err(RequestError { msg: m }),
        }
    }
}

} // verus!
