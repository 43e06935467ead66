use crate::errors::app_error::AppError;
use crate::text::{decimal, decimal_text, trim_end_char, trim_end_len, trim_start_char, trim_start_pos};
use vstd::prelude::*;
use vstd::string::*;

verus! {

/// The `User-Agent` the agent sends.
pub const USER_AGENT: &'static str = "agent-rust/0.1.0";

/// How long one request may take, in seconds.
pub const REQUEST_TIMEOUT_SECS: u64 = 10u64;

/// The header that carries the API key.
pub const API_KEY_HEADER: &'static str = "x-api-key";

/// What the backend's HTTP client is set up with: where it sends, the key it
/// sends, and how often and how long apart it retries.
pub struct HttpClientBase {
    base_url: String,
    api_key: String,
    max_retries: u8,
    retry_backoff_ms: u64,
}

/// `base` and `endpoint` joined by exactly one `/`: the slashes that end `base`
/// and those that begin `endpoint` are dropped first.
pub open spec fn joined_url(base: Seq<char>, endpoint: Seq<char>) -> Seq<char> {
    trim_end_char(base, '/') + "/"@ + trim_start_char(endpoint, '/')
}

/// An answer to a request: a status line, or no answer at all.
pub enum HttpAnswer {
    /// The server answered with `status`; `status_text` is how the status is
    /// shown (code and reason, as `500 Internal Server Error`).
    Status { status: u16, status_text: String },
    /// The request did not complete; `detail` says why.
    Failed { detail: String },
}

/// What to do next in a POST.
pub enum PostStep {
    /// The backend took the request: it answered 2xx or 4xx.
    Done,
    /// Wait `wait_ms` milliseconds and send again; `attempt` retries will then
    /// have been made.
    Retry { attempt: u8, wait_ms: u64 },
    /// Give up with this error.
    Fail(AppError),
}

/// 2xx.
pub open spec fn is_success(status: u16) -> bool {
    200 <= status <= 299
}

/// 4xx.
pub open spec fn is_client_error(status: u16) -> bool {
    400 <= status <= 499
}

/// 5xx.
pub open spec fn is_server_error(status: u16) -> bool {
    500 <= status <= 599
}

/// `e` is `AppError::Metrics` with this message.
pub open spec fn is_metrics_error(e: AppError, msg: Seq<char>) -> bool {
    e matches AppError::Metrics(m) && m@ == msg
}

/// The decision a POST step makes, with the message of a failure as text.
pub ghost enum PostDecision {
    Done,
    Retry { attempt: u8, wait_ms: u64 },
    Fail(Seq<char>),
}

/// The decision that follows `answer` after `attempt` retries, for a client that
/// retries at most `max_retries` times, `backoff_ms` apart: a 2xx or 4xx answer
/// ends the POST successfully; a 5xx answer or a failed request is retried while
/// retries remain and reported otherwise; any other status is reported at once.
pub open spec fn post_decision(max_retries: u8, backoff_ms: u64, attempt: u8, answer: HttpAnswer) -> PostDecision {
    match answer {
        HttpAnswer::Status { status, status_text } => {
            if is_success(status) || is_client_error(status) {
                PostDecision::Done
            } else if is_server_error(status) {
                if attempt >= max_retries {
                    PostDecision::Fail(
                        "backend responded with "@ + status_text@ + " after "@ + decimal_text(
                            attempt as nat,
                        ) + " retries"@,
                    )
                } else {
                    PostDecision::Retry { attempt: (attempt + 1) as u8, wait_ms: backoff_ms }
                }
            } else {
                PostDecision::Fail("unexpected status "@ + status_text@)
            }
        },
        HttpAnswer::Failed { detail } => {
            if attempt >= max_retries {
                PostDecision::Fail("http error after retries: "@ + detail@)
            } else {
                PostDecision::Retry { attempt: (attempt + 1) as u8, wait_ms: backoff_ms }
            }
        },
    }
}

/// `r` carries out decision `d`; a failure is `AppError::Metrics` with its message.
pub open spec fn carries_out(r: PostStep, d: PostDecision) -> bool {
    match d {
        PostDecision::Done => r is Done,
        PostDecision::Retry { attempt, wait_ms } => r == (PostStep::Retry { attempt, wait_ms }),
        PostDecision::Fail(msg) => r matches PostStep::Fail(e) && is_metrics_error(e, msg),
    }
}

/// What a health check reports for an answer: success on 2xx, otherwise an
/// error naming the status or the failure.
pub open spec fn health_check_spec(answer: HttpAnswer, r: Result<(), AppError>) -> bool {
    match answer {
        HttpAnswer::Status { status, status_text } => if is_success(status) {
            r is Ok
        } else {
            r matches Err(e) && is_metrics_error(e, "health_check status "@ + status_text@)
        },
        HttpAnswer::Failed { detail } => r matches Err(e) && is_metrics_error(
            e,
            "http error: "@ + detail@,
        ),
    }
}

impl HttpClientBase {
    /// A client for the backend at `base_url` that sends `api_key` and retries a
    /// request at most twice, 300 ms apart.
    pub fn new(base_url: &str, api_key: &str) -> (r: HttpClientBase)
        ensures
            r.base_url_spec() == base_url@,
            r.api_key_spec() == api_key@,
            r.max_retries_spec() == 2,
            r.retry_backoff_ms_spec() == 300,
    {
        HttpClientBase {
            base_url: String::from_str(base_url),
            api_key: String::from_str(api_key),
            max_retries: 2,
            retry_backoff_ms: 300,
        }
    }

    pub closed spec fn base_url_spec(&self) -> Seq<char> {
        self.base_url@
    }

    pub closed spec fn api_key_spec(&self) -> Seq<char> {
        self.api_key@
    }

    pub closed spec fn max_retries_spec(&self) -> u8 {
        self.max_retries
    }

    pub closed spec fn retry_backoff_ms_spec(&self) -> u64 {
        self.retry_backoff_ms
    }

    /// The backend's base URL.
    pub fn base_url(&self) -> (r: &str)
        ensures
            r@ == self.base_url_spec(),
    {
        self.base_url.as_str()
    }

    /// The API key sent with each request.
    pub fn api_key(&self) -> (r: &str)
        ensures
            r@ == self.api_key_spec(),
    {
        self.api_key.as_str()
    }

    /// The full URL of an endpoint: the base URL and the endpoint joined by one `/`.
    pub fn build_url(&self, endpoint: &str) -> (r: String)
        ensures
            r@ == joined_url(self.base_url_spec(), endpoint@),
    {
        let base = self.base_url.as_str();
        let e = trim_end_len(base, '/');
        let s = trim_start_pos(endpoint, '/');
        let n = endpoint.unicode_len();
        proof {
            reveal_strlit("/");
        }
        let r = String::from_str(base.substring_char(0, e)).concat("/").concat(
            endpoint.substring_char(s, n),
        );
        r
    }

    /// The next step of a POST after `attempt` retries, given the answer.
    pub fn post_step(&self, attempt: u8, answer: HttpAnswer) -> (r: PostStep)
        ensures
            carries_out(
                r,
                post_decision(self.max_retries_spec(), self.retry_backoff_ms_spec(), attempt, answer),
            ),
    {
        match answer {
            HttpAnswer::Status { status, status_text } => {
                if (200 <= status && status <= 299) || (400 <= status && status <= 499) {
                    PostStep::Done
                } else if 500 <= status && status <= 599 {
                    if attempt >= self.max_retries {
                        let msg = String::from_str("backend responded with ").concat(
                            status_text.as_str(),
                        ).concat(" after ").concat(decimal(attempt as u64).as_str()).concat(
                            " retries",
                        );
                        PostStep::Fail(AppError::Metrics(msg))
                    } else {
                        PostStep::Retry { attempt: attempt + 1, wait_ms: self.retry_backoff_ms }
                    }
                } else {
                    PostStep::Fail(
                        AppError::Metrics(
                            String::from_str("unexpected status ").concat(status_text.as_str()),
                        ),
                    )
                }
            },
            HttpAnswer::Failed { detail } => {
                if attempt >= self.max_retries {
                    PostStep::Fail(
                        AppError::Metrics(
                            String::from_str("http error after retries: ").concat(detail.as_str()),
                        ),
                    )
                } else {
                    PostStep::Retry { attempt: attempt + 1, wait_ms: self.retry_backoff_ms }
                }
            },
        }
    }

    /// What a health check reports for the answer to its `GET`.
    pub fn health_check_result(&self, answer: HttpAnswer) -> (r: Result<(), AppError>)
        ensures
            health_check_spec(answer, r),
    {
        match answer {
            HttpAnswer::Status { status, status_text } => {
                if 200 <= status && status <= 299 {
                    Ok(())
                } else {
                    Err(
                        AppError::Metrics(
                            String::from_str("health_check status ").concat(status_text.as_str()),
                        ),
                    )
                }
            },
            HttpAnswer::Failed { detail } => Err(
                AppError::Metrics(String::from_str("http error: ").concat(detail.as_str())),
            ),
        }
    }
}

/// The retries a POST makes when the answers in `answers` come one after
/// another, starting after `attempt` retries: every retry step counts, and the
/// POST ends at the first step that is not a retry.
pub open spec fn retries_in_run(max_retries: u8, backoff_ms: u64, attempt: u8, answers: Seq<HttpAnswer>) -> nat
    decreases answers.len(),
{
    if answers.len() == 0 {
        0
    } else {
        match post_decision(max_retries, backoff_ms, attempt, answers[0]) {
            PostDecision::Retry { attempt: next, wait_ms } => 1 + retries_in_run(
                max_retries,
                backoff_ms,
                next,
                answers.drop_first(),
            ),
            _ => 0,
        }
    }
}

/// Whatever the backend answers, a POST that starts after `attempt` retries
/// makes at most `max_retries - attempt` more: from the first send, at most
/// `max_retries` retries, so at most `max_retries + 1` requests.
pub proof fn law_retries_bounded(max_retries: u8, backoff_ms: u64, attempt: u8, answers: Seq<HttpAnswer>)
    requires
        attempt <= max_retries,
    ensures
        attempt + retries_in_run(max_retries, backoff_ms, attempt, answers) <= max_retries,
    decreases answers.len(),
{
    if answers.len() > 0 {
        match post_decision(max_retries, backoff_ms, attempt, answers[0]) {
            PostDecision::Retry { attempt: next, wait_ms } => {
                law_retries_bounded(max_retries, backoff_ms, next, answers.drop_first());
            },
            _ => {},
        }
    }
}

/// Slashes that end the base URL or begin the endpoint do not change the URL
/// built from them; without such slashes the URL is base, `/`, endpoint.
pub proof fn law_joined_url_slashes(base: Seq<char>, endpoint: Seq<char>)
    ensures
        joined_url(base.push('/'), endpoint) == joined_url(base, endpoint),
        joined_url(base, seq!['/'] + endpoint) == joined_url(base, endpoint),
        (base.len() == 0 || base.last() != '/') && (endpoint.len() == 0 || endpoint[0] != '/')
            ==> joined_url(base, endpoint) == base + "/"@ + endpoint,
{
    assert(base.push('/').drop_last() =~= base);
    assert((seq!['/'] + endpoint).drop_first() =~= endpoint);
}

/// What each answer leads to, by the HTTP status class alone: every 2xx and
/// every 4xx status ends the POST as delivered; a 5xx status or a request that
/// got no answer is sent again after `backoff_ms` while fewer than
/// `max_retries` retries were made, and fails once they were; any other status
/// fails at once.
pub proof fn law_post_steps_by_status(
    max_retries: u8,
    backoff_ms: u64,
    attempt: u8,
    status: u16,
    status_text: String,
    detail: String,
)
    ensures
        (200 <= status <= 299 || 400 <= status <= 499) ==> post_decision(
            max_retries,
            backoff_ms,
            attempt,
            HttpAnswer::Status { status, status_text },
        ) == PostDecision::Done,
        500 <= status <= 599 && attempt < max_retries ==> post_decision(
            max_retries,
            backoff_ms,
            attempt,
            HttpAnswer::Status { status, status_text },
        ) == (PostDecision::Retry { attempt: (attempt + 1) as u8, wait_ms: backoff_ms }),
        500 <= status <= 599 && attempt >= max_retries ==> post_decision(
            max_retries,
            backoff_ms,
            attempt,
            HttpAnswer::Status { status, status_text },
        ) is Fail,
        !(200 <= status <= 299 || 400 <= status <= 599) ==> post_decision(
            max_retries,
            backoff_ms,
            attempt,
            HttpAnswer::Status { status, status_text },
        ) is Fail,
        attempt < max_retries ==> post_decision(
            max_retries,
            backoff_ms,
            attempt,
            HttpAnswer::Failed { detail },
        ) == (PostDecision::Retry { attempt: (attempt + 1) as u8, wait_ms: backoff_ms }),
        attempt >= max_retries ==> post_decision(
            max_retries,
            backoff_ms,
            attempt,
            HttpAnswer::Failed { detail },
        ) is Fail,
{
}

/// The step that carries out a decision is the one it names: done for done, the
/// same retry for a retry, and a `Metrics` error with the decided message for a
/// failure.
pub proof fn law_step_carries_out_decision(r: PostStep, msg: Seq<char>, attempt: u8, wait_ms: u64)
    ensures
        carries_out(r, PostDecision::Done) <==> r is Done,
        carries_out(r, PostDecision::Retry { attempt, wait_ms }) <==> r == (PostStep::Retry {
            attempt,
            wait_ms,
        }),
        carries_out(r, PostDecision::Fail(msg)) <==> (r matches PostStep::Fail(AppError::Metrics(m))
            && m@ == msg),
{
}

} // verus!
