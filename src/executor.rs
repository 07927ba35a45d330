//! The retry/failover policy of the request path. The caller performs each
//! attempt; the executor says which endpoint to call and what to do next.
use crate::resolver::Endpoint;
use crate::rest::EurekaRequestConfig;
use crate::EurekaError;
use vstd::prelude::*;

verus! {

/// What the registry answered.
#[derive(Debug)]
pub struct HttpResponse {
    pub status: u16,
    pub body: String,
}

/// How one attempt ended.
#[derive(Debug)]
pub enum AttemptOutcome {
    Response(HttpResponse),
    /// The transport failed, with its description.
    NetworkFailure(String),
    /// The resolver offered no endpoint to call.
    NoEndpoint,
}

/// What to do after an attempt.
#[derive(Debug)]
pub enum ExecutorStep {
    /// Wait `delay` milliseconds, resolve again and make attempt `attempt`.
    Retry { attempt: usize, delay: usize },
    /// The request is over, with this result.
    Done(Result<HttpResponse, EurekaError>),
}

pub open spec fn succeeded(expected_status: u16, outcome: AttemptOutcome) -> bool {
    outcome matches AttemptOutcome::Response(resp) && resp.status == expected_status
}

/// `e` is the error that a failed attempt ends in.
pub open spec fn error_of(outcome: AttemptOutcome, e: EurekaError) -> bool {
    match outcome {
        AttemptOutcome::Response(resp) => e == EurekaError::Request(resp.status),
        AttemptOutcome::NetworkFailure(msg) => e == EurekaError::Network(msg),
        AttemptOutcome::NoEndpoint => e matches EurekaError::Network(m) && m@ == "no registry endpoint"@,
    }
}

/// `url` followed by `uri`: the address of an operation at an endpoint.
pub open spec fn request_url(endpoint: Seq<char>, uri: Seq<char>) -> Seq<char> {
    endpoint + uri
}

/// Bounded retry with a fixed delay between attempts.
#[derive(Debug, Clone, Copy)]
pub struct RequestExecutor {
    pub max_retries: usize,
    pub retry_delay: usize,
}

impl RequestExecutor {
    pub fn new(max_retries: usize, retry_delay: usize) -> (r: Self)
        ensures
            r.max_retries == max_retries,
            r.retry_delay == retry_delay,
    {
        RequestExecutor { max_retries, retry_delay }
    }

    /// Whether a failed attempt numbered `attempt` is followed by another.
    pub open spec fn retries_after(self, expected_status: u16, attempt: nat, outcome: AttemptOutcome) -> bool {
        !succeeded(expected_status, outcome) && attempt < self.max_retries
    }

    /// The URL of an attempt: the operation at the first endpoint resolved for
    /// it; none when there is no endpoint.
    pub fn target_url(&self, request: &EurekaRequestConfig, endpoints: &Vec<Endpoint>) -> (r: Option<String>)
        ensures
            endpoints.len() == 0 <==> r is None,
            r matches Some(u) ==> u@ == request_url(endpoints@[0].url@, request.uri@),
    {
        if endpoints.len() == 0 {
            None
        } else {
            let mut url = endpoints[0].url.clone();
            url.append(request.uri.as_str());
            Some(url)
        }
    }

    /// Decides after attempt `attempt` (0 for the first) ended in `outcome`:
    /// success ends the request; a failure is retried while `attempt` is below
    /// the retry budget, else it ends the request with its error.
    pub fn next_step(&self, request: &EurekaRequestConfig, attempt: usize, outcome: AttemptOutcome) -> (r: ExecutorStep)
        ensures
            succeeded(request.expected_status, outcome) ==> (outcome matches AttemptOutcome::Response(
                resp,
            ) && r == ExecutorStep::Done(Ok(resp))),
            self.retries_after(request.expected_status, attempt as nat, outcome) ==> r
                == (ExecutorStep::Retry { attempt: (attempt + 1) as usize, delay: self.retry_delay }),
            !succeeded(request.expected_status, outcome) && attempt >= self.max_retries ==> (r matches ExecutorStep::Done(
                Err(e),
            ) && error_of(outcome, e)),
    {
        let error = match outcome {
            AttemptOutcome::Response(resp) => {
                if resp.status == request.expected_status {
                    return ExecutorStep::Done(Ok(resp));
                }
                EurekaError::Request(resp.status)
            },
            AttemptOutcome::NetworkFailure(msg) => EurekaError::Network(msg),
            AttemptOutcome::NoEndpoint => EurekaError::Network(String::from_str("no registry endpoint")),
        };
        if attempt < self.max_retries {
            ExecutorStep::Retry { attempt: attempt + 1, delay: self.retry_delay }
        } else {
            ExecutorStep::Done(Err(error))
        }
    }

    /// Attempts made from attempt `attempt` on when attempt `i` ends in
    /// `outcomes[i]` (counting only attempts that `outcomes` covers).
    pub open spec fn attempts_made(self, expected_status: u16, outcomes: Seq<AttemptOutcome>, attempt: nat) -> nat
        decreases outcomes.len() - attempt,
    {
        if attempt >= outcomes.len() {
            0
        } else if self.retries_after(expected_status, attempt, outcomes[attempt as int]) {
            1 + self.attempts_made(expected_status, outcomes, attempt + 1)
        } else {
            1
        }
    }
}

proof fn lemma_attempts_when_failing(
    ex: RequestExecutor,
    expected_status: u16,
    outcomes: Seq<AttemptOutcome>,
    attempt: nat,
)
    requires
        attempt <= ex.max_retries,
        outcomes.len() > ex.max_retries,
        forall|i: int| 0 <= i < outcomes.len() ==> !succeeded(expected_status, #[trigger] outcomes[i]),
    ensures
        ex.attempts_made(expected_status, outcomes, attempt) == ex.max_retries - attempt + 1,
    decreases ex.max_retries - attempt,
{
    if attempt < ex.max_retries {
        lemma_attempts_when_failing(ex, expected_status, outcomes, attempt + 1);
    }
    assert(!succeeded(expected_status, outcomes[attempt as int]));
}

/// When every attempt fails, the executor makes exactly `max_retries + 1`
/// attempts (one with no retries) and then ends with the last attempt's error.
pub proof fn lemma_retry_bound(ex: RequestExecutor, expected_status: u16, outcomes: Seq<AttemptOutcome>)
    requires
        outcomes.len() > ex.max_retries,
        forall|i: int| 0 <= i < outcomes.len() ==> !succeeded(expected_status, #[trigger] outcomes[i]),
    ensures
        ex.attempts_made(expected_status, outcomes, 0) == ex.max_retries + 1,
        !ex.retries_after(expected_status, ex.max_retries as nat, outcomes[ex.max_retries as int]),
{
    lemma_attempts_when_failing(ex, expected_status, outcomes, 0);
    assert(!succeeded(expected_status, outcomes[ex.max_retries as int]));
}

} // verus!
