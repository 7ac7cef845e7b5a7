//! Command dispatch: parse outcome to routed handler to status envelope.
//!
//! An inbound message decodes (outside this crate) into a [`CallRequest`].
//! Dispatch validates the target and function, resolves the named handler in
//! the registry, and either hands back the handler to run or a failure
//! envelope.  Every response carries exactly one of a payload or a failure
//! reason, matching its status code.

use vstd::prelude::*;

verus! {

use vstd::string::StringExecFns;
use crate::utils::str_eq;

/// Success.
pub const REQUEST_SUCCESS: u32 = 200;

/// The request could not be served as posed.
pub const REQUEST_FAILED: u32 = 400;

/// Nothing registered answers to the request.
pub const NOT_FOUND: u32 = 404;

/// The request timed out.
pub const REQUEST_TIMEOUT: u32 = 408;

/// The caller is rate limited.
pub const REQUEST_RATE_LIMITED: u32 = 429;

/// The request was canceled.
pub const REQUEST_CANCELED: u32 = 499;

/// The request asks for something this server does not allow.
pub const NOT_ALLOWED: u32 = 500;

/// The server failed internally.
pub const REQUEST_INTERNAL_ERROR: u32 = 503;

/// How a dispatched request failed.
#[derive(Clone, Copy, Debug, PartialEq, Eq, Structural)]
pub enum Outcome {
    Failure,
    NotAllowed,
    Timeout,
    Canceled,
    InternalError,
    NotFound,
    RateLimited,
}

/// The status code a failure outcome maps to.
pub open spec fn status_of_outcome(o: Outcome) -> u32 {
    match o {
        Outcome::Failure => REQUEST_FAILED,
        Outcome::NotAllowed => NOT_ALLOWED,
        Outcome::Timeout => REQUEST_TIMEOUT,
        Outcome::Canceled => REQUEST_CANCELED,
        Outcome::InternalError => REQUEST_INTERNAL_ERROR,
        Outcome::NotFound => NOT_FOUND,
        Outcome::RateLimited => REQUEST_RATE_LIMITED,
    }
}

/// The function a task request may name.
#[derive(Clone, Copy, Debug, PartialEq, Eq, Structural)]
pub enum TaskFunction {
    /// Run one aggregated polling cycle.
    AggregatedPolling,
    /// Anything else.
    Unsupported,
}

/// Which handler a task request asks for.
#[derive(Clone, Debug)]
pub struct LookFor {
    /// The name of a registered handler.
    pub where_: String,
}

/// The task part of a request.
#[derive(Clone, Debug)]
pub struct TaskCall {
    /// What the task should do.
    pub function: TaskFunction,
    /// The handler it should run.
    pub look_for: LookFor,
    /// The handler's parameters, still encoded; absent when the message
    /// carried none.
    pub params: Option<String>,
}

/// A decoded inbound request.
#[derive(Clone, Debug)]
pub struct CallRequest {
    /// What the request addresses; only `task` is served.
    pub target: String,
    /// The task, when the message carried one.
    pub for_task: Option<TaskCall>,
}

/// The uniform response envelope: a status code and exactly one of a result
/// payload or a failure reason.
#[derive(Clone, Debug)]
pub struct ServerResponse {
    pub status: u32,
    /// The result payload, still encoded; only on success.
    pub message: Option<String>,
    /// What went wrong; only on failure.
    pub reason: Option<String>,
}

/// Exactly one of payload and reason is present, matching the status code.
pub open spec fn envelope_wf(r: ServerResponse) -> bool {
    &&& (r.status == REQUEST_SUCCESS ==> r.message is Some && r.reason is None)
    &&& (r.status != REQUEST_SUCCESS ==> r.message is None && r.reason is Some)
}

impl ServerResponse {
    pub fn new(status: u32, message: Option<String>, reason: Option<String>) -> (r: Self)
        ensures
            r.status == status,
            r.message == message,
            r.reason == reason,
    {
        ServerResponse { status, message, reason }
    }
}

/// The success envelope around a result payload.
pub fn return_success(message: String) -> (r: ServerResponse)
    ensures
        envelope_wf(r),
        r.status == REQUEST_SUCCESS,
        r.message matches Some(m) && m@ == message@,
        r.reason is None,
{
    ServerResponse::new(REQUEST_SUCCESS, Some(message), None)
}

/// The failure envelope around a reason.
pub fn return_error(outcome: Outcome, reason: String) -> (r: ServerResponse)
    ensures
        envelope_wf(r),
        r.status == status_of_outcome(outcome),
        r.message is None,
        r.reason matches Some(m) && m@ == reason@,
{
    let status = match outcome {
        Outcome::Failure => REQUEST_FAILED,
        Outcome::Canceled => REQUEST_CANCELED,
        Outcome::Timeout => REQUEST_TIMEOUT,
        Outcome::NotAllowed => NOT_ALLOWED,
        Outcome::NotFound => NOT_FOUND,
        Outcome::RateLimited => REQUEST_RATE_LIMITED,
        Outcome::InternalError => REQUEST_INTERNAL_ERROR,
    };
    ServerResponse::new(status, None, Some(reason))
}

/// Handlers registered under their names; names are held once.
pub struct FunctionRegistry<H> {
    entries: Vec<(String, H)>,
}

/// The names in a registry, in registration order.
pub open spec fn names_of<H>(s: Seq<(String, H)>) -> Seq<Seq<char>> {
    s.map_values(|p: (String, H)| p.0@)
}

impl<H> FunctionRegistry<H> {
    /// The registered names, in order.
    pub closed spec fn names(self) -> Seq<Seq<char>> {
        names_of(self.entries@)
    }

    /// The handler stored at a position.
    pub closed spec fn handler_at_spec(self, i: int) -> H {
        self.entries@[i].1
    }

    /// Each name registered at most once.
    pub open spec fn wf(self) -> bool {
        forall|i: int, j: int| 0 <= i < j < self.names().len() ==> self.names()[i] != self.names()[j]
    }

    pub fn new() -> (r: Self)
        ensures
            r.wf(),
            r.names() == Seq::<Seq<char>>::empty(),
    {
        let r = FunctionRegistry { entries: Vec::new() };
        proof {
            assert(r.names() =~= Seq::<Seq<char>>::empty());
        }
        r
    }

    /// Registers `handler` under `name`; a present name keeps its place and
    /// gets the new handler, an absent one is appended.
    #[verifier::loop_isolation(false)]
    pub fn register_function(&mut self, name: String, handler: H)
        requires
            old(self).wf(),
        ensures
            final(self).wf(),
            final(self).names().contains(name@),
            old(self).names().contains(name@) ==> final(self).names() == old(self).names(),
            !old(self).names().contains(name@) ==> final(self).names() == old(self).names().push(
                name@,
            ),
            forall|j: int|
                0 <= j < final(self).names().len() ==> #[trigger] final(self).handler_at_spec(j)
                    == (if final(self).names()[j] == name@ {
                        handler
                    } else {
                        old(self).handler_at_spec(j)
                    }),
    {
        let ghost names0 = self.names();
        let ghost entries0 = self.entries@;
        let n = self.entries.len();
        let mut i: usize = 0;
        while i < n
            invariant
                i <= n,
                n == self.entries.len(),
                self.wf(),
                self.names() == names0,
                self.entries@ == entries0,
                forall|j: int| 0 <= j < i ==> self.names()[j] != name@,
            decreases n - i,
        {
            if str_eq(self.entries[i].0.as_str(), name.as_str()) {
                proof {
                    assert(self.names()[i as int] == name@);
                }
                self.entries.set(i, (name, handler));
                proof {
                    assert(self.names() =~= names0.update(i as int, names0[i as int]));
                    assert(self.names() =~= names0);
                    assert(self.names()[i as int] == names0[i as int]);
                    assert forall|j: int| 0 <= j < self.names().len() implies #[trigger] self
                        .handler_at_spec(j) == (if self.names()[j] == name@ {
                        handler
                    } else {
                        entries0[j].1
                    }) by {
                        if self.names()[j] == name@ && j != i {
                            assert(names0[j] == names0[i as int]);
                        }
                    }
                }
                return ;
            }
            i = i + 1;
        }
        proof {
            if names0.contains(name@) {
                let j = choose|j: int| 0 <= j < names0.len() && names0[j] == name@;
                assert(names0[j] != name@);
            }
        }
        self.entries.push((name, handler));
        proof {
            assert(self.names() =~= names0.push(name@));
            assert(self.names()[names0.len() as int] == name@);
            assert forall|j: int| 0 <= j < self.names().len() implies #[trigger] self
                .handler_at_spec(j) == (if self.names()[j] == name@ {
                handler
            } else {
                entries0[j].1
            }) by {
                if j < names0.len() {
                    assert(names0[j] != name@);
                }
            }
        }
    }

    /// The position of the handler registered under `name`.
    pub fn resolve(&self, name: &str) -> (r: Option<usize>)
        requires
            self.wf(),
        ensures
            match r {
                Some(i) => i < self.names().len() && self.names()[i as int] == name@,
                None => !self.names().contains(name@),
            },
    {
        let n = self.entries.len();
        let mut i: usize = 0;
        while i < n
            invariant
                i <= n,
                n == self.entries.len(),
                self.wf(),
                forall|j: int| 0 <= j < i ==> self.names()[j] != name@,
            decreases n - i,
        {
            if str_eq(self.entries[i].0.as_str(), name) {
                proof {
                    assert(self.names()[i as int] == name@);
                }
                return Some(i);
            }
            i = i + 1;
        }
        proof {
            if self.names().contains(name@) {
                let j = choose|j: int| 0 <= j < self.names().len() && self.names()[j] == name@;
                assert(self.names()[j] != name@);
            }
        }
        None
    }

    /// The handler at a resolved position.
    pub fn handler_at(&self, i: usize) -> (h: &H)
        requires
            i < self.names().len(),
        ensures
            *h == self.handler_at_spec(i as int),
    {
        &self.entries[i].1
    }

    /// How many handlers are registered.
    pub fn len(&self) -> (n: usize)
        ensures
            n as nat == self.names().len(),
    {
        self.entries.len()
    }
}

/// Where a dispatched request goes: straight to a response, or to the
/// handler at a registry position with its encoded parameters.
pub enum Dispatch {
    /// Answer with this envelope; no handler runs.
    Respond(ServerResponse),
    /// Run the handler at this registry position with these parameters, and
    /// wrap whatever it returns with [`return_success`].
    Invoke { handler: usize, params: String },
}

/// What dispatching an inbound message decides, given the outcome of
/// decoding it.  Decode failures and unknown handlers fail the request;
/// anything not addressed to the task's aggregated polling is not allowed;
/// the handler itself never fails the dispatch: its outcome travels inside a
/// success envelope.
pub fn dispatch<H>(registry: &FunctionRegistry<H>, parsed: Result<CallRequest, String>) -> (d:
    Dispatch)
    requires
        registry.wf(),
    ensures
        parsed matches Err(m) ==> (d matches Dispatch::Respond(resp) && resp.reason matches Some(
            why,
        ) && envelope_wf(resp) && resp.status == REQUEST_FAILED && why@ == m@),
        parsed matches Ok(req) ==> ({
            if req.target@ != "task"@ || req.for_task is None || (req.for_task matches Some(t)
                && t.function != TaskFunction::AggregatedPolling) {
                (d matches Dispatch::Respond(resp) && resp.reason matches Some(why)
                    && envelope_wf(resp) && resp.status == NOT_ALLOWED && why@
                    == "Invalid request"@)
            } else {
                let t = req.for_task->Some_0;
                if t.params is None {
                    (d matches Dispatch::Respond(resp) && resp.reason matches Some(why)
                        && envelope_wf(resp) && resp.status == REQUEST_FAILED && why@
                        == "Invalid task arguments"@)
                } else if !registry.names().contains(t.look_for.where_@) {
                    (d matches Dispatch::Respond(resp) && resp.reason matches Some(why)
                        && envelope_wf(resp) && resp.status == REQUEST_FAILED && why@
                        == "Invalid task function: "@ + t.look_for.where_@)
                } else {
                    (d matches Dispatch::Invoke { handler, params } && (handler as int)
                        < registry.names().len() && registry.names()[handler as int]
                        == t.look_for.where_@ && params@ == t.params->Some_0@)
                }
            }
        }),
{
    let req = match parsed {
        Ok(req) => req,
        Err(m) => {
            return Dispatch::Respond(return_error(Outcome::Failure, m));
        },
    };
    if str_eq(req.target.as_str(), "task") {
        if let Some(task) = req.for_task {
            if task.function == TaskFunction::AggregatedPolling {
                let where_ = task.look_for.where_;
                if let Some(params) = task.params {
                    match registry.resolve(where_.as_str()) {
                        Some(i) => {
                            return Dispatch::Invoke { handler: i, params };
                        },
                        None => {
                            return Dispatch::Respond(
                                return_error(
                                    Outcome::Failure,
                                    String::from_str("Invalid task function: ").concat(
                                        where_.as_str(),
                                    ),
                                ),
                            );
                        },
                    }
                }
                return Dispatch::Respond(
                    return_error(Outcome::Failure, String::from_str("Invalid task arguments")),
                );
            }
        }
    }
    Dispatch::Respond(return_error(Outcome::NotAllowed, String::from_str("Invalid request")))
}

/// LAW (envelope shape): every envelope the dispatcher can answer with, and
/// every envelope the builders produce, carries exactly one of a payload and
/// a reason, matching its status: a payload exactly on success, a reason
/// exactly on failure.
pub proof fn lemma_envelope_shape(r: ServerResponse)
    requires
        envelope_wf(r),
    ensures
        (r.message is Some) != (r.reason is Some),
        r.message is Some <==> r.status == REQUEST_SUCCESS,
        r.reason is Some <==> r.status != REQUEST_SUCCESS,
{
}

} // verus!
