use vstd::prelude::*;

verus! {

/// Exit code of a process whose event source failed beyond recovery.
pub const FATAL_EXIT_CODE: i32 = 1;

/// The result of a successful handler execution.
pub struct Response {
    /// The semantic success or failure marker.
    pub status_code: i32,
    /// The serialised payload.
    pub body: String,
}

/// A structured handler failure: its kind and a message.
pub struct HandlerError {
    pub kind: String,
    pub message: String,
}

/// What the dispatch loop hands back to the event source for one invocation.
pub enum Report {
    /// The handler succeeded: send this response for the invocation.
    Success { id: String, response: Response },
    /// The handler failed: send this failure descriptor for the invocation.
    Failure { id: String, error: HandlerError },
}

/// The report owed for invocation `id` when the handler returned `outcome`.
pub open spec fn report_of(id: Seq<char>, outcome: Result<Response, HandlerError>) -> (Seq<char>, bool, int, Seq<char>, Seq<char>) {
    match outcome {
        Ok(r) => (id, true, r.status_code as int, r.body@, Seq::empty()),
        Err(e) => (id, false, 0, e.kind@, e.message@),
    }
}

impl Report {
    /// The report as plain values: the invocation id, whether it is a
    /// success, and the response's status and body, or the failure's kind
    /// and message.
    pub open spec fn view_parts(self) -> (Seq<char>, bool, int, Seq<char>, Seq<char>) {
        match self {
            Report::Success { id, response } => (id@, true, response.status_code as int, response.body@, Seq::empty()),
            Report::Failure { id, error } => (id@, false, 0, error.kind@, error.message@),
        }
    }

    /// The id of the invocation reported on.
    pub fn invocation_id(&self) -> (r: &String)
        ensures
            r@ == self.view_parts().0,
    {
        match self {
            Report::Success { id, .. } => id,
            Report::Failure { id, .. } => id,
        }
    }

    /// Whether the invocation succeeded.
    pub fn is_success(&self) -> (r: bool)
        ensures
            r == self.view_parts().1,
    {
        match self {
            Report::Success { .. } => true,
            Report::Failure { .. } => false,
        }
    }
}

/// The abstract state of the dispatch loop: how many invocations it has
/// reported on, how many of those failed, and whether the event source has
/// failed for good.
pub struct DispatchModel {
    pub handled: nat,
    pub failures: nat,
    pub stopped: bool,
}

/// The loop after reporting on one invocation with the given success.
pub open spec fn after_outcome(d: DispatchModel, ok: bool) -> DispatchModel {
    DispatchModel {
        handled: if d.handled < u64::MAX { d.handled + 1 } else { d.handled },
        failures: if !ok && d.failures < u64::MAX { d.failures + 1 } else { d.failures },
        stopped: d.stopped,
    }
}

/// The decisions of the dispatch loop. It does not watch the shutdown state:
/// every handler outcome is reported and the loop goes on; only a failure of
/// the event source stops it.
pub struct DispatchLoop {
    handled: u64,
    failures: u64,
    stopped: bool,
}

impl View for DispatchLoop {
    type V = DispatchModel;

    closed spec fn view(&self) -> DispatchModel {
        DispatchModel {
            handled: self.handled as nat,
            failures: self.failures as nat,
            stopped: self.stopped,
        }
    }
}

impl DispatchLoop {
    /// A loop that has handled nothing yet.
    pub fn new() -> (r: DispatchLoop)
        ensures
            r@ == (DispatchModel { handled: 0, failures: 0, stopped: false }),
    {
        DispatchLoop { handled: 0, failures: 0, stopped: false }
    }

    /// Turns the handler's outcome for invocation `id` into the report for
    /// the event source. A failure is reported like a success, for that
    /// invocation only, and the loop goes on.
    pub fn on_outcome(&mut self, id: String, outcome: Result<Response, HandlerError>) -> (r: Report)
        requires
            !old(self)@.stopped,
        ensures
            r.view_parts() == report_of(id@, outcome),
            final(self)@ == after_outcome(old(self)@, outcome is Ok),
            !final(self)@.stopped,
    {
        if self.handled < u64::MAX {
            self.handled = self.handled + 1;
        }
        match outcome {
            Ok(response) => Report::Success { id, response },
            Err(error) => {
                if self.failures < u64::MAX {
                    self.failures = self.failures + 1;
                }
                Report::Failure { id, error }
            },
        }
    }

    /// The event source failed beyond recovery: the loop stops, and the
    /// process is to exit with the returned code.
    pub fn on_source_error(&mut self) -> (code: i32)
        ensures
            code == FATAL_EXIT_CODE,
            final(self)@ == (DispatchModel { stopped: true, ..old(self)@ }),
    {
        self.stopped = true;
        FATAL_EXIT_CODE
    }

    /// Whether the loop fetches another invocation.
    pub fn is_running(&self) -> (r: bool)
        ensures
            r == !self@.stopped,
    {
        !self.stopped
    }

    /// How many invocations have been reported on.
    pub fn handled(&self) -> (r: u64)
        ensures
            r == self@.handled,
    {
        self.handled
    }

    /// How many of them failed.
    pub fn failures(&self) -> (r: u64)
        ensures
            r == self@.failures,
    {
        self.failures
    }
}

/// A handler failure for one invocation never affects the next: the loop is
/// still running after it, and the next invocation's report is the one its
/// own outcome calls for, exactly as in a loop that never saw the failure.
pub proof fn lemma_failure_is_isolated(
    d: DispatchModel,
    failed: HandlerError,
    next_id: Seq<char>,
    next: Result<Response, HandlerError>,
)
    requires
        !d.stopped,
    ensures
        !after_outcome(d, false).stopped,
        !after_outcome(after_outcome(d, false), next is Ok).stopped,
        next matches Ok(r) ==> report_of(next_id, next) == (next_id, true, r.status_code as int, r.body@, Seq::<char>::empty()),
{
}

} // verus!
