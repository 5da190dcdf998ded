use vstd::prelude::*;
use crate::errors::{Error, ERROR_OPERATION_ABORTED};
use std::sync::atomic::{AtomicIsize, Ordering};

verus! {

/// Default max buffer size in use.
pub const DEFAULT_MAX_BUFFER_SIZE: usize = 65536;

/// The port to post a message for when we are ready to shut down.
pub const SHUTDOWN_PORT: usize = usize::MAX;

/// Any ports equal or larger than this value is reserved.
pub const RESERVED_PORTS: usize = usize::MAX - 0b1111;

/// Options to use when registering a handle or a socket.
#[derive(Debug, Clone, Copy, PartialEq, Eq, Structural)]
pub struct RegisterOptions {
    key: usize,
    max_buffer_size: usize,
}

impl RegisterOptions {
    /// The completion key that completions of the registered resource carry.
    pub closed spec fn spec_key(self) -> usize {
        self.key
    }

    /// The largest buffer that a single operation of the registered resource
    /// uses.
    pub closed spec fn spec_max_buffer_size(self) -> usize {
        self.max_buffer_size
    }

    /// Return a modified register options with a different max buffer size.
    pub fn with_max_buffer_size(self, max_buffer_size: usize) -> (r: Self)
        ensures
            r.spec_key() == self.spec_key(),
            r.spec_max_buffer_size() == max_buffer_size,
    {
        Self { max_buffer_size, ..self }
    }

    /// The completion key that completions of the registered resource carry.
    pub fn key(&self) -> (r: usize)
        ensures
            r == self.spec_key(),
    {
        self.key
    }

    /// The largest buffer that a single operation of the registered resource
    /// uses.
    pub fn max_buffer_size(&self) -> (r: usize)
        ensures
            r == self.spec_max_buffer_size(),
    {
        self.max_buffer_size
    }
}

impl Default for RegisterOptions {
    fn default() -> (r: Self)
        ensures
            r.spec_key() == 0,
            r.spec_max_buffer_size() == DEFAULT_MAX_BUFFER_SIZE,
    {
        Self { key: 0, max_buffer_size: DEFAULT_MAX_BUFFER_SIZE }
    }
}

/// Whether a completion key is reserved for the driver's own messages.
pub open spec fn is_reserved(key: usize) -> bool {
    key >= RESERVED_PORTS
}

/// Check the options of a registration: a resource cannot be registered
/// under a reserved completion key.
pub fn check_register_options(options: &RegisterOptions) -> (r: Result<(), Error>)
    ensures
        r == (if is_reserved(options.spec_key()) { Err(Error::ReservedPort) } else { Ok::<(), Error>(()) }),
{
    if options.key >= RESERVED_PORTS {
        Err(Error::ReservedPort)
    } else {
        Ok(())
    }
}

/// The outcome of a completion.
#[derive(Debug, Clone, Copy, PartialEq, Eq, Structural)]
#[non_exhaustive]
pub enum CompletionOutcome {
    /// The operation was completed.
    Completed,
    /// The operation was aborted.
    Aborted,
    /// The task errored.
    Errored,
}

/// The outcome of a dequeued completion, from whether dequeuing reported
/// success and the thread's last error code after it.
pub open spec fn spec_completion_outcome(succeeded: bool, last_error: u32) -> CompletionOutcome {
    if succeeded {
        CompletionOutcome::Completed
    } else if last_error == ERROR_OPERATION_ABORTED {
        CompletionOutcome::Aborted
    } else {
        CompletionOutcome::Errored
    }
}

/// Classify a dequeued completion: a dequeue that reported success completed
/// its operation; a failure with `ERROR_OPERATION_ABORTED` was a cancelled
/// operation; any other failure is an error.
pub fn completion_outcome(succeeded: bool, last_error: u32) -> (r: CompletionOutcome)
    ensures
        r == spec_completion_outcome(succeeded, last_error),
        succeeded ==> r == CompletionOutcome::Completed,
        !succeeded && last_error == 995 ==> r == CompletionOutcome::Aborted,
        !succeeded && last_error != 995 ==> r == CompletionOutcome::Errored,
{
    if succeeded {
        CompletionOutcome::Completed
    } else if last_error == ERROR_OPERATION_ABORTED {
        CompletionOutcome::Aborted
    } else {
        CompletionOutcome::Errored
    }
}

/// The status of a single completion.
#[derive(Debug, Clone, Copy, PartialEq, Eq, Structural)]
#[non_exhaustive]
pub struct CompletionStatus {
    /// The completion key woken up.
    pub completion_key: usize,
    /// The number of bytes transferred.
    pub bytes_transferred: u32,
    /// The outcome of the operation.
    pub outcome: CompletionOutcome,
}

impl CompletionStatus {
    /// Assemble the status of a dequeued completion from what the dequeuing
    /// call reported.
    pub fn new(succeeded: bool, last_error: u32, completion_key: usize, bytes_transferred: u32) -> (r: Self)
        ensures
            r.completion_key == completion_key,
            r.bytes_transferred == bytes_transferred,
            r.outcome == spec_completion_outcome(succeeded, last_error),
    {
        Self { completion_key, bytes_transferred, outcome: completion_outcome(succeeded, last_error) }
    }
}

/// Information associated with the completion port is shutting down.
#[derive(Debug, Clone, Copy, PartialEq, Eq, Structural)]
#[non_exhaustive]
pub struct Shutdown {
    /// The number of pending I/O operations at the time of shutting down.
    pub pending: usize,
}

/// The result of polling the completion port.
#[derive(Debug, Clone, Copy, PartialEq, Eq, Structural)]
#[non_exhaustive]
pub enum CompletionPoll {
    /// Port is shutting down and there's the given number of pending operations
    /// to contend with.
    Shutdown(Shutdown),
    /// A returned completion status.
    Status(CompletionStatus),
}

/// What the completion port does with a dequeued completion.
#[derive(Debug, Clone, Copy, PartialEq, Eq, Structural)]
pub enum PollDecision {
    /// The shutdown message: begin shutting down.
    Shutdown,
    /// A completion for another reserved key: an error.
    Reserved,
    /// The completion of an operation: account for it and hand it out.
    Completion,
}

/// What [poll_decision] decides for a completion with the given key.
pub open spec fn spec_poll_decision(key: usize) -> PollDecision {
    if key == SHUTDOWN_PORT {
        PollDecision::Shutdown
    } else if is_reserved(key) {
        PollDecision::Reserved
    } else {
        PollDecision::Completion
    }
}

/// Decide what a dequeued completion means while the port runs.
pub fn poll_decision(key: usize) -> (r: PollDecision)
    ensures
        r == spec_poll_decision(key),
{
    if key >= RESERVED_PORTS {
        if key == SHUTDOWN_PORT {
            PollDecision::Shutdown
        } else {
            PollDecision::Reserved
        }
    } else {
        PollDecision::Completion
    }
}

/// What [drain_decision] decides for a completion with the given key.
pub open spec fn spec_drain_decision(key: usize) -> PollDecision {
    spec_poll_decision(key)
}

/// Decide what a dequeued completion means while the port shuts down: a
/// repeated shutdown message is skipped, another reserved key is an error,
/// and an operation's completion is handed out.
pub fn drain_decision(key: usize) -> (r: PollDecision)
    ensures
        r == spec_drain_decision(key),
{
    poll_decision(key)
}

/// Account for a completion dequeued while the port runs: the shutdown
/// message turns into [CompletionPoll::Shutdown] with the number of pending
/// operations, which the caller read off the pending counter as it marked it
/// as shutting down; an operation's completion is handed out as a status; a
/// completion for another reserved key is an error.
pub fn poll_result(status: CompletionStatus, pending_before_shutdown: isize) -> (r: Result<CompletionPoll, Error>)
    ensures
        r == (match spec_poll_decision(status.completion_key) {
            PollDecision::Shutdown => Ok(CompletionPoll::Shutdown(Shutdown { pending: pending_before_shutdown as usize })),
            PollDecision::Reserved => Err(Error::ReservedStatus),
            PollDecision::Completion => Ok::<CompletionPoll, Error>(CompletionPoll::Status(status)),
        }),
        r == spec_poll_result(status, pending_before_shutdown),
{
    match poll_decision(status.completion_key) {
        PollDecision::Shutdown => Ok(CompletionPoll::Shutdown(Shutdown { pending: pending_before_shutdown as usize })),
        PollDecision::Reserved => Err(Error::ReservedStatus),
        PollDecision::Completion => Ok(CompletionPoll::Status(status)),
    }
}

/// What polling the status `status` returns, when the pending counter held
/// `before` as the status was dequeued.
pub open spec fn spec_poll_result(status: CompletionStatus, before: isize) -> Result<CompletionPoll, Error> {
    match spec_poll_decision(status.completion_key) {
        PollDecision::Shutdown => Ok(CompletionPoll::Shutdown(Shutdown { pending: before as usize })),
        PollDecision::Reserved => Err(Error::ReservedStatus),
        PollDecision::Completion => Ok::<CompletionPoll, Error>(CompletionPoll::Status(status)),
    }
}

/// What polling a status with the completion key `key` adds to the pending
/// counter.
pub open spec fn spec_poll_delta(key: usize) -> int {
    match spec_poll_decision(key) {
        PollDecision::Shutdown => isize::MIN as int,
        PollDecision::Reserved => 0,
        PollDecision::Completion => -1,
    }
}

/// What polling a status with the completion key `key` adds to the pending
/// counter: shutting down marks it with `isize::MIN`, the completion of an
/// operation, whatever its outcome, takes that operation off the count, and
/// a completion for another reserved key leaves it alone.
pub fn poll_delta(key: usize) -> (d: isize)
    ensures
        d == spec_poll_delta(key),
        !is_reserved(key) ==> d == -1,
        key == SHUTDOWN_PORT ==> d == isize::MIN,
        is_reserved(key) && key != SHUTDOWN_PORT ==> d == 0,
{
    match poll_decision(key) {
        PollDecision::Shutdown => isize::MIN,
        PollDecision::Reserved => 0,
        PollDecision::Completion => -1,
    }
}

/// The pending counter and the result after polling `status` with the
/// counter at `count`, seen as one atomic step.
pub open spec fn spec_poll(count: int, status: CompletionStatus) -> (int, Result<CompletionPoll, Error>) {
    (count + spec_poll_delta(status.completion_key), spec_poll_result(status, count as isize))
}

// The pending counter of a completion port is an `isize` that counts the
// operations that hold a permit, which is to say the operations that were
// submitted and whose completion has not been dequeued yet. Shutting down
// adds `isize::MIN` to it, so that it is negative from then on and no further
// permit is handed out.

/// Whether a permit is granted, given the pending count that the increment
/// which asked for it observed: it is refused once the port is shutting
/// down. A refused request must undo its increment.
pub fn permit_result(observed: isize) -> (r: Result<(), Error>)
    ensures
        r == (if observed >= 0 { Ok::<(), Error>(()) } else { Err(Error::ShuttingDown) }),
{
    if observed >= 0 {
        Ok(())
    } else {
        Err(Error::ShuttingDown)
    }
}

/// The pending counter of a completion port, shared between the tasks that
/// submit operations and the thread that dequeues their completions.
#[derive(Debug)]
pub struct PendingCounter {
    pending: AtomicIsize,
}

impl PendingCounter {
    /// A counter with no pending operation, before shutdown.
    pub fn new() -> Self {
        Self { pending: AtomicIsize::new(0) }
    }

    /// Acquire a permit with the intention of performing an I/O operation:
    /// granted while the port runs, refused with [Error::ShuttingDown] once it
    /// shuts down, in which case the request leaves the count as it found it.
    pub fn permit(&self) -> (r: Result<(), Error>)
        ensures
            r is Ok || r == Err::<(), Error>(Error::ShuttingDown),
    {
        let observed = self.pending.fetch_add(1, Ordering::SeqCst);
        let r = permit_result(observed);
        if r.is_err() {
            self.pending.fetch_sub(1, Ordering::SeqCst);
        }
        r
    }

    /// Give back a permit, or account for a dequeued completion of an
    /// operation that held one.
    pub fn complete(&self) {
        self.pending.fetch_sub(1, Ordering::SeqCst);
    }

    /// Account for a completion dequeued while the port runs: the shutdown
    /// message marks the port as shutting down and turns into
    /// [CompletionPoll::Shutdown] with the number of operations that were
    /// pending; an operation's completion, whatever its outcome, is taken off
    /// the count and handed out as a status; a completion for another
    /// reserved key is an error. The counter takes one atomic step, adding
    /// [poll_delta] of the key, and the result is [poll_result] of what it
    /// held before: together the transition [spec_poll].
    pub fn poll(&self, status: CompletionStatus) -> (r: Result<CompletionPoll, Error>)
        ensures
            spec_poll_decision(status.completion_key) == PollDecision::Shutdown ==> r matches Ok(CompletionPoll::Shutdown(_)),
            spec_poll_decision(status.completion_key) == PollDecision::Reserved ==> r == Err::<CompletionPoll, Error>(Error::ReservedStatus),
            spec_poll_decision(status.completion_key) == PollDecision::Completion ==> r == Ok::<CompletionPoll, Error>(CompletionPoll::Status(status)),
            exists|before: isize| r == spec_poll_result(status, before),
    {
        let delta = poll_delta(status.completion_key);
        let observed = self.pending.fetch_add(delta, Ordering::SeqCst);
        poll_result(status, observed)
    }
}

/// The counter and the outcome of asking for a permit, seen as one atomic
/// step: the increment stays when the permit is granted and is undone when
/// it is refused.
pub open spec fn spec_permit(count: int) -> (int, bool) {
    if count >= 0 { (count + 1, true) } else { (count, false) }
}

/// The counter after shutting down, and the number of pending operations
/// that shutting down reports.
pub open spec fn spec_shutdown(count: int) -> (int, int) {
    (count + isize::MIN, count)
}

/// The counter after a permit is given back or an operation's completion is
/// dequeued.
pub open spec fn spec_complete(count: int) -> int {
    count - 1
}

/// Once the port has shut down, no permit is handed out any more, however
/// many completions are still dequeued; and shutting down reports the number
/// of operations that held a permit.
pub proof fn lemma_no_permit_after_shutdown(count: int, completions: nat)
    requires
        0 <= count <= isize::MAX,
    ensures
        spec_shutdown(count).1 == count,
        ({
            let after = spec_shutdown(count).0 - completions;
            spec_permit(after) == (after, false)
        }),
{
}

/// A permit that is granted and then given back leaves the counter as it
/// was.
pub proof fn lemma_permit_round_trip(count: int)
    requires
        count >= 0,
    ensures
        spec_permit(count).1,
        spec_complete(spec_permit(count).0) == count,
{
}

/// An event on the pending counter before shutdown.
#[derive(Debug, Clone, Copy, PartialEq, Eq, Structural)]
pub enum CounterEvent {
    /// An operation asks for a permit.
    Permit,
    /// A permit is given back or an operation's completion is dequeued.
    Complete,
}

/// The counter after the events `events`, starting from `count`.
pub open spec fn spec_run(count: int, events: Seq<CounterEvent>) -> int
    decreases events.len(),
{
    if events.len() == 0 {
        count
    } else {
        let before = spec_run(count, events.drop_last());
        match events.last() {
            CounterEvent::Permit => spec_permit(before).0,
            CounterEvent::Complete => spec_complete(before),
        }
    }
}

/// The number of events of the given kind among `events`.
pub open spec fn spec_count(events: Seq<CounterEvent>, kind: CounterEvent) -> int
    decreases events.len(),
{
    if events.len() == 0 {
        0
    } else {
        spec_count(events.drop_last(), kind) + (if events.last() == kind { 1int } else { 0int })
    }
}

/// No prefix of `events` gives back more permits than it asked for.
pub open spec fn spec_balanced(events: Seq<CounterEvent>) -> bool {
    forall|i: int| 0 <= i <= events.len() ==>
        #[trigger] spec_count(events.take(i), CounterEvent::Complete) <= spec_count(events.take(i), CounterEvent::Permit)
}

/// Before shutdown, every permit is granted and the counter holds the number
/// of operations that asked for a permit and were not completed; so shutting
/// down reports exactly the operations still in flight.
pub proof fn lemma_pending_counts_in_flight(events: Seq<CounterEvent>)
    requires
        spec_balanced(events),
    ensures
        spec_run(0, events) == spec_count(events, CounterEvent::Permit) - spec_count(events, CounterEvent::Complete),
        spec_run(0, events) >= 0,
        spec_shutdown(spec_run(0, events)).1 == spec_count(events, CounterEvent::Permit) - spec_count(events, CounterEvent::Complete),
    decreases events.len(),
{
    assert(events.take(events.len() as int) =~= events);
    assert(spec_count(events.take(events.len() as int), CounterEvent::Complete)
        <= spec_count(events.take(events.len() as int), CounterEvent::Permit));
    if events.len() > 0 {
        let prefix = events.drop_last();
        assert forall|i: int| 0 <= i <= prefix.len() implies
            #[trigger] spec_count(prefix.take(i), CounterEvent::Complete) <= spec_count(prefix.take(i), CounterEvent::Permit) by {
            assert(prefix.take(i) =~= events.take(i));
            assert(spec_count(events.take(i), CounterEvent::Complete) <= spec_count(events.take(i), CounterEvent::Permit));
        }
        lemma_pending_counts_in_flight(prefix);
    }
}

/// A dequeued completion is classified by whether dequeuing succeeded and
/// the last error alone: success is a completed operation, a failure with
/// `ERROR_OPERATION_ABORTED` (995) a cancelled one, and a failure with any
/// other error, such as a broken pipe, an errored one.
pub proof fn lemma_completion_outcome_cases(succeeded: bool, last_error: u32)
    ensures
        ERROR_OPERATION_ABORTED == 995,
        (spec_completion_outcome(succeeded, last_error) == CompletionOutcome::Completed) <==> succeeded,
        (spec_completion_outcome(succeeded, last_error) == CompletionOutcome::Aborted) <==> (!succeeded && last_error == 995),
        (spec_completion_outcome(succeeded, last_error) == CompletionOutcome::Errored) <==> (!succeeded && last_error != 995),
{
}

/// Polling the completion of an operation, whatever its outcome, hands the
/// status out unchanged and takes exactly one operation off the pending
/// count.
pub proof fn lemma_poll_hands_out_every_completion(count: int, status: CompletionStatus)
    requires
        !is_reserved(status.completion_key),
    ensures
        spec_poll(count, status).0 == count - 1,
        spec_poll(count, status).1 == Ok::<CompletionPoll, Error>(CompletionPoll::Status(status)),
{
}

/// The pending counter after `k` requests for a permit, starting from `count`.
pub open spec fn spec_permits(count: int, k: nat) -> int
    decreases k,
{
    if k == 0 {
        count
    } else {
        spec_permit(spec_permits(count, (k - 1) as nat)).0
    }
}

/// The pending counter after polling each of `statuses` in turn, starting
/// from `count`.
pub open spec fn spec_poll_all(count: int, statuses: Seq<CompletionStatus>) -> int
    decreases statuses.len(),
{
    if statuses.len() == 0 {
        count
    } else {
        spec_poll(spec_poll_all(count, statuses.drop_last()), statuses.last()).0
    }
}

/// Before shutdown every request for a permit is granted and adds one to the
/// count.
proof fn lemma_permits_count(k: nat)
    requires
        k <= isize::MAX,
    ensures
        spec_permits(0, k) == k,
    decreases k,
{
    if k > 0 {
        lemma_permits_count((k - 1) as nat);
    }
}

/// Polling completions of operations takes each of them off the count,
/// whatever its outcome.
proof fn lemma_poll_all_counts(count: int, statuses: Seq<CompletionStatus>)
    requires
        forall|i: int| 0 <= i < statuses.len() ==> !is_reserved(#[trigger] statuses[i].completion_key),
    ensures
        spec_poll_all(count, statuses) == count - statuses.len(),
    decreases statuses.len(),
{
    if statuses.len() > 0 {
        let prefix = statuses.drop_last();
        assert forall|i: int| 0 <= i < prefix.len() implies !is_reserved(#[trigger] prefix[i].completion_key) by {
            assert(prefix[i] == statuses[i]);
        }
        lemma_poll_all_counts(count, prefix);
        assert(statuses.last() == statuses[statuses.len() - 1]);
    }
}

/// After `k` granted permits and the completions `statuses` of `j` of those
/// operations, whatever their outcomes, the shutdown message reports
/// `k - j` pending operations, and no permit is granted after it.
pub proof fn lemma_shutdown_reports_in_flight(k: nat, statuses: Seq<CompletionStatus>, shutdown: CompletionStatus)
    requires
        k <= isize::MAX,
        statuses.len() <= k,
        forall|i: int| 0 <= i < statuses.len() ==> !is_reserved(#[trigger] statuses[i].completion_key),
        shutdown.completion_key == SHUTDOWN_PORT,
    ensures
        ({
            let before = spec_poll_all(spec_permits(0, k), statuses);
            let (after, r) = spec_poll(before, shutdown);
            &&& before == k - statuses.len()
            &&& r == Ok::<CompletionPoll, Error>(CompletionPoll::Shutdown(Shutdown { pending: (k - statuses.len()) as usize }))
            &&& spec_permit(after) == (after, false)
        }),
{
    lemma_permits_count(k);
    lemma_poll_all_counts(spec_permits(0, k), statuses);
}

} // verus!
