use vstd::prelude::*;

use crate::clock::{instant_now, instant_elapsed, duration_at_least, duration_of, parts_at_least};
use crate::json::str_eq;
use crate::text::{owned, push_str};
use crate::mcp_error::{McpError, McpResult};

verus! {

/// States of a circuit breaker.
#[derive(Debug, Clone, Copy, PartialEq, Eq, Structural)]
pub enum CircuitState {
    /// Normal operation.
    Closed,
    /// Failing: requests are refused.
    Open,
    /// Probing whether the service recovered.
    HalfOpen,
}

/// What a circuit breaker holds, with the time of the last failure reduced
/// to whether one was recorded.
pub struct CircuitView {
    pub state: CircuitState,
    pub failure_count: u32,
    pub failure_threshold: u32,
    pub success_threshold: u32,
    pub half_open_successes: u32,
    pub has_failure_time: bool,
    pub recovery_timeout: std::time::Duration,
}

/// Successes in a row in the half-open state that close a circuit. The number
/// is a choice of this library; `CircuitBreaker::new` uses it.
pub const DEFAULT_SUCCESS_THRESHOLD: u32 = 3;

impl CircuitView {
    /// The states a breaker can be in: an open circuit has recorded when it
    /// last failed, and a half-open one has not yet counted enough successes.
    pub open spec fn wf(self) -> bool {
        &&& self.state == CircuitState::Open ==> self.has_failure_time
        &&& self.state == CircuitState::HalfOpen ==>
            (self.half_open_successes < self.success_threshold || self.half_open_successes == 0)
    }

    /// The breaker after an operation succeeded.
    pub open spec fn after_success(self) -> CircuitView {
        match self.state {
            CircuitState::Closed => CircuitView { failure_count: 0, ..self },
            CircuitState::HalfOpen => {
                let n = (self.half_open_successes + 1) as u32;
                if n >= self.success_threshold {
                    CircuitView {
                        state: CircuitState::Closed,
                        failure_count: 0,
                        has_failure_time: false,
                        half_open_successes: n,
                        ..self
                    }
                } else {
                    CircuitView { half_open_successes: n, ..self }
                }
            },
            CircuitState::Open => CircuitView {
                state: CircuitState::Closed,
                failure_count: 0,
                has_failure_time: false,
                ..self
            },
        }
    }

    /// The breaker after an operation failed.
    pub open spec fn after_failure(self) -> CircuitView {
        let n = (self.failure_count + 1) as u32;
        match self.state {
            CircuitState::Closed => CircuitView {
                state: if n >= self.failure_threshold { CircuitState::Open } else { CircuitState::Closed },
                failure_count: n,
                has_failure_time: true,
                ..self
            },
            CircuitState::HalfOpen => CircuitView {
                state: CircuitState::Open,
                failure_count: n,
                has_failure_time: true,
                half_open_successes: 0,
                ..self
            },
            CircuitState::Open => CircuitView { failure_count: n, has_failure_time: true, ..self },
        }
    }

    /// Whether an operation may run, and the breaker afterwards, given
    /// whether the recovery timeout has passed since the last failure.
    pub open spec fn admission(self, recovered: bool) -> (bool, CircuitView) {
        match self.state {
            CircuitState::Closed => (true, self),
            CircuitState::HalfOpen => (true, self),
            CircuitState::Open => {
                if self.has_failure_time && recovered {
                    (true, CircuitView { state: CircuitState::HalfOpen, half_open_successes: 0, ..self })
                } else {
                    (false, self)
                }
            },
        }
    }
}

/// `recovered` is what comparing an elapsed time of `secs` seconds and
/// `nanos` nanoseconds with `timeout` gives: whether the elapsed time is at
/// least the timeout.
pub open spec fn recovered_after(timeout: std::time::Duration, secs: u64, nanos: u32, recovered: bool) -> bool {
    forall|ts: u64, tn: u32| tn < 1_000_000_000 && #[trigger] duration_of(ts, tn) == timeout
        ==> recovered == parts_at_least(secs, nanos, ts, tn)
}

/// `recovered` is whether some elapsed time the clock can read is at least
/// `timeout`.
pub open spec fn recovery_reading(timeout: std::time::Duration, recovered: bool) -> bool {
    exists|secs: u64, nanos: u32| nanos < 1_000_000_000 && #[trigger] recovered_after(timeout, secs, nanos, recovered)
}

/// A circuit breaker for MCP operations.
#[derive(Debug)]
pub struct CircuitBreaker {
    state: CircuitState,
    failure_count: u32,
    failure_threshold: u32,
    recovery_timeout: std::time::Duration,
    last_failure_time: Option<std::time::Instant>,
    success_threshold: u32,
    half_open_successes: u32,
}

impl View for CircuitBreaker {
    type V = CircuitView;

    closed spec fn view(&self) -> CircuitView {
        CircuitView {
            state: self.state,
            failure_count: self.failure_count,
            failure_threshold: self.failure_threshold,
            success_threshold: self.success_threshold,
            half_open_successes: self.half_open_successes,
            has_failure_time: self.last_failure_time is Some,
            recovery_timeout: self.recovery_timeout,
        }
    }
}

impl CircuitBreaker {
    /// When the last failure was recorded, if one was.
    pub closed spec fn last_failure(&self) -> Option<std::time::Instant> {
        self.last_failure_time
    }

    pub open spec fn wf(&self) -> bool {
        &&& self@.wf()
        &&& self.last_failure() is Some == self@.has_failure_time
    }

    /// A closed breaker that opens after `failure_threshold` failures and
    /// lets a probe through once `recovery_timeout` has passed.
    pub fn new(failure_threshold: u32, recovery_timeout: std::time::Duration) -> (r: CircuitBreaker)
        ensures
            r.wf(),
            r@ == (CircuitView {
                state: CircuitState::Closed,
                failure_count: 0,
                failure_threshold,
                success_threshold: DEFAULT_SUCCESS_THRESHOLD,
                half_open_successes: 0,
                has_failure_time: false,
                recovery_timeout,
            }),
            r.last_failure() is None,
    {
        CircuitBreaker {
            state: CircuitState::Closed,
            failure_count: 0,
            failure_threshold,
            recovery_timeout,
            last_failure_time: None,
            success_threshold: DEFAULT_SUCCESS_THRESHOLD,
            half_open_successes: 0,
        }
    }

    /// The current state.
    pub fn state(&self) -> (r: &CircuitState)
        ensures
            *r == self@.state,
    {
        &self.state
    }

    /// Whether an operation may run, given whether the recovery timeout has
    /// passed since the last failure; an open breaker whose timeout has passed
    /// turns half-open and lets the operation through.
    pub fn admit_given(&mut self, recovered: bool) -> (r: bool)
        requires
            old(self).wf(),
        ensures
            final(self).wf(),
            (r, final(self)@) == old(self)@.admission(recovered),
            final(self).last_failure() == old(self).last_failure(),
    {
        match self.state {
            CircuitState::Closed => true,
            CircuitState::HalfOpen => true,
            CircuitState::Open => {
                if self.last_failure_time.is_some() && recovered {
                    self.state = CircuitState::HalfOpen;
                    self.half_open_successes = 0;
                    true
                } else {
                    false
                }
            },
        }
    }

    /// Whether an operation may run now. An open breaker lets one through
    /// once the recovery timeout has passed since the last failure (read from
    /// the clock), and turns half-open.
    pub fn can_execute(&mut self) -> (r: bool)
        requires
            old(self).wf(),
        ensures
            final(self).wf(),
            exists|recovered: bool| (r, final(self)@) == old(self)@.admission(recovered),
            old(self)@.state != CircuitState::Open ==> r && final(self)@ == old(self)@,
            !old(self)@.has_failure_time ==> (r, final(self)@) == old(self)@.admission(false),
            final(self).last_failure() == old(self).last_failure(),
            old(self)@.state == CircuitState::Open && old(self)@.has_failure_time ==> exists|recovered: bool|
                recovery_reading(old(self)@.recovery_timeout, recovered)
                    && (r, final(self)@) == #[trigger] old(self)@.admission(recovered),
    {
        let ghost timeout = self.recovery_timeout;
        let recovered = match &self.last_failure_time {
            Some(last) => {
                if self.state == CircuitState::Open {
                    let elapsed = instant_elapsed(last);
                    let ok = duration_at_least(&elapsed, &self.recovery_timeout);
                    proof {
                        let (es, en) = choose|secs: u64, nanos: u32| nanos < 1_000_000_000 && elapsed == #[trigger] duration_of(secs, nanos);
                        assert forall|ts: u64, tn: u32| tn < 1_000_000_000 && #[trigger] duration_of(ts, tn) == timeout
                            implies ok == parts_at_least(es, en, ts, tn) by {
                            assert(elapsed == duration_of(es, en));
                        }
                        assert(recovered_after(timeout, es, en, ok));
                        assert(recovery_reading(timeout, ok));
                    }
                    ok
                } else {
                    false
                }
            },
            None => false,
        };
        let r = self.admit_given(recovered);
        r
    }

    /// Records that an operation succeeded. The time of the last failure is
    /// kept, unless the circuit closes from open or half-open, which clears it.
    pub fn record_success(&mut self)
        requires
            old(self).wf(),
        ensures
            final(self).wf(),
            final(self)@ == old(self)@.after_success(),
            final(self).last_failure() == (if final(self)@.has_failure_time {
                old(self).last_failure()
            } else {
                None
            }),
    {
        match self.state {
            CircuitState::Closed => {
                self.failure_count = 0;
            },
            CircuitState::HalfOpen => {
                self.half_open_successes = self.half_open_successes + 1;
                if self.half_open_successes >= self.success_threshold {
                    self.state = CircuitState::Closed;
                    self.failure_count = 0;
                    self.last_failure_time = None;
                }
            },
            CircuitState::Open => {
                self.state = CircuitState::Closed;
                self.failure_count = 0;
                self.last_failure_time = None;
            },
        }
    }

    /// Records that an operation failed, and when: the instant read from the
    /// clock replaces the time of the last failure.
    pub fn record_failure(&mut self)
        requires
            old(self).wf(),
            old(self)@.failure_count < u32::MAX,
        ensures
            final(self).wf(),
            final(self)@ == old(self)@.after_failure(),
            final(self).last_failure() is Some,
    {
        self.failure_count = self.failure_count + 1;
        self.last_failure_time = Some(instant_now());
        match self.state {
            CircuitState::Closed => {
                if self.failure_count >= self.failure_threshold {
                    self.state = CircuitState::Open;
                }
            },
            CircuitState::HalfOpen => {
                self.state = CircuitState::Open;
                self.half_open_successes = 0;
            },
            CircuitState::Open => {},
        }
    }
}


impl CircuitView {
    /// The breaker after `k` failed operations in a row.
    pub open spec fn after_failures(self, k: nat) -> CircuitView
        decreases k,
    {
        if k == 0 { self } else { self.after_failures((k - 1) as nat).after_failure() }
    }

    /// The breaker after `k` successful operations in a row.
    pub open spec fn after_successes(self, k: nat) -> CircuitView
        decreases k,
    {
        if k == 0 { self } else { self.after_successes((k - 1) as nat).after_success() }
    }
}

/// Every operation of a breaker keeps it in a state it can be in.
pub proof fn law_circuit_wf_preserved(v: CircuitView, recovered: bool)
    requires
        v.wf(),
    ensures
        v.after_success().wf(),
        v.failure_count < u32::MAX ==> v.after_failure().wf(),
        v.admission(recovered).1.wf(),
{
}

/// A closed breaker with no failures, whose threshold is `t > 0`, stays
/// closed through `t - 1` failures in a row and opens at the `t`-th; it stays
/// open through further failures.
pub proof fn law_consecutive_failures_open(v: CircuitView, k: nat)
    requires
        v.state == CircuitState::Closed,
        v.failure_count == 0,
        v.failure_threshold > 0,
        k < u32::MAX,
    ensures
        v.after_failures(k).failure_count == k,
        v.after_failures(k).failure_threshold == v.failure_threshold,
        v.after_failures(k).state == (if k >= v.failure_threshold { CircuitState::Open } else { CircuitState::Closed }),
        k > 0 ==> v.after_failures(k).has_failure_time,
    decreases k,
{
    if k > 0 {
        law_consecutive_failures_open(v, (k - 1) as nat);
        let prev = v.after_failures((k - 1) as nat);
        assert(v.after_failures(k) == prev.after_failure());
    }
}

/// A success on a closed breaker forgets the failures counted so far.
pub proof fn law_success_resets_failures(v: CircuitView)
    requires
        v.state == CircuitState::Closed,
    ensures
        v.after_success().state == CircuitState::Closed,
        v.after_success().failure_count == 0,
{
}

/// An open breaker refuses operations until the recovery timeout has
/// passed; then it lets one through and turns half-open.
pub proof fn law_open_refuses_until_recovered(v: CircuitView)
    requires
        v.wf(),
        v.state == CircuitState::Open,
    ensures
        v.admission(false) == (false, v),
        v.admission(true).0,
        v.admission(true).1.state == CircuitState::HalfOpen,
        v.admission(true).1.half_open_successes == 0,
{
}

/// An open breaker lets the next operation through, and turns half-open,
/// exactly when the time the clock read since its last failure is at least
/// its recovery timeout; otherwise it refuses and stays as it is.
pub proof fn law_open_admits_once_timeout_elapsed(
    v: CircuitView,
    secs: u64,
    nanos: u32,
    timeout_secs: u64,
    timeout_nanos: u32,
    recovered: bool,
)
    requires
        v.wf(),
        v.state == CircuitState::Open,
        nanos < 1_000_000_000,
        timeout_nanos < 1_000_000_000,
        v.recovery_timeout == duration_of(timeout_secs, timeout_nanos),
        recovered_after(v.recovery_timeout, secs, nanos, recovered),
    ensures
        v.admission(recovered).0 == parts_at_least(secs, nanos, timeout_secs, timeout_nanos),
        parts_at_least(secs, nanos, timeout_secs, timeout_nanos) ==> v.admission(recovered).1
            == (CircuitView { state: CircuitState::HalfOpen, half_open_successes: 0, ..v }),
        !parts_at_least(secs, nanos, timeout_secs, timeout_nanos) ==> v.admission(recovered).1 == v,
{
    assert(duration_of(timeout_secs, timeout_nanos) == v.recovery_timeout);
}

/// An open breaker whose recovery timeout is zero lets the next operation
/// through at once and turns half-open, whatever the clock reads.
pub proof fn law_zero_timeout_admits_at_once(v: CircuitView, recovered: bool)
    requires
        v.wf(),
        v.state == CircuitState::Open,
        v.recovery_timeout == duration_of(0, 0),
        recovery_reading(v.recovery_timeout, recovered),
    ensures
        v.admission(recovered) == (true, CircuitView { state: CircuitState::HalfOpen, half_open_successes: 0, ..v }),
{
    let (secs, nanos) = choose|secs: u64, nanos: u32| nanos < 1_000_000_000 && #[trigger] recovered_after(v.recovery_timeout, secs, nanos, recovered);
    assert(duration_of(0, 0) == v.recovery_timeout);
    assert(recovered == parts_at_least(secs, nanos, 0, 0));
}

/// Closed and half-open breakers let every operation through, unchanged.
pub proof fn law_closed_and_half_open_admit(v: CircuitView, recovered: bool)
    requires
        v.state != CircuitState::Open,
    ensures
        v.admission(recovered) == (true, v),
{
}

/// A failure while half-open opens the breaker again.
pub proof fn law_half_open_failure_reopens(v: CircuitView)
    requires
        v.state == CircuitState::HalfOpen,
    ensures
        v.after_failure().state == CircuitState::Open,
        v.after_failure().half_open_successes == 0,
{
}

/// A half-open breaker that has counted no success yet, with a success
/// threshold `s > 0`, stays half-open through `s - 1` successes and closes at
/// the `s`-th, with its failures and failure time forgotten.
pub proof fn law_half_open_successes_close(v: CircuitView, k: nat)
    requires
        v.state == CircuitState::HalfOpen,
        v.half_open_successes == 0,
        v.success_threshold > 0,
        1 <= k <= v.success_threshold,
    ensures
        v.after_successes(k).success_threshold == v.success_threshold,
        k < v.success_threshold ==> v.after_successes(k).state == CircuitState::HalfOpen
            && v.after_successes(k).half_open_successes == k,
        k == v.success_threshold ==> v.after_successes(k).state == CircuitState::Closed
            && v.after_successes(k).failure_count == 0
            && !v.after_successes(k).has_failure_time,
    decreases k,
{
    reveal_with_fuel(CircuitView::after_successes, 2);
    if k > 1 {
        law_half_open_successes_close(v, (k - 1) as nat);
        let prev = v.after_successes((k - 1) as nat);
        assert(v.after_successes(k) == prev.after_success());
    }
}


/// Failures in a row after which a server counts as unhealthy.
pub const HEALTH_FAILURE_THRESHOLD: u32 = 3;

/// The failures counted for `name` in a list of (server, failures) entries
/// whose server names are distinct; 0 for a server not listed.
pub open spec fn failures_in(entries: Seq<(Seq<char>, u32)>, name: Seq<char>) -> u32 {
    if exists|i: int| 0 <= i < entries.len() && entries[i].0 == name {
        entries[choose|i: int| 0 <= i < entries.len() && entries[i].0 == name].1
    } else {
        0
    }
}

/// Server names appear at most once.
pub open spec fn distinct_names(entries: Seq<(Seq<char>, u32)>) -> bool {
    forall|i: int, j: int| 0 <= i < j < entries.len() ==> entries[i].0 != entries[j].0
}

pub proof fn lemma_failures_at(entries: Seq<(Seq<char>, u32)>, i: int)
    requires
        distinct_names(entries),
        0 <= i < entries.len(),
    ensures
        failures_in(entries, entries[i].0) == entries[i].1,
{
    let name = entries[i].0;
    let j = choose|j: int| 0 <= j < entries.len() && entries[j].0 == name;
    assert(0 <= j < entries.len() && entries[j].0 == name);
    if j < i {
        assert(entries[j].0 != entries[i].0);
    } else if j > i {
        assert(entries[i].0 != entries[j].0);
    }
}

/// Tracks the health of servers from the outcomes of their operations.
#[derive(Debug)]
pub struct HealthMonitor {
    check_interval: std::time::Duration,
    servers: Vec<(String, u32)>,
}

impl HealthMonitor {
    /// The (server, failures in a row) entries.
    pub closed spec fn entries(&self) -> Seq<(Seq<char>, u32)> {
        self.servers@.map_values(|e: (String, u32)| (e.0@, e.1))
    }

    pub closed spec fn interval(&self) -> std::time::Duration {
        self.check_interval
    }

    pub open spec fn wf(&self) -> bool {
        distinct_names(self.entries())
    }

    /// Failures in a row counted for a server.
    pub open spec fn failures(&self, name: Seq<char>) -> u32 {
        failures_in(self.entries(), name)
    }

    /// A server is healthy while it has failed fewer than
    /// `HEALTH_FAILURE_THRESHOLD` times in a row.
    pub open spec fn healthy(&self, name: Seq<char>) -> bool {
        self.failures(name) < HEALTH_FAILURE_THRESHOLD
    }

    /// A monitor that knows of no failure.
    pub fn new(check_interval: std::time::Duration) -> (r: HealthMonitor)
        ensures
            r.wf(),
            r.interval() == check_interval,
            forall|name: Seq<char>| r.failures(name) == 0,
    {
        let r = HealthMonitor { check_interval, servers: Vec::new() };
        assert(r.entries() =~= Seq::empty());
        r
    }

    /// The interval at which servers are meant to be checked.
    pub fn check_interval(&self) -> (r: std::time::Duration)
        ensures
            r == self.interval(),
    {
        self.check_interval
    }

    /// The position of `name` in the entries.
    fn position(&self, name: &str) -> (r: Option<usize>)
        ensures
            r matches Some(i) ==> i < self.servers@.len() && self.entries()[i as int].0 == name@,
            r is None ==> forall|i: int| 0 <= i < self.entries().len() ==> self.entries()[i].0 != name@,
    {
        let mut i: usize = 0;
        while i < self.servers.len()
            invariant
                i <= self.servers@.len(),
                self.entries().len() == self.servers@.len(),
                forall|j: int| 0 <= j < i ==> self.entries()[j].0 != name@,
            decreases self.servers.len() - i,
        {
            if str_eq(self.servers[i].0.as_str(), name) {
                return Some(i);
            }
            i = i + 1;
        }
        None
    }

    /// Records that an operation on `name` failed.
    pub fn record_server_failure(&mut self, name: &str)
        requires
            old(self).wf(),
        ensures
            final(self).wf(),
            final(self).interval() == old(self).interval(),
            final(self).failures(name@) == (if old(self).failures(name@) == u32::MAX { u32::MAX } else {
                (old(self).failures(name@) + 1) as u32 }),
            forall|other: Seq<char>| other != name@ ==> final(self).failures(other) == old(self).failures(other),
    {
        let ghost old_entries = self.entries();
        match self.position(name) {
            Some(i) => {
                let count = self.servers[i].1;
                let next = if count == u32::MAX { u32::MAX } else { count + 1 };
                let entry_name = owned(self.servers[i].0.as_str());
                self.servers.set(i, (entry_name, next));
                let ghost new_entries = self.entries();
                assert(new_entries =~= old_entries.update(i as int, (name@, next)));
                proof {
                    lemma_failures_at(old_entries, i as int);
                    lemma_failures_at(new_entries, i as int);
                    assert forall|other: Seq<char>| other != name@ implies failures_in(new_entries, other) == failures_in(old_entries, other) by {
                        if exists|k: int| 0 <= k < old_entries.len() && old_entries[k].0 == other {
                            let k = choose|k: int| 0 <= k < old_entries.len() && old_entries[k].0 == other;
                            lemma_failures_at(old_entries, k);
                            lemma_failures_at(new_entries, k);
                        }
                    }
                }
            },
            None => {
                self.servers.push((owned(name), 1));
                let ghost new_entries = self.entries();
                assert(new_entries =~= old_entries.push((name@, 1u32)));
                proof {
                    let n = old_entries.len() as int;
                    lemma_failures_at(new_entries, n);
                    assert forall|other: Seq<char>| other != name@ implies failures_in(new_entries, other) == failures_in(old_entries, other) by {
                        if exists|k: int| 0 <= k < old_entries.len() && old_entries[k].0 == other {
                            let k = choose|k: int| 0 <= k < old_entries.len() && old_entries[k].0 == other;
                            lemma_failures_at(old_entries, k);
                            lemma_failures_at(new_entries, k);
                        } else {
                            assert(!(exists|k: int| 0 <= k < new_entries.len() && new_entries[k].0 == other));
                        }
                    }
                    assert(!(exists|k: int| 0 <= k < old_entries.len() && old_entries[k].0 == name@));
                }
            },
        }
    }

    /// Records that an operation on `name` succeeded: its failures are forgotten.
    pub fn record_server_success(&mut self, name: &str)
        requires
            old(self).wf(),
        ensures
            final(self).wf(),
            final(self).interval() == old(self).interval(),
            final(self).failures(name@) == 0,
            forall|other: Seq<char>| other != name@ ==> final(self).failures(other) == old(self).failures(other),
    {
        let ghost old_entries = self.entries();
        match self.position(name) {
            Some(i) => {
                let entry_name = owned(self.servers[i].0.as_str());
                self.servers.set(i, (entry_name, 0));
                let ghost new_entries = self.entries();
                assert(new_entries =~= old_entries.update(i as int, (name@, 0u32)));
                proof {
                    lemma_failures_at(new_entries, i as int);
                    assert forall|other: Seq<char>| other != name@ implies failures_in(new_entries, other) == failures_in(old_entries, other) by {
                        if exists|k: int| 0 <= k < old_entries.len() && old_entries[k].0 == other {
                            let k = choose|k: int| 0 <= k < old_entries.len() && old_entries[k].0 == other;
                            lemma_failures_at(old_entries, k);
                            lemma_failures_at(new_entries, k);
                        }
                    }
                }
            },
            None => {},
        }
    }

    /// Whether `name` is healthy.
    pub fn is_server_healthy(&self, name: &str) -> (r: bool)
        requires
            self.wf(),
        ensures
            r == self.healthy(name@),
    {
        match self.position(name) {
            Some(i) => {
                proof { lemma_failures_at(self.entries(), i as int); }
                self.servers[i].1 < HEALTH_FAILURE_THRESHOLD
            },
            None => true,
        }
    }

    /// The servers that are unhealthy, each once, in the order they first failed.
    pub fn get_unhealthy_servers(&self) -> (r: Vec<String>)
        requires
            self.wf(),
        ensures
            forall|name: Seq<char>| r.deep_view().contains(name) <==> !self.healthy(name),
            r.deep_view().no_duplicates(),
    {
        let ghost es = self.entries();
        let mut r: Vec<String> = Vec::new();
        let mut i: usize = 0;
        while i < self.servers.len()
            invariant
                i <= self.servers@.len(),
                es == self.entries(),
                es.len() == self.servers@.len(),
                distinct_names(es),
                forall|name: Seq<char>| r.deep_view().contains(name) <==>
                    (exists|k: int| 0 <= k < i && es[k].0 == name && es[k].1 >= HEALTH_FAILURE_THRESHOLD),
                forall|m: int| 0 <= m < r.deep_view().len() ==> (exists|k: int| 0 <= k < i && es[k].0 == #[trigger] r.deep_view()[m]),
                r.deep_view().no_duplicates(),
            decreases self.servers.len() - i,
        {
            let ghost before = r.deep_view();
            let ghost ii = i as int;
            let pushed = self.servers[i].1 >= HEALTH_FAILURE_THRESHOLD;
            assert(es[ii] == (self.servers@[ii].0@, self.servers@[ii].1));
            if pushed {
                r.push(owned(self.servers[i].0.as_str()));
                assert(r.deep_view() =~= before.push(es[ii].0));
                assert(!before.contains(es[ii].0)) by {
                    if before.contains(es[ii].0) {
                        let m = choose|m: int| 0 <= m < before.len() && before[m] == es[ii].0;
                        let k = choose|k: int| 0 <= k < ii && es[k].0 == before[m];
                        assert(es[k].0 != es[ii].0);
                    }
                }
            }
            proof {
                assert forall|name: Seq<char>| r.deep_view().contains(name) <==>
                    (exists|k: int| 0 <= k < ii + 1 && es[k].0 == name && es[k].1 >= HEALTH_FAILURE_THRESHOLD) by {
                    if exists|k: int| 0 <= k < ii + 1 && es[k].0 == name && es[k].1 >= HEALTH_FAILURE_THRESHOLD {
                        let k = choose|k: int| 0 <= k < ii + 1 && es[k].0 == name && es[k].1 >= HEALTH_FAILURE_THRESHOLD;
                        if k < ii {
                            assert(before.contains(name));
                            if pushed {
                                let m = choose|m: int| 0 <= m < before.len() && before[m] == name;
                                assert(r.deep_view()[m] == name);
                            }
                        } else {
                            assert(pushed);
                            assert(r.deep_view()[before.len() as int] == name);
                        }
                    }
                    if r.deep_view().contains(name) {
                        let m = choose|m: int| 0 <= m < r.deep_view().len() && r.deep_view()[m] == name;
                        if pushed && m == before.len() {
                            assert(es[ii].0 == name);
                        } else {
                            assert(before[m] == name);
                            assert(before.contains(name));
                        }
                    }
                }
                assert forall|m: int| 0 <= m < r.deep_view().len() implies (exists|k: int| 0 <= k < ii + 1 && es[k].0 == #[trigger] r.deep_view()[m]) by {
                    if pushed && m == before.len() {
                        assert(es[ii].0 == r.deep_view()[m]);
                    } else {
                        assert(r.deep_view()[m] == before[m]);
                    }
                }
            }
            i = i + 1;
        }
        proof {
            assert forall|name: Seq<char>| r.deep_view().contains(name) <==> !self.healthy(name) by {
                if exists|k: int| 0 <= k < es.len() && es[k].0 == name {
                    let k = choose|k: int| 0 <= k < es.len() && es[k].0 == name;
                    lemma_failures_at(es, k);
                }
            }
        }
        r
    }
}

/// `HEALTH_FAILURE_THRESHOLD` failures in a row make a server unhealthy,
/// whatever came before; one success makes it healthy again.
pub proof fn law_health_threshold(m: HealthMonitor, name: Seq<char>)
    requires
        m.wf(),
    ensures
        m.failures(name) >= HEALTH_FAILURE_THRESHOLD ==> !m.healthy(name),
        m.failures(name) == 0 ==> m.healthy(name),
{
}


/// The name under which an operation on a server is retried: `{server}:{operation}`.
pub fn server_operation_name(server_name: &str, operation_name: &str) -> (r: String)
    ensures
        r@ == server_name@ + ":"@ + operation_name@,
{
    let mut n = owned(server_name);
    push_str(&mut n, ":");
    push_str(&mut n, operation_name);
    n
}

/// What the retry loop does after an attempt.
pub enum RetryStep<T> {
    /// Run attempt number `next_attempt` (counted from 0) after the backoff delay.
    RetryAfter { next_attempt: u32 },
    /// Stop with this result.
    Done(McpResult<T>),
}

/// The decisions of a retry loop with an optional circuit breaker: whether
/// to start, and after each attempt whether to try again or what to return.
/// The loop itself, with its delays, is run by the caller.
#[derive(Debug)]
pub struct RetryController {
    max_attempts: u32,
    circuit_breaker: Option<CircuitBreaker>,
}

impl RetryController {
    pub closed spec fn attempts(&self) -> u32 {
        self.max_attempts
    }

    pub closed spec fn breaker(&self) -> Option<CircuitView> {
        match self.circuit_breaker {
            Some(cb) => Some(cb@),
            None => None,
        }
    }

    /// When the breaker, if any, last recorded a failure.
    pub closed spec fn failure_time(&self) -> Option<std::time::Instant> {
        match self.circuit_breaker {
            Some(cb) => cb.last_failure(),
            None => None,
        }
    }

    pub open spec fn wf(&self) -> bool {
        &&& self.breaker() matches Some(v) ==> v.wf()
        &&& self.failure_time() is Some <==> (self.breaker() matches Some(v) && v.has_failure_time)
    }

    /// The breaker can count one more failure.
    pub open spec fn can_count_failure(&self) -> bool {
        self.breaker() matches Some(v) ==> v.failure_count < u32::MAX
    }

    /// Whether the breaker counts a failure after attempt number `attempt` of
    /// `max_attempts` ended with `result`: an error not worth another attempt,
    /// or one after the last attempt.
    pub open spec fn records_failure<T>(attempt: u32, max_attempts: u32, result: &McpResult<T>) -> bool {
        match result {
            Ok(_) => false,
            Err(e) => !e.retryable() || attempt + 1 >= max_attempts,
        }
    }

    /// The breaker, if any, after a failure was recorded.
    pub open spec fn breaker_after_failure(b: Option<CircuitView>) -> Option<CircuitView> {
        match b {
            Some(v) => Some(v.after_failure()),
            None => None,
        }
    }

    /// The breaker, if any, after a success was recorded.
    pub open spec fn breaker_after_success(b: Option<CircuitView>) -> Option<CircuitView> {
        match b {
            Some(v) => Some(v.after_success()),
            None => None,
        }
    }

    /// A controller for `max_attempts` attempts, without a circuit breaker.
    pub fn new(max_attempts: u32) -> (r: RetryController)
        ensures
            r.wf(),
            r.attempts() == max_attempts,
            r.breaker() is None,
            r.failure_time() is None,
    {
        RetryController { max_attempts, circuit_breaker: None }
    }

    /// A controller for `max_attempts` attempts guarded by `breaker`.
    pub fn with_circuit_breaker(max_attempts: u32, breaker: CircuitBreaker) -> (r: RetryController)
        requires
            breaker.wf(),
        ensures
            r.wf(),
            r.attempts() == max_attempts,
            r.breaker() == Some(breaker@),
            r.failure_time() == breaker.last_failure(),
    {
        RetryController { max_attempts, circuit_breaker: Some(breaker) }
    }

    /// Whether the breaker, if any, can count one more failure without its
    /// counter overflowing.
    pub fn can_count_failure_now(&self) -> (r: bool)
        ensures
            r == self.can_count_failure(),
    {
        match &self.circuit_breaker {
            Some(cb) => cb.failure_count < u32::MAX,
            None => true,
        }
    }

    /// The number of attempts an operation gets.
    pub fn max_attempts(&self) -> (r: u32)
        ensures
            r == self.attempts(),
    {
        self.max_attempts
    }

    /// How a run of `operation_name` starts. The circuit breaker is asked
    /// first: when it refuses, the run fails at once. With no attempts to make,
    /// the run fails with an internal "Unknown error", counted as a failure by
    /// the breaker. Otherwise attempt 0 runs, without delay.
    pub fn begin<T>(&mut self, operation_name: &str) -> (r: RetryStep<T>)
        requires
            old(self).wf(),
            old(self).attempts() == 0 ==> old(self).can_count_failure(),
        ensures
            final(self).wf(),
            final(self).attempts() == old(self).attempts(),
            old(self).breaker() is None ==> (if old(self).attempts() == 0 {
                final(self).breaker() is None
                    && (r matches RetryStep::Done(Err(McpError::Internal { message })) && message@ == "Unknown error"@)
            } else {
                final(self).breaker() is None && (r matches RetryStep::RetryAfter { next_attempt } && next_attempt == 0)
            }),
            old(self).breaker() matches Some(v) ==> exists|recovered: bool| {
                let (allowed, after) = #[trigger] v.admission(recovered);
                &&& v.state == CircuitState::Open && v.has_failure_time ==> recovery_reading(v.recovery_timeout, recovered)
                &&& !allowed ==> final(self).breaker() == Some(after)
                    && final(self).failure_time() == old(self).failure_time()
                    && (r matches RetryStep::Done(Err(McpError::OperationCancelled { operation }))
                        && operation@ == operation_name@ + " (circuit breaker open)"@)
                &&& allowed && old(self).attempts() == 0 ==> final(self).breaker() == Some(after.after_failure())
                    && (r matches RetryStep::Done(Err(McpError::Internal { message })) && message@ == "Unknown error"@)
                &&& allowed && old(self).attempts() > 0 ==> final(self).breaker() == Some(after)
                    && final(self).failure_time() == old(self).failure_time()
                    && (r matches RetryStep::RetryAfter { next_attempt } && next_attempt == 0)
            },
    {
        let ghost before = self.breaker();
        match &mut self.circuit_breaker {
            Some(cb) => {
                if !cb.can_execute() {
                    let mut operation = owned(operation_name);
                    push_str(&mut operation, " (circuit breaker open)");
                    return RetryStep::Done(Err(McpError::OperationCancelled { operation }));
                }
            },
            None => {},
        }
        proof {
            if let Some(v) = before {
                let after = self.breaker()->Some_0;
                let recovered = choose|recovered: bool| (true, after) == #[trigger] v.admission(recovered);
                assert(v.admission(recovered) == (true, after));
                assert(after.failure_count == v.failure_count);
            }
        }
        if self.max_attempts == 0 {
            return RetryStep::Done(self.no_attempt_made());
        }
        RetryStep::RetryAfter { next_attempt: 0 }
    }

    fn record_success(&mut self)
        requires
            old(self).wf(),
        ensures
            final(self).wf(),
            final(self).attempts() == old(self).attempts(),
            final(self).breaker() == Self::breaker_after_success(old(self).breaker()),
            final(self).failure_time() is Some ==> final(self).failure_time() == old(self).failure_time(),
    {
        match &mut self.circuit_breaker {
            Some(cb) => cb.record_success(),
            None => {},
        }
    }

    fn record_failure(&mut self)
        requires
            old(self).wf(),
            old(self).can_count_failure(),
        ensures
            final(self).wf(),
            final(self).attempts() == old(self).attempts(),
            final(self).breaker() == Self::breaker_after_failure(old(self).breaker()),
    {
        match &mut self.circuit_breaker {
            Some(cb) => cb.record_failure(),
            None => {},
        }
    }

    /// Decides what follows attempt number `attempt` (from 0), given its result.
    /// A success ends the loop; so does an error that is not worth another
    /// attempt. An error worth another attempt is retried while attempts are
    /// left; after the last one it becomes `MaxRetriesExceeded` for the server
    /// it names, and is returned unchanged if it names none.
    pub fn after_attempt<T>(&mut self, attempt: u32, result: McpResult<T>) -> (r: RetryStep<T>)
        requires
            old(self).wf(),
            attempt < old(self).attempts(),
            Self::records_failure(attempt, old(self).attempts(), &result) ==> old(self).can_count_failure(),
        ensures
            final(self).wf(),
            final(self).attempts() == old(self).attempts(),
            match result {
                Ok(v) => final(self).breaker() == Self::breaker_after_success(old(self).breaker())
                    && (final(self).failure_time() is Some ==> final(self).failure_time() == old(self).failure_time())
                    && (r matches RetryStep::Done(Ok(w)) && w == v),
                Err(e) => if !e.retryable() {
                    final(self).breaker() == Self::breaker_after_failure(old(self).breaker())
                        && (r matches RetryStep::Done(Err(x)) && x == e)
                } else if attempt + 1 < old(self).attempts() {
                    final(self).breaker() == old(self).breaker()
                        && final(self).failure_time() == old(self).failure_time()
                        && (r matches RetryStep::RetryAfter { next_attempt } && next_attempt == attempt + 1)
                } else {
                    final(self).breaker() == Self::breaker_after_failure(old(self).breaker())
                        && match e.server() {
                            Some(name) => (r matches RetryStep::Done(Err(McpError::MaxRetriesExceeded { server_name, max_retries }))
                                && server_name@ == name && max_retries == old(self).attempts()),
                            None => (r matches RetryStep::Done(Err(x)) && x == e),
                        }
                },
            },
    {
        match result {
            Ok(v) => {
                self.record_success();
                RetryStep::Done(Ok(v))
            },
            Err(e) => {
                if !e.is_retryable() {
                    self.record_failure();
                    return RetryStep::Done(Err(e));
                }
                if attempt + 1 < self.max_attempts {
                    return RetryStep::RetryAfter { next_attempt: attempt + 1 };
                }
                self.record_failure();
                let server = match e.server_name() {
                    Some(name) => Some(owned(name)),
                    None => None,
                };
                match server {
                    Some(server_name) => RetryStep::Done(Err(McpError::MaxRetriesExceeded {
                        server_name,
                        max_retries: self.max_attempts,
                    })),
                    None => RetryStep::Done(Err(e)),
                }
            },
        }
    }

    /// The result of a loop that made no attempt (`max_attempts` is 0): an
    /// internal "Unknown error", counted as a failure by the breaker.
    pub fn no_attempt_made<T>(&mut self) -> (r: McpResult<T>)
        requires
            old(self).wf(),
            old(self).can_count_failure(),
        ensures
            final(self).wf(),
            final(self).attempts() == old(self).attempts(),
            final(self).breaker() == Self::breaker_after_failure(old(self).breaker()),
            r matches Err(McpError::Internal { message }) && message@ == "Unknown error"@,
    {
        self.record_failure();
        Err(McpError::internal("Unknown error"))
    }
}

} // verus!
