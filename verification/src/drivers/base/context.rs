//! Persistent driver context: the state that survives a driver reload
//! (pending requests, failure history, recovery policy).
use vstd::prelude::*;
use crate::drivers::base::device::DeviceId;
use crate::drivers::base::driver::{DeviceType, DriverError};

verus! {

/// What to do with pending work when a driver fails.
#[derive(Debug, Clone, Copy, PartialEq, Eq, Structural)]
pub enum RecoveryPolicy {
    /// Pause every request and retry after recovery (storage).
    PauseAndRetry,
    /// Drop pending requests and notify their owners (network).
    DropAndNotify,
    /// Drop pending requests and switch to a fallback driver (display).
    CriticalFallback,
    /// Act at once, neither pausing nor dropping (timers, interrupt controllers).
    Immediate,
}

/// Policy given to a device type by default.
pub open spec fn default_policy(t: DeviceType) -> RecoveryPolicy {
    match t {
        DeviceType::Storage => RecoveryPolicy::PauseAndRetry,
        DeviceType::Network => RecoveryPolicy::DropAndNotify,
        DeviceType::Display => RecoveryPolicy::CriticalFallback,
        DeviceType::Timer | DeviceType::Controller => RecoveryPolicy::Immediate,
        _ => RecoveryPolicy::DropAndNotify,
    }
}

/// Display name of a policy.
pub open spec fn policy_name(p: RecoveryPolicy) -> Seq<char> {
    match p {
        RecoveryPolicy::PauseAndRetry => "PauseAndRetry"@,
        RecoveryPolicy::DropAndNotify => "DropAndNotify"@,
        RecoveryPolicy::CriticalFallback => "CriticalFallback"@,
        RecoveryPolicy::Immediate => "Immediate"@,
    }
}

impl RecoveryPolicy {
    /// Default policy for a device type.
    pub fn default_for_type(dev_type: DeviceType) -> (p: RecoveryPolicy)
        ensures
            p == default_policy(dev_type),
    {
        match dev_type {
            DeviceType::Storage => RecoveryPolicy::PauseAndRetry,
            DeviceType::Network => RecoveryPolicy::DropAndNotify,
            DeviceType::Display => RecoveryPolicy::CriticalFallback,
            DeviceType::Timer | DeviceType::Controller => RecoveryPolicy::Immediate,
            _ => RecoveryPolicy::DropAndNotify,
        }
    }

    /// Readable name of the policy.
    pub fn as_str(&self) -> (s: &'static str)
        ensures
            s@ == policy_name(*self),
    {
        match self {
            RecoveryPolicy::PauseAndRetry => "PauseAndRetry",
            RecoveryPolicy::DropAndNotify => "DropAndNotify",
            RecoveryPolicy::CriticalFallback => "CriticalFallback",
            RecoveryPolicy::Immediate => "Immediate",
        }
    }
}

/// Kind of operation of a request.
#[derive(Debug, Clone, Copy, PartialEq, Eq, Structural)]
pub enum RequestType {
    Read,
    Write,
    Control,
    Status,
    Other,
}

/// Status of a pending request.
#[derive(Debug, Clone, Copy, PartialEq, Eq, Structural)]
pub enum RequestStatus {
    Pending,
    InProgress,
    Paused,
    Dropping,
    Completed,
    Failed,
}

/// A request that was in flight when the driver failed.
#[derive(Debug, Clone)]
pub struct PendingRequest {
    pub id: u64,
    pub operation: RequestType,
    pub submitted_at: u64,
    pub data: Option<Vec<u8>>,
    pub status: RequestStatus,
}

/// Status of a request once every request is paused.
pub open spec fn paused_status(s: RequestStatus) -> RequestStatus {
    if s == RequestStatus::Pending || s == RequestStatus::InProgress {
        RequestStatus::Paused
    } else {
        s
    }
}

/// Status of a request once every paused request is resumed.
pub open spec fn resumed_status(s: RequestStatus) -> RequestStatus {
    if s == RequestStatus::Paused {
        RequestStatus::Pending
    } else {
        s
    }
}

/// The same request with another status.
pub open spec fn with_status(r: PendingRequest, s: RequestStatus) -> PendingRequest {
    PendingRequest { status: s, ..r }
}

/// The requests that are not completed.
pub open spec fn drop_completed(s: Seq<PendingRequest>) -> Seq<PendingRequest>
    decreases s.len(),
{
    if s.len() == 0 {
        s
    } else if s[0].status == RequestStatus::Completed {
        drop_completed(s.drop_first())
    } else {
        seq![s[0]] + drop_completed(s.drop_first())
    }
}

/// The queue once the first request with `id` completes and completed
/// requests leave it.
pub open spec fn complete_in(s: Seq<PendingRequest>, id: u64) -> Seq<PendingRequest>
    decreases s.len(),
{
    if s.len() == 0 {
        s
    } else if s[0].id == id {
        drop_completed(s.drop_first())
    } else if s[0].status == RequestStatus::Completed {
        complete_in(s.drop_first(), id)
    } else {
        seq![s[0]] + complete_in(s.drop_first(), id)
    }
}

/// Persistent context of one device.
pub struct DriverContext {
    pub device_id: DeviceId,
    pub recovery_policy: RecoveryPolicy,
    pub pending_requests: Vec<PendingRequest>,
    pub next_request_id: u64,
    pub failure_count: u32,
    pub last_error: Option<DriverError>,
    pub last_failure_time: u64,
    pub is_paused: bool,
    pub saved_state: Option<Vec<u8>>,
}

impl DriverContext {
    /// Id the next enqueued request receives.
    pub open spec fn next_id(&self) -> u64 {
        self.next_request_id
    }

    /// Every pending request has an id below the next one.
    pub open spec fn ids_below_next(&self) -> bool {
        forall|k: int| 0 <= k < self.pending_requests@.len() ==> #[trigger] self.pending_requests@[k].id < self.next_id()
    }

    /// A fresh context: default policy `DropAndNotify`, no request, no failure.
    pub fn new(device_id: DeviceId) -> (c: DriverContext)
        ensures
            c.device_id == device_id,
            c.recovery_policy == RecoveryPolicy::DropAndNotify,
            c.pending_requests@.len() == 0,
            c.next_id() == 1,
            c.failure_count == 0,
            c.last_error.is_none(),
            c.last_failure_time == 0,
            !c.is_paused,
            c.saved_state.is_none(),
    {
        DriverContext {
            device_id,
            recovery_policy: RecoveryPolicy::DropAndNotify,
            pending_requests: Vec::new(),
            next_request_id: 1,
            failure_count: 0,
            last_error: None,
            last_failure_time: 0,
            is_paused: false,
            saved_state: None,
        }
    }

    /// Sets the recovery policy.
    pub fn set_policy(&mut self, policy: RecoveryPolicy)
        ensures
            final(self).recovery_policy == policy,
            final(self).device_id == old(self).device_id,
            final(self).pending_requests@ == old(self).pending_requests@,
            final(self).next_id() == old(self).next_id(),
            final(self).failure_count == old(self).failure_count,
            final(self).is_paused == old(self).is_paused,
            final(self).saved_state == old(self).saved_state,
            final(self).last_failure_time == old(self).last_failure_time,
            final(self).last_error == old(self).last_error,
    {
        self.recovery_policy = policy;
    }

    /// Queues a request and returns its id; ids are handed out in increasing order.
    pub fn enqueue_request(&mut self, op: RequestType, data: Option<Vec<u8>>) -> (id: u64)
        requires
            old(self).next_id() < u64::MAX,
        ensures
            id == old(self).next_id(),
            final(self).next_id() == id + 1,
            final(self).pending_requests@ == old(self).pending_requests@.push(PendingRequest {
                id,
                operation: op,
                submitted_at: 0,
                data,
                status: RequestStatus::Pending,
            }),
            final(self).device_id == old(self).device_id,
            final(self).recovery_policy == old(self).recovery_policy,
            final(self).failure_count == old(self).failure_count,
            final(self).is_paused == old(self).is_paused,
            final(self).saved_state == old(self).saved_state,
            final(self).last_failure_time == old(self).last_failure_time,
            final(self).last_error == old(self).last_error,
    {
        let id = self.next_request_id;
        self.next_request_id = self.next_request_id + 1;
        let request = PendingRequest {
            id,
            operation: op,
            submitted_at: 0,
            data,
            status: RequestStatus::Pending,
        };
        self.pending_requests.push(request);
        id
    }

    /// Marks the first request with `id` completed and removes the completed
    /// requests from the queue.
    pub fn complete_request(&mut self, id: u64)
        ensures
            final(self).pending_requests@ == complete_in(old(self).pending_requests@, id),
            final(self).device_id == old(self).device_id,
            final(self).next_id() == old(self).next_id(),
            final(self).recovery_policy == old(self).recovery_policy,
            final(self).failure_count == old(self).failure_count,
            final(self).is_paused == old(self).is_paused,
            final(self).saved_state == old(self).saved_state,
            final(self).last_failure_time == old(self).last_failure_time,
            final(self).last_error == old(self).last_error,
    {
        let ghost orig = self.pending_requests@;
        let mut rest: Vec<PendingRequest> = Vec::new();
        std::mem::swap(&mut rest, &mut self.pending_requests);
        let mut kept: Vec<PendingRequest> = Vec::new();
        let mut marked = false;
        while rest.len() > 0
            invariant
                kept@ + (if marked { drop_completed(rest@) } else { complete_in(rest@, id) })
                    == complete_in(orig, id),
            decreases rest@.len(),
        {
            let ghost before = rest@;
            let r = rest.remove(0);
            assert(rest@ =~= before.drop_first());
            if !marked && r.id == id {
                marked = true;
            } else if r.status == RequestStatus::Completed {
            } else {
                let ghost k0 = kept@;
                kept.push(r);
                assert(kept@ =~= k0 + seq![before[0]]);
                assert(k0 + seq![before[0]] + (if marked { drop_completed(rest@) } else { complete_in(rest@, id) })
                    =~= k0 + (seq![before[0]] + (if marked { drop_completed(rest@) } else { complete_in(rest@, id) })));
            }
        }
        assert(kept@ =~= complete_in(orig, id));
        self.pending_requests = kept;
    }

    /// Pauses every pending or in-progress request.
    pub fn pause_all(&mut self)
        ensures
            final(self).is_paused,
            final(self).pending_requests@.len() == old(self).pending_requests@.len(),
            forall|k: int| 0 <= k < old(self).pending_requests@.len() ==>
                #[trigger] final(self).pending_requests@[k] == with_status(old(self).pending_requests@[k],
                    paused_status(old(self).pending_requests@[k].status)),
            final(self).device_id == old(self).device_id,
            final(self).next_id() == old(self).next_id(),
            final(self).recovery_policy == old(self).recovery_policy,
            final(self).failure_count == old(self).failure_count,
            final(self).last_error == old(self).last_error,
            final(self).last_failure_time == old(self).last_failure_time,
            final(self).saved_state == old(self).saved_state,
    {
        self.is_paused = true;
        let ghost orig = old(self).pending_requests@;
        let mut i: usize = 0;
        while i < self.pending_requests.len()
            invariant
                0 <= i <= self.pending_requests@.len(),
                self.pending_requests@.len() == orig.len(),
                self.is_paused,
                self.device_id == old(self).device_id,
                self.next_request_id == old(self).next_request_id,
                self.recovery_policy == old(self).recovery_policy,
                self.failure_count == old(self).failure_count,
                self.last_error == old(self).last_error,
                self.last_failure_time == old(self).last_failure_time,
                self.saved_state == old(self).saved_state,
                forall|k: int| 0 <= k < i ==> #[trigger] self.pending_requests@[k] == with_status(orig[k], paused_status(orig[k].status)),
                forall|k: int| i <= k < orig.len() ==> #[trigger] self.pending_requests@[k] == orig[k],
            decreases orig.len() - i,
        {
            let st = self.pending_requests[i].status;
            if st == RequestStatus::Pending || st == RequestStatus::InProgress {
                self.pending_requests[i].status = RequestStatus::Paused;
            }
            i = i + 1;
        }
    }

    /// Resumes every paused request.
    pub fn resume_all(&mut self)
        ensures
            !final(self).is_paused,
            final(self).pending_requests@.len() == old(self).pending_requests@.len(),
            forall|k: int| 0 <= k < old(self).pending_requests@.len() ==>
                #[trigger] final(self).pending_requests@[k] == with_status(old(self).pending_requests@[k],
                    resumed_status(old(self).pending_requests@[k].status)),
            final(self).device_id == old(self).device_id,
            final(self).next_id() == old(self).next_id(),
            final(self).recovery_policy == old(self).recovery_policy,
            final(self).failure_count == old(self).failure_count,
            final(self).last_error == old(self).last_error,
            final(self).last_failure_time == old(self).last_failure_time,
            final(self).saved_state == old(self).saved_state,
    {
        self.is_paused = false;
        let ghost orig = old(self).pending_requests@;
        let mut i: usize = 0;
        while i < self.pending_requests.len()
            invariant
                0 <= i <= self.pending_requests@.len(),
                self.pending_requests@.len() == orig.len(),
                !self.is_paused,
                self.device_id == old(self).device_id,
                self.next_request_id == old(self).next_request_id,
                self.recovery_policy == old(self).recovery_policy,
                self.failure_count == old(self).failure_count,
                self.last_error == old(self).last_error,
                self.last_failure_time == old(self).last_failure_time,
                self.saved_state == old(self).saved_state,
                forall|k: int| 0 <= k < i ==> #[trigger] self.pending_requests@[k] == with_status(orig[k], resumed_status(orig[k].status)),
                forall|k: int| i <= k < orig.len() ==> #[trigger] self.pending_requests@[k] == orig[k],
            decreases orig.len() - i,
        {
            if self.pending_requests[i].status == RequestStatus::Paused {
                self.pending_requests[i].status = RequestStatus::Pending;
            }
            i = i + 1;
        }
    }

    /// Drops every pending request.
    pub fn drop_all(&mut self)
        ensures
            final(self).pending_requests@.len() == 0,
            final(self).device_id == old(self).device_id,
            final(self).next_id() == old(self).next_id(),
            final(self).recovery_policy == old(self).recovery_policy,
            final(self).failure_count == old(self).failure_count,
            final(self).is_paused == old(self).is_paused,
            final(self).last_error == old(self).last_error,
            final(self).last_failure_time == old(self).last_failure_time,
            final(self).saved_state == old(self).saved_state,
    {
        self.pending_requests.clear();
    }

    /// Records a failure: one more failure, and `err` as the last error.
    pub fn record_failure(&mut self, err: DriverError)
        requires
            old(self).failure_count < u32::MAX,
        ensures
            final(self).failure_count == old(self).failure_count + 1,
            final(self).last_error == Some(err),
            final(self).last_failure_time == 0,
            final(self).pending_requests@ == old(self).pending_requests@,
            final(self).device_id == old(self).device_id,
            final(self).next_id() == old(self).next_id(),
            final(self).recovery_policy == old(self).recovery_policy,
            final(self).is_paused == old(self).is_paused,
            final(self).saved_state == old(self).saved_state,
    {
        self.failure_count = self.failure_count + 1;
        self.last_error = Some(err);
        self.last_failure_time = 0;
    }

    /// Clears the failure record after a successful recovery.
    pub fn reset_failures(&mut self)
        ensures
            final(self).failure_count == 0,
            final(self).last_error.is_none(),
            final(self).pending_requests@ == old(self).pending_requests@,
            final(self).device_id == old(self).device_id,
            final(self).next_id() == old(self).next_id(),
            final(self).recovery_policy == old(self).recovery_policy,
            final(self).is_paused == old(self).is_paused,
            final(self).saved_state == old(self).saved_state,
            final(self).last_failure_time == old(self).last_failure_time,
    {
        self.failure_count = 0;
        self.last_error = None;
    }

    /// Saves the driver's state.
    pub fn save_state(&mut self, state: Vec<u8>)
        ensures
            final(self).saved_state == Some(state),
            final(self).pending_requests@ == old(self).pending_requests@,
            final(self).device_id == old(self).device_id,
            final(self).next_id() == old(self).next_id(),
            final(self).failure_count == old(self).failure_count,
    {
        self.saved_state = Some(state);
    }

    /// Takes the saved state out of the context.
    pub fn restore_state(&mut self) -> (r: Option<Vec<u8>>)
        ensures
            r == old(self).saved_state,
            final(self).saved_state.is_none(),
            final(self).pending_requests@ == old(self).pending_requests@,
            final(self).device_id == old(self).device_id,
            final(self).next_id() == old(self).next_id(),
            final(self).failure_count == old(self).failure_count,
    {
        self.saved_state.take()
    }

    /// Number of queued requests.
    pub fn pending_count(&self) -> (n: usize)
        ensures
            n == self.pending_requests@.len(),
    {
        self.pending_requests.len()
    }
}

/// Applies the context's recovery policy to a failure: the failure is
/// recorded, then requests are paused (`PauseAndRetry`), dropped
/// (`DropAndNotify`, `CriticalFallback`) or left alone (`Immediate`).
pub fn apply_recovery_policy(ctx: &mut DriverContext, err: DriverError)
    requires
        old(ctx).failure_count < u32::MAX,
    ensures
        final(ctx).failure_count == old(ctx).failure_count + 1,
        final(ctx).last_error == Some(err),
        final(ctx).device_id == old(ctx).device_id,
        final(ctx).recovery_policy == old(ctx).recovery_policy,
        final(ctx).next_id() == old(ctx).next_id(),
        final(ctx).last_failure_time == 0,
        final(ctx).saved_state == old(ctx).saved_state,
        match old(ctx).recovery_policy {
            RecoveryPolicy::PauseAndRetry => {
                &&& final(ctx).is_paused
                &&& final(ctx).pending_requests@.len() == old(ctx).pending_requests@.len()
                &&& forall|k: int| 0 <= k < old(ctx).pending_requests@.len() ==>
                    #[trigger] final(ctx).pending_requests@[k] == with_status(old(ctx).pending_requests@[k],
                        paused_status(old(ctx).pending_requests@[k].status))
            },
            RecoveryPolicy::DropAndNotify | RecoveryPolicy::CriticalFallback => {
                &&& final(ctx).pending_requests@.len() == 0
                &&& final(ctx).is_paused == old(ctx).is_paused
            },
            RecoveryPolicy::Immediate => {
                &&& final(ctx).pending_requests@ == old(ctx).pending_requests@
                &&& final(ctx).is_paused == old(ctx).is_paused
            },
        },
{
    ctx.record_failure(err);
    match ctx.recovery_policy {
        RecoveryPolicy::PauseAndRetry => {
            ctx.pause_all();
        },
        RecoveryPolicy::DropAndNotify => {
            ctx.drop_all();
        },
        RecoveryPolicy::CriticalFallback => {
            ctx.drop_all();
        },
        RecoveryPolicy::Immediate => {},
    }
}

/// Pausing then resuming brings every pending, in-progress or paused
/// request back to `Pending` and leaves every other request as it was.
pub proof fn lemma_resume_undoes_pause(s: RequestStatus)
    ensures
        resumed_status(paused_status(s)) == (if s == RequestStatus::Pending || s == RequestStatus::InProgress
            || s == RequestStatus::Paused {
            RequestStatus::Pending
        } else {
            s
        }),
{
}

/// Request ids stay unique: every queued id is below the next id, so a new
/// request's id is held by no queued request.
pub proof fn lemma_enqueue_fresh_id(ctx: DriverContext, k: int)
    requires
        ctx.ids_below_next(),
        0 <= k < ctx.pending_requests@.len(),
    ensures
        ctx.pending_requests@[k].id != ctx.next_id(),
{
}

} // verus!
