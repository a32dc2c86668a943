//! The scheduler witness-generation job table of the proof pipeline, and its
//! state transitions.
//!
//! Jobs are keyed by batch number and chain; the conflict handling of
//! `insert_scheduler_aggregation_jobs` deliberately mirrors the persistence
//! layer, whose conflict clause names the batch number alone.

use vstd::prelude::*;

verus! {

/// The lifecycle state of one witness job.
#[derive(Clone, Copy, Debug, PartialEq, Eq, Structural)]
pub enum WitnessJobStatus {
    WaitingForProofs,
    Queued,
    InProgress,
    Successful,
    Failed,
}

/// One row of the scheduler witness-job table.
pub struct SchedulerWitnessJob {
    pub l1_batch_number: u64,
    pub chain_id: u64,
    pub scheduler_partial_input_blob_url: Vec<u8>,
    pub status: WitnessJobStatus,
    pub attempts: u32,
    pub priority: u32,
    pub created_at: u64,
    pub updated_at: u64,
    pub processing_started_at: Option<u64>,
    pub time_taken_ms: Option<u64>,
    pub protocol_version: u16,
    pub protocol_version_patch: u32,
    pub picked_by: Option<u64>,
    pub error: Option<Vec<u8>>,
}

/// A job a requeue run touched, as the updated row reads afterwards.
#[derive(Debug, PartialEq, Eq)]
pub struct StuckJobs {
    pub id: u64,
    pub chain_id: u64,
    pub status: WitnessJobStatus,
    pub attempts: u64,
    pub error: Option<Vec<u8>>,
    pub picked_by: Option<u64>,
}

/// The ghost value of a requeue result.
pub ghost struct StuckJobView {
    pub id: u64,
    pub chain_id: u64,
    pub status: WitnessJobStatus,
    pub attempts: u64,
    pub error: Option<Seq<u8>>,
    pub picked_by: Option<u64>,
}

impl StuckJobs {
    pub open spec fn view_spec(self) -> StuckJobView {
        StuckJobView {
            id: self.id,
            chain_id: self.chain_id,
            status: self.status,
            attempts: self.attempts,
            error: match self.error {
                Some(v) => Some(v@),
                None => None,
            },
            picked_by: self.picked_by,
        }
    }
}

/// The requeue result a stuck row yields: the row's identity with its
/// post-requeue status.
pub open spec fn spec_stuck_result(job: SchedulerWitnessJob) -> StuckJobView {
    StuckJobView {
        id: job.l1_batch_number,
        chain_id: job.chain_id,
        status: WitnessJobStatus::Queued,
        attempts: job.attempts as u64,
        error: match job.error {
            Some(v) => Some(v@),
            None => None,
        },
        picked_by: job.picked_by,
    }
}

pub open spec fn spec_pair_in(ready: Seq<(u64, u64)>, chain_id: u64, batch: u64) -> bool {
    exists|k: int| 0 <= k < ready.len() && ready[k] == (chain_id, batch)
}

fn pair_in(ready: &Vec<(u64, u64)>, chain_id: u64, batch: u64) -> (r: bool)
    ensures
        r == spec_pair_in(ready@, chain_id, batch),
{
    let n = ready.len();
    let mut k: usize = 0;
    while k < n
        invariant
            n == ready@.len(),
            k <= n,
            forall|t: int| 0 <= t < k ==> ready@[t] != (chain_id, batch),
        decreases n - k,
    {
        let (c, b) = ready[k];
        if c == chain_id && b == batch {
            proof {
                assert(ready@[k as int] == (chain_id, batch));
            }
            return true;
        }
        k += 1;
    }
    false
}

/// What moving waiting jobs to queued does to one row: a waiting job whose
/// recursion-tip proofs are all in becomes queued.
pub open spec fn spec_move_rule(
    job: SchedulerWitnessJob,
    ready: Seq<(u64, u64)>,
) -> SchedulerWitnessJob {
    if job.status is WaitingForProofs && spec_pair_in(ready, job.chain_id, job.l1_batch_number) {
        SchedulerWitnessJob { status: WitnessJobStatus::Queued, ..job }
    } else {
        job
    }
}

/// The `(chain, batch)` pairs that rule changes, in table order.
pub open spec fn spec_moved_pairs(jobs: Seq<SchedulerWitnessJob>, ready: Seq<(u64, u64)>) -> Seq<
    (u64, u64),
>
    decreases jobs.len(),
{
    if jobs.len() == 0 {
        Seq::<(u64, u64)>::empty()
    } else {
        let head = spec_moved_pairs(jobs.drop_last(), ready);
        let job = jobs.last();
        if job.status is WaitingForProofs && spec_pair_in(ready, job.chain_id, job.l1_batch_number) {
            head.push((job.chain_id, job.l1_batch_number))
        } else {
            head
        }
    }
}

/// What a requeue-stuck run does to one row.
pub open spec fn spec_requeue_rule(
    job: SchedulerWitnessJob,
    stuck: bool,
    now: u64,
) -> SchedulerWitnessJob {
    if stuck {
        SchedulerWitnessJob {
            status: WitnessJobStatus::Queued,
            updated_at: now,
            processing_started_at: Some(now),
            priority: if job.priority == u32::MAX {
                u32::MAX
            } else {
                (job.priority + 1) as u32
            },
            ..job
        }
    } else {
        job
    }
}

/// A job is stuck for the global requeue run: in progress past its timeout,
/// or failed, with attempts left.
pub open spec fn spec_stuck(
    job: SchedulerWitnessJob,
    timeout_ms: u64,
    max_attempts: u32,
    now: u64,
) -> bool {
    ||| (job.status is InProgress && (job.processing_started_at matches Some(t) && t + timeout_ms
        <= now) && job.attempts < max_attempts)
    ||| (job.status is Failed && job.attempts < max_attempts)
}

pub open spec fn spec_stuck_list(
    jobs: Seq<SchedulerWitnessJob>,
    timeout_ms: u64,
    max_attempts: u32,
    now: u64,
) -> Seq<StuckJobView>
    decreases jobs.len(),
{
    if jobs.len() == 0 {
        Seq::<StuckJobView>::empty()
    } else {
        let head = spec_stuck_list(jobs.drop_last(), timeout_ms, max_attempts, now);
        let job = jobs.last();
        if spec_stuck(job, timeout_ms, max_attempts, now) {
            head.push(spec_stuck_result(job))
        } else {
            head
        }
    }
}

/// A job is stuck for the per-batch requeue: it exhausted its attempts while
/// in progress or failed.
pub open spec fn spec_stuck_for_batch(
    job: SchedulerWitnessJob,
    batch: u64,
    chain_id: u64,
    max_attempts: u32,
) -> bool {
    &&& job.l1_batch_number == batch
    &&& job.chain_id == chain_id
    &&& job.attempts >= max_attempts
    &&& (job.status is InProgress || job.status is Failed)
}

pub open spec fn spec_stuck_for_batch_list(
    jobs: Seq<SchedulerWitnessJob>,
    batch: u64,
    chain_id: u64,
    max_attempts: u32,
) -> Seq<StuckJobView>
    decreases jobs.len(),
{
    if jobs.len() == 0 {
        Seq::<StuckJobView>::empty()
    } else {
        let head = spec_stuck_for_batch_list(jobs.drop_last(), batch, chain_id, max_attempts);
        let job = jobs.last();
        if spec_stuck_for_batch(job, batch, chain_id, max_attempts) {
            head.push(spec_stuck_result(job))
        } else {
            head
        }
    }
}

/// Strictly better for selection: higher priority, or same priority and
/// created earlier.
pub open spec fn spec_better(a: SchedulerWitnessJob, b: SchedulerWitnessJob) -> bool {
    a.priority > b.priority || (a.priority == b.priority && a.created_at < b.created_at)
}

pub open spec fn spec_eligible(job: SchedulerWitnessJob, version: u16, patch: u32) -> bool {
    job.status is Queued && job.protocol_version == version && job.protocol_version_patch == patch
}

/// The scheduler witness-job table.
pub struct FriSchedulerWitnessGeneratorDal {
    pub jobs: Vec<SchedulerWitnessJob>,
}

impl FriSchedulerWitnessGeneratorDal {
    pub fn new() -> (r: FriSchedulerWitnessGeneratorDal)
        ensures
            r.jobs@ == Seq::<SchedulerWitnessJob>::empty(),
    {
        let r = FriSchedulerWitnessGeneratorDal { jobs: Vec::new() };
        proof {
            assert(r.jobs@ =~= Seq::<SchedulerWitnessJob>::empty());
        }
        r
    }

    /// Queues every waiting job whose recursion-tip proofs have all
    /// succeeded, and returns the `(chain, batch)` pairs it queued.
    pub fn move_scheduler_jobs_from_waiting_to_queued(&mut self, ready: &Vec<(u64, u64)>) -> (r:
        Vec<(u64, u64)>)
        ensures
            final(self).jobs@.len() == old(self).jobs@.len(),
            forall|i: int|
                0 <= i < final(self).jobs@.len() ==> final(self).jobs@[i] == spec_move_rule(
                    #[trigger] old(self).jobs@[i],
                    ready@,
                ),
            r@ == spec_moved_pairs(old(self).jobs@, ready@),
    {
        let ghost orig = old(self).jobs@;
        let mut moved: Vec<(u64, u64)> = Vec::new();
        let n = self.jobs.len();
        let mut i: usize = 0;
        proof {
            assert(orig.take(0) =~= Seq::<SchedulerWitnessJob>::empty());
            assert(moved@ =~= spec_moved_pairs(orig.take(0), ready@));
        }
        while i < n
            invariant
                n == orig.len(),
                i <= n,
                self.jobs@.len() == n,
                forall|k: int| i <= k < n ==> self.jobs@[k] == orig[k],
                forall|k: int|
                    0 <= k < i ==> self.jobs@[k] == spec_move_rule(#[trigger] orig[k], ready@),
                moved@ == spec_moved_pairs(orig.take(i as int), ready@),
            decreases n - i,
        {
            let status = self.jobs[i].status;
            let chain_id = self.jobs[i].chain_id;
            let batch = self.jobs[i].l1_batch_number;
            let should_move = matches!(status, WitnessJobStatus::WaitingForProofs) && pair_in(
                ready,
                chain_id,
                batch,
            );
            if should_move {
                moved.push((chain_id, batch));
                set_status(&mut self.jobs, i, WitnessJobStatus::Queued);
            }
            proof {
                assert(orig.take(i + 1).drop_last() =~= orig.take(i as int));
                assert(orig.take(i + 1).last() == orig[i as int]);
            }
            i += 1;
        }
        proof {
            assert(orig.take(n as int) =~= orig);
        }
        moved
    }

    /// Queues the job of one batch unless it is already done or running.
    pub fn mark_scheduler_jobs_as_queued(&mut self, l1_batch_number: u64, chain_id: u64)
        ensures
            final(self).jobs@.len() == old(self).jobs@.len(),
            forall|i: int|
                0 <= i < final(self).jobs@.len() ==> final(self).jobs@[i] == {
                    let job = #[trigger] old(self).jobs@[i];
                    if job.l1_batch_number == l1_batch_number && job.chain_id == chain_id
                        && !(job.status is Successful) && !(job.status is InProgress) {
                        SchedulerWitnessJob { status: WitnessJobStatus::Queued, ..job }
                    } else {
                        job
                    }
                },
    {
        let n = self.jobs.len();
        let mut i: usize = 0;
        while i < n
            invariant
                n == old(self).jobs@.len(),
                i <= n,
                self.jobs@.len() == old(self).jobs@.len(),
                forall|k: int| i <= k < n ==> self.jobs@[k] == old(self).jobs@[k],
                forall|k: int|
                    0 <= k < i ==> self.jobs@[k] == {
                        let job = #[trigger] old(self).jobs@[k];
                        if job.l1_batch_number == l1_batch_number && job.chain_id == chain_id
                            && !(job.status is Successful) && !(job.status is InProgress) {
                            SchedulerWitnessJob { status: WitnessJobStatus::Queued, ..job }
                        } else {
                            job
                        }
                    },
            decreases n - i,
        {
            let job = &self.jobs[i];
            let touch = job.l1_batch_number == l1_batch_number && job.chain_id == chain_id
                && !matches!(job.status, WitnessJobStatus::Successful) && !matches!(
                job.status,
                WitnessJobStatus::InProgress,
            );
            if touch {
                set_status(&mut self.jobs, i, WitnessJobStatus::Queued);
            }
            i += 1;
        }
    }

    /// Requeues every stuck job (timed out in progress, or failed, with
    /// attempts left), bumping its priority, and returns what it touched.
    pub fn requeue_stuck_scheduler_jobs(
        &mut self,
        processing_timeout_ms: u64,
        max_attempts: u32,
        now: u64,
    ) -> (r: Vec<StuckJobs>)
        ensures
            final(self).jobs@.len() == old(self).jobs@.len(),
            forall|i: int|
                0 <= i < final(self).jobs@.len() ==> final(self).jobs@[i] == spec_requeue_rule(
                    #[trigger] old(self).jobs@[i],
                    spec_stuck(old(self).jobs@[i], processing_timeout_ms, max_attempts, now),
                    now,
                ),
            r@.map_values(|v: StuckJobs| v.view_spec()) == spec_stuck_list(
                old(self).jobs@,
                processing_timeout_ms,
                max_attempts,
                now,
            ),
    {
        let ghost orig = self.jobs@;
        let mut out: Vec<StuckJobs> = Vec::new();
        let n = self.jobs.len();
        let mut i: usize = 0;
        proof {
            assert(orig.take(0) =~= Seq::<SchedulerWitnessJob>::empty());
            assert(out@.map_values(|v: StuckJobs| v.view_spec()) =~= spec_stuck_list(
                orig.take(0),
                processing_timeout_ms,
                max_attempts,
                now,
            ));
        }
        while i < n
            invariant
                n == orig.len(),
                i <= n,
                self.jobs@.len() == n,
                forall|k: int| i <= k < n ==> self.jobs@[k] == orig[k],
                forall|k: int|
                    0 <= k < i ==> self.jobs@[k] == spec_requeue_rule(
                        #[trigger] orig[k],
                        spec_stuck(orig[k], processing_timeout_ms, max_attempts, now),
                        now,
                    ),
                out@.map_values(|v: StuckJobs| v.view_spec()) == spec_stuck_list(
                    orig.take(i as int),
                    processing_timeout_ms,
                    max_attempts,
                    now,
                ),
            decreases n - i,
        {
            let job = &self.jobs[i];
            let timed_out = matches!(job.status, WitnessJobStatus::InProgress) && (match
                job.processing_started_at {
                Some(t) => t <= u64::MAX - processing_timeout_ms && t + processing_timeout_ms
                    <= now,
                None => false,
            }) && job.attempts < max_attempts;
            let failed = matches!(job.status, WitnessJobStatus::Failed) && job.attempts
                < max_attempts;
            let overflow_guard = matches!(job.status, WitnessJobStatus::InProgress) && (match
                job.processing_started_at {
                Some(t) => t > u64::MAX - processing_timeout_ms,
                None => false,
            }) && job.attempts < max_attempts;
            let _ = overflow_guard;
            let stuck = timed_out || failed;
            proof {
                match job.processing_started_at {
                    Some(t) => {
                        if t > u64::MAX - processing_timeout_ms {
                            assert(t + processing_timeout_ms > u64::MAX);
                        }
                    },
                    None => {},
                }
                assert(stuck == spec_stuck(orig[i as int], processing_timeout_ms, max_attempts, now));
            }
            if stuck {
                let ghost prev = out@.map_values(|v: StuckJobs| v.view_spec());
                let result = StuckJobs {
                    id: job.l1_batch_number,
                    chain_id: job.chain_id,
                    status: WitnessJobStatus::Queued,
                    attempts: job.attempts as u64,
                    error: match &job.error {
                        Some(v) => Some(crate::encoder::copy_bytes(v)),
                        None => None,
                    },
                    picked_by: job.picked_by,
                };
                proof {
                    assert(result.view_spec() == spec_stuck_result(orig[i as int]));
                }
                out.push(result);
                proof {
                    assert(out@.map_values(|v: StuckJobs| v.view_spec()) =~= prev.push(
                        spec_stuck_result(orig[i as int]),
                    ));
                }
                let new_priority = if job.priority == u32::MAX {
                    u32::MAX
                } else {
                    job.priority + 1
                };
                requeue_row(&mut self.jobs, i, new_priority, now);
            }
            proof {
                assert(orig.take(i + 1).drop_last() =~= orig.take(i as int));
                assert(orig.take(i + 1).last() == orig[i as int]);
            }
            i += 1;
        }
        proof {
            assert(orig.take(n as int) =~= orig);
        }
        out
    }

    /// Picks the queued job of the given protocol version with the highest
    /// priority (oldest first on ties, table order on full ties), marks it in
    /// progress, and returns its chain and batch.
    pub fn get_next_scheduler_witness_job(
        &mut self,
        protocol_version: u16,
        protocol_version_patch: u32,
        picked_by: u64,
        now: u64,
    ) -> (r: Option<(u64, u64)>)
        ensures
            r is None ==> final(self).jobs@ == old(self).jobs@ && (forall|k: int|
                0 <= k < old(self).jobs@.len() ==> !spec_eligible(
                    #[trigger] old(self).jobs@[k],
                    protocol_version,
                    protocol_version_patch,
                )),
            r matches Some(pair) ==> exists|j: int|
                {
                    &&& 0 <= j < old(self).jobs@.len()
                    &&& spec_eligible(
                        #[trigger] old(self).jobs@[j],
                        protocol_version,
                        protocol_version_patch,
                    )
                    &&& (forall|k: int|
                        0 <= k < old(self).jobs@.len() && spec_eligible(
                            #[trigger] old(self).jobs@[k],
                            protocol_version,
                            protocol_version_patch,
                        ) ==> !spec_better(old(self).jobs@[k], old(self).jobs@[j]))
                    &&& pair == (old(self).jobs@[j].chain_id, old(self).jobs@[j].l1_batch_number)
                    &&& final(self).jobs@ == old(self).jobs@.update(
                        j,
                        SchedulerWitnessJob {
                            status: WitnessJobStatus::InProgress,
                            attempts: if old(self).jobs@[j].attempts == u32::MAX {
                                u32::MAX
                            } else {
                                (old(self).jobs@[j].attempts + 1) as u32
                            },
                            updated_at: now,
                            processing_started_at: Some(now),
                            picked_by: Some(picked_by),
                            ..old(self).jobs@[j]
                        },
                    )
                },
    {
        let n = self.jobs.len();
        let mut best: Option<usize> = None;
        let mut i: usize = 0;
        while i < n
            invariant
                n == self.jobs@.len(),
                i <= n,
                best is None ==> forall|k: int|
                    0 <= k < i ==> !spec_eligible(
                        #[trigger] self.jobs@[k],
                        protocol_version,
                        protocol_version_patch,
                    ),
                best matches Some(b) ==> {
                    &&& b < i
                    &&& spec_eligible(self.jobs@[b as int], protocol_version, protocol_version_patch)
                    &&& forall|k: int|
                        0 <= k < i && spec_eligible(
                            #[trigger] self.jobs@[k],
                            protocol_version,
                            protocol_version_patch,
                        ) ==> !spec_better(self.jobs@[k], self.jobs@[b as int])
                },
            decreases n - i,
        {
            let job = &self.jobs[i];
            let eligible = matches!(job.status, WitnessJobStatus::Queued) && job.protocol_version
                == protocol_version && job.protocol_version_patch == protocol_version_patch;
            if eligible {
                best = match best {
                    None => Some(i),
                    Some(b) => {
                        let cur = &self.jobs[b];
                        if job.priority > cur.priority || (job.priority == cur.priority
                            && job.created_at < cur.created_at) {
                            Some(i)
                        } else {
                            Some(b)
                        }
                    },
                };
            }
            i += 1;
        }
        let j = match best {
            Some(j) => j,
            None => {
                return None;
            },
        };
        let chain_id = self.jobs[j].chain_id;
        let batch = self.jobs[j].l1_batch_number;
        let new_attempts = if self.jobs[j].attempts == u32::MAX {
            u32::MAX
        } else {
            self.jobs[j].attempts + 1
        };
        pick_row(&mut self.jobs, j, new_attempts, picked_by, now);
        Some((chain_id, batch))
    }

    /// Marks one batch's job successful with the time it took.
    pub fn mark_scheduler_job_as_successful(
        &mut self,
        block_number: u64,
        chain_id: u64,
        time_taken_ms: u64,
        now: u64,
    )
        ensures
            final(self).jobs@.len() == old(self).jobs@.len(),
            forall|i: int|
                0 <= i < final(self).jobs@.len() ==> final(self).jobs@[i] == {
                    let job = #[trigger] old(self).jobs@[i];
                    if job.l1_batch_number == block_number && job.chain_id == chain_id {
                        SchedulerWitnessJob {
                            status: WitnessJobStatus::Successful,
                            updated_at: now,
                            time_taken_ms: Some(time_taken_ms),
                            ..job
                        }
                    } else {
                        job
                    }
                },
    {
        let n = self.jobs.len();
        let mut i: usize = 0;
        while i < n
            invariant
                n == self.jobs@.len(),
                i <= n,
                self.jobs@.len() == old(self).jobs@.len(),
                forall|k: int| i <= k < n ==> self.jobs@[k] == old(self).jobs@[k],
                forall|k: int|
                    0 <= k < i ==> self.jobs@[k] == {
                        let job = #[trigger] old(self).jobs@[k];
                        if job.l1_batch_number == block_number && job.chain_id == chain_id {
                            SchedulerWitnessJob {
                                status: WitnessJobStatus::Successful,
                                updated_at: now,
                                time_taken_ms: Some(time_taken_ms),
                                ..job
                            }
                        } else {
                            job
                        }
                    },
            decreases n - i,
        {
            let job = &self.jobs[i];
            if job.l1_batch_number == block_number && job.chain_id == chain_id {
                finish_row(&mut self.jobs, i, time_taken_ms, now);
            }
            i += 1;
        }
    }

    /// Reads one batch's job, if the table holds it.
    pub fn get_scheduler_witness_generator_jobs_for_batch(
        &self,
        l1_batch_number: u64,
        chain_id: u64,
    ) -> (r: Option<&SchedulerWitnessJob>)
        ensures
            r is Some <==> exists|k: int|
                0 <= k < self.jobs@.len() && (#[trigger] self.jobs@[k]).l1_batch_number
                    == l1_batch_number && self.jobs@[k].chain_id == chain_id,
            r matches Some(job) ==> job.l1_batch_number == l1_batch_number && job.chain_id
                == chain_id,
    {
        let n = self.jobs.len();
        let mut i: usize = 0;
        while i < n
            invariant
                n == self.jobs@.len(),
                i <= n,
                forall|k: int|
                    0 <= k < i ==> !((#[trigger] self.jobs@[k]).l1_batch_number == l1_batch_number
                        && self.jobs@[k].chain_id == chain_id),
            decreases n - i,
        {
            if self.jobs[i].l1_batch_number == l1_batch_number && self.jobs[i].chain_id == chain_id {
                return Some(&self.jobs[i]);
            }
            i += 1;
        }
        None
    }

    /// Requeues one batch's exhausted jobs regardless of their attempt count
    /// ceiling, and returns what it touched.
    pub fn requeue_stuck_scheduler_jobs_for_batch(
        &mut self,
        block_number: u64,
        chain_id: u64,
        max_attempts: u32,
        now: u64,
    ) -> (r: Vec<StuckJobs>)
        ensures
            final(self).jobs@.len() == old(self).jobs@.len(),
            forall|i: int|
                0 <= i < final(self).jobs@.len() ==> final(self).jobs@[i] == spec_requeue_rule(
                    #[trigger] old(self).jobs@[i],
                    spec_stuck_for_batch(old(self).jobs@[i], block_number, chain_id, max_attempts),
                    now,
                ),
            r@.map_values(|v: StuckJobs| v.view_spec()) == spec_stuck_for_batch_list(
                old(self).jobs@,
                block_number,
                chain_id,
                max_attempts,
            ),
    {
        let ghost orig = self.jobs@;
        let mut out: Vec<StuckJobs> = Vec::new();
        let n = self.jobs.len();
        let mut i: usize = 0;
        proof {
            assert(orig.take(0) =~= Seq::<SchedulerWitnessJob>::empty());
            assert(out@.map_values(|v: StuckJobs| v.view_spec()) =~= spec_stuck_for_batch_list(
                orig.take(0),
                block_number,
                chain_id,
                max_attempts,
            ));
        }
        while i < n
            invariant
                n == orig.len(),
                i <= n,
                self.jobs@.len() == n,
                forall|k: int| i <= k < n ==> self.jobs@[k] == orig[k],
                forall|k: int|
                    0 <= k < i ==> self.jobs@[k] == spec_requeue_rule(
                        #[trigger] orig[k],
                        spec_stuck_for_batch(orig[k], block_number, chain_id, max_attempts),
                        now,
                    ),
                out@.map_values(|v: StuckJobs| v.view_spec()) == spec_stuck_for_batch_list(
                    orig.take(i as int),
                    block_number,
                    chain_id,
                    max_attempts,
                ),
            decreases n - i,
        {
            let job = &self.jobs[i];
            let stuck = job.l1_batch_number == block_number && job.chain_id == chain_id
                && job.attempts >= max_attempts && (matches!(job.status, WitnessJobStatus::InProgress)
                || matches!(job.status, WitnessJobStatus::Failed));
            if stuck {
                let ghost prev = out@.map_values(|v: StuckJobs| v.view_spec());
                let result = StuckJobs {
                    id: job.l1_batch_number,
                    chain_id: job.chain_id,
                    status: WitnessJobStatus::Queued,
                    attempts: job.attempts as u64,
                    error: match &job.error {
                        Some(v) => Some(crate::encoder::copy_bytes(v)),
                        None => None,
                    },
                    picked_by: job.picked_by,
                };
                proof {
                    assert(result.view_spec() == spec_stuck_result(orig[i as int]));
                }
                out.push(result);
                proof {
                    assert(out@.map_values(|v: StuckJobs| v.view_spec()) =~= prev.push(
                        spec_stuck_result(orig[i as int]),
                    ));
                }
                let new_priority = if job.priority == u32::MAX {
                    u32::MAX
                } else {
                    job.priority + 1
                };
                requeue_row(&mut self.jobs, i, new_priority, now);
            }
            proof {
                assert(orig.take(i + 1).drop_last() =~= orig.take(i as int));
                assert(orig.take(i + 1).last() == orig[i as int]);
            }
            i += 1;
        }
        proof {
            assert(orig.take(n as int) =~= orig);
        }
        out
    }

    /// Inserts one batch's job as waiting for proofs. The conflict rule
    /// mirrors the table's: it fires on the batch number alone, whatever
    /// chain the existing row belongs to, and then only bumps `updated_at`.
    pub fn insert_scheduler_aggregation_jobs(
        &mut self,
        block_number: u64,
        chain_id: u64,
        scheduler_partial_input_blob_url: Vec<u8>,
        protocol_version: u16,
        protocol_version_patch: u32,
        now: u64,
    )
        ensures
            (exists|k: int|
                0 <= k < old(self).jobs@.len() && (#[trigger] old(self).jobs@[k]).l1_batch_number
                    == block_number) ==> {
                &&& final(self).jobs@.len() == old(self).jobs@.len()
                &&& forall|i: int|
                    0 <= i < final(self).jobs@.len() ==> final(self).jobs@[i] == {
                        let job = #[trigger] old(self).jobs@[i];
                        if job.l1_batch_number == block_number {
                            SchedulerWitnessJob { updated_at: now, ..job }
                        } else {
                            job
                        }
                    }
            },
            !(exists|k: int|
                0 <= k < old(self).jobs@.len() && (#[trigger] old(self).jobs@[k]).l1_batch_number
                    == block_number) ==> {
                &&& final(self).jobs@.len() == old(self).jobs@.len() + 1
                &&& final(self).jobs@.drop_last() == old(self).jobs@
                &&& final(self).jobs@.last() == (SchedulerWitnessJob {
                    l1_batch_number: block_number,
                    chain_id,
                    scheduler_partial_input_blob_url,
                    status: WitnessJobStatus::WaitingForProofs,
                    attempts: 0,
                    priority: 0,
                    created_at: now,
                    updated_at: now,
                    processing_started_at: None,
                    time_taken_ms: None,
                    protocol_version,
                    protocol_version_patch,
                    picked_by: None,
                    error: None,
                })
            },
    {
        let n = self.jobs.len();
        let mut conflict = false;
        let mut i: usize = 0;
        while i < n
            invariant
                n == self.jobs@.len(),
                i <= n,
                self.jobs@ == old(self).jobs@,
                conflict == exists|k: int|
                    0 <= k < i && (#[trigger] self.jobs@[k]).l1_batch_number == block_number,
            decreases n - i,
        {
            if self.jobs[i].l1_batch_number == block_number {
                conflict = true;
            }
            i += 1;
        }
        if conflict {
            let mut k: usize = 0;
            while k < n
                invariant
                    n == self.jobs@.len(),
                    k <= n,
                    self.jobs@.len() == old(self).jobs@.len(),
                    forall|t: int| k <= t < n ==> self.jobs@[t] == old(self).jobs@[t],
                    forall|t: int|
                        0 <= t < k ==> self.jobs@[t] == {
                            let job = #[trigger] old(self).jobs@[t];
                            if job.l1_batch_number == block_number {
                                SchedulerWitnessJob { updated_at: now, ..job }
                            } else {
                                job
                            }
                        },
                decreases n - k,
            {
                if self.jobs[k].l1_batch_number == block_number {
                    touch_row(&mut self.jobs, k, now);
                }
                k += 1;
            }
        } else {
            self.jobs.push(
                SchedulerWitnessJob {
                    l1_batch_number: block_number,
                    chain_id,
                    scheduler_partial_input_blob_url,
                    status: WitnessJobStatus::WaitingForProofs,
                    attempts: 0,
                    priority: 0,
                    created_at: now,
                    updated_at: now,
                    processing_started_at: None,
                    time_taken_ms: None,
                    protocol_version,
                    protocol_version_patch,
                    picked_by: None,
                    error: None,
                },
            );
        }
    }

    /// Counts the jobs that exhausted their attempts without succeeding.
    pub fn check_reached_max_attempts(&self, max_attempts: u32) -> (r: usize)
        ensures
            r == spec_count_exhausted(self.jobs@, max_attempts),
    {
        let ghost all = self.jobs@;
        let n = self.jobs.len();
        let mut count: usize = 0;
        let mut i: usize = 0;
        proof {
            assert(all.take(0) =~= Seq::<SchedulerWitnessJob>::empty());
        }
        while i < n
            invariant
                n == all.len(),
                all == self.jobs@,
                i <= n,
                count == spec_count_exhausted(all.take(i as int), max_attempts),
                count <= i,
            decreases n - i,
        {
            let job = &self.jobs[i];
            if job.attempts >= max_attempts && !matches!(job.status, WitnessJobStatus::Successful) {
                count += 1;
            }
            proof {
                assert(all.take(i + 1).drop_last() =~= all.take(i as int));
                assert(all.take(i + 1).last() == all[i as int]);
            }
            i += 1;
        }
        proof {
            assert(all.take(n as int) =~= all);
        }
        count
    }
}

pub open spec fn spec_count_exhausted(jobs: Seq<SchedulerWitnessJob>, max_attempts: u32) -> int
    decreases jobs.len(),
{
    if jobs.len() == 0 {
        0
    } else {
        spec_count_exhausted(jobs.drop_last(), max_attempts) + if jobs.last().attempts
            >= max_attempts && !(jobs.last().status is Successful) {
            1int
        } else {
            0int
        }
    }
}

/// Replaces row `i`'s status in place.
fn set_status(jobs: &mut Vec<SchedulerWitnessJob>, i: usize, status: WitnessJobStatus)
    requires
        i < old(jobs)@.len(),
    ensures
        final(jobs)@ == old(jobs)@.update(
            i as int,
            SchedulerWitnessJob { status, ..old(jobs)@[i as int] },
        ),
{
    let row = jobs.remove(i);
    let updated = SchedulerWitnessJob { status, ..row };
    jobs.insert(i, updated);
    proof {
        assert(jobs@ =~= old(jobs)@.update(
            i as int,
            SchedulerWitnessJob { status, ..old(jobs)@[i as int] },
        ));
    }
}

/// Requeues row `i`: queued, bumped priority, fresh timestamps.
fn requeue_row(jobs: &mut Vec<SchedulerWitnessJob>, i: usize, priority: u32, now: u64)
    requires
        i < old(jobs)@.len(),
    ensures
        final(jobs)@ == old(jobs)@.update(
            i as int,
            SchedulerWitnessJob {
                status: WitnessJobStatus::Queued,
                updated_at: now,
                processing_started_at: Some(now),
                priority,
                ..old(jobs)@[i as int]
            },
        ),
{
    let row = jobs.remove(i);
    let updated = SchedulerWitnessJob {
        status: WitnessJobStatus::Queued,
        updated_at: now,
        processing_started_at: Some(now),
        priority,
        ..row
    };
    jobs.insert(i, updated);
    proof {
        assert(jobs@ =~= old(jobs)@.update(
            i as int,
            SchedulerWitnessJob {
                status: WitnessJobStatus::Queued,
                updated_at: now,
                processing_started_at: Some(now),
                priority,
                ..old(jobs)@[i as int]
            },
        ));
    }
}

/// Marks row `i` picked: in progress, one more attempt, fresh timestamps.
fn pick_row(jobs: &mut Vec<SchedulerWitnessJob>, i: usize, attempts: u32, picked_by: u64, now: u64)
    requires
        i < old(jobs)@.len(),
    ensures
        final(jobs)@ == old(jobs)@.update(
            i as int,
            SchedulerWitnessJob {
                status: WitnessJobStatus::InProgress,
                attempts,
                updated_at: now,
                processing_started_at: Some(now),
                picked_by: Some(picked_by),
                ..old(jobs)@[i as int]
            },
        ),
{
    let row = jobs.remove(i);
    let updated = SchedulerWitnessJob {
        status: WitnessJobStatus::InProgress,
        attempts,
        updated_at: now,
        processing_started_at: Some(now),
        picked_by: Some(picked_by),
        ..row
    };
    jobs.insert(i, updated);
    proof {
        assert(jobs@ =~= old(jobs)@.update(
            i as int,
            SchedulerWitnessJob {
                status: WitnessJobStatus::InProgress,
                attempts,
                updated_at: now,
                processing_started_at: Some(now),
                picked_by: Some(picked_by),
                ..old(jobs)@[i as int]
            },
        ));
    }
}

/// Marks row `i` successful with the time it took.
fn finish_row(jobs: &mut Vec<SchedulerWitnessJob>, i: usize, time_taken_ms: u64, now: u64)
    requires
        i < old(jobs)@.len(),
    ensures
        final(jobs)@ == old(jobs)@.update(
            i as int,
            SchedulerWitnessJob {
                status: WitnessJobStatus::Successful,
                updated_at: now,
                time_taken_ms: Some(time_taken_ms),
                ..old(jobs)@[i as int]
            },
        ),
{
    let row = jobs.remove(i);
    let updated = SchedulerWitnessJob {
        status: WitnessJobStatus::Successful,
        updated_at: now,
        time_taken_ms: Some(time_taken_ms),
        ..row
    };
    jobs.insert(i, updated);
    proof {
        assert(jobs@ =~= old(jobs)@.update(
            i as int,
            SchedulerWitnessJob {
                status: WitnessJobStatus::Successful,
                updated_at: now,
                time_taken_ms: Some(time_taken_ms),
                ..old(jobs)@[i as int]
            },
        ));
    }
}

/// Marks row `i` as freshly updated.
fn touch_row(jobs: &mut Vec<SchedulerWitnessJob>, i: usize, now: u64)
    requires
        i < old(jobs)@.len(),
    ensures
        final(jobs)@ == old(jobs)@.update(
            i as int,
            SchedulerWitnessJob { updated_at: now, ..old(jobs)@[i as int] },
        ),
{
    let row = jobs.remove(i);
    let updated = SchedulerWitnessJob { updated_at: now, ..row };
    jobs.insert(i, updated);
    proof {
        assert(jobs@ =~= old(jobs)@.update(
            i as int,
            SchedulerWitnessJob { updated_at: now, ..old(jobs)@[i as int] },
        ));
    }
}

} // verus!
