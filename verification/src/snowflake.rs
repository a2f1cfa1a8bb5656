//! The Snowflake generator: owns a datacenter id and a worker id, fixed at
//! construction, and the sequencing state (last issued timestamp, sequence
//! within that millisecond) that makes every issued identifier unique and
//! strictly increasing under a non-regressing clock.

use vstd::prelude::*;

verus! {

use crate::epoch::EpochRegister;
use crate::layout::MAX_DATACENTER_ID;
use crate::layout::MAX_SEQUENCE;
use crate::layout::MAX_TIMESTAMP_DELTA;
use crate::layout::MAX_WORKER_ID;
use crate::layout::lemma_id_monotonic;
use crate::layout::delta_of;
use crate::layout::pack_id;
use crate::layout::pack_spec;
use vstd::string::StringExecFns;

/// What can go wrong while configuring a generator or issuing an identifier.
#[derive(Clone, Debug, PartialEq, Eq)]
pub enum SnowflakeError {
    /// The sampled clock reads earlier than the generator's last recorded
    /// timestamp; no identifier is issued and the caller decides whether to
    /// retry.
    ClockBackwards,
    /// A construction argument is outside its allowed range; the message says
    /// which one.
    InvalidArgument(String),
    /// The lock guarding a shared generator was left inconsistent by an
    /// interrupted critical section. Never produced here: it is for hosts
    /// that share one generator across threads behind a lock.
    PoisonedLock,
}

impl SnowflakeError {
    /// A human-readable description of the error.
    pub fn message(&self) -> (m: String)
        ensures
            *self matches SnowflakeError::ClockBackwards ==> m@
                == "Clock moved backwards, time drift detected"@,
            *self matches SnowflakeError::InvalidArgument(msg) ==> m@ == "Invalid argument: "@
                + msg@,
            *self matches SnowflakeError::PoisonedLock ==> m@
                == "Mutex lock poisoned due to thread panic"@,
    {
        match self {
            SnowflakeError::ClockBackwards => "Clock moved backwards, time drift detected".to_owned(),
            SnowflakeError::InvalidArgument(msg) => {
                let mut m = "Invalid argument: ".to_owned();
                m.append(msg.as_str());
                m
            },
            SnowflakeError::PoisonedLock => "Mutex lock poisoned due to thread panic".to_owned(),
        }
    }

    /// The underlying cause of the error; these errors have none.
    pub fn source(&self) -> (r: Option<&SnowflakeError>)
        ensures
            r is None,
    {
        None
    }
}

/// Relies on std::time::SystemTime::now and
/// std::time::SystemTime::duration_since: the current wall-clock time in
/// milliseconds since the Unix epoch, or an error when the clock reads
/// earlier than the Unix epoch.
#[verifier::external_body]
fn current_timestamp() -> (r: Result<u64, SnowflakeError>)
    ensures
        r matches Err(e) ==> e == SnowflakeError::ClockBackwards,
{
    match std::time::SystemTime::now().duration_since(std::time::UNIX_EPOCH) {
        Ok(d) => Ok(d.as_millis() as u64),
        Err(_) => Err(SnowflakeError::ClockBackwards),
    }
}

/// Samples the clock until it reads strictly later than `last_timestamp`, and
/// returns that later reading. Blocks for as long as the clock takes to
/// advance; under a correct clock that is at most a few milliseconds. A clock
/// frozen for 2^64 consecutive samples, centuries of real time, is reported
/// as drift.
fn wait_next_millis(last_timestamp: u64) -> (r: Result<u64, SnowflakeError>)
    ensures
        r matches Ok(t) ==> t > last_timestamp,
        r is Err ==> r == Err::<u64, SnowflakeError>(SnowflakeError::ClockBackwards),
{
    let mut timestamp = match current_timestamp() {
        Ok(t) => t,
        Err(e) => {
            return Err(e);
        },
    };
    let mut tries: u64 = 0;
    while timestamp <= last_timestamp && tries < 0xFFFF_FFFF_FFFF_FFFF
        decreases 0xFFFF_FFFF_FFFF_FFFF - tries,
    {
        tries = tries + 1;
        timestamp = match current_timestamp() {
            Ok(t) => t,
            Err(e) => {
                return Err(e);
            },
        };
    }
    if timestamp <= last_timestamp {
        return Err(SnowflakeError::ClockBackwards);
    }
    Ok(timestamp)
}

/// A generator of 64-bit time-ordered unique identifiers for one
/// (datacenter id, worker id) identity.
#[derive(Debug)]
pub struct Snowflake {
    datacenter_id: u64,
    worker_id: u64,
    last_timestamp: u64,
    sequence: u64,
}

impl Snowflake {
    /// The datacenter id fixed at construction.
    pub closed spec fn spec_datacenter_id(&self) -> u64 {
        self.datacenter_id
    }

    /// The worker id fixed at construction.
    pub closed spec fn spec_worker_id(&self) -> u64 {
        self.worker_id
    }

    /// The millisecond timestamp at which the last identifier was issued, or
    /// zero before the first one.
    pub closed spec fn spec_last_timestamp(&self) -> u64 {
        self.last_timestamp
    }

    /// How many identifiers past the first have been issued within
    /// `spec_last_timestamp()`.
    pub closed spec fn spec_sequence(&self) -> u64 {
        self.sequence
    }

    /// Every field is within its bit width; established at construction and
    /// preserved by every operation.
    pub open spec fn wf(&self) -> bool {
        &&& self.spec_datacenter_id() <= MAX_DATACENTER_ID
        &&& self.spec_worker_id() <= MAX_WORKER_ID
        &&& self.spec_sequence() <= MAX_SEQUENCE
    }

    /// Builds a generator for the given identity; an identity value above 31
    /// is rejected with `InvalidArgument`. Sequencing state starts at
    /// timestamp zero, sequence zero.
    pub fn new(datacenter_id: u64, worker_id: u64) -> (r: Result<Snowflake, SnowflakeError>)
        ensures
            r is Ok <==> datacenter_id <= MAX_DATACENTER_ID && worker_id <= MAX_WORKER_ID,
            r matches Ok(g) ==> g.wf() && g.spec_datacenter_id() == datacenter_id
                && g.spec_worker_id() == worker_id && g.spec_last_timestamp() == 0
                && g.spec_sequence() == 0,
            datacenter_id > MAX_DATACENTER_ID ==> (r matches Err(
                SnowflakeError::InvalidArgument(m),
            ) && m@ == "Datacenter ID must be between 0 and 31"@),
            datacenter_id <= MAX_DATACENTER_ID && worker_id > MAX_WORKER_ID ==> (r matches Err(
                SnowflakeError::InvalidArgument(m),
            ) && m@ == "Worker ID must be between 0 and 31"@),
    {
        if datacenter_id > MAX_DATACENTER_ID {
            return Err(
                SnowflakeError::InvalidArgument("Datacenter ID must be between 0 and 31".to_owned()),
            );
        }
        if worker_id > MAX_WORKER_ID {
            return Err(
                SnowflakeError::InvalidArgument("Worker ID must be between 0 and 31".to_owned()),
            );
        }
        Ok(Snowflake { datacenter_id, worker_id, last_timestamp: 0, sequence: 0 })
    }

    /// The datacenter id fixed at construction.
    pub fn datacenter_id(&self) -> (r: u64)
        ensures
            r == self.spec_datacenter_id(),
    {
        self.datacenter_id
    }

    /// The worker id fixed at construction.
    pub fn worker_id(&self) -> (r: u64)
        ensures
            r == self.spec_worker_id(),
    {
        self.worker_id
    }

    /// The millisecond timestamp at which the last identifier was issued.
    pub fn last_timestamp(&self) -> (r: u64)
        ensures
            r == self.spec_last_timestamp(),
    {
        self.last_timestamp
    }

    /// The sequence counter within the last issued millisecond.
    pub fn sequence(&self) -> (r: u64)
        ensures
            r == self.spec_sequence(),
    {
        self.sequence
    }

    /// One generation step against an explicit clock reading `now` and epoch
    /// value: fails with `ClockBackwards`, leaving the state unchanged,
    /// exactly when `now` lies before the last recorded timestamp; otherwise
    /// advances the sequencing state and packs the identifier. The caller
    /// rules out the one reading this step cannot absorb: a sequence already
    /// exhausted within the very millisecond `now` names, which takes a later
    /// reading (see `next_id`).
    pub fn next_id_at(&mut self, now: u64, epoch: u64) -> (r: Result<u64, SnowflakeError>)
        requires
            old(self).wf(),
            !(now == old(self).spec_last_timestamp() && old(self).spec_sequence()
                == MAX_SEQUENCE),
        ensures
            final(self).wf(),
            final(self).spec_datacenter_id() == old(self).spec_datacenter_id(),
            final(self).spec_worker_id() == old(self).spec_worker_id(),
            r is Ok <==> now >= old(self).spec_last_timestamp(),
            r is Err ==> *final(self) == *old(self) && r == Err::<u64, SnowflakeError>(
                SnowflakeError::ClockBackwards,
            ),
            r is Ok ==> final(self).spec_last_timestamp() == now && final(self).spec_sequence()
                == (if now == old(self).spec_last_timestamp() {
                old(self).spec_sequence() + 1
            } else {
                0
            }),
            r matches Ok(id) ==> id == pack_spec(
                delta_of(now, epoch),
                old(self).spec_datacenter_id(),
                old(self).spec_worker_id(),
                final(self).spec_sequence(),
            ),
            r is Ok ==> final(self).spec_last_timestamp() > old(self).spec_last_timestamp() || (
            final(self).spec_last_timestamp() == old(self).spec_last_timestamp()
                && final(self).spec_sequence() > old(self).spec_sequence()),
    {
        if now < self.last_timestamp {
            return Err(SnowflakeError::ClockBackwards);
        }
        if now == self.last_timestamp {
            let s: u64 = self.sequence;
            assert((s + 1) as u64 & MAX_SEQUENCE == (s + 1) as u64) by (bit_vector)
                requires
                    s < MAX_SEQUENCE,
            ;
            self.sequence = (self.sequence + 1) & MAX_SEQUENCE;
        } else {
            self.sequence = 0;
        }
        self.last_timestamp = now;
        let delta = now.wrapping_sub(epoch);
        Ok(pack_id(delta, self.datacenter_id, self.worker_id, self.sequence))
    }

    /// Issues the next identifier, sampling the wall clock under the caller's
    /// exclusive access to the generator: fails with `ClockBackwards`,
    /// leaving the state unchanged, when the clock reads earlier than the
    /// last recorded timestamp; blocks until the clock advances when the
    /// sequence space of the current millisecond is exhausted. Every success
    /// satisfies `issued`, which keeps identifiers of one generator unique
    /// and increasing (see `lemma_sequential_ids_increase`).
    pub fn next_id(&mut self, epoch: &EpochRegister) -> (r: Result<u64, SnowflakeError>)
        requires
            old(self).wf(),
        ensures
            final(self).wf(),
            final(self).spec_datacenter_id() == old(self).spec_datacenter_id(),
            final(self).spec_worker_id() == old(self).spec_worker_id(),
            r is Err ==> *final(self) == *old(self) && r == Err::<u64, SnowflakeError>(
                SnowflakeError::ClockBackwards,
            ),
            r matches Ok(id) ==> issued(*old(self), *final(self), epoch.spec_millis(), id),
    {
        let now = match current_timestamp() {
            Ok(t) => t,
            Err(e) => {
                return Err(e);
            },
        };
        if now < self.last_timestamp {
            return Err(SnowflakeError::ClockBackwards);
        }
        let timestamp = if now == self.last_timestamp && self.sequence == MAX_SEQUENCE {
            match wait_next_millis(now) {
                Ok(t) => t,
                Err(e) => {
                    return Err(e);
                },
            }
        } else {
            now
        };
        self.next_id_at(timestamp, epoch.get_epoch())
    }
}

/// One successful generation step: how a generator's state after a call that
/// returned `id` against epoch value `epoch` relates to its state before. The
/// identity is untouched, the (timestamp, sequence) pair strictly increases
/// lexicographically, and `id` packs the new pair with the identity.
pub open spec fn issued(pre: Snowflake, post: Snowflake, epoch: u64, id: u64) -> bool {
    &&& post.wf()
    &&& post.spec_datacenter_id() == pre.spec_datacenter_id()
    &&& post.spec_worker_id() == pre.spec_worker_id()
    &&& post.spec_last_timestamp() > pre.spec_last_timestamp() || (post.spec_last_timestamp()
        == pre.spec_last_timestamp() && post.spec_sequence() > pre.spec_sequence())
    &&& id == pack_spec(
        delta_of(post.spec_last_timestamp(), epoch),
        post.spec_datacenter_id(),
        post.spec_worker_id(),
        post.spec_sequence(),
    )
}

/// Monotonicity and uniqueness of sequential calls: two successive successful
/// calls on one generator return strictly increasing, hence distinct,
/// identifiers, as long as the epoch lies no later than the issuing
/// timestamps and the later timestamp's delta against it fits the 41-bit
/// field.
pub proof fn lemma_sequential_ids_increase(
    s0: Snowflake,
    s1: Snowflake,
    s2: Snowflake,
    epoch: u64,
    id1: u64,
    id2: u64,
)
    requires
        issued(s0, s1, epoch, id1),
        issued(s1, s2, epoch, id2),
        epoch <= s1.spec_last_timestamp(),
        s2.spec_last_timestamp() - epoch <= MAX_TIMESTAMP_DELTA,
    ensures
        id2 > id1,
        id1 != id2,
{
    lemma_id_monotonic(
        s1.spec_last_timestamp(),
        s1.spec_sequence(),
        s2.spec_last_timestamp(),
        s2.spec_sequence(),
        s1.spec_datacenter_id(),
        s1.spec_worker_id(),
        epoch,
    );
}

} // verus!
