use vstd::prelude::*;
use vstd::pervasive::arbitrary;
use crate::errors::CaptureError;

verus! {

/// How many numbered device nodes the default locator probes.
pub const DEVICE_POOL_SIZE: u32 = 100;

/// A bounded pool of numbered device-node candidates; `H` is the
/// handle that a successful open yields. The pool is injectable so
/// that probing, a process-wide side effect against real device files,
/// can be exercised against a scripted stand-in.
pub trait DevicePool<H>: Sized {
    /// Whether the outcome of every probe is fixed in advance: true of
    /// the scripted test pool, false of the real device namespace,
    /// whose nodes other processes open and release at any time.
    spec fn deterministic(&self) -> bool;

    /// The outcome of probing candidate `i`, where outcomes are fixed.
    spec fn outcome_at(&self, i: int) -> Result<H, i32>;

    /// Every candidate probed so far, in probe order.
    spec fn probed(&self) -> Seq<u32>;

    /// Attempts to open candidate `i` with read-write access; a failure
    /// carries the OS error code. Each call records exactly one probe.
    fn open_candidate(&mut self, i: u32) -> (r: Result<H, i32>)
        ensures
            final(self).deterministic() == old(self).deterministic(),
            forall|j: int|
                (#[trigger] final(self).outcome_at(j)) == old(self).outcome_at(j),
            final(self).probed() == old(self).probed().push(i),
            old(self).deterministic() ==> r == old(self).outcome_at(i as int),
    ;
}

/// The ascending probe order: candidates `0` up to `n - 1`.
pub open spec fn probe_seq(n: int) -> Seq<u32> {
    Seq::new(n as nat, |i: int| i as u32)
}

/// Probes candidates `0`, `1`, ... `candidates - 1` in that fixed
/// ascending order, opening each read-write, and returns the first
/// handle that opens; no candidate after the first success is probed.
/// When every candidate fails, the failure of the LAST one comes back:
/// that signals pool exhaustion rather than one node's fault.
pub fn acquire<H, P: DevicePool<H>>(pool: &mut P, candidates: u32) -> (r: Result<H, i32>)
    requires
        candidates >= 1,
    ensures
        final(pool).deterministic() == old(pool).deterministic(),
        forall|j: int|
            (#[trigger] final(pool).outcome_at(j)) == old(pool).outcome_at(j),
        old(pool).deterministic() ==> match r {
            Ok(h) => exists|k: int|
                {
                    &&& 0 <= k < candidates
                    &&& old(pool).outcome_at(k) == Ok::<H, i32>(h)
                    &&& forall|j: int|
                        0 <= j < k ==> (#[trigger] old(pool).outcome_at(j)) is Err
                    // candidates 0..=k were probed, ascending; none after
                    &&& final(pool).probed() == old(pool).probed() + probe_seq(k + 1)
                },
            Err(e) => {
                &&& forall|j: int|
                    0 <= j < candidates ==> (#[trigger] old(pool).outcome_at(j)) is Err
                &&& old(pool).outcome_at(candidates - 1) == Err::<H, i32>(e)
                // every candidate was attempted, in ascending order
                &&& final(pool).probed() == old(pool).probed() + probe_seq(
                    candidates as int,
                )
            },
        },
{
    proof {
        assert(pool.probed() =~= old(pool).probed() + probe_seq(0));
    }
    let mut last_err: i32 = 0;
    let mut i: u32 = 0;
    while i < candidates
        invariant
            i <= candidates,
            pool.deterministic() == old(pool).deterministic(),
            forall|j: int|
                (#[trigger] pool.outcome_at(j)) == old(pool).outcome_at(j),
            pool.probed() == old(pool).probed() + probe_seq(i as int),
            old(pool).deterministic() ==> forall|j: int|
                0 <= j < i ==> (#[trigger] old(pool).outcome_at(j)) is Err,
            old(pool).deterministic() && i > 0
                ==> old(pool).outcome_at(i - 1) == Err::<H, i32>(last_err),
        decreases candidates - i,
    {
        let ghost k = i as int;
        match pool.open_candidate(i) {
            Ok(h) => {
                proof {
                    if old(pool).deterministic() {
                        assert(old(pool).outcome_at(k) == Ok::<H, i32>(h));
                    }
                    assert(pool.probed() =~= old(pool).probed() + probe_seq(k + 1));
                }
                return Ok(h);
            },
            Err(e) => {
                last_err = e;
            },
        }
        proof {
            assert(pool.probed() =~= old(pool).probed() + probe_seq(i as int + 1));
        }
        i = i + 1;
    }
    Err(last_err)
}

/// [`acquire`], with pool exhaustion classified into the failure
/// taxonomy: when every candidate failed to open, the outcome is
/// [`CaptureError::NoDeviceAvailable`]. Callers that need the last
/// candidate's own error code use [`acquire`] directly.
pub fn acquire_device<H, P: DevicePool<H>>(pool: &mut P, candidates: u32)
    -> (r: Result<H, CaptureError>)
    requires
        candidates >= 1,
    ensures
        final(pool).deterministic() == old(pool).deterministic(),
        forall|j: int|
            (#[trigger] final(pool).outcome_at(j)) == old(pool).outcome_at(j),
        r matches Err(e) ==> e == CaptureError::NoDeviceAvailable,
        old(pool).deterministic() ==> match r {
            Ok(h) => exists|k: int|
                {
                    &&& 0 <= k < candidates
                    &&& old(pool).outcome_at(k) == Ok::<H, i32>(h)
                    &&& forall|j: int|
                        0 <= j < k ==> (#[trigger] old(pool).outcome_at(j)) is Err
                    &&& final(pool).probed() == old(pool).probed() + probe_seq(k + 1)
                },
            Err(_) => {
                &&& forall|j: int|
                    0 <= j < candidates ==> (#[trigger] old(pool).outcome_at(j)) is Err
                &&& final(pool).probed() == old(pool).probed() + probe_seq(
                    candidates as int,
                )
            },
        },
{
    match acquire(pool, candidates) {
        Ok(h) => Ok(h),
        Err(_) => Err(CaptureError::NoDeviceAvailable),
    }
}

/// A deterministic pool for exercising the locator without device
/// nodes: candidate `i` yields the scripted outcome `plan[i]`, every
/// probe is recorded in order, and a handle is the candidate number
/// itself. Candidates past the end of the script fail with
/// `default_error`.
pub struct ScriptedPool {
    pub plan: Vec<Result<u32, i32>>,
    pub probed: Vec<u32>,
    pub default_error: i32,
}

impl DevicePool<u32> for ScriptedPool {
    open spec fn deterministic(&self) -> bool {
        true
    }

    open spec fn probed(&self) -> Seq<u32> {
        self.probed@
    }

    open spec fn outcome_at(&self, i: int) -> Result<u32, i32> {
        if 0 <= i < self.plan@.len() {
            self.plan@[i]
        } else {
            Err(self.default_error)
        }
    }

    fn open_candidate(&mut self, i: u32) -> (r: Result<u32, i32>) {
        self.probed.push(i);
        if (i as usize) < self.plan.len() {
            self.plan[i as usize]
        } else {
            Err(self.default_error)
        }
    }
}

#[verifier::external_type_specification]
#[verifier::external_body]
pub struct ExOwnedFd(rustix::fd::OwnedFd);

/// Relies on rustix::fs::open: opens the numbered special file
/// `/dev/bpf` with two digits appended, read-write. Which nodes exist
/// and which are held by other processes depends on the machine at
/// that moment, so nothing is promised of the outcome.
#[verifier::external_body]
fn open_bpf_node(i: u32) -> (r: Result<rustix::fd::OwnedFd, i32>) {
    match rustix::fs::open(
        format!("/dev/bpf{:02}", i),
        rustix::fs::OFlags::RDWR,
        rustix::fs::Mode::empty(),
    ) {
        Ok(fd) => Ok(fd),
        Err(e) => Err(e.raw_os_error()),
    }
}

/// The real device-node pool over the OS device namespace.
pub struct OsDevicePool {
    /// Ghost record of the candidates probed so far.
    pub trace: Ghost<Seq<u32>>,
}

impl OsDevicePool {
    pub fn new() -> (r: Self)
        ensures
            r.probed() == Seq::<u32>::empty(),
    {
        OsDevicePool { trace: Ghost(Seq::empty()) }
    }
}

impl DevicePool<rustix::fd::OwnedFd> for OsDevicePool {
    open spec fn deterministic(&self) -> bool {
        false
    }

    open spec fn outcome_at(&self, i: int) -> Result<rustix::fd::OwnedFd, i32> {
        arbitrary()
    }

    open spec fn probed(&self) -> Seq<u32> {
        self.trace@
    }

    fn open_candidate(&mut self, i: u32) -> (r: Result<rustix::fd::OwnedFd, i32>) {
        self.trace = Ghost(self.trace@.push(i));
        open_bpf_node(i)
    }
}

} // verus!
