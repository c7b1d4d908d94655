//! The non-blocking adapter's decision logic.
//!
//! A non-blocking descriptor attached to a readiness notifier can report
//! readiness without data actually being available.  The retry protocol
//! here decides, after each attempted transfer, whether the task must
//! suspend again or whether the attempt's outcome is final.  A would-block
//! outcome is an internal signal and is never surfaced to the caller.

use vstd::prelude::*;

verus! {

/// The link MTU a freshly created device is assumed to carry.
pub const DEFAULT_MTU: usize = 1500;

/// The abstract state of a non-blocking adapter.
pub ghost struct AsyncState {
    /// The wrapped device; the adapter owns its handle exclusively.
    pub iface: crate::IfaceState,
    /// The allocation used for future receive attempts.
    pub recv_bufsize: int,
}

/// The receive-buffer size a fresh adapter starts with: the default MTU,
/// plus the 4-byte packet-info header when the device prefixes one to
/// every packet.
pub open spec fn spec_default_bufsize(packet_info: bool) -> int {
    if packet_info {
        DEFAULT_MTU + crate::frame::INFO_HEADER_LEN
    } else {
        DEFAULT_MTU as int
    }
}

/// A device wrapped for use with a readiness-driven scheduler.
///
/// Wrapping consumes the device: the adapter is the handle's only owner.
/// The caller switches the handle to non-blocking mode and registers it
/// with its readiness-notification source, exactly once, when the adapter
/// is built; the retry protocol below then governs every transfer.
pub struct Async {
    iface: crate::Iface,
    recv_bufsize: usize,
}

impl View for Async {
    type V = AsyncState;

    closed spec fn view(&self) -> AsyncState {
        AsyncState { iface: self.iface@, recv_bufsize: self.recv_bufsize as int }
    }
}

impl Async {
    /// Consumes a configured device and wraps it.  The receive-buffer
    /// size starts at the default MTU plus the packet-info header the
    /// device's framing calls for.
    pub fn new(iface: crate::Iface) -> (a: Async)
        ensures
            a@.iface == iface@,
            a@.recv_bufsize == spec_default_bufsize(iface@.packet_info),
    {
        let recv_bufsize: usize = if iface.packet_info() {
            DEFAULT_MTU + crate::frame::INFO_HEADER_LEN
        } else {
            DEFAULT_MTU
        };
        Async { iface, recv_bufsize }
    }

    /// The wrapped device.
    pub fn iface(&self) -> (i: &crate::Iface)
        ensures
            i@ == self@.iface,
    {
        &self.iface
    }

    /// The allocation used for future receive attempts.
    pub fn recv_bufsize(&self) -> (n: usize)
        ensures
            n == self@.recv_bufsize,
    {
        self.recv_bufsize
    }

    /// Changes the allocation used for future receive attempts.  Must be
    /// called when the device's MTU is raised, or packets larger than the
    /// configured size are truncated on receive.
    pub fn set_recv_bufsize(&mut self, n: usize)
        ensures
            final(self)@ == (AsyncState { recv_bufsize: n as int, ..old(self)@ }),
    {
        self.recv_bufsize = n;
    }

    /// A zeroed buffer of the configured receive size, ready for one
    /// receive attempt.
    pub fn make_recv_buffer(&self) -> (b: Vec<u8>)
        ensures
            b@.len() == self@.recv_bufsize,
            forall|i: int| 0 <= i < b@.len() ==> b@[i] == 0,
    {
        let mut b: Vec<u8> = Vec::new();
        let mut k: usize = 0;
        while k < self.recv_bufsize
            invariant
                k <= self.recv_bufsize,
                b@.len() == k,
                forall|i: int| 0 <= i < k ==> b@[i] == 0,
            decreases self.recv_bufsize - k,
        {
            b.push(0);
            k += 1;
        }
        b
    }
}

/// What one non-blocking transfer attempt produced.
#[derive(Copy, Clone, Debug, Eq, PartialEq)]
pub enum IoOutcome {
    /// The kernel accepted or delivered this many bytes.
    Done(usize),
    /// The readiness notification was stale: no data was available.
    WouldBlock,
    /// A genuine I/O error, carried as the OS error code.
    Fail(i32),
}

/// What the driving task must do after an attempt.
#[derive(Copy, Clone, Debug, Eq, PartialEq)]
pub enum Step {
    /// Suspend until the next readiness notification, then attempt again.
    Suspend,
    /// The operation is over; hand this result to the caller.
    Finish(Result<usize, i32>),
}

/// The decision the retry protocol takes on one attempt's outcome.
pub open spec fn step_of(o: IoOutcome) -> Step {
    match o {
        IoOutcome::Done(n) => Step::Finish(Ok(n)),
        IoOutcome::WouldBlock => Step::Suspend,
        IoOutcome::Fail(e) => Step::Finish(Err(e)),
    }
}

/// Decides what the driving task does after one transfer attempt: a
/// would-block outcome suspends the task again, every other outcome is
/// final and is returned as it is.
pub fn resolve_attempt(o: &IoOutcome) -> (s: Step)
    ensures
        s == step_of(*o),
{
    match *o {
        IoOutcome::Done(n) => Step::Finish(Ok(n)),
        IoOutcome::WouldBlock => Step::Suspend,
        IoOutcome::Fail(e) => Step::Finish(Err(e)),
    }
}

/// An attempt completes the operation exactly when its outcome was not
/// would-block: a stale readiness notification alone never produces a
/// result, an error or a zero-length read for the caller.
pub proof fn lemma_would_block_never_surfaces(o: IoOutcome)
    ensures
        (step_of(o) is Finish) <==> !(o is WouldBlock),
        (o is WouldBlock) ==> step_of(o) == Step::Suspend,
{
}

/// The result a finished attempt hands to the caller.
pub open spec fn finish_of(o: IoOutcome) -> Result<usize, i32> {
    match o {
        IoOutcome::Done(n) => Ok(n),
        IoOutcome::Fail(e) => Err(e),
        IoOutcome::WouldBlock => arbitrary(),
    }
}

/// What a whole run of the retry protocol returns, given the outcomes of
/// the successive attempts it makes: the first outcome that is not
/// would-block decides the operation, and a run whose every attempt
/// would block is still suspended.
pub open spec fn spec_run(outcomes: Seq<IoOutcome>) -> Option<Result<usize, i32>>
    decreases outcomes.len(),
{
    if outcomes.len() == 0 {
        None
    } else {
        match step_of(outcomes[0]) {
            Step::Suspend => spec_run(outcomes.skip(1)),
            Step::Finish(r) => Some(r),
        }
    }
}

/// A run all of whose attempts would block never completes: the task
/// keeps suspending and the caller is never handed an error or an empty
/// result.
pub proof fn lemma_all_would_block_keeps_waiting(outcomes: Seq<IoOutcome>)
    requires
        forall|j: int| 0 <= j < outcomes.len() ==> outcomes[j] is WouldBlock,
    ensures
        spec_run(outcomes) is None,
    decreases outcomes.len(),
{
    if outcomes.len() > 0 {
        assert(outcomes[0] is WouldBlock);
        assert forall|j: int| 0 <= j < outcomes.skip(1).len() implies outcomes.skip(1)[j]
            is WouldBlock by {
            assert(outcomes.skip(1)[j] == outcomes[j + 1]);
        }
        lemma_all_would_block_keeps_waiting(outcomes.skip(1));
    }
}

/// The first attempt whose outcome is not would-block decides the
/// operation, whatever ran before it: its success or its error is what
/// the caller receives.
pub proof fn lemma_first_completion_decides(outcomes: Seq<IoOutcome>, j: int)
    requires
        0 <= j < outcomes.len(),
        !(outcomes[j] is WouldBlock),
        forall|k: int| 0 <= k < j ==> outcomes[k] is WouldBlock,
    ensures
        spec_run(outcomes) == Some(finish_of(outcomes[j])),
    decreases j,
{
    if j == 0 {
    } else {
        assert(outcomes[0] is WouldBlock);
        assert(outcomes.skip(1)[j - 1] == outcomes[j]);
        assert forall|k: int| 0 <= k < j - 1 implies outcomes.skip(1)[k] is WouldBlock by {
            assert(outcomes.skip(1)[k] == outcomes[k + 1]);
        }
        lemma_first_completion_decides(outcomes.skip(1), j - 1);
    }
}

/// Runs the retry protocol over the outcomes of successive transfer
/// attempts, suspending past every would-block outcome.  Returns what the
/// caller receives, or `None` when every attempt would block and the
/// task is still suspended awaiting the next readiness notification.
pub fn run_retry(outcomes: &Vec<IoOutcome>) -> (r: Option<Result<usize, i32>>)
    ensures
        r == spec_run(outcomes@),
        (r is None) <==> (forall|j: int| 0 <= j < outcomes@.len() ==> outcomes@[j] is WouldBlock),
{
    let mut i: usize = 0;
    proof {
        assert(outcomes@.skip(0) =~= outcomes@);
    }
    while i < outcomes.len()
        invariant
            i <= outcomes@.len(),
            spec_run(outcomes@) == spec_run(outcomes@.skip(i as int)),
            forall|k: int| 0 <= k < i ==> outcomes@[k] is WouldBlock,
        decreases outcomes@.len() - i,
    {
        let o = outcomes[i];
        proof {
            assert(outcomes@.skip(i as int)[0] == outcomes@[i as int]);
        }
        match resolve_attempt(&o) {
            Step::Suspend => {
                proof {
                    assert(outcomes@.skip(i as int).skip(1) =~= outcomes@.skip(i as int + 1));
                }
                i += 1;
            },
            Step::Finish(res) => {
                return Some(res);
            },
        }
    }
    proof {
        assert(outcomes@.skip(outcomes@.len() as int) =~= Seq::<IoOutcome>::empty());
    }
    None
}

} // verus!
