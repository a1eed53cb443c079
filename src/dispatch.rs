//! One broadcast: the message goes to each target in turn, and the first
//! failed send ends the broadcast, so later targets are not tried. The sends
//! themselves are made by the caller, which reports each result.
use vstd::prelude::*;
use crate::server::CommandError;

verus! {

/// The state of a broadcast in mathematical terms.
pub struct DispatchModel {
    pub targets: Seq<u64>,
    /// How many targets, from the first, were sent to successfully.
    pub delivered: nat,
    /// The first failed send: the target and the cause.
    pub failure: Option<(u64, Seq<char>)>,
}

/// A broadcast to `targets` that has sent nothing yet.
pub open spec fn fresh(targets: Seq<u64>) -> DispatchModel {
    DispatchModel { targets, delivered: 0, failure: None }
}

impl DispatchModel {
    pub open spec fn wf(self) -> bool {
        &&& self.delivered <= self.targets.len()
        &&& self.failure is Some ==> self.delivered < self.targets.len()
            && self.failure->Some_0.0 == self.targets[self.delivered as int]
    }

    /// No send is left to make.
    pub open spec fn finished(self) -> bool {
        self.failure is Some || self.delivered == self.targets.len()
    }

    /// The target of the next send.
    pub open spec fn next_target(self) -> u64 {
        self.targets[self.delivered as int]
    }

    /// The targets sent to so far, in order, the failed one included.
    pub open spec fn attempted(self) -> Seq<u64> {
        self.targets.take(self.delivered + if self.failure is Some { 1int } else { 0int })
    }

    /// The state after the next send succeeded (`ok`) or failed with `cause`.
    pub open spec fn after_send(self, ok: bool, cause: Seq<char>) -> DispatchModel {
        if ok {
            DispatchModel { delivered: self.delivered + 1, ..self }
        } else {
            DispatchModel { failure: Some((self.next_target(), cause)), ..self }
        }
    }

    /// Runs the broadcast to its end, where a send fails exactly when its
    /// target is in `failing`, with `cause`.
    pub open spec fn run(self, failing: Set<u64>, cause: Seq<char>) -> DispatchModel
        decreases self.targets.len() - self.delivered + if self.failure is None { 1int } else { 0int },
    {
        if !self.wf() || self.finished() {
            self
        } else {
            self.after_send(!failing.contains(self.next_target()), cause).run(failing, cause)
        }
    }
}

/// What the caller does next: send to a target, or report the outcome.
#[derive(Debug)]
pub enum DispatchAction {
    Send(u64),
    /// The number of recipients, or the first failed send.
    Finished(Result<usize, CommandError>),
}

/// A broadcast in progress.
pub struct Dispatch {
    targets: Vec<u64>,
    delivered: usize,
    failure: Option<(u64, String)>,
}

impl View for Dispatch {
    type V = DispatchModel;

    closed spec fn view(&self) -> DispatchModel {
        DispatchModel {
            targets: self.targets@,
            delivered: self.delivered as nat,
            failure: match self.failure {
                Some((c, cause)) => Some((c, cause@)),
                None => None,
            },
        }
    }
}

impl Dispatch {
    /// Begins a broadcast to `targets`, in their order.
    pub fn new(targets: Vec<u64>) -> (r: Dispatch)
        ensures
            r@ == fresh(targets@),
            r@.wf(),
    {
        Dispatch { targets, delivered: 0, failure: None }
    }

    /// The next send to make, or the outcome: the number of recipients when
    /// every send succeeded, else `SendFailed` with the first failed target.
    pub fn next_action(&self) -> (r: DispatchAction)
        requires
            self@.wf(),
        ensures
            !self@.finished() ==> r == DispatchAction::Send(self@.next_target()),
            self@.failure is Some ==> (r matches DispatchAction::Finished(Err(
                CommandError::SendFailed { client, cause },
            )) && client == self@.failure->Some_0.0 && cause@ == self@.failure->Some_0.1),
            self@.failure is None && self@.finished() ==> r == DispatchAction::Finished(
                Ok(self@.targets.len() as usize),
            ),
    {
        match &self.failure {
            Some((client, cause)) => DispatchAction::Finished(
                Err(CommandError::SendFailed { client: *client, cause: cause.clone() }),
            ),
            None => {
                if self.delivered < self.targets.len() {
                    DispatchAction::Send(self.targets[self.delivered])
                } else {
                    DispatchAction::Finished(Ok(self.delivered))
                }
            },
        }
    }

    /// Records the result of the send that `next_action` asked for.
    pub fn report(&mut self, result: Result<(), String>)
        requires
            old(self)@.wf(),
            !old(self)@.finished(),
        ensures
            final(self)@.wf(),
            final(self)@ == old(self)@.after_send(
                result is Ok,
                match result {
                    Ok(_) => Seq::<char>::empty(),
                    Err(c) => c@,
                },
            ),
    {
        match result {
            Ok(()) => {
                let n = self.targets.len();
                assert(self.delivered < n);
                self.delivered = self.delivered + 1;
            },
            Err(cause) => {
                let client = self.targets[self.delivered];
                self.failure = Some((client, cause));
            },
        }
    }
}

/// Sending stops at the first failure: when the send to `targets[k]` fails
/// and every earlier one succeeds, the broadcast ends with that target's
/// failure, having tried exactly the targets up to it, and no later target
/// is tried.
pub proof fn lemma_stops_at_first_failure(
    targets: Seq<u64>,
    failing: Set<u64>,
    cause: Seq<char>,
    k: int,
)
    requires
        targets.no_duplicates(),
        0 <= k < targets.len(),
        failing.contains(targets[k]),
        forall|j: int| 0 <= j < k ==> !failing.contains(#[trigger] targets[j]),
    ensures
        fresh(targets).run(failing, cause).failure == Some((targets[k], cause)),
        fresh(targets).run(failing, cause).attempted() == targets.take(k + 1),
        forall|j: int|
            k < j < targets.len() ==> !fresh(targets).run(failing, cause).attempted().contains(
                #[trigger] targets[j],
            ),
{
    lemma_run_from(fresh(targets), failing, cause, k);
    let end = fresh(targets).run(failing, cause);
    assert forall|j: int| k < j < targets.len() implies !end.attempted().contains(
        #[trigger] targets[j],
    ) by {
        if end.attempted().contains(targets[j]) {
            let i = choose|i: int| 0 <= i < end.attempted().len() && end.attempted()[i] == targets[j];
            assert(targets[i] == targets[j]);
        }
    }
}

/// From any point before the first failing target, the run ends there.
proof fn lemma_run_from(m: DispatchModel, failing: Set<u64>, cause: Seq<char>, k: int)
    requires
        m.wf(),
        m.failure is None,
        m.delivered <= k < m.targets.len(),
        failing.contains(m.targets[k]),
        forall|j: int| 0 <= j < k ==> !failing.contains(#[trigger] m.targets[j]),
    ensures
        m.run(failing, cause).failure == Some((m.targets[k], cause)),
        m.run(failing, cause).delivered == k,
        m.run(failing, cause).targets == m.targets,
    decreases k - m.delivered,
{
    let next = m.after_send(!failing.contains(m.next_target()), cause);
    assert(m.run(failing, cause) == next.run(failing, cause));
    if m.delivered < k {
        assert(!failing.contains(m.targets[m.delivered as int]));
        lemma_run_from(next, failing, cause, k);
    } else {
        assert(next.wf() && next.finished());
        assert(next.run(failing, cause) == next);
    }
}

/// When no send fails, every target receives the message once and the
/// outcome counts all of them.
pub proof fn lemma_all_delivered(targets: Seq<u64>, failing: Set<u64>, cause: Seq<char>)
    requires
        forall|j: int| 0 <= j < targets.len() ==> !failing.contains(#[trigger] targets[j]),
    ensures
        fresh(targets).run(failing, cause).failure is None,
        fresh(targets).run(failing, cause).delivered == targets.len(),
        fresh(targets).run(failing, cause).attempted() == targets,
{
    lemma_run_all(fresh(targets), failing, cause);
}

/// From any point, with no failing target left, the run delivers to all.
proof fn lemma_run_all(m: DispatchModel, failing: Set<u64>, cause: Seq<char>)
    requires
        m.wf(),
        m.failure is None,
        forall|j: int| 0 <= j < m.targets.len() ==> !failing.contains(#[trigger] m.targets[j]),
    ensures
        m.run(failing, cause).failure is None,
        m.run(failing, cause).delivered == m.targets.len(),
        m.run(failing, cause).targets == m.targets,
        m.run(failing, cause).attempted() == m.targets,
    decreases m.targets.len() - m.delivered,
{
    if m.delivered < m.targets.len() {
        lemma_run_all(m.after_send(!failing.contains(m.next_target()), cause), failing, cause);
    } else {
        assert(m.targets.take(m.targets.len() as int) == m.targets);
    }
}

} // verus!
