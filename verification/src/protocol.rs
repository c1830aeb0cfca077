//! The protocol of one installation attempt.
//!
//! An attempt is a chain of requests to outside services: the system bus
//! is joined, the authority is asked whether the calling process may
//! install a file, and only after a yes the package daemon is told to
//! install it, through a transaction that is created, bound and run. Each
//! request is answered by one reply, and pending request and reply alone
//! decide what is asked next or how the attempt ends.
//!
//! Nothing here talks to a service. The caller performs the pending step,
//! hands the reply to [`Attempt::advance`] and goes on with the step that
//! comes back, until that step is [`Step::Finish`].

use crate::failure::Failure;
use crate::package::{Package, PackageView};
use crate::request::{AuthorizationRequest, InstallRequest, SubjectRequest, INSTALL_FILE_ACTION};
use vstd::prelude::*;

verus! {

/// What an attempt asks of the outside next, or how it ended.
#[derive(Debug, Clone, Copy, PartialEq, Eq)]
pub enum Step {
    /// Join the system bus.
    Connect,
    /// Reach the authority's interface on the bus.
    OpenAuthority,
    /// Make the subject that stands for the calling process.
    BuildSubject,
    /// Ask the authority whether the subject may install a file.
    CheckAuthorization,
    /// Reach the package daemon's interface on the bus.
    OpenDaemon,
    /// Tell the daemon to install the file; it answers with a transaction.
    InstallFile,
    /// Reach the interface of that transaction.
    BindTransaction,
    /// Run the transaction to its end.
    RunTransaction,
    /// Nothing more is asked. `Ok(true)`: the file was installed.
    /// `Ok(false)`: the daemon could not be brought to start on it.
    Finish(Result<bool, Failure>),
}

/// What came back from the outside for the pending step.
#[derive(Debug, Clone, Copy, PartialEq, Eq)]
pub enum Reply {
    /// The step was carried out.
    Completed,
    /// The step could not be carried out.
    Failed,
    /// The authority's answer to `CheckAuthorization`: whether the subject
    /// is authorized.
    Verdict(bool),
}

/// One attempt to install `package` on behalf of the process `pid`.
#[derive(Debug, Clone)]
pub struct Attempt {
    pub package: Package,
    pub pid: u32,
}

/// What an `Attempt` stands for.
pub struct AttemptView {
    pub package: PackageView,
    pub pid: u32,
}

impl View for Attempt {
    type V = AttemptView;

    open spec fn view(&self) -> AttemptView {
        AttemptView { package: self.package@, pid: self.pid }
    }
}

impl Step {
    /// Whether the attempt is over.
    pub open spec fn is_final(self) -> bool {
        self is Finish
    }

    /// Whether the step is addressed to the authority, or prepares what is
    /// sent to it.
    pub open spec fn concerns_authority(self) -> bool {
        self is OpenAuthority || self is BuildSubject || self is CheckAuthorization
    }

    /// Whether the step is addressed to the package daemon.
    pub open spec fn concerns_daemon(self) -> bool {
        self is OpenDaemon || self is InstallFile || self is BindTransaction
            || self is RunTransaction
    }

    /// How the attempt ends where this step cannot be carried out.
    ///
    /// Before the authority has answered, every failure is an error. Once
    /// it has said yes, a daemon that cannot be brought to start is no
    /// error but the result "not installed"; only a transaction that was
    /// started and then fails is an error again.
    pub open spec fn outcome_of_failure(self) -> Result<bool, Failure>
        recommends
            !self.is_final(),
    {
        match self {
            Step::Connect | Step::OpenAuthority => Err(Failure::Connection),
            Step::BuildSubject => Err(Failure::SubjectConstruction),
            Step::CheckAuthorization => Err(Failure::AuthorizationCheck),
            Step::OpenDaemon | Step::InstallFile | Step::BindTransaction => Ok(false),
            Step::RunTransaction => Err(Failure::Installation),
            Step::Finish(outcome) => outcome,
        }
    }

    /// The exec form of `is_final`.
    pub fn finished(&self) -> (over: bool)
        ensures
            over == self.is_final(),
    {
        match self {
            Step::Finish(_) => true,
            _ => false,
        }
    }

    /// How the attempt ended, once it is over.
    pub fn outcome(&self) -> (outcome: Option<Result<bool, Failure>>)
        ensures
            outcome == (match *self {
                Step::Finish(result) => Some(result),
                _ => None,
            }),
    {
        match self {
            Step::Finish(result) => Some(*result),
            _ => None,
        }
    }

    /// The exec form of `concerns_authority`.
    pub fn for_authority(&self) -> (yes: bool)
        ensures
            yes == self.concerns_authority(),
    {
        match self {
            Step::OpenAuthority | Step::BuildSubject | Step::CheckAuthorization => true,
            _ => false,
        }
    }

    /// The exec form of `concerns_daemon`.
    pub fn for_daemon(&self) -> (yes: bool)
        ensures
            yes == self.concerns_daemon(),
    {
        match self {
            Step::OpenDaemon | Step::InstallFile | Step::BindTransaction | Step::RunTransaction => true,
            _ => false,
        }
    }
}

impl Reply {
    /// Whether this reply is one that the step `pending` can get: a verdict
    /// or a failure for the question to the authority, success or failure
    /// for every other request, and nothing once the attempt is over.
    pub open spec fn answers(self, pending: Step) -> bool {
        match pending {
            Step::Finish(_) => false,
            Step::CheckAuthorization => self is Verdict || self is Failed,
            _ => self is Completed || self is Failed,
        }
    }

    /// Reads the result of a request that only succeeds or fails: what it
    /// returned on success is the caller's to keep, and why it failed
    /// plays no part in what follows.
    pub fn of<T, E>(result: &Result<T, E>) -> (reply: Reply)
        ensures
            reply == (if result is Ok {
                Reply::Completed
            } else {
                Reply::Failed
            }),
    {
        match result {
            Ok(_) => Reply::Completed,
            Err(_) => Reply::Failed,
        }
    }
}

impl AttemptView {
    /// The step with which every attempt begins.
    pub open spec fn first() -> Step {
        Step::Connect
    }

    /// Whether the caller needs no authorization: the process identifier 0
    /// stands for a caller that is fully privileged already.
    pub open spec fn is_privileged(self) -> bool {
        self.pid == 0
    }

    /// The step that follows `pending` once it was carried out.
    pub open spec fn successor(self, pending: Step) -> Step
        recommends
            !pending.is_final(),
            pending != Step::CheckAuthorization,
    {
        match pending {
            Step::Connect => if self.is_privileged() {
                Step::OpenDaemon
            } else {
                Step::OpenAuthority
            },
            Step::OpenAuthority => Step::BuildSubject,
            Step::BuildSubject => Step::CheckAuthorization,
            Step::CheckAuthorization => Step::OpenDaemon,
            Step::OpenDaemon => Step::InstallFile,
            Step::InstallFile => Step::BindTransaction,
            Step::BindTransaction => Step::RunTransaction,
            Step::RunTransaction => Step::Finish(Ok(true)),
            Step::Finish(outcome) => Step::Finish(outcome),
        }
    }

    /// The step that follows `pending` after `reply`; `None` where `reply`
    /// is no answer to `pending`.
    pub open spec fn next(self, pending: Step, reply: Reply) -> Option<Step> {
        if !reply.answers(pending) {
            None
        } else {
            match reply {
                Reply::Completed => Some(self.successor(pending)),
                Reply::Failed => Some(Step::Finish(pending.outcome_of_failure())),
                Reply::Verdict(true) => Some(Step::OpenDaemon),
                Reply::Verdict(false) => Some(Step::Finish(Err(Failure::PermissionDenied))),
            }
        }
    }

    /// The step that is pending after the replies of `replies` were given
    /// one after the other, from the first step on; `None` where one of
    /// them was no answer to the step that was pending then.
    pub open spec fn run(self, replies: Seq<Reply>) -> Option<Step>
        decreases replies.len(),
    {
        if replies.len() == 0 {
            Some(Self::first())
        } else {
            match self.run(replies.drop_last()) {
                Some(pending) => self.next(pending, replies.last()),
                None => None,
            }
        }
    }
}

impl Attempt {
    /// An attempt to install `package` on behalf of the process `pid`.
    pub fn new(package: Package, pid: u32) -> (attempt: Attempt)
        ensures
            attempt@ == (AttemptView { package: package@, pid }),
    {
        Attempt { package, pid }
    }

    /// The step with which the attempt begins.
    pub fn begin(&self) -> (step: Step)
        ensures
            step == AttemptView::first(),
    {
        Step::Connect
    }

    /// Decides what follows the step `pending` now that `reply` came back
    /// for it. `None` tells the caller that `reply` cannot be an answer to
    /// `pending`; the attempt is then where it was.
    pub fn advance(&self, pending: Step, reply: Reply) -> (next: Option<Step>)
        ensures
            next == self@.next(pending, reply),
    {
        match (pending, reply) {
            (Step::Finish(_), _) => None,
            (Step::CheckAuthorization, Reply::Verdict(authorized)) => {
                if authorized {
                    Some(Step::OpenDaemon)
                } else {
                    Some(Step::Finish(Err(Failure::PermissionDenied)))
                }
            },
            (Step::CheckAuthorization, Reply::Failed) => Some(
                Step::Finish(Err(Failure::AuthorizationCheck)),
            ),
            (Step::CheckAuthorization, Reply::Completed) => None,
            (_, Reply::Verdict(_)) => None,
            (Step::Connect, Reply::Completed) => {
                if self.pid == 0 {
                    Some(Step::OpenDaemon)
                } else {
                    Some(Step::OpenAuthority)
                }
            },
            (Step::Connect, Reply::Failed) => Some(Step::Finish(Err(Failure::Connection))),
            (Step::OpenAuthority, Reply::Completed) => Some(Step::BuildSubject),
            (Step::OpenAuthority, Reply::Failed) => Some(Step::Finish(Err(Failure::Connection))),
            (Step::BuildSubject, Reply::Completed) => Some(Step::CheckAuthorization),
            (Step::BuildSubject, Reply::Failed) => Some(
                Step::Finish(Err(Failure::SubjectConstruction)),
            ),
            (Step::OpenDaemon, Reply::Completed) => Some(Step::InstallFile),
            (Step::InstallFile, Reply::Completed) => Some(Step::BindTransaction),
            (Step::BindTransaction, Reply::Completed) => Some(Step::RunTransaction),
            (Step::OpenDaemon, Reply::Failed)
            | (Step::InstallFile, Reply::Failed)
            | (Step::BindTransaction, Reply::Failed) => Some(Step::Finish(Ok(false))),
            (Step::RunTransaction, Reply::Completed) => Some(Step::Finish(Ok(true))),
            (Step::RunTransaction, Reply::Failed) => Some(
                Step::Finish(Err(Failure::Installation)),
            ),
        }
    }

    /// Plays a whole attempt against answers that are known beforehand:
    /// the step that is pending after `replies`, or `None` where one of
    /// them did not fit.
    pub fn replay(&self, replies: &[Reply]) -> (end: Option<Step>)
        ensures
            end == self@.run(replies@),
    {
        let mut pending = self.begin();
        let mut done: usize = 0;
        while done < replies.len()
            invariant
                done <= replies@.len(),
                self@.run(replies@.take(done as int)) == Some(pending),
            decreases replies@.len() - done,
        {
            proof {
                let upto = replies@.take(done + 1);
                assert(upto.drop_last() == replies@.take(done as int));
                assert(upto.last() == replies@[done as int]);
            }
            match self.advance(pending, replies[done]) {
                Some(next) => {
                    pending = next;
                },
                None => {
                    proof {
                        lemma_run_stays_stuck(self@, replies@, done + 1);
                    }
                    return None;
                },
            }
            done = done + 1;
        }
        proof {
            assert(replies@.take(done as int) == replies@);
        }
        Some(pending)
    }

    /// The subject that is made for `Step::BuildSubject`.
    pub fn subject_request(&self) -> (request: SubjectRequest)
        ensures
            request == SubjectRequest::for_process(self.pid),
    {
        SubjectRequest { pid: self.pid, start_time: None, uid: None }
    }

    /// The question that is put to the authority for
    /// `Step::CheckAuthorization`.
    pub fn authorization_request(&self) -> (request: AuthorizationRequest)
        ensures
            request.is_install_check_for(self.pid),
    {
        proof {
            reveal_strlit("");
        }
        AuthorizationRequest {
            subject: self.subject_request(),
            action_id: INSTALL_FILE_ACTION,
            details: Vec::new(),
            allow_user_interaction: true,
            cancellation_id: "",
        }
    }

    /// The order that is given to the daemon for `Step::InstallFile`.
    pub fn install_request(&self) -> (request: InstallRequest<'_>)
        ensures
            request.is_plain_install_of(self@.package.path),
    {
        InstallRequest { path: self.package.path.as_str(), force: false }
    }
}

/// Once a reply did not fit, no later reply mends the run.
pub proof fn lemma_run_stays_stuck(attempt: AttemptView, replies: Seq<Reply>, upto: int)
    requires
        0 <= upto <= replies.len(),
        attempt.run(replies.take(upto)) is None,
    ensures
        attempt.run(replies) is None,
    decreases replies.len() - upto,
{
    if upto == replies.len() {
        assert(replies.take(upto) == replies);
    } else {
        let longer = replies.take(upto + 1);
        assert(longer.drop_last() == replies.take(upto));
        lemma_run_stays_stuck(attempt, replies, upto + 1);
    }
}

} // verus!
