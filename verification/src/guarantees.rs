//! What holds of every attempt, whatever the outside answers.
//!
//! Each statement here is about [`AttemptView::run`], the step that is
//! pending after a given sequence of replies, and so about every way in
//! which a caller can drive [`crate::protocol::Attempt::advance`].

use crate::failure::{lemma_descriptions_differ, Failure};
use crate::protocol::{AttemptView, Reply, Step};
use vstd::prelude::*;

verus! {

impl Step {
    /// How far into an attempt the step lies: no step is pending after
    /// more replies than this.
    pub open spec fn depth(self) -> nat {
        match self {
            Step::Connect => 0,
            Step::OpenAuthority => 1,
            Step::BuildSubject => 2,
            Step::CheckAuthorization => 3,
            Step::OpenDaemon => 4,
            Step::InstallFile => 5,
            Step::BindTransaction => 6,
            Step::RunTransaction => 7,
            Step::Finish(_) => 8,
        }
    }
}

/// Whether the authority said yes at position `i` of `replies`: the step
/// that was pending there was the question to the authority, and the
/// reply to it was a positive verdict.
pub open spec fn permitted_at(attempt: AttemptView, replies: Seq<Reply>, i: int) -> bool {
    &&& 0 <= i < replies.len()
    &&& attempt.run(replies.take(i)) == Some(Step::CheckAuthorization)
    &&& replies[i] == Reply::Verdict(true)
}

/// A run that is one reply longer goes one step on from where the shorter
/// run stood.
pub proof fn lemma_run_push(attempt: AttemptView, replies: Seq<Reply>, reply: Reply)
    ensures
        attempt.run(replies.push(reply)) == (match attempt.run(replies) {
            Some(pending) => attempt.next(pending, reply),
            None => None,
        }),
{
    assert(replies.push(reply).drop_last() == replies);
}

/// A caller with the process identifier 0 is never checked: after the bus
/// is joined the daemon is addressed at once, and no step of the attempt
/// is addressed to the authority.
pub proof fn lemma_privileged_caller_is_not_checked(attempt: AttemptView, replies: Seq<Reply>)
    requires
        attempt.pid == 0,
    ensures
        attempt.next(Step::Connect, Reply::Completed) == Some(Step::OpenDaemon),
        attempt.run(replies) matches Some(step) ==> !step.concerns_authority(),
    decreases replies.len(),
{
    if replies.len() > 0 {
        lemma_privileged_caller_is_not_checked(attempt, replies.drop_last());
    }
}

/// The daemon is addressed only by a caller that may install: whenever a
/// step to the daemon is pending, the caller is privileged or the
/// authority has said yes earlier in this very attempt.
pub proof fn lemma_daemon_only_after_permission(attempt: AttemptView, replies: Seq<Reply>)
    requires
        attempt.run(replies) matches Some(step) && step.concerns_daemon(),
    ensures
        attempt.is_privileged() || exists|i: int| permitted_at(attempt, replies, i),
    decreases replies.len(),
{
    let before = replies.drop_last();
    let pending = attempt.run(before)->0;
    if pending == Step::CheckAuthorization {
        assert(replies.take(replies.len() - 1) == before);
        assert(permitted_at(attempt, replies, replies.len() - 1));
    } else if pending.concerns_daemon() {
        lemma_daemon_only_after_permission(attempt, before);
        if !attempt.is_privileged() {
            let i = choose|i: int| permitted_at(attempt, before, i);
            assert(replies.take(i) == before.take(i));
            assert(permitted_at(attempt, replies, i));
        }
    }
}

/// A no of the authority ends the attempt as a denial, and a question that
/// failed ends it as a failed check. The two are different failures with
/// different descriptions, and neither lets the daemon be addressed.
pub proof fn lemma_denial_is_told_from_failed_check(attempt: AttemptView, replies: Seq<Reply>)
    requires
        attempt.run(replies) == Some(Step::CheckAuthorization),
    ensures
        attempt.run(replies.push(Reply::Verdict(false))) == Some(
            Step::Finish(Err(Failure::PermissionDenied)),
        ),
        attempt.run(replies.push(Reply::Failed)) == Some(
            Step::Finish(Err(Failure::AuthorizationCheck)),
        ),
        Failure::PermissionDenied.is_denial(),
        !Failure::AuthorizationCheck.is_denial(),
        Failure::PermissionDenied.description() != Failure::AuthorizationCheck.description(),
{
    lemma_run_push(attempt, replies, Reply::Verdict(false));
    lemma_run_push(attempt, replies, Reply::Failed);
    lemma_descriptions_differ(Failure::PermissionDenied, Failure::AuthorizationCheck);
}

/// A daemon that cannot be brought to start is no error: where its
/// interface cannot be reached, where it does not take the order, or where
/// the transaction cannot be reached, the attempt ends with the result
/// "not installed".
pub proof fn lemma_unreachable_daemon_is_no_error(attempt: AttemptView, replies: Seq<Reply>)
    requires
        attempt.run(replies) matches Some(step) && (step is OpenDaemon || step is InstallFile
            || step is BindTransaction),
    ensures
        attempt.run(replies.push(Reply::Failed)) == Some(Step::Finish(Ok(false))),
{
    lemma_run_push(attempt, replies, Reply::Failed);
}

/// A transaction that was started and fails is an error, not the result
/// "not installed".
pub proof fn lemma_failed_run_is_an_error(attempt: AttemptView, replies: Seq<Reply>)
    requires
        attempt.run(replies) == Some(Step::RunTransaction),
    ensures
        attempt.run(replies.push(Reply::Failed)) == Some(
            Step::Finish(Err(Failure::Installation)),
        ),
        attempt.run(replies.push(Reply::Failed)) != Some(Step::Finish(Ok::<bool, Failure>(false))),
{
    lemma_run_push(attempt, replies, Reply::Failed);
}

/// Every reply takes the attempt further, and nothing is asked twice: a
/// step is pending after at most `depth` replies, so an attempt is over
/// after eight replies at the latest, and one that is over takes no more.
pub proof fn lemma_attempt_is_bounded(attempt: AttemptView, replies: Seq<Reply>)
    requires
        attempt.run(replies) is Some,
    ensures
        replies.len() <= attempt.run(replies)->0.depth() <= 8,
        attempt.run(replies)->0.is_final() ==> forall|reply: Reply|
            attempt.run(#[trigger] replies.push(reply)) is None,
    decreases replies.len(),
{
    if replies.len() > 0 {
        lemma_attempt_is_bounded(attempt, replies.drop_last());
    }
    assert forall|reply: Reply| attempt.run(replies)->0.is_final() implies attempt.run(
        #[trigger] replies.push(reply),
    ) is None by {
        lemma_run_push(attempt, replies, reply);
    }
}

/// The replies of the one run that installs the file: every request is
/// carried out, and the authority, where it is asked, says yes.
pub open spec fn successful_replies(attempt: AttemptView) -> Seq<Reply> {
    if attempt.is_privileged() {
        seq![
            Reply::Completed,
            Reply::Completed,
            Reply::Completed,
            Reply::Completed,
            Reply::Completed,
        ]
    } else {
        seq![
            Reply::Completed,
            Reply::Completed,
            Reply::Completed,
            Reply::Verdict(true),
            Reply::Completed,
            Reply::Completed,
            Reply::Completed,
            Reply::Completed,
        ]
    }
}

/// The file is installed in exactly one way: the attempt ends with
/// `Ok(true)` if and only if the replies were those of
/// `successful_replies`.
pub proof fn lemma_installed_exactly_when_all_succeed(attempt: AttemptView, replies: Seq<Reply>)
    ensures
        attempt.run(replies) == Some(Step::Finish(Ok::<bool, Failure>(true))) <==> replies
            == successful_replies(attempt),
{
    let good = successful_replies(attempt);
    if replies == good {
        lemma_run_of_successful_replies(attempt);
    }
    if attempt.run(replies) == Some(Step::Finish(Ok::<bool, Failure>(true))) {
        lemma_attempt_is_bounded(attempt, replies);
        let r7 = replies.drop_last();
        assert(attempt.run(r7) == Some(Step::RunTransaction));
        let r6 = r7.drop_last();
        assert(attempt.run(r6) == Some(Step::BindTransaction));
        let r5 = r6.drop_last();
        assert(attempt.run(r5) == Some(Step::InstallFile));
        let r4 = r5.drop_last();
        assert(attempt.run(r4) == Some(Step::OpenDaemon));
        let r3 = r4.drop_last();
        if attempt.is_privileged() {
            lemma_privileged_caller_is_not_checked(attempt, r3);
            assert(attempt.run(r3) == Some(Step::Connect));
            lemma_attempt_is_bounded(attempt, r3);
            assert(r3.len() == 0);
            assert(replies =~= good);
        } else {
            assert(attempt.run(r3) == Some(Step::CheckAuthorization));
            let r2 = r3.drop_last();
            assert(attempt.run(r2) == Some(Step::BuildSubject));
            let r1 = r2.drop_last();
            assert(attempt.run(r1) == Some(Step::OpenAuthority));
            let r0 = r1.drop_last();
            assert(attempt.run(r0) == Some(Step::Connect));
            lemma_attempt_is_bounded(attempt, r0);
            assert(r0.len() == 0);
            assert(replies =~= good);
        }
    }
}

/// The run of `successful_replies` ends with the file installed.
pub proof fn lemma_run_of_successful_replies(attempt: AttemptView)
    ensures
        attempt.run(successful_replies(attempt)) == Some(Step::Finish(Ok::<bool, Failure>(true))),
{
    let c = Reply::Completed;
    let r0 = Seq::<Reply>::empty();
    assert(attempt.run(r0) == Some(Step::Connect));
    lemma_run_push(attempt, r0, c);
    let r1 = r0.push(c);
    if attempt.is_privileged() {
        lemma_run_push(attempt, r1, c);
        let r2 = r1.push(c);
        lemma_run_push(attempt, r2, c);
        let r3 = r2.push(c);
        lemma_run_push(attempt, r3, c);
        let r4 = r3.push(c);
        lemma_run_push(attempt, r4, c);
        assert(r4.push(c) =~= successful_replies(attempt));
    } else {
        lemma_run_push(attempt, r1, c);
        let r2 = r1.push(c);
        lemma_run_push(attempt, r2, c);
        let r3 = r2.push(c);
        lemma_run_push(attempt, r3, Reply::Verdict(true));
        let r4 = r3.push(Reply::Verdict(true));
        lemma_run_push(attempt, r4, c);
        let r5 = r4.push(c);
        lemma_run_push(attempt, r5, c);
        let r6 = r5.push(c);
        lemma_run_push(attempt, r6, c);
        let r7 = r6.push(c);
        lemma_run_push(attempt, r7, c);
        assert(r7.push(c) =~= successful_replies(attempt));
    }
}

} // verus!
