//! Why an installation attempt ended without a result of the daemon.

use vstd::prelude::*;

verus! {

/// The ways in which an attempt ends in an error.
///
/// A daemon that could not be reached is none of them: the attempt then
/// ends with the plain result "not installed".
#[derive(Debug, Clone, Copy, PartialEq, Eq)]
pub enum Failure {
    /// The system bus, or the authority's interface on it, could not be
    /// reached.
    Connection,
    /// No subject could be made that stands for the calling process.
    SubjectConstruction,
    /// The authority was asked and the question itself failed: nothing is
    /// known of the answer.
    AuthorizationCheck,
    /// The authority answered, and the answer was no.
    PermissionDenied,
    /// The daemon's transaction was started and did not run to success.
    Installation,
}

impl Failure {
    /// The one line that describes this failure to a reader.
    pub open spec fn description(self) -> Seq<char> {
        match self {
            Failure::Connection => "could not connect to the system bus"@,
            Failure::SubjectConstruction => "could not create policykit1 subject"@,
            Failure::AuthorizationCheck => "could not check policykit authorization"@,
            Failure::PermissionDenied => "Operation not permitted by Polkit"@,
            Failure::Installation => "Error during installation"@,
        }
    }

    /// Whether the authority decided against the caller, as opposed to
    /// something having gone wrong.
    pub open spec fn is_denial(self) -> bool {
        self == Failure::PermissionDenied
    }

    /// The text of `description`.
    pub fn message(&self) -> (text: &'static str)
        ensures
            text@ == self.description(),
    {
        match self {
            Failure::Connection => "could not connect to the system bus",
            Failure::SubjectConstruction => "could not create policykit1 subject",
            Failure::AuthorizationCheck => "could not check policykit authorization",
            Failure::PermissionDenied => "Operation not permitted by Polkit",
            Failure::Installation => "Error during installation",
        }
    }

    /// Tells a refusal by the authority from every other failure.
    pub fn denied(&self) -> (denied: bool)
        ensures
            denied == self.is_denial(),
    {
        match self {
            Failure::PermissionDenied => true,
            _ => false,
        }
    }
}

/// No two failures share a description: a reader of the text alone can
/// tell them apart.
pub proof fn lemma_descriptions_differ(a: Failure, b: Failure)
    requires
        a != b,
    ensures
        a.description() != b.description(),
{
    reveal_strlit("could not connect to the system bus");
    reveal_strlit("could not create policykit1 subject");
    reveal_strlit("could not check policykit authorization");
    reveal_strlit("Operation not permitted by Polkit");
    reveal_strlit("Error during installation");
    let x = a.description();
    let y = b.description();
    if x == y {
        assert(x.len() == y.len());
        assert(x[0] == y[0]);
        assert(x[10] == y[10]);
        assert(x[11] == y[11]);
    }
}

} // verus!
