//! What is handed to the outside services.
//!
//! Each request is plain data. Whoever holds the bus connection turns it
//! into the call that the service offers.

use vstd::prelude::*;

verus! {

/// The action that the authority is asked about: installing a local
/// package file.
pub const INSTALL_FILE_ACTION: &'static str = "org.debian.apt.install-file";

/// The process that asks for an authorization.
///
/// It is named by its process identifier alone: neither its start time nor
/// its owner is supplied, so both are `None` in every request that this
/// crate makes.
#[derive(Debug, Clone, Copy, PartialEq, Eq)]
pub struct SubjectRequest {
    pub pid: u32,
    pub start_time: Option<u64>,
    pub uid: Option<u32>,
}

/// One question to the authority: may `subject` do `action_id`?
#[derive(Debug, Clone, PartialEq, Eq)]
pub struct AuthorizationRequest {
    pub subject: SubjectRequest,
    pub action_id: &'static str,
    /// Further details of the action, as pairs of key and value.
    pub details: Vec<(&'static str, &'static str)>,
    /// Whether the authority may ask the user, for a password or the like.
    pub allow_user_interaction: bool,
    /// The name under which the question could be withdrawn; empty where it
    /// cannot.
    pub cancellation_id: &'static str,
}

/// One order to the package daemon: install the file at `path`.
#[derive(Debug, Clone, Copy, PartialEq, Eq)]
pub struct InstallRequest<'a> {
    pub path: &'a str,
    /// Whether the daemon is to override its own safety checks.
    pub force: bool,
}

impl SubjectRequest {
    /// The subject that stands for the process `pid`.
    pub open spec fn for_process(pid: u32) -> SubjectRequest {
        SubjectRequest { pid, start_time: None, uid: None }
    }
}

impl AuthorizationRequest {
    /// Whether this is the question that is asked before a file is
    /// installed on behalf of the process `pid`: about the install-file
    /// action, without details, open to a prompt, and not to be withdrawn.
    pub open spec fn is_install_check_for(self, pid: u32) -> bool {
        &&& self.subject == SubjectRequest::for_process(pid)
        &&& self.action_id@ == INSTALL_FILE_ACTION@
        &&& self.details@.len() == 0
        &&& self.allow_user_interaction
        &&& self.cancellation_id@.len() == 0
    }
}

impl<'a> InstallRequest<'a> {
    /// Whether this is the plain order to install the file at `path`,
    /// with nothing overridden.
    pub open spec fn is_plain_install_of(self, path: Seq<char>) -> bool {
        &&& self.path@ == path
        &&& !self.force
    }
}

} // verus!
