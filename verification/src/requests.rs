//! Update-approval requests: the namespaced objects that record a proposed
//! version change, and the phase state machine that governs them.

use vstd::prelude::*;
use vstd::string::*;
use crate::policy::UpdatePolicy;
use crate::strutil::lower_char;

verus! {

/// Phase of an update request's lifecycle.
#[derive(Clone, Copy, Debug, PartialEq, Eq, Structural)]
pub enum UpdatePhase {
    /// Waiting for a human decision.
    Pending,
    /// Cleared to be applied.
    Approved,
    /// Declined; terminal.
    Rejected,
    /// Applied successfully; terminal.
    Completed,
    /// Expired or failed to apply; terminal.
    Failed,
}

/// The phases no request ever leaves.
pub open spec fn is_terminal(p: UpdatePhase) -> bool {
    p == UpdatePhase::Rejected || p == UpdatePhase::Completed || p == UpdatePhase::Failed
}

/// Phase transitions the state machine allows: `Pending` may be approved,
/// rejected or failed (expiry), `Approved` may complete or fail, and the
/// terminal phases allow nothing.
pub open spec fn transition_allowed(from: UpdatePhase, to: UpdatePhase) -> bool {
    match from {
        UpdatePhase::Pending => to == UpdatePhase::Approved || to == UpdatePhase::Rejected || to
            == UpdatePhase::Failed,
        UpdatePhase::Approved => to == UpdatePhase::Completed || to == UpdatePhase::Failed,
        _ => false,
    }
}

/// Exec mirror of `is_terminal`.
pub fn phase_is_terminal(p: UpdatePhase) -> (r: bool)
    ensures
        r == is_terminal(p),
{
    match p {
        UpdatePhase::Rejected | UpdatePhase::Completed | UpdatePhase::Failed => true,
        _ => false,
    }
}

/// An attempted phase transition that the state machine forbids.
#[derive(Clone, Copy, Debug, PartialEq, Eq, Structural)]
pub struct StateConflictError {
    pub from: UpdatePhase,
    pub to: UpdatePhase,
}

/// A terminal phase allows no transition at all: whatever is attempted out
/// of `Rejected`, `Completed` or `Failed` is refused.
pub proof fn lemma_terminal_immutable(from: UpdatePhase, to: UpdatePhase)
    requires
        is_terminal(from),
    ensures
        !transition_allowed(from, to),
{
}

/// The phase name, for display.
pub open spec fn spec_phase_name(p: UpdatePhase) -> Seq<char> {
    match p {
        UpdatePhase::Pending => "Pending"@,
        UpdatePhase::Approved => "Approved"@,
        UpdatePhase::Rejected => "Rejected"@,
        UpdatePhase::Completed => "Completed"@,
        UpdatePhase::Failed => "Failed"@,
    }
}

impl UpdatePhase {
    /// The phase name, for display.
    pub fn name(&self) -> (r: &'static str)
        ensures
            r@ == spec_phase_name(*self),
    {
        match self {
            UpdatePhase::Pending => "Pending",
            UpdatePhase::Approved => "Approved",
            UpdatePhase::Rejected => "Rejected",
            UpdatePhase::Completed => "Completed",
            UpdatePhase::Failed => "Failed",
        }
    }
}

/// The policy snapshot stored on a request.
#[derive(Clone, Copy, Debug, PartialEq, Eq, Structural)]
pub enum UpdatePolicyType {
    Patch,
    Minor,
    Major,
    Glob,
    Never,
}

/// The stored policy corresponding to an engine policy; `All` and `Force`
/// are recorded as `Major`, the widest stored tier.
pub open spec fn spec_policy_to_crd(p: UpdatePolicy) -> UpdatePolicyType {
    match p {
        UpdatePolicy::Patch => UpdatePolicyType::Patch,
        UpdatePolicy::Minor => UpdatePolicyType::Minor,
        UpdatePolicy::Major => UpdatePolicyType::Major,
        UpdatePolicy::Glob => UpdatePolicyType::Glob,
        UpdatePolicy::Never => UpdatePolicyType::Never,
        UpdatePolicy::All | UpdatePolicy::Force => UpdatePolicyType::Major,
    }
}

/// Map an engine policy onto the stored policy snapshot.
pub fn map_policy_to_crd(policy: &UpdatePolicy) -> (r: UpdatePolicyType)
    ensures
        r == spec_policy_to_crd(*policy),
{
    match policy {
        UpdatePolicy::Patch => UpdatePolicyType::Patch,
        UpdatePolicy::Minor => UpdatePolicyType::Minor,
        UpdatePolicy::Major => UpdatePolicyType::Major,
        UpdatePolicy::Glob => UpdatePolicyType::Glob,
        UpdatePolicy::Never => UpdatePolicyType::Never,
        UpdatePolicy::All | UpdatePolicy::Force => UpdatePolicyType::Major,
    }
}

/// The stored policy's name, for display.
pub open spec fn spec_policy_type_name(p: UpdatePolicyType) -> Seq<char> {
    match p {
        UpdatePolicyType::Patch => "Patch"@,
        UpdatePolicyType::Minor => "Minor"@,
        UpdatePolicyType::Major => "Major"@,
        UpdatePolicyType::Glob => "Glob"@,
        UpdatePolicyType::Never => "Never"@,
    }
}

impl UpdatePolicyType {
    /// The stored policy's name, for display.
    pub fn name(&self) -> (r: &'static str)
        ensures
            r@ == spec_policy_type_name(*self),
    {
        match self {
            UpdatePolicyType::Patch => "Patch",
            UpdatePolicyType::Minor => "Minor",
            UpdatePolicyType::Major => "Major",
            UpdatePolicyType::Glob => "Glob",
            UpdatePolicyType::Never => "Never",
        }
    }
}

/// What kind of thing the request updates.
#[derive(Clone, Copy, Debug, PartialEq, Eq, Structural)]
pub enum UpdateType {
    Image,
    HelmChart,
}

/// The object a request points at.
#[derive(Clone, Debug)]
pub struct TargetRef {
    pub api_version: String,
    pub kind: String,
    pub name: String,
    pub namespace: String,
}

/// What a request proposes.
#[derive(Clone, Debug)]
pub struct UpdateRequestSpec {
    pub target_ref: TargetRef,
    pub update_type: UpdateType,
    pub container_name: Option<String>,
    pub current_image: String,
    pub new_image: String,
    pub policy: UpdatePolicyType,
    pub reason: Option<String>,
    pub require_approval: bool,
    /// Expiry deadline, as seconds since the epoch.
    pub expires_at: Option<i64>,
}

/// Where a request stands.
#[derive(Clone, Debug)]
pub struct UpdateRequestStatus {
    pub phase: UpdatePhase,
    pub approved_by: Option<String>,
    pub rejected_by: Option<String>,
    pub message: Option<String>,
}

impl Default for UpdateRequestStatus {
    /// A fresh status: pending, with nothing recorded yet.
    fn default() -> (r: Self)
        ensures
            r.phase == UpdatePhase::Pending,
            r.approved_by is None,
            r.rejected_by is None,
            r.message is None,
    {
        UpdateRequestStatus {
            phase: UpdatePhase::Pending,
            approved_by: None,
            rejected_by: None,
            message: None,
        }
    }
}

impl UpdateRequestStatus {
    /// Move to phase `to`. A transition the state machine forbids is
    /// refused: the stored phase is preserved and the conflict is returned.
    pub fn transition(&mut self, to: UpdatePhase) -> (r: Result<(), StateConflictError>)
        ensures
            transition_allowed(old(self).phase, to) ==> {
                &&& r is Ok
                &&& final(self).phase == to
                &&& final(self).approved_by == old(self).approved_by
                &&& final(self).rejected_by == old(self).rejected_by
                &&& final(self).message == old(self).message
            },
            !transition_allowed(old(self).phase, to) ==> {
                &&& r == Err::<(), StateConflictError>(
                    StateConflictError { from: old(self).phase, to },
                )
                &&& *final(self) == *old(self)
            },
    {
        let allowed = match self.phase {
            UpdatePhase::Pending => matches!(
                to,
                UpdatePhase::Approved | UpdatePhase::Rejected | UpdatePhase::Failed
            ),
            UpdatePhase::Approved => matches!(to, UpdatePhase::Completed | UpdatePhase::Failed),
            _ => false,
        };
        if allowed {
            self.phase = to;
            Ok(())
        } else {
            Err(StateConflictError { from: self.phase, to })
        }
    }
}

/// A namespaced update-approval request.
#[derive(Clone, Debug)]
pub struct UpdateRequest {
    /// Object name, derived from target and candidate version.
    pub name: String,
    pub namespace: String,
    /// Creation time, as seconds since the epoch.
    pub creation_timestamp: Option<i64>,
    pub spec: UpdateRequestSpec,
    pub status: Option<UpdateRequestStatus>,
}

impl UpdateRequest {
    /// The effective phase: a request without a status yet is pending.
    pub open spec fn spec_phase(self) -> UpdatePhase {
        match self.status {
            Some(st) => st.phase,
            None => UpdatePhase::Pending,
        }
    }

    /// A request still in flight.
    pub open spec fn is_active(self) -> bool {
        !is_terminal(self.spec_phase())
    }

    /// The effective phase: a request without a status yet is pending.
    pub fn phase(&self) -> (p: UpdatePhase)
        ensures
            p == self.spec_phase(),
    {
        match &self.status {
            Some(st) => st.phase,
            None => UpdatePhase::Pending,
        }
    }
}

/// Characters of a candidate version as they appear in a derived object
/// name: separators become `-` and letters are lowercased.
pub open spec fn sanitize_char(c: char) -> char {
    if c == ':' || c == '.' || c == '/' {
        '-'
    } else {
        lower_char(c)
    }
}

/// A candidate version as it appears in a derived object name.
pub open spec fn sanitize_seq(s: Seq<char>) -> Seq<char> {
    s.map_values(|c: char| sanitize_char(c))
}

/// The derived name of the request for `target` moving to `version`.
pub open spec fn spec_request_name(target: Seq<char>, version: Seq<char>) -> Seq<char> {
    target + seq!['-'] + sanitize_seq(version)
}

fn sanitize_char_exec(c: char) -> (r: char)
    ensures
        r == sanitize_char(c),
{
    if c == ':' || c == '.' || c == '/' {
        '-'
    } else {
        crate::strutil::to_ascii_lower(c)
    }
}

/// The deterministic name of the request proposing that `target` move to
/// `version`: the same proposal always derives the same name.
pub fn request_name(target: &str, version: &str) -> (r: String)
    ensures
        r@ == spec_request_name(target@, version@),
{
    let vs = crate::strutil::chars_of(version);
    let mut out = String::from_str(target);
    out.push('-');
    let mut i: usize = 0;
    while i < vs.len()
        invariant
            i <= vs@.len(),
            vs@ == version@,
            out@ == target@ + seq!['-'] + sanitize_seq(version@).subrange(0, i as int),
        decreases vs@.len() - i,
    {
        out.push(sanitize_char_exec(vs[i]));
        proof {
            assert((target@ + seq!['-'] + sanitize_seq(version@).subrange(0, i as int)).push(
                sanitize_char(version@[i as int]),
            ) =~= target@ + seq!['-'] + sanitize_seq(version@).subrange(0, i + 1));
        }
        i += 1;
    }
    proof {
        assert(sanitize_seq(version@).subrange(0, version@.len() as int) =~= sanitize_seq(
            version@,
        ));
    }
    out
}

} // verus!
