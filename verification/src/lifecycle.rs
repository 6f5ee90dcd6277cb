//! The update-request lifecycle: a store of requests keyed by namespace and
//! derived name. Creation is idempotent while a request is in flight, a
//! completed or failed request is superseded by a fresh one, a rejection of
//! the same candidate stands, and phase changes go through the state
//! machine, which refuses to leave a terminal phase.

use vstd::prelude::*;
use vstd::string::*;
use crate::requests::{
    is_terminal, phase_is_terminal, request_name, spec_request_name, transition_allowed,
    StateConflictError, UpdatePhase, UpdateRequest, UpdateRequestSpec, UpdateRequestStatus,
    TargetRef,
};
use crate::strutil::str_eq;

verus! {

/// Whether `req` is stored under namespace `ns` and name `name`.
pub open spec fn key_matches(req: UpdateRequest, ns: Seq<char>, name: Seq<char>) -> bool {
    req.namespace@ == ns && req.name@ == name
}

/// Index of the first request stored under the key, from `i` on; `-1` if
/// there is none.
pub open spec fn find_from(s: Seq<UpdateRequest>, i: int, ns: Seq<char>, name: Seq<char>) -> int
    decreases s.len() - i
    when 0 <= i <= s.len()
{
    if i == s.len() {
        -1
    } else if key_matches(s[i], ns, name) {
        i
    } else {
        find_from(s, i + 1, ns, name)
    }
}

/// Index of the first request stored under the key; `-1` if there is none.
pub open spec fn find_idx(s: Seq<UpdateRequest>, ns: Seq<char>, name: Seq<char>) -> int {
    find_from(s, 0, ns, name)
}

pub proof fn lemma_find_from_props(s: Seq<UpdateRequest>, i: int, ns: Seq<char>, name: Seq<char>)
    requires
        0 <= i <= s.len(),
    ensures
        find_from(s, i, ns, name) == -1 || i <= find_from(s, i, ns, name) < s.len(),
        find_from(s, i, ns, name) == -1 ==> forall|k: int|
            i <= k < s.len() ==> !key_matches(s[k], ns, name),
        find_from(s, i, ns, name) >= 0 ==> {
            &&& i <= find_from(s, i, ns, name) < s.len()
            &&& key_matches(s[find_from(s, i, ns, name)], ns, name)
            &&& forall|k: int| i <= k < find_from(s, i, ns, name) ==> !key_matches(s[k], ns, name)
        },
    decreases s.len() - i,
{
    if i < s.len() && !key_matches(s[i], ns, name) {
        lemma_find_from_props(s, i + 1, ns, name);
    }
}

/// A scan whose first match sits at `f` pins down `find_from`.
pub proof fn lemma_find_from_at(s: Seq<UpdateRequest>, i: int, f: int, ns: Seq<char>, name: Seq<char>)
    requires
        0 <= i <= f <= s.len(),
        forall|k: int| i <= k < f ==> !key_matches(s[k], ns, name),
        f == s.len() || key_matches(s[f], ns, name),
    ensures
        find_from(s, i, ns, name) == if f == s.len() {
            -1int
        } else {
            f
        },
    decreases f - i,
{
    if i < f {
        lemma_find_from_at(s, i + 1, f, ns, name);
    }
}

/// No two stored requests share a key.
pub open spec fn store_wf(s: Seq<UpdateRequest>) -> bool {
    forall|i: int, j: int|
        0 <= i < j < s.len() ==> !(#[trigger] s[i].namespace@ == #[trigger] s[j].namespace@
            && s[i].name@ == s[j].name@)
}

/// Whether a stored request under the same identity makes an upsert a
/// no-op: it is still in flight, or it was rejected — an operator's
/// rejection of this very candidate stands and is never resurrected by a
/// later reconcile tick.
pub open spec fn upsert_keeps(existing: UpdateRequest) -> bool {
    existing.is_active() || existing.spec_phase() == UpdatePhase::Rejected
}

/// What an upsert leaves in the store: nothing new while an active or
/// rejected request with the same identity exists; a completed or failed
/// one is replaced; otherwise the request is added.
pub open spec fn spec_upsert(s: Seq<UpdateRequest>, req: UpdateRequest) -> Seq<UpdateRequest> {
    let i = find_idx(s, req.namespace@, req.name@);
    if i >= 0 && upsert_keeps(s[i]) {
        s
    } else if i >= 0 {
        s.remove(i).push(req)
    } else {
        s.push(req)
    }
}

/// Which of the four things an upsert did.
#[derive(Clone, Copy, Debug, PartialEq, Eq, Structural)]
pub enum UpsertOutcome {
    /// An active request with this identity already exists; nothing stored.
    Existing,
    /// A rejected request for this very candidate stands; the rejection is
    /// honoured and nothing is stored.
    Blocked,
    /// A completed or failed request with this identity was superseded.
    Replaced,
    /// No request with this identity existed; a fresh one was stored.
    Created,
}

/// The outcome `spec_upsert` corresponds to.
pub open spec fn spec_upsert_outcome(s: Seq<UpdateRequest>, req: UpdateRequest) -> UpsertOutcome {
    let i = find_idx(s, req.namespace@, req.name@);
    if i >= 0 && s[i].is_active() {
        UpsertOutcome::Existing
    } else if i >= 0 && s[i].spec_phase() == UpdatePhase::Rejected {
        UpsertOutcome::Blocked
    } else if i >= 0 {
        UpsertOutcome::Replaced
    } else {
        UpsertOutcome::Created
    }
}

/// A rejection is never resurrected: when the request stored under the
/// same identity is rejected, an upsert for that candidate leaves the
/// store exactly as it was.
pub proof fn lemma_rejection_stands(s: Seq<UpdateRequest>, req: UpdateRequest)
    requires
        find_idx(s, req.namespace@, req.name@) >= 0,
        s[find_idx(s, req.namespace@, req.name@)].spec_phase() == UpdatePhase::Rejected,
    ensures
        spec_upsert(s, req) == s,
{
}

/// Upserting preserves key uniqueness.
pub proof fn lemma_upsert_wf(s: Seq<UpdateRequest>, req: UpdateRequest)
    requires
        store_wf(s),
    ensures
        store_wf(spec_upsert(s, req)),
{
    let ns = req.namespace@;
    let name = req.name@;
    let i = find_idx(s, ns, name);
    lemma_find_from_props(s, 0, ns, name);
    if i >= 0 && upsert_keeps(s[i]) {
    } else if i >= 0 {
        s.remove_ensures(i);
        let s2 = s.remove(i).push(req);
        assert forall|a: int, b: int|
            0 <= a < b < s2.len() implies !(s2[a].namespace@ == s2[b].namespace@ && s2[a].name@
            == s2[b].name@) by {
            let r = s.remove(i);
            if b < s2.len() - 1 {
                let a0 = if a < i { a } else { a + 1 };
                let b0 = if b < i { b } else { b + 1 };
                assert(s2[a] == s[a0] && s2[b] == s[b0]);
            } else {
                let a0 = if a < i { a } else { a + 1 };
                assert(s2[a] == s[a0]);
                assert(s2[b] == req);
                if s[a0].namespace@ == ns && s[a0].name@ == name {
                    if a0 < i {
                        assert(!(s[a0].namespace@ == s[i].namespace@ && s[a0].name@ == s[i].name@));
                    } else {
                        assert(!(s[i].namespace@ == s[a0].namespace@ && s[i].name@ == s[a0].name@));
                    }
                }
            }
        }
    } else {
        let s2 = s.push(req);
        assert forall|a: int, b: int|
            0 <= a < b < s2.len() implies !(s2[a].namespace@ == s2[b].namespace@ && s2[a].name@
            == s2[b].name@) by {
            if b < s2.len() - 1 {
                assert(s2[a] == s[a] && s2[b] == s[b]);
            } else {
                assert(s2[a] == s[a]);
                assert(s2[b] == req);
                assert(!key_matches(s[a], ns, name));
            }
        }
    }
}

/// Idempotence of pending-request creation: once an upsert has run for a
/// given target and candidate version, running the same upsert again leaves
/// the store exactly as the first run left it, so reconcile ticks never pile
/// up duplicate requests.
pub proof fn lemma_upsert_idempotent(s: Seq<UpdateRequest>, req: UpdateRequest)
    requires
        store_wf(s),
        req.is_active(),
    ensures
        spec_upsert(spec_upsert(s, req), req) == spec_upsert(s, req),
{
    let ns = req.namespace@;
    let name = req.name@;
    let i = find_idx(s, ns, name);
    lemma_find_from_props(s, 0, ns, name);
    if i >= 0 && upsert_keeps(s[i]) {
        // Nothing was stored; the second run finds the same kept request.
    } else if i >= 0 {
        s.remove_ensures(i);
        let r = s.remove(i);
        let s1 = r.push(req);
        assert forall|k: int| 0 <= k < s1.len() - 1 implies !key_matches(s1[k], ns, name) by {
            let k0 = if k < i {
                k
            } else {
                k + 1
            };
            assert(s1[k] == s[k0]);
            if s[k0].namespace@ == ns && s[k0].name@ == name {
                if k0 < i {
                    assert(!(s[k0].namespace@ == s[i].namespace@ && s[k0].name@ == s[i].name@));
                } else {
                    assert(!(s[i].namespace@ == s[k0].namespace@ && s[i].name@ == s[k0].name@));
                }
            }
        }
        assert(key_matches(s1[s1.len() - 1], ns, name));
        lemma_find_from_at(s1, 0, s1.len() - 1, ns, name);
        assert(find_idx(s1, ns, name) == s1.len() - 1);
        assert(s1[s1.len() - 1] == req);
    } else {
        let s1 = s.push(req);
        assert forall|k: int| 0 <= k < s1.len() - 1 implies !key_matches(s1[k], ns, name) by {
            assert(s1[k] == s[k]);
        }
        assert(key_matches(s1[s1.len() - 1], ns, name));
        lemma_find_from_at(s1, 0, s1.len() - 1, ns, name);
        assert(s1[s1.len() - 1] == req);
    }
}

/// A request's status once its phase has moved to `to`; a request that had
/// no status yet gets a fresh one.
pub open spec fn effective_status(req: UpdateRequest) -> UpdateRequestStatus {
    match req.status {
        Some(st) => st,
        None => UpdateRequestStatus {
            phase: UpdatePhase::Pending,
            approved_by: None,
            rejected_by: None,
            message: None,
        },
    }
}

/// `req` with its phase moved to `to`, everything else untouched.
pub open spec fn with_phase(req: UpdateRequest, to: UpdatePhase) -> UpdateRequest {
    UpdateRequest {
        status: Some(UpdateRequestStatus { phase: to, ..effective_status(req) }),
        ..req
    }
}

/// A failure to move a stored request's phase.
#[derive(Clone, Copy, Debug, PartialEq, Eq, Structural)]
pub enum StoreError {
    /// No request stored under that identity.
    NotFound,
    /// The state machine refuses the transition.
    Conflict(StateConflictError),
}

fn dup_opt_string(o: &Option<String>) -> (r: Option<String>)
    ensures
        r == *o,
{
    match o {
        Some(s) => Some(s.clone()),
        None => None,
    }
}

fn dup_target(t: &TargetRef) -> (r: TargetRef)
    ensures
        r == *t,
{
    TargetRef {
        api_version: t.api_version.clone(),
        kind: t.kind.clone(),
        name: t.name.clone(),
        namespace: t.namespace.clone(),
    }
}

fn dup_spec(s: &UpdateRequestSpec) -> (r: UpdateRequestSpec)
    ensures
        r == *s,
{
    UpdateRequestSpec {
        target_ref: dup_target(&s.target_ref),
        update_type: s.update_type,
        container_name: dup_opt_string(&s.container_name),
        current_image: s.current_image.clone(),
        new_image: s.new_image.clone(),
        policy: s.policy,
        reason: dup_opt_string(&s.reason),
        require_approval: s.require_approval,
        expires_at: s.expires_at,
    }
}

fn dup_status(s: &UpdateRequestStatus) -> (r: UpdateRequestStatus)
    ensures
        r == *s,
{
    UpdateRequestStatus {
        phase: s.phase,
        approved_by: dup_opt_string(&s.approved_by),
        rejected_by: dup_opt_string(&s.rejected_by),
        message: dup_opt_string(&s.message),
    }
}

/// The in-flight store of update requests, one per (namespace, name).
#[derive(Debug)]
pub struct RequestStore {
    items: Vec<UpdateRequest>,
}

impl RequestStore {
    /// The stored requests, in storage order.
    pub closed spec fn reqs(self) -> Seq<UpdateRequest> {
        self.items@
    }

    /// Key uniqueness, which every method preserves.
    pub open spec fn wf(self) -> bool {
        store_wf(self.reqs())
    }

    /// An empty store.
    pub fn new() -> (r: Self)
        ensures
            r.reqs() == Seq::<UpdateRequest>::empty(),
            r.wf(),
    {
        RequestStore { items: Vec::new() }
    }

    /// How many requests are stored.
    pub fn len(&self) -> (n: usize)
        ensures
            n == self.reqs().len(),
    {
        self.items.len()
    }

    /// The request at position `i`.
    pub fn get(&self, i: usize) -> (r: &UpdateRequest)
        requires
            i < self.reqs().len(),
        ensures
            *r == self.reqs()[i as int],
    {
        &self.items[i]
    }

    /// Position of the request stored under the given identity.
    pub fn find(&self, namespace: &str, name: &str) -> (r: Option<usize>)
        ensures
            match r {
                Some(i) => find_idx(self.reqs(), namespace@, name@) == i,
                None => find_idx(self.reqs(), namespace@, name@) == -1,
            },
    {
        let mut i: usize = 0;
        while i < self.items.len()
            invariant
                i <= self.items@.len(),
                find_from(self.items@, i as int, namespace@, name@) == find_idx(
                    self.items@,
                    namespace@,
                    name@,
                ),
            decreases self.items@.len() - i,
        {
            if str_eq(self.items[i].namespace.as_str(), namespace) && str_eq(
                self.items[i].name.as_str(),
                name,
            ) {
                return Some(i);
            }
            i += 1;
        }
        None
    }

    /// Namespace-scoped lookup of the in-flight request proposing that
    /// `target` move to `candidate`, by its deterministic derived name.
    pub fn find_active(&self, namespace: &str, target: &str, candidate: &str) -> (r: Option<usize>)
        ensures
            ({
                let idx = find_idx(
                    self.reqs(),
                    namespace@,
                    spec_request_name(target@, candidate@),
                );
                match r {
                    Some(i) => idx == i && self.reqs()[i as int].is_active(),
                    None => idx == -1 || !self.reqs()[idx].is_active(),
                }
            }),
    {
        let name = request_name(target, candidate);
        match self.find(namespace, name.as_str()) {
            Some(i) => {
                proof {
                    lemma_find_from_props(self.reqs(), 0, namespace@, name@);
                }
                if phase_is_terminal(self.get(i).phase()) {
                    None
                } else {
                    Some(i)
                }
            },
            None => None,
        }
    }

    /// Store `req` unless a request with the same identity is still in
    /// flight or was rejected: a rejection of this very candidate is
    /// honoured across reconcile ticks and never resurrected, while a later
    /// candidate derives a different name and is not blocked by it. A
    /// completed or failed request is deleted and replaced by `req`.
    /// Repeating the call for the same proposal never stores a second
    /// object.
    pub fn upsert_pending(&mut self, req: UpdateRequest) -> (r: UpsertOutcome)
        requires
            old(self).wf(),
        ensures
            final(self).reqs() == spec_upsert(old(self).reqs(), req),
            r == spec_upsert_outcome(old(self).reqs(), req),
            final(self).wf(),
    {
        proof {
            lemma_upsert_wf(old(self).reqs(), req);
        }
        let found = self.find(req.namespace.as_str(), req.name.as_str());
        match found {
            Some(i) => {
                proof {
                    lemma_find_from_props(self.reqs(), 0, req.namespace@, req.name@);
                }
                let phase = self.get(i).phase();
                if !phase_is_terminal(phase) {
                    UpsertOutcome::Existing
                } else if matches!(phase, UpdatePhase::Rejected) {
                    UpsertOutcome::Blocked
                } else {
                    let _superseded = self.items.remove(i);
                    self.items.push(req);
                    UpsertOutcome::Replaced
                }
            },
            None => {
                self.items.push(req);
                UpsertOutcome::Created
            },
        }
    }

    /// Move the phase of the request stored under the given identity. A
    /// transition out of a terminal phase is refused: the error names the
    /// conflict and the stored request is unchanged.
    pub fn transition(&mut self, namespace: &str, name: &str, to: UpdatePhase) -> (r: Result<
        (),
        StoreError,
    >)
        requires
            old(self).wf(),
        ensures
            ({
                let idx = find_idx(old(self).reqs(), namespace@, name@);
                &&& idx == -1 ==> r == Err::<(), StoreError>(StoreError::NotFound)
                    && final(self).reqs() == old(self).reqs()
                &&& idx >= 0 ==> {
                    let ph = old(self).reqs()[idx].spec_phase();
                    if transition_allowed(ph, to) {
                        &&& r is Ok
                        &&& final(self).reqs() == old(self).reqs().update(
                            idx,
                            with_phase(old(self).reqs()[idx], to),
                        )
                    } else {
                        &&& r == Err::<(), StoreError>(
                            StoreError::Conflict(StateConflictError { from: ph, to }),
                        )
                        &&& final(self).reqs() == old(self).reqs()
                    }
                }
            }),
            final(self).wf(),
    {
        let found = self.find(namespace, name);
        match found {
            None => Err(StoreError::NotFound),
            Some(i) => {
                proof {
                    lemma_find_from_props(self.reqs(), 0, namespace@, name@);
                }
                let mut st = match &self.items[i].status {
                    Some(st) => dup_status(st),
                    None => UpdateRequestStatus::default(),
                };
                match st.transition(to) {
                    Ok(()) => {
                        let cur = &self.items[i];
                        let updated = UpdateRequest {
                            name: cur.name.clone(),
                            namespace: cur.namespace.clone(),
                            creation_timestamp: cur.creation_timestamp,
                            spec: dup_spec(&cur.spec),
                            status: Some(st),
                        };
                        proof {
                            assert(updated == with_phase(old(self).reqs()[i as int], to));
                        }
                        self.items[i] = updated;
                        proof {
                            assert forall|a: int, b: int|
                                0 <= a < b < self.items@.len() implies !(
                            #[trigger] self.items@[a].namespace@
                                == #[trigger] self.items@[b].namespace@ && self.items@[a].name@
                                == self.items@[b].name@) by {
                                assert(old(self).reqs()[a].namespace@ == self.items@[a].namespace@
                                    && old(self).reqs()[a].name@ == self.items@[a].name@);
                                assert(old(self).reqs()[b].namespace@ == self.items@[b].namespace@
                                    && old(self).reqs()[b].name@ == self.items@[b].name@);
                            }
                        }
                        Ok(())
                    },
                    Err(e) => Err(StoreError::Conflict(e)),
                }
            },
        }
    }
}

} // verus!
