//! Flattening stored update requests into display rows.

use vstd::prelude::*;
use vstd::string::*;
use crate::image::{extract_versions, tag_or_whole};
use crate::requests::{spec_phase_name, spec_policy_type_name, UpdateRequest};
use crate::timefmt::{display_time_of, format_display_time, rfc3339_representable};

verus! {

/// One stored request, flattened for display.
#[derive(Debug)]
pub struct UpdateRequestView {
    pub name: String,
    pub namespace: String,
    pub resource_kind: String,
    pub resource_name: String,
    pub current_image: String,
    pub new_image: String,
    pub current_version: String,
    pub new_version: String,
    pub policy: String,
    pub status: String,
    pub created_at: String,
    pub approved_by: Option<String>,
    pub rejected_by: Option<String>,
    pub rejection_reason: Option<String>,
}

fn clone_opt(o: &Option<String>) -> (r: Option<String>)
    ensures
        r == *o,
{
    match o {
        Some(s) => Some(s.clone()),
        None => None,
    }
}

/// Flatten a stored request into a display row: versions split off the
/// image references, names for phase and policy, and the creation time
/// rendered human-readably (empty when unknown or unrepresentable).
pub fn convert_to_view(ur: &UpdateRequest) -> (r: UpdateRequestView)
    ensures
        r.name@ == ur.name@,
        r.namespace@ == ur.namespace@,
        r.resource_kind@ == ur.spec.target_ref.kind@,
        r.resource_name@ == ur.spec.target_ref.name@,
        r.current_image@ == ur.spec.current_image@,
        r.new_image@ == ur.spec.new_image@,
        r.current_version@ == tag_or_whole(ur.spec.current_image@),
        r.new_version@ == tag_or_whole(ur.spec.new_image@),
        r.policy@ == spec_policy_type_name(ur.spec.policy),
        r.status@ == spec_phase_name(ur.spec_phase()),
        match ur.creation_timestamp {
            Some(t) => if rfc3339_representable(t as int) {
                r.created_at@ == display_time_of(t as int)
            } else {
                r.created_at@.len() == 0
            },
            None => r.created_at@.len() == 0,
        },
        match ur.status {
            Some(st) => r.approved_by == st.approved_by && r.rejected_by == st.rejected_by
                && r.rejection_reason == st.message,
            None => r.approved_by is None && r.rejected_by is None && r.rejection_reason is None,
        },
{
    let versions = extract_versions(ur.spec.current_image.as_str(), ur.spec.new_image.as_str());
    let created_at = match ur.creation_timestamp {
        Some(t) => match format_display_time(t) {
            Some(s) => s,
            None => String::new(),
        },
        None => String::new(),
    };
    let (approved_by, rejected_by, rejection_reason) = match &ur.status {
        Some(st) => (clone_opt(&st.approved_by), clone_opt(&st.rejected_by), clone_opt(
            &st.message,
        )),
        None => (None, None, None),
    };
    UpdateRequestView {
        name: ur.name.clone(),
        namespace: ur.namespace.clone(),
        resource_kind: ur.spec.target_ref.kind.clone(),
        resource_name: ur.spec.target_ref.name.clone(),
        current_image: ur.spec.current_image.clone(),
        new_image: ur.spec.new_image.clone(),
        current_version: versions.0,
        new_version: versions.1,
        policy: String::from_str(ur.spec.policy.name()),
        status: String::from_str(ur.phase().name()),
        created_at,
        approved_by,
        rejected_by,
        rejection_reason,
    }
}

} // verus!
