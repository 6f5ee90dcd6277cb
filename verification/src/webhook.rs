//! Registry push notifications, and the normalized events they become.

use vstd::prelude::*;
use vstd::string::*;
use crate::image::image_with_tag;
use crate::strutil::str_eq;

verus! {

/// Generic payload for container-registry notifications.
#[derive(Clone, Debug)]
pub struct RegistryWebhook {
    pub events: Vec<RegistryEvent>,
}

#[derive(Clone, Debug)]
pub struct RegistryEvent {
    pub action: String,
    pub target: Target,
    pub request: Option<Request>,
}

#[derive(Clone, Debug)]
pub struct Target {
    pub media_type: Option<String>,
    pub digest: String,
    pub repository: String,
    pub tag: Option<String>,
    pub url: Option<String>,
}

#[derive(Clone, Debug)]
pub struct Request {
    pub id: String,
    pub method: String,
    pub useragent: String,
}

/// Docker Hub's own notification shape.
#[derive(Clone, Debug)]
pub struct DockerHubWebhook {
    pub push_data: PushData,
    pub repository: Repository,
}

#[derive(Clone, Debug)]
pub struct PushData {
    pub tag: String,
    pub pushed_at: Option<i64>,
    pub pusher: Option<String>,
}

#[derive(Clone, Debug)]
pub struct Repository {
    pub repo_name: String,
    pub namespace: String,
    pub name: String,
}

/// A normalized "new image tag" event, whichever source produced it.
#[derive(Clone, Debug)]
pub struct ImagePushEvent {
    pub registry: String,
    pub repository: String,
    pub tag: String,
    pub digest: Option<String>,
}

/// The full image reference named by an event: the registry host is
/// prepended unless it is empty or the default public one.
pub open spec fn spec_full_image(reg: Seq<char>, repo: Seq<char>, tag: Seq<char>) -> Seq<char> {
    if reg.len() == 0 || reg == "docker.io"@ {
        repo + seq![':'] + tag
    } else {
        reg + seq!['/'] + repo + seq![':'] + tag
    }
}

impl ImagePushEvent {
    /// The full image reference this event is about.
    pub fn full_image(&self) -> (r: String)
        ensures
            r@ == spec_full_image(self.registry@, self.repository@, self.tag@),
    {
        if self.registry.as_str().unicode_len() == 0 || str_eq(self.registry.as_str(), "docker.io")
        {
            image_with_tag(self.repository.as_str(), self.tag.as_str())
        } else {
            let mut s = self.registry.clone();
            s.push('/');
            s.append(self.repository.as_str());
            s.push(':');
            s.append(self.tag.as_str());
            proof {
                assert(s@ =~= self.registry@ + seq!['/'] + self.repository@ + seq![':']
                    + self.tag@);
            }
            s
        }
    }
}

/// A normalized "new chart version" event.
#[derive(Clone, Debug)]
pub struct ChartPushEvent {
    /// OCI registry host.
    pub registry: String,
    /// Chart repository path.
    pub repository: String,
    /// Chart version.
    pub version: String,
    /// Content digest, when the notification carried one.
    pub digest: Option<String>,
}

impl ChartPushEvent {
    /// The full OCI URL of this chart version.
    pub fn full_oci_url(&self) -> (r: String)
        ensures
            r@ == "oci://"@ + self.registry@ + seq!['/'] + self.repository@ + seq![':']
                + self.version@,
    {
        let mut s = String::from_str("oci://");
        s.append(self.registry.as_str());
        s.push('/');
        s.append(self.repository.as_str());
        s.push(':');
        s.append(self.version.as_str());
        proof {
            assert(s@ =~= "oci://"@ + self.registry@ + seq!['/'] + self.repository@ + seq![':']
                + self.version@);
        }
        s
    }

    /// The chart's OCI URL without a version.
    pub fn base_oci_url(&self) -> (r: String)
        ensures
            r@ == "oci://"@ + self.registry@ + seq!['/'] + self.repository@,
    {
        let mut s = String::from_str("oci://");
        s.append(self.registry.as_str());
        s.push('/');
        s.append(self.repository.as_str());
        proof {
            assert(s@ =~= "oci://"@ + self.registry@ + seq!['/'] + self.repository@);
        }
        s
    }
}

} // verus!
