//! Pods, as Kubernetes describes them.

pub mod pod;

use crate::k8s::pod::PodSpec;
use std::collections::HashMap;
use vstd::prelude::*;

verus! {

/// What names and describes a resource.
#[derive(Clone, Debug, PartialEq)]
pub struct MetaData {
    pub name: String,
    pub labels: Option<HashMap<String, String>>,
    pub annotations: Option<HashMap<String, String>>,
}

/// A pod.
#[allow(non_snake_case)]
#[derive(Clone, Debug, PartialEq)]
pub struct Pod {
    pub apiVersion: String,
    pub kind: String,
    pub metadata: MetaData,
    pub podspec: PodSpec,
}

/// A model: a named pod specification.
#[derive(Clone, Debug, PartialEq)]
pub struct Model {
    pub name: String,
    pub podspec: PodSpec,
}

/// A pod of version `v1` with this name and specification, and without labels or
/// annotations.
pub open spec fn is_plain_pod(pod: Pod, name: Seq<char>, podspec: PodSpec) -> bool {
    &&& pod.apiVersion@ == "v1"@
    &&& pod.kind@ == "Pod"@
    &&& pod.metadata.name@ == name
    &&& pod.metadata.labels is None
    &&& pod.metadata.annotations is None
    &&& pod.podspec == podspec
}

impl Pod {
    /// A pod with this name and specification.
    pub fn new(name: &str, podspec: PodSpec) -> (pod: Pod)
        ensures
            is_plain_pod(pod, name@, podspec),
    {
        Pod {
            apiVersion: "v1".to_owned(),
            kind: "Pod".to_owned(),
            metadata: MetaData { name: name.to_owned(), labels: None, annotations: None },
            podspec,
        }
    }

    /// The name of the pod.
    pub fn get_name(&self) -> (name: String)
        ensures
            name@ == self.metadata.name@,
    {
        self.metadata.name.clone()
    }
}

impl From<Model> for Pod {
    fn from(model: Model) -> (pod: Pod)
        ensures
            is_plain_pod(pod, model.name@, model.podspec),
    {
        Pod::new(model.name.as_str(), model.podspec)
    }
}

impl vstd::std_specs::convert::FromSpecImpl<Model> for Pod {
    open spec fn obeys_from_spec() -> bool {
        false
    }

    open spec fn from_spec(model: Model) -> Pod {
        arbitrary()
    }
}

/// A pod that is made of a name and a specification has them, and nothing else but its version and
/// kind; two such pods with the same name and specification are alike.
pub proof fn law_plain_pods(a: Pod, b: Pod, name: Seq<char>, podspec: PodSpec)
    requires
        is_plain_pod(a, name, podspec),
        is_plain_pod(b, name, podspec),
    ensures
        a.metadata.name@ == name,
        a.podspec == podspec,
        a.apiVersion@ == "v1"@,
        a.kind@ == "Pod"@,
        a.metadata.labels is None && a.metadata.annotations is None,
        a.apiVersion@ == b.apiVersion@ && a.kind@ == b.kind@ && a.metadata.name@
            == b.metadata.name@ && a.podspec == b.podspec,
{
}

} // verus!
