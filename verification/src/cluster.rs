//! What the checks read of the cluster's objects, as plain values.
//!
//! Each type holds the fields of a Kubernetes API object that a check looks
//! at, with the same optionality as the API object; text that the API client
//! would write for a value (a `Debug` rendering, an error message) is held as
//! that text.
use vstd::prelude::*;

verus! {

/// A rule of a `ClusterRole`.
#[derive(Debug)]
pub struct PolicyRuleInfo {
    pub verbs: Vec<String>,
    pub resources: Option<Vec<String>>,
}

/// A `ClusterRole`: its name, its rules, and the `Debug` text of the rules.
#[derive(Debug)]
pub struct ClusterRoleInfo {
    pub name: Option<String>,
    pub rules: Option<Vec<PolicyRuleInfo>>,
    pub rules_debug: String,
}

/// The `roleRef` of a binding.
#[derive(Debug)]
pub struct RoleRefInfo {
    pub api_group: Option<String>,
    pub name: String,
}

/// A `ClusterRoleBinding`: its name, its role reference, and the `Debug`
/// text of its subjects.
#[derive(Debug)]
pub struct ClusterRoleBindingInfo {
    pub name: Option<String>,
    pub role_ref: RoleRefInfo,
    pub subjects_debug: String,
}

/// A `Secret`: its name, namespace and type.
#[derive(Debug)]
pub struct SecretInfo {
    pub name: Option<String>,
    pub namespace: Option<String>,
    pub secret_type: Option<String>,
}

/// The security context of a container.
#[derive(Debug)]
pub struct SecurityContextInfo {
    pub privileged: Option<bool>,
    pub allow_privilege_escalation: Option<bool>,
    pub read_only_root_filesystem: Option<bool>,
}

/// The resource requirements of a container: whether `limits` is set.
#[derive(Debug)]
pub struct ResourceRequirementsInfo {
    pub has_limits: bool,
}

/// A container of a pod.
#[derive(Debug)]
pub struct ContainerInfo {
    pub name: String,
    pub image: Option<String>,
    pub security_context: Option<SecurityContextInfo>,
    pub resources: Option<ResourceRequirementsInfo>,
}

/// The spec of a pod.
#[derive(Debug)]
pub struct PodSpecInfo {
    pub host_network: Option<bool>,
    pub host_pid: Option<bool>,
    pub host_ipc: Option<bool>,
    pub containers: Vec<ContainerInfo>,
}

/// A `Pod`: its name, namespace and spec.
#[derive(Debug)]
pub struct PodInfo {
    pub name: Option<String>,
    pub namespace: Option<String>,
    pub spec: Option<PodSpecInfo>,
}

/// A `Namespace`: its name and generated-name prefix.
#[derive(Debug)]
pub struct NamespaceInfo {
    pub name: Option<String>,
    pub generate_name: Option<String>,
}

/// A `NetworkPolicy`: the namespace it stands in.
#[derive(Debug)]
pub struct NetworkPolicyInfo {
    pub namespace: Option<String>,
}

/// The spec of a `Service`: its type.
#[derive(Debug)]
pub struct ServiceSpecInfo {
    pub service_type: Option<String>,
}

/// A `Service`.
#[derive(Debug)]
pub struct ServiceInfo {
    pub name: Option<String>,
    pub namespace: Option<String>,
    pub spec: Option<ServiceSpecInfo>,
}

/// The spec of an `Ingress`: whether its `tls` block is set.
#[derive(Debug)]
pub struct IngressSpecInfo {
    pub has_tls: bool,
}

/// An `Ingress`.
#[derive(Debug)]
pub struct IngressInfo {
    pub name: Option<String>,
    pub namespace: Option<String>,
    pub spec: Option<IngressSpecInfo>,
}

/// A `ConfigMap`: its name.
#[derive(Debug)]
pub struct ConfigMapInfo {
    pub name: Option<String>,
}

/// What became of the request to a web endpoint.
#[derive(Debug)]
pub enum ProbeOutcome {
    /// The endpoint answered. `hsts` tells whether a
    /// `strict-transport-security` header came back; `server_debug` is the
    /// `Debug` text of the `server` header, where there was one.
    Answered { hsts: bool, server_debug: Option<String> },
    /// The request failed; `error` is the error's text.
    Failed { error: String },
}

} // verus!
