//! The check modules. Each turns what it reads of the cluster (or of the
//! configuration and the probed endpoints) into a `CheckResult`.
use vstd::prelude::*;

pub mod api_config;
pub mod codes;
pub mod etcd;
pub mod guarantees;
pub mod images;
pub mod ingress;
pub mod logging_monitoring;
pub mod network;
pub mod pod_security;
pub mod rbac;
pub mod secrets;
pub mod tls;

verus! {

/// The check modules, one variant each.
#[derive(Clone, Copy, Debug, PartialEq, Eq, Structural)]
pub enum CheckKind {
    Rbac,
    Secrets,
    PodSecurity,
    Network,
    Ingress,
    Images,
    LoggingMonitoring,
    ApiServerConfig,
    Etcd,
    Tls,
}

/// The name under which a check reports its result.
pub open spec fn check_name_text(k: CheckKind) -> Seq<char> {
    match k {
        CheckKind::Rbac => "rbac"@,
        CheckKind::Secrets => "secrets"@,
        CheckKind::PodSecurity => "pod_security"@,
        CheckKind::Network => "network"@,
        CheckKind::Ingress => "ingress"@,
        CheckKind::Images => "images"@,
        CheckKind::LoggingMonitoring => "logging_monitoring"@,
        CheckKind::ApiServerConfig => "api_server_config"@,
        CheckKind::Etcd => "etcd"@,
        CheckKind::Tls => "tls"@,
    }
}

impl CheckKind {
    /// The name of the check, as its own `name` gives it.
    pub fn name(&self) -> (r: &'static str)
        ensures
            r@ == check_name_text(*self),
    {
        match self {
            CheckKind::Rbac => rbac::RbacCheck.name(),
            CheckKind::Secrets => secrets::SecretsCheck.name(),
            CheckKind::PodSecurity => pod_security::PodSecurityCheck.name(),
            CheckKind::Network => network::NetworkCheck.name(),
            CheckKind::Ingress => ingress::IngressExposureCheck.name(),
            CheckKind::Images => images::ImagesCheck.name(),
            CheckKind::LoggingMonitoring => logging_monitoring::LoggingMonitoringCheck.name(),
            CheckKind::ApiServerConfig => api_config::ApiServerConfigCheck.name(),
            CheckKind::Etcd => etcd::EtcdCheck.name(),
            CheckKind::Tls => tls::TlsWebCheck.name(),
        }
    }
}

} // verus!
