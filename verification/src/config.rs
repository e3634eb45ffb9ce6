//! The audit configuration: which checks run, which web endpoints are probed
//! and which security contacts are listed.
use vstd::prelude::*;
use crate::text::clone_strings;

verus! {

/// Which check modules are enabled.
#[derive(Clone, Copy, Debug, PartialEq, Eq, Structural)]
pub struct CheckSelection {
    pub rbac: bool,
    pub secrets: bool,
    pub pod_security: bool,
    pub network: bool,
    pub ingress: bool,
    pub images: bool,
    pub logging_monitoring: bool,
    pub api_server_config: bool,
    pub etcd: bool,
    pub tls: bool,
}

/// The configuration of one audit run.
#[derive(Debug)]
pub struct AuditConfig {
    pub profile_name: String,
    pub cluster_name: String,
    pub checks: CheckSelection,
    pub tls_targets: Vec<String>,
    pub email_contacts: Vec<String>,
}

pub struct AuditConfigView {
    pub profile_name: Seq<char>,
    pub cluster_name: Seq<char>,
    pub checks: CheckSelection,
    pub tls_targets: Seq<Seq<char>>,
    pub email_contacts: Seq<Seq<char>>,
}

impl View for AuditConfig {
    type V = AuditConfigView;

    open spec fn view(&self) -> AuditConfigView {
        AuditConfigView {
            profile_name: self.profile_name@,
            cluster_name: self.cluster_name@,
            checks: self.checks,
            tls_targets: self.tls_targets.deep_view(),
            email_contacts: self.email_contacts.deep_view(),
        }
    }
}

impl Clone for AuditConfig {
    fn clone(&self) -> (r: Self)
        ensures
            r@ == self@,
    {
        AuditConfig {
            profile_name: self.profile_name.clone(),
            cluster_name: self.cluster_name.clone(),
            checks: self.checks,
            tls_targets: clone_strings(&self.tls_targets),
            email_contacts: clone_strings(&self.email_contacts),
        }
    }
}

impl CheckSelection {
    /// Every check module enabled.
    pub open spec fn all_enabled(self) -> bool {
        &&& self.rbac
        &&& self.secrets
        &&& self.pod_security
        &&& self.network
        &&& self.ingress
        &&& self.images
        &&& self.logging_monitoring
        &&& self.api_server_config
        &&& self.etcd
        &&& self.tls
    }
}

impl Default for AuditConfig {
    /// The `c5-baseline` profile for `default-cluster`, every check enabled,
    /// no endpoints and no contacts.
    fn default() -> (r: Self)
        ensures
            r@.profile_name == "c5-baseline"@,
            r@.cluster_name == "default-cluster"@,
            r.checks.all_enabled(),
            r@.tls_targets.len() == 0,
            r@.email_contacts.len() == 0,
    {
        let r = AuditConfig {
            profile_name: String::from_str("c5-baseline"),
            cluster_name: String::from_str("default-cluster"),
            checks: CheckSelection {
                rbac: true,
                secrets: true,
                pod_security: true,
                network: true,
                ingress: true,
                images: true,
                logging_monitoring: true,
                api_server_config: true,
                etcd: true,
                tls: true,
            },
            tls_targets: Vec::new(),
            email_contacts: Vec::new(),
        };
        assert(r@.tls_targets =~= Seq::empty());
        assert(r@.email_contacts =~= Seq::empty());
        r
    }
}

} // verus!
