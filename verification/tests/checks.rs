use securenetes::build_checks;
use securenetes::checks::api_config::ApiServerConfigCheck;
use securenetes::checks::etcd::EtcdCheck;
use securenetes::checks::images::{is_unpinned_image, ImagesCheck};
use securenetes::checks::ingress::IngressExposureCheck;
use securenetes::checks::logging_monitoring::{log_agent_name, LoggingMonitoringCheck};
use securenetes::checks::network::{name_any, NetworkCheck};
use securenetes::checks::pod_security::{base_finding, PodSecurityCheck};
use securenetes::checks::rbac::{rule_wildcard, RbacCheck};
use securenetes::checks::secrets::{is_sensitive_name, SecretsCheck};
use securenetes::checks::CheckKind;
use securenetes::cluster::{
    ClusterRoleBindingInfo, ClusterRoleInfo, ConfigMapInfo, ContainerInfo, IngressInfo,
    IngressSpecInfo, NamespaceInfo, NetworkPolicyInfo, PodInfo, PodSpecInfo, PolicyRuleInfo,
    ResourceRequirementsInfo, RoleRefInfo, SecretInfo, SecurityContextInfo, ServiceInfo,
    ServiceSpecInfo,
};
use securenetes::config::AuditConfig;
use securenetes::models::Severity;

fn s(x: &str) -> String {
    x.to_string()
}

fn container(name: &str, image: Option<&str>, sc: Option<SecurityContextInfo>, limits: Option<bool>) -> ContainerInfo {
    ContainerInfo {
        name: s(name),
        image: image.map(s),
        security_context: sc,
        resources: limits.map(|l| ResourceRequirementsInfo { has_limits: l }),
    }
}

fn hardened_sc() -> Option<SecurityContextInfo> {
    Some(SecurityContextInfo {
        privileged: Some(false),
        allow_privilege_escalation: Some(false),
        read_only_root_filesystem: Some(true),
    })
}

fn pod(name: &str, ns: &str, host_network: bool, containers: Vec<ContainerInfo>) -> PodInfo {
    PodInfo {
        name: Some(s(name)),
        namespace: Some(s(ns)),
        spec: Some(PodSpecInfo {
            host_network: Some(host_network),
            host_pid: None,
            host_ipc: None,
            containers,
        }),
    }
}

#[test]
fn default_config_runs_every_check_in_order() {
    let config = AuditConfig::default();
    assert_eq!(config.profile_name, "c5-baseline");
    assert_eq!(config.cluster_name, "default-cluster");
    assert!(config.tls_targets.is_empty() && config.email_contacts.is_empty());
    let kinds = build_checks(&config);
    let names: Vec<&str> = kinds.iter().map(|k| k.name()).collect();
    assert_eq!(
        names,
        vec![
            "rbac",
            "secrets",
            "pod_security",
            "network",
            "ingress",
            "images",
            "logging_monitoring",
            "api_server_config",
            "etcd",
            "tls"
        ]
    );
}

#[test]
fn only_selected_checks_run() {
    let mut config = AuditConfig::default();
    config.checks.rbac = false;
    config.checks.images = false;
    config.checks.tls = false;
    let kinds = build_checks(&config);
    assert_eq!(kinds.len(), 7);
    assert!(!kinds.contains(&CheckKind::Rbac));
    assert!(!kinds.contains(&CheckKind::Images));
    assert_eq!(kinds[0], CheckKind::Secrets);
    assert_eq!(kinds[6], CheckKind::Etcd);
}

#[test]
fn pod_security_hardened_pod_is_clean() {
    let pods = vec![pod("api", "prod", false, vec![container("c", Some("img:1.0"), hardened_sc(), Some(true))])];
    let r = PodSecurityCheck.evaluate(&pods);
    assert_eq!(r.check_name, "pod_security");
    assert!(r.findings.is_empty());
}

#[test]
fn pod_security_all_findings_in_order() {
    let pods = vec![
        PodInfo { name: Some(s("nospec")), namespace: None, spec: None },
        pod(
            "prod-api-7df7",
            "production",
            true,
            vec![container(
                "api",
                None,
                Some(SecurityContextInfo {
                    privileged: Some(true),
                    allow_privilege_escalation: None,
                    read_only_root_filesystem: Some(false),
                }),
                None,
            )],
        ),
    ];
    let r = PodSecurityCheck.evaluate(&pods);
    let ids: Vec<&str> = r.findings.iter().map(|f| f.id.as_str()).collect();
    assert_eq!(
        ids,
        vec![
            "POD-HOST-NS-prod-api-7df7",
            "POD-PRIV-prod-api-7df7",
            "POD-APE-prod-api-7df7",
            "POD-ROFS-prod-api-7df7",
            "POD-LIMITS-prod-api-7df7"
        ]
    );
    let priv_f = &r.findings[1];
    assert_eq!(priv_f.title, "Privilegierter Container");
    assert_eq!(priv_f.severity, Severity::Critical);
    assert_eq!(priv_f.evidence.summary, "Container api privileged=true");
    assert_eq!(priv_f.evidence.details, vec![s("Container api privileged=true")]);
    let res = priv_f.resource.as_ref().unwrap();
    assert_eq!(res.kind, "Pod");
    assert_eq!(res.namespace.as_deref(), Some("production"));
    assert_eq!(res.name, "prod-api-7df7");
    assert_eq!(r.findings[2].evidence.summary, "Container api allowPrivilegeEscalation nicht auf false");
    assert_eq!(r.findings[3].evidence.summary, "Container api readOnlyRootFilesystem!=true");
    assert_eq!(r.findings[4].evidence.summary, "Container api ohne resources.limits");
}

#[test]
fn pod_security_base_finding_fields() {
    let f = base_finding("POD-X", "Titel", "p", None, "d", Severity::Low);
    assert_eq!(f.id, "POD-X-p");
    assert_eq!(f.area, "Pod Security");
    assert_eq!(f.criterion, "Pod Hardening nach Least Privilege");
    assert_eq!(f.resource.unwrap().namespace, None);
    assert_eq!(f.severity, Severity::Low);
}

#[test]
fn images_unpinned_rules() {
    assert!(is_unpinned_image("nginx"));
    assert!(is_unpinned_image("nginx:latest"));
    assert!(is_unpinned_image(""));
    assert!(!is_unpinned_image("nginx:1.25"));
    assert!(!is_unpinned_image("registry:5000/app@sha256:abc"));
    let pods = vec![pod(
        "web",
        "shop",
        false,
        vec![
            container("a", Some("nginx:latest"), None, None),
            container("b", Some("redis:7"), None, None),
            container("c", None, None, None),
        ],
    )];
    let r = ImagesCheck.evaluate(&pods);
    assert_eq!(r.check_name, "images");
    assert_eq!(r.findings.len(), 2);
    assert_eq!(r.findings[0].id, "IMG-UNPINNED-shop-web");
    assert_eq!(r.findings[1].id, "IMG-UNPINNED-shop-web");
    assert_eq!(r.findings[0].description, "Container a nutzt potenziell unsicheren Tag: nginx:latest");
    assert_eq!(r.findings[0].evidence.summary, "image=nginx:latest");
    assert_eq!(r.findings[1].description, "Container c nutzt potenziell unsicheren Tag: ");
    assert_eq!(r.findings[1].severity, Severity::Medium);
}

#[test]
fn secrets_sensitive_opaque_only() {
    assert!(is_sensitive_name("db-password"));
    assert!(is_sensitive_name("api-token"));
    assert!(is_sensitive_name("ssh-key"));
    assert!(!is_sensitive_name("config"));
    let secrets = vec![
        SecretInfo { name: Some(s("DB-Password")), namespace: Some(s("prod")), secret_type: Some(s("Opaque")) },
        SecretInfo { name: Some(s("tls-secret")), namespace: Some(s("prod")), secret_type: Some(s("kubernetes.io/tls")) },
        SecretInfo { name: Some(s("settings")), namespace: None, secret_type: Some(s("Opaque")) },
        SecretInfo { name: Some(s("monkey")), namespace: None, secret_type: None },
    ];
    let r = SecretsCheck.evaluate(&secrets);
    assert_eq!(r.check_name, "secrets");
    assert_eq!(r.findings.len(), 1);
    let f = &r.findings[0];
    assert_eq!(f.id, "SECRET-SENSITIVE-DB-Password");
    assert!(f.heuristic);
    assert_eq!(f.severity, Severity::Medium);
    assert_eq!(f.resource.as_ref().unwrap().namespace.as_deref(), Some("prod"));
}

#[test]
fn rbac_wildcards_and_cluster_admin() {
    assert!(rule_wildcard(&PolicyRuleInfo { verbs: vec![s("get"), s("*")], resources: None }));
    assert!(rule_wildcard(&PolicyRuleInfo { verbs: vec![s("get")], resources: Some(vec![s("*")]) }));
    assert!(!rule_wildcard(&PolicyRuleInfo { verbs: vec![s("get")], resources: Some(vec![s("pods")]) }));
    let roles = vec![
        ClusterRoleInfo {
            name: Some(s("cluster-admin-custom")),
            rules: Some(vec![PolicyRuleInfo { verbs: vec![s("*")], resources: Some(vec![s("*")]) }]),
            rules_debug: s("[PolicyRule]"),
        },
        ClusterRoleInfo { name: Some(s("view")), rules: Some(vec![]), rules_debug: s("[]") },
        ClusterRoleInfo { name: Some(s("agg")), rules: None, rules_debug: s("") },
    ];
    let bindings = vec![
        ClusterRoleBindingInfo {
            name: Some(s("admins")),
            role_ref: RoleRefInfo { api_group: Some(s("rbac.authorization.k8s.io")), name: s("cluster-admin") },
            subjects_debug: s("Some([])"),
        },
        ClusterRoleBindingInfo {
            name: Some(s("viewers")),
            role_ref: RoleRefInfo { api_group: Some(s("rbac.authorization.k8s.io")), name: s("view") },
            subjects_debug: s("None"),
        },
        ClusterRoleBindingInfo {
            name: Some(s("nogroup")),
            role_ref: RoleRefInfo { api_group: None, name: s("cluster-admin") },
            subjects_debug: s("None"),
        },
    ];
    let r = RbacCheck.evaluate(&roles, &bindings);
    assert_eq!(r.check_name, "rbac");
    assert_eq!(r.findings.len(), 2);
    assert_eq!(r.findings[0].id, "RBAC-WILDCARD-cluster-admin-custom");
    assert_eq!(r.findings[0].severity, Severity::Critical);
    assert_eq!(r.findings[0].evidence.details, vec![s("rules=[PolicyRule]")]);
    assert_eq!(r.findings[1].id, "RBAC-CRB-CLUSTERADMIN-admins");
    assert_eq!(r.findings[1].severity, Severity::High);
    assert_eq!(r.findings[1].evidence.summary, "roleRef.name=cluster-admin");
    assert_eq!(r.findings[1].evidence.details, vec![s("subjects=Some([])")]);
}

#[test]
fn network_namespaces_without_policy() {
    assert_eq!(name_any(&NamespaceInfo { name: None, generate_name: Some(s("gen-")) }), "gen-");
    assert_eq!(name_any(&NamespaceInfo { name: None, generate_name: None }), "");
    let namespaces = vec![
        NamespaceInfo { name: Some(s("default")), generate_name: None },
        NamespaceInfo { name: Some(s("prod")), generate_name: None },
        NamespaceInfo { name: Some(s("dev")), generate_name: Some(s("x")) },
    ];
    let policies = vec![NetworkPolicyInfo { namespace: Some(s("prod")) }, NetworkPolicyInfo { namespace: None }];
    let r = NetworkCheck.evaluate(&namespaces, &policies);
    assert_eq!(r.check_name, "network");
    let ids: Vec<&str> = r.findings.iter().map(|f| f.id.as_str()).collect();
    assert_eq!(ids, vec!["NET-NOPOLICY-default", "NET-NOPOLICY-dev"]);
    assert_eq!(r.findings[0].severity, Severity::High);
    assert_eq!(r.findings[0].resource.as_ref().unwrap().kind, "Namespace");
}

#[test]
fn ingress_exposure() {
    let services = vec![
        ServiceInfo { name: Some(s("lb")), namespace: Some(s("web")), spec: Some(ServiceSpecInfo { service_type: Some(s("LoadBalancer")) }) },
        ServiceInfo { name: Some(s("np")), namespace: None, spec: Some(ServiceSpecInfo { service_type: Some(s("NodePort")) }) },
        ServiceInfo { name: Some(s("ip")), namespace: None, spec: Some(ServiceSpecInfo { service_type: Some(s("ClusterIP")) }) },
        ServiceInfo { name: Some(s("none")), namespace: None, spec: None },
    ];
    let ingresses = vec![
        IngressInfo { name: Some(s("secure")), namespace: None, spec: Some(IngressSpecInfo { has_tls: true }) },
        IngressInfo { name: Some(s("plain")), namespace: Some(s("web")), spec: Some(IngressSpecInfo { has_tls: false }) },
        IngressInfo { name: Some(s("bare")), namespace: None, spec: None },
    ];
    let r = IngressExposureCheck.evaluate(&services, &ingresses);
    assert_eq!(r.check_name, "ingress");
    let ids: Vec<&str> = r.findings.iter().map(|f| f.id.as_str()).collect();
    assert_eq!(ids, vec!["EXPOSURE-SVC-lb", "EXPOSURE-SVC-np", "EXPOSURE-ING-NOTLS-plain", "EXPOSURE-ING-NOTLS-bare"]);
    assert_eq!(r.findings[0].title, "Service mit externer Exposition (LoadBalancer)");
    assert_eq!(r.findings[0].evidence.summary, "spec.type=LoadBalancer");
    assert_eq!(r.findings[2].severity, Severity::Medium);
    assert!(r.findings[2].evidence.details.is_empty());
}

#[test]
fn logging_agents() {
    assert!(log_agent_name("fluent-bit-config"));
    assert!(log_agent_name("loki"));
    assert!(log_agent_name("kube-audit-policy"));
    assert!(!log_agent_name("coredns"));
    let none = LoggingMonitoringCheck.evaluate(&vec![ConfigMapInfo { name: Some(s("coredns")) }, ConfigMapInfo { name: None }]);
    assert_eq!(none.findings.len(), 1);
    assert_eq!(none.findings[0].id, "LOG-NO-CENTRAL-AGENT");
    assert!(none.findings[0].heuristic);
    assert!(none.findings[0].resource.is_none());
    let seen = LoggingMonitoringCheck.evaluate(&vec![ConfigMapInfo { name: Some(s("fluentd")) }]);
    assert!(seen.findings.is_empty());
    assert_eq!(seen.check_name, "logging_monitoring");
}

#[test]
fn standing_notes() {
    let a = ApiServerConfigCheck.evaluate();
    assert_eq!(a.check_name, "api_server_config");
    assert_eq!(a.findings.len(), 1);
    assert_eq!(a.findings[0].id, "APISERVER-HARDENING-HEURISTIC");
    assert_eq!(a.findings[0].severity, Severity::Info);
    assert!(a.findings[0].heuristic);
    let e = EtcdCheck.evaluate();
    assert_eq!(e.check_name, "etcd");
    assert_eq!(e.findings[0].id, "ETCD-EXPOSURE-HEURISTIC");
    assert_eq!(e.findings[0].severity, Severity::High);
}

#[test]
fn check_kind_names_match_checks() {
    assert_eq!(CheckKind::Rbac.name(), RbacCheck.name());
    assert_eq!(CheckKind::Tls.name(), "tls");
    assert_eq!(CheckKind::LoggingMonitoring.name(), LoggingMonitoringCheck.name());
}

#[test]
fn finding_ids_distinct_where_names_are() {
    let secrets = vec![
        SecretInfo { name: Some(s("api-token")), namespace: Some(s("a")), secret_type: Some(s("Opaque")) },
        SecretInfo { name: Some(s("db-key")), namespace: Some(s("a")), secret_type: Some(s("Opaque")) },
    ];
    let r = SecretsCheck.evaluate(&secrets);
    let ids: Vec<&str> = r.findings.iter().map(|f| f.id.as_str()).collect();
    assert_eq!(ids, vec!["SECRET-SENSITIVE-api-token", "SECRET-SENSITIVE-db-key"]);
    // The same name in two namespaces gives the same id twice.
    let twice = vec![
        SecretInfo { name: Some(s("api-token")), namespace: Some(s("a")), secret_type: Some(s("Opaque")) },
        SecretInfo { name: Some(s("api-token")), namespace: Some(s("b")), secret_type: Some(s("Opaque")) },
    ];
    let r = SecretsCheck.evaluate(&twice);
    assert_eq!(r.findings.len(), 2);
    assert_eq!(r.findings[0].id, "SECRET-SENSITIVE-api-token");
    assert_eq!(r.findings[1].id, "SECRET-SENSITIVE-api-token");
}

#[test]
fn pod_security_ids_follow_the_pod() {
    // One bare container: three findings, each id the rule and the pod's name.
    let one = vec![pod("web", "prod", false, vec![container("app", None, None, None)])];
    let r = PodSecurityCheck.evaluate(&one);
    let got: Vec<(&str, Severity)> = r.findings.iter().map(|f| (f.id.as_str(), f.severity)).collect();
    assert_eq!(got, vec![("POD-APE-web", Severity::High), ("POD-ROFS-web", Severity::Medium), ("POD-LIMITS-web", Severity::Medium)]);
    // Two bare containers repeat each id.
    let two = vec![pod("web", "prod", false, vec![container("a", Some("img:1"), None, None), container("b", Some("img:1"), None, None)])];
    let r = PodSecurityCheck.evaluate(&two);
    let ids: Vec<&str> = r.findings.iter().map(|f| f.id.as_str()).collect();
    assert_eq!(ids, vec!["POD-APE-web", "POD-ROFS-web", "POD-LIMITS-web", "POD-APE-web", "POD-ROFS-web", "POD-LIMITS-web"]);
}

#[test]
fn report_ids_distinct_across_checks() {
    let pods = vec![
        pod("web", "prod", true, vec![container("a", Some("nginx"), None, None)]),
        pod("db", "prod", false, vec![container("b", None, None, None)]),
    ];
    let secrets = vec![SecretInfo { name: Some(s("api-token")), namespace: Some(s("prod")), secret_type: Some(s("Opaque")) }];
    let namespaces = vec![NamespaceInfo { name: Some(s("prod")), generate_name: None }];
    let mut config = AuditConfig::default();
    config.email_contacts = vec![s("kaputt")];
    config.tls_targets = vec![s("http://plain.example")];
    let results = vec![
        PodSecurityCheck.evaluate(&pods),
        ImagesCheck.evaluate(&pods),
        SecretsCheck.evaluate(&secrets),
        NetworkCheck.evaluate(&namespaces, &vec![]),
        LoggingMonitoringCheck.evaluate(&vec![]),
        ApiServerConfigCheck.evaluate(),
        EtcdCheck.evaluate(),
        securenetes::checks::tls::TlsWebCheck.evaluate(
            &config,
            &vec![Some(securenetes::cluster::ProbeOutcome::Answered { hsts: false, server_debug: None })],
        ),
    ];
    let ids: Vec<&str> = results.iter().flat_map(|r| r.findings.iter().map(|f| f.id.as_str())).collect();
    assert!(ids.len() > 10);
    for i in 0..ids.len() {
        for j in (i + 1)..ids.len() {
            assert_ne!(ids[i], ids[j]);
        }
    }
}
