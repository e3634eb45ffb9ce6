use securenetes::checks::tls::{base_web_finding, is_valid_email, TlsWebCheck};
use securenetes::cluster::ProbeOutcome;
use securenetes::config::AuditConfig;
use securenetes::models::Severity;

#[test]
fn validates_email() {
    assert!(is_valid_email("secops@example.org"));
    assert!(!is_valid_email("broken-address"));
}

#[test]
fn email_rule_edge_cases() {
    assert!(is_valid_email("a@b.c"));
    assert!(is_valid_email("first.last@sub.example.org"));
    assert!(!is_valid_email("@example.org"));
    assert!(!is_valid_email("secops@"));
    assert!(!is_valid_email("secops@example"));
    assert!(!is_valid_email("secops@.example.org"));
    assert!(!is_valid_email("secops@example.org."));
    assert!(!is_valid_email("a@b@c.org"));
    assert!(!is_valid_email(""));
    assert!(is_valid_email("ü@bücher.de"));
}

#[test]
fn web_finding_fields() {
    let f = base_web_finding("TLS-NO-HSTS", "HSTS Header fehlt", "https://a.example", "detail", Severity::Medium);
    assert_eq!(f.id, "TLS-NO-HSTS-https://a.example");
    assert_eq!(f.area, "SSL/TLS & Web Exposure");
    let r = f.resource.unwrap();
    assert_eq!(r.kind, "Endpoint");
    assert_eq!(r.namespace, None);
    assert_eq!(r.name, "https://a.example");
    assert_eq!(f.evidence.summary, "detail");
    assert_eq!(f.evidence.details, vec!["detail".to_string()]);
    assert_eq!(f.severity, Severity::Medium);
    assert!(!f.heuristic);
}

#[test]
fn target_scheme_from_url_parser() {
    let c = TlsWebCheck;
    assert_eq!(c.target_scheme("https://example.org/x"), Some("https".to_string()));
    assert_eq!(c.target_scheme("HTTP://example.org"), Some("http".to_string()));
    assert_eq!(c.target_scheme("not a url"), None);
}

fn config_with_mails(mails: &[&str]) -> AuditConfig {
    let mut c = AuditConfig::default();
    c.email_contacts = mails.iter().map(|m| m.to_string()).collect();
    c
}

#[test]
fn tls_check_findings_in_order() {
    let c = TlsWebCheck;
    let mut config = config_with_mails(&["ok@example.org", "kaputt"]);
    config.tls_targets = vec![
        "http://plain.example".to_string(),
        "::::".to_string(),
        "https://secure.example".to_string(),
        "https://down.example".to_string(),
        "https://unprobed.example".to_string(),
    ];
    // One outcome per target, in order; none for the URL that does not
    // parse, and none given for the last target.
    let probes = vec![
        Some(ProbeOutcome::Answered { hsts: false, server_debug: Some("\"nginx\"".to_string()) }),
        None,
        Some(ProbeOutcome::Answered { hsts: true, server_debug: None }),
        Some(ProbeOutcome::Failed { error: "connection refused".to_string() }),
    ];
    let r = c.evaluate(&config, &probes);
    assert_eq!(r.check_name, "tls");
    let ids: Vec<&str> = r.findings.iter().map(|f| f.id.as_str()).collect();
    assert_eq!(
        ids,
        vec![
            "TLS-EMAIL-INVALID-kaputt",
            "TLS-NO-HTTPS-http://plain.example",
            "TLS-NO-HSTS-http://plain.example",
            "WEB-SERVER-BANNER-http://plain.example",
            "TLS-CONNECT-ERROR-https://down.example",
        ]
    );
    assert_eq!(r.findings[0].severity, Severity::Low);
    assert_eq!(r.findings[0].evidence.details, vec!["kaputt".to_string()]);
    assert!(r.findings[0].resource.is_none());
    assert_eq!(r.findings[3].evidence.summary, "server=\"nginx\"");
    assert_eq!(r.findings[4].evidence.summary, "Fehler beim Verbindungsaufbau: connection refused");
    assert_eq!(r.findings[4].severity, Severity::Info);
}

#[test]
fn secure_endpoint_gives_nothing() {
    let c = TlsWebCheck;
    let out = c.probe_findings(
        "https://secure.example",
        "https",
        &ProbeOutcome::Answered { hsts: true, server_debug: None },
    );
    assert!(out.is_empty());
}
