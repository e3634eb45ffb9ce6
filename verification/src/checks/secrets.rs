//! Secrets: opaque secrets whose names point to sensitive content.
use vstd::prelude::*;
use crate::cluster::SecretInfo;
use crate::models::{
    CheckResult, CheckResultView, EvidenceView, Finding, FindingView, ResourceReference,
    ResourceReferenceView, Severity, Evidence, ids_distinct, lemma_keyed_ids_distinct, push_finding,
};
use crate::seqs::{concat_all, lemma_concat_all_contains, lemma_concat_all_take};
use crate::text::{
    clone_opt, contains_text, eq_text, has_infix, join2, lowercase_text, opt_text, owned,
    text_or_empty, to_lowercase, unwrap_or_empty,
};

verus! {

/// The check on secrets.
pub struct SecretsCheck;

/// A lowercased name holds one of `password`, `token`, `key`, `secret`.
pub open spec fn is_sensitive_text(lowered: Seq<char>) -> bool {
    ||| has_infix(lowered, "password"@)
    ||| has_infix(lowered, "token"@)
    ||| has_infix(lowered, "key"@)
    ||| has_infix(lowered, "secret"@)
}

/// The secret is flagged: its lowercased name is sensitive and its type is
/// `Opaque`.
pub open spec fn secret_flagged(s: SecretInfo) -> bool {
    &&& is_sensitive_text(lowercase_text(text_or_empty(s.name)))
    &&& opt_text(s.secret_type) == Some("Opaque"@)
}

/// The finding for a flagged secret.
pub open spec fn secret_finding(s: SecretInfo) -> FindingView {
    let name = text_or_empty(s.name);
    FindingView {
        id: "SECRET-SENSITIVE-"@ + name,
        title: "Potenziell sensibles Secret identifiziert"@,
        area: "Secrets"@,
        criterion: "Sensiblen Datenbestand minimieren und absichern"@,
        description: "Name deutet auf sensible Inhalte hin; Speicherung als Opaque Secret."@,
        resource: Some(
            ResourceReferenceView { kind: "Secret"@, namespace: opt_text(s.namespace), name: name },
        ),
        evidence: EvidenceView {
            summary: "Heuristik auf Basis Secret-Namen"@,
            details: seq!["Namensmuster: password/token/key/secret"@],
        },
        risk: "Unzureichend abgesicherte Geheimnisse können kompromittiert werden."@,
        recommendation: "KMS-Integration/External Secrets nutzen, Zugriffe via RBAC strikt einschränken."@,
        severity: Severity::Medium,
        heuristic: true,
    }
}

/// What one secret contributes: its finding if flagged, else nothing.
pub open spec fn secret_piece(s: SecretInfo) -> Seq<FindingView> {
    if secret_flagged(s) {
        seq![secret_finding(s)]
    } else {
        Seq::empty()
    }
}

/// The findings for a list of secrets, in order.
pub open spec fn secrets_findings(secrets: Seq<SecretInfo>) -> Seq<FindingView> {
    concat_all(secrets.map_values(|s: SecretInfo| secret_piece(s)))
}

/// A lowercased name holds one of the four words that the check looks for.
pub open spec fn names_a_sensitive_word(lowered: Seq<char>) -> bool {
    ||| has_infix(lowered, "password"@)
    ||| has_infix(lowered, "token"@)
    ||| has_infix(lowered, "key"@)
    ||| has_infix(lowered, "secret"@)
}

/// A name is sensitive exactly when, lowercased, it holds `password`, `token`,
/// `key` or `secret` somewhere: each of the four words on its own suffices.
pub proof fn lemma_sensitive_words(lowered: Seq<char>)
    ensures
        is_sensitive_text(lowered) <==> names_a_sensitive_word(lowered),
        has_infix(lowered, "password"@) ==> is_sensitive_text(lowered),
        has_infix(lowered, "token"@) ==> is_sensitive_text(lowered),
        has_infix(lowered, "key"@) ==> is_sensitive_text(lowered),
        has_infix(lowered, "secret"@) ==> is_sensitive_text(lowered),
{
}

/// A secret is reported, once, exactly when it is `Opaque` and its lowercased
/// name holds one of the four words; the finding is `SECRET-SENSITIVE-` and the
/// name, medium and marked heuristic.
pub proof fn lemma_secret_reported(s: SecretInfo)
    ensures
        secret_piece(s).len() <= 1,
        secret_piece(s).len() == 1 <==> names_a_sensitive_word(
            lowercase_text(text_or_empty(s.name)),
        ) && opt_text(s.secret_type) == Some("Opaque"@),
        secret_piece(s).len() == 1 ==> secret_piece(s)[0].id == "SECRET-SENSITIVE-"@ + text_or_empty(
            s.name,
        ) && secret_piece(s)[0].severity == Severity::Medium && secret_piece(s)[0].heuristic,
{
    lemma_sensitive_words(lowercase_text(text_or_empty(s.name)));
}

/// Every listed `Opaque` secret whose lowercased name holds one of the four
/// words is reported in the check's findings.
pub proof fn lemma_sensitive_secrets_reported(secrets: Seq<SecretInfo>, i: int)
    requires
        0 <= i < secrets.len(),
        names_a_sensitive_word(lowercase_text(text_or_empty(secrets[i].name))),
        opt_text(secrets[i].secret_type) == Some("Opaque"@),
    ensures
        exists|m: int|
            0 <= m < secrets_findings(secrets).len() && (#[trigger] secrets_findings(secrets)[m]).id
                == "SECRET-SENSITIVE-"@ + text_or_empty(secrets[i].name),
{
    lemma_secret_reported(secrets[i]);
    let pieces = secrets.map_values(|x: SecretInfo| secret_piece(x));
    assert(pieces[i] == secret_piece(secrets[i]));
    lemma_concat_all_contains(pieces, i, 0);
    let fs = concat_all(pieces);
    assert(secrets_findings(secrets) == fs);
    let m = choose|m: int| 0 <= m < fs.len() && fs[m] == pieces[i][0];
    assert(fs[m].id == "SECRET-SENSITIVE-"@ + text_or_empty(secrets[i].name));
}

/// No two secrets carry the same name. (Secrets of one name in two namespaces
/// get the same id.)
pub open spec fn secret_names_distinct(secrets: Seq<SecretInfo>) -> bool {
    forall|i: int, j: int|
        0 <= i < j < secrets.len() ==> text_or_empty((#[trigger] secrets[i]).name)
            != text_or_empty((#[trigger] secrets[j]).name)
}

/// Where no two secrets share a name, no two findings of the secrets check
/// share an id.
pub proof fn lemma_secrets_ids_distinct(secrets: Seq<SecretInfo>)
    requires
        secret_names_distinct(secrets),
    ensures
        ids_distinct(secrets_findings(secrets)),
{
    let keys = secrets.map_values(|s: SecretInfo| text_or_empty(s.name));
    assert forall|i: int, j: int| 0 <= i < j < keys.len() implies #[trigger] keys[i]
        != #[trigger] keys[j] by {
        assert(text_or_empty(secrets[i].name) != text_or_empty(secrets[j].name));
    }
    lemma_keyed_ids_distinct(
        secrets.map_values(|s: SecretInfo| secret_piece(s)),
        keys,
        "SECRET-SENSITIVE-"@,
    );
}

/// Whether a lowercased secret name is sensitive.
pub fn is_sensitive_name(lowered: &str) -> (r: bool)
    ensures
        r == is_sensitive_text(lowered@),
{
    contains_text(lowered, "password") || contains_text(lowered, "token") || contains_text(
        lowered,
        "key",
    ) || contains_text(lowered, "secret")
}

fn flagged_secret_finding(s: &SecretInfo) -> (r: Finding)
    ensures
        r@ == secret_finding(*s),
{
    let name = unwrap_or_empty(&s.name);
    let mut details: Vec<String> = Vec::new();
    details.push(owned("Namensmuster: password/token/key/secret"));
    let r = Finding {
        id: join2("SECRET-SENSITIVE-", name.as_str()),
        title: owned("Potenziell sensibles Secret identifiziert"),
        area: owned("Secrets"),
        criterion: owned("Sensiblen Datenbestand minimieren und absichern"),
        description: owned("Name deutet auf sensible Inhalte hin; Speicherung als Opaque Secret."),
        resource: Some(
            ResourceReference { kind: owned("Secret"), namespace: clone_opt(&s.namespace), name },
        ),
        evidence: Evidence { summary: owned("Heuristik auf Basis Secret-Namen"), details },
        risk: owned("Unzureichend abgesicherte Geheimnisse können kompromittiert werden."),
        recommendation: owned(
            "KMS-Integration/External Secrets nutzen, Zugriffe via RBAC strikt einschränken.",
        ),
        severity: Severity::Medium,
        heuristic: true,
    };
    assert(r@.evidence.details =~= seq!["Namensmuster: password/token/key/secret"@]);
    r
}

impl SecretsCheck {
    pub fn name(&self) -> (r: &'static str)
        ensures
            r@ == "secrets"@,
    {
        "secrets"
    }

    /// Decides whether one secret is flagged.
    pub fn flags(&self, s: &SecretInfo) -> (r: bool)
        ensures
            r == secret_flagged(*s),
    {
        let name = unwrap_or_empty(&s.name);
        let lowered = to_lowercase(name.as_str());
        self.flags_lowered(lowered.as_str(), s)
    }

    /// Decides whether one secret is flagged, given its name in lowercase:
    /// the lowercased name is sensitive and the type is `Opaque`.
    pub fn flags_lowered(&self, lowered: &str, s: &SecretInfo) -> (r: bool)
        ensures
            r == (is_sensitive_text(lowered@) && opt_text(s.secret_type) == Some("Opaque"@)),
    {
        if !is_sensitive_name(lowered) {
            return false;
        }
        match &s.secret_type {
            Some(t) => eq_text(t, "Opaque"),
            None => false,
        }
    }

    /// The result of the check on the secrets of the cluster.
    pub fn evaluate(&self, secrets: &Vec<SecretInfo>) -> (r: CheckResult)
        ensures
            r@ == (CheckResultView { check_name: "secrets"@, findings: secrets_findings(secrets@) }),
    {
        let ghost pieces = secrets@.map_values(|s: SecretInfo| secret_piece(s));
        let mut findings: Vec<Finding> = Vec::new();
        let mut i: usize = 0;
        while i < secrets.len()
            invariant
                pieces == secrets@.map_values(|s: SecretInfo| secret_piece(s)),
                i <= secrets@.len(),
                findings.deep_view() == concat_all(pieces.take(i as int)),
            decreases secrets@.len() - i,
        {
            proof {
                lemma_concat_all_take(pieces, i as int);
            }
            if self.flags(&secrets[i]) {
                push_finding(&mut findings, flagged_secret_finding(&secrets[i]));
            } else {
                assert(pieces[i as int] =~= Seq::<FindingView>::empty());
            }
            i = i + 1;
        }
        assert(pieces.take(i as int) =~= pieces);
        CheckResult { check_name: owned(self.name()), findings }
    }
}

} // verus!
