//! TLS and web exposure: the configured security contacts must be well-formed
//! e-mail addresses, and the configured web endpoints must use HTTPS, send
//! HSTS and hide their server banner.
use vstd::prelude::*;
use crate::cluster::ProbeOutcome;
use crate::config::AuditConfig;
use crate::models::{
    CheckResult, CheckResultView, Evidence, EvidenceView, Finding, FindingView, ResourceReference,
    ResourceReferenceView, Severity, ids_distinct, keyed_by, lemma_concat_ids_distinct,
    has_id, lemma_ids_distinct_add, lemma_keyed_ids_distinct, lemma_prefix_cancel, only_if,
    push_finding,
};
use crate::seqs::{concat_all, lemma_concat_all_forall, lemma_concat_all_take};
use crate::text::{chars_of, eq_text, join2, join3, owned};

verus! {

/// The check on web endpoints and contact data.
pub struct TlsWebCheck;

/// `local` and `domain`, the two sides of an address split at its only `@`,
/// are well-formed: both non-empty, and the domain holds a `.` but neither
/// starts nor ends with one.
pub open spec fn valid_email_parts(local: Seq<char>, domain: Seq<char>) -> bool {
    &&& local.len() > 0
    &&& domain.len() > 0
    &&& domain.contains('.')
    &&& domain[0] != '.'
    &&& domain[domain.len() - 1] != '.'
}

/// The address holds exactly one `@`, at `i`.
pub open spec fn only_at_sign(s: Seq<char>, i: int) -> bool {
    &&& 0 <= i < s.len()
    &&& s[i] == '@'
    &&& forall|k: int| 0 <= k < s.len() && k != i ==> s[k] != '@'
}

/// The e-mail rule: splitting at `@` gives exactly two parts, and they are
/// well-formed.
pub open spec fn is_valid_email_text(s: Seq<char>) -> bool {
    exists|i: int| #[trigger] only_at_sign(s, i) && valid_email_parts(s.take(i), s.skip(i + 1))
}

fn has_char_in(v: &Vec<char>, lo: usize, hi: usize, c: char) -> (r: bool)
    requires
        lo <= hi <= v@.len(),
    ensures
        r == v@.subrange(lo as int, hi as int).contains(c),
{
    let mut k = lo;
    while k < hi
        invariant
            lo <= k <= hi <= v@.len(),
            forall|j: int| lo <= j < k ==> v@[j] != c,
        decreases hi - k,
    {
        if v[k] == c {
            assert(v@.subrange(lo as int, hi as int)[k - lo] == c);
            return true;
        }
        k = k + 1;
    }
    proof {
        assert forall|j: int| 0 <= j < hi - lo implies v@.subrange(lo as int, hi as int)[j]
            != c by {
            assert(v@.subrange(lo as int, hi as int)[j] == v@[lo + j]);
        }
    }
    false
}

/// Whether a contact address is well-formed.
pub fn is_valid_email(value: &str) -> (r: bool)
    ensures
        r == is_valid_email_text(value@),
{
    let v = chars_of(value);
    let n = v.len();
    let mut at: Option<usize> = None;
    let mut k: usize = 0;
    while k < n
        invariant
            v@ == value@,
            n == v@.len(),
            k <= n,
            match at {
                None => forall|j: int| 0 <= j < k ==> v@[j] != '@',
                Some(p) => p < k && v@[p as int] == '@' && forall|j: int|
                    0 <= j < k && j != p ==> v@[j] != '@',
            },
        decreases n - k,
    {
        if v[k] == '@' {
            match at {
                Some(p) => {
                    proof {
                        assert forall|i: int| !(#[trigger] only_at_sign(value@, i)) by {
                            if only_at_sign(value@, i) {
                                assert(value@[p as int] == '@');
                                assert(value@[k as int] == '@');
                            }
                        }
                    }
                    return false;
                },
                None => {
                    at = Some(k);
                },
            }
        }
        k = k + 1;
    }
    match at {
        None => {
            proof {
                assert forall|i: int| !(#[trigger] only_at_sign(value@, i)) by {}
            }
            false
        },
        Some(p) => {
            assert(only_at_sign(value@, p as int));
            proof {
                assert forall|i: int| #[trigger] only_at_sign(value@, i) implies i == p by {}
            }
            let local_ok = p > 0;
            let domain_ok = p + 1 < n;
            if !local_ok || !domain_ok {
                assert(!valid_email_parts(value@.take(p as int), value@.skip(p + 1)));
                return false;
            }
            let has_dot = has_char_in(&v, p + 1, n, '.');
            assert(value@.skip(p + 1) =~= v@.subrange(p + 1, n as int));
            let r = has_dot && v[p + 1] != '.' && v[n - 1] != '.';
            assert(value@.take(p as int).len() > 0);
            assert(value@.skip(p + 1)[0] == v@[p + 1]);
            assert(value@.skip(p + 1)[value@.skip(p + 1).len() - 1] == v@[n - 1]);
            assert(r == valid_email_parts(value@.take(p as int), value@.skip(p + 1)));
            r
        },
    }
}

/// The finding that `base_web_finding` builds.
pub open spec fn web_finding(
    id: Seq<char>,
    title: Seq<char>,
    endpoint: Seq<char>,
    detail: Seq<char>,
    severity: Severity,
) -> FindingView {
    FindingView {
        id: id + "-"@ + endpoint,
        title: title,
        area: "SSL/TLS & Web Exposure"@,
        criterion: "Transport- und Header-Sicherheit externer Endpunkte"@,
        description: "Exponierter Webdienst zeigt potenzielle Sicherheitslücke."@,
        resource: Some(ResourceReferenceView { kind: "Endpoint"@, namespace: None, name: endpoint }),
        evidence: EvidenceView { summary: detail, details: seq![detail] },
        risk: "Erhöhte Angriffsfläche bzw. schwächere Transportabsicherung"@,
        recommendation: "TLS-Konfiguration härten, Security Header ergänzen, Exposition reduzieren."@,
        severity: severity,
        heuristic: false,
    }
}

/// A finding of the TLS and web exposure area about an endpoint.
pub fn base_web_finding(id: &str, title: &str, endpoint: &str, detail: &str, severity: Severity) -> (r:
    Finding)
    ensures
        r@ == web_finding(id@, title@, endpoint@, detail@, severity),
{
    let mut details: Vec<String> = Vec::new();
    details.push(owned(detail));
    let r = Finding {
        id: join3(id, "-", endpoint),
        title: owned(title),
        area: owned("SSL/TLS & Web Exposure"),
        criterion: owned("Transport- und Header-Sicherheit externer Endpunkte"),
        description: owned("Exponierter Webdienst zeigt potenzielle Sicherheitslücke."),
        resource: Some(ResourceReference { kind: owned("Endpoint"), namespace: None, name: owned(endpoint) }),
        evidence: Evidence { summary: owned(detail), details },
        risk: owned("Erhöhte Angriffsfläche bzw. schwächere Transportabsicherung"),
        recommendation: owned(
            "TLS-Konfiguration härten, Security Header ergänzen, Exposition reduzieren.",
        ),
        severity,
        heuristic: false,
    };
    assert(r@.evidence.details =~= seq![detail@]);
    r
}

/// The finding for a malformed contact address.
pub open spec fn email_finding(mail: Seq<char>) -> FindingView {
    FindingView {
        id: "TLS-EMAIL-INVALID-"@ + mail,
        title: "Ungültige E-Mail-Adresse in Konfiguration"@,
        area: "Zusatzprüfungen"@,
        criterion: "Formale Datenvalidierung"@,
        description: "E-Mail-Adresse entspricht nicht erwarteten Formatregeln."@,
        resource: None,
        evidence: EvidenceView {
            summary: "Regex-basierte E-Mail-Prüfung fehlgeschlagen"@,
            details: seq![mail],
        },
        risk: "Fehlende Erreichbarkeit von Security-Kontakten"@,
        recommendation: "Kontaktinformationen korrigieren."@,
        severity: Severity::Low,
        heuristic: false,
    }
}

pub open spec fn email_piece(mail: Seq<char>) -> Seq<FindingView> {
    if is_valid_email_text(mail) {
        Seq::empty()
    } else {
        seq![email_finding(mail)]
    }
}

/// One finding per malformed address, in order.
pub open spec fn email_findings(mails: Seq<Seq<char>>) -> Seq<FindingView> {
    concat_all(mails.map_values(|m: Seq<char>| email_piece(m)))
}

/// The findings for an endpoint whose URL has scheme `scheme`, given what
/// became of its request.
pub open spec fn outcome_findings(
    target: Seq<char>,
    scheme: Seq<char>,
    outcome: ProbeOutcome,
) -> Seq<FindingView> {
    match outcome {
        ProbeOutcome::Answered { hsts, server_debug } => only_if(
            scheme != "https"@,
            web_finding(
                "TLS-NO-HTTPS"@,
                "Endpoint ohne HTTPS"@,
                target,
                "URL verwendet kein HTTPS"@,
                Severity::High,
            ),
        ) + only_if(
            !hsts,
            web_finding(
                "TLS-NO-HSTS"@,
                "HSTS Header fehlt"@,
                target,
                "strict-transport-security Header nicht gesetzt"@,
                Severity::Medium,
            ),
        ) + match server_debug {
            Some(d) => seq![
                web_finding(
                    "WEB-SERVER-BANNER"@,
                    "Server-Banner exponiert"@,
                    target,
                    "server="@ + d@,
                    Severity::Low,
                ),
            ],
            None => Seq::empty(),
        },
        ProbeOutcome::Failed { error } => seq![
            web_finding(
                "TLS-CONNECT-ERROR"@,
                "TLS/Web-Endpoint nicht erreichbar"@,
                target,
                "Fehler beim Verbindungsaufbau: "@ + error@,
                Severity::Info,
            ),
        ],
    }
}

/// The scheme of the URL that `url::Url::parse` (re-exported as
/// `reqwest::Url`) makes of `input`, or `None` where it refuses the input.
pub uninterp spec fn url_scheme_of(input: Seq<char>) -> Option<Seq<char>>;

/// `reqwest::Url::parse` followed by `Url::scheme` on success. The contract
/// claims only that the result is the scheme named `url_scheme_of` for the
/// input: the same input always gives the same answer.
#[verifier::external_body]
fn parse_url_scheme(input: &str) -> (r: Option<String>)
    ensures
        match r {
            Some(s) => url_scheme_of(input@) == Some(s@),
            None => url_scheme_of(input@) is None,
        },
{
    match reqwest::Url::parse(input) {
        Ok(url) => Some(url.scheme().to_string()),
        Err(_) => None,
    }
}

/// What became of the request to the target at place `i`: `None` where none
/// was made.
pub open spec fn outcome_at(outcomes: Seq<Option<ProbeOutcome>>, i: int) -> Option<ProbeOutcome> {
    if 0 <= i < outcomes.len() {
        outcomes[i]
    } else {
        None
    }
}

/// The findings of one configured target: none where its URL does not parse
/// or no request was made, else those of what became of the request.
pub open spec fn target_piece(target: Seq<char>, outcome: Option<ProbeOutcome>) -> Seq<FindingView> {
    match url_scheme_of(target) {
        Some(scheme) => match outcome {
            Some(o) => outcome_findings(target, scheme, o),
            None => Seq::empty(),
        },
        None => Seq::empty(),
    }
}

/// What each configured target contributes, in the order of the targets.
pub open spec fn target_pieces(
    targets: Seq<Seq<char>>,
    outcomes: Seq<Option<ProbeOutcome>>,
) -> Seq<Seq<FindingView>> {
    Seq::new(targets.len(), |i: int| target_piece(targets[i], outcome_at(outcomes, i)))
}

/// The findings of the contacts, then those of the configured targets.
pub open spec fn tls_findings(
    mails: Seq<Seq<char>>,
    targets: Seq<Seq<char>>,
    outcomes: Seq<Option<ProbeOutcome>>,
) -> Seq<FindingView> {
    email_findings(mails) + concat_all(target_pieces(targets, outcomes))
}

/// The id stems of the check's findings about endpoints.
pub open spec fn is_web_stem(p: Seq<char>) -> bool {
    ||| p == "TLS-NO-HTTPS"@
    ||| p == "TLS-NO-HSTS"@
    ||| p == "WEB-SERVER-BANNER"@
    ||| p == "TLS-CONNECT-ERROR"@
}

/// The id stems of all the check's findings.
pub open spec fn is_tls_stem(p: Seq<char>) -> bool {
    is_web_stem(p) || p == "TLS-EMAIL-INVALID"@
}

/// An id of the check: the stem, `-`, then the endpoint or address.
pub open spec fn tls_id(stem: Seq<char>, key: Seq<char>) -> Seq<char> {
    stem + "-"@ + key
}

/// The characters at places 0, 4 and 8 of an id tell its stem.
proof fn lemma_tls_id_marks(p: Seq<char>, k: Seq<char>)
    requires
        is_tls_stem(p),
    ensures
        tls_id(p, k).len() > 8,
        tls_id(p, k)[0] == p[0],
        tls_id(p, k)[4] == p[4],
        tls_id(p, k)[8] == p[8],
{
    reveal_strlit("TLS-NO-HTTPS");
    reveal_strlit("TLS-NO-HSTS");
    reveal_strlit("WEB-SERVER-BANNER");
    reveal_strlit("TLS-CONNECT-ERROR");
    reveal_strlit("TLS-EMAIL-INVALID");
    assert((p + "-"@ + k)[0] == p[0]);
    assert((p + "-"@ + k)[4] == p[4]);
    assert((p + "-"@ + k)[8] == p[8]);
}

/// An id of the check gives back its stem and its endpoint or address.
pub proof fn lemma_tls_id_injective(p1: Seq<char>, k1: Seq<char>, p2: Seq<char>, k2: Seq<char>)
    requires
        is_tls_stem(p1),
        is_tls_stem(p2),
        tls_id(p1, k1) == tls_id(p2, k2),
    ensures
        p1 == p2,
        k1 == k2,
{
    reveal_strlit("TLS-NO-HTTPS");
    reveal_strlit("TLS-NO-HSTS");
    reveal_strlit("WEB-SERVER-BANNER");
    reveal_strlit("TLS-CONNECT-ERROR");
    reveal_strlit("TLS-EMAIL-INVALID");
    lemma_tls_id_marks(p1, k1);
    lemma_tls_id_marks(p2, k2);
    assert(p1 == p2);
    lemma_prefix_cancel(p1 + "-"@, k1, k2);
}

/// Some endpoint finding of the check names `target` in `id`.
pub open spec fn names_target(id: Seq<char>, target: Seq<char>) -> bool {
    exists|p: Seq<char>| is_web_stem(p) && id == #[trigger] tls_id(p, target)
}

/// The findings about one endpoint carry distinct ids, each naming the
/// endpoint.
proof fn lemma_outcome_ids(target: Seq<char>, scheme: Seq<char>, outcome: ProbeOutcome)
    ensures
        ids_distinct(outcome_findings(target, scheme, outcome)),
        forall|k: int|
            0 <= k < outcome_findings(target, scheme, outcome).len() ==> names_target(
                (#[trigger] outcome_findings(target, scheme, outcome)[k]).id,
                target,
            ),
{
    reveal_strlit("TLS-NO-HTTPS");
    reveal_strlit("TLS-NO-HSTS");
    reveal_strlit("WEB-SERVER-BANNER");
    reveal_strlit("TLS-CONNECT-ERROR");
    let all = outcome_findings(target, scheme, outcome);
    let ha = tls_id("TLS-NO-HTTPS"@, target);
    let hs = tls_id("TLS-NO-HSTS"@, target);
    let bn = tls_id("WEB-SERVER-BANNER"@, target);
    let ce = tls_id("TLS-CONNECT-ERROR"@, target);
    assert(names_target(ha, target));
    assert(names_target(hs, target));
    assert(names_target(bn, target));
    assert(names_target(ce, target));
    match outcome {
        ProbeOutcome::Answered { hsts, server_debug } => {
            let x = only_if(
                scheme != "https"@,
                web_finding(
                    "TLS-NO-HTTPS"@,
                    "Endpoint ohne HTTPS"@,
                    target,
                    "URL verwendet kein HTTPS"@,
                    Severity::High,
                ),
            );
            let y = only_if(
                !hsts,
                web_finding(
                    "TLS-NO-HSTS"@,
                    "HSTS Header fehlt"@,
                    target,
                    "strict-transport-security Header nicht gesetzt"@,
                    Severity::Medium,
                ),
            );
            let z = match server_debug {
                Some(d) => seq![
                    web_finding(
                        "WEB-SERVER-BANNER"@,
                        "Server-Banner exponiert"@,
                        target,
                        "server="@ + d@,
                        Severity::Low,
                    ),
                ],
                None => Seq::empty(),
            };
            assert(all == x + y + z);
            assert forall|i: int, j: int| 0 <= i < x.len() && 0 <= j < y.len() implies (
            #[trigger] x[i]).id != (#[trigger] y[j]).id by {
                if x[i].id == y[j].id {
                    lemma_tls_id_injective("TLS-NO-HTTPS"@, target, "TLS-NO-HSTS"@, target);
                }
            }
            lemma_ids_distinct_add(x, y);
            let xy = x + y;
            assert forall|i: int| 0 <= i < xy.len() implies (#[trigger] xy[i]).id == ha || xy[i].id
                == hs by {
                if i < x.len() {
                    assert(xy[i] == x[i]);
                } else {
                    assert(xy[i] == y[i - x.len()]);
                }
            }
            assert forall|i: int, j: int| 0 <= i < xy.len() && 0 <= j < z.len() implies (
            #[trigger] xy[i]).id != (#[trigger] z[j]).id by {
                if xy[i].id == z[j].id {
                    if xy[i].id == ha {
                        lemma_tls_id_injective("TLS-NO-HTTPS"@, target, "WEB-SERVER-BANNER"@, target);
                    } else {
                        lemma_tls_id_injective("TLS-NO-HSTS"@, target, "WEB-SERVER-BANNER"@, target);
                    }
                }
            }
            lemma_ids_distinct_add(xy, z);
            assert forall|k: int| 0 <= k < all.len() implies names_target(
                (#[trigger] all[k]).id,
                target,
            ) by {
                if k < xy.len() {
                    assert(all[k] == xy[k]);
                } else {
                    assert(all[k] == z[k - xy.len()]);
                }
            }
        },
        ProbeOutcome::Failed { error } => {},
    }
}

/// Every finding about a configured endpoint names it in its id.
pub proof fn lemma_target_piece_stems(target: Seq<char>, outcome: Option<ProbeOutcome>)
    ensures
        forall|k: int|
            0 <= k < target_piece(target, outcome).len() ==> names_target(
                (#[trigger] target_piece(target, outcome)[k]).id,
                target,
            ),
{
    match url_scheme_of(target) {
        Some(scheme) => match outcome {
            Some(o) => {
                lemma_outcome_ids(target, scheme, o);
            },
            None => {},
        },
        None => {},
    }
}

/// The e-mail rule, place by place: exactly one `@`, at some `i` that is
/// neither first nor last; some `.` after it; and the characters right after
/// the `@` and at the very end are not `.`.
pub open spec fn email_well_formed(s: Seq<char>) -> bool {
    exists|i: int|
        0 < i && i + 1 < s.len() && #[trigger] s[i] == '@' && (forall|k: int|
            0 <= k < s.len() && k != i ==> s[k] != '@') && (exists|d: int|
            i < d < s.len() && #[trigger] s[d] == '.') && s[i + 1] != '.' && s[s.len() - 1] != '.'
}

/// An address is valid exactly when it is well-formed place by place.
pub proof fn lemma_email_rule(s: Seq<char>)
    ensures
        is_valid_email_text(s) <==> email_well_formed(s),
{
    if is_valid_email_text(s) {
        let i = choose|i: int| #[trigger] only_at_sign(s, i) && valid_email_parts(s.take(i), s.skip(i + 1));
        let dom = s.skip(i + 1);
        let j = choose|j: int| 0 <= j < dom.len() && dom[j] == '.';
        assert(s[i + 1 + j] == '.');
        assert(dom[0] == s[i + 1]);
        assert(dom[dom.len() - 1] == s[s.len() - 1]);
        assert(s[i] == '@');
    }
    if email_well_formed(s) {
        let i = choose|i: int|
            0 < i && i + 1 < s.len() && #[trigger] s[i] == '@' && (forall|k: int|
                0 <= k < s.len() && k != i ==> s[k] != '@') && (exists|d: int|
                i < d < s.len() && #[trigger] s[d] == '.') && s[i + 1] != '.' && s[s.len() - 1] != '.';
        let d = choose|d: int| i < d < s.len() && #[trigger] s[d] == '.';
        let dom = s.skip(i + 1);
        assert(dom[d - i - 1] == '.');
        assert(dom.contains('.'));
        assert(only_at_sign(s, i));
        assert(valid_email_parts(s.take(i), dom));
    }
}

/// A contact address is reported, once, exactly when it is not well-formed;
/// the finding is low, under `TLS-EMAIL-INVALID-` and the address.
pub proof fn lemma_email_reported(mail: Seq<char>)
    ensures
        email_piece(mail).len() <= 1,
        email_piece(mail).len() == 1 <==> !email_well_formed(mail),
        email_piece(mail).len() == 1 ==> email_piece(mail)[0].id == "TLS-EMAIL-INVALID-"@ + mail
            && email_piece(mail)[0].severity == Severity::Low,
{
    lemma_email_rule(mail);
}

/// What an endpoint gives, by what became of its request. An answer gives
/// `TLS-NO-HTTPS` exactly when the scheme is not `https`, `TLS-NO-HSTS`
/// exactly when the answer has no HSTS header, `WEB-SERVER-BANNER` exactly
/// when it has a `server` header, and never `TLS-CONNECT-ERROR`; a failed
/// request gives just `TLS-CONNECT-ERROR`, of severity info, with the error.
/// Each id is the rule, `-` and the endpoint.
pub proof fn lemma_outcome_reported(target: Seq<char>, scheme: Seq<char>, outcome: ProbeOutcome)
    ensures
        match outcome {
            ProbeOutcome::Answered { hsts, server_debug } => {
                let fs = outcome_findings(target, scheme, outcome);
                &&& has_id(fs, "TLS-NO-HTTPS-"@ + target) <==> scheme != "https"@
                &&& has_id(fs, "TLS-NO-HSTS-"@ + target) <==> !hsts
                &&& has_id(fs, "WEB-SERVER-BANNER-"@ + target) <==> server_debug is Some
                &&& !has_id(fs, "TLS-CONNECT-ERROR-"@ + target)
                &&& fs.len() <= 3
            },
            ProbeOutcome::Failed { error } => {
                let fs = outcome_findings(target, scheme, outcome);
                &&& fs.len() == 1
                &&& fs[0].id == "TLS-CONNECT-ERROR-"@ + target
                &&& fs[0].severity == Severity::Info
                &&& fs[0].evidence.summary == "Fehler beim Verbindungsaufbau: "@ + error@
            },
        },
{
    reveal_strlit("TLS-NO-HTTPS");
    reveal_strlit("TLS-NO-HSTS");
    reveal_strlit("WEB-SERVER-BANNER");
    reveal_strlit("TLS-CONNECT-ERROR");
    reveal_strlit("TLS-NO-HTTPS-");
    reveal_strlit("TLS-NO-HSTS-");
    reveal_strlit("WEB-SERVER-BANNER-");
    reveal_strlit("TLS-CONNECT-ERROR-");
    reveal_strlit("-");
    let ha = "TLS-NO-HTTPS-"@ + target;
    let hs = "TLS-NO-HSTS-"@ + target;
    let bn = "WEB-SERVER-BANNER-"@ + target;
    let ce = "TLS-CONNECT-ERROR-"@ + target;
    assert(ha =~= tls_id("TLS-NO-HTTPS"@, target));
    assert(hs =~= tls_id("TLS-NO-HSTS"@, target));
    assert(bn =~= tls_id("WEB-SERVER-BANNER"@, target));
    assert(ce =~= tls_id("TLS-CONNECT-ERROR"@, target));
    lemma_tls_id_marks("TLS-NO-HTTPS"@, target);
    lemma_tls_id_marks("TLS-NO-HSTS"@, target);
    lemma_tls_id_marks("WEB-SERVER-BANNER"@, target);
    lemma_tls_id_marks("TLS-CONNECT-ERROR"@, target);
    assert(ha[8] != hs[8] && ha[0] != bn[0] && hs[0] != bn[0]);
    assert(ha[4] != ce[4] && hs[4] != ce[4] && bn[0] != ce[0]);
    match outcome {
        ProbeOutcome::Answered { hsts, server_debug } => {
            let all = outcome_findings(target, scheme, outcome);
            let fx = web_finding("TLS-NO-HTTPS"@, "Endpoint ohne HTTPS"@, target,
                "URL verwendet kein HTTPS"@, Severity::High);
            let fy = web_finding("TLS-NO-HSTS"@, "HSTS Header fehlt"@, target,
                "strict-transport-security Header nicht gesetzt"@, Severity::Medium);
            let x = only_if(scheme != "https"@, fx);
            let y = only_if(!hsts, fy);
            let z = match server_debug {
                Some(d) => seq![
                    web_finding("WEB-SERVER-BANNER"@, "Server-Banner exponiert"@, target,
                        "server="@ + d@, Severity::Low),
                ],
                None => Seq::empty(),
            };
            assert(all == x + y + z);
            let xy = x + y;
            assert forall|k: int| 0 <= k < all.len() implies ((#[trigger] all[k]).id == ha && scheme
                != "https"@) || (all[k].id == hs && !hsts) || (all[k].id == bn && server_debug is Some) by {
                if k < x.len() {
                    assert(all[k] == x[k]);
                } else if k < xy.len() {
                    assert(all[k] == xy[k]);
                    assert(xy[k] == y[k - x.len()]);
                } else {
                    assert(all[k] == z[k - xy.len()]);
                }
            }
            if scheme != "https"@ {
                assert(all[0] == fx);
            }
            if !hsts {
                assert(all[x.len() as int] == xy[x.len() as int]);
                assert(all[x.len() as int] == fy);
            }
            if server_debug is Some {
                assert(all[xy.len() as int] == z[0]);
            }
        },
        ProbeOutcome::Failed { error } => {},
    }
}

/// A configured target whose URL does not parse, or to which no request was
/// made, gives nothing; otherwise it gives what became of its request, for
/// the scheme that its URL names. Targets are taken in the configured order,
/// each with the outcome at its own place.
pub proof fn lemma_target_reported(
    targets: Seq<Seq<char>>,
    outcomes: Seq<Option<ProbeOutcome>>,
    i: int,
)
    requires
        0 <= i < targets.len(),
    ensures
        url_scheme_of(targets[i]) is None ==> target_pieces(targets, outcomes)[i].len() == 0,
        i >= outcomes.len() ==> target_pieces(targets, outcomes)[i].len() == 0,
        i < outcomes.len() && outcomes[i] is None ==> target_pieces(targets, outcomes)[i].len() == 0,
        i < outcomes.len() && outcomes[i] is Some && url_scheme_of(targets[i]) is Some
            ==> target_pieces(targets, outcomes)[i] == outcome_findings(
            targets[i],
            url_scheme_of(targets[i])->0,
            outcomes[i]->0,
        ),
        target_pieces(targets, outcomes).len() == targets.len(),
{
}

/// No two configured endpoints are the same, and no two contact addresses.
pub open spec fn tls_inputs_distinct(mails: Seq<Seq<char>>, targets: Seq<Seq<char>>) -> bool {
    &&& forall|i: int, j: int| 0 <= i < j < mails.len() ==> #[trigger] mails[i] != #[trigger] mails[j]
    &&& forall|i: int, j: int|
        0 <= i < j < targets.len() ==> #[trigger] targets[i] != #[trigger] targets[j]
}

/// Where no endpoint and no contact address is configured twice, no two
/// findings of the TLS check share an id.
pub proof fn lemma_tls_ids_distinct(
    mails: Seq<Seq<char>>,
    targets: Seq<Seq<char>>,
    outcomes: Seq<Option<ProbeOutcome>>,
)
    requires
        tls_inputs_distinct(mails, targets),
    ensures
        ids_distinct(tls_findings(mails, targets, outcomes)),
{
    reveal_strlit("TLS-EMAIL-INVALID");
    reveal_strlit("TLS-EMAIL-INVALID-");
    reveal_strlit("-");
    reveal_strlit("TLS-NO-HTTPS");
    reveal_strlit("TLS-NO-HSTS");
    reveal_strlit("WEB-SERVER-BANNER");
    reveal_strlit("TLS-CONNECT-ERROR");
    let eprefix = "TLS-EMAIL-INVALID-"@;
    assert(eprefix =~= "TLS-EMAIL-INVALID"@ + "-"@);
    let epieces = mails.map_values(|m: Seq<char>| email_piece(m));
    lemma_keyed_ids_distinct(epieces, mails, eprefix);
    let a = concat_all(epieces);
    let pieces = target_pieces(targets, outcomes);
    assert forall|i: int| 0 <= i < pieces.len() implies ids_distinct(#[trigger] pieces[i]) && (forall|
        k: int,
    | 0 <= k < pieces[i].len() ==> names_target(#[trigger] pieces[i][k].id, targets[i])) by {
        match url_scheme_of(targets[i]) {
            Some(scheme) => match outcome_at(outcomes, i) {
                Some(o) => {
                    lemma_outcome_ids(targets[i], scheme, o);
                },
                None => {},
            },
            None => {},
        }
    }
    assert forall|i: int, j: int, x: int, y: int|
        0 <= i < j < pieces.len() && 0 <= x < pieces[i].len() && 0 <= y < pieces[j].len()
            implies (#[trigger] pieces[i][x]).id != (#[trigger] pieces[j][y]).id by {
        assert(names_target(pieces[i][x].id, targets[i]));
        assert(names_target(pieces[j][y].id, targets[j]));
        let p1 = choose|p: Seq<char>| is_web_stem(p) && pieces[i][x].id == #[trigger] tls_id(p, targets[i]);
        let p2 = choose|p: Seq<char>| is_web_stem(p) && pieces[j][y].id == #[trigger] tls_id(p, targets[j]);
        if pieces[i][x].id == pieces[j][y].id {
            lemma_tls_id_injective(p1, targets[i], p2, targets[j]);
        }
    }
    lemma_concat_ids_distinct(pieces);
    let b = concat_all(pieces);
    let named = |f: FindingView| exists|t: Seq<char>| #[trigger] names_target(f.id, t);
    assert forall|i: int, k: int| 0 <= i < pieces.len() && 0 <= k < pieces[i].len() implies #[trigger] named(
        pieces[i][k],
    ) by {
        assert(names_target(pieces[i][k].id, targets[i]));
    }
    lemma_concat_all_forall(pieces, named);
    assert forall|i: int, j: int| 0 <= i < a.len() && 0 <= j < b.len() implies (#[trigger] a[i]).id
        != (#[trigger] b[j]).id by {
        assert(keyed_by(a[i].id, mails, eprefix));
        let m = choose|m: int| 0 <= m < mails.len() && a[i].id == eprefix + mails[m];
        assert(a[i].id == tls_id("TLS-EMAIL-INVALID"@, mails[m]));
        assert(named(b[j]));
        let t = choose|t: Seq<char>| #[trigger] names_target(b[j].id, t);
        let p = choose|p: Seq<char>| is_web_stem(p) && b[j].id == #[trigger] tls_id(p, t);
        assert(p[4] != "TLS-EMAIL-INVALID"@[4]);
        if a[i].id == b[j].id {
            lemma_tls_id_injective("TLS-EMAIL-INVALID"@, mails[m], p, t);
        }
    }
    lemma_ids_distinct_add(a, b);
}

fn invalid_email_finding(mail: &String) -> (r: Finding)
    ensures
        r@ == email_finding(mail@),
{
    let mut details: Vec<String> = Vec::new();
    details.push(mail.clone());
    let r = Finding {
        id: join2("TLS-EMAIL-INVALID-", mail.as_str()),
        title: owned("Ungültige E-Mail-Adresse in Konfiguration"),
        area: owned("Zusatzprüfungen"),
        criterion: owned("Formale Datenvalidierung"),
        description: owned("E-Mail-Adresse entspricht nicht erwarteten Formatregeln."),
        resource: None,
        evidence: Evidence { summary: owned("Regex-basierte E-Mail-Prüfung fehlgeschlagen"), details },
        risk: owned("Fehlende Erreichbarkeit von Security-Kontakten"),
        recommendation: owned("Kontaktinformationen korrigieren."),
        severity: Severity::Low,
        heuristic: false,
    };
    assert(r@.evidence.details =~= seq![mail@]);
    r
}

impl TlsWebCheck {
    pub fn name(&self) -> (r: &'static str)
        ensures
            r@ == "tls"@,
    {
        "tls"
    }

    /// The scheme of a configured endpoint, or `None` where its URL does not
    /// parse (such an endpoint is skipped).
    pub fn target_scheme(&self, target: &str) -> (r: Option<String>)
        ensures
            match r {
                Some(s) => url_scheme_of(target@) == Some(s@),
                None => url_scheme_of(target@) is None,
            },
    {
        parse_url_scheme(target)
    }

    /// The findings for an endpoint whose URL has scheme `scheme`, given
    /// what became of its request.
    pub fn probe_findings(&self, target: &str, scheme: &str, outcome: &ProbeOutcome) -> (r: Vec<
        Finding,
    >)
        ensures
            r.deep_view() == outcome_findings(target@, scheme@, *outcome),
    {
        let mut out: Vec<Finding> = Vec::new();
        match outcome {
            ProbeOutcome::Answered { hsts, server_debug } => {
                let https = eq_text(&owned(scheme), "https");
                if !https {
                    push_finding(
                        &mut out,
                        base_web_finding(
                            "TLS-NO-HTTPS",
                            "Endpoint ohne HTTPS",
                            target,
                            "URL verwendet kein HTTPS",
                            Severity::High,
                        ),
                    );
                }
                if !*hsts {
                    push_finding(
                        &mut out,
                        base_web_finding(
                            "TLS-NO-HSTS",
                            "HSTS Header fehlt",
                            target,
                            "strict-transport-security Header nicht gesetzt",
                            Severity::Medium,
                        ),
                    );
                }
                match server_debug {
                    Some(d) => {
                        let detail = join2("server=", d.as_str());
                        push_finding(
                            &mut out,
                            base_web_finding(
                                "WEB-SERVER-BANNER",
                                "Server-Banner exponiert",
                                target,
                                detail.as_str(),
                                Severity::Low,
                            ),
                        );
                    },
                    None => {},
                }
            },
            ProbeOutcome::Failed { error } => {
                let detail = join2("Fehler beim Verbindungsaufbau: ", error.as_str());
                push_finding(
                    &mut out,
                    base_web_finding(
                        "TLS-CONNECT-ERROR",
                        "TLS/Web-Endpoint nicht erreichbar",
                        target,
                        detail.as_str(),
                        Severity::Info,
                    ),
                );
            },
        }
        assert(out.deep_view() =~= outcome_findings(target@, scheme@, *outcome));
        out
    }

    /// The result of the check on the configured contacts and targets, given
    /// what became of the request to each target (`outcomes[i]` for
    /// `tls_targets[i]`; `None`, or no entry, where no request was made).
    pub fn evaluate(&self, config: &AuditConfig, outcomes: &Vec<Option<ProbeOutcome>>) -> (r:
        CheckResult)
        ensures
            r@ == (CheckResultView {
                check_name: "tls"@,
                findings: tls_findings(config@.email_contacts, config@.tls_targets, outcomes@),
            }),
    {
        let mails = &config.email_contacts;
        let targets = &config.tls_targets;
        let ghost epieces = mails.deep_view().map_values(|m: Seq<char>| email_piece(m));
        let ghost ppieces = target_pieces(targets.deep_view(), outcomes@);
        let mut findings: Vec<Finding> = Vec::new();
        let mut i: usize = 0;
        while i < mails.len()
            invariant
                epieces == mails.deep_view().map_values(|m: Seq<char>| email_piece(m)),
                i <= mails@.len(),
                findings.deep_view() == concat_all(epieces.take(i as int)),
            decreases mails@.len() - i,
        {
            proof {
                lemma_concat_all_take(epieces, i as int);
            }
            assert(mails.deep_view()[i as int] == mails@[i as int]@);
            if !is_valid_email(mails[i].as_str()) {
                push_finding(&mut findings, invalid_email_finding(&mails[i]));
            } else {
                assert(epieces[i as int] =~= Seq::<FindingView>::empty());
            }
            i = i + 1;
        }
        assert(epieces.take(i as int) =~= epieces);
        let ghost head = findings.deep_view();
        let mut j: usize = 0;
        while j < targets.len()
            invariant
                ppieces == target_pieces(targets.deep_view(), outcomes@),
                j <= targets@.len(),
                findings.deep_view() == head + concat_all(ppieces.take(j as int)),
            decreases targets@.len() - j,
        {
            proof {
                lemma_concat_all_take(ppieces, j as int);
            }
            let target = &targets[j];
            assert(targets.deep_view()[j as int] == target@);
            let outcome: Option<&ProbeOutcome> = if j < outcomes.len() {
                match &outcomes[j] {
                    Some(o) => Some(o),
                    None => None,
                }
            } else {
                None
            };
            match self.target_scheme(target.as_str()) {
                Some(scheme) => match outcome {
                    Some(o) => {
                        let more = self.probe_findings(target.as_str(), scheme.as_str(), o);
                        let mut m: usize = 0;
                        let ghost before = findings.deep_view();
                        while m < more.len()
                            invariant
                                m <= more@.len(),
                                findings.deep_view() == before + more.deep_view().take(m as int),
                            decreases more@.len() - m,
                        {
                            let f = more[m].clone();
                            push_finding(&mut findings, f);
                            assert(more.deep_view().take(m + 1) =~= more.deep_view().take(
                                m as int,
                            ).push(more.deep_view()[m as int]));
                            m = m + 1;
                            assert(findings.deep_view() =~= before + more.deep_view().take(
                                m as int,
                            ));
                        }
                        assert(more.deep_view().take(m as int) =~= more.deep_view());
                    },
                    None => {
                        assert(ppieces[j as int] =~= Seq::<FindingView>::empty());
                    },
                },
                None => {
                    assert(ppieces[j as int] =~= Seq::<FindingView>::empty());
                },
            }
            assert(findings.deep_view() =~= head + concat_all(ppieces.take(j + 1)));
            j = j + 1;
        }
        assert(ppieces.take(j as int) =~= ppieces);
        CheckResult { check_name: owned(self.name()), findings }
    }
}

} // verus!
