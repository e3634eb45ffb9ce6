//! The cluster connection entered in the web interface, and what of it goes
//! into the client configuration.
use vstd::prelude::*;
use crate::text::{clone_opt, is_blank, is_blank_text, is_unicode_whitespace, opt_text};

verus! {

/// The connection settings entered in the web interface.
#[derive(Debug)]
pub struct KubeUiConfig {
    pub cluster_url: String,
    pub token: String,
    pub ca_cert: Option<String>,
    pub namespace: Option<String>,
}

pub struct KubeUiConfigView {
    pub cluster_url: Seq<char>,
    pub token: Seq<char>,
    pub ca_cert: Option<Seq<char>>,
    pub namespace: Option<Seq<char>>,
}

impl View for KubeUiConfig {
    type V = KubeUiConfigView;

    open spec fn view(&self) -> KubeUiConfigView {
        KubeUiConfigView {
            cluster_url: self.cluster_url@,
            token: self.token@,
            ca_cert: opt_text(self.ca_cert),
            namespace: opt_text(self.namespace),
        }
    }
}

impl Clone for KubeUiConfig {
    fn clone(&self) -> (r: Self)
        ensures
            r@ == self@,
    {
        KubeUiConfig {
            cluster_url: self.cluster_url.clone(),
            token: self.token.clone(),
            ca_cert: clone_opt(&self.ca_cert),
            namespace: clone_opt(&self.namespace),
        }
    }
}

/// The optional text if it is set and holds more than whitespace.
pub open spec fn non_blank(o: Option<Seq<char>>) -> Option<Seq<char>> {
    match o {
        Some(s) => if is_blank_text(s) {
            None
        } else {
            Some(s)
        },
        None => None,
    }
}

/// An entered text is kept, unchanged, exactly when it holds some character
/// that is not whitespace; a missing one stays missing.
pub proof fn lemma_non_blank_keeps(o: Option<Seq<char>>)
    ensures
        non_blank(o) is Some ==> non_blank(o) == o,
        non_blank(o) is Some <==> (o is Some && exists|k: int|
            0 <= k < o->0.len() && !is_unicode_whitespace(#[trigger] o->0[k])),
{
}

fn keep_non_blank(o: &Option<String>) -> (r: Option<String>)
    ensures
        opt_text(r) == non_blank(opt_text(*o)),
{
    match o {
        Some(s) => if is_blank(s.as_str()) {
            None
        } else {
            Some(s.clone())
        },
        None => None,
    }
}

impl KubeUiConfig {
    /// The CA certificate (PEM text) that the client is to trust: the entered
    /// one, unless it is missing or blank.
    pub fn root_cert_pem(&self) -> (r: Option<String>)
        ensures
            opt_text(r) == non_blank(self@.ca_cert),
    {
        keep_non_blank(&self.ca_cert)
    }

    /// The namespace in which the connection test lists pods: the entered
    /// one, unless it is missing or blank (then pods of all namespaces).
    pub fn listing_namespace(&self) -> (r: Option<String>)
        ensures
            opt_text(r) == non_blank(self@.namespace),
    {
        keep_non_blank(&self.namespace)
    }
}

} // verus!
