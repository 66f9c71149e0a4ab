//! Configuration of the certificate client.

use crate::identity::{Error, ErrorView};
use crate::text::{holds_char, opt_text};
use vstd::prelude::*;
use vstd::string::*;

verus! {

/// How the certificate client reaches the Kubernetes API server and what it asks for.
#[derive(Clone, Debug)]
pub struct PcrConfig {
    /// Base URL of the API server, such as `https://kubernetes.default.svc:443`.
    pub apiserver_url: String,
    /// Path of the API server's CA bundle in PEM.
    pub ca_bundle_path: String,
    /// Path of the service account token. It is read anew for every request, since the
    /// token is rotated.
    pub token_path: String,
    /// The local node: it is impersonated, and only pods on it are considered.
    pub node_name: String,
    /// The signer that the certificate requests are addressed to.
    pub signer_name: String,
    /// The trust domain of the identities that can be served.
    pub trust_domain: String,
    /// The longest certificate lifetime that is asked for.
    pub max_expiration_seconds: i32,
}

/// What a [`PcrConfig`] holds.
pub struct PcrConfigView {
    pub apiserver_url: Seq<char>,
    pub ca_bundle_path: Seq<char>,
    pub token_path: Seq<char>,
    pub node_name: Seq<char>,
    pub signer_name: Seq<char>,
    pub trust_domain: Seq<char>,
    pub max_expiration_seconds: i32,
}

impl View for PcrConfig {
    type V = PcrConfigView;

    open spec fn view(&self) -> PcrConfigView {
        PcrConfigView {
            apiserver_url: self.apiserver_url@,
            ca_bundle_path: self.ca_bundle_path@,
            token_path: self.token_path@,
            node_name: self.node_name@,
            signer_name: self.signer_name@,
            trust_domain: self.trust_domain@,
            max_expiration_seconds: self.max_expiration_seconds,
        }
    }
}

/// The base URL of the API server on `host` and `port`. A host with a colon is an IPv6
/// address and stands in brackets.
pub open spec fn apiserver_url(host: Seq<char>, port: Seq<char>) -> Seq<char> {
    if host.contains(':') {
        "https://["@ + host + "]:"@ + port
    } else {
        "https://"@ + host + ":"@ + port
    }
}

/// The port of the API server: the HTTPS port if there is one, else the plain port, else
/// 443.
pub open spec fn apiserver_port(
    https_port: Option<Seq<char>>,
    port: Option<Seq<char>>,
) -> Seq<char> {
    match https_port {
        Some(p) => p,
        None => match port {
            Some(p) => p,
            None => "443"@,
        },
    }
}

/// The name under which a node is known to the API server.
pub open spec fn node_user(node_name: Seq<char>) -> Seq<char> {
    "system:node:"@ + node_name
}

impl PcrConfig {
    /// The configuration inside a cluster.
    ///
    /// `host`, `https_port` and `port` are the values of the environment variables
    /// `KUBERNETES_SERVICE_HOST`, `KUBERNETES_SERVICE_PORT_HTTPS` and
    /// `KUBERNETES_SERVICE_PORT`, as far as they are set.
    pub fn in_cluster(
        host: Option<String>,
        https_port: Option<String>,
        port: Option<String>,
        node_name: String,
        signer_name: String,
        trust_domain: String,
        max_expiration_seconds: i32,
    ) -> (out: Result<Self, Error>)
        ensures
            match host {
                None => out is Err && out->Err_0@ == ErrorView::Spiffe(
                    "KUBERNETES_SERVICE_HOST not set; cannot use PCR provider"@,
                ),
                Some(host) => out is Ok && out->Ok_0@ == (PcrConfigView {
                    apiserver_url: apiserver_url(
                        host@,
                        apiserver_port(opt_text(https_port), opt_text(port)),
                    ),
                    ca_bundle_path: "/var/run/secrets/kubernetes.io/serviceaccount/ca.crt"@,
                    token_path: "/var/run/secrets/kubernetes.io/serviceaccount/token"@,
                    node_name: node_name@,
                    signer_name: signer_name@,
                    trust_domain: trust_domain@,
                    max_expiration_seconds,
                }),
            },
    {
        let host: String = match host {
            Some(host) => host,
            None => {
                return Err(
                    Error::Spiffe(
                        "KUBERNETES_SERVICE_HOST not set; cannot use PCR provider".to_owned(),
                    ),
                );
            },
        };
        let port: String = match https_port {
            Some(p) => p,
            None => match port {
                Some(p) => p,
                None => "443".to_owned(),
            },
        };
        let apiserver_url: String = if holds_char(host.as_str(), ':') {
            "https://[".to_owned().concat(host.as_str()).concat("]:").concat(port.as_str())
        } else {
            "https://".to_owned().concat(host.as_str()).concat(":").concat(port.as_str())
        };
        Ok(
            PcrConfig {
                apiserver_url,
                ca_bundle_path: "/var/run/secrets/kubernetes.io/serviceaccount/ca.crt".to_owned(),
                token_path: "/var/run/secrets/kubernetes.io/serviceaccount/token".to_owned(),
                node_name,
                signer_name,
                trust_domain,
                max_expiration_seconds,
            },
        )
    }

    /// The user that requests impersonate: the local node.
    pub fn impersonate_user(&self) -> (out: String)
        ensures
            out@ == node_user(self.node_name@),
    {
        "system:node:".to_owned().concat(self.node_name.as_str())
    }
}

/// A configuration comes out exactly where the host is known. It keeps what it was given,
/// and its files are those of the service account.
pub proof fn law_in_cluster_keeps_what_it_is_given(
    host: Option<String>,
    https_port: Option<String>,
    port: Option<String>,
    node_name: String,
    signer_name: String,
    trust_domain: String,
    max_expiration_seconds: i32,
    out: Result<PcrConfig, Error>,
)
    requires
        call_ensures(
            PcrConfig::in_cluster,
            (
                host,
                https_port,
                port,
                node_name,
                signer_name,
                trust_domain,
                max_expiration_seconds,
            ),
            out,
        ),
    ensures
        out is Ok <==> host is Some,
        out matches Ok(cfg) ==> {
            &&& cfg.node_name@ == node_name@
            &&& cfg.signer_name@ == signer_name@
            &&& cfg.trust_domain@ == trust_domain@
            &&& cfg.max_expiration_seconds == max_expiration_seconds
            &&& cfg.ca_bundle_path@ == "/var/run/secrets/kubernetes.io/serviceaccount/ca.crt"@
            &&& cfg.token_path@ == "/var/run/secrets/kubernetes.io/serviceaccount/token"@
        },
        out matches Err(e) ==> e is Spiffe && e->Spiffe_0@
            == "KUBERNETES_SERVICE_HOST not set; cannot use PCR provider"@,
{
}

/// The base URL speaks HTTPS, ends in the port, and has the host in between: in brackets
/// if the host holds a colon, as it stands if not. The port is the HTTPS port if that is
/// set, else the plain port if that is set, else 443.
pub proof fn law_in_cluster_reaches_host_and_port(
    host: String,
    https_port: Option<String>,
    port: Option<String>,
    node_name: String,
    signer_name: String,
    trust_domain: String,
    max_expiration_seconds: i32,
    out: Result<PcrConfig, Error>,
)
    requires
        call_ensures(
            PcrConfig::in_cluster,
            (
                Some(host),
                https_port,
                port,
                node_name,
                signer_name,
                trust_domain,
                max_expiration_seconds,
            ),
            out,
        ),
    ensures
        ({
            let url = out->Ok_0.apiserver_url@;
            let used = if https_port is Some {
                https_port->0@
            } else if port is Some {
                port->0@
            } else {
                seq!['4', '4', '3']
            };
            let colon = url.len() - used.len() - 1;
            let between = url.subrange(8, colon);
            &&& out is Ok
            &&& colon >= 8
            &&& url.take(8) == seq!['h', 't', 't', 'p', 's', ':', '/', '/']
            &&& url[colon] == ':'
            &&& url.skip(colon + 1) == used
            &&& between == if exists|i: int| 0 <= i < host@.len() && host@[i] == ':' {
                seq!['['] + host@ + seq![']']
            } else {
                host@
            }
        }),
{
    reveal_strlit("https://");
    reveal_strlit("https://[");
    reveal_strlit(":");
    reveal_strlit("]:");
    reveal_strlit("443");
    let url = out->Ok_0.apiserver_url@;
    let used = apiserver_port(opt_text(https_port), opt_text(port));
    assert("443"@ =~= seq!['4', '4', '3']);
    let colon = url.len() - used.len() - 1;
    if host@.contains(':') {
        let i = choose|i: int| 0 <= i < host@.len() && host@[i] == ':';
        assert(host@[i] == ':');
        assert(url.subrange(8, colon) =~= seq!['['] + host@ + seq![']']);
    } else {
        assert(forall|i: int| 0 <= i < host@.len() ==> host@[i] != ':');
        assert(url.subrange(8, colon) =~= host@);
    }
    assert(url.take(8) =~= seq!['h', 't', 't', 'p', 's', ':', '/', '/']);
    assert(url.skip(colon + 1) =~= used);
}

/// Requests impersonate the local node: behind `system:node:` stands its name, in full.
pub proof fn law_the_impersonated_user_is_the_node(cfg: PcrConfig, out: String)
    requires
        call_ensures(PcrConfig::impersonate_user, (&cfg,), out),
    ensures
        out@.len() == 12 + cfg.node_name@.len(),
        out@.take(12) == seq!['s', 'y', 's', 't', 'e', 'm', ':', 'n', 'o', 'd', 'e', ':'],
        out@.skip(12) == cfg.node_name@,
{
    reveal_strlit("system:node:");
    assert(out@.take(12) =~= seq!['s', 'y', 's', 't', 'e', 'm', ':', 'n', 'o', 'd', 'e', ':']);
    assert(out@.skip(12) =~= cfg.node_name@);
}

} // verus!
