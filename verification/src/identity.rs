//! Workload identities and what can go wrong in getting a certificate for one.

use crate::text::same_text;
use crate::tls;
use vstd::prelude::*;
use vstd::string::*;

verus! {

/// The identity of a workload.
#[derive(Debug)]
pub enum Identity {
    Spiffe { trust_domain: String, namespace: String, service_account: String },
}

/// The parts of an [`Identity`].
pub struct SpiffeId {
    pub trust_domain: Seq<char>,
    pub namespace: Seq<char>,
    pub service_account: Seq<char>,
}

impl View for Identity {
    type V = SpiffeId;

    open spec fn view(&self) -> SpiffeId {
        match self {
            Identity::Spiffe { trust_domain, namespace, service_account } => SpiffeId {
                trust_domain: trust_domain@,
                namespace: namespace@,
                service_account: service_account@,
            },
        }
    }
}

/// The SPIFFE URI of an identity.
pub open spec fn spiffe_uri(id: SpiffeId) -> Seq<char> {
    "spiffe://"@ + id.trust_domain + "/ns/"@ + id.namespace + "/sa/"@ + id.service_account
}

impl Clone for Identity {
    fn clone(&self) -> (out: Self)
        ensures
            out@ == self@,
    {
        match self {
            Identity::Spiffe { trust_domain, namespace, service_account } => Identity::Spiffe {
                trust_domain: trust_domain.clone(),
                namespace: namespace.clone(),
                service_account: service_account.clone(),
            },
        }
    }
}

impl Identity {
    /// The SPIFFE URI.
    pub fn to_string(&self) -> (out: String)
        ensures
            out@ == spiffe_uri(self@),
    {
        match self {
            Identity::Spiffe { trust_domain, namespace, service_account } => {
                let mut out = "spiffe://".to_owned();
                out.append(trust_domain.as_str());
                out.append("/ns/");
                out.append(namespace.as_str());
                out.append("/sa/");
                out.append(service_account.as_str());
                out
            },
        }
    }

    /// Whether two identities are the same in all parts.
    pub fn same(&self, other: &Identity) -> (same: bool)
        ensures
            same == (self@ == other@),
    {
        match (self, other) {
            (
                Identity::Spiffe { trust_domain: td, namespace: ns, service_account: sa },
                Identity::Spiffe {
                    trust_domain: other_td,
                    namespace: other_ns,
                    service_account: other_sa,
                },
            ) => same_text(td.as_str(), other_td.as_str()) && same_text(
                ns.as_str(),
                other_ns.as_str(),
            ) && same_text(sa.as_str(), other_sa.as_str()),
        }
    }
}

/// Why no certificate was obtained.
#[derive(Debug)]
pub enum Error {
    /// The request could not be made or was not granted; the text says why.
    Spiffe(String),
    /// The signer's answer holds no certificate.
    EmptyResponse(Identity),
    /// The certificate is not for the identity that was asked for.
    SanError(Identity),
    /// The key material or the certificate was refused.
    Signing(tls::Error),
}

/// What an [`Error`] says.
pub enum ErrorView {
    Spiffe(Seq<char>),
    EmptyResponse(SpiffeId),
    SanError(SpiffeId),
    Signing(tls::ErrorView),
}

impl View for Error {
    type V = ErrorView;

    open spec fn view(&self) -> ErrorView {
        match self {
            Error::Spiffe(text) => ErrorView::Spiffe(text@),
            Error::EmptyResponse(id) => ErrorView::EmptyResponse(id@),
            Error::SanError(id) => ErrorView::SanError(id@),
            Error::Signing(e) => ErrorView::Signing(e@),
        }
    }
}

/// Two identities whose trust domains and namespaces hold no slash have the same URI only
/// if they are the same.
pub proof fn law_uri_tells_identities_apart(a: SpiffeId, b: SpiffeId)
    requires
        forall|i: int| 0 <= i < a.trust_domain.len() ==> a.trust_domain[i] != '/',
        forall|i: int| 0 <= i < b.trust_domain.len() ==> b.trust_domain[i] != '/',
        forall|i: int| 0 <= i < a.namespace.len() ==> a.namespace[i] != '/',
        forall|i: int| 0 <= i < b.namespace.len() ==> b.namespace[i] != '/',
        spiffe_uri(a) == spiffe_uri(b),
    ensures
        a == b,
{
    reveal_strlit("spiffe://");
    reveal_strlit("/ns/");
    reveal_strlit("/sa/");
    let u = spiffe_uri(a);
    let p = "spiffe://"@;
    let a1 = "/ns/"@ + a.namespace + "/sa/"@ + a.service_account;
    let b1 = "/ns/"@ + b.namespace + "/sa/"@ + b.service_account;
    assert(u =~= p + (a.trust_domain + a1));
    assert(u =~= p + (b.trust_domain + b1));
    assert(u.skip(p.len() as int) =~= a.trust_domain + a1);
    assert(u.skip(p.len() as int) =~= b.trust_domain + b1);
    lemma_up_to_slash(a.trust_domain, a1, b.trust_domain, b1);
    let a2 = "/sa/"@ + a.service_account;
    let b2 = "/sa/"@ + b.service_account;
    assert(a1.skip(4) =~= a.namespace + a2);
    assert(b1.skip(4) =~= b.namespace + b2);
    lemma_up_to_slash(a.namespace, a2, b.namespace, b2);
    assert(a2.skip(4) =~= a.service_account);
    assert(b2.skip(4) =~= b.service_account);
}

proof fn lemma_up_to_slash(a: Seq<char>, a_rest: Seq<char>, b: Seq<char>, b_rest: Seq<char>)
    requires
        forall|i: int| 0 <= i < a.len() ==> a[i] != '/',
        forall|i: int| 0 <= i < b.len() ==> b[i] != '/',
        a_rest.len() > 0 && a_rest[0] == '/',
        b_rest.len() > 0 && b_rest[0] == '/',
        a + a_rest == b + b_rest,
    ensures
        a == b,
        a_rest == b_rest,
{
    let s = a + a_rest;
    if a.len() < b.len() {
        assert(s[a.len() as int] == a_rest[0]);
        assert((b + b_rest)[a.len() as int] == b[a.len() as int]);
    } else if b.len() < a.len() {
        assert((b + b_rest)[b.len() as int] == b_rest[0]);
        assert(s[b.len() as int] == a[b.len() as int]);
    }
    assert(s.take(a.len() as int) =~= a);
    assert((b + b_rest).take(a.len() as int) =~= b);
    assert(s.skip(a.len() as int) =~= a_rest);
    assert((b + b_rest).skip(a.len() as int) =~= b_rest);
}

/// The URI of an identity names its trust domain, its namespace and its service account.
pub proof fn law_the_uri_names_all_parts(id: Identity, out: String)
    requires
        call_ensures(Identity::to_string, (&id,), out),
    ensures
        out@ == "spiffe://"@ + id->trust_domain@ + "/ns/"@ + id->namespace@ + "/sa/"@
            + id->service_account@,
{
}

/// Two identities are the same exactly if no part of them differs.
pub proof fn law_same_looks_at_all_parts(a: Identity, b: Identity, same: bool)
    requires
        call_ensures(Identity::same, (&a, &b), same),
    ensures
        same <==> {
            &&& a->trust_domain@ == b->trust_domain@
            &&& a->namespace@ == b->namespace@
            &&& a->service_account@ == b->service_account@
        },
{
}

/// A copy of an identity is the same in all parts.
pub proof fn law_a_copy_keeps_all_parts(id: Identity, copy: Identity)
    requires
        call_ensures(Identity::clone, (&id,), copy),
    ensures
        copy->trust_domain@ == id->trust_domain@,
        copy->namespace@ == id->namespace@,
        copy->service_account@ == id->service_account@,
{
    assert(copy@ == id@);
}

/// No part of the two identities differs.
pub open spec fn same_parts(a: Identity, b: Identity) -> bool {
    &&& a->trust_domain@ == b->trust_domain@
    &&& a->namespace@ == b->namespace@
    &&& a->service_account@ == b->service_account@
}

} // verus!
