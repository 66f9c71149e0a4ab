//! The certificates that the API server is trusted by, and the TLS configuration over them.

use crate::config::PcrConfig;
use crate::identity::{Error, ErrorView};
use vstd::prelude::*;
use vstd::string::*;

verus! {

/// A trust anchor: its subject, its public key and its name constraints, in DER.
pub type Anchor = (Seq<u8>, Seq<u8>, Option<Seq<u8>>);

/// The root store of `rustls`.
#[verifier::external_type_specification]
#[verifier::external_body]
pub struct ExRootCertStore(rustls::RootCertStore);

/// The trust anchors that a root store holds, in the order in which they were added.
pub uninterp spec fn anchors(store: rustls::RootCertStore) -> Seq<Anchor>;

/// The trust anchor that `rustls` takes from a certificate in DER, or the message with
/// which it refuses the certificate.
pub uninterp spec fn anchor_of(der: Seq<u8>) -> Result<Anchor, Seq<char>>;

/// What `rustls_pemfile` reads from a PEM file when it is asked for certificates: each
/// certificate in DER, or the message of the fault that stands in its place.
pub uninterp spec fn certs_in(pem: Seq<u8>) -> Seq<Result<Seq<u8>, Seq<char>>>;

/// The bytes and messages of a list of certificates.
pub open spec fn cert_views(certs: Seq<Result<Vec<u8>, String>>) -> Seq<
    Result<Seq<u8>, Seq<char>>,
> {
    certs.map_values(
        |c: Result<Vec<u8>, String>|
            match c {
                Ok(der) => Ok(der@),
                Err(e) => Err(e@),
            },
    )
}

/// Calls `rustls_pemfile::certs` on the bytes and collects what it yields. Claimed: what
/// it yields depends on the bytes alone.
#[verifier::external_body]
fn read_certs(pem: &[u8]) -> (out: Vec<Result<Vec<u8>, String>>)
    ensures
        cert_views(out@) == certs_in(pem@),
{
    let mut cursor = std::io::Cursor::new(pem);
    rustls_pemfile::certs(&mut cursor)
        .map(|cert| cert.map(|der| der.to_vec()).map_err(|e| e.to_string()))
        .collect()
}

/// Calls `RootCertStore::empty` of `rustls`. Claimed: the store holds no trust anchor.
#[verifier::external_body]
fn empty_store() -> (store: rustls::RootCertStore)
    ensures
        anchors(store) == Seq::<Anchor>::empty(),
{
    rustls::RootCertStore::empty()
}

/// Calls `RootCertStore::add` of `rustls`. Claimed: whether the certificate is accepted,
/// which trust anchor it gives and with which message it is refused depend on its bytes
/// alone; an accepted one is added behind the others, a refused one changes nothing.
#[verifier::external_body]
fn add_cert(store: &mut rustls::RootCertStore, der: Vec<u8>) -> (out: Result<(), String>)
    ensures
        match out {
            Ok(_) => anchor_of(der@) is Ok && anchors(*final(store)) == anchors(*old(store)).push(
                anchor_of(der@)->Ok_0,
            ),
            Err(e) => anchor_of(der@) == Err::<Anchor, Seq<char>>(e@) && anchors(*final(store))
                == anchors(*old(store)),
        },
{
    store.add(der.into()).map_err(|e| e.to_string())
}

/// Calls `RootCertStore::is_empty` of `rustls`. Claimed: it tells whether the store holds
/// no trust anchor.
#[verifier::external_body]
fn store_is_empty(store: &rustls::RootCertStore) -> (empty: bool)
    ensures
        empty == (anchors(*store).len() == 0),
{
    store.is_empty()
}

/// The trust anchors of the first certificates of a list, up to the first that could not
/// be read or is refused, and what is reported of that one.
pub open spec fn trusted(certs: Seq<Result<Seq<u8>, Seq<char>>>) -> Result<
    Seq<Anchor>,
    Seq<char>,
>
    decreases certs.len(),
{
    if certs.len() == 0 {
        Ok(Seq::empty())
    } else {
        match trusted(certs.drop_last()) {
            Err(e) => Err(e),
            Ok(before) => match certs.last() {
                Err(e) => Err("parsing kube CA: "@ + e),
                Ok(der) => match anchor_of(der) {
                    Err(e) => Err("adding kube CA cert to store: "@ + e),
                    Ok(anchor) => Ok(before.push(anchor)),
                },
            },
        }
    }
}

/// The outcome of trusting a list of certificates: all of their anchors, an error for the
/// first that is at fault, or an error where there is none at all.
pub open spec fn trust_outcome(certs: Seq<Result<Seq<u8>, Seq<char>>>) -> Result<
    Seq<Anchor>,
    ErrorView,
> {
    match trusted(certs) {
        Err(e) => Err(ErrorView::Spiffe(e)),
        Ok(roots) => if roots.len() == 0 {
            Err(ErrorView::Spiffe("no trusted CA certificates found in kube CA bundle"@))
        } else {
            Ok(roots)
        },
    }
}

/// A store of the given outcome.
pub open spec fn store_outcome(out: Result<rustls::RootCertStore, Error>) -> Result<
    Seq<Anchor>,
    ErrorView,
> {
    match out {
        Ok(store) => Ok(anchors(store)),
        Err(e) => Err(e@),
    }
}

proof fn lemma_trusted_prefix(certs: Seq<Result<Seq<u8>, Seq<char>>>, n: int)
    requires
        0 <= n <= certs.len(),
        trusted(certs.take(n)) is Err,
    ensures
        trusted(certs) == trusted(certs.take(n)),
    decreases certs.len(),
{
    if n == certs.len() {
        assert(certs.take(n) =~= certs);
    } else {
        assert(certs.drop_last().take(n) =~= certs.take(n));
        lemma_trusted_prefix(certs.drop_last(), n);
    }
}

/// What to report where the store refused a certificate.
pub fn added(outcome: Result<(), String>) -> (out: Result<(), Error>)
    ensures
        match outcome {
            Ok(_) => out is Ok,
            Err(e) => out is Err && out->Err_0@ == ErrorView::Spiffe(
                "adding kube CA cert to store: "@ + e@,
            ),
        },
{
    match outcome {
        Ok(_) => Ok(()),
        Err(e) => Err(
            Error::Spiffe("adding kube CA cert to store: ".to_owned().concat(e.as_str())),
        ),
    }
}

/// Puts the certificates that were read from a CA bundle into a root store. The first
/// certificate that could not be read, or that the store refuses, is an error, and so is
/// a bundle without a certificate.
pub fn roots_from_certs(certs: Vec<Result<Vec<u8>, String>>) -> (out: Result<
    rustls::RootCertStore,
    Error,
>)
    ensures
        store_outcome(out) == trust_outcome(cert_views(certs@)),
{
    let mut store = empty_store();
    let ghost all = cert_views(certs@);
    proof {
        assert(all.take(0) =~= Seq::empty());
    }
    for i in 0..certs.len()
        invariant
            all == cert_views(certs@),
            trusted(all.take(i as int)) == Ok::<Seq<Anchor>, Seq<char>>(anchors(store)),
    {
        let ghost upto = all.take(i + 1);
        proof {
            assert(upto.drop_last() =~= all.take(i as int));
            assert(upto.last() == all[i as int]);
        }
        match &certs[i] {
            Ok(der) => {
                let der: Vec<u8> = der.clone();
                proof {
                    assert(der@ =~= certs@[i as int]->Ok_0@);
                }
                match added(add_cert(&mut store, der)) {
                    Ok(_) => {},
                    Err(e) => {
                        proof {
                            lemma_trusted_prefix(all, i + 1);
                        }
                        return Err(e);
                    },
                }
            },
            Err(e) => {
                proof {
                    lemma_trusted_prefix(all, i + 1);
                }
                return Err(Error::Spiffe("parsing kube CA: ".to_owned().concat(e.as_str())));
            },
        }
    }
    proof {
        assert(all.take(certs.len() as int) =~= all);
    }
    if store_is_empty(&store) {
        return Err(
            Error::Spiffe("no trusted CA certificates found in kube CA bundle".to_owned()),
        );
    }
    Ok(store)
}

/// The root store from the CA bundle of the API server. `bundle` is what came of reading
/// the file: its bytes, or the message of the failure.
pub fn kube_roots(cfg: &PcrConfig, bundle: Result<Vec<u8>, String>) -> (out: Result<
    rustls::RootCertStore,
    Error,
>)
    ensures
        store_outcome(out) == match bundle {
            Ok(pem) => trust_outcome(certs_in(pem@)),
            Err(e) => Err(
                ErrorView::Spiffe("reading kube CA bundle "@ + cfg.ca_bundle_path@ + ": "@ + e@),
            ),
        },
{
    match bundle {
        Ok(pem) => roots_from_certs(read_certs(pem.as_slice())),
        Err(e) => Err(
            Error::Spiffe(
                "reading kube CA bundle ".to_owned().concat(cfg.ca_bundle_path.as_str()).concat(
                    ": ",
                ).concat(e.as_str()),
            ),
        ),
    }
}

/// What to report where the TLS configuration of the client was refused.
pub fn tls_config_refused(message: &str) -> (out: Error)
    ensures
        out@ == ErrorView::Spiffe("rustls config: "@ + message@),
{
    Error::Spiffe("rustls config: ".to_owned().concat(message))
}

/// A root store is handed out only for a bundle with at least one certificate, and it
/// then holds exactly one trust anchor for each certificate of the bundle.
pub proof fn law_every_certificate_is_trusted(certs: Seq<Result<Seq<u8>, Seq<char>>>)
    requires
        trust_outcome(certs) is Ok,
    ensures
        certs.len() > 0,
        trust_outcome(certs)->Ok_0.len() == certs.len(),
        forall|i: int|
            0 <= i < certs.len() ==> #[trigger] certs[i] is Ok && anchor_of(certs[i]->Ok_0) == Ok::<
                Anchor,
                Seq<char>,
            >(trust_outcome(certs)->Ok_0[i]),
{
    lemma_trusted_all(certs);
}

proof fn lemma_trusted_all(certs: Seq<Result<Seq<u8>, Seq<char>>>)
    requires
        trusted(certs) is Ok,
    ensures
        trusted(certs)->Ok_0.len() == certs.len(),
        forall|i: int|
            0 <= i < certs.len() ==> #[trigger] certs[i] is Ok && anchor_of(certs[i]->Ok_0) == Ok::<
                Anchor,
                Seq<char>,
            >(trusted(certs)->Ok_0[i]),
    decreases certs.len(),
{
    if certs.len() > 0 {
        let front = certs.drop_last();
        lemma_trusted_all(front);
        assert forall|i: int| 0 <= i < certs.len() implies #[trigger] certs[i] is Ok && anchor_of(
            certs[i]->Ok_0,
        ) == Ok::<Anchor, Seq<char>>(trusted(certs)->Ok_0[i]) by {
            if i < front.len() {
                assert(front[i] == certs[i]);
            }
        }
    }
}

proof fn lemma_trusted_exactly(certs: Seq<Result<Seq<u8>, Seq<char>>>)
    ensures
        trusted(certs) is Ok <==> forall|i: int|
            0 <= i < certs.len() ==> #[trigger] certs[i] is Ok && anchor_of(certs[i]->Ok_0) is Ok,
    decreases certs.len(),
{
    if certs.len() > 0 {
        let front = certs.drop_last();
        lemma_trusted_exactly(front);
        if trusted(certs) is Ok {
            lemma_trusted_all(certs);
        } else if forall|i: int|
            0 <= i < certs.len() ==> #[trigger] certs[i] is Ok && anchor_of(certs[i]->Ok_0) is Ok {
            assert forall|i: int| 0 <= i < front.len() implies #[trigger] front[i] is Ok
                && anchor_of(front[i]->Ok_0) is Ok by {
                assert(front[i] == certs[i]);
            }
            assert(certs[certs.len() - 1] is Ok);
        }
    }
}

proof fn lemma_first_fault(certs: Seq<Result<Seq<u8>, Seq<char>>>, k: int)
    requires
        0 <= k < certs.len(),
        forall|i: int|
            0 <= i < k ==> #[trigger] certs[i] is Ok && anchor_of(certs[i]->Ok_0) is Ok,
        certs[k] is Err || anchor_of(certs[k]->Ok_0) is Err,
    ensures
        trusted(certs) == Err::<Seq<Anchor>, Seq<char>>(
            match certs[k] {
                Err(e) => "parsing kube CA: "@ + e,
                Ok(der) => "adding kube CA cert to store: "@ + anchor_of(der)->Err_0,
            },
        ),
{
    let upto = certs.take(k + 1);
    assert forall|i: int| 0 <= i < k implies #[trigger] upto.drop_last()[i] is Ok && anchor_of(
        upto.drop_last()[i]->Ok_0,
    ) is Ok by {
        assert(upto.drop_last()[i] == certs[i]);
    }
    lemma_trusted_exactly(upto.drop_last());
    assert(upto.last() == certs[k]);
    lemma_trusted_prefix(certs, k + 1);
}

/// A root store comes out exactly for a list that is not empty and in which every
/// certificate was read and is accepted; it holds the anchor of each, in order, and
/// nothing else. An empty list is an error.
pub proof fn law_all_certificates_or_none(
    certs: Vec<Result<Vec<u8>, String>>,
    out: Result<rustls::RootCertStore, Error>,
)
    requires
        call_ensures(roots_from_certs, (certs,), out),
    ensures
        out is Ok <==> certs@.len() > 0 && forall|i: int|
            0 <= i < certs@.len() ==> #[trigger] certs@[i] is Ok && anchor_of(
                certs@[i]->Ok_0@,
            ) is Ok,
        out matches Ok(store) ==> anchors(store).len() == certs@.len(),
        out matches Ok(store) ==> forall|i: int|
            0 <= i < certs@.len() ==> #[trigger] anchors(store)[i] == anchor_of(
                certs@[i]->Ok_0@,
            )->Ok_0,
        certs@.len() == 0 ==> out->Err_0 is Spiffe && out->Err_0->Spiffe_0@
            == "no trusted CA certificates found in kube CA bundle"@,
{
    let views = cert_views(certs@);
    lemma_trusted_exactly(views);
    assert forall|i: int| 0 <= i < certs@.len() implies (#[trigger] certs@[i] is Ok && anchor_of(
        certs@[i]->Ok_0@,
    ) is Ok) == (views[i] is Ok && anchor_of(views[i]->Ok_0) is Ok) by {}
    if trusted(views) is Ok {
        lemma_trusted_all(views);
        assert forall|i: int| 0 <= i < certs@.len() implies #[trigger] certs@[i] is Ok
            && anchor_of(certs@[i]->Ok_0@) is Ok by {
            assert(views[i] is Ok);
        }
    } else if forall|i: int|
        0 <= i < certs@.len() ==> #[trigger] certs@[i] is Ok && anchor_of(certs@[i]->Ok_0@) is Ok {
        assert forall|i: int| 0 <= i < views.len() implies #[trigger] views[i] is Ok && anchor_of(
            views[i]->Ok_0,
        ) is Ok by {
            assert(certs@[i] is Ok);
        }
    }
    if let Ok(store) = out {
        assert forall|i: int| 0 <= i < certs@.len() implies #[trigger] anchors(store)[i]
            == anchor_of(certs@[i]->Ok_0@)->Ok_0 by {
            assert(views[i] is Ok);
        }
    }
}

/// The first certificate that could not be read, or is refused, is the one that is
/// reported.
pub proof fn law_the_first_fault_is_reported(
    certs: Vec<Result<Vec<u8>, String>>,
    k: int,
    out: Result<rustls::RootCertStore, Error>,
)
    requires
        call_ensures(roots_from_certs, (certs,), out),
        0 <= k < certs@.len(),
        forall|i: int|
            0 <= i < k ==> #[trigger] certs@[i] is Ok && anchor_of(certs@[i]->Ok_0@) is Ok,
        certs@[k] is Err || anchor_of(certs@[k]->Ok_0@) is Err,
    ensures
        out is Err,
        out->Err_0 is Spiffe,
        out->Err_0->Spiffe_0@ == match certs@[k] {
            Err(why) => "parsing kube CA: "@ + why@,
            Ok(der) => "adding kube CA cert to store: "@ + anchor_of(der@)->Err_0,
        },
{
    let views = cert_views(certs@);
    assert forall|i: int| 0 <= i < k implies #[trigger] views[i] is Ok && anchor_of(
        views[i]->Ok_0,
    ) is Ok by {
        assert(certs@[i] is Ok);
    }
    lemma_first_fault(views, k);
}

/// The certificates of the bundle are all trusted or none is: a store comes out exactly
/// where the file could be read, holds a certificate, and holds none that is at fault.
pub proof fn law_the_bundle_is_trusted_as_a_whole(
    cfg: PcrConfig,
    bundle: Result<Vec<u8>, String>,
    out: Result<rustls::RootCertStore, Error>,
)
    requires
        call_ensures(kube_roots, (&cfg, bundle), out),
    ensures
        bundle matches Err(why) ==> out is Err && out->Err_0 is Spiffe && out->Err_0->Spiffe_0@
            == "reading kube CA bundle "@ + cfg.ca_bundle_path@ + ": "@ + why@,
        bundle matches Ok(pem) ==> (out is Ok <==> certs_in(pem@).len() > 0 && forall|i: int|
            0 <= i < certs_in(pem@).len() ==> #[trigger] certs_in(pem@)[i] is Ok && anchor_of(
                certs_in(pem@)[i]->Ok_0,
            ) is Ok),
        bundle matches Ok(pem) ==> (out matches Ok(store) ==> {
            &&& anchors(store).len() == certs_in(pem@).len()
            &&& forall|i: int|
                0 <= i < certs_in(pem@).len() ==> anchor_of(
                    (#[trigger] certs_in(pem@)[i])->Ok_0,
                )->Ok_0 == anchors(store)[i]
        }),
{
    if let Ok(pem) = bundle {
        let certs = certs_in(pem@);
        lemma_trusted_exactly(certs);
        if trusted(certs) is Ok {
            lemma_trusted_all(certs);
        }
    }
}

/// What the store says of a certificate is handed on.
pub proof fn law_a_refused_certificate_is_reported(
    outcome: Result<(), String>,
    out: Result<(), Error>,
)
    requires
        call_ensures(added, (outcome,), out),
    ensures
        out is Ok <==> outcome is Ok,
        out is Err ==> out->Err_0 is Spiffe && out->Err_0->Spiffe_0@
            == "adding kube CA cert to store: "@ + outcome->Err_0@,
{
}

/// What is reported of a refused TLS configuration holds the reason.
pub proof fn law_a_refused_tls_configuration_is_shown(message: &str, out: Error)
    requires
        call_ensures(tls_config_refused, (message,), out),
    ensures
        out is Spiffe,
        out->Spiffe_0@ == "rustls config: "@ + message@,
{
}

} // verus!
