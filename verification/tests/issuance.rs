use pcr_client::config::PcrConfig;
use pcr_client::identity::{Error, Identity};
use pcr_client::issuance::{
    begin, decide, select_pod, AccountLookup, Creation, NodeLookup, Poll, PodSearch, Polling,
    Ready, POLL_INTERVAL_MILLIS, POLL_TIMEOUT_NANOS,
};
use pcr_client::kube::{
    ObjectMetaIn, ObjectWithMeta, PcrCondition, PcrObject, PcrStatus, PodIn, PodList, PodMeta,
    PodSpecIn, PodStatusIn,
};
use pcr_client::request::{KubeCall, Method, Reply};
use pcr_client::tls;
use pcr_client::tls::csr::PcrMaterials;

fn config() -> PcrConfig {
    PcrConfig {
        apiserver_url: "https://api:443".to_string(),
        ca_bundle_path: "/ca.crt".to_string(),
        token_path: "/token".to_string(),
        node_name: "node/1".to_string(),
        signer_name: "spiffe.istio.io/cluster.local".to_string(),
        trust_domain: "cluster.local".to_string(),
        max_expiration_seconds: 86400,
    }
}

fn identity() -> Identity {
    spiffe("cluster.local", "ns1", "sa1")
}

fn spiffe(td: &str, ns: &str, sa: &str) -> Identity {
    Identity::Spiffe {
        trust_domain: td.to_string(),
        namespace: ns.to_string(),
        service_account: sa.to_string(),
    }
}

fn message(e: Error) -> String {
    match e {
        Error::Spiffe(text) => text,
        _ => panic!("another error was expected"),
    }
}

fn text(s: &str) -> Option<String> {
    Some(s.to_string())
}

fn meta(name: Option<String>, uid: Option<String>) -> ObjectMetaIn {
    ObjectMetaIn { name, namespace: None, uid }
}

fn pod(name: &str, phase: Option<&str>, account: Option<&str>) -> PodIn {
    PodIn {
        metadata: meta(text(name), text(&format!("{name}-uid"))),
        spec: PodSpecIn { service_account_name: account.map(|s| s.to_string()) },
        status: PodStatusIn { phase: phase.map(|s| s.to_string()) },
    }
}

fn ok<T>(object: T) -> Reply<T> {
    Reply { status: 200, body: Vec::new(), parsed: Ok(object) }
}

fn fault<T>(status: u16) -> Reply<T> {
    Reply { status, body: b"why".to_vec(), parsed: Err("EOF".to_string()) }
}

fn path(call: &KubeCall) -> String {
    assert_eq!(call.method, Method::Get);
    assert!(call.body.is_none());
    call.path.clone()
}

fn pod_meta() -> PodMeta {
    PodMeta {
        name: "p".to_string(),
        uid: "p-uid".to_string(),
        namespace: "ns1".to_string(),
        service_account: "sa1".to_string(),
    }
}

#[test]
fn it_begins_with_the_pods_of_the_node() {
    let (state, call) = begin(&config(), &identity()).unwrap();
    assert!(state.id.same(&identity()));
    assert_eq!(
        path(&call),
        "/api/v1/namespaces/ns1/pods?fieldSelector=spec.nodeName=node%2F1"
    );
}

#[test]
fn another_trust_domain_is_refused() {
    let out = begin(&config(), &spiffe("other", "ns1", "sa1"));
    assert!(matches!(
        out,
        Err(Error::Spiffe(e))
            if e == "identity spiffe://other/ns/ns1/sa/sa1 not in PCR provider trust domain cluster.local"
    ));
}

#[test]
fn the_first_eligible_pod_is_picked() {
    let list = PodList {
        items: vec![
            pod("done", Some("Succeeded"), Some("sa1")),
            pod("none", None, Some("sa1")),
            pod("other", Some("Running"), Some("sa2")),
            pod("anon", Some("Running"), None),
            pod("first", Some("Pending"), Some("sa1")),
            pod("second", Some("Running"), Some("sa1")),
        ],
    };
    let picked = select_pod(&config(), &identity(), &list).unwrap();
    assert_eq!(picked.name, "first");
    assert_eq!(picked.uid, "first-uid");
    assert_eq!(picked.namespace, "ns1");
    assert_eq!(picked.service_account, "sa1");
}

#[test]
fn a_pod_without_name_or_uid_is_picked_all_the_same() {
    let mut bare = pod("x", Some("Running"), Some("sa1"));
    bare.metadata = meta(None, None);
    let picked = select_pod(&config(), &identity(), &PodList { items: vec![bare] }).unwrap();
    assert_eq!(picked.name, "");
    assert_eq!(picked.uid, "");
}

#[test]
fn no_eligible_pod_is_an_error() {
    let e = select_pod(&config(), &identity(), &PodList { items: vec![] }).unwrap_err();
    assert_eq!(
        message(e),
        "no Pending/Running pod with SA sa1 found in ns ns1 on node node/1"
    );
}

#[test]
fn pods_lead_to_the_service_account() {
    let state = PodSearch { id: identity() };
    let list = PodList { items: vec![pod("p", Some("Running"), Some("sa1"))] };
    let (next, call) = match state.found(&config(), ok(list)) {
        Ok(next) => next,
        Err(_) => panic!("the pod was not found"),
    };
    assert_eq!(next.pod.name, "p");
    assert_eq!(path(&call), "/api/v1/namespaces/ns1/serviceaccounts/sa1");
}

#[test]
fn faulty_pod_lists_are_reported() {
    let out = PodSearch { id: identity() }.found(&config(), fault(403));
    assert!(matches!(
        out,
        Err(Error::Spiffe(e)) if e == "list pods on node node/1: status 403 Forbidden, body why"
    ));
    let out = PodSearch { id: identity() }.found(&config(), fault(200));
    assert!(matches!(out, Err(Error::Spiffe(e)) if e == "parsing pod list: EOF"));
}

fn account_lookup() -> AccountLookup {
    AccountLookup { id: identity(), pod: pod_meta() }
}

fn node_lookup() -> NodeLookup {
    NodeLookup {
        id: identity(),
        pod: pod_meta(),
        service_account_uid: "sa-uid".to_string(),
    }
}

#[test]
fn the_service_account_leads_to_the_node() {
    let found = ObjectWithMeta { metadata: meta(None, text("sa-uid")) };
    let (next, call) = match account_lookup().found(&config(), ok(found)) {
        Ok(next) => next,
        Err(_) => panic!("the account was not found"),
    };
    assert_eq!(next.service_account_uid, "sa-uid");
    assert_eq!(next.pod.name, "p");
    assert_eq!(path(&call), "/api/v1/nodes/node/1");
}

#[test]
fn faulty_service_accounts_are_reported() {
    let cfg = config();
    let out = account_lookup().found(&cfg, fault(404));
    assert!(matches!(out, Err(Error::Spiffe(e)) if e == "get sa ns1/sa1: status 404 Not Found, body why"));
    let out = account_lookup().found(&cfg, fault(200));
    assert!(matches!(out, Err(Error::Spiffe(e)) if e == "parsing sa: EOF"));
    let out = account_lookup().found(&cfg, ok(ObjectWithMeta { metadata: meta(None, None) }));
    assert!(matches!(out, Err(Error::Spiffe(e)) if e == "sa ns1/sa1 has no uid"));
}

#[test]
fn the_node_makes_ready() {
    let found = ObjectWithMeta { metadata: meta(None, text("node-uid")) };
    let next = match node_lookup().found(&config(), ok(found)) {
        Ok(next) => next,
        Err(_) => panic!("the node was not found"),
    };
    assert_eq!(next.node_uid, "node-uid");
    assert_eq!(next.service_account_uid, "sa-uid");
}

#[test]
fn faulty_nodes_are_reported() {
    let cfg = config();
    let out = node_lookup().found(&cfg, fault(404));
    assert!(matches!(out, Err(Error::Spiffe(e)) if e == "get node node/1: status 404 Not Found, body why"));
    let out = node_lookup().found(&cfg, fault(200));
    assert!(matches!(out, Err(Error::Spiffe(e)) if e == "parsing node: EOF"));
    let out = node_lookup().found(&cfg, ok(ObjectWithMeta { metadata: meta(None, None) }));
    assert!(matches!(out, Err(Error::Spiffe(e)) if e == "node node/1 has no uid"));
}

fn ready() -> Ready {
    Ready {
        id: identity(),
        pod: pod_meta(),
        service_account_uid: "sa-uid".to_string(),
        node_uid: "node-uid".to_string(),
    }
}

fn materials() -> PcrMaterials {
    PcrMaterials {
        private_key_pem: b"KEY".to_vec(),
        csr_der: b"csr".to_vec(),
        pkix_public_key_der: b"pk1x".to_vec(),
        proof_of_possession: b"pop".to_vec(),
    }
}

#[test]
fn the_request_is_created_in_the_namespace() {
    let (next, call) = match ready().request_with(&config(), Ok(materials())) {
        Ok(next) => next,
        Err(_) => panic!("no request was made"),
    };
    assert_eq!(next.namespace, "ns1");
    assert_eq!(next.private_key_pem, b"KEY".to_vec());
    assert_eq!(call.method, Method::Post);
    assert_eq!(
        call.path,
        "/apis/certificates.k8s.io/v1beta1/namespaces/ns1/podcertificaterequests"
    );
    let v: serde_json::Value = serde_json::from_slice(&call.body.unwrap()).unwrap();
    assert_eq!(v["apiVersion"], "certificates.k8s.io/v1beta1");
    assert_eq!(v["kind"], "PodCertificateRequest");
    assert_eq!(v["metadata"]["generateName"], "ztunnel-");
    assert_eq!(v["metadata"]["namespace"], "ns1");
    assert_eq!(v["spec"]["signerName"], "spiffe.istio.io/cluster.local");
    assert_eq!(v["spec"]["podName"], "p");
    assert_eq!(v["spec"]["podUID"], "p-uid");
    assert_eq!(v["spec"]["serviceAccountName"], "sa1");
    assert_eq!(v["spec"]["serviceAccountUID"], "sa-uid");
    assert_eq!(v["spec"]["nodeName"], "node/1");
    assert_eq!(v["spec"]["nodeUID"], "node-uid");
    assert_eq!(v["spec"]["maxExpirationSeconds"], 86400);
    assert_eq!(v["spec"]["pkixPublicKey"], "cGsxeA==");
    assert_eq!(v["spec"]["proofOfPossession"], "cG9w");
    assert_eq!(v["spec"]["stubPKCS10Request"], "Y3Ny");
}

#[test]
fn base64_covers_the_whole_alphabet() {
    let mut mats = materials();
    mats.csr_der = vec![0xff, 0xef, 0xbe];
    mats.proof_of_possession = vec![0x00, 0x10, 0x83, 0x10];
    mats.pkix_public_key_der = Vec::new();
    let (_, call) = match ready().request_with(&config(), Ok(mats)) {
        Ok(next) => next,
        Err(_) => panic!("no request was made"),
    };
    let v: serde_json::Value = serde_json::from_slice(&call.body.unwrap()).unwrap();
    assert_eq!(v["spec"]["stubPKCS10Request"], "/+++");
    assert_eq!(v["spec"]["proofOfPossession"], "ABCDEA==");
    assert_eq!(v["spec"]["pkixPublicKey"], "");
}

#[test]
fn fresh_materials_go_into_the_request() {
    let (next, call) = match ready().request(&config()) {
        Ok(next) => next,
        Err(_) => panic!("no request was made"),
    };
    let v: serde_json::Value = serde_json::from_slice(&call.body.unwrap()).unwrap();
    let decode = |field: &str| {
        let text = v["spec"][field].as_str().unwrap().to_string();
        base64::Engine::decode(&base64::engine::general_purpose::STANDARD, text).unwrap()
    };
    let pem = String::from_utf8(next.private_key_pem).unwrap();
    let pair = rcgen::KeyPair::from_pem(&pem).unwrap();
    assert_eq!(
        decode("pkixPublicKey"),
        rcgen::PublicKeyData::subject_public_key_info(&pair)
    );
    let public = ring::signature::UnparsedPublicKey::new(
        &ring::signature::ECDSA_P256_SHA256_ASN1,
        pair.public_key_raw().to_vec(),
    );
    assert!(public.verify(b"p-uid", &decode("proofOfPossession")).is_ok());
}

#[test]
fn failed_materials_are_reported() {
    let e = tls::Error::CertificateParseError("x".to_string());
    let out = ready().request_with(&config(), Err(e));
    assert!(matches!(
        out,
        Err(Error::Signing(tls::Error::CertificateParseError(e))) if e == "x"
    ));
}

#[test]
fn an_identity_beyond_ascii_is_refused() {
    let ready = Ready { id: spiffe("cluster.local", "ns1", "sé"), ..ready() };
    assert!(matches!(
        ready.request(&config()),
        Err(Error::Signing(tls::Error::Rcgen(e)))
            if e == "Invalid IA5String: 'spiffe://cluster.local/ns/ns1/sa/sé'"
    ));
}

fn creation() -> Creation {
    Creation {
        id: identity(),
        namespace: "ns1".to_string(),
        private_key_pem: b"KEY".to_vec(),
    }
}

fn pcr(name: Option<String>, status: Option<PcrStatus>) -> PcrObject {
    PcrObject { metadata: meta(name, None), status }
}

#[test]
fn the_created_request_is_polled() {
    let next = match creation().created(ok(pcr(text("ztunnel-x"), None)), 17) {
        Ok(next) => next,
        Err(_) => panic!("the request was not created"),
    };
    assert_eq!(next.name, "ztunnel-x");
    assert_eq!(next.started, 17);
    assert_eq!(
        path(&next.call()),
        "/apis/certificates.k8s.io/v1beta1/namespaces/ns1/podcertificaterequests/ztunnel-x"
    );
}

#[test]
fn faulty_creations_are_reported() {
    let out = creation().created(fault(403), 0);
    assert!(matches!(out, Err(Error::Spiffe(e)) if e == "create PCR ns=ns1: status 403 Forbidden, body why"));
    let out = creation().created(fault(201), 0);
    assert!(matches!(out, Err(Error::Spiffe(e)) if e == "parsing created PCR: EOF"));
    let out = creation().created(ok(pcr(None, None)), 0);
    assert!(matches!(out, Err(Error::Spiffe(e)) if e == "created PCR has no name"));
}

fn condition(kind: &str, message: Option<&str>) -> PcrCondition {
    PcrCondition {
        type_: kind.to_string(),
        status: None,
        reason: None,
        message: message.map(|s| s.to_string()),
    }
}

fn status(chain: &str, conditions: Vec<PcrCondition>) -> Option<PcrStatus> {
    Some(PcrStatus { certificate_chain: chain.to_string(), conditions })
}

#[test]
fn a_refusal_is_reported() {
    let e = decide("ns1/x", status("", vec![condition("Denied", Some("no"))])).unwrap_err();
    assert_eq!(message(e), "PCR ns1/x denied: no");
    let e = decide("ns1/x", status("", vec![condition("Failed", None)])).unwrap_err();
    assert_eq!(message(e), "PCR ns1/x failed: (no message)");
}

#[test]
fn the_first_refusal_counts_even_beside_certificates() {
    let conditions = vec![
        condition("Issued", Some("ok")),
        condition("Failed", Some("a")),
        condition("Denied", Some("b")),
    ];
    let e = decide("ns1/x", status("CHAIN", conditions)).unwrap_err();
    assert_eq!(message(e), "PCR ns1/x failed: a");
}

#[test]
fn without_refusal_the_chain_decides() {
    assert_eq!(decide("r", None).unwrap(), None);
    assert_eq!(decide("r", status("", vec![])).unwrap(), None);
    let issued = status("CHAIN", vec![condition("Issued", None)]);
    assert_eq!(decide("r", issued).unwrap(), Some("CHAIN".to_string()));
}

fn polling() -> Polling {
    Polling {
        id: identity(),
        namespace: "ns1".to_string(),
        name: "x".to_string(),
        private_key_pem: b"KEY".to_vec(),
        started: 100,
    }
}

#[test]
fn an_undecided_request_is_looked_at_again_until_the_time_is_up() {
    let last = 100 + POLL_TIMEOUT_NANOS - 1;
    let out = polling().polled(ok(pcr(None, None)), last);
    assert!(matches!(out, Ok(Poll::Again(p)) if p.name == "x" && p.started == 100));
    let out = polling().polled(ok(pcr(None, status("", vec![]))), last + 1);
    assert!(matches!(out, Err(Error::Spiffe(e)) if e == "timed out waiting for PCR ns1/x status"));
}

#[test]
fn certificates_that_come_late_still_count() {
    let chain = "-----BEGIN CERTIFICATE-----\nA\n-----END CERTIFICATE-----\n";
    let out = polling().polled(ok(pcr(None, status(chain, vec![]))), u64::MAX);
    assert!(matches!(out, Ok(Poll::Done(_))));
}

#[test]
fn certificates_are_parted_into_leaf_and_chain() {
    let cert = |s: &str| format!("-----BEGIN CERTIFICATE-----\n{s}\n-----END CERTIFICATE-----");
    let chain = format!("{}\n{}\n{}\n", cert("A"), cert("B"), cert("C"));
    let out = polling().polled(ok(pcr(None, status(&chain, vec![]))), 100);
    let issued = match out {
        Ok(Poll::Done(issued)) => issued,
        _ => panic!("no certificates"),
    };
    assert_eq!(issued.leaf, cert("A"));
    assert_eq!(issued.chain, vec![cert("B"), cert("C")]);
    assert_eq!(issued.private_key_pem, b"KEY".to_vec());

    assert_eq!(issued.confirm(Ok((7u8, Some(identity())))).unwrap(), 7);
    let out = issued.confirm(Ok((7u8, Some(spiffe("cluster.local", "ns1", "sa2")))));
    assert!(matches!(out, Err(Error::SanError(id)) if id.same(&identity())));
    let out = issued.confirm(Ok((7u8, None)));
    assert!(matches!(out, Err(Error::SanError(id)) if id.same(&identity())));
    let out = issued.confirm::<u8>(Err(tls::Error::CertificateParseError("x".to_string())));
    assert!(matches!(out, Err(Error::Signing(_))));
}

#[test]
fn an_answer_without_a_certificate_is_an_error() {
    let out = polling().polled(ok(pcr(None, status("junk", vec![]))), 100);
    assert!(matches!(out, Err(Error::EmptyResponse(id)) if id.same(&identity())));
}

#[test]
fn faulty_looks_are_reported() {
    let out = polling().polled(fault(500), 100);
    assert!(matches!(
        out,
        Err(Error::Spiffe(e)) if e == "get PCR ns1/x: status 500 Internal Server Error, body why"
    ));
    let out = polling().polled(fault(200), 100);
    assert!(matches!(out, Err(Error::Spiffe(e)) if e == "parsing PCR ns1/x: EOF"));
    let denied = status("", vec![condition("Denied", None)]);
    let out = polling().polled(ok(pcr(None, denied)), 100);
    assert!(matches!(out, Err(Error::Spiffe(e)) if e == "PCR ns1/x denied: (no message)"));
}

#[test]
fn looks_at_a_request_come_to_an_end() {
    let mut state = polling();
    let mut now = state.started;
    let mut looks = 0;
    loop {
        looks += 1;
        match state.polled(ok(pcr(None, None)), now) {
            Ok(Poll::Again(again)) => state = again,
            Ok(Poll::Done(_)) => panic!("no certificates were there"),
            Err(_) => break,
        }
        now += POLL_INTERVAL_MILLIS * 1_000_000;
    }
    assert_eq!(looks, 121);
}

#[test]
fn different_identities_have_different_uris() {
    let ids = [
        spiffe("td", "a", "b"),
        spiffe("td", "b", "a"),
        spiffe("a", "td", "b"),
        spiffe("td", "a", "b/sa/c"),
    ];
    for (i, a) in ids.iter().enumerate() {
        for (j, b) in ids.iter().enumerate() {
            assert_eq!(i == j, a.same(b));
            assert_eq!(i == j, a.to_string() == b.to_string());
        }
    }
}
