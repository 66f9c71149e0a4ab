use pcr_client::config::PcrConfig;
use pcr_client::identity::{Error, Identity};
use pcr_client::request::{
    accept, answer, authorized_request, built_request, kube_request, read_token, url_of, Exchange,
    KubeCall, Method, Reply,
};
use pcr_client::roots::{kube_roots, roots_from_certs, tls_config_refused};

fn config() -> PcrConfig {
    PcrConfig {
        apiserver_url: "https://api:443".to_string(),
        ca_bundle_path: "/ca.crt".to_string(),
        token_path: "/token".to_string(),
        node_name: "worker".to_string(),
        signer_name: "spiffe.istio.io/cluster.local".to_string(),
        trust_domain: "cluster.local".to_string(),
        max_expiration_seconds: 86400,
    }
}

fn message(e: Error) -> String {
    match e {
        Error::Spiffe(text) => text,
        _ => panic!("another error was expected"),
    }
}

fn in_cluster(host: Option<&str>, https_port: Option<&str>, port: Option<&str>) -> Result<PcrConfig, Error> {
    PcrConfig::in_cluster(
        host.map(|s| s.to_string()),
        https_port.map(|s| s.to_string()),
        port.map(|s| s.to_string()),
        "worker".to_string(),
        "signer".to_string(),
        "td".to_string(),
        3600,
    )
}

#[test]
fn in_cluster_takes_host_and_port() {
    let url = |h, s, p| in_cluster(h, s, p).unwrap().apiserver_url;
    assert_eq!(url(Some("10.0.0.1"), Some("6443"), Some("80")), "https://10.0.0.1:6443");
    assert_eq!(url(Some("10.0.0.1"), None, Some("8443")), "https://10.0.0.1:8443");
    assert_eq!(url(Some("10.0.0.1"), None, None), "https://10.0.0.1:443");
    assert_eq!(url(Some("fd00::1"), None, None), "https://[fd00::1]:443");
}

#[test]
fn in_cluster_fills_in_the_rest() {
    let cfg = in_cluster(Some("h"), None, None).unwrap();
    assert_eq!(cfg.ca_bundle_path, "/var/run/secrets/kubernetes.io/serviceaccount/ca.crt");
    assert_eq!(cfg.token_path, "/var/run/secrets/kubernetes.io/serviceaccount/token");
    assert_eq!(cfg.node_name, "worker");
    assert_eq!(cfg.signer_name, "signer");
    assert_eq!(cfg.trust_domain, "td");
    assert_eq!(cfg.max_expiration_seconds, 3600);
}

#[test]
fn in_cluster_needs_a_host() {
    let e = in_cluster(None, Some("1"), Some("2")).unwrap_err();
    assert_eq!(message(e), "KUBERNETES_SERVICE_HOST not set; cannot use PCR provider");
}

#[test]
fn the_node_is_impersonated() {
    assert_eq!(config().impersonate_user(), "system:node:worker");
}

#[test]
fn identities_print_as_spiffe_uris() {
    let id = Identity::Spiffe {
        trust_domain: "cluster.local".to_string(),
        namespace: "pcr-test".to_string(),
        service_account: "app".to_string(),
    };
    assert_eq!(id.to_string(), "spiffe://cluster.local/ns/pcr-test/sa/app");
    assert!(id.same(&id.clone()));
}

#[test]
fn the_token_is_trimmed() {
    let token = |raw: &[u8]| read_token(&config(), Ok(raw.to_vec())).unwrap();
    assert_eq!(token(b"abc\n"), "abc");
    assert_eq!(token("\u{a0}\t a b \u{3000}\r\n".as_bytes()), "a b");
    assert_eq!(token(b" \n"), "");
    assert_eq!(token("\u{200b}x".as_bytes()), "\u{200b}x");
}

#[test]
fn a_bad_token_file_is_reported() {
    let e = read_token(&config(), Err("gone".to_string())).unwrap_err();
    assert_eq!(message(e), "reading SA token /token: gone");
    let e = read_token(&config(), Ok(vec![0x61, 0xff])).unwrap_err();
    assert_eq!(
        message(e),
        "SA token is not utf-8: invalid utf-8 sequence of 1 bytes from index 1"
    );
}

#[test]
fn a_request_has_url_headers_and_body() {
    let call = KubeCall {
        method: Method::Post,
        path: "/x".to_string(),
        body: Some(b"{}".to_vec()),
    };
    let r = kube_request(&config(), "tok", call);
    assert_eq!(r.method, Method::Post);
    assert_eq!(r.url, "https://api:443/x");
    assert_eq!(url_of(&config(), "/x"), "https://api:443/x");
    assert_eq!(r.body, b"{}".to_vec());
    let headers: Vec<(&str, &str)> = r.headers.iter().map(|h| (h.0, h.1.as_str())).collect();
    assert_eq!(
        headers,
        vec![
            ("authorization", "Bearer tok"),
            ("accept", "application/json"),
            ("content-type", "application/json"),
            ("Impersonate-User", "system:node:worker"),
        ]
    );
}

#[test]
fn an_authorized_request_is_ready_to_send() {
    let call = KubeCall {
        method: Method::Get,
        path: "/api/v1/nodes/worker?a=b".to_string(),
        body: None,
    };
    let r = authorized_request(&config(), Ok(b"tok\n".to_vec()), call).unwrap();
    assert_eq!(r.method().as_str(), "GET");
    assert_eq!(r.uri().to_string(), "https://api:443/api/v1/nodes/worker?a=b");
    assert_eq!(r.headers()["authorization"], "Bearer tok");
    assert_eq!(r.headers()["accept"], "application/json");
    assert_eq!(r.headers()["content-type"], "application/json");
    assert_eq!(r.headers()["impersonate-user"], "system:node:worker");
    assert_eq!(r.headers().len(), 4);
    assert!(r.body().is_empty());
}

#[test]
fn a_request_that_cannot_be_built_is_reported() {
    let call = |path: &str| KubeCall {
        method: Method::Post,
        path: path.to_string(),
        body: None,
    };
    let e = authorized_request(&config(), Ok(b"tok".to_vec()), call("/a b")).unwrap_err();
    assert_eq!(message(e), "building kube request: invalid uri character");
    let e = authorized_request(&config(), Ok(b"to\nk".to_vec()), call("/a")).unwrap_err();
    assert_eq!(message(e), "building kube request: failed to parse header value");
    let e = authorized_request(&config(), Err("gone".to_string()), call("/a")).unwrap_err();
    assert_eq!(message(e), "reading SA token /token: gone");
    let e = built_request(Err("why".to_string())).unwrap_err();
    assert_eq!(message(e), "building kube request: why");
}

#[test]
fn a_failed_exchange_is_reported() {
    let e = answer("https://api:443/x", Exchange::SendFailed("refused".to_string())).unwrap_err();
    assert_eq!(message(e), "kube request to https://api:443/x: refused");
    let e = answer("u", Exchange::ReadFailed("cut".to_string())).unwrap_err();
    assert_eq!(message(e), "reading kube response: cut");
    let ok = Exchange::Answered { status: 200, body: vec![1] };
    assert_eq!(answer("u", ok).unwrap(), (200, vec![1]));
}

fn reply(status: u16, body: &[u8], parsed: Result<u8, String>) -> Reply<u8> {
    Reply { status, body: body.to_vec(), parsed }
}

#[test]
fn only_success_is_accepted() {
    let try_status = |status| accept(reply(status, b"no", Ok(7)), "get x".to_string(), "x");
    assert_eq!(try_status(200).unwrap(), 7);
    assert_eq!(try_status(299).unwrap(), 7);
    assert_eq!(
        message(try_status(199).unwrap_err()),
        "get x: status 199 <unknown status code>, body no"
    );
    assert_eq!(
        message(try_status(404).unwrap_err()),
        "get x: status 404 Not Found, body no"
    );
    assert_eq!(
        message(try_status(300).unwrap_err()),
        "get x: status 300 Multiple Choices, body no"
    );
}

#[test]
fn a_body_that_is_not_utf8_is_shown_all_the_same() {
    let e = accept(reply(500, b"a\xffb", Ok(7)), "get x".to_string(), "x").unwrap_err();
    assert_eq!(
        message(e),
        "get x: status 500 Internal Server Error, body a\u{fffd}b"
    );
}

#[test]
fn a_body_beyond_ascii_is_shown_as_it_is() {
    let e = accept(reply(500, "né".as_bytes(), Ok(7)), "get x".to_string(), "x").unwrap_err();
    assert_eq!(
        message(e),
        "get x: status 500 Internal Server Error, body né"
    );
}

#[test]
fn a_reply_that_cannot_be_parsed_is_reported() {
    let bad = reply(200, b"", Err("EOF".to_string()));
    let e = accept(bad, "get x".to_string(), "pod list").unwrap_err();
    assert_eq!(message(e), "parsing pod list: EOF");
}

fn ca(name: &str) -> rcgen::Certificate {
    let key = rcgen::KeyPair::generate().unwrap();
    let mut params = rcgen::CertificateParams::new(vec![]).unwrap();
    params.distinguished_name.push(rcgen::DnType::CommonName, name);
    params.self_signed(&key).unwrap()
}

#[test]
fn every_certificate_of_the_bundle_is_trusted() {
    let bundle = format!("{}{}", ca("one").pem(), ca("two").pem());
    let store = kube_roots(&config(), Ok(bundle.into_bytes())).unwrap();
    assert_eq!(store.len(), 2);
    assert_ne!(store.roots[0].subject, store.roots[1].subject);
}

#[test]
fn the_order_of_the_bundle_is_kept() {
    let (one, two) = (ca("one"), ca("two"));
    let alone = roots_from_certs(vec![Ok(two.der().to_vec())]).unwrap();
    let both = roots_from_certs(vec![Ok(one.der().to_vec()), Ok(two.der().to_vec())]).unwrap();
    assert_eq!(both.roots[1].subject, alone.roots[0].subject);
    assert_eq!(
        both.roots[1].subject_public_key_info,
        alone.roots[0].subject_public_key_info
    );
}

#[test]
fn a_bundle_without_certificates_is_refused() {
    let none = "no trusted CA certificates found in kube CA bundle";
    let e = kube_roots(&config(), Ok(Vec::new())).unwrap_err();
    assert_eq!(message(e), none);
    let key = rcgen::KeyPair::generate().unwrap().serialize_pem();
    let e = kube_roots(&config(), Ok(key.into_bytes())).unwrap_err();
    assert_eq!(message(e), none);
}

#[test]
fn a_bundle_that_cannot_be_read_is_refused() {
    let e = kube_roots(&config(), Err("gone".to_string())).unwrap_err();
    assert_eq!(message(e), "reading kube CA bundle /ca.crt: gone");
    let open = "-----BEGIN CERTIFICATE-----\nAAAA\n";
    let e = kube_roots(&config(), Ok(open.as_bytes().to_vec())).unwrap_err();
    assert!(message(e).starts_with("parsing kube CA: "));
}

#[test]
fn the_first_fault_of_a_bundle_counts() {
    let good = ca("one").der().to_vec();
    let e = roots_from_certs(vec![Ok(good.clone()), Ok(vec![1, 2]), Err("x".to_string())]).unwrap_err();
    assert!(message(e).starts_with("adding kube CA cert to store: "));
    let e = roots_from_certs(vec![Ok(good), Err("x".to_string()), Ok(vec![1, 2])]).unwrap_err();
    assert_eq!(message(e), "parsing kube CA: x");
}

#[test]
fn a_refused_tls_configuration_is_reported() {
    assert_eq!(message(tls_config_refused("no versions")), "rustls config: no versions");
}
