use pcr_client::json;
use pcr_client::kube::{PcrCreate, PcrMeta, PcrSpec};
use pcr_client::percent::urlencoding;

#[test]
fn urlencoding_escapes_special_chars() {
    assert_eq!(urlencoding("kind-worker"), "kind-worker");
    assert_eq!(urlencoding("a/b"), "a%2Fb");
    assert_eq!(urlencoding("ns space"), "ns%20space");
}

#[test]
fn urlencoding_keeps_every_unreserved_character() {
    let kept = "ABCXYZabcxyz0123456789-_.~";
    assert_eq!(urlencoding(kept), kept);
    assert_eq!(urlencoding(""), "");
}

#[test]
fn urlencoding_writes_each_byte_of_utf8() {
    assert_eq!(urlencoding("é"), "%C3%A9");
    assert_eq!(urlencoding("%&=\n\u{7f}"), "%25%26%3D%0A%7F");
}

#[test]
fn urlencoding_can_be_undone() {
    let text = "node/a b+c=%41é";
    let encoded = urlencoding(text);
    let mut bytes: Vec<u8> = Vec::new();
    let raw = encoded.as_bytes();
    let mut i = 0;
    while i < raw.len() {
        if raw[i] == b'%' {
            bytes.push(u8::from_str_radix(&encoded[i + 1..i + 3], 16).unwrap());
            i += 3;
        } else {
            bytes.push(raw[i]);
            i += 1;
        }
    }
    assert_eq!(bytes, text.as_bytes());
}

fn sample() -> PcrCreate {
    PcrCreate {
        api_version: "certificates.k8s.io/v1beta1".to_string(),
        kind: "PodCertificateRequest".to_string(),
        metadata: PcrMeta {
            generate_name: "ztunnel-".to_string(),
            namespace: "default".to_string(),
        },
        spec: PcrSpec {
            signer_name: "spiffe.istio.io/cluster.local".to_string(),
            pod_name: "p".to_string(),
            pod_uid: "u".to_string(),
            service_account_name: "sa".to_string(),
            service_account_uid: "sauid".to_string(),
            node_name: "n".to_string(),
            node_uid: "nuid".to_string(),
            max_expiration_seconds: 86400,
            pkix_public_key: "cGsxeA==".to_string(),
            proof_of_possession: "cG9w".to_string(),
            stub_pkcs10_request: "Y3Ny".to_string(),
        },
    }
}

#[test]
fn pcr_spec_serialises_with_kube_field_names() {
    let pcr = sample();
    let v: serde_json::Value = serde_json::from_slice(&pcr.to_json()).unwrap();
    assert_eq!(v["apiVersion"], "certificates.k8s.io/v1beta1");
    assert_eq!(v["spec"]["signerName"], "spiffe.istio.io/cluster.local");
    assert_eq!(v["spec"]["podName"], "p");
    assert_eq!(v["spec"]["podUID"], "u");
    assert_eq!(v["spec"]["serviceAccountUID"], "sauid");
    assert_eq!(v["spec"]["nodeUID"], "nuid");
    assert_eq!(v["spec"]["maxExpirationSeconds"], 86400);
    assert_eq!(v["spec"]["pkixPublicKey"], "cGsxeA==");
    assert_eq!(v["spec"]["proofOfPossession"], "cG9w");
    assert_eq!(v["spec"]["stubPKCS10Request"], "Y3Ny");
}

#[test]
fn pcr_json_is_compact_and_in_order() {
    let text = String::from_utf8(sample().to_json()).unwrap();
    assert_eq!(
        text,
        concat_lines(&[
            "{\"apiVersion\":\"certificates.k8s.io/v1beta1\",\"kind\":\"PodCertificateRequest\",",
            "\"metadata\":{\"generateName\":\"ztunnel-\",\"namespace\":\"default\"},",
            "\"spec\":{\"signerName\":\"spiffe.istio.io/cluster.local\",\"podName\":\"p\",",
            "\"podUID\":\"u\",\"serviceAccountName\":\"sa\",\"serviceAccountUID\":\"sauid\",",
            "\"nodeName\":\"n\",\"nodeUID\":\"nuid\",\"maxExpirationSeconds\":86400,",
            "\"pkixPublicKey\":\"cGsxeA==\",\"proofOfPossession\":\"cG9w\",",
            "\"stubPKCS10Request\":\"Y3Ny\"}}",
        ])
    );
}

fn concat_lines(lines: &[&str]) -> String {
    lines.concat()
}

#[test]
fn pcr_json_survives_awkward_text() {
    let mut pcr = sample();
    pcr.spec.pod_name = "q\"\\\n\u{1}é".to_string();
    let v: serde_json::Value = serde_json::from_slice(&pcr.to_json()).unwrap();
    assert_eq!(v["spec"]["podName"], "q\"\\\n\u{1}é");
}

#[test]
fn json_strings_are_escaped() {
    assert_eq!(json::string(""), "\"\"");
    assert_eq!(json::string("a/b é"), "\"a/b é\"");
    assert_eq!(json::string("\"\\"), "\"\\\"\\\\\"");
    assert_eq!(json::string("\u{8}\t\n\u{c}\r"), "\"\\b\\t\\n\\f\\r\"");
    assert_eq!(json::string("\u{0}\u{b}\u{1f}\u{7f}"), "\"\\u0000\\u000b\\u001f\u{7f}\"");
}

#[test]
fn json_integers_are_decimal() {
    assert_eq!(json::integer(0), "0");
    assert_eq!(json::integer(86400), "86400");
    assert_eq!(json::integer(-7), "-7");
    assert_eq!(json::integer(i32::MIN), "-2147483648");
    assert_eq!(json::integer(i32::MAX), "2147483647");
}

#[test]
fn json_objects_part_members_by_commas() {
    assert_eq!(json::object(&vec![]), "{}");
    assert_eq!(json::object(&vec![("a", "1".to_string())]), "{\"a\":1}");
    assert_eq!(
        json::object(&vec![("a", "1".to_string()), ("b", "{}".to_string())]),
        "{\"a\":1,\"b\":{}}"
    );
}

#[test]
fn urlencoding_leaves_nothing_that_ends_a_value() {
    let all: String = (0u8..128).map(|b| b as char).collect();
    let safe = |c: char| c.is_ascii_alphanumeric() || "-_.~%".contains(c);
    assert!(urlencoding(&all).chars().all(safe));
}
