//! The Kubernetes objects that are exchanged, as far as they matter here.

use crate::json;
use crate::json::{
    is_plain, json_integer, json_members, json_object, json_string, lemma_plain_text,
};
use vstd::prelude::*;
use vstd::string::*;
use vstd::utf8::*;

verus! {

/// The metadata of an object.
#[derive(Debug)]
pub struct ObjectMetaIn {
    pub name: Option<String>,
    pub namespace: Option<String>,
    pub uid: Option<String>,
}

/// An object of which only the metadata is read.
#[derive(Debug)]
pub struct ObjectWithMeta {
    pub metadata: ObjectMetaIn,
}

/// The specification of a pod.
#[derive(Debug)]
pub struct PodSpecIn {
    pub service_account_name: Option<String>,
}

/// The status of a pod.
#[derive(Debug)]
pub struct PodStatusIn {
    pub phase: Option<String>,
}

/// A pod.
#[derive(Debug)]
pub struct PodIn {
    pub metadata: ObjectMetaIn,
    pub spec: PodSpecIn,
    pub status: PodStatusIn,
}

/// A list of pods.
#[derive(Debug)]
pub struct PodList {
    pub items: Vec<PodIn>,
}

/// A condition of a pod certificate request.
#[derive(Debug)]
pub struct PcrCondition {
    pub type_: String,
    pub status: Option<String>,
    pub reason: Option<String>,
    pub message: Option<String>,
}

/// The status of a pod certificate request.
#[derive(Debug)]
pub struct PcrStatus {
    /// The issued certificates in PEM, the leaf first; empty until they are issued.
    pub certificate_chain: String,
    pub conditions: Vec<PcrCondition>,
}

/// A pod certificate request as the API server gives it back.
#[derive(Debug)]
pub struct PcrObject {
    pub metadata: ObjectMetaIn,
    pub status: Option<PcrStatus>,
}

/// The pod that a certificate is requested for.
#[derive(Debug)]
pub struct PodMeta {
    pub name: String,
    pub uid: String,
    pub namespace: String,
    pub service_account: String,
}

/// What a [`PodMeta`] says.
pub struct PodMetaView {
    pub name: Seq<char>,
    pub uid: Seq<char>,
    pub namespace: Seq<char>,
    pub service_account: Seq<char>,
}

impl View for PodMeta {
    type V = PodMetaView;

    open spec fn view(&self) -> PodMetaView {
        PodMetaView {
            name: self.name@,
            uid: self.uid@,
            namespace: self.namespace@,
            service_account: self.service_account@,
        }
    }
}

/// A pod certificate request to be created.
#[derive(Debug)]
pub struct PcrCreate {
    pub api_version: String,
    pub kind: String,
    pub metadata: PcrMeta,
    pub spec: PcrSpec,
}

/// The metadata of a pod certificate request to be created.
#[derive(Debug)]
pub struct PcrMeta {
    pub generate_name: String,
    pub namespace: String,
}

/// The specification of a pod certificate request.
#[derive(Debug)]
pub struct PcrSpec {
    pub signer_name: String,
    pub pod_name: String,
    pub pod_uid: String,
    pub service_account_name: String,
    pub service_account_uid: String,
    pub node_name: String,
    pub node_uid: String,
    pub max_expiration_seconds: i32,
    /// The public key in base64. Kubernetes 1.35 requires this field and the next;
    /// later versions prefer the stub request. All three are given.
    pub pkix_public_key: String,
    /// The proof of possession in base64.
    pub proof_of_possession: String,
    /// The certificate signing request in base64.
    pub stub_pkcs10_request: String,
}

/// What a [`PcrCreate`] says.
pub struct PcrCreateView {
    pub api_version: Seq<char>,
    pub kind: Seq<char>,
    pub metadata: PcrMetaView,
    pub spec: PcrSpecView,
}

/// What a [`PcrMeta`] says.
pub struct PcrMetaView {
    pub generate_name: Seq<char>,
    pub namespace: Seq<char>,
}

/// What a [`PcrSpec`] says.
pub struct PcrSpecView {
    pub signer_name: Seq<char>,
    pub pod_name: Seq<char>,
    pub pod_uid: Seq<char>,
    pub service_account_name: Seq<char>,
    pub service_account_uid: Seq<char>,
    pub node_name: Seq<char>,
    pub node_uid: Seq<char>,
    pub max_expiration_seconds: i32,
    pub pkix_public_key: Seq<char>,
    pub proof_of_possession: Seq<char>,
    pub stub_pkcs10_request: Seq<char>,
}

impl View for PcrMeta {
    type V = PcrMetaView;

    open spec fn view(&self) -> PcrMetaView {
        PcrMetaView { generate_name: self.generate_name@, namespace: self.namespace@ }
    }
}

impl View for PcrSpec {
    type V = PcrSpecView;

    open spec fn view(&self) -> PcrSpecView {
        PcrSpecView {
            signer_name: self.signer_name@,
            pod_name: self.pod_name@,
            pod_uid: self.pod_uid@,
            service_account_name: self.service_account_name@,
            service_account_uid: self.service_account_uid@,
            node_name: self.node_name@,
            node_uid: self.node_uid@,
            max_expiration_seconds: self.max_expiration_seconds,
            pkix_public_key: self.pkix_public_key@,
            proof_of_possession: self.proof_of_possession@,
            stub_pkcs10_request: self.stub_pkcs10_request@,
        }
    }
}

impl View for PcrCreate {
    type V = PcrCreateView;

    open spec fn view(&self) -> PcrCreateView {
        PcrCreateView {
            api_version: self.api_version@,
            kind: self.kind@,
            metadata: self.metadata@,
            spec: self.spec@,
        }
    }
}

/// The JSON text of the metadata.
pub open spec fn meta_json(m: PcrMetaView) -> Seq<char> {
    json_object(
        seq![
            ("generateName"@, json_string(m.generate_name)),
            ("namespace"@, json_string(m.namespace)),
        ],
    )
}

/// The JSON text of the specification, under the names that the API defines.
pub open spec fn spec_json(s: PcrSpecView) -> Seq<char> {
    json_object(
        seq![
            ("signerName"@, json_string(s.signer_name)),
            ("podName"@, json_string(s.pod_name)),
            ("podUID"@, json_string(s.pod_uid)),
            ("serviceAccountName"@, json_string(s.service_account_name)),
            ("serviceAccountUID"@, json_string(s.service_account_uid)),
            ("nodeName"@, json_string(s.node_name)),
            ("nodeUID"@, json_string(s.node_uid)),
            ("maxExpirationSeconds"@, json_integer(s.max_expiration_seconds as int)),
            ("pkixPublicKey"@, json_string(s.pkix_public_key)),
            ("proofOfPossession"@, json_string(s.proof_of_possession)),
            ("stubPKCS10Request"@, json_string(s.stub_pkcs10_request)),
        ],
    )
}

/// The JSON text of a pod certificate request to be created.
pub open spec fn pcr_json(p: PcrCreateView) -> Seq<char> {
    json_object(
        seq![
            ("apiVersion"@, json_string(p.api_version)),
            ("kind"@, json_string(p.kind)),
            ("metadata"@, meta_json(p.metadata)),
            ("spec"@, spec_json(p.spec)),
        ],
    )
}

impl PcrMeta {
    fn json(&self) -> (out: String)
        ensures
            out@ == meta_json(self@),
    {
        let members: Vec<(&str, String)> = vec![
            ("generateName", json::string(self.generate_name.as_str())),
            ("namespace", json::string(self.namespace.as_str())),
        ];
        let ghost expected = seq![
            ("generateName"@, json_string(self@.generate_name)),
            ("namespace"@, json_string(self@.namespace)),
        ];
        assert(json::member_texts(members@) =~= expected);
        json::object(&members)
    }
}

impl PcrSpec {
    fn json(&self) -> (out: String)
        ensures
            out@ == spec_json(self@),
    {
        let members: Vec<(&str, String)> = vec![
            ("signerName", json::string(self.signer_name.as_str())),
            ("podName", json::string(self.pod_name.as_str())),
            ("podUID", json::string(self.pod_uid.as_str())),
            ("serviceAccountName", json::string(self.service_account_name.as_str())),
            ("serviceAccountUID", json::string(self.service_account_uid.as_str())),
            ("nodeName", json::string(self.node_name.as_str())),
            ("nodeUID", json::string(self.node_uid.as_str())),
            ("maxExpirationSeconds", json::integer(self.max_expiration_seconds)),
            ("pkixPublicKey", json::string(self.pkix_public_key.as_str())),
            ("proofOfPossession", json::string(self.proof_of_possession.as_str())),
            ("stubPKCS10Request", json::string(self.stub_pkcs10_request.as_str())),
        ];
        let ghost expected = seq![
            ("signerName"@, json_string(self@.signer_name)),
            ("podName"@, json_string(self@.pod_name)),
            ("podUID"@, json_string(self@.pod_uid)),
            ("serviceAccountName"@, json_string(self@.service_account_name)),
            ("serviceAccountUID"@, json_string(self@.service_account_uid)),
            ("nodeName"@, json_string(self@.node_name)),
            ("nodeUID"@, json_string(self@.node_uid)),
            ("maxExpirationSeconds"@, json_integer(self@.max_expiration_seconds as int)),
            ("pkixPublicKey"@, json_string(self@.pkix_public_key)),
            ("proofOfPossession"@, json_string(self@.proof_of_possession)),
            ("stubPKCS10Request"@, json_string(self@.stub_pkcs10_request)),
        ];
        assert(json::member_texts(members@) =~= expected);
        json::object(&members)
    }
}

impl PcrCreate {
    /// The request as JSON in UTF-8.
    pub fn to_json(&self) -> (out: Vec<u8>)
        ensures
            out@ == encode_utf8(pcr_json(self@)),
    {
        let members: Vec<(&str, String)> = vec![
            ("apiVersion", json::string(self.api_version.as_str())),
            ("kind", json::string(self.kind.as_str())),
            ("metadata", self.metadata.json()),
            ("spec", self.spec.json()),
        ];
        let ghost expected = seq![
            ("apiVersion"@, json_string(self@.api_version)),
            ("kind"@, json_string(self@.kind)),
            ("metadata"@, meta_json(self@.metadata)),
            ("spec"@, spec_json(self@.spec)),
        ];
        assert(json::member_texts(members@) =~= expected);
        json::object(&members).as_str().as_bytes_vec()
    }
}

/// `opening` opens the first member of an object: a brace, the name in quotes, a colon.
pub open spec fn opens_first(opening: Seq<char>, name: Seq<char>) -> bool {
    &&& opening == seq!['{', '"'] + name + seq!['"', ':']
    &&& forall|i: int| 0 <= i < name.len() ==> is_plain(#[trigger] name[i])
}

/// `opening` opens a further member of an object: a comma, the name in quotes, a colon.
pub open spec fn opens_next(opening: Seq<char>, name: Seq<char>) -> bool {
    &&& opening == seq![',', '"'] + name + seq!['"', ':']
    &&& forall|i: int| 0 <= i < name.len() ==> is_plain(#[trigger] name[i])
}

proof fn lemma_first_member(name: Seq<char>, opening: Seq<char>, value: Seq<char>)
    requires
        opens_first(opening, name),
    ensures
        "{"@ + json_members(seq![(name, value)]) == opening + value,
{
    reveal_strlit("{");
    reveal_strlit(":");
    lemma_plain_text(name);
    assert("{"@ + json_members(seq![(name, value)]) =~= opening + value);
}

proof fn lemma_next_member(
    m: Seq<(Seq<char>, Seq<char>)>,
    text: Seq<char>,
    name: Seq<char>,
    opening: Seq<char>,
    value: Seq<char>,
)
    requires
        m.len() > 0,
        "{"@ + json_members(m) == text,
        opens_next(opening, name),
    ensures
        "{"@ + json_members(m.push((name, value))) == text + opening + value,
{
    reveal_strlit(",");
    reveal_strlit(":");
    lemma_plain_text(name);
    let all = m.push((name, value));
    assert(all.drop_last() =~= m);
    assert("{"@ + json_members(all) =~= "{"@ + json_members(m) + opening + value);
}

proof fn lemma_meta_text_names()
    ensures
        opens_first("{\"generateName\":"@, "generateName"@),
        opens_next(",\"namespace\":"@, "namespace"@),
{
    assert(opens_first("{\"generateName\":"@, "generateName"@)) by {
        reveal_strlit("generateName");
        reveal_strlit("{\"generateName\":");
        assert("{\"generateName\":"@ =~= seq!['{', '"'] + "generateName"@ + seq!['"', ':']);
    }
    assert(opens_next(",\"namespace\":"@, "namespace"@)) by {
        reveal_strlit("namespace");
        reveal_strlit(",\"namespace\":");
        assert(",\"namespace\":"@ =~= seq![',', '"'] + "namespace"@ + seq!['"', ':']);
    }
}

/// The text of the metadata.
proof fn lemma_meta_text(m: PcrMeta)
    ensures
        meta_json(m@) == "{\"generateName\":"@ + json_string(m.generate_name@)
            + ",\"namespace\":"@ + json_string(m.namespace@) + "}"@,
{
    lemma_meta_text_names();
    lemma_first_member("generateName"@, "{\"generateName\":"@, json_string(m.generate_name@));
    let m1 = seq![("generateName"@, json_string(m.generate_name@))];
    let t1 = "{\"generateName\":"@ + json_string(m.generate_name@);
    lemma_next_member(m1, t1, "namespace"@, ",\"namespace\":"@, json_string(m.namespace@));
    let m2 = m1.push(("namespace"@, json_string(m.namespace@)));
    let t2 = t1 + ",\"namespace\":"@ + json_string(m.namespace@);
    let members = seq![
        ("generateName"@, json_string(m.generate_name@)),
        ("namespace"@, json_string(m.namespace@)),
    ];
    assert(m2 =~= members);
}

proof fn lemma_spec_text_names()
    ensures
        opens_first("{\"signerName\":"@, "signerName"@),
        opens_next(",\"podName\":"@, "podName"@),
        opens_next(",\"podUID\":"@, "podUID"@),
        opens_next(",\"serviceAccountName\":"@, "serviceAccountName"@),
        opens_next(",\"serviceAccountUID\":"@, "serviceAccountUID"@),
        opens_next(",\"nodeName\":"@, "nodeName"@),
        opens_next(",\"nodeUID\":"@, "nodeUID"@),
        opens_next(",\"maxExpirationSeconds\":"@, "maxExpirationSeconds"@),
        opens_next(",\"pkixPublicKey\":"@, "pkixPublicKey"@),
        opens_next(",\"proofOfPossession\":"@, "proofOfPossession"@),
        opens_next(",\"stubPKCS10Request\":"@, "stubPKCS10Request"@),
{
    assert(opens_first("{\"signerName\":"@, "signerName"@)) by {
        reveal_strlit("signerName");
        reveal_strlit("{\"signerName\":");
        assert("{\"signerName\":"@ =~= seq!['{', '"'] + "signerName"@ + seq!['"', ':']);
    }
    assert(opens_next(",\"podName\":"@, "podName"@)) by {
        reveal_strlit("podName");
        reveal_strlit(",\"podName\":");
        assert(",\"podName\":"@ =~= seq![',', '"'] + "podName"@ + seq!['"', ':']);
    }
    assert(opens_next(",\"podUID\":"@, "podUID"@)) by {
        reveal_strlit("podUID");
        reveal_strlit(",\"podUID\":");
        assert(",\"podUID\":"@ =~= seq![',', '"'] + "podUID"@ + seq!['"', ':']);
    }
    assert(opens_next(",\"serviceAccountName\":"@, "serviceAccountName"@)) by {
        reveal_strlit("serviceAccountName");
        reveal_strlit(",\"serviceAccountName\":");
        assert(",\"serviceAccountName\":"@ =~= seq![',', '"'] + "serviceAccountName"@ + seq!['"', ':']);
    }
    assert(opens_next(",\"serviceAccountUID\":"@, "serviceAccountUID"@)) by {
        reveal_strlit("serviceAccountUID");
        reveal_strlit(",\"serviceAccountUID\":");
        assert(",\"serviceAccountUID\":"@ =~= seq![',', '"'] + "serviceAccountUID"@ + seq!['"', ':']);
    }
    assert(opens_next(",\"nodeName\":"@, "nodeName"@)) by {
        reveal_strlit("nodeName");
        reveal_strlit(",\"nodeName\":");
        assert(",\"nodeName\":"@ =~= seq![',', '"'] + "nodeName"@ + seq!['"', ':']);
    }
    assert(opens_next(",\"nodeUID\":"@, "nodeUID"@)) by {
        reveal_strlit("nodeUID");
        reveal_strlit(",\"nodeUID\":");
        assert(",\"nodeUID\":"@ =~= seq![',', '"'] + "nodeUID"@ + seq!['"', ':']);
    }
    assert(opens_next(",\"maxExpirationSeconds\":"@, "maxExpirationSeconds"@)) by {
        reveal_strlit("maxExpirationSeconds");
        reveal_strlit(",\"maxExpirationSeconds\":");
        assert(",\"maxExpirationSeconds\":"@ =~= seq![',', '"'] + "maxExpirationSeconds"@ + seq!['"', ':']);
    }
    assert(opens_next(",\"pkixPublicKey\":"@, "pkixPublicKey"@)) by {
        reveal_strlit("pkixPublicKey");
        reveal_strlit(",\"pkixPublicKey\":");
        assert(",\"pkixPublicKey\":"@ =~= seq![',', '"'] + "pkixPublicKey"@ + seq!['"', ':']);
    }
    assert(opens_next(",\"proofOfPossession\":"@, "proofOfPossession"@)) by {
        reveal_strlit("proofOfPossession");
        reveal_strlit(",\"proofOfPossession\":");
        assert(",\"proofOfPossession\":"@ =~= seq![',', '"'] + "proofOfPossession"@ + seq!['"', ':']);
    }
    assert(opens_next(",\"stubPKCS10Request\":"@, "stubPKCS10Request"@)) by {
        reveal_strlit("stubPKCS10Request");
        reveal_strlit(",\"stubPKCS10Request\":");
        assert(",\"stubPKCS10Request\":"@ =~= seq![',', '"'] + "stubPKCS10Request"@ + seq!['"', ':']);
    }
}

/// The text of the specification.
proof fn lemma_spec_text(s: PcrSpec)
    ensures
        spec_json(s@) == "{\"signerName\":"@ + json_string(s.signer_name@)
            + ",\"podName\":"@ + json_string(s.pod_name@)
            + ",\"podUID\":"@ + json_string(s.pod_uid@)
            + ",\"serviceAccountName\":"@ + json_string(s.service_account_name@)
            + ",\"serviceAccountUID\":"@ + json_string(s.service_account_uid@)
            + ",\"nodeName\":"@ + json_string(s.node_name@)
            + ",\"nodeUID\":"@ + json_string(s.node_uid@)
            + ",\"maxExpirationSeconds\":"@ + json_integer(s.max_expiration_seconds as int)
            + ",\"pkixPublicKey\":"@ + json_string(s.pkix_public_key@)
            + ",\"proofOfPossession\":"@ + json_string(s.proof_of_possession@)
            + ",\"stubPKCS10Request\":"@ + json_string(s.stub_pkcs10_request@) + "}"@,
{
    lemma_spec_text_names();
    lemma_first_member("signerName"@, "{\"signerName\":"@, json_string(s.signer_name@));
    let m1 = seq![("signerName"@, json_string(s.signer_name@))];
    let t1 = "{\"signerName\":"@ + json_string(s.signer_name@);
    lemma_next_member(m1, t1, "podName"@, ",\"podName\":"@, json_string(s.pod_name@));
    let m2 = m1.push(("podName"@, json_string(s.pod_name@)));
    let t2 = t1 + ",\"podName\":"@ + json_string(s.pod_name@);
    lemma_next_member(m2, t2, "podUID"@, ",\"podUID\":"@, json_string(s.pod_uid@));
    let m3 = m2.push(("podUID"@, json_string(s.pod_uid@)));
    let t3 = t2 + ",\"podUID\":"@ + json_string(s.pod_uid@);
    lemma_next_member(m3, t3, "serviceAccountName"@, ",\"serviceAccountName\":"@, json_string(s.service_account_name@));
    let m4 = m3.push(("serviceAccountName"@, json_string(s.service_account_name@)));
    let t4 = t3 + ",\"serviceAccountName\":"@ + json_string(s.service_account_name@);
    lemma_next_member(m4, t4, "serviceAccountUID"@, ",\"serviceAccountUID\":"@, json_string(s.service_account_uid@));
    let m5 = m4.push(("serviceAccountUID"@, json_string(s.service_account_uid@)));
    let t5 = t4 + ",\"serviceAccountUID\":"@ + json_string(s.service_account_uid@);
    lemma_next_member(m5, t5, "nodeName"@, ",\"nodeName\":"@, json_string(s.node_name@));
    let m6 = m5.push(("nodeName"@, json_string(s.node_name@)));
    let t6 = t5 + ",\"nodeName\":"@ + json_string(s.node_name@);
    lemma_next_member(m6, t6, "nodeUID"@, ",\"nodeUID\":"@, json_string(s.node_uid@));
    let m7 = m6.push(("nodeUID"@, json_string(s.node_uid@)));
    let t7 = t6 + ",\"nodeUID\":"@ + json_string(s.node_uid@);
    lemma_next_member(m7, t7, "maxExpirationSeconds"@, ",\"maxExpirationSeconds\":"@, json_integer(s.max_expiration_seconds as int));
    let m8 = m7.push(("maxExpirationSeconds"@, json_integer(s.max_expiration_seconds as int)));
    let t8 = t7 + ",\"maxExpirationSeconds\":"@ + json_integer(s.max_expiration_seconds as int);
    lemma_next_member(m8, t8, "pkixPublicKey"@, ",\"pkixPublicKey\":"@, json_string(s.pkix_public_key@));
    let m9 = m8.push(("pkixPublicKey"@, json_string(s.pkix_public_key@)));
    let t9 = t8 + ",\"pkixPublicKey\":"@ + json_string(s.pkix_public_key@);
    lemma_next_member(m9, t9, "proofOfPossession"@, ",\"proofOfPossession\":"@, json_string(s.proof_of_possession@));
    let m10 = m9.push(("proofOfPossession"@, json_string(s.proof_of_possession@)));
    let t10 = t9 + ",\"proofOfPossession\":"@ + json_string(s.proof_of_possession@);
    lemma_next_member(m10, t10, "stubPKCS10Request"@, ",\"stubPKCS10Request\":"@, json_string(s.stub_pkcs10_request@));
    let m11 = m10.push(("stubPKCS10Request"@, json_string(s.stub_pkcs10_request@)));
    let t11 = t10 + ",\"stubPKCS10Request\":"@ + json_string(s.stub_pkcs10_request@);
    let members = seq![
        ("signerName"@, json_string(s.signer_name@)),
        ("podName"@, json_string(s.pod_name@)),
        ("podUID"@, json_string(s.pod_uid@)),
        ("serviceAccountName"@, json_string(s.service_account_name@)),
        ("serviceAccountUID"@, json_string(s.service_account_uid@)),
        ("nodeName"@, json_string(s.node_name@)),
        ("nodeUID"@, json_string(s.node_uid@)),
        ("maxExpirationSeconds"@, json_integer(s.max_expiration_seconds as int)),
        ("pkixPublicKey"@, json_string(s.pkix_public_key@)),
        ("proofOfPossession"@, json_string(s.proof_of_possession@)),
        ("stubPKCS10Request"@, json_string(s.stub_pkcs10_request@)),
    ];
    assert(m11 =~= members);
}

proof fn lemma_pcr_text_names()
    ensures
        opens_first("{\"apiVersion\":"@, "apiVersion"@),
        opens_next(",\"kind\":"@, "kind"@),
        opens_next(",\"metadata\":"@, "metadata"@),
        opens_next(",\"spec\":"@, "spec"@),
{
    assert(opens_first("{\"apiVersion\":"@, "apiVersion"@)) by {
        reveal_strlit("apiVersion");
        reveal_strlit("{\"apiVersion\":");
        assert("{\"apiVersion\":"@ =~= seq!['{', '"'] + "apiVersion"@ + seq!['"', ':']);
    }
    assert(opens_next(",\"kind\":"@, "kind"@)) by {
        reveal_strlit("kind");
        reveal_strlit(",\"kind\":");
        assert(",\"kind\":"@ =~= seq![',', '"'] + "kind"@ + seq!['"', ':']);
    }
    assert(opens_next(",\"metadata\":"@, "metadata"@)) by {
        reveal_strlit("metadata");
        reveal_strlit(",\"metadata\":");
        assert(",\"metadata\":"@ =~= seq![',', '"'] + "metadata"@ + seq!['"', ':']);
    }
    assert(opens_next(",\"spec\":"@, "spec"@)) by {
        reveal_strlit("spec");
        reveal_strlit(",\"spec\":");
        assert(",\"spec\":"@ =~= seq![',', '"'] + "spec"@ + seq!['"', ':']);
    }
}

/// The text of a request around those of its metadata and its specification.
proof fn lemma_pcr_text(p: PcrCreate)
    ensures
        pcr_json(p@) == "{\"apiVersion\":"@ + json_string(p.api_version@)
            + ",\"kind\":"@ + json_string(p.kind@)
            + ",\"metadata\":"@ + meta_json(p.metadata@)
            + ",\"spec\":"@ + spec_json(p.spec@) + "}"@,
{
    lemma_pcr_text_names();
    lemma_first_member("apiVersion"@, "{\"apiVersion\":"@, json_string(p.api_version@));
    let m1 = seq![("apiVersion"@, json_string(p.api_version@))];
    let t1 = "{\"apiVersion\":"@ + json_string(p.api_version@);
    lemma_next_member(m1, t1, "kind"@, ",\"kind\":"@, json_string(p.kind@));
    let m2 = m1.push(("kind"@, json_string(p.kind@)));
    let t2 = t1 + ",\"kind\":"@ + json_string(p.kind@);
    lemma_next_member(m2, t2, "metadata"@, ",\"metadata\":"@, meta_json(p.metadata@));
    let m3 = m2.push(("metadata"@, meta_json(p.metadata@)));
    let t3 = t2 + ",\"metadata\":"@ + meta_json(p.metadata@);
    lemma_next_member(m3, t3, "spec"@, ",\"spec\":"@, spec_json(p.spec@));
    let m4 = m3.push(("spec"@, spec_json(p.spec@)));
    let t4 = t3 + ",\"spec\":"@ + spec_json(p.spec@);
    let members = seq![
        ("apiVersion"@, json_string(p.api_version@)),
        ("kind"@, json_string(p.kind@)),
        ("metadata"@, meta_json(p.metadata@)),
        ("spec"@, spec_json(p.spec@)),
    ];
    assert(m4 =~= members);
}

/// What goes over the wire: an object of API version, kind, metadata and specification,
/// each value under the name that the API has for it, once, and nothing else.
pub proof fn law_every_field_stands_under_its_name(p: PcrCreate, out: Vec<u8>)
    requires
        call_ensures(PcrCreate::to_json, (&p,), out),
    ensures
        ({
            let metadata = "{\"generateName\":"@ + json_string(p.metadata.generate_name@)
                + ",\"namespace\":"@ + json_string(p.metadata.namespace@)
                + "}"@;
            let spec = "{\"signerName\":"@ + json_string(p.spec.signer_name@)
                + ",\"podName\":"@ + json_string(p.spec.pod_name@)
                + ",\"podUID\":"@ + json_string(p.spec.pod_uid@)
                + ",\"serviceAccountName\":"@ + json_string(p.spec.service_account_name@)
                + ",\"serviceAccountUID\":"@ + json_string(p.spec.service_account_uid@)
                + ",\"nodeName\":"@ + json_string(p.spec.node_name@)
                + ",\"nodeUID\":"@ + json_string(p.spec.node_uid@)
                + ",\"maxExpirationSeconds\":"@ + json_integer(p.spec.max_expiration_seconds as int)
                + ",\"pkixPublicKey\":"@ + json_string(p.spec.pkix_public_key@)
                + ",\"proofOfPossession\":"@ + json_string(p.spec.proof_of_possession@)
                + ",\"stubPKCS10Request\":"@ + json_string(p.spec.stub_pkcs10_request@)
                + "}"@;
            out@ == encode_utf8(
                "{\"apiVersion\":"@ + json_string(p.api_version@)
                    + ",\"kind\":"@ + json_string(p.kind@)
                    + ",\"metadata\":"@ + metadata
                    + ",\"spec\":"@ + spec
                    + "}"@,
            )
        }),
{
    lemma_meta_text(p.metadata);
    lemma_spec_text(p.spec);
    lemma_pcr_text(p);
}

} // verus!
