//! Getting a certificate for a workload, step by step.
//!
//! Each step is a state. A state takes the answer to the call that it waits for, and
//! gives the next state with the next call, or the error that ends the matter:
//!
//! 1. [`begin`] checks the trust domain and asks for the pods on the local node.
//! 2. [`PodSearch`] picks a pod of the identity and asks for its service account.
//! 3. [`AccountLookup`] takes the account's UID and asks for the node.
//! 4. [`NodeLookup`] takes the node's UID.
//! 5. [`Ready`] makes key and proof, and asks for the pod certificate request to be
//!    created.
//! 6. [`Creation`] takes the name of the request and starts to poll it.
//! 7. [`Polling`] waits until the request is refused or the certificates are there.
//! 8. [`Issued`] holds the certificates until they are seen to be for the identity.

use crate::config::{PcrConfig, PcrConfigView};
use crate::encoding::{base64_bytes, base64_encode, base64_text, law_base64_round_trip};
use crate::identity::{same_parts, spiffe_uri, Error, ErrorView, Identity, SpiffeId};
use crate::kube::{
    pcr_json, ObjectWithMeta, PcrCondition, PcrCreate, PcrCreateView, PcrMeta,
    PcrMetaView, PcrObject, PcrSpec, PcrSpecView, PcrStatus, PodIn, PodList, PodMeta,
    PodMetaView,
};
use crate::pem::{lemma_same_texts, pem_blocks, same_texts, split_pem_certs, texts};
use crate::percent::{
    law_decoding_undoes_encoding, percent_decoded, percent_encoded, urlencoding,
};
use crate::request::{
    accept, reply_outcome, status_text, KubeCall, KubeCallView, Method, Reply,
};
use crate::text::{
    is_text, opt_text, read_lossily, same_text, text_or_default, text_or_empty,
};
use crate::tls;
use crate::tls::csr::{
    generate_for_pcr, is_pcr_failure, is_private_key_pem, is_ring_key, is_signature_by,
    materials_of_key, public_key_info_of, request_can_give, PcrMaterials,
};
use vstd::prelude::*;
use vstd::string::*;
use vstd::utf8::*;

verus! {

/// How long to wait between two looks at a request.
pub const POLL_INTERVAL_MILLIS: u64 = 500;

/// How long to wait for a request to be decided, in nanoseconds.
pub const POLL_TIMEOUT_NANOS: u64 = 60_000_000_000;

/// A call without a body.
pub open spec fn get_call(path: Seq<char>) -> KubeCallView {
    KubeCallView { method: Method::Get, path, body: None }
}

fn get(path: String) -> (call: KubeCall)
    ensures
        call@ == get_call(path@),
{
    KubeCall { method: Method::Get, path, body: None }
}

/// The path of the pods of a namespace on a node. The service account cannot be selected
/// here, so that is left to [`select_pod`].
pub open spec fn pods_path(namespace: Seq<char>, node_name: Seq<char>) -> Seq<char> {
    "/api/v1/namespaces/"@ + namespace + "/pods?fieldSelector=spec.nodeName="@ + percent_encoded(
        encode_utf8(node_name),
    )
}

/// The path of a service account.
pub open spec fn account_path(namespace: Seq<char>, account: Seq<char>) -> Seq<char> {
    "/api/v1/namespaces/"@ + namespace + "/serviceaccounts/"@ + account
}

/// The path of a node.
pub open spec fn node_path(node: Seq<char>) -> Seq<char> {
    "/api/v1/nodes/"@ + node
}

/// The path of the pod certificate requests of a namespace.
pub open spec fn pcrs_path(namespace: Seq<char>) -> Seq<char> {
    "/apis/certificates.k8s.io/v1beta1"@ + "/namespaces/"@ + namespace + "/podcertificaterequests"@
}

/// The path of a pod certificate request.
pub open spec fn pcr_path(namespace: Seq<char>, name: Seq<char>) -> Seq<char> {
    pcrs_path(namespace) + "/"@ + name
}

/// The pod is up or coming up, and runs under the service account.
pub open spec fn eligible(pod: PodIn, account: Seq<char>) -> bool {
    &&& opt_text(pod.status.phase) == Some("Pending"@) || opt_text(pod.status.phase) == Some(
        "Running"@,
    )
    &&& opt_text(pod.spec.service_account_name) == Some(account)
}

/// `i` is the first eligible pod of the list.
pub open spec fn is_first_eligible(items: Seq<PodIn>, account: Seq<char>, i: int) -> bool {
    &&& 0 <= i < items.len()
    &&& eligible(items[i], account)
    &&& forall|j: int| 0 <= j < i ==> !eligible(#[trigger] items[j], account)
}

/// What is kept of a pod of the identity.
pub open spec fn pod_meta(pod: PodIn, id: SpiffeId) -> PodMetaView {
    PodMetaView {
        name: text_or_empty(opt_text(pod.metadata.name)),
        uid: text_or_empty(opt_text(pod.metadata.uid)),
        namespace: id.namespace,
        service_account: id.service_account,
    }
}

/// What is reported where the list holds no eligible pod.
pub open spec fn no_pod_error(cfg: PcrConfigView, id: SpiffeId) -> ErrorView {
    ErrorView::Spiffe(
        "no Pending/Running pod with SA "@ + id.service_account + " found in ns "@ + id.namespace
            + " on node "@ + cfg.node_name,
    )
}

/// The first eligible pod of the list, or the error where there is none.
pub open spec fn pod_choice(cfg: PcrConfigView, id: SpiffeId, items: Seq<PodIn>) -> Result<
    PodMetaView,
    ErrorView,
> {
    if exists|i: int| is_first_eligible(items, id.service_account, i) {
        let i = choose|i: int| is_first_eligible(items, id.service_account, i);
        Ok(pod_meta(items[i], id))
    } else {
        Err(no_pod_error(cfg, id))
    }
}

proof fn lemma_some_first_eligible(items: Seq<PodIn>, account: Seq<char>, k: int)
    requires
        0 <= k < items.len(),
        eligible(items[k], account),
    ensures
        exists|i: int| is_first_eligible(items, account, i),
    decreases k,
{
    if exists|j: int| 0 <= j < k && eligible(#[trigger] items[j], account) {
        let j = choose|j: int| 0 <= j < k && eligible(#[trigger] items[j], account);
        lemma_some_first_eligible(items, account, j);
    } else {
        assert(is_first_eligible(items, account, k));
    }
}

/// Picks the pod of the identity: the first of the list that is pending or running under
/// the identity's service account.
pub fn select_pod(cfg: &PcrConfig, id: &Identity, list: &PodList) -> (out: Result<PodMeta, Error>)
    ensures
        match out {
            Ok(pod) => pod_choice(cfg@, id@, list.items@) == Ok::<PodMetaView, ErrorView>(pod@),
            Err(e) => pod_choice(cfg@, id@, list.items@) == Err::<PodMetaView, ErrorView>(e@),
        },
{
    match id {
        Identity::Spiffe { trust_domain: _, namespace, service_account } => {
            for i in 0..list.items.len()
                invariant
                    service_account@ == id@.service_account,
                    namespace@ == id@.namespace,
                    forall|j: int|
                        0 <= j < i ==> !eligible(
                            #[trigger] list.items@[j],
                            service_account@,
                        ),
            {
                let pod: &PodIn = &list.items[i];
                let phase_ok: bool = is_text(&pod.status.phase, "Pending") || is_text(
                    &pod.status.phase,
                    "Running",
                );
                let account_ok: bool = is_text(
                    &pod.spec.service_account_name,
                    service_account.as_str(),
                );
                if phase_ok && account_ok {
                    proof {
                        assert(is_first_eligible(list.items@, id@.service_account, i as int));
                        let chosen = choose|k: int|
                            is_first_eligible(list.items@, id@.service_account, k);
                        assert(chosen == i) by {
                            if chosen < i {
                                assert(!eligible(list.items@[chosen], service_account@));
                            } else if i < chosen {
                                assert(!eligible(list.items@[i as int], service_account@));
                            }
                        }
                    }
                    return Ok(
                        PodMeta {
                            name: text_or_default(&pod.metadata.name),
                            uid: text_or_default(&pod.metadata.uid),
                            namespace: namespace.clone(),
                            service_account: service_account.clone(),
                        },
                    );
                }
            }
            Err(
                Error::Spiffe(
                    "no Pending/Running pod with SA ".to_owned().concat(
                        service_account.as_str(),
                    ).concat(" found in ns ").concat(namespace.as_str()).concat(
                        " on node ",
                    ).concat(cfg.node_name.as_str()),
                ),
            )
        },
    }
}

/// The pod of a reply to [`begin`]'s call.
pub open spec fn pod_outcome(cfg: PcrConfigView, id: SpiffeId, reply: Reply<PodList>) -> Result<
    PodMetaView,
    ErrorView,
> {
    match reply_outcome(reply, "list pods on node "@ + cfg.node_name, "pod list"@) {
        Ok(list) => pod_choice(cfg, id, list.items@),
        Err(e) => Err(e),
    }
}

/// The UID of the object of a reply: `asking` says what was asked, `kind` what the object
/// is, `object` which one it is.
pub open spec fn uid_outcome(
    reply: Reply<ObjectWithMeta>,
    asking: Seq<char>,
    kind: Seq<char>,
    object: Seq<char>,
) -> Result<Seq<char>, ErrorView> {
    match reply_outcome(reply, asking, kind) {
        Ok(found) => match opt_text(found.metadata.uid) {
            Some(uid) => Ok(uid),
            None => Err(ErrorView::Spiffe(object + " has no uid"@)),
        },
        Err(e) => Err(e),
    }
}

/// The UID of a service account.
pub open spec fn account_uid_outcome(pod: PodMetaView, reply: Reply<ObjectWithMeta>) -> Result<
    Seq<char>,
    ErrorView,
> {
    let account = pod.namespace + "/"@ + pod.service_account;
    uid_outcome(reply, "get sa "@ + account, "sa"@, "sa "@ + account)
}

/// The UID of the local node.
pub open spec fn node_uid_outcome(cfg: PcrConfigView, reply: Reply<ObjectWithMeta>) -> Result<
    Seq<char>,
    ErrorView,
> {
    uid_outcome(reply, "get node "@ + cfg.node_name, "node"@, "node "@ + cfg.node_name)
}

fn uid_of(reply: Reply<ObjectWithMeta>, asking: String, kind: &str, object: String) -> (out: Result<
    String,
    Error,
>)
    ensures
        match out {
            Ok(uid) => uid_outcome(reply, asking@, kind@, object@) == Ok::<Seq<char>, ErrorView>(
                uid@,
            ),
            Err(e) => uid_outcome(reply, asking@, kind@, object@) == Err::<Seq<char>, ErrorView>(
                e@,
            ),
        },
{
    match accept(reply, asking, kind) {
        Ok(found) => match found.metadata.uid {
            Some(uid) => Ok(uid),
            None => Err(Error::Spiffe(object.concat(" has no uid"))),
        },
        Err(e) => Err(e),
    }
}

/// Waits for the pods on the local node.
pub struct PodSearch {
    pub id: Identity,
}

/// Waits for the service account of the pod.
pub struct AccountLookup {
    pub id: Identity,
    pub pod: PodMeta,
}

/// Waits for the local node.
pub struct NodeLookup {
    pub id: Identity,
    pub pod: PodMeta,
    pub service_account_uid: String,
}

/// Has all that the request names, and lacks the key.
pub struct Ready {
    pub id: Identity,
    pub pod: PodMeta,
    pub service_account_uid: String,
    pub node_uid: String,
}

/// Waits for the request to be created.
pub struct Creation {
    pub id: Identity,
    pub namespace: String,
    pub private_key_pem: Vec<u8>,
}

/// Waits for the request to be decided.
pub struct Polling {
    pub id: Identity,
    pub namespace: String,
    pub name: String,
    pub private_key_pem: Vec<u8>,
    /// The clock in nanoseconds when polling started.
    pub started: u64,
}

/// Holds the issued certificates.
pub struct Issued {
    pub id: Identity,
    pub private_key_pem: Vec<u8>,
    /// The leaf certificate in PEM.
    pub leaf: String,
    /// The certificates behind the leaf in PEM. With none of them, the identity cannot
    /// be verified later on.
    pub chain: Vec<String>,
}

/// What a look at a request has shown.
pub enum Poll {
    /// Nothing yet: look again after [`POLL_INTERVAL_MILLIS`].
    Again(Polling),
    /// The certificates.
    Done(Issued),
}

/// The identity lies in the trust domain that can be served. The signer derives the URI
/// from namespace and service account alone, so no other can be issued.
pub open spec fn served(cfg: PcrConfigView, id: SpiffeId) -> bool {
    id.trust_domain == cfg.trust_domain
}

/// Starts to get a certificate for the identity: asks for the pods of its namespace on
/// the local node.
pub fn begin(cfg: &PcrConfig, id: &Identity) -> (out: Result<(PodSearch, KubeCall), Error>)
    ensures
        match out {
            Ok((next, call)) => {
                &&& served(cfg@, id@)
                &&& next.id@ == id@
                &&& call@ == get_call(pods_path(id@.namespace, cfg@.node_name))
            },
            Err(e) => {
                &&& !served(cfg@, id@)
                &&& e@ == ErrorView::Spiffe(
                    "identity "@ + spiffe_uri(id@) + " not in PCR provider trust domain "@
                        + cfg@.trust_domain,
                )
            },
        },
{
    match id {
        Identity::Spiffe { trust_domain, namespace, service_account: _ } => {
            if !same_text(trust_domain.as_str(), cfg.trust_domain.as_str()) {
                return Err(
                    Error::Spiffe(
                        "identity ".to_owned().concat(id.to_string().as_str()).concat(
                            " not in PCR provider trust domain ",
                        ).concat(cfg.trust_domain.as_str()),
                    ),
                );
            }
            let node: String = urlencoding(cfg.node_name.as_str());
            let path: String = "/api/v1/namespaces/".to_owned().concat(namespace.as_str()).concat(
                "/pods?fieldSelector=spec.nodeName=",
            ).concat(node.as_str());
            Ok((PodSearch { id: id.clone() }, get(path)))
        },
    }
}

impl PodSearch {
    /// Takes the list of pods, picks the pod, and asks for its service account.
    pub fn found(self, cfg: &PcrConfig, reply: Reply<PodList>) -> (out: Result<
        (AccountLookup, KubeCall),
        Error,
    >)
        ensures
            match out {
                Ok((next, call)) => {
                    &&& pod_outcome(cfg@, self.id@, reply) == Ok::<PodMetaView, ErrorView>(
                        next.pod@,
                    )
                    &&& next.id@ == self.id@
                    &&& call@ == get_call(
                        account_path(next.pod@.namespace, next.pod@.service_account),
                    )
                },
                Err(e) => pod_outcome(cfg@, self.id@, reply) == Err::<PodMetaView, ErrorView>(e@),
            },
    {
        let asking: String = "list pods on node ".to_owned().concat(cfg.node_name.as_str());
        let list: PodList = match accept(reply, asking, "pod list") {
            Ok(list) => list,
            Err(e) => {
                return Err(e);
            },
        };
        let pod: PodMeta = match select_pod(cfg, &self.id, &list) {
            Ok(pod) => pod,
            Err(e) => {
                return Err(e);
            },
        };
        let path: String = "/api/v1/namespaces/".to_owned().concat(pod.namespace.as_str()).concat(
            "/serviceaccounts/",
        ).concat(pod.service_account.as_str());
        Ok((AccountLookup { id: self.id, pod }, get(path)))
    }
}

impl AccountLookup {
    /// Takes the service account's UID and asks for the node.
    pub fn found(self, cfg: &PcrConfig, reply: Reply<ObjectWithMeta>) -> (out: Result<
        (NodeLookup, KubeCall),
        Error,
    >)
        ensures
            match out {
                Ok((next, call)) => {
                    &&& account_uid_outcome(self.pod@, reply) == Ok::<Seq<char>, ErrorView>(
                        next.service_account_uid@,
                    )
                    &&& next.id@ == self.id@
                    &&& next.pod@ == self.pod@
                    &&& call@ == get_call(node_path(cfg@.node_name))
                },
                Err(e) => account_uid_outcome(self.pod@, reply) == Err::<Seq<char>, ErrorView>(e@),
            },
    {
        let account: String = self.pod.namespace.clone().concat("/").concat(
            self.pod.service_account.as_str(),
        );
        let asking: String = "get sa ".to_owned().concat(account.as_str());
        let object: String = "sa ".to_owned().concat(account.as_str());
        match uid_of(reply, asking, "sa", object) {
            Ok(uid) => Ok(
                (
                    NodeLookup { id: self.id, pod: self.pod, service_account_uid: uid },
                    get("/api/v1/nodes/".to_owned().concat(cfg.node_name.as_str())),
                ),
            ),
            Err(e) => Err(e),
        }
    }
}

impl NodeLookup {
    /// Takes the node's UID.
    pub fn found(self, cfg: &PcrConfig, reply: Reply<ObjectWithMeta>) -> (out: Result<Ready, Error>)
        ensures
            match out {
                Ok(next) => {
                    &&& node_uid_outcome(cfg@, reply) == Ok::<Seq<char>, ErrorView>(next.node_uid@)
                    &&& next.id@ == self.id@
                    &&& next.pod@ == self.pod@
                    &&& next.service_account_uid@ == self.service_account_uid@
                },
                Err(e) => node_uid_outcome(cfg@, reply) == Err::<Seq<char>, ErrorView>(e@),
            },
    {
        let asking: String = "get node ".to_owned().concat(cfg.node_name.as_str());
        let object: String = "node ".to_owned().concat(cfg.node_name.as_str());
        match uid_of(reply, asking, "node", object) {
            Ok(uid) => Ok(
                Ready {
                    id: self.id,
                    pod: self.pod,
                    service_account_uid: self.service_account_uid,
                    node_uid: uid,
                },
            ),
            Err(e) => Err(e),
        }
    }
}

/// The pod certificate request for a pod on the local node, with the given materials.
pub open spec fn pcr_for(
    cfg: PcrConfigView,
    id: SpiffeId,
    pod: PodMetaView,
    service_account_uid: Seq<char>,
    node_uid: Seq<char>,
    materials: PcrMaterials,
) -> PcrCreateView {
    PcrCreateView {
        api_version: "certificates.k8s.io/v1beta1"@,
        kind: "PodCertificateRequest"@,
        metadata: PcrMetaView { generate_name: "ztunnel-"@, namespace: pod.namespace },
        spec: PcrSpecView {
            signer_name: cfg.signer_name,
            pod_name: pod.name,
            pod_uid: pod.uid,
            service_account_name: id.service_account,
            service_account_uid,
            node_name: cfg.node_name,
            node_uid,
            max_expiration_seconds: cfg.max_expiration_seconds,
            pkix_public_key: base64_text(materials.pkix_public_key_der@),
            proof_of_possession: base64_text(materials.proof_of_possession@),
            stub_pkcs10_request: base64_text(materials.csr_der@),
        },
    }
}

/// The call that creates a pod certificate request.
pub open spec fn create_call(pcr: PcrCreateView) -> KubeCallView {
    KubeCallView {
        method: Method::Post,
        path: pcrs_path(pcr.metadata.namespace),
        body: Some(encode_utf8(pcr_json(pcr))),
    }
}

fn pcrs_path_text(namespace: &str) -> (path: String)
    ensures
        path@ == pcrs_path(namespace@),
{
    "/apis/certificates.k8s.io/v1beta1".to_owned().concat("/namespaces/").concat(namespace).concat(
        "/podcertificaterequests",
    )
}

/// The state and the call that follow [`Ready`] with the given materials.
pub open spec fn is_creation(
    ready: Ready,
    cfg: PcrConfigView,
    materials: PcrMaterials,
    next: Creation,
    call: KubeCallView,
) -> bool {
    &&& next.id@ == ready.id@
    &&& next.namespace@ == ready.pod@.namespace
    &&& next.private_key_pem@ == materials.private_key_pem@
    &&& call == create_call(
        pcr_for(
            cfg,
            ready.id@,
            ready.pod@,
            ready.service_account_uid@,
            ready.node_uid@,
            materials,
        ),
    )
}

impl Ready {
    /// Makes a fresh key with its request for the identity and its proof of possession of
    /// the pod's UID, and asks for the pod certificate request to be created.
    pub fn request(self, cfg: &PcrConfig) -> (out: Result<(Creation, KubeCall), Error>)
        ensures
            match out {
                Ok((next, call)) => exists|materials: PcrMaterials, key: Seq<u8>|
                    {
                        &&& is_ring_key(key)
                        &&& #[trigger] materials_of_key(
                            materials,
                            key,
                            spiffe_uri(self.id@),
                            encode_utf8(self.pod@.uid),
                        )
                        &&& is_creation(self, cfg@, materials, next, call@)
                    },
                Err(e) => e@ is Signing && is_pcr_failure(
                    e@->Signing_0,
                    spiffe_uri(self.id@),
                ),
            },
            !is_ascii_chars(spiffe_uri(self.id@)) ==> out is Err,
    {
        let uri: String = self.id.to_string();
        let materials = generate_for_pcr(uri.as_str(), self.pod.uid.as_str().as_bytes());
        self.request_with(cfg, materials)
    }

    /// Asks for the pod certificate request to be created with the given materials.
    pub fn request_with(
        self,
        cfg: &PcrConfig,
        materials: Result<PcrMaterials, tls::Error>,
    ) -> (out: Result<(Creation, KubeCall), Error>)
        ensures
            match materials {
                Ok(materials) => out is Ok && is_creation(
                    self,
                    cfg@,
                    materials,
                    out->Ok_0.0,
                    out->Ok_0.1@,
                ),
                Err(e) => out is Err && out->Err_0@ == ErrorView::Signing(e@),
            },
    {
        let materials: PcrMaterials = match materials {
            Ok(materials) => materials,
            Err(e) => {
                return Err(Error::Signing(e));
            },
        };
        let service_account_name: String = match &self.id {
            Identity::Spiffe { trust_domain: _, namespace: _, service_account } =>
            service_account.clone(),
        };
        let namespace: String = self.pod.namespace.clone();
        let pcr = PcrCreate {
            api_version: "certificates.k8s.io/v1beta1".to_owned(),
            kind: "PodCertificateRequest".to_owned(),
            metadata: PcrMeta {
                generate_name: "ztunnel-".to_owned(),
                namespace: self.pod.namespace,
            },
            spec: PcrSpec {
                signer_name: cfg.signer_name.clone(),
                pod_name: self.pod.name,
                pod_uid: self.pod.uid,
                service_account_name,
                service_account_uid: self.service_account_uid,
                node_name: cfg.node_name.clone(),
                node_uid: self.node_uid,
                max_expiration_seconds: cfg.max_expiration_seconds,
                pkix_public_key: base64_encode(materials.pkix_public_key_der.as_slice()),
                proof_of_possession: base64_encode(materials.proof_of_possession.as_slice()),
                stub_pkcs10_request: base64_encode(materials.csr_der.as_slice()),
            },
        };
        let call = KubeCall {
            method: Method::Post,
            path: pcrs_path_text(namespace.as_str()),
            body: Some(pcr.to_json()),
        };
        Ok(
            (
                Creation {
                    id: self.id,
                    namespace,
                    private_key_pem: materials.private_key_pem,
                },
                call,
            ),
        )
    }
}

/// The name of the request that was created.
pub open spec fn created_outcome(namespace: Seq<char>, reply: Reply<PcrObject>) -> Result<
    Seq<char>,
    ErrorView,
> {
    match reply_outcome(reply, "create PCR ns="@ + namespace, "created PCR"@) {
        Ok(created) => match opt_text(created.metadata.name) {
            Some(name) => Ok(name),
            None => Err(ErrorView::Spiffe("created PCR has no name"@)),
        },
        Err(e) => Err(e),
    }
}

impl Creation {
    /// Takes the name of the created request and starts to poll it. `now` is the clock in
    /// nanoseconds.
    pub fn created(self, reply: Reply<PcrObject>, now: u64) -> (out: Result<Polling, Error>)
        ensures
            match out {
                Ok(next) => {
                    &&& created_outcome(self.namespace@, reply) == Ok::<Seq<char>, ErrorView>(
                        next.name@,
                    )
                    &&& next.id@ == self.id@
                    &&& next.namespace@ == self.namespace@
                    &&& next.private_key_pem@ == self.private_key_pem@
                    &&& next.started == now
                },
                Err(e) => created_outcome(self.namespace@, reply) == Err::<Seq<char>, ErrorView>(
                    e@,
                ),
            },
    {
        let asking: String = "create PCR ns=".to_owned().concat(self.namespace.as_str());
        let created: PcrObject = match accept(reply, asking, "created PCR") {
            Ok(created) => created,
            Err(e) => {
                return Err(e);
            },
        };
        match created.metadata.name {
            Some(name) => Ok(
                Polling {
                    id: self.id,
                    namespace: self.namespace,
                    name,
                    private_key_pem: self.private_key_pem,
                    started: now,
                },
            ),
            None => Err(Error::Spiffe("created PCR has no name".to_owned())),
        }
    }
}

/// The condition means that the request was refused.
pub open spec fn refusing(condition: PcrCondition) -> bool {
    condition.type_@ == "Denied"@ || condition.type_@ == "Failed"@
}

/// `i` is the first condition that means refusal.
pub open spec fn is_first_refusing(conditions: Seq<PcrCondition>, i: int) -> bool {
    &&& 0 <= i < conditions.len()
    &&& refusing(conditions[i])
    &&& forall|j: int| 0 <= j < i ==> !refusing(#[trigger] conditions[j])
}

/// What is reported of a refusal.
pub open spec fn refusal(request: Seq<char>, condition: PcrCondition) -> ErrorView {
    ErrorView::Spiffe(
        "PCR "@ + request + (if condition.type_@ == "Denied"@ {
            " denied: "@
        } else {
            " failed: "@
        }) + match opt_text(condition.message) {
            Some(message) => message,
            None => "(no message)"@,
        },
    )
}

/// What the status of a request says: the certificates, a refusal, or nothing yet. A
/// refusal counts even where certificates are there.
pub open spec fn decision(request: Seq<char>, status: Option<PcrStatus>) -> Result<
    Option<Seq<char>>,
    ErrorView,
> {
    match status {
        None => Ok(None),
        Some(status) => if exists|i: int| is_first_refusing(status.conditions@, i) {
            let i = choose|i: int| is_first_refusing(status.conditions@, i);
            Err(refusal(request, status.conditions@[i]))
        } else if status.certificate_chain@.len() == 0 {
            Ok(None)
        } else {
            Ok(Some(status.certificate_chain@))
        },
    }
}

proof fn lemma_some_first_refusing(conditions: Seq<PcrCondition>, k: int)
    requires
        0 <= k < conditions.len(),
        refusing(conditions[k]),
    ensures
        exists|i: int| is_first_refusing(conditions, i),
    decreases k,
{
    if exists|j: int| 0 <= j < k && refusing(#[trigger] conditions[j]) {
        let j = choose|j: int| 0 <= j < k && refusing(#[trigger] conditions[j]);
        lemma_some_first_refusing(conditions, j);
    } else {
        assert(is_first_refusing(conditions, k));
    }
}

/// Reads the status of a request; `request` names it.
pub fn decide(request: &str, status: Option<PcrStatus>) -> (out: Result<Option<String>, Error>)
    ensures
        match out {
            Ok(chain) => decision(request@, status) == Ok::<Option<Seq<char>>, ErrorView>(
                opt_text(chain),
            ),
            Err(e) => decision(request@, status) == Err::<Option<Seq<char>>, ErrorView>(e@),
        },
{
    let known: PcrStatus = match status {
        Some(known) => known,
        None => {
            return Ok(None);
        },
    };
    for i in 0..known.conditions.len()
        invariant
            status == Some(known),
            forall|j: int| 0 <= j < i ==> !refusing(#[trigger] known.conditions@[j]),
    {
        let condition: &PcrCondition = &known.conditions[i];
        let denied: bool = same_text(condition.type_.as_str(), "Denied");
        let failed: bool = same_text(condition.type_.as_str(), "Failed");
        if denied || failed {
            proof {
                assert(is_first_refusing(known.conditions@, i as int));
                let first = choose|k: int| is_first_refusing(known.conditions@, k);
                assert(first == i) by {
                    if first < i {
                        assert(!refusing(known.conditions@[first]));
                    } else if i < first {
                        assert(!refusing(known.conditions@[i as int]));
                    }
                }
            }
            let verdict: &str = if denied {
                " denied: "
            } else {
                " failed: "
            };
            let message: &str = match &condition.message {
                Some(message) => message.as_str(),
                None => "(no message)",
            };
            return Err(
                Error::Spiffe(
                    "PCR ".to_owned().concat(request).concat(verdict).concat(message),
                ),
            );
        }
    }
    if known.certificate_chain.as_str().is_empty() {
        Ok(None)
    } else {
        Ok(Some(known.certificate_chain))
    }
}

/// How a request is named in messages.
pub open spec fn pcr_name(namespace: Seq<char>, name: Seq<char>) -> Seq<char> {
    namespace + "/"@ + name
}

/// The waiting has lasted long enough.
pub open spec fn timed_out(started: u64, now: u64) -> bool {
    now - started >= POLL_TIMEOUT_NANOS
}

/// What a look at a request shows: the certificates, an error that ends the matter, or
/// nothing yet.
pub open spec fn poll_outcome(
    namespace: Seq<char>,
    name: Seq<char>,
    started: u64,
    reply: Reply<PcrObject>,
    now: u64,
) -> Result<Option<Seq<char>>, ErrorView> {
    let request = pcr_name(namespace, name);
    match reply_outcome(reply, "get PCR "@ + request, "PCR "@ + request) {
        Err(e) => Err(e),
        Ok(pcr) => match decision(request, pcr.status) {
            Ok(None) => if timed_out(started, now) {
                Err(
                    ErrorView::Spiffe(
                        "timed out waiting for PCR "@ + request + " status"@,
                    ),
                )
            } else {
                Ok(None)
            },
            decided => decided,
        },
    }
}

impl Polling {
    /// The call that looks at the request.
    pub fn call(&self) -> (call: KubeCall)
        ensures
            call@ == get_call(pcr_path(self.namespace@, self.name@)),
    {
        get(pcrs_path_text(self.namespace.as_str()).concat("/").concat(self.name.as_str()))
    }

    /// Takes a look at the request. `now` is the clock in nanoseconds.
    pub fn polled(self, reply: Reply<PcrObject>, now: u64) -> (out: Result<Poll, Error>)
        ensures
            match poll_outcome(self.namespace@, self.name@, self.started, reply, now) {
                Err(e) => out is Err && out->Err_0@ == e,
                Ok(None) => out == Ok::<Poll, Error>(Poll::Again(self)),
                Ok(Some(chain)) => {
                    let blocks = pem_blocks(chain, 0);
                    if blocks.len() == 0 {
                        out is Err && out->Err_0@ == ErrorView::EmptyResponse(self.id@)
                    } else {
                        &&& out is Ok && out->Ok_0 is Done
                        &&& out->Ok_0->Done_0.id@ == self.id@
                        &&& out->Ok_0->Done_0.private_key_pem@ == self.private_key_pem@
                        &&& out->Ok_0->Done_0.leaf@ == blocks[0]
                        &&& texts(out->Ok_0->Done_0.chain@) == blocks.drop_first()
                    }
                },
            },
    {
        let request: String = self.namespace.clone().concat("/").concat(self.name.as_str());
        let asking: String = "get PCR ".to_owned().concat(request.as_str());
        let parsing: String = "PCR ".to_owned().concat(request.as_str());
        let pcr: PcrObject = match accept(reply, asking, parsing.as_str()) {
            Ok(pcr) => pcr,
            Err(e) => {
                return Err(e);
            },
        };
        match decide(request.as_str(), pcr.status) {
            Err(e) => Err(e),
            Ok(Some(chain)) => self.issued(chain.as_str()),
            Ok(None) => {
                if now >= self.started && now - self.started >= POLL_TIMEOUT_NANOS {
                    Err(
                        Error::Spiffe(
                            "timed out waiting for PCR ".to_owned().concat(
                                request.as_str(),
                            ).concat(" status"),
                        ),
                    )
                } else {
                    Ok(Poll::Again(self))
                }
            },
        }
    }

    fn issued(self, chain: &str) -> (out: Result<Poll, Error>)
        ensures
            ({
                let blocks = pem_blocks(chain@, 0);
                if blocks.len() == 0 {
                    out is Err && out->Err_0@ == ErrorView::EmptyResponse(self.id@)
                } else {
                    &&& out is Ok && out->Ok_0 is Done
                    &&& out->Ok_0->Done_0.id@ == self.id@
                    &&& out->Ok_0->Done_0.private_key_pem@ == self.private_key_pem@
                    &&& out->Ok_0->Done_0.leaf@ == blocks[0]
                    &&& texts(out->Ok_0->Done_0.chain@) == blocks.drop_first()
                }
            }),
    {
        let mut certs: Vec<String> = split_pem_certs(chain);
        let ghost all = texts(certs@);
        if certs.len() == 0 {
            return Err(Error::EmptyResponse(self.id));
        }
        let leaf: String = certs.remove(0);
        proof {
            assert(leaf@ == all[0]);
            assert(texts(certs@) =~= all.drop_first());
        }
        Ok(
            Poll::Done(
                Issued { id: self.id, private_key_pem: self.private_key_pem, leaf, chain: certs },
            ),
        )
    }
}

impl Issued {
    /// Whether the certificates may be used. `loaded` is what came of loading them with
    /// their key: the loaded certificate with the identity in its leaf, if there is one,
    /// or the refusal.
    pub fn confirm<C>(&self, loaded: Result<(C, Option<Identity>), tls::Error>) -> (out: Result<
        C,
        Error,
    >)
        ensures
            match loaded {
                Err(e) => out is Err && out->Err_0@ == ErrorView::Signing(e@),
                Ok((certificate, found)) => if found is Some && found->0@ == self.id@ {
                    out == Ok::<C, Error>(certificate)
                } else {
                    out is Err && out->Err_0@ == ErrorView::SanError(self.id@)
                },
            },
    {
        match loaded {
            Err(e) => Err(Error::Signing(e)),
            Ok((certificate, found)) => {
                let confirmed: bool = match &found {
                    Some(found) => found.same(&self.id),
                    None => false,
                };
                if confirmed {
                    Ok(certificate)
                } else {
                    Err(Error::SanError(self.id.clone()))
                }
            },
        }
    }
}

/// A pod is found exactly if the list holds one that is pending or running under the
/// service account.
pub proof fn law_an_eligible_pod_is_found(cfg: PcrConfigView, id: SpiffeId, items: Seq<PodIn>)
    ensures
        pod_choice(cfg, id, items) is Ok <==> exists|k: int|
            {
                &&& 0 <= k < items.len()
                &&& (#[trigger] items[k]).status.phase is Some
                &&& items[k].status.phase->0@ == "Pending"@ || items[k].status.phase->0@
                    == "Running"@
                &&& items[k].spec.service_account_name is Some
                &&& items[k].spec.service_account_name->0@ == id.service_account
            },
{
    assert forall|k: int| 0 <= k < items.len() implies eligible(
        #[trigger] items[k],
        id.service_account,
    ) == {
        &&& items[k].status.phase is Some
        &&& items[k].status.phase->0@ == "Pending"@ || items[k].status.phase->0@ == "Running"@
        &&& items[k].spec.service_account_name is Some
        &&& items[k].spec.service_account_name->0@ == id.service_account
    } by {}
    if exists|k: int| 0 <= k < items.len() && eligible(#[trigger] items[k], id.service_account) {
        let k = choose|k: int|
            0 <= k < items.len() && eligible(#[trigger] items[k], id.service_account);
        lemma_some_first_eligible(items, id.service_account, k);
    } else if pod_choice(cfg, id, items) is Ok {
        let i = choose|i: int| is_first_eligible(items, id.service_account, i);
        assert(eligible(items[i], id.service_account));
    }
}

/// The request that is created for an identity names a pod that the API server listed
/// for the local node, pending or running under the identity's service account; it lies
/// in the identity's namespace, names the identity's service account and the node that
/// is impersonated, and carries the UIDs that the API server gave for them. It is
/// addressed to the configured signer and asks for the configured lifetime.
pub proof fn law_the_request_is_for_the_identity(
    cfg: PcrConfigView,
    id: SpiffeId,
    pods: Reply<PodList>,
    account: Reply<ObjectWithMeta>,
    node: Reply<ObjectWithMeta>,
    materials: PcrMaterials,
)
    requires
        pod_outcome(cfg, id, pods) is Ok,
        account_uid_outcome(pod_outcome(cfg, id, pods)->Ok_0, account) is Ok,
        node_uid_outcome(cfg, node) is Ok,
    ensures
        ({
            let pod = pod_outcome(cfg, id, pods)->Ok_0;
            let account_uid = account_uid_outcome(pod, account)->Ok_0;
            let node_uid = node_uid_outcome(cfg, node)->Ok_0;
            let pcr = pcr_for(cfg, id, pod, account_uid, node_uid, materials);
            let listed = pods.parsed->Ok_0.items@;
            &&& pcr.metadata.namespace == id.namespace
            &&& pcr.spec.service_account_name == id.service_account
            &&& pcr.spec.node_name == cfg.node_name
            &&& pcr.spec.signer_name == cfg.signer_name
            &&& pcr.spec.max_expiration_seconds == cfg.max_expiration_seconds
            &&& pcr.api_version == "certificates.k8s.io/v1beta1"@
            &&& pcr.kind == "PodCertificateRequest"@
            &&& pcr.metadata.generate_name == "ztunnel-"@
            &&& opt_text(account.parsed->Ok_0.metadata.uid) == Some(pcr.spec.service_account_uid)
            &&& opt_text(node.parsed->Ok_0.metadata.uid) == Some(pcr.spec.node_uid)
            &&& exists|i: int|
                {
                    &&& 0 <= i < listed.len()
                    &&& #[trigger] eligible(listed[i], id.service_account)
                    &&& listed[i].status.phase is Some
                    &&& listed[i].status.phase->0@ == "Pending"@ || listed[i].status.phase->0@
                        == "Running"@
                    &&& listed[i].spec.service_account_name is Some
                    &&& listed[i].spec.service_account_name->0@ == id.service_account
                    &&& pcr.spec.pod_name == text_or_empty(opt_text(listed[i].metadata.name))
                    &&& pcr.spec.pod_uid == text_or_empty(opt_text(listed[i].metadata.uid))
                }
        }),
{
    let listed = pods.parsed->Ok_0.items@;
    let i = choose|i: int| is_first_eligible(listed, id.service_account, i);
    assert(is_first_eligible(listed, id.service_account, i));
    assert(eligible(listed[i], id.service_account));
}

/// The API server reads the very materials from the request: its public key, its proof of
/// possession and its certificate signing request decode to them.
pub proof fn law_the_request_carries_the_materials(
    cfg: PcrConfigView,
    id: SpiffeId,
    pod: PodMetaView,
    service_account_uid: Seq<char>,
    node_uid: Seq<char>,
    materials: PcrMaterials,
)
    ensures
        ({
            let spec = pcr_for(cfg, id, pod, service_account_uid, node_uid, materials).spec;
            &&& base64_bytes(spec.pkix_public_key) == materials.pkix_public_key_der@
            &&& base64_bytes(spec.proof_of_possession) == materials.proof_of_possession@
            &&& base64_bytes(spec.stub_pkcs10_request) == materials.csr_der@
        }),
{
    law_base64_round_trip(materials.pkix_public_key_der@);
    law_base64_round_trip(materials.proof_of_possession@);
    law_base64_round_trip(materials.csr_der@);
}

/// A request with a `Denied` or `Failed` condition gives no certificates, whatever else
/// its status holds.
pub proof fn law_a_refused_request_gives_no_certificates(
    request: Seq<char>,
    status: PcrStatus,
    k: int,
)
    requires
        0 <= k < status.conditions@.len(),
        status.conditions@[k].type_@ == "Denied"@ || status.conditions@[k].type_@ == "Failed"@,
    ensures
        decision(request, Some(status)) is Err,
{
    lemma_some_first_refusing(status.conditions@, k);
}

/// Once the time is up, no look at a request asks for another.
pub proof fn law_waiting_ends(
    namespace: Seq<char>,
    name: Seq<char>,
    started: u64,
    reply: Reply<PcrObject>,
    now: u64,
)
    requires
        now - started >= 60_000_000_000,
    ensures
        poll_outcome(namespace, name, started, reply, now) != Ok::<
            Option<Seq<char>>,
            ErrorView,
        >(None),
{
}

/// Looks at a request that lie at least [`POLL_INTERVAL_MILLIS`] apart use up the time:
/// the look after the hundred and twentieth pause is the last.
pub proof fn law_looks_are_bounded(started: u64, looks: Seq<u64>, k: int)
    requires
        looks.len() > 0,
        looks[0] >= started,
        forall|i: int|
            0 <= i < looks.len() - 1 ==> #[trigger] looks[i] + POLL_INTERVAL_MILLIS * 1_000_000
                <= looks[i + 1],
        0 <= k < looks.len(),
    ensures
        looks[k] >= started + k * (POLL_INTERVAL_MILLIS * 1_000_000),
        k >= 120 ==> timed_out(started, looks[k]),
        k >= 120 ==> looks[k] - started >= 60_000_000_000,
    decreases k,
{
    if k > 0 {
        law_looks_are_bounded(started, looks, k - 1);
        assert(looks[k - 1] + POLL_INTERVAL_MILLIS * 1_000_000 <= looks[k]);
    }
}

/// Only an identity of the configured trust domain is served, and each of them is. Its
/// pods are asked for: those of its namespace on the local node, whose name stands escaped
/// in the query and can be read back from it.
pub proof fn law_only_the_trust_domain_is_served(
    cfg: PcrConfig,
    id: Identity,
    out: Result<(PodSearch, KubeCall), Error>,
)
    requires
        call_ensures(begin, (&cfg, &id), out),
    ensures
        out is Ok <==> id->trust_domain@ == cfg.trust_domain@,
        out is Ok ==> {
            let front = "/api/v1/namespaces/"@ + id->namespace@
                + "/pods?fieldSelector=spec.nodeName="@;
            let (next, call) = out->Ok_0;
            &&& same_parts(next.id, id)
            &&& call.method == Method::Get
            &&& call.body is None
            &&& call.path@ == front + percent_encoded(encode_utf8(cfg.node_name@))
            &&& percent_decoded(call.path@.skip(front.len() as int)) == encode_utf8(
                cfg.node_name@,
            )
        },
        out is Err ==> out->Err_0 is Spiffe && out->Err_0->Spiffe_0@ == "identity "@ + ("spiffe://"@
            + id->trust_domain@ + "/ns/"@ + id->namespace@ + "/sa/"@ + id->service_account@)
            + " not in PCR provider trust domain "@ + cfg.trust_domain@,
{
    if out is Ok {
        let (next, call) = out->Ok_0;
        assert(next.id@ == id@);
        assert(call@.body is None);
        let front = "/api/v1/namespaces/"@ + id->namespace@
            + "/pods?fieldSelector=spec.nodeName="@;
        let node = encode_utf8(cfg.node_name@);
        assert(call@.path == front + percent_encoded(node));
        assert(call.path@.skip(front.len() as int) =~= percent_encoded(node));
        law_decoding_undoes_encoding(node);
    }
}

/// The picked pod is listed as pending or running under the identity's service account,
/// and no pod before it in the list is; its name and its UID are those of the list. It is
/// taken for the identity's namespace and service account.
pub proof fn law_the_first_live_pod_of_the_account_is_picked(
    cfg: PcrConfig,
    id: Identity,
    list: PodList,
    out: Result<PodMeta, Error>,
)
    requires
        call_ensures(select_pod, (&cfg, &id, &list), out),
    ensures
        out matches Ok(pod) ==> {
            &&& pod.namespace@ == id->namespace@
            &&& pod.service_account@ == id->service_account@
            &&& exists|i: int|
                {
                    let picked = list.items@[i];
                    &&& 0 <= i < list.items@.len()
                    &&& (#[trigger] list.items@[i]).status.phase is Some
                    &&& picked.status.phase->0@ == "Pending"@ || picked.status.phase->0@
                        == "Running"@
                    &&& picked.spec.service_account_name is Some
                    &&& picked.spec.service_account_name->0@ == id->service_account@
                    &&& picked.metadata.name is Some ==> pod.name@ == picked.metadata.name->0@
                    &&& picked.metadata.name is None ==> pod.name@.len() == 0
                    &&& picked.metadata.uid is Some ==> pod.uid@ == picked.metadata.uid->0@
                    &&& picked.metadata.uid is None ==> pod.uid@.len() == 0
                    &&& forall|j: int|
                        0 <= j < i ==> {
                            ||| (#[trigger] list.items@[j]).status.phase is None
                            ||| list.items@[j].status.phase->0@ != "Pending"@
                                && list.items@[j].status.phase->0@ != "Running"@
                            ||| list.items@[j].spec.service_account_name is None
                            ||| list.items@[j].spec.service_account_name->0@
                                != id->service_account@
                        }
                }
        },
{
    if let Ok(pod) = out {
        let items = list.items@;
        let i = choose|i: int| is_first_eligible(items, id@.service_account, i);
        assert(is_first_eligible(items, id@.service_account, i));
        assert(eligible(items[i], id@.service_account));
        assert(pod@ == pod_meta(items[i], id@));
        assert forall|j: int| 0 <= j < i implies {
            ||| (#[trigger] items[j]).status.phase is None
            ||| items[j].status.phase->0@ != "Pending"@ && items[j].status.phase->0@ != "Running"@
            ||| items[j].spec.service_account_name is None
            ||| items[j].spec.service_account_name->0@ != id->service_account@
        } by {
            assert(!eligible(items[j], id@.service_account));
        }
    }
}

/// A list without a pod that is pending or running under the identity's service account is
/// an error, and no other list is. The error names service account, namespace and node.
pub proof fn law_no_pod_is_an_error_exactly_where_none_is_live(
    cfg: PcrConfig,
    id: Identity,
    list: PodList,
    out: Result<PodMeta, Error>,
)
    requires
        call_ensures(select_pod, (&cfg, &id, &list), out),
    ensures
        out is Err <==> forall|j: int|
            0 <= j < list.items@.len() ==> {
                ||| (#[trigger] list.items@[j]).status.phase is None
                ||| list.items@[j].status.phase->0@ != "Pending"@
                    && list.items@[j].status.phase->0@ != "Running"@
                ||| list.items@[j].spec.service_account_name is None
                ||| list.items@[j].spec.service_account_name->0@ != id->service_account@
            },
        out is Err ==> out->Err_0 is Spiffe && out->Err_0->Spiffe_0@
            == "no Pending/Running pod with SA "@ + id->service_account@ + " found in ns "@
            + id->namespace@ + " on node "@ + cfg.node_name@,
{
    law_an_eligible_pod_is_found(cfg@, id@, list.items@);
}

/// From the list of an answer with success the pod is taken that [`select_pod`] picks, and
/// its service account is asked for. Another answer is an error.
pub proof fn law_the_pod_comes_from_the_answer(
    search: PodSearch,
    cfg: PcrConfig,
    reply: Reply<PodList>,
    picked: Result<PodMeta, Error>,
    out: Result<(AccountLookup, KubeCall), Error>,
)
    requires
        call_ensures(PodSearch::found, (search, &cfg, reply), out),
        reply.parsed is Ok ==> call_ensures(
            select_pod,
            (&cfg, &search.id, &reply.parsed->Ok_0),
            picked,
        ),
    ensures
        out is Ok <==> 200 <= reply.status <= 299 && reply.parsed is Ok && picked is Ok,
        out is Ok ==> {
            let (next, call) = out->Ok_0;
            let pod = picked->Ok_0;
            &&& same_parts(next.id, search.id)
            &&& next.pod.name@ == pod.name@
            &&& next.pod.uid@ == pod.uid@
            &&& next.pod.namespace@ == search.id->namespace@
            &&& next.pod.service_account@ == search.id->service_account@
            &&& call.method == Method::Get
            &&& call.body is None
            &&& call.path@ == "/api/v1/namespaces/"@ + search.id->namespace@
                + "/serviceaccounts/"@ + search.id->service_account@
        },
        out is Err ==> out->Err_0 is Spiffe,
        out is Err && 200 <= reply.status <= 299 && reply.parsed is Ok ==> out->Err_0@
            == picked->Err_0@,
        reply.status < 200 || reply.status > 299 ==> out->Err_0->Spiffe_0@ == "list pods on node "@
            + cfg.node_name@ + ": status "@ + status_text(reply.status) + ", body "@ + read_lossily(
            reply.body@,
        ),
{
    if out is Ok {
        let (next, call) = out->Ok_0;
        assert(next.id@ == search.id@);
        assert(next.pod@ == picked->Ok_0@);
        assert(call@.body is None);
        assert(call@.path == account_path(next.pod@.namespace, next.pod@.service_account));
    }
}

/// The UID of the service account is the one in an answer with success; then the local
/// node is asked for. Another answer, or one without a UID, is an error.
pub proof fn law_the_account_uid_comes_from_the_answer(
    lookup: AccountLookup,
    cfg: PcrConfig,
    reply: Reply<ObjectWithMeta>,
    out: Result<(NodeLookup, KubeCall), Error>,
)
    requires
        call_ensures(AccountLookup::found, (lookup, &cfg, reply), out),
    ensures
        out is Ok <==> 200 <= reply.status <= 299 && reply.parsed is Ok
            && reply.parsed->Ok_0.metadata.uid is Some,
        out is Ok ==> {
            let (next, call) = out->Ok_0;
            &&& next.service_account_uid@ == reply.parsed->Ok_0.metadata.uid->0@
            &&& same_parts(next.id, lookup.id)
            &&& next.pod.name@ == lookup.pod.name@
            &&& next.pod.uid@ == lookup.pod.uid@
            &&& next.pod.namespace@ == lookup.pod.namespace@
            &&& next.pod.service_account@ == lookup.pod.service_account@
            &&& call.method == Method::Get
            &&& call.body is None
            &&& call.path@ == "/api/v1/nodes/"@ + cfg.node_name@
        },
        out is Err ==> out->Err_0 is Spiffe,
        reply.status < 200 || reply.status > 299 ==> out->Err_0->Spiffe_0@ == "get sa "@
            + (lookup.pod.namespace@ + "/"@ + lookup.pod.service_account@) + ": status "@
            + status_text(reply.status) + ", body "@ + read_lossily(reply.body@),
        out is Err && 200 <= reply.status <= 299 ==> out->Err_0->Spiffe_0@ == match reply.parsed {
            Ok(_) => "sa "@ + (lookup.pod.namespace@ + "/"@ + lookup.pod.service_account@)
                + " has no uid"@,
            Err(why) => "parsing "@ + "sa"@ + ": "@ + why@,
        },
{
    if out is Ok {
        let (next, call) = out->Ok_0;
        assert(next.id@ == lookup.id@);
        assert(next.pod@ == lookup.pod@);
        assert(call@.body is None);
        assert(call@.path == node_path(cfg@.node_name));
    }
}

/// The UID of the node is the one in an answer with success. Another answer, or one
/// without a UID, is an error.
pub proof fn law_the_node_uid_comes_from_the_answer(
    lookup: NodeLookup,
    cfg: PcrConfig,
    reply: Reply<ObjectWithMeta>,
    out: Result<Ready, Error>,
)
    requires
        call_ensures(NodeLookup::found, (lookup, &cfg, reply), out),
    ensures
        out is Ok <==> 200 <= reply.status <= 299 && reply.parsed is Ok
            && reply.parsed->Ok_0.metadata.uid is Some,
        out matches Ok(next) ==> {
            &&& next.node_uid@ == reply.parsed->Ok_0.metadata.uid->0@
            &&& next.service_account_uid@ == lookup.service_account_uid@
            &&& same_parts(next.id, lookup.id)
            &&& next.pod.name@ == lookup.pod.name@
            &&& next.pod.uid@ == lookup.pod.uid@
            &&& next.pod.namespace@ == lookup.pod.namespace@
            &&& next.pod.service_account@ == lookup.pod.service_account@
        },
        out is Err ==> out->Err_0 is Spiffe,
        reply.status < 200 || reply.status > 299 ==> out->Err_0->Spiffe_0@ == "get node "@
            + cfg.node_name@ + ": status "@ + status_text(reply.status) + ", body "@ + read_lossily(
            reply.body@,
        ),
        out is Err && 200 <= reply.status <= 299 ==> out->Err_0->Spiffe_0@ == match reply.parsed {
            Ok(_) => "node "@ + cfg.node_name@ + " has no uid"@,
            Err(why) => "parsing "@ + "node"@ + ": "@ + why@,
        },
{
    if let Ok(next) = out {
        assert(next.id@ == lookup.id@);
        assert(next.pod@ == lookup.pod@);
    }
}

/// The request is created in the pod's namespace. Its body is the JSON of an object that
/// names the configured signer and lifetime, the pod, the identity's service account and
/// the local node with their UIDs, and holds the three materials in base64; the private
/// key is kept back. Without materials nothing is created.
pub proof fn law_the_request_says_what_is_wanted(
    ready: Ready,
    cfg: PcrConfig,
    materials: PcrMaterials,
    pcr: PcrCreate,
    json: Vec<u8>,
    out: Result<(Creation, KubeCall), Error>,
)
    requires
        call_ensures(Ready::request_with, (ready, &cfg, Ok(materials)), out),
        call_ensures(PcrCreate::to_json, (&pcr,), json),
        pcr.api_version@ == "certificates.k8s.io/v1beta1"@,
        pcr.kind@ == "PodCertificateRequest"@,
        pcr.metadata.generate_name@ == "ztunnel-"@,
        pcr.metadata.namespace@ == ready.pod.namespace@,
        pcr.spec.signer_name@ == cfg.signer_name@,
        pcr.spec.pod_name@ == ready.pod.name@,
        pcr.spec.pod_uid@ == ready.pod.uid@,
        pcr.spec.service_account_name@ == ready.id->service_account@,
        pcr.spec.service_account_uid@ == ready.service_account_uid@,
        pcr.spec.node_name@ == cfg.node_name@,
        pcr.spec.node_uid@ == ready.node_uid@,
        pcr.spec.max_expiration_seconds == cfg.max_expiration_seconds,
        pcr.spec.pkix_public_key@ == base64_text(materials.pkix_public_key_der@),
        pcr.spec.proof_of_possession@ == base64_text(materials.proof_of_possession@),
        pcr.spec.stub_pkcs10_request@ == base64_text(materials.csr_der@),
    ensures
        out is Ok,
        ({
            let (next, call) = out->Ok_0;
            &&& call.method == Method::Post
            &&& call.path@ == "/apis/certificates.k8s.io/v1beta1/namespaces/"@
                + ready.pod.namespace@ + "/podcertificaterequests"@
            &&& call.body is Some
            &&& call.body->0@ == json@
            &&& same_parts(next.id, ready.id)
            &&& next.namespace@ == ready.pod.namespace@
            &&& next.private_key_pem@ == materials.private_key_pem@
        }),
{
    let (next, call) = out->Ok_0;
    assert(next.id@ == ready.id@);
    assert(pcr@ == pcr_for(
        cfg@,
        ready.id@,
        ready.pod@,
        ready.service_account_uid@,
        ready.node_uid@,
        materials,
    ));
    assert(call@.body is Some);
    assert(call@.path == pcrs_path(ready.pod@.namespace));
    lemma_pcrs_path(ready.pod@.namespace);
}

/// The two parts of the path in one.
proof fn lemma_pcrs_path(namespace: Seq<char>)
    ensures
        pcrs_path(namespace) == "/apis/certificates.k8s.io/v1beta1/namespaces/"@ + namespace
            + "/podcertificaterequests"@,
{
    reveal_strlit("/apis/certificates.k8s.io/v1beta1/namespaces/");
    reveal_strlit("/apis/certificates.k8s.io/v1beta1");
    reveal_strlit("/namespaces/");
    assert("/apis/certificates.k8s.io/v1beta1/namespaces/"@
        =~= "/apis/certificates.k8s.io/v1beta1"@ + "/namespaces/"@);
}

/// A failure to make the materials ends the matter and is handed on.
pub proof fn law_without_materials_nothing_is_created(
    ready: Ready,
    cfg: PcrConfig,
    why: tls::Error,
    out: Result<(Creation, KubeCall), Error>,
)
    requires
        call_ensures(Ready::request_with, (ready, &cfg, Err(why)), out),
    ensures
        out is Err,
        out->Err_0 is Signing,
        out->Err_0->Signing_0@ == why@,
{
}

/// The materials in the request are those of one generated key: the proof is its signature
/// over the whole of the pod's UID, the certificate signing request is for the identity's
/// URI and no subject, and the private key that is kept back is that very key.
pub proof fn law_the_request_is_made_with_one_generated_key(
    ready: Ready,
    cfg: PcrConfig,
    out: Result<(Creation, KubeCall), Error>,
)
    requires
        call_ensures(Ready::request, (ready, &cfg), out),
    ensures
        out is Ok ==> exists|materials: PcrMaterials, key: Seq<u8>|
            {
                let (next, call) = out->Ok_0;
                let uri = "spiffe://"@ + ready.id->trust_domain@ + "/ns/"@ + ready.id->namespace@
                    + "/sa/"@ + ready.id->service_account@;
                &&& is_ring_key(key)
                &&& is_signature_by(
                    materials.proof_of_possession@,
                    key,
                    encode_utf8(ready.pod.uid@),
                )
                &&& materials.pkix_public_key_der@ == public_key_info_of(key)
                &&& request_can_give(Ok(materials.csr_der@), key, Seq::empty(), seq![uri])
                &&& #[trigger] is_private_key_pem(materials.private_key_pem@, key)
                &&& next.private_key_pem@ == materials.private_key_pem@
                &&& is_creation(ready, cfg@, materials, next, call@)
            },
        out is Err ==> out->Err_0 is Signing,
        !is_ascii_chars(
            "spiffe://"@ + ready.id->trust_domain@ + "/ns/"@ + ready.id->namespace@ + "/sa/"@
                + ready.id->service_account@,
        ) ==> out is Err,
{
    if out is Ok {
        let (next, call) = out->Ok_0;
        let (materials, key) = choose|materials: PcrMaterials, key: Seq<u8>|
            {
                &&& is_ring_key(key)
                &&& #[trigger] materials_of_key(
                    materials,
                    key,
                    spiffe_uri(ready.id@),
                    encode_utf8(ready.pod@.uid),
                )
                &&& is_creation(ready, cfg@, materials, next, call@)
            };
        let uri = "spiffe://"@ + ready.id->trust_domain@ + "/ns/"@ + ready.id->namespace@ + "/sa/"@
            + ready.id->service_account@;
        assert(request_can_give(Ok(materials.csr_der@), key, Seq::empty(), seq![uri]));
        assert(is_private_key_pem(materials.private_key_pem@, key));
    }
}

/// The name of the request is the one in an answer with success, and the clock starts at
/// the time given. Another answer, or one without a name, is an error.
pub proof fn law_the_created_request_is_polled_under_its_name(
    creation: Creation,
    reply: Reply<PcrObject>,
    now: u64,
    out: Result<Polling, Error>,
)
    requires
        call_ensures(Creation::created, (creation, reply, now), out),
    ensures
        out is Ok <==> 200 <= reply.status <= 299 && reply.parsed is Ok
            && reply.parsed->Ok_0.metadata.name is Some,
        out matches Ok(next) ==> {
            &&& next.name@ == reply.parsed->Ok_0.metadata.name->0@
            &&& next.namespace@ == creation.namespace@
            &&& next.private_key_pem@ == creation.private_key_pem@
            &&& next.started == now
            &&& same_parts(next.id, creation.id)
        },
        out is Err ==> out->Err_0 is Spiffe,
        reply.status < 200 || reply.status > 299 ==> out->Err_0->Spiffe_0@ == "create PCR ns="@
            + creation.namespace@ + ": status "@ + status_text(reply.status) + ", body "@
            + read_lossily(reply.body@),
        out is Err && 200 <= reply.status <= 299 ==> out->Err_0->Spiffe_0@ == match reply.parsed {
            Ok(_) => "created PCR has no name"@,
            Err(why) => "parsing "@ + "created PCR"@ + ": "@ + why@,
        },
{
    if let Ok(next) = out {
        assert(next.id@ == creation.id@);
    }
}

/// A look at a request reads that request, by its namespace and its name.
pub proof fn law_a_look_reads_the_request(polling: Polling, call: KubeCall)
    requires
        call_ensures(Polling::call, (&polling,), call),
    ensures
        call.method == Method::Get,
        call.body is None,
        call.path@ == "/apis/certificates.k8s.io/v1beta1/namespaces/"@ + polling.namespace@
            + "/podcertificaterequests"@ + "/"@ + polling.name@,
{
    assert(call@.body is None);
    assert(call@.path == pcr_path(polling.namespace@, polling.name@));
    lemma_pcrs_path(polling.namespace@);
}

/// A condition of type `Denied` or `Failed` ends the matter, whatever its status, its
/// reason and its message are and whatever else the status of the request holds. The first
/// such condition is reported, with its message.
pub proof fn law_the_first_refusal_is_reported(
    request: &str,
    status: PcrStatus,
    k: int,
    out: Result<Option<String>, Error>,
)
    requires
        call_ensures(decide, (request, Some(status)), out),
        0 <= k < status.conditions@.len(),
        status.conditions@[k].type_@ == "Denied"@ || status.conditions@[k].type_@ == "Failed"@,
        forall|j: int|
            0 <= j < k ==> (#[trigger] status.conditions@[j]).type_@ != "Denied"@
                && status.conditions@[j].type_@ != "Failed"@,
    ensures
        out is Err,
        out->Err_0 is Spiffe,
        out->Err_0->Spiffe_0@ == "PCR "@ + request@ + (if status.conditions@[k].type_@ == "Denied"@ {
            " denied: "@
        } else {
            " failed: "@
        }) + (if status.conditions@[k].message is Some {
            status.conditions@[k].message->0@
        } else {
            "(no message)"@
        }),
{
    let conditions = status.conditions@;
    assert(is_first_refusing(conditions, k));
    let first = choose|i: int| is_first_refusing(conditions, i);
    assert(first == k) by {
        if first < k {
            assert(conditions[first].type_@ != "Denied"@);
        }
    }
}

/// A status with a condition of type `Denied` or `Failed` gives an error; one without gives
/// the certificates as they stand, once there are any. A request without a status is
/// undecided.
pub proof fn law_the_status_decides(
    request: &str,
    status: Option<PcrStatus>,
    out: Result<Option<String>, Error>,
)
    requires
        call_ensures(decide, (request, status), out),
    ensures
        out is Err <==> status is Some && exists|k: int|
            {
                &&& 0 <= k < status->0.conditions@.len()
                &&& (#[trigger] status->0.conditions@[k]).type_@ == "Denied"@
                    || status->0.conditions@[k].type_@ == "Failed"@
            },
        status is None ==> out is Ok && out->Ok_0 is None,
        status is Some && out is Ok ==> {
            &&& out->Ok_0 is None <==> status->0.certificate_chain@.len() == 0
            &&& out->Ok_0 is Some ==> out->Ok_0->0@ == status->0.certificate_chain@
        },
{
    if let Some(known) = status {
        let conditions = known.conditions@;
        if exists|k: int|
            {
                &&& 0 <= k < conditions.len()
                &&& (#[trigger] conditions[k]).type_@ == "Denied"@ || conditions[k].type_@
                    == "Failed"@
            } {
            let k = choose|k: int|
                {
                    &&& 0 <= k < conditions.len()
                    &&& (#[trigger] conditions[k]).type_@ == "Denied"@ || conditions[k].type_@
                        == "Failed"@
                };
            lemma_some_first_refusing(conditions, k);
        } else if out is Err {
            let first = choose|i: int| is_first_refusing(conditions, i);
            assert(conditions[first].type_@ == "Denied"@ || conditions[first].type_@ == "Failed"@);
        }
    }
}

/// A look goes by what [`decide`] reads from an answer with success. A refusal is reported.
/// While the request is undecided, another look is due, with nothing changed, until a
/// minute has passed since polling started; then the time is up.
pub proof fn law_a_look_goes_by_the_decision(
    polling: Polling,
    reply: Reply<PcrObject>,
    now: u64,
    request: &str,
    decided: Result<Option<String>, Error>,
    out: Result<Poll, Error>,
)
    requires
        call_ensures(Polling::polled, (polling, reply, now), out),
        200 <= reply.status <= 299,
        reply.parsed is Ok,
        request@ == polling.namespace@ + "/"@ + polling.name@,
        call_ensures(decide, (request, reply.parsed->Ok_0.status), decided),
    ensures
        decided is Err ==> out is Err && out->Err_0@ == decided->Err_0@,
        decided is Ok && decided->Ok_0 is None && now - polling.started >= 60_000_000_000
            ==> out is Err && out->Err_0 is Spiffe && out->Err_0->Spiffe_0@
            == "timed out waiting for PCR "@ + request@ + " status"@,
        decided is Ok && decided->Ok_0 is None && now - polling.started < 60_000_000_000
            ==> out is Ok && out->Ok_0 is Again && out->Ok_0->Again_0 == polling,
{
}

/// Where the decision gives certificates, the look gives them, however late: the first that
/// [`split_pem_certs`] finds is the leaf and the others are the chain, in order, beside the
/// private key that was kept back. Where it finds none, the answer was empty.
pub proof fn law_certificates_are_taken_as_they_come(
    polling: Polling,
    reply: Reply<PcrObject>,
    now: u64,
    request: &str,
    decided: Result<Option<String>, Error>,
    chain: &str,
    certs: Vec<String>,
    out: Result<Poll, Error>,
)
    requires
        call_ensures(Polling::polled, (polling, reply, now), out),
        200 <= reply.status <= 299,
        reply.parsed is Ok,
        request@ == polling.namespace@ + "/"@ + polling.name@,
        call_ensures(decide, (request, reply.parsed->Ok_0.status), decided),
        decided is Ok && decided->Ok_0 is Some,
        chain@ == decided->Ok_0->0@,
        call_ensures(split_pem_certs, (chain,), certs),
    ensures
        certs@.len() == 0 ==> out is Err && out->Err_0 is EmptyResponse && same_parts(
            out->Err_0->EmptyResponse_0,
            polling.id,
        ),
        certs@.len() > 0 ==> {
            let issued = out->Ok_0->Done_0;
            &&& out is Ok
            &&& out->Ok_0 is Done
            &&& same_parts(issued.id, polling.id)
            &&& issued.private_key_pem@ == polling.private_key_pem@
            &&& issued.leaf@ == certs@[0]@
            &&& same_texts(issued.chain@, certs@.drop_first())
        },
{
    let blocks = texts(certs@);
    assert(blocks.len() == certs@.len());
    if certs@.len() > 0 {
        let issued = out->Ok_0->Done_0;
        assert(issued.id@ == polling.id@);
        assert(blocks[0] == certs@[0]@);
        assert(blocks.drop_first() =~= texts(certs@.drop_first()));
        lemma_same_texts(issued.chain@, certs@.drop_first());
    } else {
        assert(out->Err_0@ == ErrorView::EmptyResponse(polling.id@));
    }
}

/// An answer without success, or one that could not be parsed, ends the matter.
pub proof fn law_a_faulty_look_ends_the_matter(
    polling: Polling,
    reply: Reply<PcrObject>,
    now: u64,
    out: Result<Poll, Error>,
)
    requires
        call_ensures(Polling::polled, (polling, reply, now), out),
        reply.status < 200 || reply.status > 299 || reply.parsed is Err,
    ensures
        out is Err,
        out->Err_0 is Spiffe,
        reply.status < 200 || reply.status > 299 ==> out->Err_0->Spiffe_0@ == "get PCR "@ + (
        polling.namespace@ + "/"@ + polling.name@) + ": status "@ + status_text(reply.status)
            + ", body "@ + read_lossily(reply.body@),
        200 <= reply.status <= 299 ==> out->Err_0->Spiffe_0@ == "parsing "@ + ("PCR "@ + (
        polling.namespace@ + "/"@ + polling.name@)) + ": "@ + reply.parsed->Err_0@,
{
}

/// A loaded certificate is handed out exactly if the identity in it is the one that was
/// asked for, in trust domain, namespace and service account. A certificate for another
/// identity, or for none, is refused, and so is one that could not be loaded.
pub proof fn law_only_a_certificate_for_the_identity_is_handed_out<C>(
    issued: Issued,
    loaded: Result<(C, Option<Identity>), tls::Error>,
    out: Result<C, Error>,
)
    requires
        call_ensures(Issued::confirm::<C>, (&issued, loaded), out),
    ensures
        out is Ok <==> {
            &&& loaded is Ok
            &&& loaded->Ok_0.1 is Some
            &&& loaded->Ok_0.1->0->trust_domain@ == issued.id->trust_domain@
            &&& loaded->Ok_0.1->0->namespace@ == issued.id->namespace@
            &&& loaded->Ok_0.1->0->service_account@ == issued.id->service_account@
        },
        out is Ok ==> out->Ok_0 == loaded->Ok_0.0,
        out is Err && loaded is Ok ==> out->Err_0 is SanError && same_parts(
            out->Err_0->SanError_0,
            issued.id,
        ),
        loaded is Err ==> out->Err_0 is Signing && out->Err_0->Signing_0@ == loaded->Err_0@,
{
    if out is Err && loaded is Ok {
        assert(out->Err_0@ == ErrorView::SanError(issued.id@));
    }
}

/// Looks lie half a second apart, for a minute.
pub proof fn law_a_request_is_watched_for_a_minute(started: u64, now: u64)
    ensures
        POLL_INTERVAL_MILLIS == 500,
        POLL_TIMEOUT_NANOS == 60_000_000_000,
        timed_out(started, now) <==> now >= started + 60_000_000_000,
{
}

} // verus!
