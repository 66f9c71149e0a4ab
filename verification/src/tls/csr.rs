//! Certificate signing requests and the materials of a pod certificate request.
//!
//! Keys are ECDSA P-256 and travel as PKCS#8 documents in DER.

use crate::encoding::is_pem_section;
use crate::pem::texts;
use crate::tls::{Error, ErrorView};
use vstd::prelude::*;
use vstd::string::*;
use vstd::utf8::*;

verus! {

/// A certificate signing request and the key that signed it, both in PEM.
pub struct CertSign {
    pub csr: String,
    pub private_key: Vec<u8>,
}

/// What a certificate signing request asks for.
pub struct CsrOptions {
    /// The URI of the one subject alternative name.
    pub san: String,
}

/// Everything that one pod certificate request needs, made from a single key.
pub struct PcrMaterials {
    /// The private key, PKCS#8 in PEM.
    pub private_key_pem: Vec<u8>,
    /// The PKCS#10 certificate signing request in DER.
    pub csr_der: Vec<u8>,
    /// The `SubjectPublicKeyInfo` of the key in DER.
    pub pkix_public_key_der: Vec<u8>,
    /// The ECDSA signature in ASN.1 over the SHA-256 digest of the pod's UID.
    pub proof_of_possession: Vec<u8>,
}

/// What is read off a loaded key.
pub struct KeyTexts {
    /// The key, PKCS#8 in PEM.
    pub pem: String,
    /// Its `SubjectPublicKeyInfo` in DER.
    pub public_key_info: Vec<u8>,
}

/// A signed request in both of its forms.
pub struct SignedRequest {
    pub der: Vec<u8>,
    pub pem: String,
}

/// Why a message could not be signed.
#[derive(Debug)]
pub enum SignFailure {
    /// The key was not accepted.
    Load(String),
    /// The signature could not be made.
    Sign(String),
}

/// `key` is a PKCS#8 document that `ring` can generate for P-256. Each call draws random
/// numbers, so there are many.
pub uninterp spec fn is_ring_key(key: Seq<u8>) -> bool;

/// `key` is a PKCS#8 document that `rcgen` can generate for P-256. Each call draws random
/// numbers, so there are many.
pub uninterp spec fn is_rcgen_key(key: Seq<u8>) -> bool;

/// `message` is one with which `rcgen` can refuse the PKCS#8 document `key` as a P-256 key.
pub uninterp spec fn is_key_refusal(message: Seq<char>, key: Seq<u8>) -> bool;

/// The `SubjectPublicKeyInfo` in DER that `rcgen` gives for the P-256 key of a PKCS#8
/// document.
pub uninterp spec fn public_key_info_of(key: Seq<u8>) -> Seq<u8>;

/// `outcome` is a request in DER that `rcgen` can give for the key of the PKCS#8 document
/// `key`, or a message with which it can fail. `subject` holds the attributes of the
/// subject, each by object identifier and text, and `uris` the subject alternative names.
/// Each call signs anew, so there are many requests.
pub uninterp spec fn request_can_give(
    outcome: Result<Seq<u8>, Seq<char>>,
    key: Seq<u8>,
    subject: Seq<(Seq<u64>, Seq<char>)>,
    uris: Seq<Seq<char>>,
) -> bool;

/// `message` is one with which `ring` can refuse the PKCS#8 document `key` as a P-256 key.
pub uninterp spec fn is_ring_refusal(message: Seq<char>, key: Seq<u8>) -> bool;

/// `signature` is a signature over `message` that `ring` can give with the key of the
/// PKCS#8 document `key`. Each call signs anew, so there are many.
pub uninterp spec fn is_signature_by(
    signature: Seq<u8>,
    key: Seq<u8>,
    message: Seq<u8>,
) -> bool;

/// The object identifiers and the texts of a list of attributes.
pub open spec fn attribute_views(attributes: Seq<(Vec<u64>, String)>) -> Seq<
    (Seq<u64>, Seq<char>),
> {
    attributes.map_values(|a: (Vec<u64>, String)| (a.0@, a.1@))
}

/// The numbers form an object identifier that can be written in DER.
pub open spec fn is_oid(oid: Seq<u64>) -> bool {
    &&& oid.len() >= 2
    &&& oid[0] < 3
    &&& oid[1] < 18446744073709551535
    &&& oid[0] >= 2 || oid[1] < 40
}

/// `i` is the first text of the list that goes beyond ASCII.
pub open spec fn is_first_beyond_ascii(list: Seq<Seq<char>>, i: int) -> bool {
    &&& 0 <= i < list.len()
    &&& !is_ascii_chars(list[i])
    &&& forall|j: int| 0 <= j < i ==> is_ascii_chars(#[trigger] list[j])
}

/// What is said of a URI beyond ASCII.
pub open spec fn ia5_refusal(uri: Seq<char>) -> Seq<char> {
    "Invalid IA5String: '"@ + uri + "'"@
}

/// Calls `EcdsaKeyPair::generate_pkcs8` of `ring` for P-256. Claimed: the document is one
/// that this call can give, and a failure has the one message that `ring` gives to its
/// unspecified error. Which document it is rests on the system's random numbers.
#[verifier::external_body]
fn ring_generate() -> (out: Result<Vec<u8>, String>)
    ensures
        out matches Ok(key) ==> is_ring_key(key@),
        out matches Err(e) ==> e@ == "ring::error::Unspecified"@,
{
    let alg = &ring::signature::ECDSA_P256_SHA256_ASN1_SIGNING;
    ring::signature::EcdsaKeyPair::generate_pkcs8(alg, &ring::rand::SystemRandom::new())
        .map(|document| document.as_ref().to_vec())
        .map_err(|e| e.to_string())
}

/// Calls `KeyPair::generate_for` of `rcgen` for P-256 and hands out the PKCS#8 document
/// that the key pair holds. Claimed: the document is one that this call can give, and a
/// failure is the message of `rcgen`'s unspecified error. Which document it is rests on
/// the system's random numbers. The call panics where random numbers are drawn for the
/// key and then fail for loading it, which no argument decides.
#[verifier::external_body]
fn rcgen_generate() -> (out: Result<Vec<u8>, String>)
    ensures
        out matches Ok(key) ==> is_rcgen_key(key@),
        out matches Err(e) ==> e@ == "Unspecified ring error"@,
{
    rcgen::KeyPair::generate_for(&rcgen::PKCS_ECDSA_P256_SHA256)
        .map(|pair| pair.serialize_der())
        .map_err(|e| e.to_string())
}

/// Calls `KeyPair::from_pkcs8_der_and_sign_algo` of `rcgen` for P-256 and reads the key
/// pair with `serialize_pem` and `subject_public_key_info`. Claimed of success: the PEM
/// text is the `PRIVATE KEY` section of the document, and the public key depends on the
/// document alone. Claimed of failure: the message is one that loading this document can
/// give. Whether loading succeeds also rests on the system's random numbers, so that is
/// left open.
#[verifier::external_body]
fn rcgen_load(key: &[u8]) -> (out: Result<KeyTexts, String>)
    ensures
        out matches Ok(texts) ==> is_pem_section(texts.pem@, "PRIVATE KEY"@, key@),
        out matches Ok(texts) ==> texts.public_key_info@ == public_key_info_of(key@),
        out matches Err(e) ==> is_key_refusal(e@, key@),
{
    let document = rustls::pki_types::PrivatePkcs8KeyDer::from(key);
    rcgen::KeyPair::from_pkcs8_der_and_sign_algo(&document, &rcgen::PKCS_ECDSA_P256_SHA256)
        .map(|pair| KeyTexts {
            pem: pair.serialize_pem(),
            public_key_info: rcgen::PublicKeyData::subject_public_key_info(&pair),
        })
        .map_err(|e| e.to_string())
}

/// Calls `CertificateParams::serialize_request` of `rcgen` with the key and with
/// parameters that hold the attributes as the subject and the URIs as the subject
/// alternative names; the rest of the parameters is `rcgen`'s default, of which nothing
/// goes into a request. Claimed: the first URI beyond ASCII is refused with the given
/// message; a request, or the message of a failure, is one that this key, subject and
/// list of URIs can give; and the PEM text of a request is the `CERTIFICATE REQUEST`
/// section of its DER. Signing rests on the system's random numbers, so success is left
/// open. `rcgen` panics on an attribute whose numbers are no object identifier.
#[verifier::external_body]
fn rcgen_request(key: &[u8], subject: &[(Vec<u64>, String)], uris: &[String]) -> (out: Result<
    SignedRequest,
    String,
>)
    requires
        forall|i: int| 0 <= i < subject@.len() ==> is_oid((#[trigger] subject@[i]).0@),
    ensures
        forall|i: int| #[trigger]
            is_first_beyond_ascii(texts(uris@), i) ==> out is Err && out->Err_0@ == ia5_refusal(
                texts(uris@)[i],
            ),
        out matches Ok(request) ==> request_can_give(
            Ok(request.der@),
            key@,
            attribute_views(subject@),
            texts(uris@),
        ),
        out matches Ok(request) ==> is_pem_section(
            request.pem@,
            "CERTIFICATE REQUEST"@,
            request.der@,
        ),
        out matches Err(e) ==> request_can_give(
            Err(e@),
            key@,
            attribute_views(subject@),
            texts(uris@),
        ),
{
    let request = || -> Result<SignedRequest, rcgen::Error> {
        let mut params = rcgen::CertificateParams::default();
        params.distinguished_name = rcgen::DistinguishedName::new();
        for (oid, value) in subject {
            params.distinguished_name.push(rcgen::DnType::CustomDnType(oid.clone()), value);
        }
        for uri in uris {
            params.subject_alt_names.push(rcgen::SanType::URI(uri.as_str().try_into()?));
        }
        let alg = &rcgen::PKCS_ECDSA_P256_SHA256;
        let pair = rcgen::KeyPair::from_pkcs8_der_and_sign_algo(&key.into(), alg)?;
        let csr = params.serialize_request(&pair)?;
        Ok(SignedRequest { der: csr.der().to_vec(), pem: csr.pem()? })
    };
    request().map_err(|e| e.to_string())
}

/// Calls `EcdsaKeyPair::from_pkcs8` and `EcdsaKeyPair::sign` of `ring` for P-256 with
/// SHA-256 and ASN.1 output. Claimed: a signature is one by that key over that message, a
/// refusal of the key is one that loading this document can give, and a failure to sign
/// has the one message of `ring`'s unspecified error. Both calls rest on the system's
/// random numbers, so success is left open.
#[verifier::external_body]
fn ring_sign(key: &[u8], message: &[u8]) -> (out: Result<Vec<u8>, SignFailure>)
    ensures
        out matches Ok(signature) ==> is_signature_by(signature@, key@, message@),
        out matches Err(SignFailure::Load(e)) ==> is_ring_refusal(e@, key@),
        out matches Err(SignFailure::Sign(e)) ==> e@ == "ring::error::Unspecified"@,
{
    let rng = ring::rand::SystemRandom::new();
    let alg = &ring::signature::ECDSA_P256_SHA256_ASN1_SIGNING;
    let pair = ring::signature::EcdsaKeyPair::from_pkcs8(alg, key, &rng)
        .map_err(|e| SignFailure::Load(e.to_string()))?;
    let signature = pair.sign(&rng, message).map_err(|e| SignFailure::Sign(e.to_string()))?;
    Ok(signature.as_ref().to_vec())
}

/// `der` is a request for the key of the PKCS#8 document `key`, with an empty subject and
/// `uri` as the one subject alternative name.
pub open spec fn is_request_for(der: Seq<u8>, key: Seq<u8>, uri: Seq<char>) -> bool {
    request_can_give(Ok(der), key, Seq::empty(), seq![uri])
}

/// `why` says why there is no request for the key of the PKCS#8 document `key`, with an
/// empty subject and `uri` as the one subject alternative name.
pub open spec fn is_request_refusal(why: Seq<char>, key: Seq<u8>, uri: Seq<char>) -> bool {
    &&& request_can_give(Err(why), key, Seq::empty(), seq![uri])
    &&& !is_ascii_chars(uri) ==> why == ia5_refusal(uri)
}

/// `bytes` is the private key of the PKCS#8 document `key` in PEM.
pub open spec fn is_private_key_pem(bytes: Seq<u8>, key: Seq<u8>) -> bool {
    exists|pem: Seq<char>|
        #[trigger] is_pem_section(pem, "PRIVATE KEY"@, key) && bytes == encode_utf8(pem)
}

/// All of the materials come from the one key of the PKCS#8 document `key`: the private
/// key, its public key, a request for `san` signed by it, and a signature by it over
/// `pod_uid`.
pub open spec fn materials_of_key(
    materials: PcrMaterials,
    key: Seq<u8>,
    san: Seq<char>,
    pod_uid: Seq<u8>,
) -> bool {
    &&& is_private_key_pem(materials.private_key_pem@, key)
    &&& materials.pkix_public_key_der@ == public_key_info_of(key)
    &&& is_request_for(materials.csr_der@, key, san)
    &&& is_signature_by(materials.proof_of_possession@, key, pod_uid)
}

/// `why` says why `rcgen` refused the PKCS#8 document `key`, or a request for it and `san`.
pub open spec fn is_rcgen_failure(why: Seq<char>, key: Seq<u8>, san: Seq<char>) -> bool {
    is_key_refusal(why, key) || is_request_refusal(why, key, san)
}

/// What a failure to make the materials from the PKCS#8 document `key` says: which step
/// failed, and why.
pub open spec fn is_materials_failure(error: ErrorView, key: Seq<u8>, san: Seq<char>) -> bool {
    match error {
        ErrorView::CertificateParseError(text) => {
            ||| text == "sign proof of possession: "@ + "ring::error::Unspecified"@
            ||| exists|why: Seq<char>| #[trigger]
                is_ring_refusal(why, key) && text == "load ECDSA key: "@ + why
        },
        ErrorView::Rcgen(why) => is_rcgen_failure(why, key, san),
    }
}

/// What a failure to make a key and the materials from it says.
pub open spec fn is_pcr_failure(error: ErrorView, san: Seq<char>) -> bool {
    ||| error == ErrorView::CertificateParseError(
        "generate ECDSA P-256 key: "@ + "ring::error::Unspecified"@,
    )
    ||| exists|key: Seq<u8>| #[trigger] is_ring_key(key) && is_materials_failure(error, key, san)
}

/// What a failure to make a key and a request for it says.
pub open spec fn is_csr_failure(error: ErrorView, san: Seq<char>) -> bool {
    ||| error == ErrorView::Rcgen("Unspecified ring error"@)
    ||| exists|key: Seq<u8>| #[trigger]
        is_rcgen_key(key) && error is Rcgen && is_rcgen_failure(error->Rcgen_0, key, san)
}

/// The signed request and the private key come from the one key of the PKCS#8 document
/// `key`, and the request is for `san`.
pub open spec fn cert_sign_of_key(signed: CertSign, key: Seq<u8>, san: Seq<char>) -> bool {
    &&& is_private_key_pem(signed.private_key@, key)
    &&& exists|der: Seq<u8>|
        #[trigger] is_request_for(der, key, san) && is_pem_section(
            signed.csr@,
            "CERTIFICATE REQUEST"@,
            der,
        )
}

/// The request for the key of the PKCS#8 document `key`, with an empty subject and `uri`
/// as the one subject alternative name.
fn request_for(key: &[u8], uri: &str) -> (out: Result<SignedRequest, String>)
    ensures
        match out {
            Ok(request) => {
                &&& is_ascii_chars(uri@)
                &&& is_request_for(request.der@, key@, uri@)
                &&& is_pem_section(request.pem@, "CERTIFICATE REQUEST"@, request.der@)
            },
            Err(e) => is_request_refusal(e@, key@, uri@),
        },
{
    let subject: Vec<(Vec<u64>, String)> = Vec::new();
    let uris: Vec<String> = vec![uri.to_owned()];
    proof {
        assert(attribute_views(subject@) =~= Seq::empty());
        assert(texts(uris@) =~= seq![uri@]);
        assert(!is_ascii_chars(uri@) ==> is_first_beyond_ascii(texts(uris@), 0));
    }
    rcgen_request(key, subject.as_slice(), uris.as_slice())
}

impl CsrOptions {
    /// Makes a fresh P-256 key and a certificate signing request for it, with an empty
    /// subject and the URI as the one subject alternative name.
    pub fn generate(&self) -> (out: Result<CertSign, Error>)
        ensures
            out matches Ok(signed) ==> exists|key: Seq<u8>| #[trigger]
                is_rcgen_key(key) && cert_sign_of_key(signed, key, self.san@),
            out matches Err(e) ==> is_csr_failure(e@, self.san@),
            !is_ascii_chars(self.san@) ==> out is Err,
    {
        match rcgen_generate() {
            Ok(key) => self.generate_with(key.as_slice()),
            Err(e) => Err(Error::Rcgen(e)),
        }
    }

    /// Makes the certificate signing request for the key of the PKCS#8 document `key`.
    pub fn generate_with(&self, key: &[u8]) -> (out: Result<CertSign, Error>)
        ensures
            out matches Ok(signed) ==> cert_sign_of_key(signed, key@, self.san@),
            out matches Err(e) ==> e@ is Rcgen && is_rcgen_failure(
                e@->Rcgen_0,
                key@,
                self.san@,
            ),
            !is_ascii_chars(self.san@) ==> out is Err,
    {
        finish_cert_sign(rcgen_load(key), request_for(key, self.san.as_str()))
    }
}

/// The signed request and its key, as texts. `loaded` is what came of loading the key and
/// `requested` what came of signing the request; the first failure is reported as it is.
pub fn finish_cert_sign(
    loaded: Result<KeyTexts, String>,
    requested: Result<SignedRequest, String>,
) -> (out: Result<CertSign, Error>)
    ensures
        match (loaded, requested) {
            (Err(e), _) => out is Err && out->Err_0@ == ErrorView::Rcgen(e@),
            (Ok(_), Err(e)) => out is Err && out->Err_0@ == ErrorView::Rcgen(e@),
            (Ok(texts), Ok(request)) => {
                &&& out is Ok
                &&& out->Ok_0.csr@ == request.pem@
                &&& out->Ok_0.private_key@ == encode_utf8(texts.pem@)
            },
        },
{
    match (loaded, requested) {
        (Err(e), _) => Err(Error::Rcgen(e)),
        (Ok(_), Err(e)) => Err(Error::Rcgen(e)),
        (Ok(texts), Ok(request)) => Ok(
            CertSign { csr: request.pem, private_key: texts.pem.as_str().as_bytes_vec() },
        ),
    }
}

/// Makes everything that a pod certificate request needs in one go, from a fresh key.
///
/// `pod_uid` is the UID of the pod that the certificate is for; the proof of possession
/// is a signature over its bytes.
pub fn generate_for_pcr(san: &str, pod_uid: &[u8]) -> (out: Result<PcrMaterials, Error>)
    ensures
        out matches Ok(materials) ==> exists|key: Seq<u8>|
            {
                &&& is_ring_key(key)
                &&& #[trigger] materials_of_key(materials, key, san@, pod_uid@)
                &&& is_signature_by(materials.proof_of_possession@, key, pod_uid@)
                &&& materials.pkix_public_key_der@ == public_key_info_of(key)
                &&& request_can_give(Ok(materials.csr_der@), key, Seq::empty(), seq![san@])
            },
        out matches Err(e) ==> is_pcr_failure(e@, san@),
        !is_ascii_chars(san@) ==> out is Err,
{
    match generated_key(ring_generate()) {
        Ok(key) => materials_from_key(key.as_slice(), san, pod_uid),
        Err(e) => Err(e),
    }
}

/// The key that was generated, or what to report where none was.
pub fn generated_key(generated: Result<Vec<u8>, String>) -> (out: Result<Vec<u8>, Error>)
    ensures
        match generated {
            Ok(key) => out == Ok::<Vec<u8>, Error>(key),
            Err(e) => out is Err && out->Err_0@ == ErrorView::CertificateParseError(
                "generate ECDSA P-256 key: "@ + e@,
            ),
        },
{
    match generated {
        Ok(key) => Ok(key),
        Err(e) => Err(
            Error::CertificateParseError(
                "generate ECDSA P-256 key: ".to_owned().concat(e.as_str()),
            ),
        ),
    }
}

/// Makes the materials from the key of the PKCS#8 document `key`: that one key is behind
/// the request, the public key and the proof of possession.
pub fn materials_from_key(key: &[u8], san: &str, pod_uid: &[u8]) -> (out: Result<
    PcrMaterials,
    Error,
>)
    ensures
        out matches Ok(materials) ==> materials_of_key(materials, key@, san@, pod_uid@),
        out matches Ok(materials) ==> {
            &&& is_signature_by(materials.proof_of_possession@, key@, pod_uid@)
            &&& materials.pkix_public_key_der@ == public_key_info_of(key@)
            &&& request_can_give(Ok(materials.csr_der@), key@, Seq::empty(), seq![san@])
        },
        out matches Err(e) ==> is_materials_failure(e@, key@, san@),
        !is_ascii_chars(san@) ==> out is Err && out->Err_0@ is Rcgen,
{
    finish_materials(rcgen_load(key), request_for(key, san), ring_sign(key, pod_uid))
}

/// Puts the materials together. `loaded` is what came of loading the key, `requested` what
/// came of signing the request, and `proof_of_possession` what came of signing the proof;
/// the first failure is reported.
pub fn finish_materials(
    loaded: Result<KeyTexts, String>,
    requested: Result<SignedRequest, String>,
    proof_of_possession: Result<Vec<u8>, SignFailure>,
) -> (out: Result<PcrMaterials, Error>)
    ensures
        match (loaded, requested, proof_of_possession) {
            (Err(e), _, _) => out is Err && out->Err_0@ == ErrorView::Rcgen(e@),
            (Ok(_), Err(e), _) => out is Err && out->Err_0@ == ErrorView::Rcgen(e@),
            (Ok(_), Ok(_), Err(SignFailure::Load(e))) => out is Err && out->Err_0@
                == ErrorView::CertificateParseError("load ECDSA key: "@ + e@),
            (Ok(_), Ok(_), Err(SignFailure::Sign(e))) => out is Err && out->Err_0@
                == ErrorView::CertificateParseError("sign proof of possession: "@ + e@),
            (Ok(texts), Ok(request), Ok(signature)) => {
                &&& out is Ok
                &&& out->Ok_0.private_key_pem@ == encode_utf8(texts.pem@)
                &&& out->Ok_0.csr_der@ == request.der@
                &&& out->Ok_0.pkix_public_key_der@ == texts.public_key_info@
                &&& out->Ok_0.proof_of_possession@ == signature@
            },
        },
{
    match (loaded, requested, proof_of_possession) {
        (Err(e), _, _) => Err(Error::Rcgen(e)),
        (Ok(_), Err(e), _) => Err(Error::Rcgen(e)),
        (Ok(_), Ok(_), Err(SignFailure::Load(e))) => Err(
            Error::CertificateParseError("load ECDSA key: ".to_owned().concat(e.as_str())),
        ),
        (Ok(_), Ok(_), Err(SignFailure::Sign(e))) => Err(
            Error::CertificateParseError(
                "sign proof of possession: ".to_owned().concat(e.as_str()),
            ),
        ),
        (Ok(texts), Ok(request), Ok(signature)) => Ok(
            PcrMaterials {
                private_key_pem: texts.pem.as_str().as_bytes_vec(),
                csr_der: request.der,
                pkix_public_key_der: texts.public_key_info,
                proof_of_possession: signature,
            },
        ),
    }
}

/// All materials are of the given key: the proof is its signature over the whole of the
/// pod's UID, the public key is its own, the request is signed by it for the one URI and
/// no subject, and the private key is the document itself in PEM.
pub proof fn law_materials_are_of_the_given_key(
    key: &[u8],
    san: &str,
    pod_uid: &[u8],
    out: Result<PcrMaterials, Error>,
)
    requires
        call_ensures(materials_from_key, (key, san, pod_uid), out),
    ensures
        out matches Ok(materials) ==> {
            &&& is_signature_by(materials.proof_of_possession@, key@, pod_uid@)
            &&& materials.pkix_public_key_der@ == public_key_info_of(key@)
            &&& request_can_give(Ok(materials.csr_der@), key@, Seq::empty(), seq![san@])
            &&& exists|pem: Seq<char>|
                materials.private_key_pem@ == encode_utf8(pem) && #[trigger] is_pem_section(
                    pem,
                    "PRIVATE KEY"@,
                    key@,
                )
        },
        !is_ascii_chars(san@) ==> out is Err && out->Err_0 is Rcgen,
{
}

/// All materials are of one key that was generated: the proof is its signature over the
/// whole of the pod's UID, the public key is its own, the request is signed by it for the
/// one URI and no subject, and the private key is the document itself in PEM.
pub proof fn law_materials_are_of_one_generated_key(
    san: &str,
    pod_uid: &[u8],
    out: Result<PcrMaterials, Error>,
)
    requires
        call_ensures(generate_for_pcr, (san, pod_uid), out),
    ensures
        out matches Ok(materials) ==> exists|key: Seq<u8>|
            {
                &&& #[trigger] is_ring_key(key)
                &&& is_signature_by(materials.proof_of_possession@, key, pod_uid@)
                &&& materials.pkix_public_key_der@ == public_key_info_of(key)
                &&& request_can_give(Ok(materials.csr_der@), key, Seq::empty(), seq![san@])
                &&& exists|pem: Seq<char>|
                    materials.private_key_pem@ == encode_utf8(pem) && #[trigger] is_pem_section(
                        pem,
                        "PRIVATE KEY"@,
                        key,
                    )
            },
        !is_ascii_chars(san@) ==> out is Err,
{
}

/// Materials of a key are its own in every part, whatever the length of the pod's UID.
pub proof fn law_materials_of_a_key_are_its_own(
    materials: PcrMaterials,
    key: Seq<u8>,
    san: Seq<char>,
    pod_uid: Seq<u8>,
)
    requires
        materials_of_key(materials, key, san, pod_uid),
    ensures
        is_signature_by(materials.proof_of_possession@, key, pod_uid),
        materials.pkix_public_key_der@ == public_key_info_of(key),
        request_can_give(Ok(materials.csr_der@), key, Seq::empty(), seq![san]),
        exists|pem: Seq<char>|
            materials.private_key_pem@ == encode_utf8(pem) && #[trigger] is_pem_section(
                pem,
                "PRIVATE KEY"@,
                key,
            ),
{
}

/// A failure to make the materials names the step that failed and hands on the reason.
pub proof fn law_a_failure_of_the_materials_says_why(
    key: &[u8],
    san: &str,
    pod_uid: &[u8],
    out: Result<PcrMaterials, Error>,
)
    requires
        call_ensures(materials_from_key, (key, san, pod_uid), out),
    ensures
        out matches Err(Error::Rcgen(why)) ==> {
            ||| is_key_refusal(why@, key@)
            ||| request_can_give(Err(why@), key@, Seq::empty(), seq![san@])
        },
        out matches Err(Error::Rcgen(why)) ==> !is_ascii_chars(san@) ==> {
            ||| is_key_refusal(why@, key@)
            ||| why@ == "Invalid IA5String: '"@ + san@ + "'"@
        },
        out matches Err(Error::CertificateParseError(text)) ==> {
            ||| text@ == "sign proof of possession: "@ + "ring::error::Unspecified"@
            ||| exists|why: Seq<char>| #[trigger]
                is_ring_refusal(why, key@) && text@ == "load ECDSA key: "@ + why
        },
{
}

/// The signed request is for the one URI and no subject, signed by the given key, and the
/// private key is that key in PEM.
pub proof fn law_a_signed_request_is_of_the_given_key(
    options: CsrOptions,
    key: &[u8],
    out: Result<CertSign, Error>,
)
    requires
        call_ensures(CsrOptions::generate_with, (&options, key), out),
    ensures
        out matches Ok(signed) ==> {
            &&& exists|pem: Seq<char>|
                signed.private_key@ == encode_utf8(pem) && #[trigger] is_pem_section(
                    pem,
                    "PRIVATE KEY"@,
                    key@,
                )
            &&& exists|der: Seq<u8>|
                {
                    &&& request_can_give(Ok(der), key@, Seq::empty(), seq![options.san@])
                    &&& #[trigger] is_pem_section(signed.csr@, "CERTIFICATE REQUEST"@, der)
                }
        },
        out matches Err(e) ==> e is Rcgen && {
            ||| is_key_refusal(e->Rcgen_0@, key@)
            ||| request_can_give(Err(e->Rcgen_0@), key@, Seq::empty(), seq![options.san@])
        },
        !is_ascii_chars(options.san@) ==> out is Err,
{
    if let Ok(signed) = out {
        let der = choose|der: Seq<u8>|
            #[trigger] is_request_for(der, key@, options.san@) && is_pem_section(
                signed.csr@,
                "CERTIFICATE REQUEST"@,
                der,
            );
        assert(is_pem_section(signed.csr@, "CERTIFICATE REQUEST"@, der));
    }
}

/// The signed request is for the one URI and no subject, signed by a key that was
/// generated, and the private key is that key in PEM.
pub proof fn law_a_signed_request_is_of_a_generated_key(
    options: CsrOptions,
    out: Result<CertSign, Error>,
)
    requires
        call_ensures(CsrOptions::generate, (&options,), out),
    ensures
        out matches Ok(signed) ==> exists|key: Seq<u8>, der: Seq<u8>|
            {
                &&& is_rcgen_key(key)
                &&& #[trigger] request_can_give(Ok(der), key, Seq::empty(), seq![options.san@])
                &&& is_pem_section(signed.csr@, "CERTIFICATE REQUEST"@, der)
                &&& exists|pem: Seq<char>|
                    signed.private_key@ == encode_utf8(pem) && #[trigger] is_pem_section(
                        pem,
                        "PRIVATE KEY"@,
                        key,
                    )
            },
        out matches Err(e) ==> e is Rcgen,
        !is_ascii_chars(options.san@) ==> out is Err,
{
    if let Ok(signed) = out {
        let key = choose|key: Seq<u8>| #[trigger]
            is_rcgen_key(key) && cert_sign_of_key(signed, key, options.san@);
        let der = choose|der: Seq<u8>|
            #[trigger] is_request_for(der, key, options.san@) && is_pem_section(
                signed.csr@,
                "CERTIFICATE REQUEST"@,
                der,
            );
        assert(request_can_give(Ok(der), key, Seq::empty(), seq![options.san@]));
    }
}

/// The texts of the key and of the request are handed on as they are; the first failure
/// is reported as it is.
pub proof fn law_a_signed_request_is_put_together(
    loaded: Result<KeyTexts, String>,
    requested: Result<SignedRequest, String>,
    out: Result<CertSign, Error>,
)
    requires
        call_ensures(finish_cert_sign, (loaded, requested), out),
    ensures
        out is Ok <==> loaded is Ok && requested is Ok,
        out is Ok ==> out->Ok_0.csr@ == requested->Ok_0.pem@,
        out is Ok ==> out->Ok_0.private_key@ == encode_utf8(loaded->Ok_0.pem@),
        out is Err ==> out->Err_0 is Rcgen && out->Err_0->Rcgen_0@ == if loaded is Err {
            loaded->Err_0@
        } else {
            requested->Err_0@
        },
{
}

/// The key, the request and the proof are handed on as they are; the first failure is
/// reported with its reason.
pub proof fn law_materials_are_put_together(
    loaded: Result<KeyTexts, String>,
    requested: Result<SignedRequest, String>,
    proof_of_possession: Result<Vec<u8>, SignFailure>,
    out: Result<PcrMaterials, Error>,
)
    requires
        call_ensures(finish_materials, (loaded, requested, proof_of_possession), out),
    ensures
        out is Ok <==> loaded is Ok && requested is Ok && proof_of_possession is Ok,
        out matches Ok(materials) ==> {
            &&& materials.private_key_pem@ == encode_utf8(loaded->Ok_0.pem@)
            &&& materials.pkix_public_key_der@ == loaded->Ok_0.public_key_info@
            &&& materials.csr_der@ == requested->Ok_0.der@
            &&& materials.proof_of_possession@ == proof_of_possession->Ok_0@
        },
        loaded is Err ==> out->Err_0 is Rcgen && out->Err_0->Rcgen_0@ == loaded->Err_0@,
        loaded is Ok && requested is Err ==> out->Err_0 is Rcgen && out->Err_0->Rcgen_0@
            == requested->Err_0@,
        loaded is Ok && requested is Ok ==> match proof_of_possession {
            Ok(_) => true,
            Err(SignFailure::Load(why)) => out->Err_0 is CertificateParseError
                && out->Err_0->CertificateParseError_0@ == "load ECDSA key: "@ + why@,
            Err(SignFailure::Sign(why)) => out->Err_0 is CertificateParseError
                && out->Err_0->CertificateParseError_0@ == "sign proof of possession: "@ + why@,
        },
{
}

/// A key that was generated is handed on as it is, and a failure is reported.
pub proof fn law_a_generated_key_is_handed_on(
    generated: Result<Vec<u8>, String>,
    out: Result<Vec<u8>, Error>,
)
    requires
        call_ensures(generated_key, (generated,), out),
    ensures
        out is Ok <==> generated is Ok,
        out is Ok ==> out->Ok_0@ == generated->Ok_0@,
        out is Err ==> out->Err_0 is CertificateParseError
            && out->Err_0->CertificateParseError_0@ == "generate ECDSA P-256 key: "@
            + generated->Err_0@,
{
}

/// A failure to make a key and the materials from it names the step that failed and hands
/// on the reason.
pub proof fn law_a_failure_with_a_generated_key_says_why(
    san: &str,
    pod_uid: &[u8],
    out: Result<PcrMaterials, Error>,
)
    requires
        call_ensures(generate_for_pcr, (san, pod_uid), out),
    ensures
        out matches Err(Error::Rcgen(why)) ==> exists|key: Seq<u8>| #[trigger]
            is_ring_key(key) && (is_key_refusal(why@, key) || request_can_give(
                Err(why@),
                key,
                Seq::empty(),
                seq![san@],
            )),
        out matches Err(Error::CertificateParseError(text)) ==> {
            ||| text@ == "generate ECDSA P-256 key: "@ + "ring::error::Unspecified"@
            ||| text@ == "sign proof of possession: "@ + "ring::error::Unspecified"@
            ||| exists|key: Seq<u8>, why: Seq<char>|
                is_ring_key(key) && #[trigger] is_ring_refusal(why, key) && text@
                    == "load ECDSA key: "@ + why
        },
{
    if let Err(e) = out {
        if exists|key: Seq<u8>| #[trigger] is_ring_key(key) && is_materials_failure(e@, key, san@) {
            let key = choose|key: Seq<u8>| #[trigger]
                is_ring_key(key) && is_materials_failure(e@, key, san@);
            assert(is_ring_key(key));
        }
    }
}

} // verus!
