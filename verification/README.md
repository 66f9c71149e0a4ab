# pcr_client

Gets workload certificates from a Kubernetes cluster through `PodCertificateRequest`
objects, acting as the local node by constrained impersonation.

`src/` is the library. Its functions carry contracts that Verus proves:

| Module | Holds |
| --- | --- |
| `config` | where the API server is and what is asked of it |
| `identity` | SPIFFE identities and errors |
| `request` | tokens, requests, answers |
| `roots` | the trusted certificates of the API server |
| `kube` | the objects that are exchanged, and their JSON |
| `issuance` | the steps from an identity to its certificates |
| `tls`, `tls::csr` | keys, certificate signing requests, proofs of possession |
| `pem`, `percent`, `encoding`, `json`, `text` | the formats underneath |

Calls into `base64`, `http`, `rcgen`, `ring`, `rustls`, `rustls-pemfile`, `serde_json` and
a few functions of std stand behind small wrappers whose contracts are believed; the
comment above each says what it claims.

`app/` is ordinary Rust around the library: the environment, files, the HTTPS connection
and the loop that carries out the steps.
