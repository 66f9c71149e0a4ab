//! Workload certificates through Kubernetes `PodCertificateRequest` objects.

pub mod config;
pub mod encoding;
pub mod identity;
pub mod issuance;
pub mod json;
pub mod kube;
pub mod pem;
pub mod percent;
pub mod request;
pub mod roots;
pub mod text;
pub mod tls;
