//! Verified core of a container registry gateway that admits manifest
//! traffic according to a project's vulnerability posture.

pub mod policy;
pub mod json;
pub mod oci;
pub mod snyk;
pub mod route;
pub mod configuration;
pub mod oci_proxy;
