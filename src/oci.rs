use vstd::prelude::*;

use crate::error::VmError;

verus! {

/// Media type of a QCOW2 disk stored as an OCI artifact layer.
pub const QCOW2_LAYER_MEDIA_TYPE: &'static str = "application/vnd.cloudnebula.qcow2.layer.v1";

/// A parsed OCI image reference.
#[verifier::external_type_specification]
#[verifier::external_body]
pub struct ExReference(oci_client::Reference);

/// How to authenticate to a registry.
#[derive(Debug, Clone)]
pub enum RegistryCredentials {
    Anonymous,
    Basic { username: String, password: String },
}

/// Relies on oci_client::Reference::registry: the registry host of a reference.
#[verifier::external_body]
fn reference_registry(reference: &oci_client::Reference) -> (r: String) {
    reference.registry().to_owned()
}

/// The credentials for `registry`: the GitHub token, as user `_token`, for
/// `ghcr.io` when one is set; anonymous otherwise.
pub fn auth_for_registry(registry: &str, github_token: Option<String>) -> (r: RegistryCredentials)
    ensures
        (registry@ == "ghcr.io"@ && github_token is Some) ==> (r matches RegistryCredentials::Basic {
            username: u,
            password: p,
        } && u@ == "_token"@ && p@ == github_token.unwrap()@),
        !(registry@ == "ghcr.io"@ && github_token is Some) ==> r is Anonymous,
{
    let host = registry.to_owned();
    if host == String::from_str("ghcr.io") {
        match github_token {
            Some(t) => {
                return RegistryCredentials::Basic { username: String::from_str("_token"), password: t };
            },
            None => {},
        }
    }
    RegistryCredentials::Anonymous
}

/// The credentials for pulling `reference`, given the `GITHUB_TOKEN` if set:
/// those that `auth_for_registry` gives for the reference's registry.
pub fn resolve_auth(reference: &oci_client::Reference, github_token: Option<String>) -> (r: RegistryCredentials)
    ensures
        github_token is None ==> r is Anonymous,
        r is Anonymous || (r matches RegistryCredentials::Basic { username: u, password: p } && u@ == "_token"@
            && github_token is Some && p@ == github_token.unwrap()@),
{
    let registry = reference_registry(reference);
    auth_for_registry(registry.as_str(), github_token)
}

/// The QCOW2 data of a pulled artifact: its first layer. An artifact without
/// layers fails with `OciPullFailed` for `reference`.
pub fn first_layer(reference: &str, layers: Vec<Vec<u8>>) -> (r: Result<Vec<u8>, VmError>)
    ensures
        layers@.len() > 0 ==> (r matches Ok(d) && d@ == layers@[0]@),
        layers@.len() == 0 ==> (r matches Err(VmError::OciPullFailed { reference: f, .. }) && f@ == reference@),
{
    let mut layers = layers;
    if layers.len() == 0 {
        return Err(
            VmError::OciPullFailed {
                reference: reference.to_owned(),
                detail: String::from_str("artifact contains no layers"),
            },
        );
    }
    let d = layers.remove(0);
    Ok(d)
}

} // verus!
