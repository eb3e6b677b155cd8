//! Decentralized-identifier documents for a node: a DID derived from the
//! node's public key, with its verification method and service endpoint.

use vstd::prelude::*;
use vstd::string::StringExecFns;

use crate::text;

verus! {

/// The hexadecimal BLAKE3 digest of a string's bytes; a function of the
/// input alone.
pub uninterp spec fn blake3_hex_of(data: Seq<char>) -> Seq<char>;

/// Relies on `blake3::hash` (and `Hash::to_hex` for rendering): the digest
/// of the input bytes alone, as 64 lowercase hexadecimal characters.
#[verifier::external_body]
fn blake3_hex(data: &str) -> (r: String)
    ensures
        r@ == blake3_hex_of(data@),
        r@.len() == 64,
{
    String::from_str(blake3::hash(data.as_bytes()).to_hex().as_str())
}

/// A key-verification entry of a DID document.
#[derive(Debug)]
pub struct VerificationMethod {
    pub id: String,
    pub method_type: String,
    pub controller: String,
    pub key_data: Vec<(String, String)>,
}

/// A service entry of a DID document.
#[derive(Debug)]
pub struct ServiceEndpoint {
    pub id: String,
    pub service_type: String,
    pub service_endpoint: String,
}

/// A decentralized-identifier document.
#[derive(Debug)]
pub struct DidDocument {
    pub context: String,
    pub id: String,
    pub verification_method: Vec<VerificationMethod>,
    pub authentication: Vec<String>,
    pub service: Vec<ServiceEndpoint>,
}

/// Why a DID cannot be used.
#[derive(Clone, Copy, Debug, PartialEq, Eq, Structural)]
pub enum TransportError {
    /// The service implies external control of the actor.
    AENGAViolation,
    /// The value does not have the expected form.
    InvalidFormat,
}

/// The DID bound to a public key.
pub open spec fn spec_did_of(public_key_pem: Seq<char>) -> Seq<char> {
    "did:key:"@ + blake3_hex_of(public_key_pem)
}

/// Builds the DID document of a node: its identifier is derived from the
/// public key's digest; the document carries one verification method
/// holding the key, one authentication reference to it, and one service
/// entry naming the node's public-hub endpoint.
pub fn generate_did_document(
    _profile_id: &str,
    public_key_pem: &str,
    public_hub_endpoint: &str,
) -> (r: DidDocument)
    ensures
        r.context@ == "https://www.w3.org/ns/did/v1"@,
        r.id@ == spec_did_of(public_key_pem@),
        r.verification_method@.len() == 1,
        r.verification_method@[0].id@ == spec_did_of(public_key_pem@) + "#key-1"@,
        r.verification_method@[0].method_type@ == "JsonWebKey2020"@,
        r.verification_method@[0].controller@ == spec_did_of(public_key_pem@),
        r.verification_method@[0].key_data@.len() == 1,
        r.verification_method@[0].key_data@[0].0@ == "publicKeyPem"@,
        r.verification_method@[0].key_data@[0].1@ == public_key_pem@,
        r.authentication@.len() == 1,
        r.authentication@[0]@ == spec_did_of(public_key_pem@) + "#key-1"@,
        r.service@.len() == 1,
        r.service@[0].id@ == spec_did_of(public_key_pem@) + "#ontoCMS"@,
        r.service@[0].service_type@ == "OntoCMS/PublicHub"@,
        r.service@[0].service_endpoint@ == public_hub_endpoint@,
{
    let mut did = String::from_str("did:key:");
    let digest = blake3_hex(public_key_pem);
    did.append(digest.as_str());

    let mut key_id = did.clone();
    key_id.append("#key-1");

    let mut key_data: Vec<(String, String)> = Vec::new();
    key_data.push((String::from_str("publicKeyPem"), String::from_str(public_key_pem)));

    let method = VerificationMethod {
        id: key_id.clone(),
        method_type: String::from_str("JsonWebKey2020"),
        controller: did.clone(),
        key_data,
    };
    let mut verification_method: Vec<VerificationMethod> = Vec::new();
    verification_method.push(method);

    let mut authentication: Vec<String> = Vec::new();
    authentication.push(key_id);

    let mut service_id = did.clone();
    service_id.append("#ontoCMS");
    let endpoint = ServiceEndpoint {
        id: service_id,
        service_type: String::from_str("OntoCMS/PublicHub"),
        service_endpoint: String::from_str(public_hub_endpoint),
    };
    let mut service: Vec<ServiceEndpoint> = Vec::new();
    service.push(endpoint);

    DidDocument {
        context: String::from_str("https://www.w3.org/ns/did/v1"),
        id: did,
        verification_method,
        authentication,
        service,
    }
}

/// A service type that implies external control of the actor.
pub open spec fn controlling_service(service_type: Seq<char>) -> bool {
    text::contains_seq(service_type, "RemoteControl"@) || text::contains_seq(
        service_type,
        "Governance"@,
    )
}

/// Refuses a DID service whose type implies external control.
pub fn validate_did_usage(service_type: &str) -> (r: Result<(), TransportError>)
    ensures
        r == (if controlling_service(service_type@) {
            Err::<(), TransportError>(TransportError::AENGAViolation)
        } else {
            Ok::<(), TransportError>(())
        }),
{
    if text::str_contains(service_type, "RemoteControl") || text::str_contains(
        service_type,
        "Governance",
    ) {
        Err(TransportError::AENGAViolation)
    } else {
        Ok(())
    }
}

} // verus!
