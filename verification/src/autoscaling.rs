//! The instance lifecycle controller: brings a compute node out of a
//! stopped state so it can run a worker.
//!
//! The controller decodes service-account credential material, exchanges
//! it (through the cloud provider's token endpoint, driven by the caller)
//! for a short-lived access token, builds the start request for a target
//! instance, and interprets the provider's response status. Everything
//! that computes is here and verified; the network exchange itself is the
//! caller's edge.

use vstd::prelude::*;
use vstd::string::StringExecFns;

use base64::Engine;

verus! {

/// Errors of the credential path.
#[derive(Clone, Copy, Debug, PartialEq, Eq, Structural)]
pub enum AuthError {
    /// The credential material is not valid base64.
    BadKeyEncoding,
    /// The decoded material is not a well-formed service-account key.
    MalformedKey,
    /// The provider refused the credential.
    Rejected,
}

/// A non-success response from the provider's management API, carrying
/// its status code.
#[derive(Clone, Copy, Debug, PartialEq, Eq, Structural)]
pub struct ProviderError {
    pub status: u16,
}

/// A compute node under the controller's management.
pub struct InstanceRef {
    /// The provider-side project that owns the node.
    pub project: String,
    /// The zone the node runs in.
    pub zone: String,
    /// The provider-specific instance identifier.
    pub instance: String,
}

/// The one request the controller issues: a bodiless POST against the
/// instance's start endpoint, authorized by a bearer token.
pub struct StartInstanceRequest {
    pub uri: String,
    pub authorization: String,
}

/// What the base64 standard-alphabet unpadded decoder returns on the
/// given text: the decoded bytes, or `None` exactly on text it rejects.
/// A function of the text alone.
pub uninterp spec fn base64_decode_of(encoded: Seq<char>) -> Option<Seq<u8>>;

/// What std's lossy UTF-8 conversion returns on the given bytes; a
/// function of the bytes alone.
pub uninterp spec fn utf8_lossy_of(bytes: Seq<u8>) -> Seq<char>;

/// Whether gcp_auth accepts the given text as a service-account key; a
/// function of the text alone.
pub uninterp spec fn parses_as_service_account(key: Seq<char>) -> bool;

/// Credential material whose base64 layer decodes.
pub open spec fn spec_key_decodes(encoded: Seq<char>) -> bool {
    base64_decode_of(encoded) is Some
}

/// The key text inside decodable credential material.
pub open spec fn spec_key_text(encoded: Seq<char>) -> Seq<char> {
    utf8_lossy_of(base64_decode_of(encoded)->0)
}

/// Well-formed credential material: it decodes, and the text inside is a
/// service-account key.
pub open spec fn spec_key_well_formed(encoded: Seq<char>) -> bool {
    spec_key_decodes(encoded) && parses_as_service_account(spec_key_text(encoded))
}

/// Relies on base64's `STANDARD_NO_PAD` engine: deterministic in the
/// input, it succeeds exactly on the text the alphabet admits and then
/// returns its decoding.
#[verifier::external_body]
fn base64_decode_nopad(encoded: &str) -> (r: Option<Vec<u8>>)
    ensures
        r is Some <==> base64_decode_of(encoded@) is Some,
        r is Some ==> r->0@ == base64_decode_of(encoded@)->0,
{
    base64::engine::general_purpose::STANDARD_NO_PAD.decode(encoded).ok()
}

/// Relies on std's `String::from_utf8_lossy`: the result is a function of
/// the bytes alone.
#[verifier::external_body]
fn bytes_to_text_lossy(bytes: &Vec<u8>) -> (r: String)
    ensures
        r@ == utf8_lossy_of(bytes@),
{
    String::from_utf8_lossy(bytes).into_owned()
}

#[verifier::external_type_specification]
#[verifier::external_body]
pub struct ExCustomServiceAccount(gcp_auth::CustomServiceAccount);

/// Relies on gcp_auth's `CustomServiceAccount::from_json`: deterministic
/// in the key text, it succeeds exactly on well-formed service-account
/// JSON. A parse failure is surfaced as `MalformedKey`.
#[verifier::external_body]
fn parse_service_account_json(key: &str) -> (r: Result<gcp_auth::CustomServiceAccount, AuthError>)
    ensures
        r is Ok <==> parses_as_service_account(key@),
        r is Err ==> r->Err_0 == AuthError::MalformedKey,
{
    gcp_auth::CustomServiceAccount::from_json(key).map_err(|_e| AuthError::MalformedKey)
}

/// Decodes base64-packed service-account credential material into key
/// text. Succeeds exactly on material whose base64 layer decodes, and
/// fails with `BadKeyEncoding` otherwise.
pub fn decode_service_account_key(encoded: &str) -> (r: Result<String, AuthError>)
    ensures
        r is Ok <==> spec_key_decodes(encoded@),
        r is Ok ==> r->Ok_0@ == spec_key_text(encoded@),
        r is Err ==> r->Err_0 == AuthError::BadKeyEncoding,
{
    match base64_decode_nopad(encoded) {
        Some(bytes) => Ok(bytes_to_text_lossy(&bytes)),
        None => Err(AuthError::BadKeyEncoding),
    }
}

/// Decodes and parses base64-packed service-account credential material.
/// Succeeds exactly on well-formed material; fails with `BadKeyEncoding`
/// exactly when the base64 layer is broken, and with `MalformedKey`
/// exactly when the decoded text is not a service-account key.
pub fn load_service_account(encoded: &str) -> (r: Result<gcp_auth::CustomServiceAccount, AuthError>)
    ensures
        r is Ok <==> spec_key_well_formed(encoded@),
        r == Result::<gcp_auth::CustomServiceAccount, AuthError>::Err(AuthError::BadKeyEncoding)
            <==> !spec_key_decodes(encoded@),
        r == Result::<gcp_auth::CustomServiceAccount, AuthError>::Err(AuthError::MalformedKey)
            <==> spec_key_decodes(encoded@) && !parses_as_service_account(spec_key_text(encoded@)),
{
    let key = match decode_service_account_key(encoded) {
        Ok(key) => key,
        Err(e) => {
            return Err(e);
        },
    };
    parse_service_account_json(key.as_str())
}

/// The OAuth scope the controller's tokens are restricted to: compute
/// management.
pub fn compute_scope() -> (r: &'static str)
    ensures
        r@ == "https://www.googleapis.com/auth/compute"@,
{
    "https://www.googleapis.com/auth/compute"
}

/// The start endpoint of an instance.
pub open spec fn start_instance_uri_spec(
    project: Seq<char>,
    zone: Seq<char>,
    instance: Seq<char>,
) -> Seq<char> {
    "https://compute.googleapis.com/compute/v1/projects/"@ + project + "/zones/"@ + zone
        + "/instances/"@ + instance + "/start"@
}

/// Builds the start endpoint for a target instance.
pub fn start_instance_uri(target: &InstanceRef) -> (r: String)
    ensures
        r@ == start_instance_uri_spec(target.project@, target.zone@, target.instance@),
{
    let mut uri = "https://compute.googleapis.com/compute/v1/projects/".to_owned();
    uri.append(target.project.as_str());
    uri.append("/zones/");
    uri.append(target.zone.as_str());
    uri.append("/instances/");
    uri.append(target.instance.as_str());
    uri.append("/start");
    proof {
        assert(uri@ =~= start_instance_uri_spec(
            target.project@,
            target.zone@,
            target.instance@,
        ));
    }
    uri
}

/// The authorization header value for a bearer token.
pub fn bearer_header(token: &str) -> (r: String)
    ensures
        r@ == "Bearer "@ + token@,
{
    let mut header = "Bearer ".to_owned();
    header.append(token);
    header
}

/// Starts compute instances against the provider's management API.
pub struct GcloudInstanceStarter {}

impl GcloudInstanceStarter {
    pub fn new() -> (r: Self)
        ensures
            r == (GcloudInstanceStarter {  }),
    {
        GcloudInstanceStarter {}
    }

    /// The request that starts the target instance: its start endpoint,
    /// authorized by the given access token.
    pub fn start_request(&self, target: &InstanceRef, token: &str) -> (r: StartInstanceRequest)
        ensures
            r.uri@ == start_instance_uri_spec(target.project@, target.zone@, target.instance@),
            r.authorization@ == "Bearer "@ + token@,
    {
        StartInstanceRequest {
            uri: start_instance_uri(target),
            authorization: bearer_header(token),
        }
    }

    /// Interprets the provider's response to a start request: any
    /// non-success status is a `ProviderError` carrying that status.
    pub fn interpret_start_response(&self, status: u16) -> (r: Result<(), ProviderError>)
        ensures
            r is Ok <==> 200 <= status < 300,
            r is Err ==> r->Err_0 == (ProviderError { status }),
    {
        if 200 <= status && status < 300 {
            Ok(())
        } else {
            Err(ProviderError { status })
        }
    }
}

} // verus!
