use sandbox_core::autoscaling::{
    AuthError, GcloudInstanceStarter, InstanceRef, ProviderError, bearer_header, compute_scope,
    decode_service_account_key, load_service_account, start_instance_uri,
};

#[test]
fn decode_key_decodes_base64_text() {
    // "aGVsbG8" is the unpadded standard-alphabet encoding of "hello";
    // a decoder that handed its input back would fail this.
    assert_eq!(decode_service_account_key("aGVsbG8"), Ok("hello".to_owned()));
}

#[test]
fn decode_key_rejects_invalid_base64() {
    assert_eq!(decode_service_account_key("!!not-base64!!"), Err(AuthError::BadKeyEncoding));
    // Padded input is refused by the unpadded engine.
    assert_eq!(decode_service_account_key("aGVsbG8="), Err(AuthError::BadKeyEncoding));
}

#[test]
fn load_service_account_rejects_bad_encoding() {
    match load_service_account("!!not-base64!!") {
        Err(AuthError::BadKeyEncoding) => {}
        _ => panic!("expected a key-encoding failure"),
    }
}

#[test]
fn load_service_account_rejects_malformed_key() {
    // "e30" decodes to "{}": valid base64, not a service-account key.
    match load_service_account("e30") {
        Err(AuthError::MalformedKey) => {}
        _ => panic!("expected a malformed-key failure"),
    }
}

#[test]
fn start_uri_targets_the_instance() {
    let target = InstanceRef {
        project: "demo-project".to_owned(),
        zone: "europe-central2-b".to_owned(),
        instance: "12345".to_owned(),
    };
    assert_eq!(
        start_instance_uri(&target),
        "https://compute.googleapis.com/compute/v1/projects/demo-project/zones/europe-central2-b/instances/12345/start"
    );
}

#[test]
fn start_request_is_authorized_with_the_bearer_token() {
    let starter = GcloudInstanceStarter::new();
    let target = InstanceRef {
        project: "p".to_owned(),
        zone: "z".to_owned(),
        instance: "i".to_owned(),
    };
    let request = starter.start_request(&target, "tok-123");
    assert_eq!(
        request.uri,
        "https://compute.googleapis.com/compute/v1/projects/p/zones/z/instances/i/start"
    );
    assert_eq!(request.authorization, "Bearer tok-123");
    assert_eq!(bearer_header("abc"), "Bearer abc");
}

#[test]
fn start_response_success_codes_are_ok() {
    let starter = GcloudInstanceStarter::new();
    assert_eq!(starter.interpret_start_response(200), Ok(()));
    assert_eq!(starter.interpret_start_response(204), Ok(()));
    assert_eq!(starter.interpret_start_response(299), Ok(()));
}

#[test]
fn start_response_failures_carry_the_status() {
    let starter = GcloudInstanceStarter::new();
    assert_eq!(starter.interpret_start_response(199), Err(ProviderError { status: 199 }));
    assert_eq!(starter.interpret_start_response(302), Err(ProviderError { status: 302 }));
    assert_eq!(starter.interpret_start_response(403), Err(ProviderError { status: 403 }));
    assert_eq!(starter.interpret_start_response(500), Err(ProviderError { status: 500 }));
}

#[test]
fn token_scope_is_compute_management() {
    assert_eq!(compute_scope(), "https://www.googleapis.com/auth/compute");
}
