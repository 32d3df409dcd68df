use measurer::digest::message_digest;
use measurer::endpoints::erc20_interface;
use measurer::errors::{staged, Error};
use measurer::keys::{
    debug_get_ecdsa_key_name, debug_use_ecdsa_key_for_local, debug_use_ecdsa_key_for_prod,
    debug_use_ecdsa_key_for_test, default_derivation_key, ecdsa_key_name, KeyEnvironment, KeyInfo, KeySelector,
};
use measurer::transport::{transform, HttpHeader, HttpResponse, TransformArgs};
use measurer::utils::{generate_contract_client, generate_web3_client, get_rpc_endpoint, CHAIN_ID};

#[test]
fn a_new_selector_names_the_local_key() {
    let selector = KeySelector::new();
    assert_eq!(selector.active, KeyEnvironment::Local);
    assert_eq!(ecdsa_key_name(&selector), "dfx_test_key");
    assert_eq!(ecdsa_key_name(&KeySelector::default()), "dfx_test_key");
}

#[test]
fn switching_changes_the_name_that_is_reported() {
    let mut selector = KeySelector::new();
    debug_use_ecdsa_key_for_test(&mut selector);
    assert_eq!(debug_get_ecdsa_key_name(&selector), "test_key_1");
    debug_use_ecdsa_key_for_prod(&mut selector);
    assert_eq!(debug_get_ecdsa_key_name(&selector), "key_1");
    debug_use_ecdsa_key_for_local(&mut selector);
    assert_eq!(debug_get_ecdsa_key_name(&selector), "dfx_test_key");
}

#[test]
fn the_default_key_is_the_identity_as_single_path_element() {
    assert_eq!(default_derivation_key(&[9, 8, 7]), vec![9, 8, 7]);
    let mut selector = KeySelector::new();
    debug_use_ecdsa_key_for_prod(&mut selector);
    let key = KeyInfo::for_identity(&selector, &[9, 8, 7]);
    assert_eq!(key.derivation_path, vec![vec![9u8, 8, 7]]);
    assert_eq!(key.key_name, "key_1");
}

#[test]
fn a_key_taken_before_a_switch_keeps_its_name() {
    let mut selector = KeySelector::new();
    let key = KeyInfo::for_identity(&selector, &[1]);
    debug_use_ecdsa_key_for_prod(&mut selector);
    assert_eq!(key.key_name, "dfx_test_key");
}

#[test]
fn the_endpoint_is_host_and_path_under_https() {
    assert_eq!(get_rpc_endpoint(), "https://polygon-mumbai.g.alchemy.com/v2/6GLIzI5pL0n4bp4c3jESZTRfXxE5XJ_Z");
    assert_eq!(CHAIN_ID, 80001);
}

#[test]
fn a_client_description_keeps_its_bounds() {
    let client = generate_web3_client(Some(300), None);
    assert_eq!(client.endpoint, get_rpc_endpoint());
    assert_eq!(client.max_response_bytes, Some(300));
    assert_eq!(client.cycles, None);
}

#[test]
fn a_contract_client_needs_an_address_that_parses() {
    let ok = generate_contract_client(
        generate_web3_client(None, Some(5)),
        "0x1111111111111111111111111111111111111111",
        erc20_interface(),
    )
    .unwrap();
    assert_eq!(ok.address.bytes, [0x11; 20]);
    assert_eq!(ok.interface.methods.len(), 6);
    assert_eq!(ok.client.cycles, Some(5));
    let bad_address = generate_contract_client(generate_web3_client(None, None), "0x11", erc20_interface());
    assert!(matches!(bad_address, Err(Error::InvalidAddress)));
}

#[test]
fn the_digest_of_abc_is_the_known_one() {
    let expected: [u8; 32] = [
        0xba, 0x78, 0x16, 0xbf, 0x8f, 0x01, 0xcf, 0xea, 0x41, 0x41, 0x40, 0xde, 0x5d, 0xae, 0x22, 0x23, 0xb0,
        0x03, 0x61, 0xa3, 0x96, 0x17, 0x7a, 0x9c, 0xb4, 0x10, 0xff, 0x61, 0xf2, 0x00, 0x15, 0xad,
    ];
    assert_eq!(message_digest("abc"), expected.to_vec());
    assert_eq!(message_digest("").len(), 32);
}

#[test]
fn the_canonical_response_keeps_status_and_body_and_drops_headers() {
    let raw = HttpResponse {
        status: candid::Nat::from(200u32),
        headers: vec![HttpHeader { name: String::from("date"), value: String::from("now") }],
        body: vec![1, 2, 3],
    };
    let canonical = transform(TransformArgs { response: raw, context: vec![9] });
    assert_eq!(canonical.status, candid::Nat::from(200u32));
    assert!(canonical.headers.is_empty());
    assert_eq!(canonical.body, vec![1, 2, 3]);
}

#[test]
fn responses_that_differ_in_headers_only_have_one_canonical_form() {
    let a = transform(TransformArgs {
        response: HttpResponse {
            status: candid::Nat::from(404u32),
            headers: vec![HttpHeader { name: String::from("x"), value: String::from("1") }],
            body: vec![7],
        },
        context: vec![],
    });
    let b = transform(TransformArgs {
        response: HttpResponse { status: candid::Nat::from(404u32), headers: vec![], body: vec![7] },
        context: vec![1],
    });
    assert_eq!(a.status, b.status);
    assert_eq!(a.body, b.body);
    assert_eq!(a.headers.len(), b.headers.len());
}

#[test]
fn every_failure_has_a_text() {
    assert_eq!(Error::InvalidKeyFormat.message(), "invalid public key format");
    assert_eq!(Error::InvalidAddress.message(), "invalid address");
    assert_eq!(Error::UnknownMethod.message(), "unknown contract method");
    assert_eq!(Error::ArgumentTypeMismatch.message(), "argument type mismatch");
    assert_eq!(Error::MalformedReturnData.message(), "malformed return data");
    assert_eq!(Error::OutOfSequence.message(), "event out of sequence");
    assert_eq!(Error::CallDataTooLong.message(), "call data too long");
    assert_eq!(Error::TransportError(String::from("b")).message(), "transport error: b");
    assert_eq!(Error::OracleUnavailable(String::from("c")).message(), "oracle unavailable: c");
    assert_eq!(Error::SigningRejected(String::from("d")).message(), "signing rejected: d");
    assert_eq!(staged("stage: ", "upstream"), "stage: upstream");
}
