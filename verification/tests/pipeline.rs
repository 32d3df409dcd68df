use measurer::endpoints::{
    balance_of_erc20, balance_of_native, balance_of_token, erc20_interface, get_ecdsa_public_key,
    get_ethereum_address,
    get_gas_price, get_transaction_count, sign_and_maybe_broadcast, sign_digest, sign_message,
    sign_transfer_erc20, sign_transfer_native, sign_tx, transfer_erc20, transfer_native,
};
use measurer::codec::{AbiValue, Interface, Method, ParamKind};
use measurer::errors::Error;
use measurer::keys::{debug_use_ecdsa_key_for_test, KeyInfo, KeySelector};
use measurer::pipeline::step;
use measurer::primitives::{Address, U256};
use measurer::session::{Action, Event, Reply, Session, Stage};
use measurer::transaction::{
    build_transaction, Overrides, Payload, SignedTransaction, TxType, UnsignedTransaction,
};
use measurer::utils::generate_web3_client;

const KEY_ONE: [u8; 33] = [
    0x02, 0x79, 0xbe, 0x66, 0x7e, 0xf9, 0xdc, 0xbb, 0xac, 0x55, 0xa0, 0x62, 0x95, 0xce, 0x87, 0x0b, 0x07,
    0x02, 0x9b, 0xfc, 0xdb, 0x2d, 0xce, 0x28, 0xd9, 0x59, 0xf2, 0x81, 0x5b, 0x16, 0xf8, 0x17, 0x98,
];

const ADDRESS_ONE: [u8; 20] = [
    0x7e, 0x5f, 0x45, 0x52, 0x09, 0x1a, 0x69, 0x12, 0x5d, 0x5d, 0xfc, 0xb7, 0xb8, 0xc2, 0x65, 0x90, 0x29,
    0x39, 0x5b, 0xdf,
];

const RECIPIENT: &str = "0xaaaaaaaaaaaaaaaaaaaaaaaaaaaaaaaaaaaaaaaa";
const TOKEN: &str = "0x1111111111111111111111111111111111111111";
const OTHER: &str = "0xbbbbbbbbbbbbbbbbbbbbbbbbbbbbbbbbbbbbbbbb";

fn key() -> KeyInfo {
    KeyInfo::for_identity(&KeySelector::new(), &[1, 2, 3])
}

fn text(t: &str) -> String {
    String::from(t)
}

fn signing_request(action: Action) -> (UnsignedTransaction, String) {
    match action {
        Action::SignTransaction { transaction, from } => (transaction, from),
        other => panic!("unexpected {:?}", other),
    }
}

fn reply_text(action: Action) -> String {
    match action {
        Action::Finish(Ok(Reply::Text(t))) => t,
        other => panic!("unexpected {:?}", other),
    }
}

fn to_signing(session: Session, action: Action, nonce: Option<u64>, gas_price: Option<u64>) -> (Session, Action) {
    assert!(matches!(action, Action::FetchPublicKey));
    let (mut session, mut action) = step(session, Event::PublicKey(Ok(KEY_ONE.to_vec())));
    if let Some(n) = nonce {
        match &action {
            Action::QueryTransactionCount { address } => assert_eq!(address.bytes, ADDRESS_ONE),
            other => panic!("unexpected {:?}", other),
        }
        (session, action) = step(session, Event::TransactionCount(Ok(U256::from_u64(n))));
    }
    if let Some(p) = gas_price {
        assert!(matches!(action, Action::QueryGasPrice));
        (session, action) = step(session, Event::GasPrice(Ok(U256::from_u64(p))));
    }
    (session, action)
}

#[test]
fn native_transfer_resolves_nonce_then_gas_price_then_signs() {
    let (session, action) = sign_transfer_native(key(), text(RECIPIENT), 1000, None, None, 500).unwrap();
    assert_eq!(session.stage, Stage::AwaitPublicKey);
    assert_eq!(session.client.as_ref().unwrap().max_response_bytes, Some(500));
    let (session, action) = to_signing(session, action, Some(5), Some(20_000_000_000));
    assert_eq!(session.stage, Stage::AwaitSignedTransaction);
    let (transaction, from) = signing_request(action);
    assert_eq!(transaction.nonce.to_decimal(), "5");
    assert_eq!(transaction.gas_price.to_decimal(), "20000000000");
    assert_eq!(transaction.gas_limit.to_decimal(), "21000");
    assert_eq!(transaction.value.to_decimal(), "1000");
    assert!(transaction.data.is_empty());
    assert_eq!(transaction.to.unwrap().bytes, [0xaa; 20]);
    assert_eq!(transaction.chain_id, 80001);
    assert_eq!(transaction.tx_type, TxType::Legacy);
    assert_eq!(transaction.tx_type.type_id(), None);
    assert_eq!(from, "7e5f4552091a69125d5dfcb7b8c2659029395bdf");
}

#[test]
fn what_was_fixed_in_advance_is_not_asked_for() {
    let (session, action) = sign_transfer_native(key(), text(RECIPIENT), 1, Some(7), Some(9), 500).unwrap();
    let (_, action) = to_signing(session, action, None, None);
    let (transaction, _) = signing_request(action);
    assert_eq!(transaction.nonce.to_decimal(), "7");
    assert_eq!(transaction.gas_price.to_decimal(), "9");
    assert_eq!(transaction.gas_limit.to_decimal(), "21000");

    let (session, action) = sign_transfer_native(key(), text(RECIPIENT), 1, Some(7), None, 500).unwrap();
    let (_, action) = to_signing(session, action, None, Some(3));
    let (transaction, _) = signing_request(action);
    assert_eq!(transaction.nonce.to_decimal(), "7");
    assert_eq!(transaction.gas_price.to_decimal(), "3");

    let (session, action) = sign_transfer_native(key(), text(RECIPIENT), 1, None, Some(9), 500).unwrap();
    let (_, action) = to_signing(session, action, Some(4), None);
    let (transaction, _) = signing_request(action);
    assert_eq!(transaction.nonce.to_decimal(), "4");
    assert_eq!(transaction.gas_price.to_decimal(), "9");
}

#[test]
fn sign_only_reports_the_signed_bytes_and_sends_nothing() {
    let (session, action) = sign_transfer_native(key(), text(RECIPIENT), 1, Some(7), Some(9), 500).unwrap();
    let (session, _) = to_signing(session, action, None, None);
    let signed = SignedTransaction { raw: vec![0xf8, 0x6b, 0x01], hash: [3; 32] };
    let (session, action) = step(session, Event::TransactionSigned(Ok(signed)));
    assert_eq!(session.stage, Stage::Done);
    assert_eq!(reply_text(action), "0xf86b01");
}

#[test]
fn transfer_sends_the_signed_bytes_and_reports_the_hash() {
    let (session, action) = transfer_native(key(), text(RECIPIENT), 1, Some(7), Some(9), 500).unwrap();
    let (session, _) = to_signing(session, action, None, None);
    let signed = SignedTransaction { raw: vec![0xf8, 0x6b, 0x01], hash: [3; 32] };
    let (session, action) = step(session, Event::TransactionSigned(Ok(signed)));
    assert_eq!(session.stage, Stage::AwaitSent);
    match action {
        Action::SendRawTransaction { raw } => assert_eq!(raw, vec![0xf8, 0x6b, 0x01]),
        other => panic!("unexpected {:?}", other),
    }
    let (session, action) = step(session, Event::Sent(Ok([0xcd; 32])));
    assert_eq!(session.stage, Stage::Done);
    assert_eq!(reply_text(action), format!("0x{}", "cd".repeat(32)));
}

#[test]
fn an_invalid_recipient_stops_a_transfer_before_any_request() {
    for to in ["", "0x1234", "0xzzzzzzzzzzzzzzzzzzzzzzzzzzzzzzzzzzzzzzzz", "aaaaaaaaaaaaaaaaaaaaaaaaaaaaaaaaaaaaaaaaaa"] {
        assert!(matches!(sign_transfer_native(key(), text(to), 1, None, None, 500), Err(Error::InvalidAddress)));
        assert!(matches!(transfer_native(key(), text(to), 1, None, None, 500), Err(Error::InvalidAddress)));
        assert!(matches!(
            sign_transfer_erc20(key(), text(TOKEN), text(to), 1, None, None, 500),
            Err(Error::InvalidAddress)
        ));
        assert!(matches!(
            transfer_erc20(key(), text(TOKEN), text(to), 1, None, None, 500),
            Err(Error::InvalidAddress)
        ));
        assert!(matches!(
            sign_transfer_erc20(key(), text(to), text(RECIPIENT), 1, None, None, 500),
            Err(Error::InvalidAddress)
        ));
    }
}

#[test]
fn token_transfer_embeds_the_call_data() {
    let (session, action) = sign_transfer_erc20(key(), text(TOKEN), text(OTHER), 500, None, None, 600).unwrap();
    let (_, action) = to_signing(session, action, Some(0), Some(1));
    let (transaction, from) = signing_request(action);
    let mut expected = vec![0xa9, 0x05, 0x9c, 0xbb];
    expected.extend_from_slice(&[0u8; 12]);
    expected.extend_from_slice(&[0xbb; 20]);
    let mut value = vec![0u8; 32];
    value[30] = 0x01;
    value[31] = 0xf4;
    expected.extend_from_slice(&value);
    assert_eq!(transaction.data, expected);
    assert_eq!(transaction.to.unwrap().bytes, [0x11; 20]);
    assert_eq!(transaction.value.to_decimal(), "0");
    assert_eq!(transaction.gas_limit.to_decimal(), "100000");
    assert_eq!(transaction.tx_type, TxType::Eip1559);
    assert_eq!(transaction.tx_type.type_id(), Some(2));
    assert_eq!(transaction.nonce.to_decimal(), "0");
    assert_eq!(from, "7e5f4552091a69125d5dfcb7b8c2659029395bdf");
}

#[test]
fn a_failed_gas_price_query_ends_the_transfer_without_signing() {
    let (session, action) = transfer_native(key(), text(RECIPIENT), 1, Some(7), None, 500).unwrap();
    assert!(matches!(action, Action::FetchPublicKey));
    let (session, action) = step(session, Event::PublicKey(Ok(KEY_ONE.to_vec())));
    assert!(matches!(action, Action::QueryGasPrice));
    let (session, action) = step(session, Event::GasPrice(Err(text("connection reset by peer"))));
    assert_eq!(session.stage, Stage::Done);
    match action {
        Action::Finish(Err(Error::TransportError(message))) => {
            assert_eq!(message, "get gas_price error: connection reset by peer")
        },
        other => panic!("unexpected {:?}", other),
    }
    let (session, action) = step(session, Event::GasPrice(Ok(U256::from_u64(1))));
    assert!(matches!(action, Action::Finish(Err(Error::OutOfSequence))));
    let signed = SignedTransaction { raw: vec![1], hash: [0; 32] };
    let (_, action) = step(session, Event::TransactionSigned(Ok(signed)));
    assert!(matches!(action, Action::Finish(Err(Error::OutOfSequence))));
}

#[test]
fn each_failed_answer_is_reported_under_its_stage() {
    let (session, _) = transfer_native(key(), text(RECIPIENT), 1, None, None, 500).unwrap();
    let (_, action) = step(session, Event::PublicKey(Err(text("no oracle"))));
    match action {
        Action::Finish(Err(Error::OracleUnavailable(m))) => assert_eq!(m, "get_eth_addr failed: no oracle"),
        other => panic!("unexpected {:?}", other),
    }

    let (session, _) = get_ethereum_address(key());
    let (_, action) = step(session, Event::PublicKey(Err(text("no oracle"))));
    match action {
        Action::Finish(Err(Error::OracleUnavailable(m))) => assert_eq!(m, "get_public_key failed: no oracle"),
        other => panic!("unexpected {:?}", other),
    }

    let (session, _) = transfer_native(key(), text(RECIPIENT), 1, None, None, 500).unwrap();
    let (session, _) = step(session, Event::PublicKey(Ok(KEY_ONE.to_vec())));
    let (_, action) = step(session, Event::TransactionCount(Err(text("timeout"))));
    match action {
        Action::Finish(Err(Error::TransportError(m))) => assert_eq!(m, "get tx count error: timeout"),
        other => panic!("unexpected {:?}", other),
    }

    let (session, action) = transfer_native(key(), text(RECIPIENT), 1, Some(1), Some(1), 500).unwrap();
    let (session, _) = to_signing(session, action, None, None);
    let (_, action) = step(session, Event::TransactionSigned(Err(text("refused"))));
    match action {
        Action::Finish(Err(Error::SigningRejected(m))) => assert_eq!(m, "sign_transaction error: refused"),
        other => panic!("unexpected {:?}", other),
    }

    let (session, action) = transfer_erc20(key(), text(TOKEN), text(OTHER), 1, Some(1), Some(1), 500).unwrap();
    let (session, _) = to_signing(session, action, None, None);
    let (_, action) = step(session, Event::TransactionSigned(Err(text("refused"))));
    match action {
        Action::Finish(Err(Error::SigningRejected(m))) => assert_eq!(m, "sign failed: refused"),
        other => panic!("unexpected {:?}", other),
    }

    let (session, action) = transfer_native(key(), text(RECIPIENT), 1, Some(1), Some(1), 500).unwrap();
    let (session, _) = to_signing(session, action, None, None);
    let (session, _) = step(session, Event::TransactionSigned(Ok(SignedTransaction { raw: vec![1], hash: [0; 32] })));
    let (_, action) = step(session, Event::Sent(Err(text("nonce too low"))));
    match action {
        Action::Finish(Err(Error::TransportError(m))) => assert_eq!(m, "send_raw_transaction failed: nonce too low"),
        other => panic!("unexpected {:?}", other),
    }

    let (session, action) = transfer_erc20(key(), text(TOKEN), text(OTHER), 1, Some(1), Some(1), 500).unwrap();
    let (session, _) = to_signing(session, action, None, None);
    let (session, _) = step(session, Event::TransactionSigned(Ok(SignedTransaction { raw: vec![1], hash: [0; 32] })));
    let (_, action) = step(session, Event::Sent(Err(text("nonce too low"))));
    match action {
        Action::Finish(Err(Error::TransportError(m))) => assert_eq!(m, "send_raw_transaction failed: nonce too low"),
        other => panic!("unexpected {:?}", other),
    }
}

#[test]
fn a_key_that_is_no_point_ends_the_operation() {
    let (session, _) = balance_of_native(key());
    let (session, action) = step(session, Event::PublicKey(Ok(vec![2; 10])));
    assert_eq!(session.stage, Stage::Done);
    assert!(matches!(action, Action::Finish(Err(Error::InvalidKeyFormat))));
}

#[test]
fn the_account_is_reported_in_prefixed_hex() {
    let (session, action) = get_ethereum_address(key());
    assert!(matches!(action, Action::FetchPublicKey));
    assert!(session.client.is_none());
    let (_, action) = step(session, Event::PublicKey(Ok(KEY_ONE.to_vec())));
    match action {
        Action::Finish(Ok(Reply::Account(info))) => {
            assert_eq!(info.address, "0x7e5f4552091a69125d5dfcb7b8c2659029395bdf")
        },
        other => panic!("unexpected {:?}", other),
    }
}

#[test]
fn the_public_key_is_reported_as_it_came() {
    let (session, _) = get_ecdsa_public_key(key());
    let (_, action) = step(session, Event::PublicKey(Ok(vec![5, 6, 7])));
    match action {
        Action::Finish(Ok(Reply::Bytes(b))) => assert_eq!(b, vec![5, 6, 7]),
        other => panic!("unexpected {:?}", other),
    }
}

#[test]
fn the_nonce_of_a_given_account_needs_no_oracle() {
    let (session, action) = get_transaction_count(key(), Some(text(RECIPIENT))).unwrap();
    match action {
        Action::QueryTransactionCount { address } => assert_eq!(address.bytes, [0xaa; 20]),
        other => panic!("unexpected {:?}", other),
    }
    assert_eq!(session.client.as_ref().unwrap().max_response_bytes, Some(300));
    let (_, action) = step(session, Event::TransactionCount(Ok(U256::from_u64(12))));
    assert_eq!(reply_text(action), "12");
    assert!(matches!(get_transaction_count(key(), Some(text("0x12"))), Err(Error::InvalidAddress)));
}

#[test]
fn the_nonce_of_the_derived_account_asks_the_oracle_first() {
    let (session, action) = get_transaction_count(key(), None).unwrap();
    assert!(matches!(action, Action::FetchPublicKey));
    let (session, action) = step(session, Event::PublicKey(Ok(KEY_ONE.to_vec())));
    match action {
        Action::QueryTransactionCount { address } => assert_eq!(address.bytes, ADDRESS_ONE),
        other => panic!("unexpected {:?}", other),
    }
    let (_, action) = step(session, Event::TransactionCount(Ok(U256::from_u64(0))));
    assert_eq!(reply_text(action), "0");
}

#[test]
fn the_gas_price_is_reported_in_decimal() {
    let (session, action) = get_gas_price();
    assert!(matches!(action, Action::QueryGasPrice));
    assert!(session.key.is_none());
    let (_, action) = step(session, Event::GasPrice(Ok(U256::from_u128(30_000_000_000))));
    assert_eq!(reply_text(action), "30000000000");
}

#[test]
fn the_native_balance_is_reported_in_decimal() {
    let (session, _) = balance_of_native(key());
    let (session, action) = step(session, Event::PublicKey(Ok(KEY_ONE.to_vec())));
    match action {
        Action::QueryBalance { address } => assert_eq!(address.bytes, ADDRESS_ONE),
        other => panic!("unexpected {:?}", other),
    }
    let (_, action) = step(session, Event::Balance(Ok(U256 { limbs: [0, 0, 0, 1] })));
    assert_eq!(reply_text(action), "6277101735386680763835789423207666416102355444464034512896");

    let (session, _) = balance_of_native(key());
    let (session, _) = step(session, Event::PublicKey(Ok(KEY_ONE.to_vec())));
    let (_, action) = step(session, Event::Balance(Err(text("down"))));
    match action {
        Action::Finish(Err(Error::TransportError(m))) => assert_eq!(m, "get balance failed: down"),
        other => panic!("unexpected {:?}", other),
    }
}

#[test]
fn a_token_balance_of_a_given_account_is_called_at_once() {
    let (session, action) = balance_of_erc20(key(), text(TOKEN), Some(text(OTHER)), None).unwrap();
    assert_eq!(session.client.as_ref().unwrap().max_response_bytes, Some(400));
    assert_eq!(session.stage, Stage::AwaitCall);
    match action {
        Action::Call { to, data } => {
            assert_eq!(to.bytes, [0x11; 20]);
            let mut expected = vec![0x70, 0xa0, 0x82, 0x31];
            expected.extend_from_slice(&[0u8; 12]);
            expected.extend_from_slice(&[0xbb; 20]);
            assert_eq!(data, expected);
        },
        other => panic!("unexpected {:?}", other),
    }
    let mut returned = vec![0u8; 32];
    returned[31] = 77;
    let (_, action) = step(session, Event::CallReturned(Ok(returned)));
    assert_eq!(reply_text(action), "77");
}

#[test]
fn a_token_balance_of_the_derived_account_asks_the_oracle_first() {
    let (session, action) = balance_of_erc20(key(), text(TOKEN), None, Some(1000)).unwrap();
    assert_eq!(session.client.as_ref().unwrap().max_response_bytes, Some(1000));
    assert!(matches!(action, Action::FetchPublicKey));
    let (session, action) = step(session, Event::PublicKey(Ok(KEY_ONE.to_vec())));
    match action {
        Action::Call { to, data } => {
            assert_eq!(to.bytes, [0x11; 20]);
            assert_eq!(&data[..4], &[0x70, 0xa0, 0x82, 0x31]);
            assert_eq!(&data[16..], &ADDRESS_ONE);
        },
        other => panic!("unexpected {:?}", other),
    }
    let (session, action) = step(session, Event::CallReturned(Ok(vec![1, 2, 3])));
    assert_eq!(session.stage, Stage::Done);
    assert!(matches!(action, Action::Finish(Err(Error::MalformedReturnData))));
}

#[test]
fn a_token_balance_query_fails_early_on_bad_input() {
    assert!(matches!(balance_of_erc20(key(), text("0x1"), None, None), Err(Error::InvalidAddress)));
    assert!(matches!(balance_of_erc20(key(), text(TOKEN), Some(text("zz")), None), Err(Error::InvalidAddress)));
    let empty = || Interface { methods: vec![] };
    let client = generate_web3_client(Some(1), None);
    assert!(matches!(balance_of_token(key(), client, TOKEN, empty(), Some(text(OTHER))), Err(Error::UnknownMethod)));
    let client = generate_web3_client(Some(1), None);
    let (session, _) = balance_of_token(key(), client, TOKEN, empty(), None).unwrap();
    let (_, action) = step(session, Event::PublicKey(Ok(KEY_ONE.to_vec())));
    assert!(matches!(action, Action::Finish(Err(Error::UnknownMethod))));
    let odd = Interface {
        methods: vec![Method { name: text("balanceOf"), inputs: vec![ParamKind::Address], outputs: vec![ParamKind::Bool] }],
    };
    let client = generate_web3_client(Some(1), None);
    let (session, _) = balance_of_token(key(), client, TOKEN, odd, Some(text(OTHER))).unwrap();
    let mut one = vec![0u8; 32];
    one[31] = 1;
    let (_, action) = step(session, Event::CallReturned(Ok(one)));
    assert!(matches!(action, Action::Finish(Err(Error::MalformedReturnData))));
    assert_eq!(erc20_interface().methods.len(), 6);
}

#[test]
fn a_failed_contract_call_is_a_transport_failure() {
    let (session, _) = balance_of_erc20(key(), text(TOKEN), Some(text(OTHER)), None).unwrap();
    let (_, action) = step(session, Event::CallReturned(Err(text("rate limited"))));
    match action {
        Action::Finish(Err(Error::TransportError(m))) => assert_eq!(m, "query contract error: rate limited"),
        other => panic!("unexpected {:?}", other),
    }
}

#[test]
fn a_message_is_signed_by_its_digest() {
    let (session, action) = sign_message(key(), text("abc")).unwrap();
    assert!(session.client.is_none());
    match action {
        Action::SignDigest { digest } => {
            assert_eq!(digest.len(), 32);
            assert_eq!(&digest[..4], &[0xba, 0x78, 0x16, 0xbf]);
        },
        other => panic!("unexpected {:?}", other),
    }
    let (_, action) = step(session, Event::DigestSigned(Ok(vec![9; 64])));
    match action {
        Action::Finish(Ok(Reply::Bytes(b))) => assert_eq!(b, vec![9; 64]),
        other => panic!("unexpected {:?}", other),
    }
    let (session, _) = sign_message(key(), text("abc")).unwrap();
    let (_, action) = step(session, Event::DigestSigned(Err(text("key not found"))));
    match action {
        Action::Finish(Err(Error::SigningRejected(m))) => assert_eq!(m, "sign_digest failed: key not found"),
        other => panic!("unexpected {:?}", other),
    }
}

#[test]
fn only_a_digest_of_32_bytes_is_handed_to_the_oracle() {
    assert!(sign_digest(key(), vec![0; 32]).is_ok());
    for n in [0usize, 31, 33, 64] {
        match sign_digest(key(), vec![0; n]) {
            Err(Error::SigningRejected(m)) => assert_eq!(m, "sign_digest failed: digest must be 32 bytes"),
            other => panic!("unexpected {:?}", other),
        }
    }
}

#[test]
fn an_answer_that_was_not_awaited_ends_the_operation() {
    let (session, _) = get_gas_price();
    let (session, action) = step(session, Event::Balance(Ok(U256::from_u64(1))));
    assert_eq!(session.stage, Stage::Done);
    assert!(matches!(action, Action::Finish(Err(Error::OutOfSequence))));
    let (session, _) = balance_of_native(key());
    let (_, action) = step(session, Event::GasPrice(Ok(U256::from_u64(1))));
    assert!(matches!(action, Action::Finish(Err(Error::OutOfSequence))));
}

#[test]
fn the_key_of_an_operation_is_the_one_it_started_with() {
    let mut selector = KeySelector::new();
    let taken = KeyInfo::for_identity(&selector, &[4, 4]);
    let (session, _) = sign_transfer_native(taken, text(RECIPIENT), 1, None, None, 500).unwrap();
    debug_use_ecdsa_key_for_test(&mut selector);
    let (session, _) = step(session, Event::PublicKey(Ok(KEY_ONE.to_vec())));
    let (session, _) = step(session, Event::TransactionCount(Ok(U256::from_u64(1))));
    let (session, _) = step(session, Event::GasPrice(Ok(U256::from_u64(1))));
    let key = session.key.unwrap();
    assert_eq!(key.key_name, "dfx_test_key");
    assert_eq!(key.derivation_path, vec![vec![4u8, 4]]);
}

#[test]
fn a_contract_call_with_any_interface_embeds_its_call_data() {
    let abi = || Interface {
        methods: vec![Method { name: text("set"), inputs: vec![ParamKind::Bool], outputs: vec![] }],
    };
    let client = generate_web3_client(Some(9), None);
    let (session, action) =
        sign_tx(key(), client, TOKEN, abi(), "set", &vec![AbiValue::Bool(true)], Some(1), Some(2), true).unwrap();
    let (_, action) = to_signing(session, action, None, None);
    let (transaction, _) = signing_request(action);
    assert_eq!(transaction.data.len(), 36);
    assert_eq!(transaction.data[35], 1);
    let client = generate_web3_client(Some(9), None);
    assert!(matches!(
        sign_tx(key(), client, TOKEN, abi(), "unset", &vec![AbiValue::Bool(true)], None, None, true),
        Err(Error::UnknownMethod)
    ));
    let client = generate_web3_client(Some(9), None);
    assert!(matches!(
        sign_tx(key(), client, TOKEN, abi(), "set", &vec![AbiValue::Uint(U256::from_u64(1))], None, None, true),
        Err(Error::ArgumentTypeMismatch)
    ));
    let client = generate_web3_client(Some(9), None);
    assert!(matches!(
        sign_tx(key(), client, "0x", abi(), "set", &vec![AbiValue::Bool(true)], None, None, true),
        Err(Error::InvalidAddress)
    ));
}

#[test]
fn chosen_gas_limit_and_envelope_are_kept() {
    let overrides = Overrides {
        nonce: Some(U256::from_u64(1)),
        gas_price: Some(U256::from_u64(2)),
        gas_limit: Some(U256::from_u64(50_000)),
        tx_type: Some(TxType::Eip1559),
    };
    let payload = Payload::NativeTransfer { to: Address { bytes: [1; 20] }, value: U256::from_u64(3) };
    let (session, action) =
        sign_and_maybe_broadcast(key(), generate_web3_client(None, None), payload, overrides, false);
    let (_, action) = to_signing(session, action, None, None);
    let (transaction, _) = signing_request(action);
    assert_eq!(transaction.gas_limit.to_decimal(), "50000");
    assert_eq!(transaction.tx_type, TxType::Eip1559);
    assert!(transaction.data.is_empty());
}

#[test]
fn a_built_transaction_has_every_field_set() {
    let call = Payload::ContractCall { contract: Address { bytes: [2; 20] }, data: vec![1, 2, 3, 4] };
    let copy = call.duplicate();
    let t = build_transaction(call, None, None, U256::from_u64(8), U256::from_u64(9), 5);
    assert_eq!(t.nonce.to_decimal(), "8");
    assert_eq!(t.gas_price.to_decimal(), "9");
    assert_eq!(t.gas_limit.to_decimal(), "100000");
    assert_eq!(t.value.to_decimal(), "0");
    assert_eq!(t.data, vec![1, 2, 3, 4]);
    assert_eq!(t.chain_id, 5);
    assert_eq!(t.tx_type, TxType::Eip1559);
    let t = build_transaction(copy, Some(U256::from_u64(1)), Some(TxType::Legacy), U256::from_u64(0), U256::from_u64(0), 1);
    assert_eq!(t.gas_limit.to_decimal(), "1");
    assert_eq!(t.tx_type, TxType::Legacy);
}

#[test]
fn the_same_transfer_gives_the_same_signing_request_twice() {
    let request = || {
        let (session, action) = sign_transfer_native(key(), text(RECIPIENT), 1000, None, None, 500).unwrap();
        let (_, action) = to_signing(session, action, Some(5), Some(20_000_000_000));
        signing_request(action)
    };
    let (first, first_from) = request();
    let (second, second_from) = request();
    assert_eq!(first.to.unwrap().bytes, second.to.unwrap().bytes);
    assert_eq!(first.value.limbs, second.value.limbs);
    assert_eq!(first.nonce.limbs, second.nonce.limbs);
    assert_eq!(first.gas_price.limbs, second.gas_price.limbs);
    assert_eq!(first.gas_limit.limbs, second.gas_limit.limbs);
    assert_eq!(first.chain_id, second.chain_id);
    assert_eq!(first.data, second.data);
    assert_eq!(first.tx_type, second.tx_type);
    assert_eq!(first_from, second_from);
}

#[test]
fn the_text_of_a_remote_failure_names_class_stage_and_cause() {
    let (session, action) = transfer_native(key(), text(RECIPIENT), 1, Some(1), Some(1), 500).unwrap();
    let (session, _) = to_signing(session, action, None, None);
    let (session, _) = step(session, Event::TransactionSigned(Ok(SignedTransaction { raw: vec![1], hash: [0; 32] })));
    let (_, action) = step(session, Event::Sent(Err(text("nonce too low"))));
    match action {
        Action::Finish(Err(e)) => {
            assert_eq!(e.message(), "transport error: send_raw_transaction failed: nonce too low")
        },
        other => panic!("unexpected {:?}", other),
    }

    let (session, _) = get_ecdsa_public_key(key());
    let (_, action) = step(session, Event::PublicKey(Err(text("no route"))));
    match action {
        Action::Finish(Err(e)) => assert_eq!(e.message(), "oracle unavailable: get_public_key failed: no route"),
        other => panic!("unexpected {:?}", other),
    }

    let (session, _) = sign_message(key(), text("abc")).unwrap();
    let (_, action) = step(session, Event::DigestSigned(Err(text("busy"))));
    match action {
        Action::Finish(Err(e)) => assert_eq!(e.message(), "signing rejected: sign_digest failed: busy"),
        other => panic!("unexpected {:?}", other),
    }

    let (session, _) = get_gas_price();
    let (_, action) = step(session, Event::GasPrice(Err(String::new())));
    match action {
        Action::Finish(Err(e)) => assert_eq!(e.message(), "transport error: get gas_price error: "),
        other => panic!("unexpected {:?}", other),
    }
}
