//! The decisions of an operation in flight: given the state and the answer
//! that arrived, the next state and the next request.
//!
//! An operation is one straight line of requests. Nothing is retried: a
//! failed answer ends the operation with a classified failure that carries
//! the remote party's text. Nonces are not reserved: two transfers of one
//! sender that run at the same time may both be told the same pending nonce,
//! and it is for the caller to run one transfer per sender at a time or to
//! fix the nonces in advance.

use vstd::prelude::*;
use crate::address::{account_info, compressed_key_address, pubkey_to_address};
use crate::codec::{
    as_number, bytes_result, call_encoding, decode_result, encode_call, expect_uint, result_decoding, terms,
    AbiTerm, AbiValue, Interface, MethodView,
};
use crate::errors::{staged, staged_text, Error, ErrorView};
use crate::primitives::{decimal_digits, hex_encode, hex_encoding, prefixed_hex, prefixed_hex_text, Address, U256};
use crate::session::{
    bytes_answer, number_answer, Action, ActionView, Event, EventView, Reply, ReplyView, Session,
    SessionView, Stage, Task, TaskView,
};
use crate::transaction::{
    build_transaction, built, Payload, SignedTransaction, SignedTransactionView, TxKind,
};
use crate::utils::CHAIN_ID;

verus! {

/// Stage label: the oracle did not hand out the public key that was asked for.
pub const GET_PUBLIC_KEY_FAILED: &'static str = "get_public_key failed: ";

/// Stage label: the account could not be derived.
pub const GET_ETH_ADDR_FAILED: &'static str = "get_eth_addr failed: ";

/// Stage label: the nonce query failed.
pub const GET_TX_COUNT_ERROR: &'static str = "get tx count error: ";

/// Stage label: the gas price query failed.
pub const GET_GAS_PRICE_ERROR: &'static str = "get gas_price error: ";

/// Stage label: the balance query failed.
pub const GET_BALANCE_FAILED: &'static str = "get balance failed: ";

/// Stage label: the read-only contract call failed.
pub const QUERY_CONTRACT_ERROR: &'static str = "query contract error: ";

/// Stage label: signing a native transfer failed.
pub const SIGN_TRANSACTION_ERROR: &'static str = "sign_transaction error: ";

/// Stage label: signing a contract call failed.
pub const SIGN_FAILED: &'static str = "sign failed: ";

/// Stage label: signing a digest failed.
pub const SIGN_DIGEST_FAILED: &'static str = "sign_digest failed: ";

/// Stage label: sending a signed transaction failed.
pub const SEND_RAW_TRANSACTION_FAILED: &'static str = "send_raw_transaction failed: ";

/// The token method that reports a balance.
pub const BALANCE_OF: &'static str = "balanceOf";

/// The state and request that end an operation with `outcome`.
pub open spec fn finished(s: SessionView, outcome: Result<ReplyView, ErrorView>) -> (SessionView, ActionView) {
    (SessionView { stage: Stage::Done, ..s }, ActionView::Finish(outcome))
}

/// The state and request of an operation that goes on with `action`.
pub open spec fn waiting(s: SessionView, stage: Stage, action: ActionView) -> (SessionView, ActionView) {
    (SessionView { stage, ..s }, action)
}

/// The label under which a failed public key request is reported: that of
/// the key request where the key itself was asked for, that of the account
/// derivation where the key was only a means.
pub open spec fn key_failure_label(task: TaskView) -> Seq<char> {
    match task {
        TaskView::EthereumAddress => GET_PUBLIC_KEY_FAILED@,
        TaskView::PublicKey => GET_PUBLIC_KEY_FAILED@,
        _ => GET_ETH_ADDR_FAILED@,
    }
}

/// The label under which a failed signing is reported.
pub open spec fn sign_failure_label(kind: TxKind) -> Seq<char> {
    match kind {
        TxKind::NativeTransfer => SIGN_TRANSACTION_ERROR@,
        TxKind::ContractCall => SIGN_FAILED@,
    }
}

/// How a transfer goes on once the sender is known: the nonce is asked for
/// if none is set, then the gas price if none is set, and only then is the
/// transaction assembled and handed over for signing.
pub open spec fn resolve(s: SessionView) -> (SessionView, ActionView) {
    match (s.task, s.sender) {
        (TaskView::Transfer { payload, gas_limit, tx_type, .. }, Some(sender)) => match s.nonce {
            None => waiting(s, Stage::AwaitTransactionCount, ActionView::QueryTransactionCount { address: sender }),
            Some(nonce) => match s.gas_price {
                None => waiting(s, Stage::AwaitGasPrice, ActionView::QueryGasPrice),
                Some(gas_price) => waiting(
                    s,
                    Stage::AwaitSignedTransaction,
                    ActionView::SignTransaction {
                        transaction: built(payload, gas_limit, tx_type, nonce, gas_price, CHAIN_ID),
                        from: hex_encoding(sender),
                    },
                ),
            },
        },
        _ => finished(s, Err(ErrorView::OutOfSequence)),
    }
}

/// The data of the read-only call that asks a token for the balance of `account`.
pub open spec fn balance_call_data(interface: Seq<MethodView>, account: Seq<u8>) -> Result<Seq<u8>, ErrorView> {
    call_encoding(interface, BALANCE_OF@, seq![AbiTerm::Address(account)])
}

/// How an operation goes on once the derived account is known.
pub open spec fn with_sender(s: SessionView, address: Seq<u8>) -> (SessionView, ActionView) {
    let s = SessionView { sender: Some(address), ..s };
    match s.task {
        TaskView::EthereumAddress => finished(s, Ok(ReplyView::Account(prefixed_hex_text(address)))),
        TaskView::TransactionCount => waiting(
            s,
            Stage::AwaitTransactionCount,
            ActionView::QueryTransactionCount { address },
        ),
        TaskView::NativeBalance => waiting(s, Stage::AwaitBalance, ActionView::QueryBalance { address }),
        TaskView::TokenBalance { token, interface } => match balance_call_data(interface, address) {
            Ok(data) => waiting(s, Stage::AwaitCall, ActionView::Call { to: token, data }),
            Err(e) => finished(s, Err(e)),
        },
        TaskView::Transfer { .. } => resolve(s),
        _ => finished(s, Err(ErrorView::OutOfSequence)),
    }
}

/// The answer to a public key request.
pub open spec fn on_public_key(s: SessionView, answer: Result<Seq<u8>, Seq<char>>) -> (SessionView, ActionView) {
    match answer {
        Err(text) => finished(
            s,
            Err(ErrorView::OracleUnavailable(staged_text(key_failure_label(s.task), text))),
        ),
        Ok(key) => match s.task {
            TaskView::PublicKey => finished(s, Ok(ReplyView::Bytes(key))),
            _ => match compressed_key_address(key) {
                None => finished(s, Err(ErrorView::InvalidKeyFormat)),
                Some(address) => with_sender(s, address),
            },
        },
    }
}

/// The answer to a nonce query.
pub open spec fn on_transaction_count(s: SessionView, answer: Result<nat, Seq<char>>) -> (
    SessionView,
    ActionView,
) {
    match answer {
        Err(text) => finished(s, Err(ErrorView::TransportError(staged_text(GET_TX_COUNT_ERROR@, text)))),
        Ok(n) => match s.task {
            TaskView::TransactionCount => finished(s, Ok(ReplyView::Text(decimal_digits(n)))),
            TaskView::Transfer { .. } => resolve(SessionView { nonce: Some(n), ..s }),
            _ => finished(s, Err(ErrorView::OutOfSequence)),
        },
    }
}

/// The answer to a gas price query.
pub open spec fn on_gas_price(s: SessionView, answer: Result<nat, Seq<char>>) -> (SessionView, ActionView) {
    match answer {
        Err(text) => finished(s, Err(ErrorView::TransportError(staged_text(GET_GAS_PRICE_ERROR@, text)))),
        Ok(n) => match s.task {
            TaskView::GasPrice => finished(s, Ok(ReplyView::Text(decimal_digits(n)))),
            TaskView::Transfer { .. } => resolve(SessionView { gas_price: Some(n), ..s }),
            _ => finished(s, Err(ErrorView::OutOfSequence)),
        },
    }
}

/// The answer to a balance query.
pub open spec fn on_balance(s: SessionView, answer: Result<nat, Seq<char>>) -> (SessionView, ActionView) {
    match answer {
        Err(text) => finished(s, Err(ErrorView::TransportError(staged_text(GET_BALANCE_FAILED@, text)))),
        Ok(n) => match s.task {
            TaskView::NativeBalance => finished(s, Ok(ReplyView::Text(decimal_digits(n)))),
            _ => finished(s, Err(ErrorView::OutOfSequence)),
        },
    }
}

/// The answer to a read-only contract call.
pub open spec fn on_call_returned(s: SessionView, answer: Result<Seq<u8>, Seq<char>>) -> (
    SessionView,
    ActionView,
) {
    match answer {
        Err(text) => finished(s, Err(ErrorView::TransportError(staged_text(QUERY_CONTRACT_ERROR@, text)))),
        Ok(data) => match s.task {
            TaskView::TokenBalance { interface, .. } => match as_number(
                result_decoding(interface, BALANCE_OF@, data),
            ) {
                Ok(n) => finished(s, Ok(ReplyView::Text(decimal_digits(n)))),
                Err(e) => finished(s, Err(e)),
            },
            _ => finished(s, Err(ErrorView::OutOfSequence)),
        },
    }
}

/// The oracle's answer to a request to sign a digest.
pub open spec fn on_digest_signed(s: SessionView, answer: Result<Seq<u8>, Seq<char>>) -> (
    SessionView,
    ActionView,
) {
    match answer {
        Err(text) => finished(s, Err(ErrorView::SigningRejected(staged_text(SIGN_DIGEST_FAILED@, text)))),
        Ok(signature) => match s.task {
            TaskView::SignMessage => finished(s, Ok(ReplyView::Bytes(signature))),
            _ => finished(s, Err(ErrorView::OutOfSequence)),
        },
    }
}

/// The outcome of signing a transaction: the signed bytes are sent if the
/// task asks for a broadcast, and reported in hexadecimal if it does not.
pub open spec fn on_transaction_signed(s: SessionView, answer: Result<SignedTransactionView, Seq<char>>) -> (
    SessionView,
    ActionView,
) {
    match s.task {
        TaskView::Transfer { payload, broadcast, .. } => match answer {
            Err(text) => finished(
                s,
                Err(ErrorView::SigningRejected(staged_text(sign_failure_label(payload.kind()), text))),
            ),
            Ok(signed) => if broadcast {
                waiting(s, Stage::AwaitSent, ActionView::SendRawTransaction { raw: signed.raw })
            } else {
                finished(s, Ok(ReplyView::Text(prefixed_hex_text(signed.raw))))
            },
        },
        _ => finished(s, Err(ErrorView::OutOfSequence)),
    }
}

/// The chain's answer to a raw transaction.
pub open spec fn on_sent(s: SessionView, answer: Result<Seq<u8>, Seq<char>>) -> (SessionView, ActionView) {
    match s.task {
        TaskView::Transfer { .. } => match answer {
            Err(text) => finished(
                s,
                Err(ErrorView::TransportError(staged_text(SEND_RAW_TRANSACTION_FAILED@, text))),
            ),
            Ok(hash) => finished(s, Ok(ReplyView::Text(prefixed_hex_text(hash)))),
        },
        _ => finished(s, Err(ErrorView::OutOfSequence)),
    }
}

/// The next state and request of an operation in state `s` to which the
/// answer `e` arrived. An answer that the operation was not waiting for ends
/// it with `OutOfSequence`.
pub open spec fn next(s: SessionView, e: EventView) -> (SessionView, ActionView) {
    match (s.stage, e) {
        (Stage::AwaitPublicKey, EventView::PublicKey(answer)) => on_public_key(s, answer),
        (Stage::AwaitTransactionCount, EventView::TransactionCount(answer)) => on_transaction_count(s, answer),
        (Stage::AwaitGasPrice, EventView::GasPrice(answer)) => on_gas_price(s, answer),
        (Stage::AwaitBalance, EventView::Balance(answer)) => on_balance(s, answer),
        (Stage::AwaitCall, EventView::CallReturned(answer)) => on_call_returned(s, answer),
        (Stage::AwaitDigestSignature, EventView::DigestSigned(answer)) => on_digest_signed(s, answer),
        (Stage::AwaitSignedTransaction, EventView::TransactionSigned(answer)) => on_transaction_signed(s, answer),
        (Stage::AwaitSent, EventView::Sent(answer)) => on_sent(s, answer),
        _ => finished(s, Err(ErrorView::OutOfSequence)),
    }
}

/// Ends the operation with `outcome`.
pub fn finish(session: Session, outcome: Result<Reply, Error>) -> (r: (Session, Action))
    ensures
        (r.0@, r.1@) == finished(
            session@,
            match outcome {
                Ok(reply) => Ok(reply@),
                Err(e) => Err(e@),
            },
        ),
{
    let mut session = session;
    session.stage = Stage::Done;
    (session, Action::Finish(outcome))
}

/// Goes on with `action` and waits at `stage`.
pub fn wait(session: Session, stage: Stage, action: Action) -> (r: (Session, Action))
    ensures
        (r.0@, r.1@) == waiting(session@, stage, action@),
{
    let mut session = session;
    session.stage = stage;
    (session, action)
}

/// The label under which a failed public key request is reported.
fn key_failure_stage(task: &Task) -> (r: &'static str)
    ensures
        r@ == key_failure_label(task@),
{
    match task {
        Task::EthereumAddress => GET_PUBLIC_KEY_FAILED,
        Task::PublicKey => GET_PUBLIC_KEY_FAILED,
        _ => GET_ETH_ADDR_FAILED,
    }
}

/// The label under which a failed signing is reported.
fn sign_failure_stage(task: &Task) -> (r: &'static str)
    requires
        task is Transfer,
    ensures
        task@ matches TaskView::Transfer { payload, .. } && r@ == sign_failure_label(payload.kind()),
{
    match task {
        Task::Transfer { payload: Payload::ContractCall { .. }, .. } => SIGN_FAILED,
        _ => SIGN_TRANSACTION_ERROR,
    }
}

/// Goes on with a transfer whose sender is known: asks for what is still
/// unresolved, nonce first, and hands the assembled transaction over for
/// signing once nothing is.
pub fn advance_transfer(session: Session) -> (r: (Session, Action))
    ensures
        (r.0@, r.1@) == resolve(session@),
{
    let planned: Option<(Stage, Action)> = match &session.task {
        Task::Transfer { payload, gas_limit, tx_type, .. } => match session.sender {
            Some(sender) => match session.nonce {
                None => Some((Stage::AwaitTransactionCount, Action::QueryTransactionCount { address: sender })),
                Some(nonce) => match session.gas_price {
                    None => Some((Stage::AwaitGasPrice, Action::QueryGasPrice)),
                    Some(gas_price) => {
                        let transaction = build_transaction(
                            payload.duplicate(),
                            *gas_limit,
                            *tx_type,
                            nonce,
                            gas_price,
                            CHAIN_ID,
                        );
                        let from = hex_encode(sender.bytes.as_slice());
                        Some((Stage::AwaitSignedTransaction, Action::SignTransaction { transaction, from }))
                    },
                },
            },
            None => None,
        },
        _ => None,
    };
    match planned {
        Some((stage, action)) => wait(session, stage, action),
        None => finish(session, Err(Error::OutOfSequence)),
    }
}

/// Encodes the read-only call that asks a token for the balance of `account`.
pub fn encode_balance_call(interface: &Interface, account: Address) -> (r: Result<Vec<u8>, Error>)
    ensures
        bytes_result(r) == balance_call_data(interface@, account@),
{
    let mut args: Vec<AbiValue> = Vec::new();
    args.push(AbiValue::Address(account));
    assert(terms(args@) =~= seq![AbiTerm::Address(account@)]);
    encode_call(interface, BALANCE_OF, &args)
}

/// Goes on once the derived account is known.
pub fn proceed_with_sender(session: Session, address: Address) -> (r: (Session, Action))
    ensures
        (r.0@, r.1@) == with_sender(session@, address@),
{
    let mut session = session;
    session.sender = Some(address);
    let planned: Option<(Stage, Action)> = match &session.task {
        Task::EthereumAddress => Some((Stage::Done, Action::Finish(Ok(Reply::Account(account_info(&address)))))),
        Task::TransactionCount => Some((Stage::AwaitTransactionCount, Action::QueryTransactionCount { address })),
        Task::NativeBalance => Some((Stage::AwaitBalance, Action::QueryBalance { address })),
        Task::TokenBalance { token, interface } => match encode_balance_call(interface, address) {
            Ok(data) => Some((Stage::AwaitCall, Action::Call { to: *token, data })),
            Err(e) => Some((Stage::Done, Action::Finish(Err(e)))),
        },
        Task::Transfer { .. } => None,
        _ => Some((Stage::Done, Action::Finish(Err(Error::OutOfSequence)))),
    };
    match planned {
        Some((stage, action)) => wait(session, stage, action),
        None => advance_transfer(session),
    }
}

/// Takes the oracle's answer to a public key request.
pub fn public_key_arrived(session: Session, answer: Result<Vec<u8>, String>) -> (r: (Session, Action))
    ensures
        (r.0@, r.1@) == on_public_key(session@, bytes_answer(answer)),
{
    match answer {
        Err(text) => {
            let message = staged(key_failure_stage(&session.task), text.as_str());
            finish(session, Err(Error::OracleUnavailable(message)))
        },
        Ok(key) => {
            if let Task::PublicKey = session.task {
                finish(session, Ok(Reply::Bytes(key)))
            } else {
                match pubkey_to_address(key.as_slice()) {
                    Err(e) => finish(session, Err(e)),
                    Ok(address) => proceed_with_sender(session, address),
                }
            }
        },
    }
}

/// Takes the chain's answer to a nonce query.
pub fn transaction_count_arrived(session: Session, answer: Result<U256, String>) -> (r: (Session, Action))
    ensures
        (r.0@, r.1@) == on_transaction_count(session@, number_answer(answer)),
{
    match answer {
        Err(text) => {
            let message = staged(GET_TX_COUNT_ERROR, text.as_str());
            finish(session, Err(Error::TransportError(message)))
        },
        Ok(n) => match &session.task {
            Task::TransactionCount => finish(session, Ok(Reply::Text(n.to_decimal()))),
            Task::Transfer { .. } => {
                let mut session = session;
                session.nonce = Some(n);
                advance_transfer(session)
            },
            _ => finish(session, Err(Error::OutOfSequence)),
        },
    }
}

/// Takes the chain's answer to a gas price query.
pub fn gas_price_arrived(session: Session, answer: Result<U256, String>) -> (r: (Session, Action))
    ensures
        (r.0@, r.1@) == on_gas_price(session@, number_answer(answer)),
{
    match answer {
        Err(text) => {
            let message = staged(GET_GAS_PRICE_ERROR, text.as_str());
            finish(session, Err(Error::TransportError(message)))
        },
        Ok(n) => match &session.task {
            Task::GasPrice => finish(session, Ok(Reply::Text(n.to_decimal()))),
            Task::Transfer { .. } => {
                let mut session = session;
                session.gas_price = Some(n);
                advance_transfer(session)
            },
            _ => finish(session, Err(Error::OutOfSequence)),
        },
    }
}

/// Takes the chain's answer to a balance query.
pub fn balance_arrived(session: Session, answer: Result<U256, String>) -> (r: (Session, Action))
    ensures
        (r.0@, r.1@) == on_balance(session@, number_answer(answer)),
{
    match answer {
        Err(text) => {
            let message = staged(GET_BALANCE_FAILED, text.as_str());
            finish(session, Err(Error::TransportError(message)))
        },
        Ok(n) => match &session.task {
            Task::NativeBalance => finish(session, Ok(Reply::Text(n.to_decimal()))),
            _ => finish(session, Err(Error::OutOfSequence)),
        },
    }
}

/// Takes the chain's answer to a read-only contract call.
pub fn call_returned(session: Session, answer: Result<Vec<u8>, String>) -> (r: (Session, Action))
    ensures
        (r.0@, r.1@) == on_call_returned(session@, bytes_answer(answer)),
{
    match answer {
        Err(text) => {
            let message = staged(QUERY_CONTRACT_ERROR, text.as_str());
            finish(session, Err(Error::TransportError(message)))
        },
        Ok(data) => {
            let outcome: Result<Reply, Error> = match &session.task {
                Task::TokenBalance { interface, .. } => match expect_uint(
                    decode_result(interface, BALANCE_OF, data.as_slice()),
                ) {
                    Ok(n) => Ok(Reply::Text(n.to_decimal())),
                    Err(e) => Err(e),
                },
                _ => Err(Error::OutOfSequence),
            };
            finish(session, outcome)
        },
    }
}

/// Takes the oracle's answer to a request to sign a digest.
pub fn digest_signed(session: Session, answer: Result<Vec<u8>, String>) -> (r: (Session, Action))
    ensures
        (r.0@, r.1@) == on_digest_signed(session@, bytes_answer(answer)),
{
    match answer {
        Err(text) => {
            let message = staged(SIGN_DIGEST_FAILED, text.as_str());
            finish(session, Err(Error::SigningRejected(message)))
        },
        Ok(signature) => match &session.task {
            Task::SignMessage => finish(session, Ok(Reply::Bytes(signature))),
            _ => finish(session, Err(Error::OutOfSequence)),
        },
    }
}

/// Takes the outcome of signing a transaction.
pub fn transaction_signed(session: Session, answer: Result<SignedTransaction, String>) -> (r: (Session, Action))
    ensures
        (r.0@, r.1@) == on_transaction_signed(
            session@,
            match answer {
                Ok(t) => Ok(t@),
                Err(t) => Err(t@),
            },
        ),
{
    match &session.task {
        Task::Transfer { broadcast, .. } => {
            let broadcast: bool = *broadcast;
            match answer {
                Err(text) => {
                    let message = staged(sign_failure_stage(&session.task), text.as_str());
                    finish(session, Err(Error::SigningRejected(message)))
                },
                Ok(signed) => {
                    if broadcast {
                        wait(session, Stage::AwaitSent, Action::SendRawTransaction { raw: signed.raw })
                    } else {
                        finish(session, Ok(Reply::Text(prefixed_hex(signed.raw.as_slice()))))
                    }
                },
            }
        },
        _ => finish(session, Err(Error::OutOfSequence)),
    }
}

/// Takes the chain's answer to a raw transaction.
pub fn transaction_sent(session: Session, answer: Result<[u8; 32], String>) -> (r: (Session, Action))
    ensures
        (r.0@, r.1@) == on_sent(
            session@,
            match answer {
                Ok(h) => Ok(h@),
                Err(t) => Err(t@),
            },
        ),
{
    match &session.task {
        Task::Transfer { .. } => match answer {
            Err(text) => {
                let message = staged(SEND_RAW_TRANSACTION_FAILED, text.as_str());
                finish(session, Err(Error::TransportError(message)))
            },
            Ok(hash) => finish(session, Ok(Reply::Text(prefixed_hex(hash.as_slice())))),
        },
        _ => finish(session, Err(Error::OutOfSequence)),
    }
}

/// Takes an answer from the outside world and decides how the operation
/// goes on: the next state, and the next request or the final outcome.
pub fn step(session: Session, event: Event) -> (r: (Session, Action))
    ensures
        (r.0@, r.1@) == next(session@, event@),
{
    match (session.stage, event) {
        (Stage::AwaitPublicKey, Event::PublicKey(answer)) => public_key_arrived(session, answer),
        (Stage::AwaitTransactionCount, Event::TransactionCount(answer)) => transaction_count_arrived(
            session,
            answer,
        ),
        (Stage::AwaitGasPrice, Event::GasPrice(answer)) => gas_price_arrived(session, answer),
        (Stage::AwaitBalance, Event::Balance(answer)) => balance_arrived(session, answer),
        (Stage::AwaitCall, Event::CallReturned(answer)) => call_returned(session, answer),
        (Stage::AwaitDigestSignature, Event::DigestSigned(answer)) => digest_signed(session, answer),
        (Stage::AwaitSignedTransaction, Event::TransactionSigned(answer)) => transaction_signed(session, answer),
        (Stage::AwaitSent, Event::Sent(answer)) => transaction_sent(session, answer),
        (_, _) => finish(session, Err(Error::OutOfSequence)),
    }
}

} // verus!
