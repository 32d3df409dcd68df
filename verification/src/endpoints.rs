//! How each operation starts: what is checked before anything leaves the
//! process, and the first request that is made.

use vstd::prelude::*;
use vstd::slice::slice_to_vec;
use vstd::string::*;
use crate::address::{address_text_bytes, parse_address};
use crate::codec::{
    call_encoding, encode_call, terms, AbiTerm, AbiValue, Interface, Method, MethodView, ParamKind,
};
use crate::digest::{message_digest, sha256, DIGEST_LENGTH};
use crate::errors::{Error, ErrorView};
use crate::keys::{KeyInfo, KeyInfoView};
use crate::pipeline::{balance_call_data, encode_balance_call};
use crate::primitives::{Address, U256};
use crate::session::{Action, ActionView, Session, SessionView, Stage, Task, TaskView};
use crate::transaction::{
    chosen, widen, widened, Overrides, OverridesView, Payload, PayloadView,
};
use crate::utils::{
    contract_client, endpoint_client, generate_contract_client, generate_web3_client, ClientConfig,
    ClientConfigView,
};

verus! {

/// The largest response, in bytes, that a plain chain query accepts.
pub const QUERY_MAX_RESPONSE: u64 = 300;

/// The largest response, in bytes, that a token balance query accepts when
/// the caller names no bound.
pub const TOKEN_QUERY_MAX_RESPONSE: u64 = 400;

/// The token method that moves tokens.
pub const TRANSFER: &'static str = "transfer";

/// What is said of a digest that is not 32 bytes long.
pub const DIGEST_LENGTH_REJECTED: &'static str = "sign_digest failed: digest must be 32 bytes";

/// The methods of a fungible token, as far as their values are modelled.
pub open spec fn erc20_methods() -> Seq<MethodView> {
    seq![
        MethodView { name: "balanceOf"@, inputs: seq![ParamKind::Address], outputs: seq![ParamKind::Uint] },
        MethodView {
            name: "transfer"@,
            inputs: seq![ParamKind::Address, ParamKind::Uint],
            outputs: seq![ParamKind::Bool],
        },
        MethodView {
            name: "approve"@,
            inputs: seq![ParamKind::Address, ParamKind::Uint],
            outputs: seq![ParamKind::Bool],
        },
        MethodView {
            name: "allowance"@,
            inputs: seq![ParamKind::Address, ParamKind::Address],
            outputs: seq![ParamKind::Uint],
        },
        MethodView {
            name: "transferFrom"@,
            inputs: seq![ParamKind::Address, ParamKind::Address, ParamKind::Uint],
            outputs: seq![ParamKind::Bool],
        },
        MethodView { name: "totalSupply"@, inputs: seq![], outputs: seq![ParamKind::Uint] },
    ]
}

/// One row of a method table, with up to three inputs and one output.
fn method(name: &str, inputs: &[ParamKind], output: ParamKind) -> (r: Method)
    ensures
        r@ == (MethodView { name: name@, inputs: inputs@, outputs: seq![output] }),
{
    let mut outputs: Vec<ParamKind> = Vec::new();
    outputs.push(output);
    assert(outputs@ =~= seq![output]);
    Method { name: String::from_str(name), inputs: slice_to_vec(inputs), outputs }
}

/// The interface of a fungible token.
pub fn erc20_interface() -> (r: Interface)
    ensures
        r@ == erc20_methods(),
{
    let owner: [ParamKind; 1] = [ParamKind::Address];
    let to_and_value: [ParamKind; 2] = [ParamKind::Address, ParamKind::Uint];
    let two_accounts: [ParamKind; 2] = [ParamKind::Address, ParamKind::Address];
    let from_to_and_value: [ParamKind; 3] = [ParamKind::Address, ParamKind::Address, ParamKind::Uint];
    let nothing: [ParamKind; 0] = [];
    assert(owner@ =~= seq![ParamKind::Address]);
    assert(to_and_value@ =~= seq![ParamKind::Address, ParamKind::Uint]);
    assert(two_accounts@ =~= seq![ParamKind::Address, ParamKind::Address]);
    assert(from_to_and_value@ =~= seq![ParamKind::Address, ParamKind::Address, ParamKind::Uint]);
    assert(nothing@ =~= seq![]);
    let mut methods: Vec<Method> = Vec::new();
    methods.push(method("balanceOf", owner.as_slice(), ParamKind::Uint));
    methods.push(method("transfer", to_and_value.as_slice(), ParamKind::Bool));
    methods.push(method("approve", to_and_value.as_slice(), ParamKind::Bool));
    methods.push(method("allowance", two_accounts.as_slice(), ParamKind::Uint));
    methods.push(method("transferFrom", from_to_and_value.as_slice(), ParamKind::Bool));
    methods.push(method("totalSupply", nothing.as_slice(), ParamKind::Uint));
    let r = Interface { methods };
    assert(r@ =~= erc20_methods());
    r
}

/// The state of an operation that has learnt nothing yet.
pub open spec fn fresh(
    key: Option<KeyInfoView>,
    client: Option<ClientConfigView>,
    task: TaskView,
    stage: Stage,
) -> SessionView {
    SessionView { key, client, task, stage, sender: None, nonce: None, gas_price: None }
}

/// The mathematical form of how an operation started.
pub open spec fn started(r: Result<(Session, Action), Error>) -> Result<(SessionView, ActionView), ErrorView> {
    match r {
        Ok((session, action)) => Ok((session@, action@)),
        Err(e) => Err(e@),
    }
}

/// A session that has learnt nothing yet.
fn open_session(key: Option<KeyInfo>, client: Option<ClientConfig>, task: Task, stage: Stage) -> (r: Session)
    ensures
        r@ == fresh(
            match key {
                Some(k) => Some(k@),
                None => None,
            },
            match client {
                Some(c) => Some(c@),
                None => None,
            },
            task@,
            stage,
        ),
{
    Session { key, client, task, stage, sender: None, nonce: None, gas_price: None }
}

/// Starts the report of the derived account: the oracle is asked for the public key.
pub fn get_ethereum_address(key: KeyInfo) -> (r: (Session, Action))
    ensures
        r.0@ == fresh(Some(key@), None, TaskView::EthereumAddress, Stage::AwaitPublicKey),
        r.1@ == ActionView::FetchPublicKey,
{
    (open_session(Some(key), None, Task::EthereumAddress, Stage::AwaitPublicKey), Action::FetchPublicKey)
}

/// Starts the report of the oracle's public key.
pub fn get_ecdsa_public_key(key: KeyInfo) -> (r: (Session, Action))
    ensures
        r.0@ == fresh(Some(key@), None, TaskView::PublicKey, Stage::AwaitPublicKey),
        r.1@ == ActionView::FetchPublicKey,
{
    (open_session(Some(key), None, Task::PublicKey, Stage::AwaitPublicKey), Action::FetchPublicKey)
}

/// How [`get_transaction_count`] starts.
pub open spec fn transaction_count_start(key: KeyInfoView, target_addr: Option<Seq<char>>) -> Result<
    (SessionView, ActionView),
    ErrorView,
> {
    let client = Some(endpoint_client(Some(QUERY_MAX_RESPONSE), None));
    match target_addr {
        None => Ok(
            (fresh(Some(key), client, TaskView::TransactionCount, Stage::AwaitPublicKey), ActionView::FetchPublicKey),
        ),
        Some(text) => match address_text_bytes(text) {
            None => Err(ErrorView::InvalidAddress),
            Some(address) => Ok(
                (
                    fresh(Some(key), client, TaskView::TransactionCount, Stage::AwaitTransactionCount),
                    ActionView::QueryTransactionCount { address },
                ),
            ),
        },
    }
}

/// The text of an optional text.
pub open spec fn text_of(t: Option<String>) -> Option<Seq<char>> {
    match t {
        Some(t) => Some(t@),
        None => None,
    }
}

/// Starts the report of a pending nonce: that of `target_addr` if given,
/// which must parse, else that of the derived account.
pub fn get_transaction_count(key: KeyInfo, target_addr: Option<String>) -> (r: Result<(Session, Action), Error>)
    ensures
        started(r) == transaction_count_start(key@, text_of(target_addr)),
{
    let client = generate_web3_client(Some(QUERY_MAX_RESPONSE), None);
    match target_addr {
        None => Ok(
            (
                open_session(Some(key), Some(client), Task::TransactionCount, Stage::AwaitPublicKey),
                Action::FetchPublicKey,
            ),
        ),
        Some(text) => match parse_address(text.as_str()) {
            Err(e) => Err(e),
            Ok(address) => Ok(
                (
                    open_session(Some(key), Some(client), Task::TransactionCount, Stage::AwaitTransactionCount),
                    Action::QueryTransactionCount { address },
                ),
            ),
        },
    }
}

/// Starts the report of the network's gas price.
pub fn get_gas_price() -> (r: (Session, Action))
    ensures
        r.0@ == fresh(
            None,
            Some(endpoint_client(Some(QUERY_MAX_RESPONSE), None)),
            TaskView::GasPrice,
            Stage::AwaitGasPrice,
        ),
        r.1@ == ActionView::QueryGasPrice,
{
    let client = generate_web3_client(Some(QUERY_MAX_RESPONSE), None);
    (open_session(None, Some(client), Task::GasPrice, Stage::AwaitGasPrice), Action::QueryGasPrice)
}

/// Starts the report of the derived account's native balance.
pub fn balance_of_native(key: KeyInfo) -> (r: (Session, Action))
    ensures
        r.0@ == fresh(
            Some(key@),
            Some(endpoint_client(Some(QUERY_MAX_RESPONSE), None)),
            TaskView::NativeBalance,
            Stage::AwaitPublicKey,
        ),
        r.1@ == ActionView::FetchPublicKey,
{
    let client = generate_web3_client(Some(QUERY_MAX_RESPONSE), None);
    (open_session(Some(key), Some(client), Task::NativeBalance, Stage::AwaitPublicKey), Action::FetchPublicKey)
}

/// How [`sign_digest`] starts: only a digest of 32 bytes is handed to the oracle.
pub open spec fn digest_start(key: KeyInfoView, digest: Seq<u8>) -> Result<(SessionView, ActionView), ErrorView> {
    if digest.len() == DIGEST_LENGTH {
        Ok(
            (
                fresh(Some(key), None, TaskView::SignMessage, Stage::AwaitDigestSignature),
                ActionView::SignDigest { digest },
            ),
        )
    } else {
        Err(ErrorView::SigningRejected(DIGEST_LENGTH_REJECTED@))
    }
}

/// Starts the signing of a digest that was computed beforehand. A digest of
/// any length but 32 is rejected before the oracle is asked.
pub fn sign_digest(key: KeyInfo, digest: Vec<u8>) -> (r: Result<(Session, Action), Error>)
    ensures
        started(r) == digest_start(key@, digest@),
{
    if digest.len() == DIGEST_LENGTH {
        Ok(
            (
                open_session(Some(key), None, Task::SignMessage, Stage::AwaitDigestSignature),
                Action::SignDigest { digest },
            ),
        )
    } else {
        Err(Error::SigningRejected(String::from_str(DIGEST_LENGTH_REJECTED)))
    }
}

/// Starts the signing of a message: the oracle is asked to sign the SHA-256
/// digest of the message's bytes, never the message itself.
pub fn sign_message(key: KeyInfo, message: String) -> (r: Result<(Session, Action), Error>)
    ensures
        started(r) == digest_start(key@, sha256(vstd::utf8::encode_utf8(message@))),
        r is Ok,
{
    sign_digest(key, message_digest(message.as_str()))
}

/// How the signing of a transaction starts: with what the caller fixed in
/// advance, waiting for the oracle's public key.
pub open spec fn transfer_start(
    key: KeyInfoView,
    client: ClientConfigView,
    payload: PayloadView,
    overrides: OverridesView,
    broadcast: bool,
) -> (SessionView, ActionView) {
    (
        SessionView {
            key: Some(key),
            client: Some(client),
            task: TaskView::Transfer {
                payload,
                gas_limit: overrides.gas_limit,
                tx_type: overrides.tx_type,
                broadcast,
            },
            stage: Stage::AwaitPublicKey,
            sender: None,
            nonce: overrides.nonce,
            gas_price: overrides.gas_price,
        },
        ActionView::FetchPublicKey,
    )
}

/// Starts the signing of a transaction that carries `payload`; if
/// `broadcast` is set the signed bytes are sent, else they are only reported.
pub fn sign_and_maybe_broadcast(
    key: KeyInfo,
    client: ClientConfig,
    payload: Payload,
    overrides: Overrides,
    broadcast: bool,
) -> (r: (Session, Action))
    ensures
        (r.0@, r.1@) == transfer_start(key@, client@, payload@, overrides@, broadcast),
{
    let session = Session {
        key: Some(key),
        client: Some(client),
        task: Task::Transfer { payload, gas_limit: overrides.gas_limit, tx_type: overrides.tx_type, broadcast },
        stage: Stage::AwaitPublicKey,
        sender: None,
        nonce: overrides.nonce,
        gas_price: overrides.gas_price,
    };
    (session, Action::FetchPublicKey)
}

/// What the transfer operations fix in advance: at most nonce and gas price.
pub open spec fn chosen_in_advance(tx_count: Option<u128>, gas_price: Option<u128>) -> OverridesView {
    OverridesView { nonce: widened(tx_count), gas_price: widened(gas_price), gas_limit: None, tx_type: None }
}

/// What the transfer operations fix in advance: at most nonce and gas price.
pub fn choose_in_advance(tx_count: Option<u128>, gas_price: Option<u128>) -> (r: Overrides)
    ensures
        r@ == chosen_in_advance(tx_count, gas_price),
{
    Overrides { nonce: widen(tx_count), gas_price: widen(gas_price), gas_limit: None, tx_type: None }
}

/// How a native transfer starts: the recipient must parse before anything
/// leaves the process.
pub open spec fn native_transfer_start(
    key: KeyInfoView,
    client: ClientConfigView,
    to: Seq<char>,
    value: u64,
    tx_count: Option<u128>,
    gas_price: Option<u128>,
    broadcast: bool,
) -> Result<(SessionView, ActionView), ErrorView> {
    match address_text_bytes(to) {
        None => Err(ErrorView::InvalidAddress),
        Some(to) => Ok(
            transfer_start(
                key,
                client,
                PayloadView::NativeTransfer { to, value: value as nat },
                chosen_in_advance(tx_count, gas_price),
                broadcast,
            ),
        ),
    }
}

/// Starts a transfer of `value` in native currency to `to`.
pub fn sign_transfer_native_internal(
    key: KeyInfo,
    client: ClientConfig,
    to: String,
    value: u64,
    tx_count: Option<u128>,
    gas_price: Option<u128>,
    broadcast: bool,
) -> (r: Result<(Session, Action), Error>)
    ensures
        started(r) == native_transfer_start(key@, client@, to@, value, tx_count, gas_price, broadcast),
{
    match parse_address(to.as_str()) {
        Err(e) => Err(e),
        Ok(to) => Ok(
            sign_and_maybe_broadcast(
                key,
                client,
                Payload::NativeTransfer { to, value: U256::from_u64(value) },
                choose_in_advance(tx_count, gas_price),
                broadcast,
            ),
        ),
    }
}

/// Starts the signing of a native transfer whose signed bytes are reported
/// and not sent.
pub fn sign_transfer_native(
    key: KeyInfo,
    to: String,
    value: u64,
    tx_count: Option<u128>,
    gas_price: Option<u128>,
    max_resp: u64,
) -> (r: Result<(Session, Action), Error>)
    ensures
        started(r) == native_transfer_start(
            key@,
            endpoint_client(Some(max_resp), None),
            to@,
            value,
            tx_count,
            gas_price,
            false,
        ),
{
    let client = generate_web3_client(Some(max_resp), None);
    sign_transfer_native_internal(key, client, to, value, tx_count, gas_price, false)
}

/// Starts a native transfer that is signed and then sent.
pub fn transfer_native(
    key: KeyInfo,
    to: String,
    value: u64,
    tx_count: Option<u128>,
    gas_price: Option<u128>,
    max_resp: u64,
) -> (r: Result<(Session, Action), Error>)
    ensures
        started(r) == native_transfer_start(
            key@,
            endpoint_client(Some(max_resp), None),
            to@,
            value,
            tx_count,
            gas_price,
            true,
        ),
{
    let client = generate_web3_client(Some(max_resp), None);
    sign_transfer_native_internal(key, client, to, value, tx_count, gas_price, true)
}

/// How a contract call starts: the contract's address must parse and the
/// call must encode, both before anything leaves the process. The call data
/// becomes the transaction's data.
pub open spec fn contract_call_start(
    key: KeyInfoView,
    client: ClientConfigView,
    contract_addr: Seq<char>,
    abi: Seq<MethodView>,
    func: Seq<char>,
    params: Seq<AbiTerm>,
    tx_count: Option<u128>,
    gas_price: Option<u128>,
    broadcast: bool,
) -> Result<(SessionView, ActionView), ErrorView> {
    match contract_client(client, contract_addr, abi) {
        Err(e) => Err(e),
        Ok(contract) => match call_encoding(abi, func, params) {
            Err(e) => Err(e),
            Ok(data) => Ok(
                transfer_start(
                    key,
                    contract.client,
                    PayloadView::ContractCall { contract: contract.address, data },
                    chosen_in_advance(tx_count, gas_price),
                    broadcast,
                ),
            ),
        },
    }
}

/// Starts a call of `func` with `params` on the contract at `contract_addr`.
pub fn sign_tx(
    key: KeyInfo,
    client: ClientConfig,
    contract_addr: &str,
    abi: Interface,
    func: &str,
    params: &Vec<AbiValue>,
    tx_count: Option<u128>,
    gas_price: Option<u128>,
    broadcast: bool,
) -> (r: Result<(Session, Action), Error>)
    ensures
        started(r) == contract_call_start(
            key@,
            client@,
            contract_addr@,
            abi@,
            func@,
            terms(params@),
            tx_count,
            gas_price,
            broadcast,
        ),
{
    match generate_contract_client(client, contract_addr, abi) {
        Err(e) => Err(e),
        Ok(contract) => match encode_call(&contract.interface, func, params) {
            Err(e) => Err(e),
            Ok(data) => Ok(
                sign_and_maybe_broadcast(
                    key,
                    contract.client,
                    Payload::ContractCall { contract: contract.address, data },
                    choose_in_advance(tx_count, gas_price),
                    broadcast,
                ),
            ),
        },
    }
}

/// How a token transfer starts: the recipient must parse first, then the
/// call of `transfer(to, value)` on the token is prepared.
pub open spec fn token_transfer_start(
    key: KeyInfoView,
    client: ClientConfigView,
    token_addr: Seq<char>,
    to_addr: Seq<char>,
    value: u64,
    tx_count: Option<u128>,
    gas_price: Option<u128>,
    broadcast: bool,
) -> Result<(SessionView, ActionView), ErrorView> {
    match address_text_bytes(to_addr) {
        None => Err(ErrorView::InvalidAddress),
        Some(to) => contract_call_start(
            key,
            client,
            token_addr,
            erc20_methods(),
            TRANSFER@,
            seq![AbiTerm::Address(to), AbiTerm::Uint(value as nat)],
            tx_count,
            gas_price,
            broadcast,
        ),
    }
}

/// Starts a transfer of `value` tokens of the token at `token_addr` to `to_addr`.
pub fn sign_transfer_erc20_internal(
    key: KeyInfo,
    client: ClientConfig,
    token_addr: String,
    to_addr: String,
    value: u64,
    tx_count: Option<u128>,
    gas_price: Option<u128>,
    broadcast: bool,
) -> (r: Result<(Session, Action), Error>)
    ensures
        started(r) == token_transfer_start(
            key@,
            client@,
            token_addr@,
            to_addr@,
            value,
            tx_count,
            gas_price,
            broadcast,
        ),
{
    match parse_address(to_addr.as_str()) {
        Err(e) => Err(e),
        Ok(to) => {
            let mut params: Vec<AbiValue> = Vec::new();
            params.push(AbiValue::Address(to));
            params.push(AbiValue::Uint(U256::from_u64(value)));
            assert(terms(params@) =~= seq![AbiTerm::Address(to@), AbiTerm::Uint(value as nat)]);
            sign_tx(
                key,
                client,
                token_addr.as_str(),
                erc20_interface(),
                TRANSFER,
                &params,
                tx_count,
                gas_price,
                broadcast,
            )
        },
    }
}

/// Starts the signing of a token transfer whose signed bytes are reported
/// and not sent.
pub fn sign_transfer_erc20(
    key: KeyInfo,
    token_addr: String,
    to_addr: String,
    value: u64,
    tx_count: Option<u128>,
    gas_price: Option<u128>,
    max_resp: u64,
) -> (r: Result<(Session, Action), Error>)
    ensures
        started(r) == token_transfer_start(
            key@,
            endpoint_client(Some(max_resp), None),
            token_addr@,
            to_addr@,
            value,
            tx_count,
            gas_price,
            false,
        ),
{
    let client = generate_web3_client(Some(max_resp), None);
    sign_transfer_erc20_internal(key, client, token_addr, to_addr, value, tx_count, gas_price, false)
}

/// Starts a token transfer that is signed and then sent.
pub fn transfer_erc20(
    key: KeyInfo,
    token_addr: String,
    to_addr: String,
    value: u64,
    tx_count: Option<u128>,
    gas_price: Option<u128>,
    max_resp: u64,
) -> (r: Result<(Session, Action), Error>)
    ensures
        started(r) == token_transfer_start(
            key@,
            endpoint_client(Some(max_resp), None),
            token_addr@,
            to_addr@,
            value,
            tx_count,
            gas_price,
            true,
        ),
{
    let client = generate_web3_client(Some(max_resp), None);
    sign_transfer_erc20_internal(key, client, token_addr, to_addr, value, tx_count, gas_price, true)
}

/// How a token balance query starts. With an account given, the account
/// must parse and the call is made at once; without, the oracle is asked for
/// the public key first.
pub open spec fn token_balance_start(
    key: KeyInfoView,
    client: ClientConfigView,
    token_addr: Seq<char>,
    abi: Seq<MethodView>,
    account_addr: Option<Seq<char>>,
) -> Result<(SessionView, ActionView), ErrorView> {
    match contract_client(client, token_addr, abi) {
        Err(e) => Err(e),
        Ok(contract) => {
            let task = TaskView::TokenBalance { token: contract.address, interface: contract.interface };
            match account_addr {
                None => Ok(
                    (fresh(Some(key), Some(contract.client), task, Stage::AwaitPublicKey), ActionView::FetchPublicKey),
                ),
                Some(text) => match address_text_bytes(text) {
                    None => Err(ErrorView::InvalidAddress),
                    Some(account) => match balance_call_data(contract.interface, account) {
                        Err(e) => Err(e),
                        Ok(data) => Ok(
                            (
                                fresh(Some(key), Some(contract.client), task, Stage::AwaitCall),
                                ActionView::Call { to: contract.address, data },
                            ),
                        ),
                    },
                },
            }
        },
    }
}

/// Starts the query of the balance that the token at `token_addr`, with the
/// interface `abi`, keeps for `account_addr`, or for the derived account if
/// none is given.
pub fn balance_of_token(
    key: KeyInfo,
    client: ClientConfig,
    token_addr: &str,
    abi: Interface,
    account_addr: Option<String>,
) -> (r: Result<(Session, Action), Error>)
    ensures
        started(r) == token_balance_start(key@, client@, token_addr@, abi@, text_of(account_addr)),
{
    match generate_contract_client(client, token_addr, abi) {
        Err(e) => Err(e),
        Ok(contract) => {
            let token = contract.address;
            match account_addr {
                None => Ok(
                    (
                        open_session(
                            Some(key),
                            Some(contract.client),
                            Task::TokenBalance { token, interface: contract.interface },
                            Stage::AwaitPublicKey,
                        ),
                        Action::FetchPublicKey,
                    ),
                ),
                Some(text) => match parse_address(text.as_str()) {
                    Err(e) => Err(e),
                    Ok(account) => match encode_balance_call(&contract.interface, account) {
                        Err(e) => Err(e),
                        Ok(data) => Ok(
                            (
                                open_session(
                                    Some(key),
                                    Some(contract.client),
                                    Task::TokenBalance { token, interface: contract.interface },
                                    Stage::AwaitCall,
                                ),
                                Action::Call { to: token, data },
                            ),
                        ),
                    },
                },
            }
        },
    }
}

/// Starts the query of a token balance with responses bounded by
/// `max_resp`, or by [`TOKEN_QUERY_MAX_RESPONSE`] if no bound is given.
pub fn balance_of_erc20(
    key: KeyInfo,
    token_addr: String,
    account_addr: Option<String>,
    max_resp: Option<u64>,
) -> (r: Result<(Session, Action), Error>)
    ensures
        started(r) == token_balance_start(
            key@,
            endpoint_client(Some(chosen(max_resp, TOKEN_QUERY_MAX_RESPONSE)), None),
            token_addr@,
            erc20_methods(),
            text_of(account_addr),
        ),
{
    let max_resp: Option<u64> = match max_resp {
        Some(v) => Some(v),
        None => Some(TOKEN_QUERY_MAX_RESPONSE),
    };
    let client = generate_web3_client(max_resp, None);
    balance_of_token(key, client, token_addr.as_str(), erc20_interface(), account_addr)
}

} // verus!
