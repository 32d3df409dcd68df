//! What holds of every operation, whatever answers arrive.

use vstd::prelude::*;
use crate::address::address_text_bytes;
use crate::codec::{AbiTerm, MethodView};
use crate::endpoints::{
    contract_call_start, digest_start, fresh, native_transfer_start, token_balance_start,
    token_transfer_start, transaction_count_start, transfer_start,
};
use crate::errors::{error_text, ErrorView};
use crate::keys::KeyInfoView;
use crate::pipeline::{
    finished, key_failure_label, next, sign_failure_label, GET_BALANCE_FAILED, GET_GAS_PRICE_ERROR,
    GET_TX_COUNT_ERROR, QUERY_CONTRACT_ERROR, SEND_RAW_TRANSACTION_FAILED, SIGN_DIGEST_FAILED, SIGN_FAILED,
};
use crate::primitives::hex_encoding;
use crate::session::{ActionView, EventView, SessionView, Stage, TaskView};
use crate::transaction::{chosen, default_gas_limit, default_tx_type, OverridesView, PayloadView, TxType};
use crate::utils::ClientConfigView;

verus! {

/// Whether a stage waits for the signing oracle.
pub open spec fn waits_for_oracle(stage: Stage) -> bool {
    stage == Stage::AwaitPublicKey || stage == Stage::AwaitDigestSignature || stage
        == Stage::AwaitSignedTransaction
}

/// Whether a stage waits for the chain.
pub open spec fn waits_for_chain(stage: Stage) -> bool {
    stage == Stage::AwaitTransactionCount || stage == Stage::AwaitGasPrice || stage == Stage::AwaitBalance
        || stage == Stage::AwaitCall || stage == Stage::AwaitSent
}

/// Whether a task can be waiting at a stage.
pub open spec fn stage_fits(task: TaskView, stage: Stage) -> bool {
    match stage {
        Stage::AwaitPublicKey => !(task is GasPrice) && !(task is SignMessage),
        Stage::AwaitTransactionCount => task is TransactionCount || task is Transfer,
        Stage::AwaitGasPrice => task is GasPrice || task is Transfer,
        Stage::AwaitBalance => task is NativeBalance,
        Stage::AwaitCall => task is TokenBalance,
        Stage::AwaitDigestSignature => task is SignMessage,
        Stage::AwaitSignedTransaction => task is Transfer,
        Stage::AwaitSent => task matches TaskView::Transfer { broadcast, .. } && broadcast,
        Stage::Done => true,
    }
}

/// The states that an operation can be in: it has the means for whatever it
/// waits for or may still ask, and a transfer waits for the nonce only while
/// none is set, for the gas price only once the nonce is set, and for the
/// signature only once both are.
pub open spec fn well_formed(s: SessionView) -> bool {
    &&& stage_fits(s.task, s.stage)
    &&& waits_for_oracle(s.stage) ==> s.key is Some
    &&& waits_for_chain(s.stage) ==> s.client is Some
    &&& s.stage != Stage::Done && (s.task is Transfer || s.task is TransactionCount || s.task is NativeBalance
        || s.task is TokenBalance) ==> s.client is Some
    &&& s.stage != Stage::Done && s.task is Transfer ==> s.key is Some
    &&& s.task is Transfer && s.stage == Stage::AwaitTransactionCount ==> s.sender is Some && s.nonce is None
    &&& s.task is Transfer && s.stage == Stage::AwaitGasPrice ==> s.sender is Some && s.nonce is Some
        && s.gas_price is None
    &&& s.stage == Stage::AwaitSignedTransaction || s.stage == Stage::AwaitSent ==> s.sender is Some
        && s.nonce is Some && s.gas_price is Some
}

/// Every step leads from a well-formed state to a well-formed state.
pub proof fn lemma_step_keeps_well_formed(s: SessionView, e: EventView)
    requires
        well_formed(s),
    ensures
        well_formed(next(s, e).0),
{
}

/// The key, the client and the task of an operation never change: every
/// request of one operation goes to the key and the client it started with.
pub proof fn lemma_step_keeps_key_client_and_task(s: SessionView, e: EventView)
    ensures
        next(s, e).0.key == s.key,
        next(s, e).0.client == s.client,
        next(s, e).0.task == s.task,
{
}

/// No request is made without its means: a request to the oracle is made
/// only by an operation that holds a key, a request to the chain only by one
/// that holds a client.
pub proof fn lemma_requests_have_their_means(s: SessionView, e: EventView)
    requires
        well_formed(s),
    ensures
        next(s, e).1.asks_oracle() ==> next(s, e).0.key is Some,
        next(s, e).1.asks_chain() ==> next(s, e).0.client is Some,
{
}

/// How many requests an operation at a stage may still make.
pub open spec fn requests_left(stage: Stage) -> nat {
    match stage {
        Stage::AwaitPublicKey => 5,
        Stage::AwaitTransactionCount => 4,
        Stage::AwaitGasPrice => 3,
        Stage::AwaitSignedTransaction => 2,
        Stage::AwaitSent => 1,
        Stage::AwaitBalance => 1,
        Stage::AwaitCall => 1,
        Stage::AwaitDigestSignature => 1,
        Stage::Done => 0,
    }
}

/// An operation is one straight line: every answer brings it strictly
/// closer to its end, so none makes more than five requests after its first.
pub proof fn lemma_step_makes_progress(s: SessionView, e: EventView)
    requires
        well_formed(s),
        s.stage != Stage::Done,
    ensures
        requests_left(next(s, e).0.stage) < requests_left(s.stage),
{
}

/// An operation that is over stays over: whatever arrives, it makes no
/// further request.
pub proof fn lemma_done_stays_done(s: SessionView, e: EventView)
    requires
        s.stage == Stage::Done,
    ensures
        next(s, e) == finished(s, Err(ErrorView::OutOfSequence)),
{
}

/// An operation ends exactly when its step hands out a final outcome.
pub proof fn lemma_finish_means_done(s: SessionView, e: EventView)
    requires
        well_formed(s),
    ensures
        next(s, e).1 is Finish <==> next(s, e).0.stage == Stage::Done,
{
}

/// Whether an answer reports a failure of the remote party.
pub open spec fn is_failure(e: EventView) -> bool {
    match e {
        EventView::PublicKey(r) => r is Err,
        EventView::TransactionCount(r) => r is Err,
        EventView::GasPrice(r) => r is Err,
        EventView::Balance(r) => r is Err,
        EventView::CallReturned(r) => r is Err,
        EventView::DigestSigned(r) => r is Err,
        EventView::TransactionSigned(r) => r is Err,
        EventView::Sent(r) => r is Err,
    }
}

/// Failures are not retried and not swallowed: a failed answer ends the
/// operation with a failure, and nothing is signed or sent after it.
pub proof fn lemma_failure_ends_operation(s: SessionView, e: EventView, later: EventView)
    requires
        is_failure(e),
    ensures
        next(s, e).0.stage == Stage::Done,
        next(s, e).1 matches ActionView::Finish(outcome) && outcome is Err,
        next(next(s, e).0, later).1 is Finish,
{
}

/// The remote party's text of a failed answer.
pub open spec fn upstream_of(e: EventView) -> Seq<char> {
    match e {
        EventView::PublicKey(r) => r->Err_0,
        EventView::TransactionCount(r) => r->Err_0,
        EventView::GasPrice(r) => r->Err_0,
        EventView::Balance(r) => r->Err_0,
        EventView::CallReturned(r) => r->Err_0,
        EventView::DigestSigned(r) => r->Err_0,
        EventView::TransactionSigned(r) => r->Err_0,
        EventView::Sent(r) => r->Err_0,
    }
}

/// The stage that a failed answer is reported under.
pub open spec fn stage_label(task: TaskView, e: EventView) -> Seq<char> {
    match e {
        EventView::PublicKey(_) => key_failure_label(task),
        EventView::TransactionCount(_) => GET_TX_COUNT_ERROR@,
        EventView::GasPrice(_) => GET_GAS_PRICE_ERROR@,
        EventView::Balance(_) => GET_BALANCE_FAILED@,
        EventView::CallReturned(_) => QUERY_CONTRACT_ERROR@,
        EventView::DigestSigned(_) => SIGN_DIGEST_FAILED@,
        EventView::TransactionSigned(_) => match task {
            TaskView::Transfer { payload, .. } => sign_failure_label(payload.kind()),
            _ => SIGN_FAILED@,
        },
        EventView::Sent(_) => SEND_RAW_TRANSACTION_FAILED@,
    }
}

/// The class that a failed answer is reported in.
pub open spec fn class_of(e: EventView, text: Seq<char>) -> ErrorView {
    match e {
        EventView::PublicKey(_) => ErrorView::OracleUnavailable(text),
        EventView::DigestSigned(_) => ErrorView::SigningRejected(text),
        EventView::TransactionSigned(_) => ErrorView::SigningRejected(text),
        _ => ErrorView::TransportError(text),
    }
}

/// No stage label is empty.
pub proof fn lemma_stage_labels_are_not_empty(task: TaskView, e: EventView)
    ensures
        stage_label(task, e).len() > 0,
{
    reveal_strlit("get_public_key failed: ");
    reveal_strlit("get_eth_addr failed: ");
    reveal_strlit("get tx count error: ");
    reveal_strlit("get gas_price error: ");
    reveal_strlit("get balance failed: ");
    reveal_strlit("query contract error: ");
    reveal_strlit("sign_digest failed: ");
    reveal_strlit("sign_transaction error: ");
    reveal_strlit("sign failed: ");
    reveal_strlit("send_raw_transaction failed: ");
}

/// Every failure has a text to show, and it is never empty.
pub proof fn lemma_every_failure_has_a_text(failure: ErrorView)
    ensures
        error_text(failure).len() > 0,
{
    reveal_strlit("invalid public key format");
    reveal_strlit("invalid address");
    reveal_strlit("unknown contract method");
    reveal_strlit("argument type mismatch");
    reveal_strlit("call data too long");
    reveal_strlit("malformed return data");
    reveal_strlit("event out of sequence");
    reveal_strlit("transport error: ");
    reveal_strlit("oracle unavailable: ");
    reveal_strlit("signing rejected: ");
}

/// A failed answer that was awaited is reported in its class, under the
/// stage that failed, with the remote party's text: the failure carries the
/// stage label and then that text, and the text shown to a user is the class
/// label before both. It is always longer than the remote party's text alone.
pub proof fn lemma_remote_failure_names_class_stage_and_cause(s: SessionView, e: EventView)
    requires
        is_failure(e),
    ensures
        next(s, e).1 matches ActionView::Finish(Err(failure)) && (failure == ErrorView::OutOfSequence || {
            let carried = stage_label(s.task, e) + upstream_of(e);
            &&& failure == class_of(e, carried)
            &&& stage_label(s.task, e).len() > 0
            &&& error_text(failure).len() > carried.len() > upstream_of(e).len()
            &&& error_text(failure).subrange(
                error_text(failure).len() - upstream_of(e).len(),
                error_text(failure).len() as int,
            ) == upstream_of(e)
        }),
{
    lemma_stage_labels_are_not_empty(s.task, e);
    let carried = stage_label(s.task, e) + upstream_of(e);
    lemma_every_failure_has_a_text(class_of(e, Seq::empty()));
    let failure = class_of(e, carried);
    assert(error_text(failure).subrange(
        error_text(failure).len() - upstream_of(e).len(),
        error_text(failure).len() as int,
    ) =~= upstream_of(e));
}

/// A failed gas price query surfaces as a transport failure that carries
/// the remote party's text after the stage label, and ends the operation.
pub proof fn lemma_gas_price_failure_is_reported(s: SessionView, upstream: Seq<char>)
    requires
        s.stage == Stage::AwaitGasPrice,
    ensures
        next(s, EventView::GasPrice(Err(upstream))) == finished(
            s,
            Err(ErrorView::TransportError(GET_GAS_PRICE_ERROR@ + upstream)),
        ),
        (GET_GAS_PRICE_ERROR@ + upstream).subrange(
            GET_GAS_PRICE_ERROR@.len() as int,
            (GET_GAS_PRICE_ERROR@ + upstream).len() as int,
        ) == upstream,
{
    assert((GET_GAS_PRICE_ERROR@ + upstream).subrange(
        GET_GAS_PRICE_ERROR@.len() as int,
        (GET_GAS_PRICE_ERROR@ + upstream).len() as int,
    ) =~= upstream);
}

/// The transaction that is handed over for signing has its nonce, its gas
/// price and its gas limit set, whichever of them the caller fixed in
/// advance: what was fixed is kept, the nonce and gas price that were left
/// open are the ones the chain reported, and a gas limit left open is the
/// default of the transaction's kind.
pub proof fn lemma_signed_transaction_is_resolved(s: SessionView, e: EventView)
    requires
        well_formed(s),
        next(s, e).1 is SignTransaction,
    ensures
        ({
            let after = next(s, e).0;
            let transaction = next(s, e).1->SignTransaction_transaction;
            &&& s.task matches TaskView::Transfer { payload, gas_limit, tx_type, .. }
            &&& after.nonce == Some(transaction.nonce)
            &&& after.gas_price == Some(transaction.gas_price)
            &&& s.nonce matches Some(n) ==> transaction.nonce == n
            &&& s.gas_price matches Some(p) ==> transaction.gas_price == p
            &&& s.nonce is None ==> e == EventView::TransactionCount(Ok(transaction.nonce))
            &&& s.gas_price is None ==> e == EventView::GasPrice(Ok(transaction.gas_price))
            &&& transaction.gas_limit == chosen(gas_limit, default_gas_limit(payload.kind()))
            &&& transaction.tx_type == chosen(tx_type, default_tx_type(payload.kind()))
            &&& after.sender matches Some(sender) && next(s, e).1->SignTransaction_from == hex_encoding(sender)
        }),
{
}

/// A native transfer that fixes no gas limit is signed with a gas limit of
/// 21000, in a legacy envelope, with no data; a contract call carries its
/// call data unchanged and moves no value.
pub proof fn lemma_signed_transaction_carries_payload(s: SessionView, e: EventView)
    requires
        well_formed(s),
        next(s, e).1 is SignTransaction,
    ensures
        ({
            let transaction = next(s, e).1->SignTransaction_transaction;
            &&& s.task matches TaskView::Transfer { payload, gas_limit, tx_type, .. }
            &&& payload matches PayloadView::NativeTransfer { to, value } ==> {
                &&& transaction.to == Some(to)
                &&& transaction.value == value
                &&& transaction.data == Seq::<u8>::empty()
                &&& gas_limit is None ==> transaction.gas_limit == 21000
                &&& tx_type is None ==> transaction.tx_type == TxType::Legacy
            }
            &&& payload matches PayloadView::ContractCall { contract, data } ==> {
                &&& transaction.to == Some(contract)
                &&& transaction.value == 0
                &&& transaction.data == data
                &&& tx_type is None ==> transaction.tx_type == TxType::Eip1559
            }
        }),
{
}

/// Signing without broadcast has no effect on the chain: an operation that
/// was not asked to broadcast never sends a transaction, and one that was
/// sends exactly the bytes that came back from signing.
pub proof fn lemma_only_a_broadcast_sends(s: SessionView, e: EventView)
    requires
        next(s, e).1 is SendRawTransaction,
    ensures
        s.task matches TaskView::Transfer { broadcast, .. } && broadcast,
        s.stage == Stage::AwaitSignedTransaction,
        e matches EventView::TransactionSigned(Ok(signed)) && next(s, e).1 == (ActionView::SendRawTransaction {
            raw: signed.raw,
        }),
{
}

/// A recipient that does not parse stops a native transfer before any
/// request is made: the operation does not start at all.
pub proof fn lemma_invalid_recipient_stops_native_transfer(
    key: KeyInfoView,
    client: ClientConfigView,
    to: Seq<char>,
    value: u64,
    tx_count: Option<u128>,
    gas_price: Option<u128>,
    broadcast: bool,
)
    requires
        address_text_bytes(to) is None,
    ensures
        native_transfer_start(key, client, to, value, tx_count, gas_price, broadcast) == Err::<
            (SessionView, ActionView),
            ErrorView,
        >(ErrorView::InvalidAddress),
{
}

/// A recipient that does not parse stops a token transfer before any
/// request is made, whatever the token's address is.
pub proof fn lemma_invalid_recipient_stops_token_transfer(
    key: KeyInfoView,
    client: ClientConfigView,
    token_addr: Seq<char>,
    to_addr: Seq<char>,
    value: u64,
    tx_count: Option<u128>,
    gas_price: Option<u128>,
    broadcast: bool,
)
    requires
        address_text_bytes(to_addr) is None,
    ensures
        token_transfer_start(key, client, token_addr, to_addr, value, tx_count, gas_price, broadcast) == Err::<
            (SessionView, ActionView),
            ErrorView,
        >(ErrorView::InvalidAddress),
{
}

/// A token address that does not parse stops a contract call and a balance
/// query before any request is made.
pub proof fn lemma_invalid_contract_address_stops_operation(
    key: KeyInfoView,
    client: ClientConfigView,
    contract_addr: Seq<char>,
    abi: Seq<MethodView>,
    func: Seq<char>,
    params: Seq<AbiTerm>,
    tx_count: Option<u128>,
    gas_price: Option<u128>,
    broadcast: bool,
    account_addr: Option<Seq<char>>,
)
    requires
        address_text_bytes(contract_addr) is None,
    ensures
        contract_call_start(key, client, contract_addr, abi, func, params, tx_count, gas_price, broadcast)
            == Err::<(SessionView, ActionView), ErrorView>(ErrorView::InvalidAddress),
        token_balance_start(key, client, contract_addr, abi, account_addr) == Err::<
            (SessionView, ActionView),
            ErrorView,
        >(ErrorView::InvalidAddress),
{
}

/// Every operation starts in a well-formed state.
pub proof fn lemma_starts_are_well_formed(
    key: KeyInfoView,
    client: ClientConfigView,
    payload: PayloadView,
    overrides: OverridesView,
    broadcast: bool,
    target_addr: Option<Seq<char>>,
    digest: Seq<u8>,
    token_addr: Seq<char>,
    abi: Seq<MethodView>,
)
    ensures
        well_formed(transfer_start(key, client, payload, overrides, broadcast).0),
        transaction_count_start(key, target_addr) matches Ok(start) ==> well_formed(start.0),
        digest_start(key, digest) matches Ok(start) ==> well_formed(start.0),
        token_balance_start(key, client, token_addr, abi, target_addr) matches Ok(start) ==> well_formed(
            start.0,
        ),
        well_formed(fresh(Some(key), None, TaskView::EthereumAddress, Stage::AwaitPublicKey)),
        well_formed(fresh(Some(key), None, TaskView::PublicKey, Stage::AwaitPublicKey)),
        well_formed(fresh(Some(key), Some(client), TaskView::NativeBalance, Stage::AwaitPublicKey)),
        well_formed(fresh(None, Some(client), TaskView::GasPrice, Stage::AwaitGasPrice)),
{
}

} // verus!
