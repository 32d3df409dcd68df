//! The state of one operation in flight, the requests it makes of the outside
//! world, and the answers it takes back.

use vstd::prelude::*;
use crate::address::AccountInfo;
use crate::codec::{Interface, MethodView};
use crate::errors::{Error, ErrorView};
use crate::keys::{KeyInfo, KeyInfoView};
use crate::primitives::{Address, U256};
use crate::transaction::{
    Payload, PayloadView, SignedTransaction, SignedTransactionView, TxType, UnsignedTransaction,
    UnsignedTransactionView,
};
use crate::utils::{ClientConfig, ClientConfigView};

verus! {

/// What an operation hands back when it succeeds.
#[derive(Debug)]
pub enum Reply {
    /// A number in decimal, or bytes in hexadecimal after `0x`.
    Text(String),
    /// The derived account.
    Account(AccountInfo),
    /// A public key or a signature.
    Bytes(Vec<u8>),
}

/// The mathematical form of a [`Reply`].
pub enum ReplyView {
    Text(Seq<char>),
    Account(Seq<char>),
    Bytes(Seq<u8>),
}

impl View for Reply {
    type V = ReplyView;

    open spec fn view(&self) -> ReplyView {
        match self {
            Reply::Text(t) => ReplyView::Text(t@),
            Reply::Account(a) => ReplyView::Account(a@),
            Reply::Bytes(b) => ReplyView::Bytes(b@),
        }
    }
}

/// What the operation is waiting for.
#[derive(Clone, Copy, Debug, PartialEq, Eq, Structural)]
pub enum Stage {
    AwaitPublicKey,
    AwaitTransactionCount,
    AwaitGasPrice,
    AwaitBalance,
    AwaitCall,
    AwaitDigestSignature,
    AwaitSignedTransaction,
    AwaitSent,
    Done,
}

/// What the operation is to achieve.
#[derive(Debug)]
pub enum Task {
    /// Report the account derived from the oracle's public key.
    EthereumAddress,
    /// Report the oracle's public key.
    PublicKey,
    /// Have the oracle sign a digest.
    SignMessage,
    /// Report an account's pending nonce.
    TransactionCount,
    /// Report the network's gas price.
    GasPrice,
    /// Report the native balance of the derived account.
    NativeBalance,
    /// Report the balance that a token contract keeps for an account.
    TokenBalance { token: Address, interface: Interface },
    /// Sign a transaction, and send it if `broadcast` is set.
    Transfer { payload: Payload, gas_limit: Option<U256>, tx_type: Option<TxType>, broadcast: bool },
}

/// The mathematical form of a [`Task`].
pub enum TaskView {
    EthereumAddress,
    PublicKey,
    SignMessage,
    TransactionCount,
    GasPrice,
    NativeBalance,
    TokenBalance { token: Seq<u8>, interface: Seq<MethodView> },
    Transfer { payload: PayloadView, gas_limit: Option<nat>, tx_type: Option<TxType>, broadcast: bool },
}

impl View for Task {
    type V = TaskView;

    open spec fn view(&self) -> TaskView {
        match self {
            Task::EthereumAddress => TaskView::EthereumAddress,
            Task::PublicKey => TaskView::PublicKey,
            Task::SignMessage => TaskView::SignMessage,
            Task::TransactionCount => TaskView::TransactionCount,
            Task::GasPrice => TaskView::GasPrice,
            Task::NativeBalance => TaskView::NativeBalance,
            Task::TokenBalance { token, interface } => TaskView::TokenBalance {
                token: token@,
                interface: interface@,
            },
            Task::Transfer { payload, gas_limit, tx_type, broadcast } => TaskView::Transfer {
                payload: payload@,
                gas_limit: match gas_limit {
                    Some(g) => Some(g@),
                    None => None,
                },
                tx_type: *tx_type,
                broadcast: *broadcast,
            },
        }
    }
}

/// An operation in flight. The key and the client are fixed when the
/// operation starts and stay as they are until it ends.
#[derive(Debug)]
pub struct Session {
    /// The oracle key that every oracle request of this operation uses;
    /// `None` in an operation that never asks the oracle.
    pub key: Option<KeyInfo>,
    /// The chain client that every chain request of this operation uses;
    /// `None` in an operation that never asks the chain.
    pub client: Option<ClientConfig>,
    pub task: Task,
    pub stage: Stage,
    /// The derived account, once known.
    pub sender: Option<Address>,
    /// The nonce, once chosen or resolved.
    pub nonce: Option<U256>,
    /// The gas price, once chosen or resolved.
    pub gas_price: Option<U256>,
}

/// The mathematical form of a [`Session`].
pub struct SessionView {
    pub key: Option<KeyInfoView>,
    pub client: Option<ClientConfigView>,
    pub task: TaskView,
    pub stage: Stage,
    pub sender: Option<Seq<u8>>,
    pub nonce: Option<nat>,
    pub gas_price: Option<nat>,
}

impl View for Session {
    type V = SessionView;

    open spec fn view(&self) -> SessionView {
        SessionView {
            key: match self.key {
                Some(k) => Some(k@),
                None => None,
            },
            client: match self.client {
                Some(c) => Some(c@),
                None => None,
            },
            task: self.task@,
            stage: self.stage,
            sender: match self.sender {
                Some(a) => Some(a@),
                None => None,
            },
            nonce: match self.nonce {
                Some(n) => Some(n@),
                None => None,
            },
            gas_price: match self.gas_price {
                Some(n) => Some(n@),
                None => None,
            },
        }
    }
}

/// An answer from the outside world. Each failure carries the remote party's text.
#[derive(Debug)]
pub enum Event {
    /// The oracle's answer to a public key request.
    PublicKey(Result<Vec<u8>, String>),
    /// The chain's answer to a nonce query.
    TransactionCount(Result<U256, String>),
    /// The chain's answer to a gas price query.
    GasPrice(Result<U256, String>),
    /// The chain's answer to a balance query.
    Balance(Result<U256, String>),
    /// The chain's answer to a read-only contract call.
    CallReturned(Result<Vec<u8>, String>),
    /// The oracle's answer to a request to sign a digest.
    DigestSigned(Result<Vec<u8>, String>),
    /// The outcome of signing a transaction.
    TransactionSigned(Result<SignedTransaction, String>),
    /// The chain's answer to a raw transaction: the transaction's hash.
    Sent(Result<[u8; 32], String>),
}

/// The mathematical form of an [`Event`].
pub enum EventView {
    PublicKey(Result<Seq<u8>, Seq<char>>),
    TransactionCount(Result<nat, Seq<char>>),
    GasPrice(Result<nat, Seq<char>>),
    Balance(Result<nat, Seq<char>>),
    CallReturned(Result<Seq<u8>, Seq<char>>),
    DigestSigned(Result<Seq<u8>, Seq<char>>),
    TransactionSigned(Result<SignedTransactionView, Seq<char>>),
    Sent(Result<Seq<u8>, Seq<char>>),
}

/// The bytes or the remote text of an answer.
pub open spec fn bytes_answer(r: Result<Vec<u8>, String>) -> Result<Seq<u8>, Seq<char>> {
    match r {
        Ok(b) => Ok(b@),
        Err(t) => Err(t@),
    }
}

/// The number or the remote text of an answer.
pub open spec fn number_answer(r: Result<U256, String>) -> Result<nat, Seq<char>> {
    match r {
        Ok(n) => Ok(n@),
        Err(t) => Err(t@),
    }
}

impl View for Event {
    type V = EventView;

    open spec fn view(&self) -> EventView {
        match self {
            Event::PublicKey(r) => EventView::PublicKey(bytes_answer(*r)),
            Event::TransactionCount(r) => EventView::TransactionCount(number_answer(*r)),
            Event::GasPrice(r) => EventView::GasPrice(number_answer(*r)),
            Event::Balance(r) => EventView::Balance(number_answer(*r)),
            Event::CallReturned(r) => EventView::CallReturned(bytes_answer(*r)),
            Event::DigestSigned(r) => EventView::DigestSigned(bytes_answer(*r)),
            Event::TransactionSigned(r) => EventView::TransactionSigned(
                match r {
                    Ok(t) => Ok(t@),
                    Err(t) => Err(t@),
                },
            ),
            Event::Sent(r) => EventView::Sent(
                match r {
                    Ok(h) => Ok(h@),
                    Err(t) => Err(t@),
                },
            ),
        }
    }
}

/// What the outside world is asked to do next. Oracle requests use the
/// session's key, chain requests the session's client.
#[derive(Debug)]
pub enum Action {
    /// Ask the oracle for the public key.
    FetchPublicKey,
    /// Ask the chain for the pending nonce of `address`.
    QueryTransactionCount { address: Address },
    /// Ask the chain for the current gas price.
    QueryGasPrice,
    /// Ask the chain for the native balance of `address`.
    QueryBalance { address: Address },
    /// Make a read-only call of the contract at `to` with `data`.
    Call { to: Address, data: Vec<u8> },
    /// Ask the oracle to sign the 32-byte `digest`.
    SignDigest { digest: Vec<u8> },
    /// Have `transaction` signed for the account whose address, in
    /// hexadecimal without prefix, is `from`.
    SignTransaction { transaction: UnsignedTransaction, from: String },
    /// Hand the signed bytes to the chain.
    SendRawTransaction { raw: Vec<u8> },
    /// The operation is over.
    Finish(Result<Reply, Error>),
}

/// The mathematical form of an [`Action`].
pub enum ActionView {
    FetchPublicKey,
    QueryTransactionCount { address: Seq<u8> },
    QueryGasPrice,
    QueryBalance { address: Seq<u8> },
    Call { to: Seq<u8>, data: Seq<u8> },
    SignDigest { digest: Seq<u8> },
    SignTransaction { transaction: UnsignedTransactionView, from: Seq<char> },
    SendRawTransaction { raw: Seq<u8> },
    Finish(Result<ReplyView, ErrorView>),
}

impl View for Action {
    type V = ActionView;

    open spec fn view(&self) -> ActionView {
        match self {
            Action::FetchPublicKey => ActionView::FetchPublicKey,
            Action::QueryTransactionCount { address } => ActionView::QueryTransactionCount { address: address@ },
            Action::QueryGasPrice => ActionView::QueryGasPrice,
            Action::QueryBalance { address } => ActionView::QueryBalance { address: address@ },
            Action::Call { to, data } => ActionView::Call { to: to@, data: data@ },
            Action::SignDigest { digest } => ActionView::SignDigest { digest: digest@ },
            Action::SignTransaction { transaction, from } => ActionView::SignTransaction {
                transaction: transaction@,
                from: from@,
            },
            Action::SendRawTransaction { raw } => ActionView::SendRawTransaction { raw: raw@ },
            Action::Finish(r) => ActionView::Finish(
                match r {
                    Ok(reply) => Ok(reply@),
                    Err(e) => Err(e@),
                },
            ),
        }
    }
}

impl ActionView {
    /// Whether the action is a request to the signing oracle.
    pub open spec fn asks_oracle(self) -> bool {
        self is FetchPublicKey || self is SignDigest || self is SignTransaction
    }

    /// Whether the action is a request to the chain.
    pub open spec fn asks_chain(self) -> bool {
        self is QueryTransactionCount || self is QueryGasPrice || self is QueryBalance || self is Call
            || self is SendRawTransaction
    }

    /// Whether the action asks for a signature or sends a transaction.
    pub open spec fn signs_or_sends(self) -> bool {
        self is SignDigest || self is SignTransaction || self is SendRawTransaction
    }
}

} // verus!
