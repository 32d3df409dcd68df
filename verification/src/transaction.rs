//! Unsigned and signed transactions, and the rules by which an unsigned
//! transaction is assembled.

use vstd::prelude::*;
use vstd::slice::slice_to_vec;
use crate::primitives::{Address, U256};

verus! {

/// The gas limit of a plain native transfer.
pub const NATIVE_TRANSFER_GAS: u64 = 21000;

/// The gas limit of a contract call, enough for a simple call.
pub const CONTRACT_CALL_GAS: u64 = 100000;

/// The type discriminator of a transaction with a fee market envelope.
pub const EIP1559_TX_ID: u64 = 2;

/// What a transaction is for.
#[derive(Clone, Copy, Debug, PartialEq, Eq, Structural)]
pub enum TxKind {
    NativeTransfer,
    ContractCall,
}

/// The envelope of a transaction.
#[derive(Clone, Copy, Debug, PartialEq, Eq, Structural)]
pub enum TxType {
    /// No type discriminator.
    Legacy,
    /// An explicit type discriminator, [`EIP1559_TX_ID`].
    Eip1559,
}

impl TxType {
    /// The discriminator that the envelope carries, if it carries one.
    pub open spec fn discriminator(self) -> Option<u64> {
        match self {
            TxType::Legacy => None,
            TxType::Eip1559 => Some(EIP1559_TX_ID),
        }
    }

    /// The discriminator that the envelope carries, if it carries one.
    pub fn type_id(self) -> (r: Option<u64>)
        ensures
            r == self.discriminator(),
    {
        match self {
            TxType::Legacy => None,
            TxType::Eip1559 => Some(EIP1559_TX_ID),
        }
    }
}

/// What a transaction does: move native value, or call a contract with data.
#[derive(Debug)]
pub enum Payload {
    NativeTransfer { to: Address, value: U256 },
    ContractCall { contract: Address, data: Vec<u8> },
}

/// The mathematical form of a [`Payload`].
pub enum PayloadView {
    NativeTransfer { to: Seq<u8>, value: nat },
    ContractCall { contract: Seq<u8>, data: Seq<u8> },
}

impl View for Payload {
    type V = PayloadView;

    open spec fn view(&self) -> PayloadView {
        match self {
            Payload::NativeTransfer { to, value } => PayloadView::NativeTransfer { to: to@, value: value@ },
            Payload::ContractCall { contract, data } => PayloadView::ContractCall {
                contract: contract@,
                data: data@,
            },
        }
    }
}

impl Payload {
    /// A copy of the payload.
    pub fn duplicate(&self) -> (r: Payload)
        ensures
            r@ == self@,
    {
        match self {
            Payload::NativeTransfer { to, value } => Payload::NativeTransfer { to: *to, value: *value },
            Payload::ContractCall { contract, data } => Payload::ContractCall {
                contract: *contract,
                data: slice_to_vec(data.as_slice()),
            },
        }
    }
}

impl PayloadView {
    /// What the payload is for.
    pub open spec fn kind(self) -> TxKind {
        match self {
            PayloadView::NativeTransfer { .. } => TxKind::NativeTransfer,
            PayloadView::ContractCall { .. } => TxKind::ContractCall,
        }
    }
}

/// A transaction before it is signed.
#[derive(Debug)]
pub struct UnsignedTransaction {
    pub to: Option<Address>,
    pub value: U256,
    pub nonce: U256,
    pub gas_price: U256,
    pub gas_limit: U256,
    pub chain_id: u64,
    pub data: Vec<u8>,
    pub tx_type: TxType,
}

/// The mathematical form of an [`UnsignedTransaction`].
pub struct UnsignedTransactionView {
    pub to: Option<Seq<u8>>,
    pub value: nat,
    pub nonce: nat,
    pub gas_price: nat,
    pub gas_limit: nat,
    pub chain_id: u64,
    pub data: Seq<u8>,
    pub tx_type: TxType,
}

impl View for UnsignedTransaction {
    type V = UnsignedTransactionView;

    open spec fn view(&self) -> UnsignedTransactionView {
        UnsignedTransactionView {
            to: match self.to {
                Some(a) => Some(a@),
                None => None,
            },
            value: self.value@,
            nonce: self.nonce@,
            gas_price: self.gas_price@,
            gas_limit: self.gas_limit@,
            chain_id: self.chain_id,
            data: self.data@,
            tx_type: self.tx_type,
        }
    }
}

/// A signed transaction: the encoded bytes that are broadcast, and their hash.
#[derive(Debug)]
pub struct SignedTransaction {
    pub raw: Vec<u8>,
    pub hash: [u8; 32],
}

/// The mathematical form of a [`SignedTransaction`].
pub struct SignedTransactionView {
    pub raw: Seq<u8>,
    pub hash: Seq<u8>,
}

impl View for SignedTransaction {
    type V = SignedTransactionView;

    open spec fn view(&self) -> SignedTransactionView {
        SignedTransactionView { raw: self.raw@, hash: self.hash@ }
    }
}

/// The gas limit of a transaction of the given kind when none is chosen.
pub open spec fn default_gas_limit(kind: TxKind) -> nat {
    match kind {
        TxKind::NativeTransfer => NATIVE_TRANSFER_GAS as nat,
        TxKind::ContractCall => CONTRACT_CALL_GAS as nat,
    }
}

/// The envelope of a transaction of the given kind when none is chosen.
pub open spec fn default_tx_type(kind: TxKind) -> TxType {
    match kind {
        TxKind::NativeTransfer => TxType::Legacy,
        TxKind::ContractCall => TxType::Eip1559,
    }
}

/// The chosen value if there is one, else the fallback.
pub open spec fn chosen<T>(choice: Option<T>, fallback: T) -> T {
    match choice {
        Some(v) => v,
        None => fallback,
    }
}

/// The transaction that carries `payload` with the given nonce and gas
/// price. A native transfer has no data; a contract call moves no value. The
/// gas limit and the envelope are the chosen ones, else the defaults of the kind.
pub open spec fn built(
    payload: PayloadView,
    gas_limit: Option<nat>,
    tx_type: Option<TxType>,
    nonce: nat,
    gas_price: nat,
    chain_id: u64,
) -> UnsignedTransactionView {
    UnsignedTransactionView {
        to: match payload {
            PayloadView::NativeTransfer { to, .. } => Some(to),
            PayloadView::ContractCall { contract, .. } => Some(contract),
        },
        value: match payload {
            PayloadView::NativeTransfer { value, .. } => value,
            PayloadView::ContractCall { .. } => 0,
        },
        nonce,
        gas_price,
        gas_limit: chosen(gas_limit, default_gas_limit(payload.kind())),
        chain_id,
        data: match payload {
            PayloadView::NativeTransfer { .. } => Seq::empty(),
            PayloadView::ContractCall { data, .. } => data,
        },
        tx_type: chosen(tx_type, default_tx_type(payload.kind())),
    }
}

/// What the caller fixes in advance. Whatever is left open is resolved from
/// the chain (nonce, gas price) or by the defaults of the transaction's kind
/// (gas limit, envelope).
#[derive(Clone, Copy, Debug)]
pub struct Overrides {
    pub nonce: Option<U256>,
    pub gas_price: Option<U256>,
    pub gas_limit: Option<U256>,
    pub tx_type: Option<TxType>,
}

/// The mathematical form of [`Overrides`].
pub struct OverridesView {
    pub nonce: Option<nat>,
    pub gas_price: Option<nat>,
    pub gas_limit: Option<nat>,
    pub tx_type: Option<TxType>,
}

impl View for Overrides {
    type V = OverridesView;

    open spec fn view(&self) -> OverridesView {
        OverridesView {
            nonce: optional_value(self.nonce),
            gas_price: optional_value(self.gas_price),
            gas_limit: optional_value(self.gas_limit),
            tx_type: self.tx_type,
        }
    }
}

/// The value of an optional 128-bit number.
pub open spec fn widened(v: Option<u128>) -> Option<nat> {
    match v {
        Some(v) => Some(v as nat),
        None => None,
    }
}

/// The 256-bit form of an optional 128-bit number.
pub fn widen(v: Option<u128>) -> (r: Option<U256>)
    ensures
        optional_value(r) == widened(v),
{
    match v {
        Some(v) => Some(U256::from_u128(v)),
        None => None,
    }
}

/// The value of an optional number.
pub open spec fn optional_value(n: Option<U256>) -> Option<nat> {
    match n {
        Some(n) => Some(n@),
        None => None,
    }
}

/// Assembles the unsigned transaction for `payload`. Nonce, gas price and
/// gas limit are always set in the result: the first two are the resolved
/// values handed in, the gas limit is the chosen one or the default of the kind.
pub fn build_transaction(
    payload: Payload,
    gas_limit: Option<U256>,
    tx_type: Option<TxType>,
    nonce: U256,
    gas_price: U256,
    chain_id: u64,
) -> (r: UnsignedTransaction)
    ensures
        r@ == built(payload@, optional_value(gas_limit), tx_type, nonce@, gas_price@, chain_id),
{
    match payload {
        Payload::NativeTransfer { to, value } => UnsignedTransaction {
            to: Some(to),
            value,
            nonce,
            gas_price,
            gas_limit: match gas_limit {
                Some(g) => g,
                None => U256::from_u64(NATIVE_TRANSFER_GAS),
            },
            chain_id,
            data: Vec::new(),
            tx_type: match tx_type {
                Some(t) => t,
                None => TxType::Legacy,
            },
        },
        Payload::ContractCall { contract, data } => UnsignedTransaction {
            to: Some(contract),
            value: U256::from_u64(0),
            nonce,
            gas_price,
            gas_limit: match gas_limit {
                Some(g) => g,
                None => U256::from_u64(CONTRACT_CALL_GAS),
            },
            chain_id,
            data,
            tx_type: match tx_type {
                Some(t) => t,
                None => TxType::Eip1559,
            },
        },
    }
}

} // verus!
