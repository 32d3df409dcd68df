//! The chain endpoint and the descriptions of the clients that talk to it.

use vstd::prelude::*;
use vstd::string::*;
use crate::address::{address_text_bytes, parse_address};
use crate::codec::{Interface, MethodView};
use crate::errors::{Error, ErrorView};
use crate::primitives::Address;

verus! {

/// The host of the chain node.
pub const BASE_URL: &'static str = "polygon-mumbai.g.alchemy.com";

/// The path of the chain node's JSON-RPC service.
pub const PATH: &'static str = "/v2/6GLIzI5pL0n4bp4c3jESZTRfXxE5XJ_Z";

/// The chain that transactions are signed for.
pub const CHAIN_ID: u64 = 80001;

/// The URL of the chain node's JSON-RPC service.
pub open spec fn rpc_endpoint_text() -> Seq<char> {
    "https://"@ + BASE_URL@ + PATH@
}

/// The URL of the chain node's JSON-RPC service.
pub fn get_rpc_endpoint() -> (r: String)
    ensures
        r@ == rpc_endpoint_text(),
{
    String::from_str("https://").concat(BASE_URL).concat(PATH)
}

/// What a chain client is made from: where it connects, the largest
/// response it accepts, and what it may spend per request.
#[derive(Debug)]
pub struct ClientConfig {
    pub endpoint: String,
    pub max_response_bytes: Option<u64>,
    pub cycles: Option<u64>,
}

/// The mathematical form of a [`ClientConfig`].
pub struct ClientConfigView {
    pub endpoint: Seq<char>,
    pub max_response_bytes: Option<u64>,
    pub cycles: Option<u64>,
}

impl View for ClientConfig {
    type V = ClientConfigView;

    open spec fn view(&self) -> ClientConfigView {
        ClientConfigView {
            endpoint: self.endpoint@,
            max_response_bytes: self.max_response_bytes,
            cycles: self.cycles,
        }
    }
}

/// The client of the chain endpoint with the given bounds.
pub open spec fn endpoint_client(max_resp: Option<u64>, cycles: Option<u64>) -> ClientConfigView {
    ClientConfigView { endpoint: rpc_endpoint_text(), max_response_bytes: max_resp, cycles }
}

/// Describes a client of the chain endpoint that accepts responses of at
/// most `max_resp` bytes and may spend `cycles` per request.
pub fn generate_web3_client(max_resp: Option<u64>, cycles: Option<u64>) -> (r: ClientConfig)
    ensures
        r@ == endpoint_client(max_resp, cycles),
{
    ClientConfig { endpoint: get_rpc_endpoint(), max_response_bytes: max_resp, cycles }
}

/// A client of one contract: the chain client, the contract's address and
/// the table of its methods.
#[derive(Debug)]
pub struct ContractClient {
    pub client: ClientConfig,
    pub address: Address,
    pub interface: Interface,
}

/// The mathematical form of a [`ContractClient`].
pub struct ContractClientView {
    pub client: ClientConfigView,
    pub address: Seq<u8>,
    pub interface: Seq<MethodView>,
}

impl View for ContractClient {
    type V = ContractClientView;

    open spec fn view(&self) -> ContractClientView {
        ContractClientView { client: self.client@, address: self.address@, interface: self.interface@ }
    }
}

/// What [`generate_contract_client`] returns: the address must parse.
pub open spec fn contract_client(
    client: ClientConfigView,
    contract_addr: Seq<char>,
    interface: Seq<MethodView>,
) -> Result<ContractClientView, ErrorView> {
    match address_text_bytes(contract_addr) {
        None => Err(ErrorView::InvalidAddress),
        Some(address) => Ok(ContractClientView { client, address, interface }),
    }
}

/// The contract client or the failure of a result.
pub open spec fn contract_result(r: Result<ContractClient, Error>) -> Result<ContractClientView, ErrorView> {
    match r {
        Ok(c) => Ok(c@),
        Err(e) => Err(e@),
    }
}

/// Describes a client of the contract at `contract_addr` with the given
/// interface. Fails with `InvalidAddress` if the address does not parse.
pub fn generate_contract_client(client: ClientConfig, contract_addr: &str, interface: Interface) -> (r: Result<
    ContractClient,
    Error,
>)
    ensures
        contract_result(r) == contract_client(client@, contract_addr@, interface@),
{
    match parse_address(contract_addr) {
        Err(e) => Err(e),
        Ok(address) => Ok(ContractClient { client, address, interface }),
    }
}

} // verus!

pub use crate::address::pubkey_to_address;
pub use crate::keys::default_derivation_key;
