//! Which of the oracle's signing keys is in use, and how a key is addressed.

use vstd::prelude::*;
use vstd::slice::slice_to_vec;
use vstd::string::*;

verus! {

/// The key that a local replica offers.
pub const KN_IN_LOCAL: &'static str = "dfx_test_key";

/// The test key of the production network.
pub const KN_IN_PROD_FOR_TEST: &'static str = "test_key_1";

/// The production key.
pub const KN_IN_PROD: &'static str = "key_1";

/// The signing-key environments that the oracle knows.
#[derive(Clone, Copy, Debug, PartialEq, Eq, Structural)]
pub enum KeyEnvironment {
    Local,
    Test,
    Production,
}

/// The oracle's name for the key of an environment.
pub open spec fn key_name_text(env: KeyEnvironment) -> Seq<char> {
    match env {
        KeyEnvironment::Local => KN_IN_LOCAL@,
        KeyEnvironment::Test => KN_IN_PROD_FOR_TEST@,
        KeyEnvironment::Production => KN_IN_PROD@,
    }
}

/// The selector of the active key environment. Exactly one environment is
/// active at any time; a new selector starts at the local, non-production key.
#[derive(Clone, Copy, Debug)]
pub struct KeySelector {
    pub active: KeyEnvironment,
}

impl KeySelector {
    /// A selector with the local environment active.
    pub fn new() -> (r: KeySelector)
        ensures
            r.active == KeyEnvironment::Local,
    {
        KeySelector { active: KeyEnvironment::Local }
    }
}

impl Default for KeySelector {
    fn default() -> (r: KeySelector)
        ensures
            r.active == KeyEnvironment::Local,
    {
        KeySelector::new()
    }
}

/// The oracle's name for the active key.
pub fn ecdsa_key_name(selector: &KeySelector) -> (r: String)
    ensures
        r@ == key_name_text(selector.active),
{
    match selector.active {
        KeyEnvironment::Local => String::from_str(KN_IN_LOCAL),
        KeyEnvironment::Test => String::from_str(KN_IN_PROD_FOR_TEST),
        KeyEnvironment::Production => String::from_str(KN_IN_PROD),
    }
}

/// Reports the active key's name.
pub fn debug_get_ecdsa_key_name(selector: &KeySelector) -> (r: String)
    ensures
        r@ == key_name_text(selector.active),
{
    ecdsa_key_name(selector)
}

/// Makes the local key the active one.
pub fn debug_use_ecdsa_key_for_local(selector: &mut KeySelector)
    ensures
        final(selector).active == KeyEnvironment::Local,
{
    selector.active = KeyEnvironment::Local;
}

/// Makes the production network's test key the active one.
pub fn debug_use_ecdsa_key_for_test(selector: &mut KeySelector)
    ensures
        final(selector).active == KeyEnvironment::Test,
{
    selector.active = KeyEnvironment::Test;
}

/// Makes the production key the active one.
pub fn debug_use_ecdsa_key_for_prod(selector: &mut KeySelector)
    ensures
        final(selector).active == KeyEnvironment::Production,
{
    selector.active = KeyEnvironment::Production;
}

/// How the oracle is told which key to use: a derivation path and a key name.
#[derive(Debug)]
pub struct KeyInfo {
    pub derivation_path: Vec<Vec<u8>>,
    pub key_name: String,
}

/// The mathematical form of a [`KeyInfo`].
pub struct KeyInfoView {
    pub derivation_path: Seq<Seq<u8>>,
    pub key_name: Seq<char>,
}

impl View for KeyInfo {
    type V = KeyInfoView;

    open spec fn view(&self) -> KeyInfoView {
        KeyInfoView {
            derivation_path: self.derivation_path.deep_view(),
            key_name: self.key_name@,
        }
    }
}

/// The key under the single-element path `identity` in environment `env`.
pub open spec fn default_key(env: KeyEnvironment, identity: Seq<u8>) -> KeyInfoView {
    KeyInfoView { derivation_path: seq![identity], key_name: key_name_text(env) }
}

/// The derivation key used when none is given: the identity of the hosting process.
pub fn default_derivation_key(identity: &[u8]) -> (r: Vec<u8>)
    ensures
        r@ == identity@,
{
    slice_to_vec(identity)
}

impl KeyInfo {
    /// The key of the active environment under the default derivation path.
    pub fn for_identity(selector: &KeySelector, identity: &[u8]) -> (r: KeyInfo)
        ensures
            r@ == default_key(selector.active, identity@),
    {
        let mut path: Vec<Vec<u8>> = Vec::new();
        path.push(default_derivation_key(identity));
        let r = KeyInfo { derivation_path: path, key_name: ecdsa_key_name(selector) };
        assert(r.derivation_path.deep_view() =~~= seq![identity@]);
        r
    }
}

} // verus!
