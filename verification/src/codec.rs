//! Contract call encoding and return-data decoding against a table of methods.

use vstd::prelude::*;
use vstd::string::*;
use ic_web3::ethabi::{decode, encode, short_signature, ParamType, Token};
use crate::errors::{Error, ErrorView};
use crate::primitives::{Address, U256};

verus! {

/// The kinds of typed values that cross the contract boundary.
#[derive(Clone, Copy, Debug, PartialEq, Eq, Structural)]
pub enum ParamKind {
    /// A 20-byte address, `address` in a signature.
    Address,
    /// An unsigned integer in one 32-byte word, `uint256` in a signature.
    Uint,
    /// A truth value, `bool` in a signature.
    Bool,
    /// A byte string of any length, `bytes` in a signature.
    Bytes,
}

/// A typed value that crosses the contract boundary.
#[derive(Debug)]
pub enum AbiValue {
    Address(Address),
    Uint(U256),
    Bool(bool),
    Bytes(Vec<u8>),
}

/// The mathematical form of an [`AbiValue`].
pub enum AbiTerm {
    Address(Seq<u8>),
    Uint(nat),
    Bool(bool),
    Bytes(Seq<u8>),
}

impl View for AbiValue {
    type V = AbiTerm;

    open spec fn view(&self) -> AbiTerm {
        match self {
            AbiValue::Address(a) => AbiTerm::Address(a@),
            AbiValue::Uint(n) => AbiTerm::Uint(n@),
            AbiValue::Bool(b) => AbiTerm::Bool(*b),
            AbiValue::Bytes(b) => AbiTerm::Bytes(b@),
        }
    }
}

/// The kind of a value.
pub open spec fn kind_of(term: AbiTerm) -> ParamKind {
    match term {
        AbiTerm::Address(_) => ParamKind::Address,
        AbiTerm::Uint(_) => ParamKind::Uint,
        AbiTerm::Bool(_) => ParamKind::Bool,
        AbiTerm::Bytes(_) => ParamKind::Bytes,
    }
}

impl AbiValue {
    /// The kind of the value.
    pub fn kind(&self) -> (r: ParamKind)
        ensures
            r == kind_of(self@),
    {
        match self {
            AbiValue::Address(_) => ParamKind::Address,
            AbiValue::Uint(_) => ParamKind::Uint,
            AbiValue::Bool(_) => ParamKind::Bool,
            AbiValue::Bytes(_) => ParamKind::Bytes,
        }
    }
}

/// The terms of a list of values.
pub open spec fn terms(values: Seq<AbiValue>) -> Seq<AbiTerm> {
    values.map_values(|v: AbiValue| v@)
}

/// The kinds of a list of values.
pub open spec fn kinds_of(args: Seq<AbiTerm>) -> Seq<ParamKind> {
    args.map_values(|t: AbiTerm| kind_of(t))
}

/// One method of a contract: its name, and the kinds of what it takes and returns.
#[derive(Debug)]
pub struct Method {
    pub name: String,
    pub inputs: Vec<ParamKind>,
    pub outputs: Vec<ParamKind>,
}

/// The mathematical form of a [`Method`].
pub struct MethodView {
    pub name: Seq<char>,
    pub inputs: Seq<ParamKind>,
    pub outputs: Seq<ParamKind>,
}

impl View for Method {
    type V = MethodView;

    open spec fn view(&self) -> MethodView {
        MethodView { name: self.name@, inputs: self.inputs@, outputs: self.outputs@ }
    }
}

/// The interface of a contract: a table of its methods. Where two methods
/// share a name, the one that stands first is meant.
#[derive(Debug)]
pub struct Interface {
    pub methods: Vec<Method>,
}

impl View for Interface {
    type V = Seq<MethodView>;

    open spec fn view(&self) -> Seq<MethodView> {
        self.methods@.map_values(|m: Method| m@)
    }
}

/// The index of the first method called `name` at or after `from`.
pub open spec fn find_from(methods: Seq<MethodView>, name: Seq<char>, from: int) -> Option<int>
    decreases methods.len() - from,
{
    if from < 0 || from >= methods.len() {
        None
    } else if methods[from].name == name {
        Some(from)
    } else {
        find_from(methods, name, from + 1)
    }
}

/// The first method called `name`.
pub open spec fn find_method(methods: Seq<MethodView>, name: Seq<char>) -> Option<MethodView> {
    match find_from(methods, name, 0) {
        Some(i) => Some(methods[i]),
        None => None,
    }
}

impl Interface {
    /// The index of the first method called `name`.
    pub fn find(&self, name: &str) -> (r: Option<usize>)
        ensures
            match r {
                Some(i) => find_from(self@, name@, 0) == Some(i as int) && i < self.methods.len(),
                None => find_from(self@, name@, 0) is None,
            },
    {
        let wanted = String::from_str(name);
        let mut i: usize = 0;
        while i < self.methods.len()
            invariant
                i <= self.methods.len(),
                wanted@ == name@,
                find_from(self@, name@, 0) == find_from(self@, name@, i as int),
            decreases self.methods.len() - i,
        {
            if self.methods[i].name == wanted {
                return Some(i);
            }
            i = i + 1;
        }
        None
    }
}

/// The big-endian digits of `n` in base 256, `len` of them.
pub open spec fn big_endian(n: nat, len: nat) -> Seq<u8>
    decreases len,
{
    if len == 0 {
        Seq::empty()
    } else {
        big_endian(n / 256, (len - 1) as nat).push((n % 256) as u8)
    }
}

/// The number that big-endian digits in base 256 denote.
pub open spec fn big_endian_value(bytes: Seq<u8>) -> nat
    decreases bytes.len(),
{
    if bytes.len() == 0 {
        0
    } else {
        big_endian_value(bytes.drop_last()) * 256 + bytes.last() as nat
    }
}

/// `n` zero bytes.
pub open spec fn zeros(n: nat) -> Seq<u8> {
    Seq::new(n, |i: int| 0u8)
}

/// Whether values of the kind take exactly one word.
pub open spec fn is_static(kind: ParamKind) -> bool {
    kind != ParamKind::Bytes
}

/// The 32-byte word of a static value: an address after 12 zero bytes, a
/// number in big-endian, a truth value as 0 or 1 in the last byte.
pub open spec fn static_word(term: AbiTerm) -> Seq<u8> {
    match term {
        AbiTerm::Address(a) => zeros(12) + a,
        AbiTerm::Uint(n) => big_endian(n, 32),
        AbiTerm::Bool(b) => zeros(31).push(if b { 1u8 } else { 0u8 }),
        AbiTerm::Bytes(_) => Seq::empty(),
    }
}

/// The number of bytes that the encoding of `args` takes: a word for each
/// static value; for a byte string a word for its offset, a word for its
/// length, and its bytes padded to whole words.
pub open spec fn encoded_length(args: Seq<AbiTerm>) -> nat
    decreases args.len(),
{
    if args.len() == 0 {
        0
    } else {
        encoded_length(args.drop_last()) + match args.last() {
            AbiTerm::Bytes(b) => 64 + ((b.len() + 31) / 32) * 32,
            _ => 32,
        }
    }
}

/// The longest encoding that is produced, in bytes: 64 MiB less one. The
/// encoder counts in 32 bits and reserves a 32-byte word of memory for every
/// byte it will write; under this bound neither can fail on any machine.
pub const MAX_ENCODED_LENGTH: u64 = 0x3ff_ffff;

/// The i-th 32-byte word of `data`.
pub open spec fn word_at(data: Seq<u8>, i: int) -> Seq<u8> {
    data.subrange(32 * i, 32 * i + 32)
}

/// The static value of the given kind that a word holds. An address is the
/// last 20 bytes whatever stands before; a truth value must have 31 zero
/// bytes before it and is true exactly if the last byte is 1.
pub open spec fn static_value(kind: ParamKind, word: Seq<u8>) -> Option<AbiTerm> {
    match kind {
        ParamKind::Address => Some(AbiTerm::Address(word.subrange(12, 32))),
        ParamKind::Uint => Some(AbiTerm::Uint(big_endian_value(word))),
        ParamKind::Bool => if word.subrange(0, 31) == zeros(31) {
            Some(AbiTerm::Bool(word[31] == 1))
        } else {
            None
        },
        ParamKind::Bytes => None,
    }
}

/// The number that the word at byte `at` of `data` holds, if the word lies
/// within the data and its first 28 bytes are zero: the big-endian value of
/// its last four bytes.
pub open spec fn number_at(data: Seq<u8>, at: int) -> Option<nat> {
    if 0 <= at && at + 32 <= data.len() && data.subrange(at, at + 28) == zeros(28) {
        Some(big_endian_value(data.subrange(at + 28, at + 32)))
    } else {
        None
    }
}

/// The byte string that `data` holds: the first word names the offset of
/// its length word, the length word names its length, and the bytes follow
/// the length word. All of them must lie within the data.
pub open spec fn bytes_value(data: Seq<u8>) -> Option<AbiTerm> {
    match number_at(data, 0) {
        None => None,
        Some(offset) => match number_at(data, offset as int) {
            None => None,
            Some(length) => if offset + 32 + length <= data.len() {
                Some(AbiTerm::Bytes(data.subrange(offset as int + 32, offset as int + 32 + length as int)))
            } else {
                None
            },
        },
    }
}

/// The value of the given kind that `data` holds, whatever else it holds: a
/// static value in the first word, a byte string where the first word points.
pub open spec fn single_decoding(kind: ParamKind, data: Seq<u8>) -> Option<AbiTerm> {
    match kind {
        ParamKind::Bytes => bytes_value(data),
        _ => if data.len() >= 32 {
            static_value(kind, word_at(data, 0))
        } else {
            None
        },
    }
}

/// `bytes` followed by zero bytes up to the next multiple of 32.
pub open spec fn padded(bytes: Seq<u8>) -> Seq<u8> {
    bytes + zeros(((32 - bytes.len() % 32) % 32) as nat)
}

/// What a value adds after the heads: nothing if it is static; for a byte
/// string its length as a word and then its padded bytes.
pub open spec fn tail_of(term: AbiTerm) -> Seq<u8> {
    match term {
        AbiTerm::Bytes(b) => big_endian(b.len(), 32) + padded(b),
        _ => Seq::empty(),
    }
}

/// The tails of the values, one after the other.
pub open spec fn tails(args: Seq<AbiTerm>) -> Seq<u8>
    decreases args.len(),
{
    if args.len() == 0 {
        Seq::empty()
    } else {
        tails(args.drop_last()) + tail_of(args.last())
    }
}

/// The head of a value: its word if it is static; for a byte string the
/// offset of its tail from the start of the encoding, as a word.
pub open spec fn head_of(term: AbiTerm, offset: nat) -> Seq<u8> {
    match term {
        AbiTerm::Bytes(_) => big_endian(offset, 32),
        _ => static_word(term),
    }
}

/// The heads of the values, one word each, where the tails start `width`
/// bytes into the encoding.
pub open spec fn heads(args: Seq<AbiTerm>, width: nat) -> Seq<u8>
    decreases args.len(),
{
    if args.len() == 0 {
        Seq::empty()
    } else {
        heads(args.drop_last(), width) + head_of(args.last(), width + tails(args.drop_last()).len())
    }
}

/// The canonical encoding of an argument tuple: a head for every value,
/// then the tails. Static values stand inline; a byte string stands in the
/// tails, by offset and length.
pub open spec fn encoding(args: Seq<AbiTerm>) -> Seq<u8> {
    heads(args, 32 * args.len()) + tails(args)
}

/// The selector of a method: the first four bytes of the Keccak-256 hash of
/// its signature, which is the name and, in brackets and separated by commas,
/// `address`, `uint256`, `bool` or `bytes` for each input.
pub uninterp spec fn method_selector(name: Seq<char>, inputs: Seq<ParamKind>) -> Seq<u8>;

/// The term of an optional value.
pub open spec fn optional_term(r: Option<AbiValue>) -> Option<AbiTerm> {
    match r {
        Some(value) => Some(value@),
        None => None,
    }
}

/// `ethabi::short_signature` on the method's name and the parameter types
/// `Address`, `Uint(256)`, `Bool` and `Bytes`: the first four bytes of the
/// Keccak-256 hash of the signature text.
#[verifier::external_body]
fn selector(name: &str, inputs: &Vec<ParamKind>) -> (r: [u8; 4])
    ensures
        r@ == method_selector(name@, inputs@),
{
    let types: Vec<ParamType> = inputs.iter().map(|k| match k {
        ParamKind::Address => ParamType::Address,
        ParamKind::Uint => ParamType::Uint(256),
        ParamKind::Bool => ParamType::Bool,
        ParamKind::Bytes => ParamType::Bytes,
    }).collect();
    short_signature(name, &types)
}

/// `ethabi::encode` on the tokens of the values. It counts lengths and
/// offsets in 32 bits and reserves memory by the total, so the encoding must
/// stay within [`MAX_ENCODED_LENGTH`]. It writes one head per token and then
/// the tails: an address, a number or a truth value is its own head, one
/// word as its token's documentation says; a byte string has the offset of
/// its tail as head, and as tail its length and its bytes padded with zeros
/// to whole words.
#[verifier::external_body]
fn encode_tokens(args: &Vec<AbiValue>) -> (r: Vec<u8>)
    requires
        encoded_length(terms(args@)) <= MAX_ENCODED_LENGTH,
    ensures
        r@ == encoding(terms(args@)),
{
    let tokens: Vec<Token> = args.iter().map(|v| match v {
        AbiValue::Address(a) => Token::Address(ic_web3::types::H160(a.bytes)),
        AbiValue::Uint(n) => Token::Uint(ic_web3::types::U256(n.limbs)),
        AbiValue::Bool(b) => Token::Bool(*b),
        AbiValue::Bytes(b) => Token::Bytes(b.clone()),
    }).collect();
    encode(&tokens)
}

/// Whether return data of the given kind can be decoded on this machine.
/// For a byte string the decoder adds the offset and the length that the
/// data names in machine words, which is safe only where a machine word has
/// 64 bits.
pub open spec fn decodable(kind: ParamKind) -> bool {
    is_static(kind) || usize::BITS == 64
}

/// `ethabi::decode` on the one parameter type of the kind. A static value
/// is read from the first word. For a byte string the first word is read as
/// an offset and the word there as a length, each a 32-bit number after 28
/// zero bytes, and the bytes are taken after the length word; whatever lies
/// outside the data is an error. Other data is ignored.
#[verifier::external_body]
fn decode_token(kind: ParamKind, data: &[u8]) -> (r: Option<AbiValue>)
    requires
        decodable(kind),
    ensures
        optional_term(r) == single_decoding(kind, data@),
{
    let types = [match kind {
        ParamKind::Address => ParamType::Address,
        ParamKind::Uint => ParamType::Uint(256),
        ParamKind::Bool => ParamType::Bool,
        ParamKind::Bytes => ParamType::Bytes,
    }];
    match decode(&types, data).ok()?.pop()? {
        Token::Address(a) => Some(AbiValue::Address(Address { bytes: a.0 })),
        Token::Uint(n) => Some(AbiValue::Uint(U256 { limbs: n.0 })),
        Token::Bool(b) => Some(AbiValue::Bool(b)),
        Token::Bytes(b) => Some(AbiValue::Bytes(b)),
        _ => None,
    }
}

/// A longer argument list does not encode shorter.
pub proof fn lemma_encoded_length_grows(args: Seq<AbiTerm>, i: int)
    requires
        0 <= i <= args.len(),
    ensures
        encoded_length(args.take(i)) <= encoded_length(args),
    decreases args.len() - i,
{
    if i < args.len() {
        lemma_encoded_length_grows(args, i + 1);
        assert(args.take(i + 1).drop_last() =~= args.take(i));
    } else {
        assert(args.take(i) =~= args);
    }
}

/// The length of the encoding of `args`, if it stays within [`MAX_ENCODED_LENGTH`].
pub fn encoded_size(args: &Vec<AbiValue>) -> (r: Option<u64>)
    ensures
        match r {
            Some(n) => n == encoded_length(terms(args@)) && n <= MAX_ENCODED_LENGTH,
            None => encoded_length(terms(args@)) > MAX_ENCODED_LENGTH,
        },
{
    let mut total: u64 = 0;
    let mut i: usize = 0;
    while i < args.len()
        invariant
            i <= args.len(),
            total == encoded_length(terms(args@).take(i as int)),
            total <= MAX_ENCODED_LENGTH,
        decreases args.len() - i,
    {
        let ghost all = terms(args@);
        proof {
            assert(all.take(i + 1).drop_last() =~= all.take(i as int));
            assert(all.take(i + 1).last() == args@[i as int]@);
            lemma_encoded_length_grows(all, i + 1);
        }
        let grows_by: u64 = match &args[i] {
            AbiValue::Bytes(b) => {
                if b.len() > 0x3ff_ffff {
                    return None;
                }
                let length: u64 = b.len() as u64;
                64 + ((length + 31) / 32) * 32
            },
            _ => 32,
        };
        if total + grows_by > MAX_ENCODED_LENGTH {
            return None;
        }
        total = total + grows_by;
        i = i + 1;
    }
    assert(terms(args@).take(i as int) =~= terms(args@));
    Some(total)
}

/// Whether the values are of the kinds that the method declares, one for one.
pub fn arguments_fit(args: &Vec<AbiValue>, inputs: &Vec<ParamKind>) -> (r: bool)
    ensures
        r == (kinds_of(terms(args@)) == inputs@),
{
    if args.len() != inputs.len() {
        return false;
    }
    let mut i: usize = 0;
    while i < args.len()
        invariant
            i <= args.len(),
            args.len() == inputs.len(),
            forall|j: int| 0 <= j < i ==> kind_of(#[trigger] args@[j]@) == inputs@[j],
        decreases args.len() - i,
    {
        if args[i].kind() != inputs[i] {
            assert(kinds_of(terms(args@))[i as int] != inputs@[i as int]);
            return false;
        }
        i = i + 1;
    }
    assert(kinds_of(terms(args@)) =~= inputs@);
    true
}

/// The call data for `name` with `args`: the selector of the first method
/// of that name, followed by the encoding of the argument tuple.
pub open spec fn call_encoding(methods: Seq<MethodView>, name: Seq<char>, args: Seq<AbiTerm>) -> Result<
    Seq<u8>,
    ErrorView,
> {
    match find_method(methods, name) {
        None => Err(ErrorView::UnknownMethod),
        Some(method) => if kinds_of(args) != method.inputs {
            Err(ErrorView::ArgumentTypeMismatch)
        } else if encoded_length(args) > MAX_ENCODED_LENGTH {
            Err(ErrorView::CallDataTooLong)
        } else {
            Ok(method_selector(method.name, method.inputs) + encoding(args))
        },
    }
}

/// The bytes or the failure of a result.
pub open spec fn bytes_result(r: Result<Vec<u8>, Error>) -> Result<Seq<u8>, ErrorView> {
    match r {
        Ok(data) => Ok(data@),
        Err(e) => Err(e@),
    }
}

/// Joins a selector and an encoded argument tuple into call data.
pub fn join_call_data(selector: [u8; 4], encoded: Vec<u8>) -> (r: Vec<u8>)
    ensures
        r@ == selector@ + encoded@,
{
    let mut data: Vec<u8> = Vec::new();
    data.push(selector[0]);
    data.push(selector[1]);
    data.push(selector[2]);
    data.push(selector[3]);
    let ghost tail = encoded@;
    let mut encoded = encoded;
    data.append(&mut encoded);
    assert(data@ =~= selector@ + tail);
    data
}

/// Builds the call data for `name` with `args`: the 4-byte selector and the
/// encoded argument tuple. Fails with `UnknownMethod` if the interface has no
/// method of that name, with `ArgumentTypeMismatch` if the arguments are
/// not of the kinds that the method declares, one for one, and with
/// `CallDataTooLong` if their encoding would be longer than
/// [`MAX_ENCODED_LENGTH`].
pub fn encode_call(interface: &Interface, name: &str, args: &Vec<AbiValue>) -> (r: Result<Vec<u8>, Error>)
    ensures
        bytes_result(r) == call_encoding(interface@, name@, terms(args@)),
{
    match interface.find(name) {
        None => Err(Error::UnknownMethod),
        Some(i) => {
            let method = &interface.methods[i];
            if !arguments_fit(args, &method.inputs) {
                return Err(Error::ArgumentTypeMismatch);
            }
            if encoded_size(args).is_none() {
                return Err(Error::CallDataTooLong);
            }
            Ok(join_call_data(selector(method.name.as_str(), &method.inputs), encode_tokens(args)))
        },
    }
}

/// The term or the failure of a decoded value.
pub open spec fn value_result(r: Result<AbiValue, Error>) -> Result<AbiTerm, ErrorView> {
    match r {
        Ok(v) => Ok(v@),
        Err(e) => Err(e@),
    }
}

/// The typed value that `data` holds as the return value of `name`: the
/// method must declare exactly one output, of a kind that this machine can
/// decode, and the data must hold a value of that kind.
pub open spec fn result_decoding(methods: Seq<MethodView>, name: Seq<char>, data: Seq<u8>) -> Result<
    AbiTerm,
    ErrorView,
> {
    match find_method(methods, name) {
        None => Err(ErrorView::UnknownMethod),
        Some(method) => if method.outputs.len() == 1 && decodable(method.outputs[0]) {
            match single_decoding(method.outputs[0], data) {
                Some(value) => Ok(value),
                None => Err(ErrorView::MalformedReturnData),
            }
        } else {
            Err(ErrorView::MalformedReturnData)
        },
    }
}

/// Whether return data of the given kind can be decoded on this machine.
pub fn can_decode(kind: ParamKind) -> (r: bool)
    ensures
        r == decodable(kind),
{
    kind != ParamKind::Bytes || usize::BITS == 64
}

/// Reads `data` as the return value of `name`: the inverse of encoding for
/// a single typed value. Fails with `UnknownMethod` if the interface has no
/// method of that name, and with `MalformedReturnData` if the method does not
/// declare exactly one output or the data does not hold a value of its kind.
pub fn decode_result(interface: &Interface, name: &str, data: &[u8]) -> (r: Result<AbiValue, Error>)
    ensures
        value_result(r) == result_decoding(interface@, name@, data@),
{
    match interface.find(name) {
        None => Err(Error::UnknownMethod),
        Some(i) => {
            let method = &interface.methods[i];
            if method.outputs.len() == 1 && can_decode(method.outputs[0]) {
                match decode_token(method.outputs[0], data) {
                    Some(value) => Ok(value),
                    None => Err(Error::MalformedReturnData),
                }
            } else {
                Err(Error::MalformedReturnData)
            }
        },
    }
}

/// The number or the failure of a decoded number.
pub open spec fn number_result(r: Result<U256, Error>) -> Result<nat, ErrorView> {
    match r {
        Ok(n) => Ok(n@),
        Err(e) => Err(e@),
    }
}

/// The unsigned integer that a decoded value is, if it is one.
pub open spec fn as_number(decoded: Result<AbiTerm, ErrorView>) -> Result<nat, ErrorView> {
    match decoded {
        Ok(AbiTerm::Uint(n)) => Ok(n),
        Ok(_) => Err(ErrorView::MalformedReturnData),
        Err(e) => Err(e),
    }
}

/// Expects a decoded value to be an unsigned integer.
pub fn expect_uint(decoded: Result<AbiValue, Error>) -> (r: Result<U256, Error>)
    ensures
        number_result(r) == as_number(value_result(decoded)),
{
    match decoded {
        Ok(AbiValue::Uint(n)) => Ok(n),
        Ok(_) => Err(Error::MalformedReturnData),
        Err(e) => Err(e),
    }
}

} // verus!
