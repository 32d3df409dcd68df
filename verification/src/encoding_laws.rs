//! What holds of call data and return data, whatever the values are.

use vstd::prelude::*;
use vstd::arithmetic::div_mod::{lemma_breakdown, lemma_div_denominator, lemma_small_mod};
use crate::address::address_text_bytes;
use crate::codec::{
    big_endian, big_endian_value, bytes_value, call_encoding, decodable, encoded_length, encoding, find_from,
    find_method, head_of, heads, is_static, kind_of, kinds_of, method_selector, number_at, padded, result_decoding,
    static_value, static_word, tail_of, tails, word_at, zeros, AbiTerm, AbiValue, MethodView, ParamKind,
    MAX_ENCODED_LENGTH,
};
use crate::endpoints::{erc20_methods, token_transfer_start, TRANSFER};
use crate::errors::ErrorView;
use crate::keys::KeyInfoView;
use crate::pipeline::{balance_call_data, BALANCE_OF};
use crate::session::TaskView;
use crate::transaction::PayloadView;
use crate::utils::ClientConfigView;

verus! {

/// Whether every kind is static.
pub open spec fn all_static(kinds: Seq<ParamKind>) -> bool {
    forall|i: int| 0 <= i < kinds.len() ==> is_static(#[trigger] kinds[i])
}

/// The encoding of static values: their words one after the other.
pub open spec fn static_encoding(args: Seq<AbiTerm>) -> Seq<u8>
    decreases args.len(),
{
    if args.len() == 0 {
        Seq::empty()
    } else {
        static_encoding(args.drop_last()) + static_word(args.last())
    }
}

/// The number of values that `len` digits in base 256 can denote.
pub open spec fn radix(len: nat) -> nat
    decreases len,
{
    if len == 0 {
        1
    } else {
        256 * radix((len - 1) as nat)
    }
}

/// The least number that does not fit in a 32-byte word.
pub open spec fn word_limit() -> nat {
    0x1_0000_0000_0000_0000_0000_0000_0000_0000_0000_0000_0000_0000_0000_0000_0000_0000nat
}

/// A word has room for 2 to the 256th numbers.
pub proof fn lemma_radix_of_word()
    ensures
        radix(32) == word_limit(),
{
    assert(radix(0) == 1);
    assert(radix(4) == 0x1_0000_0000) by {
        reveal_with_fuel(radix, 5);
    }
    assert(radix(8) == 0x1_0000_0000_0000_0000) by {
        reveal_with_fuel(radix, 5);
    }
    assert(radix(12) == 0x1_0000_0000_0000_0000_0000_0000) by {
        reveal_with_fuel(radix, 5);
    }
    assert(radix(16) == 0x1_0000_0000_0000_0000_0000_0000_0000_0000) by {
        reveal_with_fuel(radix, 5);
    }
    assert(radix(20) == 0x1_0000_0000_0000_0000_0000_0000_0000_0000_0000_0000) by {
        reveal_with_fuel(radix, 5);
    }
    assert(radix(24) == 0x1_0000_0000_0000_0000_0000_0000_0000_0000_0000_0000_0000_0000) by {
        reveal_with_fuel(radix, 5);
    }
    assert(radix(28) == 0x1_0000_0000_0000_0000_0000_0000_0000_0000_0000_0000_0000_0000_0000_0000) by {
        reveal_with_fuel(radix, 5);
    }
    assert(radix(32) == word_limit()) by {
        reveal_with_fuel(radix, 5);
    }
}

/// Big-endian digits denote the number they were made from, as far as it
/// fits in them.
pub proof fn lemma_big_endian_round_trip(n: nat, len: nat)
    ensures
        big_endian(n, len).len() == len,
        big_endian_value(big_endian(n, len)) == n % radix(len),
        radix(len) > 0,
    decreases len,
{
    if len > 0 {
        let rest = big_endian(n / 256, (len - 1) as nat);
        let digits = rest.push((n % 256) as u8);
        lemma_big_endian_round_trip(n / 256, (len - 1) as nat);
        assert(digits.drop_last() =~= rest);
        assert(digits.last() == (n % 256) as u8);
        let r = radix((len - 1) as nat);
        lemma_breakdown(n as int, 256, r as int);
        assert(big_endian_value(digits) == ((n / 256) % r) * 256 + n % 256);
    }
}

/// A static value that fits its kind: an address of 20 bytes, a number
/// under 2 to the 256th, or a truth value.
pub open spec fn fits_a_word(term: AbiTerm) -> bool {
    match term {
        AbiTerm::Address(a) => a.len() == 20,
        AbiTerm::Uint(n) => n < word_limit(),
        AbiTerm::Bool(_) => true,
        AbiTerm::Bytes(_) => false,
    }
}

/// The word of a static value holds that value again.
pub proof fn lemma_word_round_trip(term: AbiTerm)
    requires
        fits_a_word(term),
    ensures
        static_word(term).len() == 32,
        static_value(kind_of(term), static_word(term)) == Some(term),
{
    match term {
        AbiTerm::Address(a) => {
            assert(static_word(term).subrange(12, 32) =~= a);
        },
        AbiTerm::Uint(n) => {
            lemma_big_endian_round_trip(n, 32);
            lemma_radix_of_word();
            assert(n % radix(32) == n) by {
                lemma_small_mod(n, radix(32));
            }
        },
        AbiTerm::Bool(b) => {
            assert(static_word(term).subrange(0, 31) =~= zeros(31));
        },
        AbiTerm::Bytes(_) => {},
    }
}

/// The digits of zero are zeros.
pub proof fn lemma_big_endian_of_zero(len: nat)
    ensures
        big_endian(0, len) == zeros(len),
    decreases len,
{
    if len > 0 {
        lemma_big_endian_of_zero((len - 1) as nat);
        assert(big_endian(0, len) =~= zeros(len));
    } else {
        assert(big_endian(0, len) =~= zeros(len));
    }
}

/// The last `low` digits of a number are the digits of the number itself;
/// what stands before them are the digits of the number without them.
pub proof fn lemma_big_endian_split(n: nat, high: nat, low: nat)
    ensures
        radix(low) > 0,
        big_endian(n, high + low) == big_endian(n / radix(low), high) + big_endian(n, low),
    decreases low,
{
    lemma_big_endian_round_trip(n, low);
    if low == 0 {
        assert(radix(low) == 1);
        assert(n / 1 == n);
        assert(big_endian(n, low) =~= Seq::<u8>::empty());
        assert(big_endian(n, high) + Seq::<u8>::empty() =~= big_endian(n, high));
    } else {
        let less = (low - 1) as nat;
        lemma_big_endian_split(n / 256, high, less);
        lemma_div_denominator(n as int, 256, radix(less) as int);
        assert((n / 256) / radix(less) == n / radix(low));
        let front = big_endian(n / radix(low), high);
        let middle = big_endian(n / 256, less);
        let last = (n % 256) as u8;
        assert((high + low - 1) as nat == high + less);
        assert(big_endian(n / 256, high + less) == front + middle);
        assert(big_endian(n, high + low) == (front + middle).push(last));
        assert(big_endian(n, low) == middle.push(last));
        assert((front + middle).push(last) =~= front + middle.push(last));
    }
}

/// The word of a number under 2 to the 32nd is 28 zero bytes and then its
/// four digits, which denote it.
pub proof fn lemma_word_of_small_number(n: nat)
    requires
        n < 0x1_0000_0000,
    ensures
        big_endian(n, 32) == zeros(28) + big_endian(n, 4),
        big_endian(n, 4).len() == 4,
        big_endian_value(big_endian(n, 4)) == n,
{
    assert(radix(4) == 0x1_0000_0000) by {
        reveal_with_fuel(radix, 5);
    }
    lemma_big_endian_split(n, 28, 4);
    assert(n / radix(4) == 0);
    lemma_big_endian_of_zero(28);
    lemma_big_endian_round_trip(n, 4);
    lemma_small_mod(n, radix(4));
}

/// Static values have no tails, and their heads are their words: the
/// encoding of static values is their words one after the other.
pub proof fn lemma_encoding_of_static(args: Seq<AbiTerm>, width: nat)
    requires
        all_static(kinds_of(args)),
    ensures
        tails(args) == Seq::<u8>::empty(),
        heads(args, width) == static_encoding(args),
        encoding(args) == static_encoding(args),
    decreases args.len(),
{
    if args.len() > 0 {
        let front = args.drop_last();
        assert forall|i: int| 0 <= i < kinds_of(front).len() implies is_static(#[trigger] kinds_of(front)[i]) by {
            assert(is_static(kinds_of(args)[i]));
        }
        lemma_encoding_of_static(front, width);
        lemma_encoding_of_static(front, 32 * args.len());
        assert(is_static(kinds_of(args)[args.len() - 1]));
        assert(tails(args) =~= Seq::<u8>::empty());
        assert(encoding(args) =~= static_encoding(args));
    } else {
        assert(encoding(args) =~= static_encoding(args));
    }
}

/// The encoding of static values is one word for each, in order.
pub proof fn lemma_static_encoding_is_words(args: Seq<AbiTerm>)
    requires
        forall|i: int| 0 <= i < args.len() ==> fits_a_word(#[trigger] args[i]),
    ensures
        encoding(args) == static_encoding(args),
        encoding(args).len() == 32 * args.len(),
        forall|i: int| 0 <= i < args.len() ==> word_at(encoding(args), i) == static_word(#[trigger] args[i]),
    decreases args.len(),
{
    assert forall|i: int| 0 <= i < kinds_of(args).len() implies is_static(#[trigger] kinds_of(args)[i]) by {
        assert(fits_a_word(args[i]));
    }
    lemma_encoding_of_static(args, 0);
    if args.len() > 0 {
        let front = args.drop_last();
        lemma_static_encoding_is_words(front);
        lemma_word_round_trip(args.last());
        let whole = static_encoding(args);
        assert(whole == static_encoding(front) + static_word(args.last()));
        assert forall|i: int| 0 <= i < args.len() implies word_at(whole, i) == static_word(
            #[trigger] args[i],
        ) by {
            if i < front.len() {
                assert(word_at(whole, i) =~= word_at(static_encoding(front), i));
                assert(front[i] == args[i]);
            } else {
                assert(word_at(whole, i) =~= static_word(args.last()));
            }
        }
    }
}

/// Whether an address among the values has its 20 bytes.
pub open spec fn addresses_are_whole(args: Seq<AbiTerm>) -> bool {
    forall|i: int| 0 <= i < args.len() ==> (#[trigger] args[i] matches AbiTerm::Address(a) ==> a.len() == 20)
}

/// Padding fills up to the next whole word and adds less than a word.
pub proof fn lemma_padded_length(bytes: Seq<u8>)
    ensures
        padded(bytes).len() == ((bytes.len() + 31) / 32) * 32,
        padded(bytes).len() % 32 == 0,
        bytes.len() <= padded(bytes).len() < bytes.len() + 32,
{
    let n = bytes.len() as int;
    assert(padded(bytes).len() == n + (32 - n % 32) % 32);
    assert(n + (32 - n % 32) % 32 == ((n + 31) / 32) * 32);
}

/// A head is one word; a tail is nothing, or a length word and whole words of bytes.
pub proof fn lemma_head_and_tail_length(term: AbiTerm, offset: nat)
    requires
        term matches AbiTerm::Address(a) ==> a.len() == 20,
    ensures
        head_of(term, offset).len() == 32,
        tail_of(term).len() == match term {
            AbiTerm::Bytes(b) => 32 + ((b.len() + 31) / 32) * 32,
            _ => 0,
        },
{
    lemma_big_endian_round_trip(offset, 32);
    match term {
        AbiTerm::Bytes(b) => {
            lemma_big_endian_round_trip(b.len(), 32);
            lemma_padded_length(b);
        },
        AbiTerm::Uint(n) => {
            lemma_big_endian_round_trip(n, 32);
        },
        _ => {},
    }
}

/// The encoding is as long as [`encoded_length`] says: a word for each head,
/// and for each byte string a word for its length and its bytes in whole words.
pub proof fn lemma_encoding_has_encoded_length(args: Seq<AbiTerm>, width: nat)
    requires
        addresses_are_whole(args),
    ensures
        heads(args, width).len() == 32 * args.len(),
        32 * args.len() + tails(args).len() == encoded_length(args),
        encoding(args).len() == encoded_length(args),
    decreases args.len(),
{
    if args.len() > 0 {
        let front = args.drop_last();
        assert forall|i: int| 0 <= i < front.len() implies (#[trigger] front[i] matches AbiTerm::Address(a)
            ==> a.len() == 20) by {
            assert(front[i] == args[i]);
        }
        lemma_encoding_has_encoded_length(front, width);
        assert(args.last() == args[args.len() - 1]);
        lemma_head_and_tail_length(args.last(), width + tails(front).len());
    }
    lemma_heads_length(args, 32 * args.len());
}

/// The heads take one word for each value, wherever the tails start.
pub proof fn lemma_heads_length(args: Seq<AbiTerm>, width: nat)
    requires
        addresses_are_whole(args),
    ensures
        heads(args, width).len() == 32 * args.len(),
    decreases args.len(),
{
    if args.len() > 0 {
        let front = args.drop_last();
        assert forall|i: int| 0 <= i < front.len() implies (#[trigger] front[i] matches AbiTerm::Address(a)
            ==> a.len() == 20) by {
            assert(front[i] == args[i]);
        }
        lemma_heads_length(front, width);
        assert(args.last() == args[args.len() - 1]);
        lemma_head_and_tail_length(args.last(), width + tails(front).len());
    }
}

/// The encoding of one byte string: the offset 32, the length, and the
/// bytes padded with zeros to whole words.
pub proof fn lemma_encoding_of_byte_string(bytes: Seq<u8>)
    ensures
        encoding(seq![AbiTerm::Bytes(bytes)]) == big_endian(32, 32) + big_endian(bytes.len(), 32) + padded(bytes),
        big_endian(32, 32).len() == 32,
        big_endian(bytes.len(), 32).len() == 32,
        padded(bytes).len() >= bytes.len(),
        padded(bytes).len() % 32 == 0,
        padded(bytes).len() < bytes.len() + 32,
{
    let args = seq![AbiTerm::Bytes(bytes)];
    lemma_big_endian_round_trip(32, 32);
    lemma_big_endian_round_trip(bytes.len(), 32);
    assert(args.drop_last() =~= Seq::<AbiTerm>::empty());
    assert(tails(args) =~= big_endian(bytes.len(), 32) + padded(bytes)) by {
        reveal_with_fuel(tails, 2);
    }
    assert(heads(args, 32) =~= big_endian(32, 32)) by {
        reveal_with_fuel(heads, 2);
        reveal_with_fuel(tails, 2);
    }
    assert(encoding(args) =~= big_endian(32, 32) + big_endian(bytes.len(), 32) + padded(bytes));
}

/// A byte string comes back from its encoding as it went in, whatever
/// follows the encoding.
pub proof fn lemma_byte_string_round_trip(bytes: Seq<u8>, rest: Seq<u8>)
    requires
        bytes.len() < 0x1_0000_0000,
    ensures
        bytes_value(encoding(seq![AbiTerm::Bytes(bytes)]) + rest) == Some(AbiTerm::Bytes(bytes)),
{
    lemma_encoding_of_byte_string(bytes);
    lemma_word_of_small_number(32);
    lemma_word_of_small_number(bytes.len());
    let first = big_endian(32, 32);
    let second = big_endian(bytes.len(), 32);
    let data = encoding(seq![AbiTerm::Bytes(bytes)]) + rest;
    assert(data =~= first + second + padded(bytes) + rest);
    assert(data.subrange(0, 28) =~= zeros(28));
    assert(data.subrange(28, 32) =~= big_endian(32, 4));
    assert(number_at(data, 0) == Some(32nat));
    assert(data.subrange(32, 60) =~= zeros(28));
    assert(data.subrange(60, 64) =~= big_endian(bytes.len(), 4));
    assert(number_at(data, 32) == Some(bytes.len()));
    assert(data.subrange(64, 64 + bytes.len() as int) =~= bytes);
}

/// A value that can be sent and read back: a static value that fits its
/// word, or a byte string whose encoding stays within the bound.
pub open spec fn fits_a_call(term: AbiTerm) -> bool {
    match term {
        AbiTerm::Bytes(b) => encoded_length(seq![term]) <= MAX_ENCODED_LENGTH,
        _ => fits_a_word(term),
    }
}

/// Decoding is the inverse of encoding for a single typed value, be it an
/// address, a number, a truth value or a byte string: where a method returns
/// a value of the kind that it takes, the argument bytes of its call data,
/// read as its return data, hold the argument.
pub proof fn lemma_call_round_trip(methods: Seq<MethodView>, name: Seq<char>, value: AbiTerm)
    requires
        fits_a_call(value),
        decodable(kind_of(value)),
        find_method(methods, name) matches Some(method) && method.inputs == seq![kind_of(value)]
            && method.outputs == seq![kind_of(value)],
    ensures
        ({
            let selector = method_selector(find_method(methods, name)->Some_0.name, seq![kind_of(value)]);
            &&& call_encoding(methods, name, seq![value]) == Ok::<Seq<u8>, ErrorView>(
                selector + encoding(seq![value]),
            )
            &&& result_decoding(methods, name, (selector + encoding(seq![value])).skip(selector.len() as int))
                == Ok::<AbiTerm, ErrorView>(value)
        }),
{
    let args = seq![value];
    let method = find_method(methods, name)->Some_0;
    let selector = method_selector(method.name, seq![kind_of(value)]);
    assert(kinds_of(args) =~= seq![kind_of(value)]);
    assert(args.drop_last() =~= Seq::<AbiTerm>::empty());
    assert(encoded_length(args) <= MAX_ENCODED_LENGTH) by {
        reveal_with_fuel(encoded_length, 2);
    }
    let data = selector + encoding(args);
    assert(data.skip(selector.len() as int) =~= encoding(args));
    match value {
        AbiTerm::Bytes(b) => {
            assert(b.len() < 0x1_0000_0000) by {
                reveal_with_fuel(encoded_length, 2);
            }
            lemma_byte_string_round_trip(b, Seq::empty());
            assert(encoding(args) + Seq::<u8>::empty() =~= encoding(args));
        },
        _ => {
            lemma_static_encoding_is_words(args);
            lemma_word_round_trip(value);
            assert(word_at(encoding(args), 0) == static_word(args[0]));
        },
    }
}

/// Every address, number and truth value that the library holds fits a word.
pub proof fn lemma_held_values_fit_a_word(value: AbiValue)
    requires
        !(value is Bytes),
    ensures
        fits_a_word(value@),
{
}

/// Static values encode to 32 bytes each.
pub proof fn lemma_encoded_length_of_static(args: Seq<AbiTerm>)
    requires
        all_static(kinds_of(args)),
    ensures
        encoded_length(args) == 32 * args.len(),
    decreases args.len(),
{
    if args.len() > 0 {
        let front = args.drop_last();
        assert forall|i: int| 0 <= i < kinds_of(front).len() implies is_static(#[trigger] kinds_of(front)[i]) by {
            assert(is_static(kinds_of(args)[i]));
        }
        lemma_encoded_length_of_static(front);
        assert(is_static(kinds_of(args)[args.len() - 1]));
    }
}

/// The call data of a token transfer is the selector of
/// `transfer(address,uint256)`, then the recipient after 12 zero bytes, then
/// the amount as a 32-byte big-endian number: 64 bytes after the selector.
pub proof fn lemma_token_transfer_call_data(to: Seq<u8>, value: nat)
    requires
        to.len() == 20,
        value < word_limit(),
    ensures
        call_encoding(erc20_methods(), TRANSFER@, seq![AbiTerm::Address(to), AbiTerm::Uint(value)]) == Ok::<
            Seq<u8>,
            ErrorView,
        >(
            method_selector(TRANSFER@, seq![ParamKind::Address, ParamKind::Uint]) + (zeros(12) + to) + big_endian(
                value,
                32,
            ),
        ),
        (zeros(12) + to).len() == 32,
        big_endian(value, 32).len() == 32,
{
    reveal_strlit("transfer");
    reveal_strlit("balanceOf");
    let args = seq![AbiTerm::Address(to), AbiTerm::Uint(value)];
    assert("balanceOf"@.len() != "transfer"@.len());
    assert(find_from(erc20_methods(), TRANSFER@, 0) == Some(1int)) by {
        reveal_with_fuel(find_from, 3);
    }
    assert(kinds_of(args) =~= seq![ParamKind::Address, ParamKind::Uint]);
    assert(all_static(kinds_of(args)));
    lemma_encoded_length_of_static(args);
    lemma_encoding_of_static(args, 0);
    lemma_big_endian_round_trip(value, 32);
    assert(static_encoding(args) =~= (zeros(12) + to) + big_endian(value, 32)) by {
        reveal_with_fuel(static_encoding, 3);
        assert(args.drop_last() =~= seq![AbiTerm::Address(to)]);
        assert(args.drop_last().drop_last() =~= Seq::<AbiTerm>::empty());
    }
    let selector = method_selector(TRANSFER@, seq![ParamKind::Address, ParamKind::Uint]);
    assert(selector + static_encoding(args) =~= selector + (zeros(12) + to) + big_endian(value, 32));
}

/// A token transfer that starts carries exactly that call data as the data
/// of its transaction, addressed to the token.
pub proof fn lemma_token_transfer_embeds_call_data(
    key: KeyInfoView,
    client: ClientConfigView,
    token_addr: Seq<char>,
    to_addr: Seq<char>,
    value: u64,
    tx_count: Option<u128>,
    gas_price: Option<u128>,
    broadcast: bool,
)
    requires
        token_transfer_start(key, client, token_addr, to_addr, value, tx_count, gas_price, broadcast) is Ok,
    ensures
        ({
            let start = token_transfer_start(
                key,
                client,
                token_addr,
                to_addr,
                value,
                tx_count,
                gas_price,
                broadcast,
            )->Ok_0;
            &&& address_text_bytes(to_addr) matches Some(to)
            &&& address_text_bytes(token_addr) matches Some(token)
            &&& start.0.task matches TaskView::Transfer { payload: PayloadView::ContractCall { contract, data }, .. }
            &&& contract == token
            &&& data == method_selector(TRANSFER@, seq![ParamKind::Address, ParamKind::Uint]) + (zeros(12) + to)
                + big_endian(value as nat, 32)
        }),
{
    let to = address_text_bytes(to_addr)->Some_0;
    assert(to.len() == 20);
    lemma_token_transfer_call_data(to, value as nat);
}

/// The call data of a balance query is the selector of
/// `balanceOf(address)` and then the account after 12 zero bytes.
pub proof fn lemma_balance_call_data(account: Seq<u8>)
    requires
        account.len() == 20,
    ensures
        balance_call_data(erc20_methods(), account) == Ok::<Seq<u8>, ErrorView>(
            method_selector(BALANCE_OF@, seq![ParamKind::Address]) + (zeros(12) + account),
        ),
{
    let args = seq![AbiTerm::Address(account)];
    assert(find_from(erc20_methods(), BALANCE_OF@, 0) == Some(0int));
    assert(kinds_of(args) =~= seq![ParamKind::Address]);
    assert(all_static(kinds_of(args)));
    lemma_encoded_length_of_static(args);
    lemma_encoding_of_static(args, 0);
    assert(static_encoding(args) =~= zeros(12) + account) by {
        reveal_with_fuel(static_encoding, 2);
        assert(args.drop_last() =~= Seq::<AbiTerm>::empty());
    }
}

} // verus!
