//! What holds of the factory table, of the search for the vault's registrations,
//! of the encodings that attributes are written in, and of every component that
//! [`address_map`](crate::pool_factories::address_map) returns: stated over the
//! specifications of the functions, and proved.

use crate::abi::AbiTerm;
use crate::component::{
    ChangeType, ComponentView, FinancialType, ImplementationType, ProtocolComponent,
    ProtocolTypeView,
};
use crate::encoding::{
    be_digits, be_value, comma_separated, hex_bytes, hex_chars, hex_digit, json_hex_list,
    quoted_hex, signed_be, signed_be_words,
};
use crate::factory::{
    is_pool_created_log, spec_decode_pool_created, CreateCallView, FactorySchema,
    GEARBOX_LINEAR_POOL_FACTORY, MANAGED_POOL_FACTORY,
};
use crate::pool_factories::{
    attribute, component_id, result_view, spec_address_map, spec_attributes, CorrelationError,
    PROTOCOL_NAME,
};
use crate::trace::{CallView, LogView};
use crate::vault::{
    is_pool_registered_log, registers_pool, registers_tokens, spec_decode_pool_registered,
    spec_decode_tokens_registered, spec_get_pool_registered, spec_get_token_registered,
    PoolRegisteredView, VAULT_ADDRESS,
};
use vstd::prelude::*;
use vstd::string::StringSliceAdditionalSpecFns;

verus! {

/// The addresses of the factories differ in their first byte already.
proof fn lemma_first_bytes_of_the_factories()
    ensures
        FactorySchema::WeightedPoolV1.spec_address()[0] == 0x7d,
        FactorySchema::WeightedPoolV2.spec_address()[0] == 0x8d,
        FactorySchema::WeightedPoolV3.spec_address()[0] == 0xf1,
        FactorySchema::WeightedPoolV4.spec_address()[0] == 0xc7,
        FactorySchema::ComposableStablePool.spec_address()[0] == 0xa8,
        FactorySchema::Erc4626LinearPool.spec_address()[0] == 0x7a,
        FactorySchema::YearnLinearPool.spec_address()[0] == 0x19,
        FactorySchema::WeightedPool2Tokens.spec_address()[0] == 0xcf,
{
}

/// Every factory of the table is found under its own address, and under no
/// other factory's.
pub proof fn lemma_table_finds_each_factory(schema: FactorySchema)
    ensures
        FactorySchema::spec_from_address(schema.spec_address()) == Some(schema),
{
    lemma_first_bytes_of_the_factories();
}

/// An address is in the table exactly if it is the address of one of the
/// factories.
pub proof fn lemma_table_holds_the_factories_only(address: Seq<u8>)
    ensures
        FactorySchema::spec_from_address(address) matches Some(schema) ==> address
            == schema.spec_address(),
        FactorySchema::spec_from_address(address) is None <==> forall|schema: FactorySchema|
            address != #[trigger] schema.spec_address(),
{
    if FactorySchema::spec_from_address(address) is None {
        assert forall|schema: FactorySchema| address != #[trigger] schema.spec_address() by {
            if address == schema.spec_address() {
                lemma_table_finds_each_factory(schema);
            }
        }
    } else {
        let schema = FactorySchema::spec_from_address(address).unwrap();
        assert(address == schema.spec_address());
    }
}

/// The two factories that are known and left out are not in the table.
pub proof fn lemma_unsupported_factories_are_not_in_the_table()
    ensures
        FactorySchema::spec_from_address(GEARBOX_LINEAR_POOL_FACTORY@) is None,
        FactorySchema::spec_from_address(MANAGED_POOL_FACTORY@) is None,
{
    lemma_first_bytes_of_the_factories();
    assert(GEARBOX_LINEAR_POOL_FACTORY@[0] == 0x39);
    assert(MANAGED_POOL_FACTORY@[0] == 0xbf);
}

/// For an address that is no factory of the table the result is "not
/// recognized", whatever the log, the call and the transaction hold.
pub proof fn lemma_unknown_factory_is_not_recognized(
    pool_factory_address: Seq<u8>,
    log: LogView,
    call: CallView,
    tx: Seq<LogView>,
)
    requires
        forall|schema: FactorySchema| pool_factory_address != #[trigger] schema.spec_address(),
    ensures
        spec_address_map(pool_factory_address, log, call, tx) == Ok::<
            Option<ComponentView>,
            CorrelationError,
        >(None),
{
    lemma_table_holds_the_factories_only(pool_factory_address);
}

/// The search for a pool's registration returns the first log of the vault
/// that registers the pool, and nothing exactly if no log does.
pub proof fn lemma_first_pool_registration_counts(logs: Seq<LogView>, pool_address: Seq<u8>)
    ensures
        match spec_get_pool_registered(logs, pool_address) {
            Some(event) => exists|i: int|
                {
                    &&& 0 <= i < logs.len()
                    &&& #[trigger] registers_pool(logs[i], pool_address)
                    &&& spec_decode_pool_registered(logs[i]) == Some(event)
                    &&& forall|j: int|
                        0 <= j < i ==> !registers_pool(#[trigger] logs[j], pool_address)
                },
            None => forall|i: int|
                0 <= i < logs.len() ==> !registers_pool(#[trigger] logs[i], pool_address),
        },
    decreases logs.len(),
{
    if logs.len() == 0 {
    } else if registers_pool(logs[0], pool_address) {
    } else {
        let rest = logs.drop_first();
        lemma_first_pool_registration_counts(rest, pool_address);
        assert(forall|i: int| 0 <= i < rest.len() ==> rest[i] == logs[i + 1]);
        match spec_get_pool_registered(rest, pool_address) {
            Some(event) => {
                let i = choose|i: int|
                    {
                        &&& 0 <= i < rest.len()
                        &&& #[trigger] registers_pool(rest[i], pool_address)
                        &&& spec_decode_pool_registered(rest[i]) == Some(event)
                        &&& forall|j: int|
                            0 <= j < i ==> !registers_pool(#[trigger] rest[j], pool_address)
                    };
                assert(registers_pool(logs[i + 1], pool_address));
                assert forall|j: int| 0 <= j < i + 1 implies !registers_pool(
                    #[trigger] logs[j],
                    pool_address,
                ) by {
                    if j > 0 {
                        assert(logs[j] == rest[j - 1]);
                    }
                }
            },
            None => {
                assert forall|i: int| 0 <= i < logs.len() implies !registers_pool(
                    #[trigger] logs[i],
                    pool_address,
                ) by {
                    if i > 0 {
                        assert(logs[i] == rest[i - 1]);
                    }
                }
            },
        }
    }
}

/// The search for a pool's token registration returns the first log of the
/// vault that registers tokens for the pool, and nothing exactly if no log does.
pub proof fn lemma_first_token_registration_counts(logs: Seq<LogView>, pool_id: Seq<u8>)
    ensures
        match spec_get_token_registered(logs, pool_id) {
            Some(event) => exists|i: int|
                {
                    &&& 0 <= i < logs.len()
                    &&& #[trigger] registers_tokens(logs[i], pool_id)
                    &&& spec_decode_tokens_registered(logs[i]) == Some(event)
                    &&& forall|j: int|
                        0 <= j < i ==> !registers_tokens(#[trigger] logs[j], pool_id)
                },
            None => forall|i: int|
                0 <= i < logs.len() ==> !registers_tokens(#[trigger] logs[i], pool_id),
        },
    decreases logs.len(),
{
    if logs.len() == 0 {
    } else if registers_tokens(logs[0], pool_id) {
    } else {
        let rest = logs.drop_first();
        lemma_first_token_registration_counts(rest, pool_id);
        assert(forall|i: int| 0 <= i < rest.len() ==> rest[i] == logs[i + 1]);
        match spec_get_token_registered(rest, pool_id) {
            Some(event) => {
                let i = choose|i: int|
                    {
                        &&& 0 <= i < rest.len()
                        &&& #[trigger] registers_tokens(rest[i], pool_id)
                        &&& spec_decode_tokens_registered(rest[i]) == Some(event)
                        &&& forall|j: int|
                            0 <= j < i ==> !registers_tokens(#[trigger] rest[j], pool_id)
                    };
                assert(registers_tokens(logs[i + 1], pool_id));
                assert forall|j: int| 0 <= j < i + 1 implies !registers_tokens(
                    #[trigger] logs[j],
                    pool_id,
                ) by {
                    if j > 0 {
                        assert(logs[j] == rest[j - 1]);
                    }
                }
            },
            None => {
                assert forall|i: int| 0 <= i < logs.len() implies !registers_tokens(
                    #[trigger] logs[i],
                    pool_id,
                ) by {
                    if i > 0 {
                        assert(logs[i] == rest[i - 1]);
                    }
                }
            },
        }
    }
}

/// A registration that is found is the vault's, and it is for the pool that
/// was asked for.
pub proof fn lemma_found_registration_is_for_the_pool(logs: Seq<LogView>, pool_address: Seq<u8>)
    ensures
        spec_get_pool_registered(logs, pool_address) matches Some(event) ==> event.pool_address
            == pool_address,
    decreases logs.len(),
{
    if logs.len() > 0 && !registers_pool(logs[0], pool_address) {
        lemma_found_registration_is_for_the_pool(logs.drop_first(), pool_address);
    }
}

/// A token registration that is found is for the identifier that was asked for.
pub proof fn lemma_found_tokens_are_for_the_pool(logs: Seq<LogView>, pool_id: Seq<u8>)
    ensures
        spec_get_token_registered(logs, pool_id) matches Some(event) ==> event.pool_id == pool_id,
    decreases logs.len(),
{
    if logs.len() > 0 && !registers_tokens(logs[0], pool_id) {
        lemma_found_tokens_are_for_the_pool(logs.drop_first(), pool_id);
    }
}

/// Appending a byte multiplies the number that the bytes spell by 256 and adds
/// the byte.
pub proof fn lemma_be_value_of_push(bytes: Seq<u8>, last: u8)
    ensures
        be_value(bytes.push(last)) == 256 * be_value(bytes) + last,
{
    assert(bytes.push(last).drop_last() =~= bytes);
}

/// Zero bytes in front do not change the number that the bytes spell.
pub proof fn lemma_be_value_ignores_leading_zero(bytes: Seq<u8>)
    ensures
        be_value(seq![0u8] + bytes) == be_value(bytes),
    decreases bytes.len(),
{
    let longer = seq![0u8] + bytes;
    if bytes.len() == 0 {
        assert(longer.drop_last() =~= bytes);
        assert(be_value(bytes) == 0);
        assert(be_value(longer) == 256 * be_value(longer.drop_last()) + longer.last());
    } else {
        lemma_be_value_ignores_leading_zero(bytes.drop_last());
        assert(longer.drop_last() =~= seq![0u8] + bytes.drop_last());
        assert(longer.last() == bytes.last());
    }
}

/// The digits of a number spell the number, and start with a zero only for
/// zero itself.
pub proof fn lemma_be_digits_spell_the_number(n: nat)
    ensures
        be_digits(n).len() >= 1,
        be_value(be_digits(n)) == n,
        n > 0 ==> be_digits(n)[0] > 0,
    decreases n,
{
    if n < 256 {
        lemma_be_value_of_push(Seq::empty(), n as u8);
        assert(Seq::<u8>::empty().push(n as u8) =~= seq![n as u8]);
    } else {
        lemma_be_digits_spell_the_number(n / 256);
        lemma_be_value_of_push(be_digits(n / 256), (n % 256) as u8);
    }
}

/// The signed form of a number spells the number, and its top bit, the sign, is
/// not set.
pub proof fn lemma_signed_be_spells_the_number(n: nat)
    ensures
        signed_be(n).len() >= 1,
        signed_be(n)[0] < 128,
        be_value(signed_be(n)) == n,
{
    lemma_be_digits_spell_the_number(n);
    if be_digits(n)[0] >= 128 {
        lemma_be_value_ignores_leading_zero(be_digits(n));
    }
}

/// Two byte strings with the same hex are the same.
pub proof fn lemma_hex_is_one_to_one(a: Seq<u8>, b: Seq<u8>)
    requires
        hex_chars(a) == hex_chars(b),
    ensures
        a == b,
{
    assert(hex_chars(a).len() == 2 * a.len());
    assert(hex_chars(b).len() == 2 * b.len());
    assert(a.len() == b.len());
    assert forall|i: int| 0 <= i < a.len() implies a[i] == b[i] by {
        let x = a[i] as int;
        let y = b[i] as int;
        assert(hex_chars(a)[2 * i] == hex_bytes(a)[2 * i] as char);
        assert(hex_chars(b)[2 * i] == hex_bytes(b)[2 * i] as char);
        assert(hex_chars(a)[2 * i + 1] == hex_bytes(a)[2 * i + 1] as char);
        assert(hex_chars(b)[2 * i + 1] == hex_bytes(b)[2 * i + 1] as char);
        assert(hex_bytes(a)[2 * i] == hex_digit(x / 16));
        assert(hex_bytes(b)[2 * i] == hex_digit(y / 16));
        assert(hex_bytes(a)[2 * i + 1] == hex_digit(x % 16));
        assert(hex_bytes(b)[2 * i + 1] == hex_digit(y % 16));
        assert(hex_digit(x / 16) == hex_digit(y / 16));
        assert(hex_digit(x % 16) == hex_digit(y % 16));
        assert(x / 16 == y / 16);
        assert(x % 16 == y % 16);
    }
    assert(a =~= b);
}

/// Two byte strings with the same hex, as ASCII codes, are the same.
pub proof fn lemma_hex_bytes_is_one_to_one(a: Seq<u8>, b: Seq<u8>)
    requires
        hex_bytes(a) == hex_bytes(b),
    ensures
        a == b,
{
    assert(hex_bytes(a).len() == 2 * a.len());
    assert(hex_bytes(b).len() == 2 * b.len());
    assert(hex_chars(a) =~= hex_chars(b));
    lemma_hex_is_one_to_one(a, b);
}

/// Hex is made of digits and of the letters `a` to `f`: it holds no quotation
/// mark and no comma.
pub proof fn lemma_hex_holds_digits_only(bytes: Seq<u8>, i: int)
    requires
        0 <= i < 2 * bytes.len(),
    ensures
        48 <= hex_bytes(bytes)[i] <= 57 || 97 <= hex_bytes(bytes)[i] <= 102,
{
    let byte = bytes[i / 2] as int;
    assert(0 <= byte / 16 < 16 && 0 <= byte % 16 < 16);
}

/// Where two strings end in a quoted hex string each and are the same, the hex
/// strings are of the same bytes, and what stands before them is the same.
pub proof fn lemma_last_quoted_hex_is_told_apart(
    before_a: Seq<u8>,
    a: Seq<u8>,
    before_b: Seq<u8>,
    b: Seq<u8>,
)
    requires
        before_a + quoted_hex(a) == before_b + quoted_hex(b),
    ensures
        a == b,
        before_a == before_b,
{
    let whole = before_a + quoted_hex(a);
    let (qa, qb) = (quoted_hex(a), quoted_hex(b));
    assert(qa.len() == 2 * a.len() + 4);
    assert(qb.len() == 2 * b.len() + 4);
    assert(whole.len() == before_a.len() + qa.len());
    assert(whole.len() == before_b.len() + qb.len());
    if a.len() < b.len() {
        // the opening mark of the shorter string would stand inside the longer one
        let at = qb.len() - qa.len();
        assert(whole[before_a.len() as int] == qa[0]);
        assert(whole[before_a.len() as int] == qb[at]);
        assert(qa[0] == 0x22);
        if at > 2 {
            lemma_hex_holds_digits_only(b, at - 3);
            assert(qb[at] == hex_bytes(b)[at - 3]);
        }
        assert(false);
    }
    if b.len() < a.len() {
        let at = qa.len() - qb.len();
        assert(whole[before_b.len() as int] == qb[0]);
        assert(whole[before_b.len() as int] == qa[at]);
        assert(qb[0] == 0x22);
        if at > 2 {
            lemma_hex_holds_digits_only(a, at - 3);
            assert(qa[at] == hex_bytes(a)[at - 3]);
        }
        assert(false);
    }
    assert(before_a.len() == before_b.len());
    assert(before_a =~= whole.subrange(0, before_a.len() as int));
    assert(before_b =~= whole.subrange(0, before_b.len() as int));
    assert(qa =~= whole.subrange(before_a.len() as int, whole.len() as int));
    assert(qb =~= whole.subrange(before_b.len() as int, whole.len() as int));
    assert(hex_bytes(a) =~= qa.subrange(3, qa.len() - 1));
    assert(hex_bytes(b) =~= qb.subrange(3, qb.len() - 1));
    lemma_hex_bytes_is_one_to_one(a, b);
}

/// What stands before the last quoted hex string of a list: nothing for a list
/// of one, else the strings before it and a comma.
pub open spec fn before_the_last(items: Seq<Seq<u8>>) -> Seq<u8> {
    if items.len() <= 1 {
        seq![]
    } else {
        comma_separated(items.drop_last()) + seq![0x2cu8]
    }
}

/// A list that is not empty is written as what stands before its last string,
/// and that string.
pub proof fn lemma_comma_separated_ends_in_the_last(items: Seq<Seq<u8>>)
    requires
        items.len() >= 1,
    ensures
        comma_separated(items) == before_the_last(items) + quoted_hex(items.last()),
        comma_separated(items).len() >= 4,
{
    if items.len() == 1 {
        assert(seq![] + quoted_hex(items[0]) =~= quoted_hex(items[0]));
    } else {
        assert(comma_separated(items) =~= before_the_last(items) + quoted_hex(items.last()));
    }
}

/// Two lists of byte strings that are written the same are the same.
pub proof fn lemma_comma_separated_is_one_to_one(a: Seq<Seq<u8>>, b: Seq<Seq<u8>>)
    requires
        comma_separated(a) == comma_separated(b),
    ensures
        a == b,
    decreases a.len(),
{
    if a.len() == 0 || b.len() == 0 {
        if a.len() > 0 {
            lemma_comma_separated_ends_in_the_last(a);
        }
        if b.len() > 0 {
            lemma_comma_separated_ends_in_the_last(b);
        }
        assert(a =~= b);
    } else {
        lemma_comma_separated_ends_in_the_last(a);
        lemma_comma_separated_ends_in_the_last(b);
        lemma_last_quoted_hex_is_told_apart(
            before_the_last(a),
            a.last(),
            before_the_last(b),
            b.last(),
        );
        if a.len() == 1 || b.len() == 1 {
            assert(before_the_last(a).len() == 0 && before_the_last(b).len() == 0);
            assert(a =~= b);
        } else {
            let (rest_a, rest_b) = (a.drop_last(), b.drop_last());
            let comma = seq![0x2cu8];
            assert(comma_separated(rest_a) =~= (comma_separated(rest_a) + comma).drop_last());
            assert(comma_separated(rest_b) =~= (comma_separated(rest_b) + comma).drop_last());
            lemma_comma_separated_is_one_to_one(rest_a, rest_b);
            assert(a =~= rest_a.push(a.last()));
            assert(b =~= rest_b.push(b.last()));
        }
    }
}

/// Two lists of byte strings with the same JSON are the same: an attribute
/// that holds a list of addresses tells the addresses.
pub proof fn lemma_json_hex_list_is_one_to_one(a: Seq<Seq<u8>>, b: Seq<Seq<u8>>)
    requires
        json_hex_list(a) == json_hex_list(b),
    ensures
        a == b,
{
    let (ja, jb) = (json_hex_list(a), json_hex_list(b));
    assert(comma_separated(a) =~= ja.subrange(1, ja.len() - 1));
    assert(comma_separated(b) =~= jb.subrange(1, jb.len() - 1));
    lemma_comma_separated_is_one_to_one(a, b);
}

/// Two lists of words whose numbers are written as the same JSON spell the
/// same numbers: an attribute that holds a list of numbers tells the numbers.
pub proof fn lemma_json_number_list_tells_the_numbers(a: Seq<Seq<u8>>, b: Seq<Seq<u8>>)
    requires
        json_hex_list(signed_be_words(a)) == json_hex_list(signed_be_words(b)),
    ensures
        a.len() == b.len(),
        forall|i: int| 0 <= i < a.len() ==> be_value(#[trigger] a[i]) == be_value(b[i]),
{
    lemma_json_hex_list_is_one_to_one(signed_be_words(a), signed_be_words(b));
    assert(signed_be_words(a).len() == a.len());
    assert(signed_be_words(b).len() == b.len());
    assert forall|i: int| 0 <= i < a.len() implies be_value(#[trigger] a[i]) == be_value(
        b[i],
    ) by {
        assert(signed_be_words(a)[i] == signed_be(be_value(a[i])));
        assert(signed_be_words(b)[i] == signed_be(be_value(b[i])));
        lemma_signed_be_spells_the_number(be_value(a[i]));
        lemma_signed_be_spells_the_number(be_value(b[i]));
    }
}

/// Two pool identifiers with the same component identifier are the same: a
/// component's identifier tells which pool identifier it was made from.
pub proof fn lemma_component_id_is_one_to_one(a: Seq<u8>, b: Seq<u8>)
    requires
        component_id(a) == component_id(b),
    ensures
        a == b,
{
    assert(hex_chars(a) =~= component_id(a).subrange(2, component_id(a).len() as int));
    assert(hex_chars(b) =~= component_id(b).subrange(2, component_id(b).len() as int));
    lemma_hex_is_one_to_one(a, b);
}

/// A log announces a pool's creation exactly if it has the shape of the event
/// and its second topic is a full word; the pool is the last 20 bytes of that
/// word.
pub proof fn lemma_pool_created_in_bytes(log: LogView)
    ensures
        spec_decode_pool_created(log) == if is_pool_created_log(log) && log.topics[1].len() >= 32 {
            Some(log.topics[1].subrange(12, 32))
        } else {
            None
        },
{
}

/// A log holds a pool's registration exactly if it has the shape of the event
/// and its second and third topics are full words; the identifier is the first
/// word of the second topic, the address the last 20 bytes of the first word of
/// the third, the specialization the data.
pub proof fn lemma_pool_registered_in_bytes(log: LogView)
    ensures
        spec_decode_pool_registered(log) == if is_pool_registered_log(log) && log.topics[1].len()
            >= 32 && log.topics[2].len() >= 32 {
            Some(
                PoolRegisteredView {
                    pool_id: log.topics[1].subrange(0, 32),
                    pool_address: log.topics[2].subrange(12, 32),
                    specialization: log.data,
                },
            )
        } else {
            None
        },
{
    if is_pool_registered_log(log) {
        assert(log.data.subrange(0, 32) =~= log.data);
    }
}

/// A created pool's address has 20 bytes; a registration holds an identifier of
/// 32 bytes, an address of 20 and a specialization of one word.
pub proof fn lemma_decoded_sizes(log: LogView)
    ensures
        spec_decode_pool_created(log) matches Some(pool) ==> pool.len() == 20,
        spec_decode_pool_registered(log) matches Some(event) ==> {
            &&& event.pool_id.len() == 32
            &&& event.pool_address.len() == 20
            &&& event.specialization.len() == 32
        },
        spec_decode_tokens_registered(log) matches Some(event) ==> event.pool_id.len() == 32,
{
}

/// A registration that is found holds an identifier of 32 bytes.
pub proof fn lemma_found_registration_has_a_full_identifier(
    logs: Seq<LogView>,
    pool_address: Seq<u8>,
)
    ensures
        spec_get_pool_registered(logs, pool_address) matches Some(event) ==> event.pool_id.len()
            == 32,
    decreases logs.len(),
{
    if logs.len() > 0 {
        if registers_pool(logs[0], pool_address) {
            lemma_decoded_sizes(logs[0]);
        } else {
            lemma_found_registration_has_a_full_identifier(logs.drop_first(), pool_address);
        }
    }
}

/// The identifier of a component is made from the identifier under which the
/// vault registered the pool in the same transaction: `0x` and 64 hex digits.
/// It is never the hex of the pool's address.
pub proof fn lemma_identifier_is_the_registered_pool_id(
    pool_factory_address: Seq<u8>,
    log: LogView,
    call: CallView,
    tx: Seq<LogView>,
)
    requires
        spec_address_map(pool_factory_address, log, call, tx) matches Ok(Some(_)),
    ensures
        ({
            let component = spec_address_map(pool_factory_address, log, call, tx).unwrap().unwrap();
            &&& spec_decode_pool_created(log) matches Some(pool)
            &&& spec_get_pool_registered(tx, pool) matches Some(registered)
            &&& registered.pool_address == pool
            &&& component.id == component_id(registered.pool_id)
            &&& component.id.len() == 66
            &&& component.id != component_id(pool)
        }),
{
    let pool = spec_decode_pool_created(log).unwrap();
    let registered = spec_get_pool_registered(tx, pool).unwrap();
    lemma_found_registration_is_for_the_pool(tx, pool);
    lemma_found_registration_has_a_full_identifier(tx, pool);
    lemma_decoded_sizes(log);
    assert(component_id(registered.pool_id).len() == 66);
    assert(component_id(pool).len() == 42);
}

/// A decoded `create` call has the shape of its factory's pools: weighted for
/// the first weighted pool factory and the two-token one, weighted with rates
/// for the later weighted pool factories, and so on. A factory whose call
/// carries no token list is one whose pools take their tokens from the vault.
pub proof fn lemma_create_call_has_the_shape_of_its_factory(
    schema: FactorySchema,
    values: Option<Seq<AbiTerm>>,
)
    ensures
        schema.spec_create_from_values(values) matches Some(create) ==> match schema {
            FactorySchema::WeightedPoolV1 | FactorySchema::WeightedPool2Tokens => {
                create is Weighted
            },
            FactorySchema::WeightedPoolV2
            | FactorySchema::WeightedPoolV3
            | FactorySchema::WeightedPoolV4 => create is WeightedWithRates,
            FactorySchema::ComposableStablePool => create is ComposableStable,
            FactorySchema::Erc4626LinearPool | FactorySchema::YearnLinearPool => create is Linear,
        },
        schema.spec_create_from_values(values) matches Some(create) ==> (create is Linear
            ==> schema.spec_needs_registered_tokens()),
{
}

/// Every list of attributes starts with the name of the factory, holds the mark
/// that the component is updated by hand, and holds the swap fee of the `create`
/// call as a number that is not negative. Every attribute is marked as created.
pub proof fn lemma_attributes_every_component_has(
    schema: FactorySchema,
    create: CreateCallView,
    pool: Seq<u8>,
)
    ensures
        ({
            let attributes = spec_attributes(schema, create, pool);
            &&& attributes[0] == attribute("pool_type", schema.spec_pool_type().spec_bytes())
            &&& exists|i: int|
                0 <= i < attributes.len() && #[trigger] attributes[i] == attribute(
                    "manual_updates",
                    seq![1u8],
                )
            &&& exists|i: int|
                {
                    &&& 0 <= i < attributes.len()
                    &&& (#[trigger] attributes[i]).name == "fee"@
                    &&& attributes[i].value[0] < 128
                    &&& be_value(attributes[i].value) == be_value(create.swap_fee_percentage())
                }
            &&& forall|i: int|
                0 <= i < attributes.len() ==> (#[trigger] attributes[i]).change
                    == ChangeType::Creation
        }),
{
    let attributes = spec_attributes(schema, create, pool);
    lemma_signed_be_spells_the_number(be_value(create.swap_fee_percentage()));
    match create {
        CreateCallView::Weighted { .. } => {
            assert(attributes[3] == attribute("manual_updates", seq![1u8]));
            assert(attributes[2].name == "fee"@);
        },
        CreateCallView::WeightedWithRates { .. } => {
            assert(attributes[4] == attribute("manual_updates", seq![1u8]));
            assert(attributes[3].name == "fee"@);
        },
        CreateCallView::ComposableStable { .. } => {
            assert(attributes[4] == attribute("manual_updates", seq![1u8]));
            assert(attributes[2].name == "fee"@);
        },
        CreateCallView::Linear { .. } => {
            assert(attributes[2] == attribute("manual_updates", seq![1u8]));
            assert(attributes[6].name == "fee"@);
        },
    }
}

/// The contracts of a component are the created pool and the vault, in this
/// order and nothing else; where the pool is not the vault itself, no contract
/// is listed twice.
pub proof fn lemma_contracts_are_the_pool_and_the_vault(
    pool_factory_address: Seq<u8>,
    log: LogView,
    call: CallView,
    tx: Seq<LogView>,
)
    requires
        spec_address_map(pool_factory_address, log, call, tx) matches Ok(Some(_)),
    ensures
        ({
            let component = spec_address_map(pool_factory_address, log, call, tx).unwrap().unwrap();
            &&& spec_decode_pool_created(log) matches Some(pool)
            &&& component.contracts == seq![pool, VAULT_ADDRESS@]
            &&& component.contracts.len() == 2
            &&& component.contracts.to_set() == set![pool, VAULT_ADDRESS@]
            &&& pool != VAULT_ADDRESS@ ==> component.contracts.no_duplicates()
        }),
{
    let component = spec_address_map(pool_factory_address, log, call, tx).unwrap().unwrap();
    let pool = spec_decode_pool_created(log).unwrap();
    assert(component.contracts =~= seq![pool, VAULT_ADDRESS@]);
    assert(component.contracts[0] == pool);
    assert(component.contracts[1] == VAULT_ADDRESS@);
    assert(component.contracts.to_set() =~= set![pool, VAULT_ADDRESS@]);
}

/// A component is never half made: it is marked as created, tagged as a swap
/// venue of the protocol that is to be simulated, and has its factory's
/// attributes, which are those of [`spec_attributes`].
pub proof fn lemma_component_is_complete(
    pool_factory_address: Seq<u8>,
    log: LogView,
    call: CallView,
    tx: Seq<LogView>,
)
    requires
        spec_address_map(pool_factory_address, log, call, tx) matches Ok(Some(_)),
    ensures
        ({
            let component = spec_address_map(pool_factory_address, log, call, tx).unwrap().unwrap();
            &&& component.change == ChangeType::Creation
            &&& component.protocol_type == Some(
                ProtocolTypeView {
                    name: PROTOCOL_NAME@,
                    financial_type: FinancialType::Swap,
                    attribute_schema: Seq::empty(),
                    implementation_type: ImplementationType::Vm,
                },
            )
            &&& FactorySchema::spec_from_address(pool_factory_address) matches Some(schema)
            &&& schema.spec_decode_create(call) matches Some(create)
            &&& spec_decode_pool_created(log) matches Some(pool)
            &&& component.static_att == spec_attributes(schema, create, pool)
            &&& component.static_att.len() >= 4
        }),
{
}

/// For a factory whose pools take their tokens from the vault, the tokens of
/// the component are those of the vault's token registration for the pool's
/// identifier, in the vault's order, whatever the call lists.
pub proof fn lemma_registered_tokens_replace_the_calls(
    pool_factory_address: Seq<u8>,
    log: LogView,
    call: CallView,
    tx: Seq<LogView>,
)
    requires
        spec_address_map(pool_factory_address, log, call, tx) matches Ok(Some(_)),
        FactorySchema::spec_from_address(pool_factory_address) matches Some(schema)
            && schema.spec_needs_registered_tokens(),
    ensures
        ({
            let component = spec_address_map(pool_factory_address, log, call, tx).unwrap().unwrap();
            &&& spec_decode_pool_created(log) matches Some(pool)
            &&& spec_get_pool_registered(tx, pool) matches Some(registered)
            &&& spec_get_token_registered(tx, registered.pool_id) matches Some(tokens_registered)
            &&& tokens_registered.pool_id == registered.pool_id
            &&& component.tokens == tokens_registered.tokens
        }),
{
    let pool = spec_decode_pool_created(log).unwrap();
    let registered = spec_get_pool_registered(tx, pool).unwrap();
    lemma_found_tokens_are_for_the_pool(tx, registered.pool_id);
}

/// For every other factory the tokens of the component are those of the
/// `create` call, in the call's order.
pub proof fn lemma_call_tokens_are_kept(
    pool_factory_address: Seq<u8>,
    log: LogView,
    call: CallView,
    tx: Seq<LogView>,
)
    requires
        spec_address_map(pool_factory_address, log, call, tx) matches Ok(Some(_)),
        FactorySchema::spec_from_address(pool_factory_address) matches Some(schema)
            && !schema.spec_needs_registered_tokens(),
    ensures
        ({
            let component = spec_address_map(pool_factory_address, log, call, tx).unwrap().unwrap();
            &&& FactorySchema::spec_from_address(pool_factory_address) matches Some(schema)
            &&& schema.spec_decode_create(call) matches Some(create)
            &&& component.tokens == create.tokens()
        }),
{
}

/// Two results for the same arguments are the same, field by field and byte
/// by byte.
pub proof fn lemma_address_map_is_deterministic(
    first: Result<Option<ProtocolComponent>, CorrelationError>,
    second: Result<Option<ProtocolComponent>, CorrelationError>,
    pool_factory_address: Seq<u8>,
    log: LogView,
    call: CallView,
    tx: Seq<LogView>,
)
    requires
        result_view(first) == spec_address_map(pool_factory_address, log, call, tx),
        result_view(second) == spec_address_map(pool_factory_address, log, call, tx),
    ensures
        result_view(first) == result_view(second),
{
}

/// Where the factory is in the table, the call is its `create` and the log is
/// a pool creation, the result is never "not recognized": it is a component,
/// or an error exactly if the vault's registration of the pool, or of its
/// tokens where they are needed, is not among the logs of the transaction.
pub proof fn lemma_missing_registration_is_an_error(
    pool_factory_address: Seq<u8>,
    log: LogView,
    call: CallView,
    tx: Seq<LogView>,
)
    requires
        FactorySchema::spec_from_address(pool_factory_address) matches Some(schema)
            && schema.spec_decode_create(call) is Some,
        spec_decode_pool_created(log) is Some,
    ensures
        ({
            let schema = FactorySchema::spec_from_address(pool_factory_address).unwrap();
            let pool = spec_decode_pool_created(log).unwrap();
            let result = spec_address_map(pool_factory_address, log, call, tx);
            let pool_is_registered = exists|i: int|
                0 <= i < tx.len() && #[trigger] registers_pool(tx[i], pool);
            &&& result != Ok::<Option<ComponentView>, CorrelationError>(None)
            &&& result == Err::<Option<ComponentView>, CorrelationError>(
                CorrelationError::PoolNotRegistered,
            ) <==> !pool_is_registered
            &&& result == Err::<Option<ComponentView>, CorrelationError>(
                CorrelationError::TokensNotRegistered,
            ) <==> {
                &&& pool_is_registered
                &&& schema.spec_needs_registered_tokens()
                &&& forall|i: int|
                    0 <= i < tx.len() ==> !registers_tokens(
                        #[trigger] tx[i],
                        spec_get_pool_registered(tx, pool).unwrap().pool_id,
                    )
            }
        }),
{
    let pool = spec_decode_pool_created(log).unwrap();
    lemma_first_pool_registration_counts(tx, pool);
    match spec_get_pool_registered(tx, pool) {
        Some(registered) => {
            lemma_first_token_registration_counts(tx, registered.pool_id);
        },
        None => {},
    }
}

} // verus!
