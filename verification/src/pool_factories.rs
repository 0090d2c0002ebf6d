//! From a factory's address, a log, a call and the transaction around them to
//! the component record of the pool that was created.

use crate::component::{
    created_attributes, AttributeView, ChangeType, ComponentView, FinancialType,
    ImplementationType, ProtocolComponent, ProtocolTypeView,
};
use crate::encoding::{be_value, byte_lists, hex_chars, json_hex_list, signed_be, signed_be_words};
use crate::outside::{
    hex_encode, json_serialize_address_list, json_serialize_bigint_list, to_signed_bytes_be,
};
use crate::factory::{
    spec_decode_pool_created, CreateCall, CreateCallView, FactorySchema, PoolCreated,
};
use crate::trace::{Call, CallView, Log, LogView, TransactionTrace};
use crate::vault::{
    get_pool_registered, get_token_registered, option_pool_registered,
    option_tokens_registered, spec_get_pool_registered, spec_get_token_registered,
    PoolRegistered, PoolRegisteredView, TokensRegistered, TokensRegisteredView, VAULT_ADDRESS,
};
use vstd::prelude::*;
use vstd::slice::slice_to_vec;
use vstd::string::{StringExecFns, StringSliceAdditionalSpecFns};

verus! {

/// The name of the protocol that every component is tagged with.
pub const PROTOCOL_NAME: &'static str = "balancer_v2_pool";

/// Why a pool creation could not be turned into a component: the transaction
/// lacks a notice of the vault that has to come with it.
#[derive(Clone, Copy, Debug, PartialEq, Eq, Structural)]
pub enum CorrelationError {
    /// No log of the vault registers the created pool.
    PoolNotRegistered,
    /// No log of the vault registers tokens for the pool's identifier.
    TokensNotRegistered,
}

/// An attribute as it is written at creation.
pub open spec fn attribute(name: &str, value: Seq<u8>) -> AttributeView {
    AttributeView { name: name@, value, change: ChangeType::Creation }
}

/// The identifier of a component: `0x` and the lowercase hex of the pool's
/// identifier in the vault.
pub open spec fn component_id(pool_id: Seq<u8>) -> Seq<char> {
    seq!['0', 'x'] + hex_chars(pool_id)
}

/// The attributes of a component, in the order in which they are recorded.
/// Numbers are written as their shortest two's-complement big-endian bytes,
/// lists as JSON arrays of hex strings, addresses as they are.
pub open spec fn spec_attributes(
    schema: FactorySchema,
    create: CreateCallView,
    pool: Seq<u8>,
) -> Seq<AttributeView> {
    let pool_type = attribute("pool_type", schema.spec_pool_type().spec_bytes());
    let manual_updates = attribute("manual_updates", seq![1u8]);
    match create {
        CreateCallView::Weighted { tokens, weights, swap_fee_percentage } => seq![
            pool_type,
            attribute(schema.spec_weights_name(), json_hex_list(signed_be_words(weights))),
            attribute("fee", signed_be(be_value(swap_fee_percentage))),
            manual_updates,
        ],
        CreateCallView::WeightedWithRates {
            tokens,
            normalized_weights,
            rate_providers,
            swap_fee_percentage,
        } => seq![
            pool_type,
            attribute("normalized_weights", json_hex_list(signed_be_words(normalized_weights))),
            attribute("rate_providers", json_hex_list(rate_providers)),
            attribute("fee", signed_be(be_value(swap_fee_percentage))),
            manual_updates,
        ],
        CreateCallView::ComposableStable { tokens, rate_providers, swap_fee_percentage } => seq![
            pool_type,
            attribute("bpt", pool),
            attribute("fee", signed_be(be_value(swap_fee_percentage))),
            attribute("rate_providers", json_hex_list(rate_providers)),
            manual_updates,
        ],
        CreateCallView::Linear {
            main_token,
            wrapped_token,
            upper_target,
            swap_fee_percentage,
        } => seq![
            pool_type,
            attribute("upper_target", signed_be(be_value(upper_target))),
            manual_updates,
            attribute("bpt", pool),
            attribute("main_token", main_token),
            attribute("wrapped_token", wrapped_token),
            attribute("fee", signed_be(be_value(swap_fee_percentage))),
        ],
    }
}

/// The component of a pool: named by its identifier in the vault, made of the
/// pool's contract and the vault, trading `tokens`, with the attributes of its
/// factory, and marked as a swap venue that is simulated.
pub open spec fn spec_component(
    schema: FactorySchema,
    create: CreateCallView,
    pool: Seq<u8>,
    pool_id: Seq<u8>,
    tokens: Seq<Seq<u8>>,
) -> ComponentView {
    ComponentView {
        id: component_id(pool_id),
        tokens,
        contracts: seq![pool, VAULT_ADDRESS@],
        static_att: spec_attributes(schema, create, pool),
        change: ChangeType::Creation,
        protocol_type: Some(
            ProtocolTypeView {
                name: PROTOCOL_NAME@,
                financial_type: FinancialType::Swap,
                attribute_schema: Seq::empty(),
                implementation_type: ImplementationType::Vm,
            },
        ),
    }
}

/// The component that the signals of one pool creation make up. Without the
/// vault's registration of the pool there is none; for a factory whose pools
/// take their tokens from the vault, neither without the registration of the
/// tokens, and with it the tokens are the vault's. For every other factory the
/// tokens are those of the `create` call.
pub open spec fn spec_component_from_signals(
    schema: FactorySchema,
    create: CreateCallView,
    pool: Seq<u8>,
    registered: Option<PoolRegisteredView>,
    tokens_registered: Option<TokensRegisteredView>,
) -> Result<ComponentView, CorrelationError> {
    match registered {
        None => Err(CorrelationError::PoolNotRegistered),
        Some(registered) => if schema.spec_needs_registered_tokens() {
            match tokens_registered {
                None => Err(CorrelationError::TokensNotRegistered),
                Some(tokens_registered) => Ok(
                    spec_component(
                        schema,
                        create,
                        pool,
                        registered.pool_id,
                        tokens_registered.tokens,
                    ),
                ),
            }
        } else {
            Ok(spec_component(schema, create, pool, registered.pool_id, create.tokens()))
        },
    }
}

/// The token registration that a pool creation calls for: the first one for
/// the registered pool's identifier, where the factory's pools take their
/// tokens from the vault; else none.
pub open spec fn spec_tokens_registered_for(
    schema: FactorySchema,
    registered: Option<PoolRegisteredView>,
    tx: Seq<LogView>,
) -> Option<TokensRegisteredView> {
    match registered {
        Some(registered) => if schema.spec_needs_registered_tokens() {
            spec_get_token_registered(tx, registered.pool_id)
        } else {
            None
        },
        None => None,
    }
}

/// What [`address_map`] returns, step by step: nothing for a factory that is
/// not in the table, for a call that is not the factory's `create` and for a
/// log that is not a pool creation; else what the creation and the vault's
/// registrations in the transaction make up.
pub open spec fn spec_address_map(
    pool_factory_address: Seq<u8>,
    log: LogView,
    call: CallView,
    tx: Seq<LogView>,
) -> Result<Option<ComponentView>, CorrelationError> {
    match FactorySchema::spec_from_address(pool_factory_address) {
        None => Ok(None),
        Some(schema) => match schema.spec_decode_create(call) {
            None => Ok(None),
            Some(create) => match spec_decode_pool_created(log) {
                None => Ok(None),
                Some(pool) => {
                    let registered = spec_get_pool_registered(tx, pool);
                    let tokens_registered = spec_tokens_registered_for(schema, registered, tx);
                    match spec_component_from_signals(
                        schema,
                        create,
                        pool,
                        registered,
                        tokens_registered,
                    ) {
                        Ok(component) => Ok(Some(component)),
                        Err(e) => Err(e),
                    }
                },
            },
        },
    }
}

/// The view of what [`component_from_signals`] returns.
pub open spec fn component_result_view(
    result: Result<ProtocolComponent, CorrelationError>,
) -> Result<ComponentView, CorrelationError> {
    match result {
        Ok(component) => Ok(component@),
        Err(e) => Err(e),
    }
}

/// The view of what [`address_map`] returns.
pub open spec fn result_view(result: Result<Option<ProtocolComponent>, CorrelationError>) -> Result<
    Option<ComponentView>,
    CorrelationError,
> {
    match result {
        Ok(Some(component)) => Ok(Some(component@)),
        Ok(None) => Ok(None),
        Err(e) => Err(e),
    }
}

/// Builds the component of the pool at `pool`, which the vault knows as
/// `pool_id`, from the `create` call of its factory and its token list.
pub fn pool_component(
    schema: FactorySchema,
    create: &CreateCall,
    pool: &[u8],
    pool_id: &[u8],
    tokens: &Vec<Vec<u8>>,
) -> (component: ProtocolComponent)
    ensures
        component@ == spec_component(schema, create@, pool@, pool_id@, byte_lists(tokens@)),
{
    proof {
        reveal_strlit("0x");
    }
    let id = String::from_str("0x").concat(hex_encode(pool_id).as_str());
    assert(id@ =~= component_id(pool_id@));
    let mut contracts: Vec<Vec<u8>> = Vec::new();
    contracts.push(slice_to_vec(pool));
    contracts.push(slice_to_vec(VAULT_ADDRESS.as_slice()));
    assert(byte_lists(contracts@) =~= seq![pool@, VAULT_ADDRESS@]);
    let component = ProtocolComponent::new(id.as_str()).with_contracts(&contracts).with_tokens(
        tokens,
    );
    let pool_type = schema.pool_type().as_bytes();
    let manual_updates: [u8; 1] = [1];
    assert(manual_updates@ =~= seq![1u8]);
    let component = match create {
        CreateCall::Weighted { tokens: _, weights, swap_fee_percentage } => {
            let weights_json = json_serialize_bigint_list(weights);
            let fee = to_signed_bytes_be(swap_fee_percentage.as_slice());
            let attributes: [(&str, &[u8]); 4] = [
                ("pool_type", pool_type),
                (schema.weights_name(), weights_json.as_slice()),
                ("fee", fee.as_slice()),
                ("manual_updates", manual_updates.as_slice()),
            ];
            assert(created_attributes(attributes@) =~= spec_attributes(schema, create@, pool@));
            component.with_attributes(attributes.as_slice())
        },
        CreateCall::WeightedWithRates {
            tokens: _,
            normalized_weights,
            rate_providers,
            swap_fee_percentage,
        } => {
            let weights_json = json_serialize_bigint_list(normalized_weights);
            let rate_providers_json = json_serialize_address_list(rate_providers);
            let fee = to_signed_bytes_be(swap_fee_percentage.as_slice());
            let attributes: [(&str, &[u8]); 5] = [
                ("pool_type", pool_type),
                ("normalized_weights", weights_json.as_slice()),
                ("rate_providers", rate_providers_json.as_slice()),
                ("fee", fee.as_slice()),
                ("manual_updates", manual_updates.as_slice()),
            ];
            assert(created_attributes(attributes@) =~= spec_attributes(schema, create@, pool@));
            component.with_attributes(attributes.as_slice())
        },
        CreateCall::ComposableStable { tokens: _, rate_providers, swap_fee_percentage } => {
            let rate_providers_json = json_serialize_address_list(rate_providers);
            let fee = to_signed_bytes_be(swap_fee_percentage.as_slice());
            let attributes: [(&str, &[u8]); 5] = [
                ("pool_type", pool_type),
                ("bpt", pool),
                ("fee", fee.as_slice()),
                ("rate_providers", rate_providers_json.as_slice()),
                ("manual_updates", manual_updates.as_slice()),
            ];
            assert(created_attributes(attributes@) =~= spec_attributes(schema, create@, pool@));
            component.with_attributes(attributes.as_slice())
        },
        CreateCall::Linear { main_token, wrapped_token, upper_target, swap_fee_percentage } => {
            let target = to_signed_bytes_be(upper_target.as_slice());
            let fee = to_signed_bytes_be(swap_fee_percentage.as_slice());
            let attributes: [(&str, &[u8]); 7] = [
                ("pool_type", pool_type),
                ("upper_target", target.as_slice()),
                ("manual_updates", manual_updates.as_slice()),
                ("bpt", pool),
                ("main_token", main_token.as_slice()),
                ("wrapped_token", wrapped_token.as_slice()),
                ("fee", fee.as_slice()),
            ];
            assert(created_attributes(attributes@) =~= spec_attributes(schema, create@, pool@));
            component.with_attributes(attributes.as_slice())
        },
    };
    component.as_swap_type(PROTOCOL_NAME, ImplementationType::Vm)
}

/// Puts the signals of one pool creation together: the factory's `create` call,
/// its `PoolCreated` event, and the vault's registrations of the pool and of
/// its tokens as far as they were found.
pub fn component_from_signals(
    schema: FactorySchema,
    create: &CreateCall,
    created: &PoolCreated,
    registered: Option<PoolRegistered>,
    tokens_registered: Option<TokensRegistered>,
) -> (result: Result<ProtocolComponent, CorrelationError>)
    ensures
        component_result_view(result) == spec_component_from_signals(
            schema,
            create@,
            created@,
            option_pool_registered(registered),
            option_tokens_registered(tokens_registered),
        ),
{
    let registered = match registered {
        Some(registered) => registered,
        None => {
            return Err(CorrelationError::PoolNotRegistered);
        },
    };
    let tokens = if schema.needs_registered_tokens() {
        match tokens_registered {
            Some(tokens_registered) => tokens_registered.tokens,
            None => {
                return Err(CorrelationError::TokensNotRegistered);
            },
        }
    } else {
        create.tokens()
    };
    Ok(
        pool_component(
            schema,
            create,
            created.pool.as_slice(),
            registered.pool_id.as_slice(),
            &tokens,
        ),
    )
}

/// Turns a pool creation into a component.
///
/// `pool_factory_address` is the contract that was called, `call` the call,
/// `log` a log it emitted and `tx` the logs of the whole transaction. Returns
/// `Ok(None)` where the address is no factory of the table, the call is not the
/// factory's `create` or the log is not a pool creation. Otherwise the vault
/// must have registered the pool in the same transaction, and, for factories
/// whose pools take their tokens from the vault, the tokens too: where it has
/// not, the result is an error. The first registration in the transaction
/// counts.
pub fn address_map(
    pool_factory_address: &[u8],
    log: &Log,
    call: &Call,
    tx: &TransactionTrace,
) -> (result: Result<Option<ProtocolComponent>, CorrelationError>)
    ensures
        result_view(result) == spec_address_map(pool_factory_address@, log@, call@, tx@),
{
    let schema = match FactorySchema::from_address(pool_factory_address) {
        Some(schema) => schema,
        None => {
            return Ok(None);
        },
    };
    let create_call = match schema.match_and_decode(call) {
        Some(create_call) => create_call,
        None => {
            return Ok(None);
        },
    };
    let pool_created = match PoolCreated::match_and_decode(log) {
        Some(pool_created) => pool_created,
        None => {
            return Ok(None);
        },
    };
    let pool_registered = get_pool_registered(tx, pool_created.pool.as_slice());
    let tokens_registered = match &pool_registered {
        Some(registered) => if schema.needs_registered_tokens() {
            get_token_registered(tx, registered.pool_id.as_slice())
        } else {
            None
        },
        None => None,
    };
    match component_from_signals(
        schema,
        &create_call,
        &pool_created,
        pool_registered,
        tokens_registered,
    ) {
        Ok(component) => Ok(Some(component)),
        Err(e) => Err(e),
    }
}

} // verus!
