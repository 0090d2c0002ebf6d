//! The table of pool factories: for each one its address, the layout of its
//! `create` call, and what a component built from it carries.
//!
//! Two factories are known and deliberately left out of the table: the Gearbox
//! linear pool factory, which is disabled on chain, and the managed pool
//! factory, whose `create` call packs its parameters in nested records.

use crate::abi::{
    decode_single, option_term, option_terms, spec_as_address,
    spec_as_address_array, spec_as_uint, spec_as_uint_array, spec_decode_single, terms_of,
    AbiTerm, AbiValue, ParamKind,
};
use crate::encoding::{byte_lists, bytes_eq, copy_byte_lists};
use crate::trace::{Call, CallView, Log, LogView};
use crate::outside::{abi_decode, abi_decoded};
use vstd::prelude::*;
use vstd::slice::slice_subrange;

verus! {

/// The first weighted pool factory.
pub const WEIGHTED_POOL_V1_FACTORY: [u8; 20] = [
    0x7d, 0xfd, 0xef, 0x5f, 0x35, 0x50, 0x96, 0x60, 0x34, 0x19,
    0x23, 0x9c, 0xe7, 0x43, 0xbf, 0xaf, 0x11, 0x20, 0x31, 0x2b,
];

/// The second weighted pool factory, the first with rate providers.
pub const WEIGHTED_POOL_V2_FACTORY: [u8; 20] = [
    0x8d, 0xf6, 0xef, 0xec, 0x55, 0x47, 0xe3, 0x1b, 0x0e, 0xb7,
    0xd1, 0x29, 0x1b, 0x51, 0x1f, 0xf8, 0xa2, 0xbf, 0x98, 0x7c,
];

/// The third weighted pool factory.
pub const WEIGHTED_POOL_V3_FACTORY: [u8; 20] = [
    0xf1, 0x66, 0x5e, 0x19, 0xbc, 0x10, 0x5b, 0xe4, 0xed, 0xd3,
    0x73, 0x9f, 0x88, 0x31, 0x5c, 0xc6, 0x99, 0xcc, 0x5b, 0x65,
];

/// The fourth weighted pool factory, the first that takes a salt.
pub const WEIGHTED_POOL_V4_FACTORY: [u8; 20] = [
    0xc7, 0xe5, 0xed, 0x10, 0x54, 0xa2, 0x4e, 0xf3, 0x1d, 0x82,
    0x7e, 0x6f, 0x86, 0xca, 0xa5, 0x8b, 0x3b, 0xc1, 0x68, 0xd7,
];

/// The composable stable pool factory.
pub const COMPOSABLE_STABLE_POOL_FACTORY: [u8; 20] = [
    0xa8, 0x92, 0x04, 0x55, 0x93, 0x4d, 0xa4, 0xd8, 0x53, 0xfa,
    0xac, 0x1f, 0x94, 0xfe, 0x7b, 0xef, 0x72, 0x94, 0x3e, 0xf1,
];

/// The factory of linear pools over ERC-4626 vault tokens.
pub const ERC4626_LINEAR_POOL_FACTORY: [u8; 20] = [
    0x7a, 0xdb, 0xda, 0xba, 0xa8, 0x0f, 0x65, 0x45, 0x68, 0x42,
    0x18, 0x87, 0xc1, 0x2f, 0x09, 0xe0, 0xc7, 0xbd, 0x96, 0x29,
];

/// The factory of linear pools over Yearn vault tokens.
pub const YEARN_LINEAR_POOL_FACTORY: [u8; 20] = [
    0x19, 0xdf, 0xef, 0x0a, 0x82, 0x8e, 0xec, 0x0c, 0x85, 0xfb,
    0xb3, 0x35, 0xaa, 0x65, 0x43, 0x74, 0x17, 0x39, 0x0b, 0x85,
];

/// The factory of weighted pools of two tokens; deprecated, and kept for the
/// pools it created.
pub const WEIGHTED_POOL_2TOKENS_FACTORY: [u8; 20] = [
    0xcf, 0x0a, 0x32, 0xbb, 0xef, 0x8f, 0x06, 0x49, 0x69, 0xf2,
    0x1f, 0x7e, 0x02, 0x32, 0x8f, 0xb5, 0x77, 0x38, 0x20, 0x18,
];

/// Known and not supported: disabled on chain.
pub const GEARBOX_LINEAR_POOL_FACTORY: [u8; 20] = [
    0x39, 0xa7, 0x9e, 0xb4, 0x49, 0xfc, 0x05, 0xc9, 0x2c, 0x39,
    0xaa, 0x6f, 0x0e, 0x9b, 0xfa, 0xc0, 0x3b, 0xe8, 0xde, 0x5b,
];

/// Known and not supported: its `create` call has a layout of its own.
pub const MANAGED_POOL_FACTORY: [u8; 20] = [
    0xbf, 0x90, 0x4f, 0x9f, 0x34, 0x07, 0x45, 0xb4, 0xf0, 0xc4,
    0x70, 0x2c, 0x7b, 0x6a, 0xb1, 0xe8, 0x08, 0xea, 0x6b, 0x93,
];

/// First topic of `PoolCreated(address indexed pool)`, which every factory emits.
pub const POOL_CREATED_TOPIC: [u8; 32] = [
    0x83, 0xa4, 0x8f, 0xbc, 0xfc, 0x99, 0x13, 0x35, 0x31, 0x4e, 0x74, 0xd0, 0x49, 0x6a, 0xab, 0x6a,
    0x19, 0x87, 0xe9, 0x92, 0xdd, 0xc8, 0x5d, 0xdd, 0xbc, 0xc4, 0xd6, 0xdd, 0x6e, 0xf2, 0xe9, 0xfc,
];

/// One supported factory.
#[derive(Clone, Copy, Debug, PartialEq, Eq, Structural)]
pub enum FactorySchema {
    /// [`WEIGHTED_POOL_V1_FACTORY`]
    WeightedPoolV1,
    /// [`WEIGHTED_POOL_V2_FACTORY`]
    WeightedPoolV2,
    /// [`WEIGHTED_POOL_V3_FACTORY`]
    WeightedPoolV3,
    /// [`WEIGHTED_POOL_V4_FACTORY`]
    WeightedPoolV4,
    /// [`COMPOSABLE_STABLE_POOL_FACTORY`]
    ComposableStablePool,
    /// [`ERC4626_LINEAR_POOL_FACTORY`]
    Erc4626LinearPool,
    /// [`YEARN_LINEAR_POOL_FACTORY`]
    YearnLinearPool,
    /// [`WEIGHTED_POOL_2TOKENS_FACTORY`]
    WeightedPool2Tokens,
}

/// The arguments of a `create` call that a component is built from.
#[derive(Clone, Debug, PartialEq, Eq)]
pub enum CreateCall {
    /// A weighted pool: tokens and their weights.
    Weighted { tokens: Vec<Vec<u8>>, weights: Vec<Vec<u8>>, swap_fee_percentage: Vec<u8> },
    /// A weighted pool whose tokens have rate providers.
    WeightedWithRates {
        tokens: Vec<Vec<u8>>,
        normalized_weights: Vec<Vec<u8>>,
        rate_providers: Vec<Vec<u8>>,
        swap_fee_percentage: Vec<u8>,
    },
    /// A composable stable pool.
    ComposableStable {
        tokens: Vec<Vec<u8>>,
        rate_providers: Vec<Vec<u8>>,
        swap_fee_percentage: Vec<u8>,
    },
    /// A linear pool of a token and its wrapped form.
    Linear {
        main_token: Vec<u8>,
        wrapped_token: Vec<u8>,
        upper_target: Vec<u8>,
        swap_fee_percentage: Vec<u8>,
    },
}

/// The mathematical content of a [`CreateCall`]. Integers are big-endian words.
pub ghost enum CreateCallView {
    Weighted { tokens: Seq<Seq<u8>>, weights: Seq<Seq<u8>>, swap_fee_percentage: Seq<u8> },
    WeightedWithRates {
        tokens: Seq<Seq<u8>>,
        normalized_weights: Seq<Seq<u8>>,
        rate_providers: Seq<Seq<u8>>,
        swap_fee_percentage: Seq<u8>,
    },
    ComposableStable {
        tokens: Seq<Seq<u8>>,
        rate_providers: Seq<Seq<u8>>,
        swap_fee_percentage: Seq<u8>,
    },
    Linear {
        main_token: Seq<u8>,
        wrapped_token: Seq<u8>,
        upper_target: Seq<u8>,
        swap_fee_percentage: Seq<u8>,
    },
}

impl View for CreateCall {
    type V = CreateCallView;

    open spec fn view(&self) -> CreateCallView {
        match *self {
            CreateCall::Weighted {
                tokens,
                weights,
                swap_fee_percentage,
            } => CreateCallView::Weighted {
                tokens: byte_lists(tokens@),
                weights: byte_lists(weights@),
                swap_fee_percentage: swap_fee_percentage@,
            },
            CreateCall::WeightedWithRates {
                tokens,
                normalized_weights,
                rate_providers,
                swap_fee_percentage,
            } => CreateCallView::WeightedWithRates {
                tokens: byte_lists(tokens@),
                normalized_weights: byte_lists(normalized_weights@),
                rate_providers: byte_lists(rate_providers@),
                swap_fee_percentage: swap_fee_percentage@,
            },
            CreateCall::ComposableStable {
                tokens,
                rate_providers,
                swap_fee_percentage,
            } => CreateCallView::ComposableStable {
                tokens: byte_lists(tokens@),
                rate_providers: byte_lists(rate_providers@),
                swap_fee_percentage: swap_fee_percentage@,
            },
            CreateCall::Linear {
                main_token,
                wrapped_token,
                upper_target,
                swap_fee_percentage,
            } => CreateCallView::Linear {
                main_token: main_token@,
                wrapped_token: wrapped_token@,
                upper_target: upper_target@,
                swap_fee_percentage: swap_fee_percentage@,
            },
        }
    }
}

impl CreateCallView {
    /// The token list that the call itself carries; a linear pool's call
    /// carries none.
    pub open spec fn tokens(self) -> Seq<Seq<u8>> {
        match self {
            CreateCallView::Weighted { tokens, .. } => tokens,
            CreateCallView::WeightedWithRates { tokens, .. } => tokens,
            CreateCallView::ComposableStable { tokens, .. } => tokens,
            CreateCallView::Linear { .. } => Seq::empty(),
        }
    }

    /// The swap fee of the pool, as a big-endian word.
    pub open spec fn swap_fee_percentage(self) -> Seq<u8> {
        match self {
            CreateCallView::Weighted { swap_fee_percentage, .. } => swap_fee_percentage,
            CreateCallView::WeightedWithRates { swap_fee_percentage, .. } => swap_fee_percentage,
            CreateCallView::ComposableStable { swap_fee_percentage, .. } => swap_fee_percentage,
            CreateCallView::Linear { swap_fee_percentage, .. } => swap_fee_percentage,
        }
    }
}

/// The view of an optional call.
pub open spec fn option_create_call(call: Option<CreateCall>) -> Option<CreateCallView> {
    match call {
        Some(c) => Some(c@),
        None => None,
    }
}

impl CreateCall {
    /// A copy of the token list that the call itself carries; empty for a
    /// linear pool.
    pub fn tokens(&self) -> (tokens: Vec<Vec<u8>>)
        ensures
            byte_lists(tokens@) == self@.tokens(),
    {
        match self {
            CreateCall::Weighted { tokens, .. } => copy_byte_lists(tokens),
            CreateCall::WeightedWithRates { tokens, .. } => copy_byte_lists(tokens),
            CreateCall::ComposableStable { tokens, .. } => copy_byte_lists(tokens),
            CreateCall::Linear { .. } => {
                let tokens: Vec<Vec<u8>> = Vec::new();
                assert(byte_lists(tokens@) =~= Seq::empty());
                tokens
            },
        }
    }
}

impl FactorySchema {
    /// The address of the factory's contract.
    pub open spec fn spec_address(self) -> Seq<u8> {
        match self {
            FactorySchema::WeightedPoolV1 => WEIGHTED_POOL_V1_FACTORY@,
            FactorySchema::WeightedPoolV2 => WEIGHTED_POOL_V2_FACTORY@,
            FactorySchema::WeightedPoolV3 => WEIGHTED_POOL_V3_FACTORY@,
            FactorySchema::WeightedPoolV4 => WEIGHTED_POOL_V4_FACTORY@,
            FactorySchema::ComposableStablePool => COMPOSABLE_STABLE_POOL_FACTORY@,
            FactorySchema::Erc4626LinearPool => ERC4626_LINEAR_POOL_FACTORY@,
            FactorySchema::YearnLinearPool => YEARN_LINEAR_POOL_FACTORY@,
            FactorySchema::WeightedPool2Tokens => WEIGHTED_POOL_2TOKENS_FACTORY@,
        }
    }

    /// The factory whose contract is at `address`, if the table has one.
    pub open spec fn spec_from_address(address: Seq<u8>) -> Option<FactorySchema> {
        if address == WEIGHTED_POOL_V1_FACTORY@ {
            Some(FactorySchema::WeightedPoolV1)
        } else if address == WEIGHTED_POOL_V2_FACTORY@ {
            Some(FactorySchema::WeightedPoolV2)
        } else if address == WEIGHTED_POOL_V3_FACTORY@ {
            Some(FactorySchema::WeightedPoolV3)
        } else if address == WEIGHTED_POOL_V4_FACTORY@ {
            Some(FactorySchema::WeightedPoolV4)
        } else if address == COMPOSABLE_STABLE_POOL_FACTORY@ {
            Some(FactorySchema::ComposableStablePool)
        } else if address == ERC4626_LINEAR_POOL_FACTORY@ {
            Some(FactorySchema::Erc4626LinearPool)
        } else if address == YEARN_LINEAR_POOL_FACTORY@ {
            Some(FactorySchema::YearnLinearPool)
        } else if address == WEIGHTED_POOL_2TOKENS_FACTORY@ {
            Some(FactorySchema::WeightedPool2Tokens)
        } else {
            None
        }
    }

    /// The value of the `pool_type` attribute of the factory's pools.
    pub open spec fn spec_pool_type(self) -> &'static str {
        match self {
            FactorySchema::WeightedPoolV1 => "WeightedPoolFactoryV1",
            FactorySchema::WeightedPoolV2 => "WeightedPoolFactoryV2",
            FactorySchema::WeightedPoolV3 => "WeightedPoolFactoryV3",
            FactorySchema::WeightedPoolV4 => "WeightedPoolFactoryV4",
            FactorySchema::ComposableStablePool => "ComposableStablePoolFactory",
            FactorySchema::Erc4626LinearPool => "ERC4626LinearPoolFactory",
            FactorySchema::YearnLinearPool => "YearnLinearPoolFactory",
            FactorySchema::WeightedPool2Tokens => "WeightedPool2TokensFactory",
        }
    }

    /// The name under which the weights of the factory's pools are recorded.
    pub open spec fn spec_weights_name(self) -> &'static str {
        match self {
            FactorySchema::WeightedPool2Tokens => "weights",
            _ => "normalized_weights",
        }
    }

    /// Whether the tokens of the factory's pools are those that the vault
    /// registers, not those of the `create` call.
    pub open spec fn spec_needs_registered_tokens(self) -> bool {
        match self {
            FactorySchema::ComposableStablePool
            | FactorySchema::Erc4626LinearPool
            | FactorySchema::YearnLinearPool => true,
            _ => false,
        }
    }

    /// The first four bytes of a call of the factory's `create`.
    pub open spec fn spec_selector(self) -> Seq<u8> {
        match self {
            FactorySchema::WeightedPoolV1 => seq![0xfbu8, 0xceu8, 0x03u8, 0x93u8],
            FactorySchema::WeightedPoolV2 | FactorySchema::WeightedPoolV3 => seq![
                0x80u8,
                0x77u8,
                0x3au8,
                0x93u8,
            ],
            FactorySchema::WeightedPoolV4 => seq![0x21u8, 0x82u8, 0xc8u8, 0xfeu8],
            FactorySchema::ComposableStablePool => seq![0x97u8, 0x1eu8, 0x18u8, 0x33u8],
            FactorySchema::Erc4626LinearPool | FactorySchema::YearnLinearPool => seq![
                0x76u8,
                0x89u8,
                0x5bu8,
                0xe7u8,
            ],
            FactorySchema::WeightedPool2Tokens => seq![0x15u8, 0x96u8, 0x01u8, 0x9bu8],
        }
    }

    /// The parameters of the factory's `create`, in order.
    pub open spec fn spec_layout(self) -> Seq<ParamKind> {
        match self {
            // create(name, symbol, tokens, weights, swapFeePercentage, owner)
            FactorySchema::WeightedPoolV1 => seq![
                ParamKind::Text,
                ParamKind::Text,
                ParamKind::AddressArray,
                ParamKind::Uint256Array,
                ParamKind::Uint256,
                ParamKind::Address,
            ],
            // create(name, symbol, tokens, normalizedWeights, rateProviders,
            // swapFeePercentage, owner)
            FactorySchema::WeightedPoolV2 | FactorySchema::WeightedPoolV3 => seq![
                ParamKind::Text,
                ParamKind::Text,
                ParamKind::AddressArray,
                ParamKind::Uint256Array,
                ParamKind::AddressArray,
                ParamKind::Uint256,
                ParamKind::Address,
            ],
            // create(name, symbol, tokens, normalizedWeights, rateProviders,
            // swapFeePercentage, owner, salt)
            FactorySchema::WeightedPoolV4 => seq![
                ParamKind::Text,
                ParamKind::Text,
                ParamKind::AddressArray,
                ParamKind::Uint256Array,
                ParamKind::AddressArray,
                ParamKind::Uint256,
                ParamKind::Address,
                ParamKind::Bytes32,
            ],
            // create(name, symbol, tokens, amplificationParameter, rateProviders,
            // tokenRateCacheDurations, exemptFromYieldProtocolFeeFlag,
            // swapFeePercentage, owner, salt)
            FactorySchema::ComposableStablePool => seq![
                ParamKind::Text,
                ParamKind::Text,
                ParamKind::AddressArray,
                ParamKind::Uint256,
                ParamKind::AddressArray,
                ParamKind::Uint256Array,
                ParamKind::Bool,
                ParamKind::Uint256,
                ParamKind::Address,
                ParamKind::Bytes32,
            ],
            // create(name, symbol, mainToken, wrappedToken, upperTarget,
            // swapFeePercentage, owner, protocolId, salt)
            FactorySchema::Erc4626LinearPool | FactorySchema::YearnLinearPool => seq![
                ParamKind::Text,
                ParamKind::Text,
                ParamKind::Address,
                ParamKind::Address,
                ParamKind::Uint256,
                ParamKind::Uint256,
                ParamKind::Address,
                ParamKind::Uint256,
                ParamKind::Bytes32,
            ],
            // create(name, symbol, tokens, weights, swapFeePercentage,
            // oracleEnabled, owner)
            FactorySchema::WeightedPool2Tokens => seq![
                ParamKind::Text,
                ParamKind::Text,
                ParamKind::AddressArray,
                ParamKind::Uint256Array,
                ParamKind::Uint256,
                ParamKind::Bool,
                ParamKind::Address,
            ],
        }
    }

    /// The call that the decoded arguments of the factory's `create` make up;
    /// nothing where decoding failed or an argument is not of its kind.
    pub open spec fn spec_create_from_values(self, values: Option<Seq<AbiTerm>>) -> Option<
        CreateCallView,
    > {
        match values {
            Some(v) => if v.len() != self.spec_layout().len() {
                None
            } else {
                match self {
                    FactorySchema::WeightedPoolV1 | FactorySchema::WeightedPool2Tokens => match (
                        spec_as_address_array(v[2]),
                        spec_as_uint_array(v[3]),
                        spec_as_uint(v[4]),
                    ) {
                        (Some(tokens), Some(weights), Some(swap_fee_percentage)) => Some(
                            CreateCallView::Weighted { tokens, weights, swap_fee_percentage },
                        ),
                        _ => None,
                    },
                    FactorySchema::WeightedPoolV2
                    | FactorySchema::WeightedPoolV3
                    | FactorySchema::WeightedPoolV4 => match (
                        spec_as_address_array(v[2]),
                        spec_as_uint_array(v[3]),
                        spec_as_address_array(v[4]),
                        spec_as_uint(v[5]),
                    ) {
                        (
                            Some(tokens),
                            Some(normalized_weights),
                            Some(rate_providers),
                            Some(swap_fee_percentage),
                        ) => Some(
                            CreateCallView::WeightedWithRates {
                                tokens,
                                normalized_weights,
                                rate_providers,
                                swap_fee_percentage,
                            },
                        ),
                        _ => None,
                    },
                    FactorySchema::ComposableStablePool => match (
                        spec_as_address_array(v[2]),
                        spec_as_address_array(v[4]),
                        spec_as_uint(v[7]),
                    ) {
                        (Some(tokens), Some(rate_providers), Some(swap_fee_percentage)) => Some(
                            CreateCallView::ComposableStable {
                                tokens,
                                rate_providers,
                                swap_fee_percentage,
                            },
                        ),
                        _ => None,
                    },
                    FactorySchema::Erc4626LinearPool | FactorySchema::YearnLinearPool => match (
                        spec_as_address(v[2]),
                        spec_as_address(v[3]),
                        spec_as_uint(v[4]),
                        spec_as_uint(v[5]),
                    ) {
                        (
                            Some(main_token),
                            Some(wrapped_token),
                            Some(upper_target),
                            Some(swap_fee_percentage),
                        ) => Some(
                            CreateCallView::Linear {
                                main_token,
                                wrapped_token,
                                upper_target,
                                swap_fee_percentage,
                            },
                        ),
                        _ => None,
                    },
                }
            },
            None => None,
        }
    }

    /// Whether a call's input starts with the selector of the factory's `create`.
    pub open spec fn spec_matches_call(self, call: CallView) -> bool {
        call.input.len() >= 4 && call.input.subrange(0, 4) == self.spec_selector()
    }

    /// The `create` call of the factory that a call holds, if it holds one: the
    /// input starts with the selector and the rest decodes by the layout.
    pub open spec fn spec_decode_create(self, call: CallView) -> Option<CreateCallView> {
        if self.spec_matches_call(call) {
            self.spec_create_from_values(
                abi_decoded(self.spec_layout(), call.input.subrange(4, call.input.len() as int)),
            )
        } else {
            None
        }
    }

    /// The address of the factory's contract.
    pub fn address(self) -> (address: [u8; 20])
        ensures
            address@ == self.spec_address(),
    {
        match self {
            FactorySchema::WeightedPoolV1 => WEIGHTED_POOL_V1_FACTORY,
            FactorySchema::WeightedPoolV2 => WEIGHTED_POOL_V2_FACTORY,
            FactorySchema::WeightedPoolV3 => WEIGHTED_POOL_V3_FACTORY,
            FactorySchema::WeightedPoolV4 => WEIGHTED_POOL_V4_FACTORY,
            FactorySchema::ComposableStablePool => COMPOSABLE_STABLE_POOL_FACTORY,
            FactorySchema::Erc4626LinearPool => ERC4626_LINEAR_POOL_FACTORY,
            FactorySchema::YearnLinearPool => YEARN_LINEAR_POOL_FACTORY,
            FactorySchema::WeightedPool2Tokens => WEIGHTED_POOL_2TOKENS_FACTORY,
        }
    }

    /// Looks `address` up in the table.
    pub fn from_address(address: &[u8]) -> (schema: Option<FactorySchema>)
        ensures
            schema == FactorySchema::spec_from_address(address@),
    {
        if bytes_eq(address, WEIGHTED_POOL_V1_FACTORY.as_slice()) {
            Some(FactorySchema::WeightedPoolV1)
        } else if bytes_eq(address, WEIGHTED_POOL_V2_FACTORY.as_slice()) {
            Some(FactorySchema::WeightedPoolV2)
        } else if bytes_eq(address, WEIGHTED_POOL_V3_FACTORY.as_slice()) {
            Some(FactorySchema::WeightedPoolV3)
        } else if bytes_eq(address, WEIGHTED_POOL_V4_FACTORY.as_slice()) {
            Some(FactorySchema::WeightedPoolV4)
        } else if bytes_eq(address, COMPOSABLE_STABLE_POOL_FACTORY.as_slice()) {
            Some(FactorySchema::ComposableStablePool)
        } else if bytes_eq(address, ERC4626_LINEAR_POOL_FACTORY.as_slice()) {
            Some(FactorySchema::Erc4626LinearPool)
        } else if bytes_eq(address, YEARN_LINEAR_POOL_FACTORY.as_slice()) {
            Some(FactorySchema::YearnLinearPool)
        } else if bytes_eq(address, WEIGHTED_POOL_2TOKENS_FACTORY.as_slice()) {
            Some(FactorySchema::WeightedPool2Tokens)
        } else {
            None
        }
    }

    /// The value of the `pool_type` attribute of the factory's pools.
    pub fn pool_type(self) -> (tag: &'static str)
        ensures
            tag == self.spec_pool_type(),
    {
        match self {
            FactorySchema::WeightedPoolV1 => "WeightedPoolFactoryV1",
            FactorySchema::WeightedPoolV2 => "WeightedPoolFactoryV2",
            FactorySchema::WeightedPoolV3 => "WeightedPoolFactoryV3",
            FactorySchema::WeightedPoolV4 => "WeightedPoolFactoryV4",
            FactorySchema::ComposableStablePool => "ComposableStablePoolFactory",
            FactorySchema::Erc4626LinearPool => "ERC4626LinearPoolFactory",
            FactorySchema::YearnLinearPool => "YearnLinearPoolFactory",
            FactorySchema::WeightedPool2Tokens => "WeightedPool2TokensFactory",
        }
    }

    /// The name under which the weights of the factory's pools are recorded.
    pub fn weights_name(self) -> (name: &'static str)
        ensures
            name == self.spec_weights_name(),
    {
        match self {
            FactorySchema::WeightedPool2Tokens => "weights",
            _ => "normalized_weights",
        }
    }

    /// Whether the tokens of the factory's pools are those that the vault
    /// registers, not those of the `create` call.
    pub fn needs_registered_tokens(self) -> (needed: bool)
        ensures
            needed == self.spec_needs_registered_tokens(),
    {
        match self {
            FactorySchema::ComposableStablePool
            | FactorySchema::Erc4626LinearPool
            | FactorySchema::YearnLinearPool => true,
            _ => false,
        }
    }

    /// The first four bytes of a call of the factory's `create`.
    pub fn selector(self) -> (selector: [u8; 4])
        ensures
            selector@ == self.spec_selector(),
    {
        let selector: [u8; 4] = match self {
            FactorySchema::WeightedPoolV1 => [0xfb, 0xce, 0x03, 0x93],
            FactorySchema::WeightedPoolV2 | FactorySchema::WeightedPoolV3 => [
                0x80,
                0x77,
                0x3a,
                0x93,
            ],
            FactorySchema::WeightedPoolV4 => [0x21, 0x82, 0xc8, 0xfe],
            FactorySchema::ComposableStablePool => [0x97, 0x1e, 0x18, 0x33],
            FactorySchema::Erc4626LinearPool | FactorySchema::YearnLinearPool => [
                0x76,
                0x89,
                0x5b,
                0xe7,
            ],
            FactorySchema::WeightedPool2Tokens => [0x15, 0x96, 0x01, 0x9b],
        };
        assert(selector@ =~= self.spec_selector());
        selector
    }

    /// The parameters of the factory's `create`, in order.
    pub fn layout(self) -> (kinds: Vec<ParamKind>)
        ensures
            kinds@ == self.spec_layout(),
    {
        let mut kinds: Vec<ParamKind> = Vec::new();
        kinds.push(ParamKind::Text);
        kinds.push(ParamKind::Text);
        match self {
            FactorySchema::WeightedPoolV1 => {
                kinds.push(ParamKind::AddressArray);
                kinds.push(ParamKind::Uint256Array);
                kinds.push(ParamKind::Uint256);
                kinds.push(ParamKind::Address);
            },
            FactorySchema::WeightedPoolV2 | FactorySchema::WeightedPoolV3 => {
                kinds.push(ParamKind::AddressArray);
                kinds.push(ParamKind::Uint256Array);
                kinds.push(ParamKind::AddressArray);
                kinds.push(ParamKind::Uint256);
                kinds.push(ParamKind::Address);
            },
            FactorySchema::WeightedPoolV4 => {
                kinds.push(ParamKind::AddressArray);
                kinds.push(ParamKind::Uint256Array);
                kinds.push(ParamKind::AddressArray);
                kinds.push(ParamKind::Uint256);
                kinds.push(ParamKind::Address);
                kinds.push(ParamKind::Bytes32);
            },
            FactorySchema::ComposableStablePool => {
                kinds.push(ParamKind::AddressArray);
                kinds.push(ParamKind::Uint256);
                kinds.push(ParamKind::AddressArray);
                kinds.push(ParamKind::Uint256Array);
                kinds.push(ParamKind::Bool);
                kinds.push(ParamKind::Uint256);
                kinds.push(ParamKind::Address);
                kinds.push(ParamKind::Bytes32);
            },
            FactorySchema::Erc4626LinearPool | FactorySchema::YearnLinearPool => {
                kinds.push(ParamKind::Address);
                kinds.push(ParamKind::Address);
                kinds.push(ParamKind::Uint256);
                kinds.push(ParamKind::Uint256);
                kinds.push(ParamKind::Address);
                kinds.push(ParamKind::Uint256);
                kinds.push(ParamKind::Bytes32);
            },
            FactorySchema::WeightedPool2Tokens => {
                kinds.push(ParamKind::AddressArray);
                kinds.push(ParamKind::Uint256Array);
                kinds.push(ParamKind::Uint256);
                kinds.push(ParamKind::Bool);
                kinds.push(ParamKind::Address);
            },
        }
        assert(kinds@ =~= self.spec_layout());
        kinds
    }

    /// Puts the `create` call of the factory together from its decoded
    /// arguments.
    pub fn create_from_values(self, values: Option<Vec<AbiValue>>) -> (call: Option<CreateCall>)
        ensures
            option_create_call(call) == self.spec_create_from_values(option_terms(values)),
    {
        let v = match values {
            Some(v) => v,
            None => {
                return None;
            },
        };
        let kinds = self.layout();
        if v.len() != kinds.len() {
            return None;
        }
        assert(forall|i: int| 0 <= i < v@.len() ==> terms_of(v@)[i] == (#[trigger] v@[i])@);
        match self {
            FactorySchema::WeightedPoolV1 | FactorySchema::WeightedPool2Tokens => {
                match (v[2].as_address_array(), v[3].as_uint_array(), v[4].as_uint()) {
                    (Some(tokens), Some(weights), Some(swap_fee_percentage)) => Some(
                        CreateCall::Weighted { tokens, weights, swap_fee_percentage },
                    ),
                    _ => None,
                }
            },
            FactorySchema::WeightedPoolV2
            | FactorySchema::WeightedPoolV3
            | FactorySchema::WeightedPoolV4 => {
                match (
                    v[2].as_address_array(),
                    v[3].as_uint_array(),
                    v[4].as_address_array(),
                    v[5].as_uint(),
                ) {
                    (
                        Some(tokens),
                        Some(normalized_weights),
                        Some(rate_providers),
                        Some(swap_fee_percentage),
                    ) => Some(
                        CreateCall::WeightedWithRates {
                            tokens,
                            normalized_weights,
                            rate_providers,
                            swap_fee_percentage,
                        },
                    ),
                    _ => None,
                }
            },
            FactorySchema::ComposableStablePool => {
                match (v[2].as_address_array(), v[4].as_address_array(), v[7].as_uint()) {
                    (Some(tokens), Some(rate_providers), Some(swap_fee_percentage)) => Some(
                        CreateCall::ComposableStable {
                            tokens,
                            rate_providers,
                            swap_fee_percentage,
                        },
                    ),
                    _ => None,
                }
            },
            FactorySchema::Erc4626LinearPool | FactorySchema::YearnLinearPool => {
                match (v[2].as_address(), v[3].as_address(), v[4].as_uint(), v[5].as_uint()) {
                    (
                        Some(main_token),
                        Some(wrapped_token),
                        Some(upper_target),
                        Some(swap_fee_percentage),
                    ) => Some(
                        CreateCall::Linear {
                            main_token,
                            wrapped_token,
                            upper_target,
                            swap_fee_percentage,
                        },
                    ),
                    _ => None,
                }
            },
        }
    }

    /// Whether the input of `call` starts with the selector of the factory's
    /// `create`.
    pub fn match_call(self, call: &Call) -> (matches: bool)
        ensures
            matches == self.spec_matches_call(call@),
    {
        if call.input.len() < 4 {
            return false;
        }
        let selector = self.selector();
        bytes_eq(slice_subrange(call.input.as_slice(), 0, 4), selector.as_slice())
    }

    /// The `create` call of the factory in `call`, if its input starts with the
    /// selector and the rest decodes by the layout.
    pub fn match_and_decode(self, call: &Call) -> (create: Option<CreateCall>)
        ensures
            option_create_call(create) == self.spec_decode_create(call@),
    {
        if !self.match_call(call) {
            return None;
        }
        let kinds = self.layout();
        let data = slice_subrange(call.input.as_slice(), 4, call.input.len());
        self.create_from_values(abi_decode(&kinds, data))
    }
}

/// A factory's notice that it created a pool.
#[derive(Clone, Debug, PartialEq, Eq)]
pub struct PoolCreated {
    /// The new pool's contract.
    pub pool: Vec<u8>,
}

impl View for PoolCreated {
    type V = Seq<u8>;

    open spec fn view(&self) -> Seq<u8> {
        self.pool@
    }
}

/// The view of an optional event: the pool's address.
pub open spec fn option_pool_created(event: Option<PoolCreated>) -> Option<Seq<u8>> {
    match event {
        Some(e) => Some(e@),
        None => None,
    }
}

/// Whether a log has the shape of a `PoolCreated` event: two topics, the first
/// one the event's, and no data.
pub open spec fn is_pool_created_log(log: LogView) -> bool {
    log.topics.len() == 2 && log.data.len() == 0 && log.topics[0] == POOL_CREATED_TOPIC@
}

/// The pool that the decoded second topic of a `PoolCreated` log names.
pub open spec fn spec_pool_created_from_parts(pool: Option<AbiTerm>) -> Option<Seq<u8>> {
    match pool {
        Some(p) => spec_as_address(p),
        None => None,
    }
}

/// The address of the pool whose creation a log announces, if it announces one.
pub open spec fn spec_decode_pool_created(log: LogView) -> Option<Seq<u8>> {
    if is_pool_created_log(log) {
        spec_pool_created_from_parts(spec_decode_single(ParamKind::Address, log.topics[1]))
    } else {
        None
    }
}

impl PoolCreated {
    /// Puts the event together from the decoded second topic.
    pub fn from_parts(pool: Option<AbiValue>) -> (event: Option<PoolCreated>)
        ensures
            option_pool_created(event) == spec_pool_created_from_parts(option_term(pool)),
    {
        match pool {
            Some(p) => match p.as_address() {
                Some(pool) => Some(PoolCreated { pool }),
                None => None,
            },
            None => None,
        }
    }

    /// Whether `log` has the shape of this event.
    pub fn match_log(log: &Log) -> (matches: bool)
        ensures
            matches == is_pool_created_log(log@),
    {
        log.topics.len() == 2 && log.data.len() == 0 && bytes_eq(
            log.topics[0].as_slice(),
            POOL_CREATED_TOPIC.as_slice(),
        )
    }

    /// The event in `log`, if its shape is this event's and its topic decodes.
    pub fn match_and_decode(log: &Log) -> (event: Option<PoolCreated>)
        ensures
            option_pool_created(event) == spec_decode_pool_created(log@),
    {
        if !PoolCreated::match_log(log) {
            return None;
        }
        PoolCreated::from_parts(decode_single(ParamKind::Address, log.topics[1].as_slice()))
    }
}

} // verus!
