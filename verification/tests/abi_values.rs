use ethabi::Token;
use ethereum_balancer_v2::abi::{decode_single, single_value, AbiValue, ParamKind};
use ethereum_balancer_v2::factory::{CreateCall, FactorySchema};

fn word(last: u8) -> [u8; 32] {
    let mut w = [0u8; 32];
    w[31] = last;
    w
}

fn account(seed: u8) -> [u8; 20] {
    let mut a = [seed; 20];
    a[0] = 0xaa;
    a
}

fn accounts(seeds: &[u8]) -> AbiValue {
    AbiValue::Array(seeds.iter().map(|s| AbiValue::Address(account(*s))).collect())
}

fn words(values: &[u8]) -> AbiValue {
    AbiValue::Array(values.iter().map(|v| AbiValue::Uint(word(*v))).collect())
}

fn text(s: &str) -> AbiValue {
    AbiValue::Text(s.to_string())
}

#[test]
fn accessors_read_values_of_their_kind_only() {
    let address = AbiValue::Address(account(3));
    assert_eq!(address.as_address(), Some(account(3).to_vec()));
    assert_eq!(address.as_uint(), None);
    assert_eq!(address.as_bytes32(), None);
    assert_eq!(address.as_address_array(), None);
    assert_eq!(address.as_uint_array(), None);

    let uint = AbiValue::Uint(word(7));
    assert_eq!(uint.as_uint(), Some(word(7).to_vec()));
    assert_eq!(uint.as_address(), None);
    assert_eq!(AbiValue::Int(word(7)).as_uint(), None);

    let bytes = AbiValue::FixedBytes(vec![5u8; 32]);
    assert_eq!(bytes.as_bytes32(), Some(vec![5u8; 32]));
    assert_eq!(AbiValue::FixedBytes(vec![5u8; 31]).as_bytes32(), None);
    assert_eq!(AbiValue::FixedBytes(vec![5u8; 33]).as_bytes32(), None);
    assert_eq!(AbiValue::FixedBytes(vec![]).as_bytes32(), None);
    assert_eq!(AbiValue::Bytes(vec![5u8; 32]).as_bytes32(), None);

    assert_eq!(AbiValue::Bool(true).as_address(), None);
    assert_eq!(text("x").as_uint(), None);
}

#[test]
fn array_accessors_want_every_item_of_the_kind() {
    assert_eq!(
        accounts(&[1, 2, 3]).as_address_array(),
        Some(vec![account(1).to_vec(), account(2).to_vec(), account(3).to_vec()])
    );
    assert_eq!(accounts(&[]).as_address_array(), Some(vec![]));
    assert_eq!(accounts(&[]).as_uint_array(), Some(vec![]));
    assert_eq!(words(&[9, 8]).as_uint_array(), Some(vec![word(9).to_vec(), word(8).to_vec()]));
    assert_eq!(words(&[9, 8]).as_address_array(), None);
    assert_eq!(accounts(&[1]).as_uint_array(), None);

    let mixed = AbiValue::Array(vec![
        AbiValue::Address(account(1)),
        AbiValue::Uint(word(2)),
        AbiValue::Address(account(3)),
    ]);
    assert_eq!(mixed.as_address_array(), None);
    assert_eq!(mixed.as_uint_array(), None);

    let fixed = AbiValue::FixedArray(vec![AbiValue::Address(account(1))]);
    assert_eq!(fixed.as_address_array(), None);
    let tuple = AbiValue::Tuple(vec![AbiValue::Uint(word(1))]);
    assert_eq!(tuple.as_uint_array(), None);
}

#[test]
fn single_value_wants_exactly_one() {
    assert!(single_value(vec![]).is_none());
    assert!(single_value(vec![AbiValue::Bool(true), AbiValue::Bool(false)]).is_none());
    let only = single_value(vec![AbiValue::Uint(word(4))]).unwrap();
    assert_eq!(only.as_uint(), Some(word(4).to_vec()));
}

#[test]
fn single_words_decode_by_kind() {
    let mut data = vec![0xffu8; 12];
    data.extend_from_slice(&account(6));
    // an address is the last 20 bytes of its word
    let address = decode_single(ParamKind::Address, &data).unwrap();
    assert_eq!(address.as_address(), Some(account(6).to_vec()));
    // the same word as a number and as 32 bytes
    assert_eq!(decode_single(ParamKind::Uint256, &data).unwrap().as_uint(), Some(data.clone()));
    assert_eq!(decode_single(ParamKind::Uint8, &data).unwrap().as_uint(), Some(data.clone()));
    assert_eq!(decode_single(ParamKind::Bytes32, &data).unwrap().as_bytes32(), Some(data.clone()));
    // it is no boolean
    assert!(decode_single(ParamKind::Bool, &data).is_none());
    assert!(matches!(decode_single(ParamKind::Bool, &word(1)), Some(AbiValue::Bool(true))));
    assert!(matches!(decode_single(ParamKind::Bool, &word(0)), Some(AbiValue::Bool(false))));
    // short data do not decode, longer data do
    assert!(decode_single(ParamKind::Address, &data[..31]).is_none());
    assert!(decode_single(ParamKind::Uint256, &[]).is_none());
    data.push(0);
    assert_eq!(
        decode_single(ParamKind::Address, &data).unwrap().as_address(),
        Some(account(6).to_vec())
    );
}

#[test]
fn arrays_and_text_decode_from_their_encoding() {
    let encoded = ethabi::encode(&[Token::Array(vec![
        Token::Address(ethabi::Address::from_slice(&account(1))),
        Token::Address(ethabi::Address::from_slice(&account(2))),
    ])]);
    let decoded = decode_single(ParamKind::AddressArray, &encoded).unwrap();
    assert_eq!(
        decoded.as_address_array(),
        Some(vec![account(1).to_vec(), account(2).to_vec()])
    );
    let as_words = decode_single(ParamKind::Uint256Array, &encoded).unwrap();
    assert_eq!(as_words.as_uint_array().map(|w| w.len()), Some(2));
    assert!(decode_single(ParamKind::AddressArray, &encoded[..encoded.len() - 1]).is_none());

    let encoded = ethabi::encode(&[Token::String("pool".to_string())]);
    match decode_single(ParamKind::Text, &encoded) {
        Some(AbiValue::Text(s)) => assert_eq!(s, "pool"),
        other => panic!("not a text: {:?}", other),
    }
}

fn weighted_values() -> Vec<AbiValue> {
    vec![
        text("name"),
        text("symbol"),
        accounts(&[1, 2]),
        words(&[50, 50]),
        AbiValue::Uint(word(3)),
        AbiValue::Address(account(9)),
    ]
}

fn weighted_with_rates_values() -> Vec<AbiValue> {
    vec![
        text("name"),
        text("symbol"),
        accounts(&[1, 2]),
        words(&[80, 20]),
        accounts(&[7, 8]),
        AbiValue::Uint(word(3)),
        AbiValue::Address(account(9)),
    ]
}

fn composable_values() -> Vec<AbiValue> {
    vec![
        text("name"),
        text("symbol"),
        accounts(&[1, 2]),
        AbiValue::Uint(word(200)),
        accounts(&[7, 8]),
        words(&[10, 10]),
        AbiValue::Bool(false),
        AbiValue::Uint(word(3)),
        AbiValue::Address(account(9)),
        AbiValue::FixedBytes(vec![0u8; 32]),
    ]
}

fn linear_values() -> Vec<AbiValue> {
    vec![
        text("name"),
        text("symbol"),
        AbiValue::Address(account(1)),
        AbiValue::Address(account(2)),
        AbiValue::Uint(word(100)),
        AbiValue::Uint(word(3)),
        AbiValue::Address(account(9)),
        AbiValue::Uint(word(4)),
        AbiValue::FixedBytes(vec![0u8; 32]),
    ]
}

#[test]
fn create_call_takes_the_arguments_at_their_places() {
    let weighted = CreateCall::Weighted {
        tokens: vec![account(1).to_vec(), account(2).to_vec()],
        weights: vec![word(50).to_vec(), word(50).to_vec()],
        swap_fee_percentage: word(3).to_vec(),
    };
    assert_eq!(
        FactorySchema::WeightedPoolV1.create_from_values(Some(weighted_values())),
        Some(weighted)
    );

    let with_rates = CreateCall::WeightedWithRates {
        tokens: vec![account(1).to_vec(), account(2).to_vec()],
        normalized_weights: vec![word(80).to_vec(), word(20).to_vec()],
        rate_providers: vec![account(7).to_vec(), account(8).to_vec()],
        swap_fee_percentage: word(3).to_vec(),
    };
    assert_eq!(
        FactorySchema::WeightedPoolV2.create_from_values(Some(weighted_with_rates_values())),
        Some(with_rates.clone())
    );
    assert_eq!(
        FactorySchema::WeightedPoolV3.create_from_values(Some(weighted_with_rates_values())),
        Some(with_rates.clone())
    );
    let mut salted = weighted_with_rates_values();
    salted.push(AbiValue::FixedBytes(vec![1u8; 32]));
    assert_eq!(FactorySchema::WeightedPoolV4.create_from_values(Some(salted)), Some(with_rates));

    assert_eq!(
        FactorySchema::ComposableStablePool.create_from_values(Some(composable_values())),
        Some(CreateCall::ComposableStable {
            tokens: vec![account(1).to_vec(), account(2).to_vec()],
            rate_providers: vec![account(7).to_vec(), account(8).to_vec()],
            swap_fee_percentage: word(3).to_vec(),
        })
    );

    let linear = CreateCall::Linear {
        main_token: account(1).to_vec(),
        wrapped_token: account(2).to_vec(),
        upper_target: word(100).to_vec(),
        swap_fee_percentage: word(3).to_vec(),
    };
    assert_eq!(
        FactorySchema::Erc4626LinearPool.create_from_values(Some(linear_values())),
        Some(linear.clone())
    );
    assert_eq!(
        FactorySchema::YearnLinearPool.create_from_values(Some(linear_values())),
        Some(linear)
    );

    let mut two_tokens = weighted_values();
    two_tokens.insert(5, AbiValue::Bool(true));
    assert_eq!(
        FactorySchema::WeightedPool2Tokens.create_from_values(Some(two_tokens)),
        Some(CreateCall::Weighted {
            tokens: vec![account(1).to_vec(), account(2).to_vec()],
            weights: vec![word(50).to_vec(), word(50).to_vec()],
            swap_fee_percentage: word(3).to_vec(),
        })
    );
}

#[test]
fn create_call_needs_every_argument_of_its_kind() {
    assert_eq!(FactorySchema::WeightedPoolV1.create_from_values(None), None);
    assert_eq!(FactorySchema::WeightedPoolV1.create_from_values(Some(vec![])), None);

    // one value short, one value long
    let mut short = weighted_values();
    short.pop();
    assert_eq!(FactorySchema::WeightedPoolV1.create_from_values(Some(short)), None);
    let mut long = weighted_values();
    long.push(AbiValue::Bool(true));
    assert_eq!(FactorySchema::WeightedPoolV1.create_from_values(Some(long)), None);

    // the arguments of another factory
    assert_eq!(
        FactorySchema::WeightedPoolV2.create_from_values(Some(weighted_values())),
        None
    );
    assert_eq!(
        FactorySchema::WeightedPoolV4.create_from_values(Some(weighted_with_rates_values())),
        None
    );
    assert_eq!(
        FactorySchema::ComposableStablePool.create_from_values(Some(linear_values())),
        None
    );

    // a value of another kind at a place that is read
    let mut values = weighted_values();
    values[2] = words(&[1, 2]);
    assert_eq!(FactorySchema::WeightedPoolV1.create_from_values(Some(values)), None);
    let mut values = weighted_values();
    values[3] = accounts(&[1, 2]);
    assert_eq!(FactorySchema::WeightedPoolV1.create_from_values(Some(values)), None);
    let mut values = weighted_values();
    values[4] = AbiValue::Int(word(3));
    assert_eq!(FactorySchema::WeightedPoolV1.create_from_values(Some(values)), None);
    let mut values = linear_values();
    values[3] = AbiValue::Uint(word(2));
    assert_eq!(FactorySchema::YearnLinearPool.create_from_values(Some(values)), None);
    let mut values = composable_values();
    values[7] = AbiValue::Bool(true);
    assert_eq!(FactorySchema::ComposableStablePool.create_from_values(Some(values)), None);

    // a value of another kind at a place that is not read
    let mut values = weighted_values();
    values[0] = AbiValue::Bool(true);
    values[5] = AbiValue::Uint(word(0));
    assert!(FactorySchema::WeightedPoolV1.create_from_values(Some(values)).is_some());
}

#[test]
fn call_tokens_are_those_of_the_call() {
    let weighted = FactorySchema::WeightedPoolV1.create_from_values(Some(weighted_values()));
    assert_eq!(weighted.unwrap().tokens(), vec![account(1).to_vec(), account(2).to_vec()]);
    let composable =
        FactorySchema::ComposableStablePool.create_from_values(Some(composable_values()));
    assert_eq!(composable.unwrap().tokens(), vec![account(1).to_vec(), account(2).to_vec()]);
    let linear = FactorySchema::YearnLinearPool.create_from_values(Some(linear_values()));
    assert_eq!(linear.unwrap().tokens(), Vec::<Vec<u8>>::new());
}
