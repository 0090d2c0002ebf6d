use ethabi::Token;
use ethereum_balancer_v2::abi::AbiValue;
use ethereum_balancer_v2::factory::{FactorySchema, PoolCreated, POOL_CREATED_TOPIC};
use ethereum_balancer_v2::trace::{Call, Log, LogWithCall, TransactionTrace};
use ethereum_balancer_v2::vault::{
    get_pool_registered, get_token_registered, PoolRegistered, TokensRegistered,
    POOL_REGISTERED_TOPIC, TOKENS_REGISTERED_TOPIC, VAULT_ADDRESS,
};

fn account(seed: u8) -> Vec<u8> {
    vec![seed; 20]
}

fn identifier(seed: u8) -> Vec<u8> {
    let mut id = vec![seed; 32];
    id[0] = 0x5c;
    id
}

fn padded(address: &[u8]) -> Vec<u8> {
    let mut word = vec![0u8; 12];
    word.extend_from_slice(address);
    word
}

fn word(last: u8) -> Vec<u8> {
    let mut w = vec![0u8; 32];
    w[31] = last;
    w
}

fn accounts_data(tokens: &[Vec<u8>], managers: &[Vec<u8>]) -> Vec<u8> {
    let list = |items: &[Vec<u8>]| {
        Token::Array(
            items.iter().map(|a| Token::Address(ethabi::Address::from_slice(a))).collect(),
        )
    };
    ethabi::encode(&[list(tokens), list(managers)])
}

fn pool_registered(emitter: &[u8], id: &[u8], pool: &[u8]) -> Log {
    Log {
        address: emitter.to_vec(),
        topics: vec![POOL_REGISTERED_TOPIC.to_vec(), id.to_vec(), padded(pool)],
        data: word(1),
    }
}

fn tokens_registered(emitter: &[u8], id: &[u8], tokens: &[Vec<u8>]) -> Log {
    Log {
        address: emitter.to_vec(),
        topics: vec![TOKENS_REGISTERED_TOPIC.to_vec(), id.to_vec()],
        data: accounts_data(tokens, &vec![account(0); tokens.len()]),
    }
}

fn trace_of(logs: Vec<Log>) -> TransactionTrace {
    TransactionTrace {
        logs_with_calls: logs
            .into_iter()
            .map(|log| LogWithCall { log, call: Call { input: vec![1, 2, 3] } })
            .collect(),
    }
}

#[test]
fn pool_registered_is_read_from_topics_and_data() {
    let log = pool_registered(&VAULT_ADDRESS, &identifier(1), &account(2));
    assert!(PoolRegistered::match_log(&log));
    assert_eq!(
        PoolRegistered::match_and_decode(&log),
        Some(PoolRegistered {
            pool_id: identifier(1),
            pool_address: account(2),
            specialization: word(1),
        })
    );
    // whoever emitted it: the emitter is not part of the event
    let elsewhere = pool_registered(&account(9), &identifier(1), &account(2));
    assert!(PoolRegistered::match_and_decode(&elsewhere).is_some());
}

#[test]
fn pool_registered_wants_three_topics_and_one_word() {
    let good = pool_registered(&VAULT_ADDRESS, &identifier(1), &account(2));

    let mut log = good.clone();
    log.topics.pop();
    assert!(!PoolRegistered::match_log(&log));
    assert_eq!(PoolRegistered::match_and_decode(&log), None);

    let mut log = good.clone();
    log.topics.push(word(0));
    assert!(!PoolRegistered::match_log(&log));

    let mut log = good.clone();
    log.data.push(0);
    assert!(!PoolRegistered::match_log(&log));
    let mut log = good.clone();
    log.data.clear();
    assert!(!PoolRegistered::match_log(&log));

    let mut log = good.clone();
    log.topics[0] = TOKENS_REGISTERED_TOPIC.to_vec();
    assert!(!PoolRegistered::match_log(&log));
    let mut log = good.clone();
    log.topics[0].truncate(31);
    assert!(!PoolRegistered::match_log(&log));

    // the shape is right and a topic is too short to decode
    let mut log = good.clone();
    log.topics[1].truncate(31);
    assert!(PoolRegistered::match_log(&log));
    assert_eq!(PoolRegistered::match_and_decode(&log), None);
    let mut log = good.clone();
    log.topics[2].truncate(20);
    assert!(PoolRegistered::match_log(&log));
    assert_eq!(PoolRegistered::match_and_decode(&log), None);

    assert!(!PoolRegistered::match_log(&Log { address: vec![], topics: vec![], data: vec![] }));
}

#[test]
fn pool_registered_parts_must_be_of_their_kinds() {
    let specialization = || Some(AbiValue::Uint([0u8; 32]));
    let id = || Some(AbiValue::FixedBytes(identifier(4)));
    let pool = || Some(AbiValue::Address([7u8; 20]));
    assert_eq!(
        PoolRegistered::from_parts(specialization(), id(), pool()),
        Some(PoolRegistered {
            pool_id: identifier(4),
            pool_address: vec![7u8; 20],
            specialization: vec![0u8; 32],
        })
    );
    assert_eq!(PoolRegistered::from_parts(None, id(), pool()), None);
    assert_eq!(PoolRegistered::from_parts(specialization(), None, pool()), None);
    assert_eq!(PoolRegistered::from_parts(specialization(), id(), None), None);
    assert_eq!(PoolRegistered::from_parts(id(), id(), pool()), None);
    assert_eq!(PoolRegistered::from_parts(specialization(), pool(), pool()), None);
    assert_eq!(PoolRegistered::from_parts(specialization(), id(), id()), None);
    let short = Some(AbiValue::FixedBytes(vec![1; 8]));
    assert_eq!(PoolRegistered::from_parts(specialization(), short, pool()), None);
}

#[test]
fn tokens_registered_is_read_from_topic_and_data() {
    let tokens = vec![account(1), account(2), account(3)];
    let log = tokens_registered(&VAULT_ADDRESS, &identifier(5), &tokens);
    assert!(TokensRegistered::match_log(&log));
    assert_eq!(
        TokensRegistered::match_and_decode(&log),
        Some(TokensRegistered {
            pool_id: identifier(5),
            tokens: tokens.clone(),
            asset_managers: vec![account(0); 3],
        })
    );

    // no tokens at all: two empty arrays are 128 bytes
    let log = tokens_registered(&VAULT_ADDRESS, &identifier(5), &[]);
    assert_eq!(log.data.len(), 128);
    assert_eq!(
        TokensRegistered::match_and_decode(&log),
        Some(TokensRegistered { pool_id: identifier(5), tokens: vec![], asset_managers: vec![] })
    );
}

#[test]
fn tokens_registered_wants_two_topics_and_two_arrays() {
    let good = tokens_registered(&VAULT_ADDRESS, &identifier(5), &[account(1)]);

    let mut log = good.clone();
    log.topics.push(word(0));
    assert!(!TokensRegistered::match_log(&log));
    let mut log = good.clone();
    log.topics.pop();
    assert!(!TokensRegistered::match_log(&log));
    let mut log = good.clone();
    log.topics[0] = POOL_REGISTERED_TOPIC.to_vec();
    assert!(!TokensRegistered::match_log(&log));
    let mut log = good.clone();
    log.data.truncate(127);
    assert!(!TokensRegistered::match_log(&log));
    assert_eq!(TokensRegistered::match_and_decode(&log), None);

    // long enough for the shape, too short for the arrays it announces
    let mut log = good.clone();
    log.data.truncate(128);
    assert!(TokensRegistered::match_log(&log));
    assert_eq!(TokensRegistered::match_and_decode(&log), None);
}

#[test]
fn tokens_registered_parts_must_be_of_their_kinds() {
    let id = || Some(AbiValue::FixedBytes(identifier(4)));
    let list = |n: u8| AbiValue::Array((0..n).map(|i| AbiValue::Address([i; 20])).collect());
    assert_eq!(
        TokensRegistered::from_parts(id(), Some(vec![list(2), list(1)])),
        Some(TokensRegistered {
            pool_id: identifier(4),
            tokens: vec![vec![0u8; 20], vec![1u8; 20]],
            asset_managers: vec![vec![0u8; 20]],
        })
    );
    assert_eq!(TokensRegistered::from_parts(None, Some(vec![list(2), list(2)])), None);
    assert_eq!(TokensRegistered::from_parts(id(), None), None);
    assert_eq!(TokensRegistered::from_parts(id(), Some(vec![list(2)])), None);
    assert_eq!(TokensRegistered::from_parts(id(), Some(vec![list(2), list(2), list(2)])), None);
    assert_eq!(
        TokensRegistered::from_parts(id(), Some(vec![list(2), AbiValue::Bool(true)])),
        None
    );
    assert_eq!(
        TokensRegistered::from_parts(
            id(),
            Some(vec![AbiValue::Array(vec![AbiValue::Uint([0u8; 32])]), list(1)])
        ),
        None
    );
    let address = Some(AbiValue::Address([1; 20]));
    assert_eq!(TokensRegistered::from_parts(address, Some(vec![list(1), list(1)])), None);
}

#[test]
fn pool_created_is_read_from_the_second_topic() {
    let log = Log {
        address: account(8),
        topics: vec![POOL_CREATED_TOPIC.to_vec(), padded(&account(3))],
        data: vec![],
    };
    assert!(PoolCreated::match_log(&log));
    assert_eq!(PoolCreated::match_and_decode(&log), Some(PoolCreated { pool: account(3) }));

    // what stands before the address in its word is not read
    let mut dirty = log.clone();
    dirty.topics[1][0] = 0xff;
    assert_eq!(PoolCreated::match_and_decode(&dirty), Some(PoolCreated { pool: account(3) }));

    let mut with_data = log.clone();
    with_data.data.push(0);
    assert!(!PoolCreated::match_log(&with_data));
    assert_eq!(PoolCreated::match_and_decode(&with_data), None);

    assert_eq!(PoolCreated::from_parts(None), None);
    assert_eq!(PoolCreated::from_parts(Some(AbiValue::Uint([0; 32]))), None);
    assert_eq!(
        PoolCreated::from_parts(Some(AbiValue::Address([4; 20]))),
        Some(PoolCreated { pool: vec![4; 20] })
    );
}

#[test]
fn create_call_is_matched_by_its_selector() {
    let schema = FactorySchema::WeightedPoolV1;
    assert!(schema.match_call(&Call { input: vec![0xfb, 0xce, 0x03, 0x93] }));
    assert!(schema.match_call(&Call { input: vec![0xfb, 0xce, 0x03, 0x93, 0x00] }));
    assert!(!schema.match_call(&Call { input: vec![0xfb, 0xce, 0x03] }));
    assert!(!schema.match_call(&Call { input: vec![] }));
    assert!(!schema.match_call(&Call { input: vec![0xfb, 0xce, 0x03, 0x94] }));
    let other = FactorySchema::WeightedPoolV2;
    assert!(!other.match_call(&Call { input: vec![0xfb, 0xce, 0x03, 0x93] }));
    assert_eq!(schema.match_and_decode(&Call { input: vec![0xfb, 0xce, 0x03, 0x93] }), None);
    assert_eq!(schema.match_and_decode(&Call { input: vec![] }), None);
}

#[test]
fn registration_is_searched_among_the_vault_s_logs() {
    let (pool, other) = (account(1), account(2));
    let tx = trace_of(vec![
        tokens_registered(&VAULT_ADDRESS, &identifier(1), &[account(5)]),
        pool_registered(&account(9), &identifier(2), &pool),
        pool_registered(&VAULT_ADDRESS, &identifier(3), &other),
        pool_registered(&VAULT_ADDRESS, &identifier(4), &pool),
        pool_registered(&VAULT_ADDRESS, &identifier(5), &pool),
    ]);
    assert_eq!(get_pool_registered(&tx, &pool).map(|e| e.pool_id), Some(identifier(4)));
    assert_eq!(get_pool_registered(&tx, &other).map(|e| e.pool_id), Some(identifier(3)));
    assert_eq!(get_pool_registered(&tx, &account(3)), None);
    assert_eq!(get_pool_registered(&tx, &[]), None);
    assert_eq!(get_pool_registered(&tx, &pool[..19]), None);
    assert_eq!(get_pool_registered(&trace_of(vec![]), &pool), None);
}

#[test]
fn token_registration_is_searched_among_the_vault_s_logs() {
    let tx = trace_of(vec![
        pool_registered(&VAULT_ADDRESS, &identifier(1), &account(1)),
        tokens_registered(&account(9), &identifier(1), &[account(7)]),
        tokens_registered(&VAULT_ADDRESS, &identifier(2), &[account(6)]),
        tokens_registered(&VAULT_ADDRESS, &identifier(1), &[account(5), account(4)]),
        tokens_registered(&VAULT_ADDRESS, &identifier(1), &[account(3)]),
    ]);
    assert_eq!(
        get_token_registered(&tx, &identifier(1)).map(|e| e.tokens),
        Some(vec![account(5), account(4)])
    );
    assert_eq!(
        get_token_registered(&tx, &identifier(2)).map(|e| e.tokens),
        Some(vec![account(6)])
    );
    assert_eq!(get_token_registered(&tx, &identifier(3)), None);
    assert_eq!(get_token_registered(&tx, &[]), None);
    assert_eq!(get_token_registered(&trace_of(vec![]), &identifier(1)), None);
}
