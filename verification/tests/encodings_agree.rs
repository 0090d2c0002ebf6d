use ethereum_balancer_v2::abi::{decode_single, ParamKind};
use ethereum_balancer_v2::component::ProtocolComponent;
use ethereum_balancer_v2::factory::{CreateCall, FactorySchema};
use ethereum_balancer_v2::pool_factories::pool_component;

/// A small generator of bytes, the same on every run.
struct Bytes(u64);

impl Bytes {
    fn next(&mut self) -> u8 {
        self.0 = self.0.wrapping_mul(6364136223846793005).wrapping_add(1442695040888963407);
        (self.0 >> 33) as u8
    }

    fn take(&mut self, len: usize) -> Vec<u8> {
        (0..len).map(|_| self.next()).collect()
    }

    /// A word that starts with some zero bytes, as numbers mostly do.
    fn word(&mut self) -> Vec<u8> {
        let zeros = (self.next() % 34) as usize;
        let mut word = vec![0u8; zeros.min(32)];
        let rest = 32 - word.len();
        word.extend(self.take(rest));
        word
    }
}

fn hex_of(bytes: &[u8]) -> String {
    let digits = b"0123456789abcdef";
    let mut text = String::new();
    for byte in bytes {
        text.push(digits[(byte >> 4) as usize] as char);
        text.push(digits[(byte & 15) as usize] as char);
    }
    text
}

/// The shortest two's-complement form of a non-negative number, worked out on
/// the bytes: no leading zero bytes, and one zero byte before a set top bit.
fn shortest_signed(word: &[u8]) -> Vec<u8> {
    let digits: Vec<u8> = word.iter().copied().skip_while(|b| *b == 0).collect();
    match digits.first() {
        None => vec![0],
        Some(first) if *first >= 0x80 => {
            let mut bytes = vec![0];
            bytes.extend(digits);
            bytes
        }
        Some(_) => digits,
    }
}

fn json_of(items: &[Vec<u8>]) -> String {
    let quoted: Vec<String> = items.iter().map(|i| format!("\"0x{}\"", hex_of(i))).collect();
    format!("[{}]", quoted.join(","))
}

fn attribute(component: &ProtocolComponent, name: &str) -> Vec<u8> {
    component.static_att.iter().find(|a| a.name == name).unwrap().value.clone()
}

#[test]
fn numbers_agree_with_the_bytes_worked_out_by_hand() {
    let mut bytes = Bytes(7);
    for round in 0..400 {
        let fee = if round % 5 == 0 { bytes.take(round % 40) } else { bytes.word() };
        let target = bytes.word();
        let create = CreateCall::Linear {
            main_token: bytes.take(20),
            wrapped_token: bytes.take(20),
            upper_target: target.clone(),
            swap_fee_percentage: fee.clone(),
        };
        let component =
            pool_component(FactorySchema::Erc4626LinearPool, &create, &[1; 20], &[2; 32], &vec![]);
        assert_eq!(attribute(&component, "fee"), shortest_signed(&fee), "fee {:?}", fee);
        assert_eq!(attribute(&component, "upper_target"), shortest_signed(&target));
    }
}

#[test]
fn lists_agree_with_the_json_worked_out_by_hand() {
    let mut bytes = Bytes(11);
    for round in 0..200 {
        let count = round % 6;
        let weights: Vec<Vec<u8>> = (0..count).map(|_| bytes.word()).collect();
        let providers: Vec<Vec<u8>> = (0..(round % 4)).map(|_| bytes.take(20)).collect();
        let create = CreateCall::WeightedWithRates {
            tokens: vec![],
            normalized_weights: weights.clone(),
            rate_providers: providers.clone(),
            swap_fee_percentage: bytes.word(),
        };
        let component =
            pool_component(FactorySchema::WeightedPoolV4, &create, &[1; 20], &[2; 32], &vec![]);
        let signed: Vec<Vec<u8>> = weights.iter().map(|w| shortest_signed(w)).collect();
        assert_eq!(
            String::from_utf8(attribute(&component, "normalized_weights")).unwrap(),
            json_of(&signed)
        );
        assert_eq!(
            String::from_utf8(attribute(&component, "rate_providers")).unwrap(),
            json_of(&providers)
        );
    }
}

#[test]
fn identifiers_agree_with_the_hex_worked_out_by_hand() {
    let mut bytes = Bytes(13);
    let create = CreateCall::Weighted {
        tokens: vec![],
        weights: vec![],
        swap_fee_percentage: vec![],
    };
    for round in 0..200 {
        let id = bytes.take(round % 70);
        let component =
            pool_component(FactorySchema::WeightedPoolV1, &create, &[1; 20], &id, &vec![]);
        assert_eq!(component.id, format!("0x{}", hex_of(&id)));
    }
}

#[test]
fn single_words_agree_with_the_bytes_they_are_read_from() {
    let mut bytes = Bytes(17);
    for round in 0..300 {
        let data = bytes.take(round % 80);
        let address = decode_single(ParamKind::Address, &data).and_then(|v| v.as_address());
        let number = decode_single(ParamKind::Uint256, &data).and_then(|v| v.as_uint());
        let small = decode_single(ParamKind::Uint8, &data).and_then(|v| v.as_uint());
        let fixed = decode_single(ParamKind::Bytes32, &data).and_then(|v| v.as_bytes32());
        if data.len() < 32 {
            assert_eq!((address, number, small, fixed), (None, None, None, None));
        } else {
            assert_eq!(address, Some(data[12..32].to_vec()));
            assert_eq!(number, Some(data[..32].to_vec()));
            assert_eq!(small, Some(data[..32].to_vec()));
            assert_eq!(fixed, Some(data[..32].to_vec()));
        }
    }
}
