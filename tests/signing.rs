use ledger_client::{
    sign_action, signed_block, timestamp, user_verify_action, ActionError,
    KeyError, SigningKey, ACTION_MESSAGE_LEN, SIGNATURE_LEN,
};
use rsa::{BigUint, RsaPrivateKey};
use std::time::{SystemTime, UNIX_EPOCH};

const N_2048: &str = "da02b01487d8877523b12b729d013214fe2fe8528dc3487bdbc0a3888ec831a6\
    967f3f8982b074a8f71a59d42bfb19a7c3e1dd1e34336420b56655ea5b180001\
    d4ffe645b149275fda9dcccd913c42487520f00d3ebf11794825776f039096c5\
    7d42c01f85565d61f8ba905a7c24e3f03b16236d49acd3edbc604279e8a07f6f\
    0421dc0e42a6c2cb977e77de062411084adfc926b76a8a88a5883c1a70429909\
    453a7f3a595857467d0f0470289cdd2ee2f4c6d5d033fc366c9bdfd70669eada\
    824a079e42b9bfce501cbcfe6cc122ce478f844b25fa34bdb47f342241af396a\
    dc8c5193ab6c85a7256b99e0bf18f1db01eff49b6494da65cdcbd5f4132fe0b7";
const D_2048: &str = "11ed38a7678841933b4d1d427e7093bab030264d6b84cc580af8eb39966c15d1\
    19fcfaaf870495833356825e75035fd7b0bec8dcebf3f1ded2abc892cdccca6b\
    5c2572bcf6580a99d233399d09bd47c207879ed5a7fc3426a1ed1ac61127f98d\
    e1bff466632377e84f789fd820ef33a31468bc9f06f8e4305f5617014944b155\
    bbb321cb6b9e0dbe0a34beead114fb45522f4f812b2c78a6a76deb8e3849ebf3\
    379455fb60ecc2836c5d0de9d245ce7968f7ad872c8a448adef3fe1f067668ef\
    9c46699875533db17fe2c68df7c4d5572587c62a05aad7811450ce082c94900d\
    86482aa97433e883ebca3bbc7786e5b91327cdcd30a02aef4ba91df1d1c48031";
const P_2048: &str = "dcbcb131d87f0f7c8d824f567ee87234825be5d17bf3c044a7cb8fac6561ed8a\
    68499f17da27a8628367f9add595f72a0fc660edd9745360b37cb6a53719afbc\
    5f8ac2dba273f100a3e180e4f2cbd149e4d7bdc1b2254a0f801e3739e293bdbe\
    8df43581183c68b92a5e6db78fde7f1e0ebdbfefe4f20abe101c3605940a2a89";
const Q_2048: &str = "fcd67d28d44dec98267f681032a335d424436461075250b24ac2f1dfd287ebb6\
    f0b95104ab2c264283ad4ca73cf486c33f88ba3ba9b931ece1b25f71885e7697\
    8bdf6f60ad1cf40f1b23fbfb274350a9bae3af145cd89d284c843831a430e09d\
    846e5b2d16b5b5489aa87c750941530ddaf98909a1adf2b0f9daaea933a5e13f";

const N_1024: &str = "b8f89987bb267fefb0654faa95c5281807847ab05b2629ada6f9c509e1d8c826\
    6b5fbbcfa6de06fc06874ebe04a22ff26fff7b03cf78df91c415bec0b840ba77\
    385f9b542f0e2cb82fac8ebb6783645abea463250e50d34de7226b496fefc138\
    0d152c0588c35f126a1c87d1396ecda0ac36867a460216e9eba4c28100c0a8bf";
const D_1024: &str = "39f8d04596064efa94526c518e772845bfb569ae7422d5d5330bfd1147d36587\
    8507901958b725813f9a90b745447fba8017963a6f7ff6b1fcbec3f62ac93ea7\
    2e75d4295ed30c767375600e18ad304591196080d5c9a7db0d47978e314ea351\
    9123f64a6a09fa9880e84473e5b287329ea5da80e143a863cfe1387999c684e1";
const P_1024: &str = "d4346ed36fe0121438a62270a75567900cbb0295978b0ba3da2324cb8392085e\
    7436f7962c604e680e7e63fc239dbb3dff49b0ed389cff9d1e836d9fc5669f45";
const Q_1024: &str = "df254ee980a8745be08b0a62abe5e30865a5f4664e4f5b391e106a2a41f478fc\
    0a5dc9c48ea285713b40bf2016af0f6e04e9547eb281235f0b62893dbb931633";

fn big(hex: &str) -> BigUint {
    BigUint::parse_bytes(hex.as_bytes(), 16).unwrap()
}

fn private_key(n: &str, d: &str, p: &str, q: &str) -> RsaPrivateKey {
    RsaPrivateKey::from_components(big(n), BigUint::from(65537u32), big(d), vec![big(p), big(q)])
}

fn test_key() -> SigningKey {
    SigningKey::new(private_key(N_2048, D_2048, P_2048, Q_2048)).unwrap()
}

fn now_seconds() -> u64 {
    SystemTime::now().duration_since(UNIX_EPOCH).unwrap().as_secs()
}

fn be(secs: u64) -> Vec<u8> {
    secs.to_be_bytes().to_vec()
}

#[test]
fn key_with_short_modulus_is_refused() {
    let r = SigningKey::new(private_key(N_1024, D_1024, P_1024, Q_1024));
    assert!(matches!(r, Err(KeyError::WrongModulusSize)));
}

#[test]
fn signed_block_layout() {
    let b = signed_block(1_700_000_000, b"alice bob 10");
    assert_eq!(b.len(), 52);
    assert_eq!(&b[..8], &be(1_700_000_000)[..]);
    assert_eq!(&b[8..20], b"alice bob 10");
    assert!(b[20..].iter().all(|&c| c == b' '));
}

#[test]
fn signed_block_truncates_long_payload() {
    let long = [b'x'; 60];
    let b = signed_block(5, &long);
    assert_eq!(b.len(), 52);
    assert_eq!(&b[8..], &long[..44]);
}

#[test]
fn action_message_layout() {
    let key = test_key();
    let m = sign_action(&key, 1_700_000_000, b"alice bob 10").unwrap();
    assert_eq!(m.len(), ACTION_MESSAGE_LEN);
    assert_eq!(&m[..3], b"SEN");
    assert_eq!(&m[3..11], &be(1_700_000_000)[..]);
    assert_eq!(&m[11..23], b"alice bob 10");
    assert!(m[23..55].iter().all(|&c| c == b' '));
    assert_eq!(m[55..].len(), SIGNATURE_LEN);
}

#[test]
fn signature_verifies_under_public_half() {
    let key = test_key();
    let m = sign_action(&key, 1_700_000_000, b"alice bob 10").unwrap();
    assert!(key.verify_block(&m[3..55], &m[55..]));
}

#[test]
fn altered_block_fails_verification() {
    let key = test_key();
    let m = sign_action(&key, 1_700_000_000, b"alice bob 10").unwrap();
    for i in [0usize, 7, 8, 20, 51] {
        let mut block = m[3..55].to_vec();
        block[i] ^= 1;
        assert!(!key.verify_block(&block, &m[55..]));
    }
}

#[test]
fn signing_twice_gives_verifiable_signatures() {
    let key = test_key();
    let block = signed_block(42, b"alice bob 10");
    let s1 = key.sign_block(&block).unwrap();
    let s2 = key.sign_block(&block).unwrap();
    assert!(key.verify_block(&block, &s1));
    assert!(key.verify_block(&block, &s2));
    assert_eq!(s1, s2);
}

#[test]
fn different_timestamps_give_different_signatures() {
    let key = test_key();
    let a = sign_action(&key, 1_700_000_000, b"alice bob 10").unwrap();
    let b = sign_action(&key, 1_700_000_001, b"alice bob 10").unwrap();
    assert_ne!(&a[55..], &b[55..]);
}

#[test]
fn declined_action_is_not_built() {
    let key = test_key();
    assert_eq!(user_verify_action(false, &key, b"alice bob 10"), Err(ActionError::Declined));
}

#[test]
fn approved_action_is_stamped_now() {
    let key = test_key();
    let before = now_seconds();
    let m = user_verify_action(true, &key, b"alice bob 10").unwrap();
    let after = now_seconds();
    let stamp = u64::from_be_bytes(m[3..11].try_into().unwrap());
    assert!(before <= stamp && stamp <= after);
    assert_eq!(&m[..3], b"SEN");
    assert!(key.verify_block(&m[3..55], &m[55..]));
}

#[test]
fn timestamp_is_eight_big_endian_bytes() {
    let before = now_seconds();
    let t = timestamp().unwrap();
    let after = now_seconds();
    assert_eq!(t.len(), 8);
    let v = u64::from_be_bytes(t[..].try_into().unwrap());
    assert!(before <= v && v <= after);
}

#[test]
fn key_from_pkcs8_der() {
    let secret = private_key(N_2048, D_2048, P_2048, Q_2048);
    let der = rsa::pkcs8::ToPrivateKey::to_pkcs8_der(&secret).unwrap();
    let key = SigningKey::from_pkcs8_der(der.as_ref()).unwrap();
    let block = signed_block(7, b"alice bob 3");
    let sig = key.sign_block(&block).unwrap();
    assert!(key.verify_block(&block, &sig));
    let small = private_key(N_1024, D_1024, P_1024, Q_1024);
    let der = rsa::pkcs8::ToPrivateKey::to_pkcs8_der(&small).unwrap();
    assert!(matches!(SigningKey::from_pkcs8_der(der.as_ref()), Err(KeyError::WrongModulusSize)));
}

#[test]
fn signature_is_pkcs1v15_of_sha512_digest() {
    let key = test_key();
    let m = sign_action(&key, 1_700_000_000, b"alice bob 10").unwrap();
    let digest = <sha2::Sha512 as sha2::Digest>::digest(&m[3..55]);
    let secret = private_key(N_2048, D_2048, P_2048, Q_2048);
    let expected = secret
        .sign(rsa::PaddingScheme::new_pkcs1v15_sign(Some(rsa::Hash::SHA2_512)), &digest)
        .unwrap();
    assert_eq!(&m[55..], &expected[..]);
}

#[test]
fn signature_of_wrong_length_does_not_verify() {
    let key = test_key();
    let block = signed_block(9, b"x");
    assert!(!key.verify_block(&block, &[0u8; 10]));
    assert!(!key.verify_block(&block, &[0u8; 256]));
}
