use argon2::password_hash::{PasswordHash, Salt};
use argon2::{
    Algorithm, Argon2, AssociatedData, ParamsBuilder, PasswordHasher, PasswordVerifier, Version,
};
use passhive::crypto::{check_parsed, check_password};
use passhive::error::VaultError;
use passhive::phc::{takes_parallelism, PhcParam};

const SALT: &str = "c29tZXNhbHRzb21lc2FsdA";

fn written(algorithm: Algorithm, version: Version, data: &[u8], password: &str) -> String {
    let mut builder = ParamsBuilder::new();
    builder.m_cost(16).t_cost(1).p_cost(2).output_len(24);
    if !data.is_empty() {
        builder.data(AssociatedData::new(data).unwrap());
    }
    let hasher = Argon2::new(algorithm, version, builder.build().unwrap());
    let salt = Salt::from_b64(SALT).unwrap();
    hasher.hash_password(password.as_bytes(), salt).unwrap().to_string()
}

/// What Argon2's own check says, for verifiers with a degree of parallelism
/// that it takes.
fn theirs(verifier: &str, password: &str) -> Result<bool, VaultError> {
    match PasswordHash::new(verifier) {
        Err(_) => Err(VaultError::MalformedVerifier),
        Ok(parsed) => Ok(Argon2::default().verify_password(password.as_bytes(), &parsed).is_ok()),
    }
}

fn number(name: &str, value: u32) -> PhcParam {
    PhcParam { name: name.to_string(), value: value.to_string() }
}

fn text(name: &str, value: &str) -> PhcParam {
    PhcParam { name: name.to_string(), value: value.to_string() }
}

#[test]
fn verifiers_of_every_algorithm_and_version() {
    for algorithm in [Algorithm::Argon2d, Algorithm::Argon2i, Algorithm::Argon2id] {
        for version in [Version::V0x10, Version::V0x13] {
            let verifier = written(algorithm, version, b"", "pw");
            assert_eq!(check_password(&verifier, &"pw".to_string()), Ok(true), "{}", verifier);
            assert_eq!(check_password(&verifier, &"pW".to_string()), Ok(false), "{}", verifier);
        }
    }
}

#[test]
fn verifier_with_associated_data() {
    let verifier = written(Algorithm::Argon2id, Version::V0x13, b"vault", "pw");
    assert!(verifier.contains(",data="));
    assert_eq!(check_password(&verifier, &"pw".to_string()), Ok(true));
    assert_eq!(check_password(&verifier, &"other".to_string()), Ok(false));
    let plain = written(Algorithm::Argon2id, Version::V0x13, b"", "pw");
    let moved = verifier.replace(",data=dmF1bHQ", "");
    assert_ne!(moved, plain);
    assert_eq!(check_password(&moved, &"pw".to_string()), Ok(false));
}

#[test]
fn the_library_decides_as_argon2_does() {
    let good = written(Algorithm::Argon2id, Version::V0x13, b"", "pw");
    let digest = good.rsplit('$').next().unwrap().to_string();
    let cases = vec![
        good.clone(),
        good.replace("$v=19", ""),
        good.replace("$v=19", "$v=16"),
        good.replace("$v=19", "$v=17"),
        good.replace("$v=19", "$v=019"),
        good.replace("argon2id", "argon2i"),
        good.replace("argon2id", "argon2"),
        good.replace("argon2id", "scrypt"),
        good.replace("m=16", "m=17"),
        good.replace("m=16", "m=15"),
        good.replace("m=16", "m=7"),
        good.replace("m=16", "m=016"),
        good.replace("m=16", "m=x"),
        good.replace("m=16", "m=4294967296"),
        good.replace("t=1", "t=0"),
        good.replace("t=1", "t=2"),
        good.replace("p=2", "p=0"),
        good.replace("p=2", "p=1"),
        good.replace("p=2", "p=3"),
        good.replace("p=2", "p=16777215"),
        good.replace("p=2", "p=16777216"),
        good.replace("p=2", "p=1,p=2"),
        good.replace("p=2", "p=2,p=1"),
        good.replace("m=16,", ""),
        good.replace(",t=1", ""),
        good.replace(",p=2", ""),
        good.replace("$m=16,t=1,p=2", ""),
        good.replace("m=16", "m=16,x=1"),
        good.replace("m=16", "keyid=AAAA,m=16"),
        good.replace("m=16", "keyid=AAAAAAAAAAA,m=16"),
        good.replace("m=16", "keyid=AAAAAAAAAAAA,m=16"),
        good.replace("m=16", "keyid=A,m=16"),
        good.replace("m=16", "keyid=AAAAAAAAAAAA,keyid=AAAA,m=16"),
        good.replace("m=16", "data=AAAA,m=16"),
        good.replace("m=16", "data=-,m=16"),
        good.replace(SALT, "c29tZXNhbHRzb21lc2FsdB"),
        good.replace(SALT, "c29tZQ"),
        good.replace(SALT, "c29t"),
        good.replace(SALT, "abc"),
        good.replace(SALT, "c29tZXNhbHRzb21lc2Fs*A"),
        good.replace(&digest, ""),
        good.replace(&format!("${}", digest), ""),
        good.replace(&digest, "AAAAAAAAAAAAAAAAAAAAAAAAAAAAAAAA"),
        good.replace(&digest, "AAAAAAAA"),
        format!("{}AAAA", good),
        format!("{}$", good),
        format!("{}$AAAA", good),
        "$argon2id".to_string(),
        "$argon2id$v=19".to_string(),
        "$argon2id$c29tZXNhbHRzb21lc2FsdA".to_string(),
        "argon2id".to_string(),
        "$".to_string(),
        "$$".to_string(),
        "".to_string(),
        "not a hash".to_string(),
    ];
    for verifier in cases {
        for password in ["pw", "pW", ""] {
            assert_eq!(
                check_password(&verifier, &password.to_string()),
                theirs(&verifier, password),
                "{} with {:?}",
                verifier,
                password
            );
        }
    }
    assert_eq!(theirs(&good, "pw"), Ok(true));
    assert_eq!(theirs("$argon2id", "pw"), Ok(false));
    assert_eq!(theirs("", "pw"), Err(VaultError::MalformedVerifier));
}

#[test]
fn parallelism_out_of_range_verifies_nothing() {
    for p in ["16777216", "536870911", "536870912", "536870913", "1073741824", "4294967295"] {
        for m in ["7", "8", "65536", "4294967295"] {
            let verifier = format!(
                "$argon2id$v=19$m={},t=10,p={}$c29tZXNhbHRzYWx0$c29tZWhhc2hzb21laGFzaA",
                m, p
            );
            assert_eq!(check_password(&verifier, &"pw".to_string()), Ok(false), "{}", verifier);
        }
    }
    let twice = "$scrypt$p=1,p=536870912$c29tZXNhbHRzYWx0$c29tZWhhc2hzb21laGFzaA";
    assert_eq!(check_password(&twice.to_string(), &"pw".to_string()), Ok(false));
}

#[test]
fn parallelism_that_argon2_takes() {
    assert!(takes_parallelism(&vec![]));
    assert!(takes_parallelism(&vec![number("m", 65536), number("t", 10)]));
    assert!(takes_parallelism(&vec![number("p", 0)]));
    assert!(takes_parallelism(&vec![number("p", 16777215)]));
    assert!(!takes_parallelism(&vec![number("p", 16777216)]));
    assert!(!takes_parallelism(&vec![number("p", 536870912)]));
    assert!(!takes_parallelism(&vec![number("p", u32::MAX)]));
    assert!(!takes_parallelism(&vec![number("m", 8), number("p", 536870912), number("t", 1)]));
    assert!(takes_parallelism(&vec![number("p", 536870912), number("p", 1)]));
    assert!(!takes_parallelism(&vec![number("p", 1), number("p", 536870912)]));
    for no_number in ["", "x", "+1", "-1", "01", "00", "4294967296", "99999999999999999999", "1 ", "٣"] {
        assert!(takes_parallelism(&vec![number("p", 536870912), text("p", no_number)]));
        assert!(!takes_parallelism(&vec![text("p", no_number), number("p", 536870912)]));
    }
    assert!(!takes_parallelism(&vec![text("p", "4294967295")]));
    assert!(takes_parallelism(&vec![text("p", "0")]));
    assert!(takes_parallelism(&vec![text("p", "16777215")]));
    assert!(!takes_parallelism(&vec![text("p", "16777216")]));
    assert!(takes_parallelism(&vec![text("p", "016777216")]));
    assert!(takes_parallelism(&vec![number("P", 536870912), number("pp", 536870912)]));
    assert!(takes_parallelism(&vec![number("m", u32::MAX), number("t", u32::MAX)]));
}

#[test]
fn what_the_parameters_decide() {
    assert_eq!(check_parsed(&None), Some(Err(VaultError::MalformedVerifier)));
    assert_eq!(check_parsed(&Some(vec![])), None);
    assert_eq!(check_parsed(&Some(vec![number("p", 3)])), None);
    assert_eq!(check_parsed(&Some(vec![number("p", 536870912)])), Some(Ok(false)));
}
