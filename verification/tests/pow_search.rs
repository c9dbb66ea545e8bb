use base64::Engine;
use chat_gateway::pow::{calculate_proof_token, solve_pow, ProofToken};
use sha3::Digest;

const FIXED_DATETIME: &str = "Mon Apr 01 2024 00:00:00 GMT+0000 (Coordinated Universal Time)";

fn hex_of(bytes: &[u8]) -> String {
    bytes.iter().fold(String::new(), |acc, b| acc + &format!("{:02x}", b))
}

#[test]
fn easy_difficulty_is_solved_and_token_checks_out() {
    let seed = "test-seed";
    let difficulty = "ffffffff";
    match solve_pow(3000, FIXED_DATETIME, seed, difficulty) {
        ProofToken::Solved(token) => {
            assert!(token.starts_with("gAAAAAB"));
            let encoded = &token["gAAAAAB".len()..];
            // the winning candidate really hashes at or below the difficulty
            let digest = sha3::Sha3_512::digest(format!("{seed}{encoded}").as_bytes());
            let prefix = hex_of(&digest[..difficulty.len() / 2]);
            assert!(prefix.as_str() <= difficulty);
            // the candidate payload has the documented shape
            let payload = base64::engine::general_purpose::STANDARD.decode(encoded).unwrap();
            let payload = String::from_utf8(payload).unwrap();
            assert!(payload.starts_with("[3000,\""));
            assert!(payload.contains("\",4294705152,"));
            assert!(payload.contains(FIXED_DATETIME));
            assert!(payload.contains("Mozilla/5.0"));
            assert!(payload.ends_with("\"]"));
        }
        ProofToken::Degraded(_) => panic!("an all-f difficulty must be solved"),
    }
}

#[test]
fn impossible_difficulty_degrades_to_the_fallback_token() {
    // every hex digit ranks above '/', so no candidate can ever be accepted
    let seed = "abc";
    match solve_pow(2500, FIXED_DATETIME, seed, "//") {
        ProofToken::Degraded(token) => {
            let expected_suffix = base64::engine::general_purpose::STANDARD.encode("\"abc\"");
            assert_eq!(expected_suffix, "ImFiYyI=");
            assert_eq!(
                token,
                format!("gAAAAABwQ8Lk5FbGpA2NcR9dShT6gYjU7VxZ4D{expected_suffix}")
            );
        }
        ProofToken::Solved(_) => panic!("no candidate can rank at or below \"//\""),
    }
}

#[test]
fn empty_difficulty_is_solved_immediately() {
    // a zero-length comparison prefix accepts the very first candidate
    match solve_pow(2000, FIXED_DATETIME, "s", "") {
        ProofToken::Solved(token) => assert!(token.starts_with("gAAAAAB")),
        ProofToken::Degraded(_) => panic!("the empty prefix comparison always accepts"),
    }
}

#[test]
fn first_accepted_iteration_wins() {
    // with an easy difficulty the winner must be iteration 0: decoding the
    // payload shows the counter right after the datetime field
    match solve_pow(4321, FIXED_DATETIME, "seed", "ffffffff") {
        ProofToken::Solved(token) => {
            let encoded = &token["gAAAAAB".len()..];
            let payload = base64::engine::general_purpose::STANDARD.decode(encoded).unwrap();
            let payload = String::from_utf8(payload).unwrap();
            assert!(payload.contains("\",4294705152,0,\""));
        }
        ProofToken::Degraded(_) => panic!("an all-f difficulty must be solved"),
    }
}

#[test]
fn selective_difficulty_is_solved_by_the_real_hash() {
    // one comparison byte, accepted only when the leading digest byte ranks
    // at or below 0x20: roughly one candidate in eight, so the bounded
    // search finds one, and only a genuine digest can pass the recheck
    let seed = "test-seed";
    let difficulty = "20";
    match solve_pow(2048, FIXED_DATETIME, seed, difficulty) {
        ProofToken::Solved(token) => {
            let encoded = &token["gAAAAAB".len()..];
            let digest = sha3::Sha3_512::digest(format!("{seed}{encoded}").as_bytes());
            let prefix = hex_of(&digest[..1]);
            assert!(prefix.as_str() <= difficulty);
        }
        ProofToken::Degraded(_) => {
            panic!("the bounded search should find a candidate at this difficulty")
        }
    }
}

#[test]
fn wall_clock_solver_solves_easy_difficulty() {
    match calculate_proof_token(5000, "seed", "ffffffff") {
        ProofToken::Solved(token) => assert!(token.starts_with("gAAAAAB")),
        ProofToken::Degraded(_) => panic!("an all-f difficulty must be solved"),
    }
}
