//! The proof-of-work solver: a bounded brute-force search for a candidate
//! payload whose hash prefix ranks at or below the challenge difficulty.
//!
//! Each candidate is a JSON-shaped array of a process-wide random constant
//! (generated once per process by the caller and threaded in explicitly), a
//! formatted timestamp, a fixed large number, the iteration counter and a
//! fixed user-agent string. The candidate is base64-encoded, appended to the
//! challenge seed, hashed with SHA3-512, and the hex encoding of the first
//! `difficulty length / 2` digest bytes is compared character-wise against
//! the difficulty string. When the bounded search is exhausted, a degraded
//! fallback token is returned instead; it is best-effort and the caller must
//! surface it as such rather than treat it as success.

use base64::Engine;
use sha3::Digest;
use vstd::prelude::*;
use vstd::string::*;
use crate::text::{dec_seq, hex_encode_prefix, hex_seq, lex_le, push_char, str_lex_le,
    u64_to_string};

verus! {

/// How many candidates the bounded search tries before degrading.
pub const POW_MAX_ITERATIONS: u32 = 100000;

/// The SHA3-512 digest of the UTF-8 bytes of the input, named only: its
/// value is a function of the input alone.
pub uninterp spec fn sha3_512_of(input: Seq<char>) -> Seq<u8>;

/// Relies on sha3's Sha3_512 through the Digest trait: the 64-byte SHA3-512
/// digest of the UTF-8 bytes of the input, depending on the input alone.
#[verifier::external_body]
fn sha3_512_utf8(input: &str) -> (r: Vec<u8>)
    ensures
        r@ == sha3_512_of(input@),
        r@.len() == 64,
{
    sha3::Sha3_512::digest(input.as_bytes()).to_vec()
}

/// The padded standard-alphabet base64 encoding of the UTF-8 bytes of the
/// input, named only: its value is a function of the input alone.
pub uninterp spec fn base64_of(input: Seq<char>) -> Seq<char>;

/// Relies on base64's general_purpose::STANDARD engine: the padded standard
/// base64 encoding of the UTF-8 bytes of the input, depending on the input
/// alone.
#[verifier::external_body]
fn base64_encode_utf8(input: &str) -> (r: String)
    ensures
        r@ == base64_of(input@),
{
    base64::engine::general_purpose::STANDARD.encode(input)
}

/// Relies on chrono's Utc::now and DateTime::format: the current wall-clock
/// time rendered in the format the upstream expects. Nothing is promised of
/// the value; every caller must hold for every outcome.
#[verifier::external_body]
fn now_formatted() -> String {
    chrono::Utc::now().format(
        "%a %b %d %Y %H:%M:%S GMT%z (Coordinated Universal Time)",
    ).to_string()
}

/// The candidate payload tried at iteration `i`.
pub open spec fn candidate_payload(proof_constant: nat, datetime: Seq<char>, i: nat) -> Seq<char> {
    "["@ + dec_seq(proof_constant) + ",\""@ + datetime + "\",4294705152,"@ + dec_seq(i) + ",\""@
        + "Mozilla/5.0 (Windows NT 10.0; Win64; x64) AppleWebKit/537.36 (KHTML, like Gecko) Chrome/123.0.0.0 Safari/537.36"@
        + "\"]"@
}

/// How many digest bytes take part in the comparison: half the difficulty
/// string's length in characters, capped at the digest width so that an
/// overlong difficulty cannot crash the call.
pub open spec fn difficulty_prefix_len(difficulty: Seq<char>) -> nat {
    if difficulty.len() / 2 > 64 {
        64
    } else {
        difficulty.len() / 2
    }
}

/// Whether iteration `i` solves the challenge: the hex encoding of the
/// leading digest bytes of seed + base64(candidate) ranks at or below the
/// difficulty string.
pub open spec fn pow_accepts(
    proof_constant: nat,
    datetime: Seq<char>,
    seed: Seq<char>,
    difficulty: Seq<char>,
    i: nat,
) -> bool {
    lex_le(
        hex_seq(
            sha3_512_of(seed + base64_of(candidate_payload(proof_constant, datetime, i))).take(
                difficulty_prefix_len(difficulty) as int,
            ),
        ),
        difficulty,
    )
}

/// The token of a genuinely solved challenge: the fixed prefix followed by
/// the winning base64 payload.
pub open spec fn solved_token_of(proof_constant: nat, datetime: Seq<char>, i: nat) -> Seq<char> {
    "gAAAAAB"@ + base64_of(candidate_payload(proof_constant, datetime, i))
}

/// The degraded fallback token: a different fixed prefix followed by the
/// base64 encoding of the double-quoted seed alone.
pub open spec fn fallback_token_of(seed: Seq<char>) -> Seq<char> {
    "gAAAAABwQ8Lk5FbGpA2NcR9dShT6gYjU7VxZ4D"@ + base64_of(seq!['"'] + seed + seq!['"'])
}

/// A proof-of-work outcome: a genuine token, or the degraded fallback after
/// the bounded search was exhausted.
pub enum ProofToken {
    Solved(String),
    Degraded(String),
}

impl ProofToken {
    /// The token string to attach to the upstream request, whichever way the
    /// search ended.
    pub fn token(self) -> (r: String)
        ensures
            match self {
                ProofToken::Solved(t) => r == t,
                ProofToken::Degraded(t) => r == t,
            },
    {
        match self {
            ProofToken::Solved(t) => t,
            ProofToken::Degraded(t) => t,
        }
    }
}

/// A solved outcome for this datetime: some iteration below the bound is the
/// first accepted one and the token is built from it.
pub open spec fn pow_solution(
    proof_constant: nat,
    datetime: Seq<char>,
    seed: Seq<char>,
    difficulty: Seq<char>,
    token: Seq<char>,
) -> bool {
    exists|i: nat|
        {
            &&& i < POW_MAX_ITERATIONS
            &&& #[trigger] pow_accepts(proof_constant, datetime, seed, difficulty, i)
            &&& forall|j: nat|
                j < i ==> !#[trigger] pow_accepts(proof_constant, datetime, seed, difficulty, j)
            &&& token == solved_token_of(proof_constant, datetime, i)
        }
}

/// The bounded search itself, deterministic in its arguments: returns the
/// token of the first accepted iteration, or the degraded fallback exactly
/// when no iteration below the bound is accepted.
pub fn solve_pow(proof_constant: u32, datetime: &str, seed: &str, difficulty: &str) -> (r:
    ProofToken)
    ensures
        r matches ProofToken::Solved(tok) ==> pow_solution(
            proof_constant as nat,
            datetime@,
            seed@,
            difficulty@,
            tok@,
        ),
        r matches ProofToken::Degraded(tok) ==> (forall|i: nat|
            i < POW_MAX_ITERATIONS ==> !#[trigger] pow_accepts(
                proof_constant as nat,
                datetime@,
                seed@,
                difficulty@,
                i,
            )) && tok@ == fallback_token_of(seed@),
{
    let diff_chars = difficulty.unicode_len();
    let mut dlen: usize = diff_chars / 2;
    if dlen > 64 {
        dlen = 64;
    }
    proof {
        assert(dlen == difficulty_prefix_len(difficulty@));
    }
    let mut i: u32 = 0;
    while i < POW_MAX_ITERATIONS
        invariant
            dlen == difficulty_prefix_len(difficulty@),
            i <= POW_MAX_ITERATIONS,
            forall|j: nat|
                j < i ==> !#[trigger] pow_accepts(
                    proof_constant as nat,
                    datetime@,
                    seed@,
                    difficulty@,
                    j,
                ),
        decreases POW_MAX_ITERATIONS - i,
    {
        let mut payload = String::from_str("[");
        let constant_digits = u64_to_string(proof_constant as u64);
        payload.append(constant_digits.as_str());
        payload.append(",\"");
        payload.append(datetime);
        payload.append("\",4294705152,");
        let counter_digits = u64_to_string(i as u64);
        payload.append(counter_digits.as_str());
        payload.append(",\"");
        payload.append(
            "Mozilla/5.0 (Windows NT 10.0; Win64; x64) AppleWebKit/537.36 (KHTML, like Gecko) Chrome/123.0.0.0 Safari/537.36",
        );
        payload.append("\"]");
        proof {
            assert(payload@ =~= candidate_payload(proof_constant as nat, datetime@, i as nat));
        }
        let encoded = base64_encode_utf8(payload.as_str());
        let mut hash_input = String::from_str(seed);
        hash_input.append(encoded.as_str());
        let digest = sha3_512_utf8(hash_input.as_str());
        let hash_hex = hex_encode_prefix(digest.as_slice(), dlen);
        if str_lex_le(hash_hex.as_str(), difficulty) {
            let mut token = String::from_str("gAAAAAB");
            token.append(encoded.as_str());
            proof {
                assert(pow_accepts(proof_constant as nat, datetime@, seed@, difficulty@, i as nat));
                assert(token@ == solved_token_of(proof_constant as nat, datetime@, i as nat));
            }
            return ProofToken::Solved(token);
        }
        i += 1;
    }
    let mut quoted = String::new();
    push_char(&mut quoted, '"');
    quoted.append(seed);
    push_char(&mut quoted, '"');
    proof {
        assert(quoted@ =~= seq!['"'] + seed@ + seq!['"']);
    }
    let fallback_encoded = base64_encode_utf8(quoted.as_str());
    let mut token = String::from_str("gAAAAABwQ8Lk5FbGpA2NcR9dShT6gYjU7VxZ4D");
    token.append(fallback_encoded.as_str());
    ProofToken::Degraded(token)
}

/// Computes the proof token for a negotiated challenge, with the current
/// wall-clock time threaded into the candidate payloads. Degradation is
/// visible in the result: a `Degraded` token comes only from an exhausted
/// search.
pub fn calculate_proof_token(proof_constant: u32, seed: &str, difficulty: &str) -> (r: ProofToken)
    ensures
        r matches ProofToken::Solved(tok) ==> exists|dt: Seq<char>|
            #[trigger] pow_solution(proof_constant as nat, dt, seed@, difficulty@, tok@),
        r matches ProofToken::Degraded(tok) ==> tok@ == fallback_token_of(seed@),
{
    let datetime = now_formatted();
    let outcome = solve_pow(proof_constant, datetime.as_str(), seed, difficulty);
    proof {
        match &outcome {
            ProofToken::Solved(tok) => {
                assert(pow_solution(proof_constant as nat, datetime@, seed@, difficulty@, tok@));
            },
            ProofToken::Degraded(_) => {},
        }
    }
    outcome
}

} // verus!
