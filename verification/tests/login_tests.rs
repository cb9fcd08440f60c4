use wow_bot::proxy::auth::{
    downstream_srp_proof, downstream_srp_verify, logon_challenge_parameters, session_seed, srp_challenge,
    srp_parameters_check, srp_proof_of, srp_public_key_of, srp_verify, world_session_answer, world_session_check,
    AuthError,
};
use wow_bot::proxy::commands::chat::is_local_namespace;
use wow_bot::proxy::commands::log::parse;
use wow_bot::proxy::observations::{maintenance_observations, SMSG_LEARNED_SPELL};
use wow_bot::state::observation::ProtocolObservation;

const PRIME: [u8; 32] = [
    0xb7, 0x9b, 0x3e, 0x2a, 0x87, 0x82, 0x3c, 0xab, 0x8f, 0x5e, 0xbf, 0xbf, 0x8e, 0xb1, 0x01, 0x08,
    0x53, 0x50, 0x06, 0x29, 0x8b, 0x5b, 0xad, 0xbd, 0x5b, 0x53, 0xe1, 0x89, 0x5e, 0x64, 0x4b, 0x89,
];

#[test]
fn logon_challenge_parameters_need_a_generator_and_a_full_prime() {
    assert_eq!(logon_challenge_parameters(&[7, 9], &PRIME), Ok((7, PRIME)));
    assert_eq!(logon_challenge_parameters(&[], &PRIME), Err(AuthError::ChallengeRejected));
    assert_eq!(logon_challenge_parameters(&[7], &PRIME[..31]), Err(AuthError::ChallengeRejected));
}

#[test]
fn srp_challenge_refuses_bad_names_and_keys() {
    let key = [3u8; 32];
    let salt = [5u8; 32];
    let challenge = srp_challenge("ALICE", "secret", &[7], &PRIME, key, salt).expect("valid challenge");
    let public_key = srp_public_key_of(&challenge);
    let proof = srp_proof_of(&challenge);
    assert_ne!(public_key, [0u8; 32]);
    assert_ne!(proof, [0u8; 20]);
    assert_eq!(srp_verify(challenge, [0u8; 20]), Err(AuthError::ProofRejected));
    assert!(matches!(srp_challenge("ALICE", "secret", &[7], &PRIME, [0u8; 32], salt), Err(AuthError::ChallengeRejected)));
    assert!(matches!(srp_challenge("ALICE", "secret", &[7], &PRIME, PRIME, salt), Err(AuthError::ChallengeRejected)));
    assert!(matches!(srp_challenge("", "secret", &[7], &PRIME, key, salt), Err(AuthError::ChallengeRejected)));
    assert!(matches!(srp_challenge("ALICE", "pässword", &[7], &PRIME, key, salt), Err(AuthError::ChallengeRejected)));
    assert!(matches!(srp_challenge("ALICE", "secret", &[], &PRIME, key, salt), Err(AuthError::ChallengeRejected)));
}

#[test]
fn world_session_answer_needs_a_loginable_name() {
    assert!(world_session_answer("ALICE", [1u8; 40], 42).is_ok());
    assert!(matches!(world_session_answer("", [1u8; 40], 42), Err(AuthError::ChallengeRejected)));
    assert!(matches!(world_session_answer("AN_ACCOUNT_NAME_TOO_LONG", [1u8; 40], 42), Err(AuthError::ChallengeRejected)));
}

#[test]
fn learned_spell_is_reported() {
    let observations = maintenance_observations(SMSG_LEARNED_SPELL, &133u32.to_le_bytes());
    assert_eq!(observations.len(), 1);
    assert!(matches!(observations[0], ProtocolObservation::SpellKnown { spell: 133 }));
}

#[test]
fn recognised_log_commands_are_local() {
    for text in ["  .LOG start ", ".log stop", ".log Status", ".log mark", ".log mark  pull one "] {
        assert!(parse(text).is_some(), "{text}");
        assert!(is_local_namespace(text), "{text}");
    }
}

fn small_prime(n: u8) -> [u8; 32] {
    let mut p = [0u8; 32];
    p[0] = n;
    p
}

#[test]
fn srp_parameters_must_leave_the_computation_defined() {
    assert!(srp_parameters_check(7, &PRIME));
    assert!(!srp_parameters_check(0, &PRIME));
    assert!(!srp_parameters_check(7, &[0u8; 32]));
    assert!(!srp_parameters_check(7, &small_prime(1)));
    assert!(!srp_parameters_check(7, &small_prime(14)));
    assert!(srp_parameters_check(7, &small_prime(15)));
    assert!(srp_parameters_check(1, &small_prime(2)));
    let mut wide = [0u8; 32];
    wide[1] = 1; // 256, coprime with 7 but not with 2
    assert!(srp_parameters_check(7, &wide));
    assert!(!srp_parameters_check(2, &wide));
}

#[test]
fn srp_challenge_refuses_parameters_that_would_break_the_computation() {
    let key = [3u8; 32];
    let salt = [5u8; 32];
    assert!(matches!(srp_challenge("ALICE", "secret", &[0], &PRIME, key, salt), Err(AuthError::ChallengeRejected)));
    assert!(matches!(srp_challenge("ALICE", "secret", &[7], &[0u8; 32], key, salt), Err(AuthError::ChallengeRejected)));
    assert!(matches!(srp_challenge("ALICE", "secret", &[7], &small_prime(1), key, salt), Err(AuthError::ChallengeRejected)));
    assert!(srp_challenge("ALICE", "secret", &[7], &small_prime(15), key, salt).is_ok());
}

#[test]
fn downstream_login_agrees_with_the_client_side() {
    let server = downstream_srp_proof("alice", "secret").expect("configured credential");
    let client = srp_challenge(
        "ALICE",
        "secret",
        &[wow_srp::GENERATOR],
        &wow_srp::LARGE_SAFE_PRIME_LITTLE_ENDIAN,
        server.public_key(),
        server.salt(),
    )
    .expect("client answer");
    let (client_key, client_proof) = (srp_public_key_of(&client), srp_proof_of(&client));
    let (session_key, server_proof) = downstream_srp_verify(server, client_key, client_proof).expect("proofs match");
    assert_eq!(srp_verify(client, server_proof), Ok(session_key));
}

#[test]
fn downstream_login_rejects_wrong_passwords_and_bad_keys() {
    let server = downstream_srp_proof("alice", "secret").expect("configured credential");
    let client = srp_challenge(
        "ALICE",
        "wrong",
        &[wow_srp::GENERATOR],
        &wow_srp::LARGE_SAFE_PRIME_LITTLE_ENDIAN,
        server.public_key(),
        server.salt(),
    )
    .expect("client answer");
    let (client_key, client_proof) = (srp_public_key_of(&client), srp_proof_of(&client));
    assert_eq!(downstream_srp_verify(server, client_key, client_proof), Err(AuthError::ProofRejected));
    let server = downstream_srp_proof("alice", "secret").expect("configured credential");
    assert_eq!(downstream_srp_verify(server, [0u8; 32], [0u8; 20]), Err(AuthError::ChallengeRejected));
    assert!(matches!(downstream_srp_proof("", "secret"), Err(AuthError::ChallengeRejected)));
    assert!(matches!(downstream_srp_proof("alice", "pässword"), Err(AuthError::ChallengeRejected)));
}

#[test]
fn world_session_proof_is_checked_against_the_sent_seed() {
    let key = [9u8; 40];
    let seed = session_seed();
    let (client_seed, proof, _) = world_session_answer("ALICE", key, seed.seed_value()).expect("answer");
    assert!(world_session_check("alice", key, seed, client_seed, proof).is_ok());
    let seed = session_seed();
    let (client_seed, proof, _) = world_session_answer("ALICE", key, seed.seed_value()).expect("answer");
    assert!(matches!(world_session_check("alice", [8u8; 40], seed, client_seed, proof), Err(AuthError::ProofRejected)));
    assert!(matches!(world_session_check("", key, session_seed(), 1, [0u8; 20]), Err(AuthError::ChallengeRejected)));
}
