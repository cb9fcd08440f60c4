//! Login data, realm selection and admission limits of the authentication front end.
use vstd::prelude::*;
use std::collections::BTreeMap;
use crate::text::{decimal, eq_ignore_case, push_decimal, str_contains_char, str_eq_ignore_case};
use vstd::string::StringSliceAdditionalSpecFns;
use wow_srp::client::SrpClientChallenge;
use wow_srp::normalized_string::NormalizedString;
use wow_srp::server::{SrpProof, SrpVerifier};
use wow_srp::wrath_header::{ClientCrypto, ProofSeed, ServerCrypto};
use crate::adapter::names::{to_uppercase, uppercase_of};
use crate::bytes::u32_bytes;
use crate::crypto::sha1_of;
use wow_srp::PublicKey;

verus! {

/// Who logged in downstream, and whether the account is one the proxy plays.
#[derive(Clone, Debug)]
pub struct LoginIdentity {
    pub account: String,
    pub configured: bool,
}

/// The credentials of a configured account.
#[derive(Clone, Debug)]
pub struct ConfiguredCredential {
    pub account: String,
    pub password: String,
}

/// A downstream client authenticated by the proxy, with the session key it agreed.
#[derive(Clone, Debug)]
pub struct AuthenticatedContext {
    pub account: String,
    pub session_key: [u8; 40],
}

/// Where to log in upstream, and which realm and world endpoint to use.
#[derive(Clone, Debug)]
pub struct UpstreamAuthConfig {
    pub host: String,
    pub port: u16,
    pub realm_name: String,
    pub world_host: String,
    pub world_port: u16,
    pub account: String,
}

/// The result of an upstream login.
#[derive(Clone, Debug)]
pub struct UpstreamLogin {
    pub session_key: [u8; 40],
    pub realm_id: u32,
    pub realm_name: String,
    pub world_host: String,
    pub world_port: u16,
}

/// Why authentication failed.
#[derive(Clone, Debug, PartialEq, Eq)]
pub enum AuthError {
    Timeout,
    Transport(String),
    ChallengeRejected,
    ProofRejected,
    RealmListFailed,
    RealmMissing(String),
}

/// A realm as the upstream realm list gives it.
#[derive(Clone, Debug, PartialEq, Eq)]
pub struct RealmEntry {
    pub id: u32,
    pub name: String,
    pub advertised_host: String,
    pub port: u16,
}

/// The realm the proxy routes to.
#[derive(Clone, Debug, PartialEq, Eq)]
pub struct RealmRoute {
    pub id: u32,
    pub name: String,
    pub host: String,
    pub port: u16,
}

/// The index of the first realm named `name` (ASCII case ignored).
pub open spec fn first_realm_named(realms: Seq<RealmEntry>, name: Seq<char>) -> Option<int> {
    if exists|i: int| 0 <= i < realms.len() && eq_ignore_case(#[trigger] realms[i].name@, name) {
        Some(choose|i: int| 0 <= i < realms.len() && eq_ignore_case(realms[i].name@, name)
            && forall|j: int| 0 <= j < i ==> !eq_ignore_case(#[trigger] realms[j].name@, name))
    } else {
        None
    }
}

/// What `format!` writes for a string with `{:?}`: the string in double quotes, with
/// escapes.
pub uninterp spec fn debug_quoted(s: Seq<char>) -> Seq<char>;

/// Writes a string with `format!("{:?}")`, whose text the contract names.
#[verifier::external_body]
fn debug_text(s: &str) -> (r: String)
    ensures
        r@ == debug_quoted(s@),
{
    format!("{s:?}")
}

/// The message of a realm that the upstream realm list did not return.
pub open spec fn realm_missing_message(name: Seq<char>) -> Seq<char> {
    "configured realm "@ + debug_quoted(name) + " was not returned upstream"@
}

/// Route to the first upstream realm named like the configured realm (ASCII case ignored),
/// at the configured host; the realm's advertised host is not used. Where no realm is named
/// so, the message says that the configured realm, quoted, was not returned.
pub fn select_realm(configured_name: &str, configured_host: &str, realms: &[RealmEntry]) -> (r: Result<RealmRoute, String>)
    ensures
        match first_realm_named(realms@, configured_name@) {
            Some(i) => r matches Ok(route) && route.id == realms@[i].id && route.name@ == realms@[i].name@
                && route.host@ == configured_host@ && route.port == realms@[i].port,
            None => r matches Err(m) && m@ == realm_missing_message(configured_name@),
        },
{
    let mut i: usize = 0;
    while i < realms.len()
        invariant
            i <= realms@.len(),
            forall|j: int| 0 <= j < i ==> !eq_ignore_case(#[trigger] realms@[j].name@, configured_name@),
        decreases realms@.len() - i,
    {
        if str_eq_ignore_case(realms[i].name.as_str(), configured_name) {
            proof {
                let k = choose|k: int| 0 <= k < realms@.len() && eq_ignore_case(realms@[k].name@, configured_name@)
                    && forall|j: int| 0 <= j < k ==> !eq_ignore_case(#[trigger] realms@[j].name@, configured_name@);
                if k < i {
                    assert(!eq_ignore_case(realms@[k].name@, configured_name@));
                }
                if k > i {
                    assert(!eq_ignore_case(realms@[i as int].name@, configured_name@));
                }
            }
            return Ok(RealmRoute {
                id: realms[i].id,
                name: realms[i].name.clone(),
                host: configured_host.to_owned(),
                port: realms[i].port,
            });
        }
        i = i + 1;
    }
    let quoted = debug_text(configured_name);
    let mut m = String::new();
    m.append("configured realm ");
    m.append(quoted.as_str());
    m.append(" was not returned upstream");
    assert(m@ =~= realm_missing_message(configured_name@));
    Err(m)
}

/// `host:port`, or `[host]:port` where `bracketed`.
pub open spec fn endpoint_of(host: Seq<char>, port: u16, bracketed: bool) -> Seq<char> {
    if bracketed {
        seq!['['] + host + seq![']', ':'] + decimal(port as nat)
    } else {
        host + seq![':'] + decimal(port as nat)
    }
}

/// A host and port as `host:port`, with the host in brackets where it holds a colon (an
/// IPv6 address).
pub fn format_endpoint(host: &str, port: u16) -> (r: String)
    ensures
        r@ == endpoint_of(host@, port, host@.contains(':')),
{
    let bracketed = str_contains_char(host, ':');
    let mut r = String::new();
    if bracketed {
        proof {
            reveal_strlit("[");
        }
        r.append("[");
    }
    r.append(host);
    if bracketed {
        proof {
            reveal_strlit("]");
        }
        r.append("]");
    }
    proof {
        reveal_strlit(":");
    }
    r.append(":");
    push_decimal(&mut r, port as u64);
    assert(r@ =~= endpoint_of(host@, port, bracketed));
    r
}

// ----- the SRP6 login answer -----

#[verifier::external_type_specification]
#[verifier::external_body]
pub struct ExNormalizedString(NormalizedString);

#[verifier::external_type_specification]
#[verifier::external_body]
pub struct ExPublicKey(PublicKey);

#[verifier::external_type_specification]
#[verifier::external_body]
pub struct ExSrpClientChallenge(SrpClientChallenge);

/// Whether a name or password can stand in an SRP6 login: one to sixteen characters, all of
/// them printable ASCII (no ASCII control character), so one to sixteen bytes.
pub open spec fn srp_text_allowed(s: Seq<char>) -> bool {
    &&& 1 <= s.len() <= 16
    &&& forall|i: int| 0 <= i < s.len() ==> 0x20 <= (#[trigger] s[i]) as u32 && (s[i] as u32) < 0x7F
}

/// The realm's large safe prime, little endian, as `wow_srp` holds it.
pub open spec fn srp_prime() -> Seq<u8> {
    seq![
        0xb7u8, 0x9b, 0x3e, 0x2a, 0x87, 0x82, 0x3c, 0xab, 0x8f, 0x5e, 0xbf, 0xbf, 0x8e, 0xb1, 0x01, 0x08,
        0x53, 0x50, 0x06, 0x29, 0x8b, 0x5b, 0xad, 0xbd, 0x5b, 0x53, 0xe1, 0x89, 0x5e, 0x64, 0x4b, 0x89,
    ]
}

/// Whether `wow_srp` accepts a server public key: some byte is neither zero nor the prime's
/// byte at its place (it is not zero and not the prime itself).
pub open spec fn srp_public_key_valid(key: Seq<u8>) -> bool {
    exists|i: int| 0 <= i < 32 && #[trigger] key[i] != 0 && key[i] != srp_prime()[i]
}

/// The number that little-endian bytes spell.
pub open spec fn le_value(s: Seq<u8>) -> nat
    decreases s.len(),
{
    if s.len() == 0 {
        0
    } else {
        s[0] as nat + 256 * le_value(s.subrange(1, s.len() as int))
    }
}

/// The greatest common divisor, by Euclid's algorithm.
pub open spec fn gcd(a: nat, b: nat) -> nat
    decreases b,
{
    if b == 0 { a } else { gcd(b, a % b) }
}

/// Whether a logon challenge's generator `g` and prime `N` (little endian) leave the SRP6
/// computation of `wow_srp` well defined: `g` is not zero, `N` is above one, and `g` and `N`
/// are coprime (their greatest common divisor is that of `g` and `N mod g`). Then the
/// client's public key `g^a mod N` is neither zero nor a multiple of `N`, and no power is
/// taken modulo zero.
pub open spec fn srp_parameters_usable(g: u8, prime: Seq<u8>) -> bool {
    g != 0 && le_value(prime) > 1 && gcd(g as nat, le_value(prime) % (g as nat)) == 1
}

proof fn lemma_le_value_step(s: Seq<u8>, i: int)
    requires
        0 < i <= s.len(),
    ensures
        le_value(s.subrange(i - 1, s.len() as int)) == s[i - 1] as nat + 256 * le_value(s.subrange(i, s.len() as int)),
{
    let t = s.subrange(i - 1, s.len() as int);
    assert(t.subrange(1, t.len() as int) =~= s.subrange(i, s.len() as int));
}

/// The little-endian number of `s`, modulo `m`.
fn le_mod(s: &[u8], m: u32) -> (r: u32)
    requires
        0 < m <= 256,
    ensures
        r == le_value(s@) % (m as nat),
{
    let mut r: u32 = 0;
    let mut i: usize = s.len();
    assert(s@.subrange(s@.len() as int, s@.len() as int) =~= Seq::<u8>::empty());
    assert(le_value(s@.subrange(s@.len() as int, s@.len() as int)) == 0);
    assert(0nat % (m as nat) == 0) by (nonlinear_arith)
        requires
            m > 0;
    while i > 0
        invariant
            i <= s@.len(),
            0 < m <= 256,
            r == le_value(s@.subrange(i as int, s@.len() as int)) % (m as nat),
        decreases i,
    {
        let ghost v: int = le_value(s@.subrange(i as int, s@.len() as int)) as int;
        proof {
            lemma_le_value_step(s@, i as int);
            vstd::arithmetic::div_mod::lemma_mul_mod_noop_right(256, v, m as int);
            vstd::arithmetic::div_mod::lemma_add_mod_noop(s@[i - 1] as int, 256 * v, m as int);
            vstd::arithmetic::div_mod::lemma_add_mod_noop(s@[i - 1] as int, 256 * (r as int), m as int);
        }
        r = (r * 256 + s[i - 1] as u32) % m;
        i = i - 1;
    }
    assert(s@.subrange(0, s@.len() as int) =~= s@);
    r
}

/// Whether the little-endian number of `s` is above one.
fn le_above_one(s: &[u8]) -> (r: bool)
    ensures
        r == (le_value(s@) > 1),
{
    let mut capped: u32 = 0;
    let mut i: usize = s.len();
    assert(s@.subrange(s@.len() as int, s@.len() as int) =~= Seq::<u8>::empty());
    while i > 0
        invariant
            i <= s@.len(),
            capped == (if le_value(s@.subrange(i as int, s@.len() as int)) >= 2 { 2 } else {
                le_value(s@.subrange(i as int, s@.len() as int))
            }),
        decreases i,
    {
        proof {
            lemma_le_value_step(s@, i as int);
        }
        let v = s[i - 1] as u32 + 256 * capped;
        capped = if v >= 2 { 2 } else { v };
        i = i - 1;
    }
    assert(s@.subrange(0, s@.len() as int) =~= s@);
    capped >= 2
}

fn gcd_exec(a: u32, b: u32) -> (r: u32)
    ensures
        r == gcd(a as nat, b as nat),
    decreases b,
{
    if b == 0 { a } else { gcd_exec(b, a % b) }
}

/// Whether a generator and prime leave the SRP6 computation well defined (see
/// [`srp_parameters_usable`]).
pub fn srp_parameters_check(generator: u8, prime: &[u8]) -> (r: bool)
    ensures
        r == srp_parameters_usable(generator, prime@),
{
    if generator == 0 || !le_above_one(prime) {
        return false;
    }
    let rest = le_mod(prime, generator as u32);
    gcd_exec(generator as u32, rest) == 1
}

/// A name or password as it stands in a login: the text, and `wow_srp`'s normalized form of
/// it, which only [`login_text`] makes.
pub struct LoginText {
    text: String,
    normalized: NormalizedString,
}

impl LoginText {
    /// The text the login text was made from.
    pub closed spec fn text(self) -> Seq<char> {
        self.text@
    }
}

/// A server public key: its bytes, and `wow_srp`'s checked form of them, which only
/// [`server_key`] makes.
pub struct ServerKey {
    bytes: [u8; 32],
    key: PublicKey,
}

impl ServerKey {
    /// The key's bytes.
    pub closed spec fn bytes(self) -> Seq<u8> {
        self.bytes@
    }
}

/// An SRP6 answer in progress: `wow_srp`'s challenge state, and the values it was made from.
pub struct SrpLogin {
    username: String,
    password: String,
    generator: u8,
    prime: [u8; 32],
    server_public_key: [u8; 32],
    salt: [u8; 32],
    challenge: SrpClientChallenge,
}

impl SrpLogin {
    /// The account name the answer was made for.
    pub closed spec fn username(self) -> Seq<char> {
        self.username@
    }

    /// The password the answer was made with.
    pub closed spec fn password(self) -> Seq<char> {
        self.password@
    }

    /// The challenge's generator.
    pub closed spec fn generator(self) -> u8 {
        self.generator
    }

    /// The challenge's prime, little endian.
    pub closed spec fn prime(self) -> Seq<u8> {
        self.prime@
    }

    /// The server's public key.
    pub closed spec fn server_public_key(self) -> Seq<u8> {
        self.server_public_key@
    }

    /// The challenge's salt.
    pub closed spec fn salt(self) -> Seq<u8> {
        self.salt@
    }
}

/// Calls `wow_srp::normalized_string::NormalizedString::new`, which accepts one to sixteen
/// bytes of ASCII without control characters (and upper-cases them); the text is kept
/// beside its normalized form.
#[verifier::external_body]
fn login_text(s: &str) -> (r: Option<LoginText>)
    ensures
        r is Some <==> srp_text_allowed(s@),
        r matches Some(t) ==> t.text() == s@,
{
    match NormalizedString::new(s) {
        Ok(normalized) => Some(LoginText { text: s.to_owned(), normalized }),
        Err(_) => None,
    }
}

/// Calls `wow_srp::PublicKey::from_le_bytes`, which refuses a key that is zero or the
/// large safe prime; the bytes are kept beside the checked key.
#[verifier::external_body]
fn server_key(bytes: [u8; 32]) -> (r: Option<ServerKey>)
    ensures
        r is Some <==> srp_public_key_valid(bytes@),
        r matches Some(k) ==> k.bytes() == bytes@,
{
    match PublicKey::from_le_bytes(bytes) {
        Ok(key) => Some(ServerKey { bytes, key }),
        Err(_) => None,
    }
}

/// Calls `wow_srp::client::SrpClientChallenge::new` with the normalized texts, the
/// generator, prime, checked server key and salt, and keeps those values beside the
/// challenge. The crate draws a random private key `a`; the public key, proof and session
/// key rest on it, so nothing more is stated of them. The crate panics where `g^a mod N`
/// is zero, and a zero modulus panics in its big-number arithmetic; `requires` leaves out
/// every generator and prime on which either can happen.
#[verifier::external_body]
fn srp_client_challenge(
    username: LoginText,
    password: LoginText,
    generator: u8,
    prime: [u8; 32],
    server_public_key: ServerKey,
    salt: [u8; 32],
) -> (r: SrpLogin)
    requires
        srp_parameters_usable(generator, prime@),
    ensures
        r.username() == username.text(),
        r.password() == password.text(),
        r.generator() == generator,
        r.prime() == prime@,
        r.server_public_key() == server_public_key.bytes(),
        r.salt() == salt@,
{
    let challenge = SrpClientChallenge::new(username.normalized, password.normalized, generator, prime, server_public_key.key, salt);
    let (username, password, server_public_key) = (username.text, password.text, server_public_key.bytes);
    SrpLogin { username, password, generator, prime, server_public_key, salt, challenge }
}

/// Calls `SrpClientChallenge::client_public_key`: the client's public key (`A`), little
/// endian. It rests on the random private key, so nothing is stated of it.
#[verifier::external_body]
pub fn srp_public_key_of(c: &SrpLogin) -> (r: [u8; 32]) {
    *c.challenge.client_public_key()
}

/// Calls `SrpClientChallenge::client_proof`: the client's proof (`M1`). It rests on the
/// random private key, so nothing is stated of it.
#[verifier::external_body]
pub fn srp_proof_of(c: &SrpLogin) -> (r: [u8; 20]) {
    *c.challenge.client_proof()
}

/// Calls `SrpClientChallenge::verify_server_proof` and takes the session key of the client
/// it gives; a server proof that does not match gives `ProofRejected`. Which proofs match
/// rests on the random private key and is not stated.
#[verifier::external_body]
pub fn srp_verify(c: SrpLogin, server_proof: [u8; 20]) -> (r: Result<[u8; 40], AuthError>)
    ensures
        r matches Err(e) ==> e == AuthError::ProofRejected,
{
    match c.challenge.verify_server_proof(server_proof) {
        Ok(client) => Ok(*client.session_key()),
        Err(_) => Err(AuthError::ProofRejected),
    }
}

/// The generator and prime of a logon challenge: the generator's first byte and the
/// 32-byte prime; `ChallengeRejected` where the generator is empty or the prime is not 32
/// bytes long.
pub fn logon_challenge_parameters(generator: &[u8], prime: &[u8]) -> (r: Result<(u8, [u8; 32]), AuthError>)
    ensures
        r is Ok <==> generator@.len() >= 1 && prime@.len() == 32,
        r matches Ok((g, p)) ==> g == generator@[0] && p@ == prime@,
        r matches Err(e) ==> e == AuthError::ChallengeRejected,
{
    if generator.len() < 1 || prime.len() != 32 {
        return Err(AuthError::ChallengeRejected);
    }
    let mut p = [0u8; 32];
    let mut i: usize = 0;
    while i < 32
        invariant
            i <= 32,
            prime@.len() == 32,
            forall|j: int| 0 <= j < i ==> p@[j] == prime@[j],
        decreases 32 - i,
    {
        p[i] = prime[i];
        i = i + 1;
    }
    assert(p@ =~= prime@);
    Ok((generator[0], p))
}

/// Answer the server's logon challenge for an account: the SRP6 answer made from the
/// account name, password, the generator's first byte, the prime, the server's public key
/// and the salt, from which the client's public key and proof are sent and the server's
/// proof is later checked. `ChallengeRejected` where the name or password cannot stand in
/// a login, the generator is empty, the prime is not 32 bytes long, the generator and prime
/// leave the computation undefined (a zero generator, a prime of zero or one, or the two
/// not coprime), or the server's public key is zero or the prime.
pub fn srp_challenge(
    username: &str,
    password: &str,
    generator: &[u8],
    prime: &[u8],
    server_public_key: [u8; 32],
    salt: [u8; 32],
) -> (r: Result<SrpLogin, AuthError>)
    ensures
        r is Ok <==> srp_text_allowed(username@) && srp_text_allowed(password@) && generator@.len() >= 1
            && prime@.len() == 32 && srp_parameters_usable(generator@[0], prime@)
            && srp_public_key_valid(server_public_key@),
        r matches Ok(l) ==> l.username() == username@ && l.password() == password@ && l.generator() == generator@[0]
            && l.prime() == prime@ && l.server_public_key() == server_public_key@ && l.salt() == salt@,
        r matches Err(e) ==> e == AuthError::ChallengeRejected,
{
    let (g, p) = match logon_challenge_parameters(generator, prime) {
        Ok(v) => v,
        Err(e) => return Err(e),
    };
    if !srp_parameters_check(g, &p) {
        return Err(AuthError::ChallengeRejected);
    }
    let name = match login_text(username) {
        Some(n) => n,
        None => return Err(AuthError::ChallengeRejected),
    };
    let secret = match login_text(password) {
        Some(n) => n,
        None => return Err(AuthError::ChallengeRejected),
    };
    let key = match server_key(server_public_key) {
        Some(k) => k,
        None => return Err(AuthError::ChallengeRejected),
    };
    Ok(srp_client_challenge(name, secret, g, p, key, salt))
}

// ----- the world session proof -----

#[verifier::external_type_specification]
#[verifier::external_body]
pub struct ExProofSeed(ProofSeed);

#[verifier::external_type_specification]
#[verifier::external_body]
pub struct ExClientCrypto(ClientCrypto);

#[verifier::external_type_specification]
#[verifier::external_body]
pub struct ExServerCrypto(ServerCrypto);

/// A seed of the world session's proof: its value, and `wow_srp`'s seed holding it, which
/// only [`session_seed`] makes. The server sends one in its challenge; the client answers
/// with its own.
pub struct SessionSeed {
    value: u32,
    seed: ProofSeed,
}

impl SessionSeed {
    /// The seed's value.
    pub closed spec fn value(self) -> u32 {
        self.value
    }

    /// The seed's value.
    pub fn seed_value(&self) -> (r: u32)
        ensures
            r == self.value(),
    {
        self.value
    }
}

/// The bytes of a login text as `wow_srp` normalizes it: ASCII letters upper-cased.
pub open spec fn normalized_bytes(account: Seq<char>) -> Seq<u8> {
    account.map_values(|c: char| (if 0x61 <= (c as u32) <= 0x7A { (c as u32) - 32 } else { c as u32 as int }) as u8)
}

/// The world-session proof for an account, a session key, the server's seed and the
/// client's seed: the SHA-1 digest of the normalized account, a zero 32-bit word, the
/// client's seed, the server's seed (both little endian) and the session key.
pub open spec fn world_proof_of(account: Seq<char>, session_key: Seq<u8>, server_seed: u32, client_seed: u32) -> Seq<u8> {
    sha1_of(normalized_bytes(account) + u32_bytes(0) + u32_bytes(client_seed) + u32_bytes(server_seed) + session_key)
}

/// Calls `wow_srp::wrath_header::ProofSeed::new`, a random seed, and keeps its value
/// (`ProofSeed::seed`) beside it. Nothing is stated of the random value.
#[verifier::external_body]
pub fn session_seed() -> (r: SessionSeed) {
    let seed = ProofSeed::new();
    SessionSeed { value: seed.seed(), seed }
}

/// Calls `ProofSeed::into_client_header_crypto`: the world-session proof of the account
/// for the session key, the server's seed and this client seed (see [`world_proof_of`]),
/// and the header ciphers keyed from the session key.
#[verifier::external_body]
fn client_header_crypto(seed: SessionSeed, account: &LoginText, session_key: [u8; 40], server_seed: u32) -> (r: ([u8; 20], ClientCrypto))
    ensures
        r.0@ == world_proof_of(account.text(), session_key@, server_seed, seed.value()),
{
    seed.seed.into_client_header_crypto(&account.normalized, session_key, server_seed)
}

/// Calls `ProofSeed::into_server_header_crypto`: the header ciphers keyed from the session
/// key where the client's proof is the world-session proof of the account for the session
/// key, this server seed and the client's seed (see [`world_proof_of`]); `None` otherwise.
#[verifier::external_body]
fn server_header_crypto(seed: SessionSeed, account: &LoginText, session_key: [u8; 40], client_proof: [u8; 20], client_seed: u32) -> (r: Option<ServerCrypto>)
    ensures
        r is Some <==> client_proof@ == world_proof_of(account.text(), session_key@, seed.value(), client_seed),
{
    seed.seed.into_server_header_crypto(&account.normalized, session_key, client_proof, client_seed).ok()
}

/// Answer a world server's authentication challenge for an account with the session key of
/// its login: a fresh client seed, the proof for the account, session key, server seed and
/// that client seed, and the header ciphers to use from then on; `ChallengeRejected` where
/// the account name cannot stand in a login.
pub fn world_session_answer(account: &str, session_key: [u8; 40], server_seed: u32) -> (r: Result<(u32, [u8; 20], ClientCrypto), AuthError>)
    ensures
        r is Ok <==> srp_text_allowed(account@),
        r matches Ok((client_seed, proof, _)) ==> proof@ == world_proof_of(account@, session_key@, server_seed, client_seed),
        r matches Err(e) ==> e == AuthError::ChallengeRejected,
{
    let name = match login_text(account) {
        Some(n) => n,
        None => return Err(AuthError::ChallengeRejected),
    };
    let seed = session_seed();
    let client_seed = seed.value;
    let (proof, crypto) = client_header_crypto(seed, &name, session_key, server_seed);
    Ok((client_seed, proof, crypto))
}

/// Check a player's world-session proof: the account (upper-cased, as the player's client
/// names it) must be able to stand in a login, and the client's proof must be the proof of
/// that account for the downstream session key, the seed the proxy sent and the client's
/// seed. The header ciphers for the player's connection where both hold;
/// `ChallengeRejected` where the name cannot stand in a login, `ProofRejected` where the
/// proof does not match.
pub fn world_session_check(
    account: &str,
    session_key: [u8; 40],
    server_seed: SessionSeed,
    client_seed: u32,
    client_proof: [u8; 20],
) -> (r: Result<ServerCrypto, AuthError>)
    ensures
        r is Ok <==> srp_text_allowed(uppercase_of(account@)) && client_proof@ == world_proof_of(
            uppercase_of(account@),
            session_key@,
            server_seed.value(),
            client_seed,
        ),
        r matches Err(e) ==> (e == AuthError::ChallengeRejected <==> !srp_text_allowed(uppercase_of(account@)))
            && (e == AuthError::ChallengeRejected || e == AuthError::ProofRejected),
{
    let upper = to_uppercase(account);
    let name = match login_text(upper.as_str()) {
        Some(n) => n,
        None => return Err(AuthError::ChallengeRejected),
    };
    match server_header_crypto(server_seed, &name, session_key, client_proof, client_seed) {
        Some(crypto) => Ok(crypto),
        None => Err(AuthError::ProofRejected),
    }
}

// ----- the downstream SRP6 server side -----

#[verifier::external_type_specification]
#[verifier::external_body]
pub struct ExSrpVerifier(SrpVerifier);

#[verifier::external_type_specification]
#[verifier::external_body]
pub struct ExSrpProof(SrpProof);

/// A password verifier of `wow_srp` with a random salt, and the texts it was made from,
/// which only [`srp_verifier`] makes.
pub struct PasswordVerifier {
    username: String,
    password: String,
    verifier: SrpVerifier,
}

impl PasswordVerifier {
    /// The account name.
    pub closed spec fn username(self) -> Seq<char> {
        self.username@
    }

    /// The password.
    pub closed spec fn password(self) -> Seq<char> {
        self.password@
    }
}

/// The server's side of an SRP6 login in progress: `wow_srp`'s proof state, the account
/// name and password it was made from, and the server's public key and salt to send in the
/// logon challenge.
pub struct ServerProof {
    username: String,
    password: String,
    server_public_key: [u8; 32],
    salt: [u8; 32],
    proof: SrpProof,
}

impl ServerProof {
    /// The account name.
    pub closed spec fn username(self) -> Seq<char> {
        self.username@
    }

    /// The password.
    pub closed spec fn password(self) -> Seq<char> {
        self.password@
    }

    /// The server's public key, to send in the logon challenge.
    pub closed spec fn server_public_key(self) -> Seq<u8> {
        self.server_public_key@
    }

    /// The server's public key, to send in the logon challenge.
    pub fn public_key(&self) -> (r: [u8; 32])
        ensures
            r@ == self.server_public_key(),
    {
        self.server_public_key
    }

    /// The salt, to send in the logon challenge.
    pub closed spec fn salt_bytes(self) -> Seq<u8> {
        self.salt@
    }

    /// The salt, to send in the logon challenge.
    pub fn salt(&self) -> (r: [u8; 32])
        ensures
            r@ == self.salt_bytes(),
    {
        self.salt
    }
}

/// Calls `wow_srp::server::SrpVerifier::from_username_and_password` with the normalized
/// texts, and keeps the texts beside the verifier. The salt it draws is random, so nothing
/// more is stated.
#[verifier::external_body]
fn srp_verifier(username: LoginText, password: LoginText) -> (r: PasswordVerifier)
    ensures
        r.username() == username.text(),
        r.password() == password.text(),
{
    let verifier = SrpVerifier::from_username_and_password(username.normalized, password.normalized);
    PasswordVerifier { username: username.text, password: password.text, verifier }
}

/// Calls `SrpVerifier::into_proof`, which draws a random private key, and keeps the
/// server's public key and salt (`SrpProof::server_public_key`, `SrpProof::salt`) beside
/// the proof. The crate checks that the public key is valid (it panics otherwise, which
/// rests on its random number generator and is not excluded here); the key and salt are
/// otherwise random.
#[verifier::external_body]
fn srp_server_proof(v: PasswordVerifier) -> (r: ServerProof)
    ensures
        r.username() == v.username(),
        r.password() == v.password(),
        srp_public_key_valid(r.server_public_key()),
{
    let proof = v.verifier.into_proof();
    let (server_public_key, salt) = (*proof.server_public_key(), *proof.salt());
    ServerProof { username: v.username, password: v.password, server_public_key, salt, proof }
}

/// Calls `SrpProof::into_server` with the client's checked public key and proof: the
/// session key (`SrpServer::session_key`) and the server's proof where the client's proof
/// matches, `ProofRejected` otherwise. Which proofs match rests on the random keys and is
/// not stated.
#[verifier::external_body]
fn srp_into_server(p: ServerProof, client_public_key: ServerKey, client_proof: [u8; 20]) -> (r: Result<([u8; 40], [u8; 20]), AuthError>)
    ensures
        r matches Err(e) ==> e == AuthError::ProofRejected,
{
    match p.proof.into_server(client_public_key.key, client_proof) {
        Ok((server, proof)) => Ok((*server.session_key(), proof)),
        Err(_) => Err(AuthError::ProofRejected),
    }
}

/// The server's side of the SRP6 login of a configured account, for the player's client:
/// the account name upper-cased, and the account's password, make a verifier with a random
/// salt and a proof state with a random key, whose public key and salt go to the client.
/// `ChallengeRejected` where the upper-cased name or the password cannot stand in a login.
pub fn downstream_srp_proof(account: &str, password: &str) -> (r: Result<ServerProof, AuthError>)
    ensures
        r is Ok <==> srp_text_allowed(uppercase_of(account@)) && srp_text_allowed(password@),
        r matches Ok(p) ==> p.username() == uppercase_of(account@) && p.password() == password@
            && srp_public_key_valid(p.server_public_key()),
        r matches Err(e) ==> e == AuthError::ChallengeRejected,
{
    let upper = to_uppercase(account);
    let name = match login_text(upper.as_str()) {
        Some(n) => n,
        None => return Err(AuthError::ChallengeRejected),
    };
    let secret = match login_text(password) {
        Some(n) => n,
        None => return Err(AuthError::ChallengeRejected),
    };
    Ok(srp_server_proof(srp_verifier(name, secret)))
}

/// Check the client's answer to the downstream logon challenge: its public key must be
/// valid (`ChallengeRejected` otherwise) and its proof must match (`ProofRejected`
/// otherwise). The session key and the server's proof to send back where both hold.
pub fn downstream_srp_verify(p: ServerProof, client_public_key: [u8; 32], client_proof: [u8; 20]) -> (r: Result<([u8; 40], [u8; 20]), AuthError>)
    ensures
        !srp_public_key_valid(client_public_key@) ==> r == Err::<([u8; 40], [u8; 20]), AuthError>(AuthError::ChallengeRejected),
        srp_public_key_valid(client_public_key@) ==> (r matches Err(e) ==> e == AuthError::ProofRejected),
{
    let key = match server_key(client_public_key) {
        Some(k) => k,
        None => return Err(AuthError::ChallengeRejected),
    };
    srp_into_server(p, key, client_proof)
}

/// Limits on connections that have not yet authenticated.
#[derive(Clone, Copy, Debug, PartialEq, Eq, Structural)]
pub struct AdmissionLimits {
    pub max_total: usize,
    pub max_per_ip: usize,
}

impl AdmissionLimits {
    /// 128 in all, 16 per address.
    pub fn default() -> (r: Self)
        ensures
            r.max_total == 128,
            r.max_per_ip == 16,
    {
        AdmissionLimits { max_total: 128, max_per_ip: 16 }
    }
}

/// Why a connection was not admitted before authentication.
#[derive(Clone, Copy, Debug, PartialEq, Eq, Structural)]
pub enum AdmissionRefusal {
    /// As many connections as the total limit allows are waiting to authenticate.
    GlobalLimit,
    /// As many connections from the address as the per-address limit allows are waiting.
    PerIpLimit,
}

impl AdmissionRefusal {
    /// The refusal as text.
    pub fn message(&self) -> (r: &'static str)
        ensures
            r@ == (match *self {
                AdmissionRefusal::GlobalLimit => "global pre-authentication limit reached"@,
                AdmissionRefusal::PerIpLimit => "per-IP pre-authentication limit reached"@,
            }),
    {
        match self {
            AdmissionRefusal::GlobalLimit => "global pre-authentication limit reached",
            AdmissionRefusal::PerIpLimit => "per-IP pre-authentication limit reached",
        }
    }
}

/// The admission of one connection, to give back when it authenticated or closed.
#[derive(Debug, PartialEq, Eq, Structural)]
pub struct AdmissionPermit {
    ip: u128,
}

impl AdmissionPermit {
    /// The address (an IPv4 address as its IPv4-mapped IPv6 value) the permit is for.
    pub fn ip(&self) -> (r: u128)
        ensures
            r == self.address(),
    {
        self.ip
    }

    /// The address the permit is for.
    pub closed spec fn address(self) -> u128 {
        self.ip
    }
}

/// Connections waiting to authenticate: how many in all and how many per address (an
/// IPv4 address as its IPv4-mapped IPv6 value), against the limits.
#[derive(Debug)]
pub struct AdmissionController {
    max_total: usize,
    per_ip_limit: usize,
    total: usize,
    per_ip: BTreeMap<u128, usize>,
}

/// The admission state as values.
pub struct AdmissionView {
    pub max_total: usize,
    pub per_ip_limit: usize,
    pub total: usize,
    pub per_ip: Map<u128, usize>,
}

/// The count of an address: the entry, 0 where there is none.
pub open spec fn count_of(per_ip: Map<u128, usize>, ip: u128) -> usize {
    if per_ip.contains_key(ip) { per_ip[ip] } else { 0 }
}

impl View for AdmissionController {
    type V = AdmissionView;

    closed spec fn view(&self) -> AdmissionView {
        AdmissionView { max_total: self.max_total, per_ip_limit: self.per_ip_limit, total: self.total, per_ip: self.per_ip@ }
    }
}

/// Whether an admission state keeps its limits: no more connections in all than the total
/// limit, and every address it lists with between one and the per-address limit.
pub open spec fn admission_wf(v: AdmissionView) -> bool {
    &&& v.total <= v.max_total
    &&& forall|ip: u128| #[trigger] v.per_ip.contains_key(ip) ==> 1 <= v.per_ip[ip] <= v.per_ip_limit
}

/// What asking for an admission for an address does: refused where the total or the
/// address is at its limit (nothing changes), else one more connection in all and for the
/// address.
pub open spec fn acquire_spec(v: AdmissionView, ip: u128) -> (AdmissionView, Result<u128, AdmissionRefusal>) {
    if v.total >= v.max_total {
        (v, Err(AdmissionRefusal::GlobalLimit))
    } else if count_of(v.per_ip, ip) >= v.per_ip_limit {
        (v, Err(AdmissionRefusal::PerIpLimit))
    } else {
        (
            AdmissionView { total: (v.total + 1) as usize, per_ip: v.per_ip.insert(ip, (count_of(v.per_ip, ip) + 1) as usize), ..v },
            Ok(ip),
        )
    }
}

/// What giving an admission back does: one connection fewer in all and for its address
/// (never below zero), and an address with none left is no longer listed.
pub open spec fn release_spec(v: AdmissionView, ip: u128) -> AdmissionView {
    let total = if v.total > 0 { (v.total - 1) as usize } else { 0usize };
    let per_ip = if v.per_ip.contains_key(ip) {
        if v.per_ip[ip] <= 1 { v.per_ip.remove(ip) } else { v.per_ip.insert(ip, (v.per_ip[ip] - 1) as usize) }
    } else {
        v.per_ip
    };
    AdmissionView { total, per_ip, ..v }
}

impl AdmissionController {
    /// No connection waiting, under the given limits.
    pub fn new(limits: AdmissionLimits) -> (r: Self)
        ensures
            r@ == (AdmissionView { max_total: limits.max_total, per_ip_limit: limits.max_per_ip, total: 0, per_ip: Map::empty() }),
            admission_wf(r@),
    {
        AdmissionController { max_total: limits.max_total, per_ip_limit: limits.max_per_ip, total: 0, per_ip: BTreeMap::new() }
    }

    /// Admit a connection from an address, or say why not (see [`acquire_spec`]).
    pub fn try_acquire(&mut self, ip: u128) -> (r: Result<AdmissionPermit, AdmissionRefusal>)
        ensures
            final(self)@ == acquire_spec(old(self)@, ip).0,
            match (r, acquire_spec(old(self)@, ip).1) {
                (Ok(p), Ok(a)) => p.address() == a,
                (Err(e), Err(f)) => e == f,
                _ => false,
            },
    {
        if self.total >= self.max_total {
            return Err(AdmissionRefusal::GlobalLimit);
        }
        let count = match self.per_ip.get(&ip) {
            Some(c) => *c,
            None => 0,
        };
        if count >= self.per_ip_limit {
            return Err(AdmissionRefusal::PerIpLimit);
        }
        self.total = self.total + 1;
        self.per_ip.insert(ip, count + 1);
        Ok(AdmissionPermit { ip })
    }

    /// Give an admission back (see [`release_spec`]).
    pub fn release(&mut self, permit: AdmissionPermit)
        ensures
            final(self)@ == release_spec(old(self)@, permit.address()),
    {
        let ip = permit.ip;
        if self.total > 0 {
            self.total = self.total - 1;
        }
        let count = match self.per_ip.get(&ip) {
            Some(c) => Some(*c),
            None => None,
        };
        match count {
            Some(c) => {
                if c <= 1 {
                    self.per_ip.remove(&ip);
                } else {
                    self.per_ip.insert(ip, c - 1);
                }
            },
            None => {},
        }
    }

    /// How many connections wait in all.
    pub fn total(&self) -> (r: usize)
        ensures
            r == self@.total,
    {
        self.total
    }

    /// How many connections wait from an address.
    pub fn count(&self, ip: u128) -> (r: usize)
        ensures
            r == count_of(self@.per_ip, ip),
    {
        match self.per_ip.get(&ip) {
            Some(c) => *c,
            None => 0,
        }
    }
}

/// Admission keeps its limits: from a state within them, asking for an admission or giving
/// one back leaves a state within them.
pub proof fn law_admission_keeps_limits(v: AdmissionView, ip: u128)
    requires
        admission_wf(v),
    ensures
        admission_wf(acquire_spec(v, ip).0),
        admission_wf(release_spec(v, ip)),
{
}

/// Giving back the admission just granted restores the state before it.
pub proof fn law_release_undoes_acquire(v: AdmissionView, ip: u128)
    requires
        admission_wf(v),
        acquire_spec(v, ip).1 is Ok,
    ensures
        release_spec(acquire_spec(v, ip).0, ip) == v,
{
    let w = acquire_spec(v, ip).0;
    if v.per_ip.contains_key(ip) {
        assert(w.per_ip.insert(ip, v.per_ip[ip]) =~= v.per_ip);
    } else {
        assert(w.per_ip.remove(ip) =~= v.per_ip);
    }
}


} // verus!
