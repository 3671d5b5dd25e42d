//! Windows Hello consent and the authentication token that the client
//! attaches to a request for the audit trail.
//!
//! Token layout: version (4 bytes), timestamp (8), user SID length (4),
//! user SID, machine name length (4), machine name, nonce (16 random bytes
//! drawn by the caller), then the
//! HMAC-SHA256 signature (32) of everything before it. All integers are
//! little-endian.

use vstd::prelude::*;
use vstd::string::*;
use crate::crypto::{hmac_sha256, hmac_sha256_tag, hmac_sha256_verify, sha256, sha256_digest};
use crate::framing::{append_bytes, le_bytes, u32_le};

verus! {

/// Version of the token layout.
pub const TOKEN_VERSION: u32 = 1;

/// Length of the signature at the end of a token.
pub const SIGNATURE_LEN: usize = 32;

/// Shortest token: version, timestamp, both lengths, nonce and signature.
pub const MIN_TOKEN_LEN: usize = 68;

/// Prompt shown when no message is given.
pub const DEFAULT_PROMPT: &'static str = "Authenticate to run elevated command";

/// Windows Hello authenticator.
pub struct HelloAuthenticator {
    message: String,
}

impl HelloAuthenticator {
    /// The prompt shown to the user.
    pub closed spec fn prompt(self) -> Seq<char> {
        self.message@
    }

    /// An authenticator that shows `message`.
    pub fn new(message: &str) -> (a: Self)
        ensures
            a.prompt() == message@,
    {
        HelloAuthenticator { message: String::from_str(message) }
    }

    /// An authenticator that shows the default prompt.
    pub fn default_message() -> (a: Self)
        ensures
            a.prompt() == DEFAULT_PROMPT@,
    {
        Self::new(DEFAULT_PROMPT)
    }

    /// The prompt shown to the user.
    pub fn message(&self) -> (m: &str)
        ensures
            m@ == self.prompt(),
    {
        self.message.as_str()
    }

    /// The authenticator for an optional prompt: the default one when none is given.
    pub fn for_message(message: Option<&str>) -> (a: Self)
        ensures
            a.prompt() == (match message {
                Some(m) => m@,
                None => DEFAULT_PROMPT@,
            }),
    {
        match message {
            Some(m) => Self::new(m),
            None => Self::default_message(),
        }
    }
}

impl Default for HelloAuthenticator {
    fn default() -> (a: Self)
        ensures
            a.prompt() == DEFAULT_PROMPT@,
    {
        Self::default_message()
    }
}

/// The outcome of a Windows Hello consent request.
#[derive(Debug, Clone, Copy, PartialEq, Eq, Structural)]
pub enum ConsentResult {
    Verified,
    DeviceNotPresent,
    NotConfiguredForUser,
    DisabledByPolicy,
    DeviceBusy,
    RetriesExhausted,
    Canceled,
    /// Any other outcome.
    Other,
}

/// Why consent failed, or `None` when the user was verified.
pub open spec fn consent_failure(r: ConsentResult) -> Option<Seq<char>> {
    match r {
        ConsentResult::Verified => None,
        ConsentResult::DeviceNotPresent => Some("No biometric device found on this system"@),
        ConsentResult::NotConfiguredForUser => Some(
            "Windows Hello is not configured for this user.\nPlease set up Windows Hello in Settings \u{2192} Accounts \u{2192} Sign-in options"@,
        ),
        ConsentResult::DisabledByPolicy => Some("Windows Hello is disabled by policy"@),
        ConsentResult::DeviceBusy => Some("Biometric device is busy. Please try again"@),
        ConsentResult::RetriesExhausted => Some("Too many failed authentication attempts"@),
        ConsentResult::Canceled => Some("Authentication was canceled by the user"@),
        ConsentResult::Other => Some("Windows Hello authentication failed"@),
    }
}

/// Decides a consent outcome: `Ok` when the user was verified (a token is
/// then issued), else the message that explains the refusal.
pub fn check_consent(r: ConsentResult) -> (out: Result<(), String>)
    ensures
        match out {
            Ok(()) => consent_failure(r) is None,
            Err(m) => consent_failure(r) == Some(m@),
        },
{
    match r {
        ConsentResult::Verified => Ok(()),
        ConsentResult::DeviceNotPresent => Err(String::from_str("No biometric device found on this system")),
        ConsentResult::NotConfiguredForUser => Err(String::from_str(
            "Windows Hello is not configured for this user.\nPlease set up Windows Hello in Settings \u{2192} Accounts \u{2192} Sign-in options",
        )),
        ConsentResult::DisabledByPolicy => Err(String::from_str("Windows Hello is disabled by policy")),
        ConsentResult::DeviceBusy => Err(String::from_str("Biometric device is busy. Please try again")),
        ConsentResult::RetriesExhausted => Err(String::from_str("Too many failed authentication attempts")),
        ConsentResult::Canceled => Err(String::from_str("Authentication was canceled by the user")),
        ConsentResult::Other => Err(String::from_str("Windows Hello authentication failed")),
    }
}

/// The eight little-endian bytes of `v`.
pub open spec fn le_bytes64(v: u64) -> Seq<u8> {
    seq![
        (v & 0xff) as u8,
        ((v >> 8) & 0xff) as u8,
        ((v >> 16) & 0xff) as u8,
        ((v >> 24) & 0xff) as u8,
        ((v >> 32) & 0xff) as u8,
        ((v >> 40) & 0xff) as u8,
        ((v >> 48) & 0xff) as u8,
        ((v >> 56) & 0xff) as u8,
    ]
}

/// The signed part of a token; `nonce` is the 16 random bytes drawn for it.
pub open spec fn token_body(timestamp: u64, sid: Seq<u8>, machine: Seq<u8>, nonce: Seq<u8>) -> Seq<u8> {
    le_bytes(TOKEN_VERSION) + le_bytes64(timestamp) + le_bytes(sid.len() as u32) + sid + le_bytes(
        machine.len() as u32,
    ) + machine + nonce
}

/// A token: its body followed by the body's HMAC-SHA256 under `key`.
pub open spec fn auth_token(timestamp: u64, sid: Seq<u8>, machine: Seq<u8>, nonce: Seq<u8>, key: Seq<u8>) -> Seq<u8> {
    token_body(timestamp, sid, machine, nonce) + hmac_sha256(key, token_body(timestamp, sid, machine, nonce))
}

/// The key that signs tokens: SHA-256 of a fixed prefix, the machine GUID
/// and a fixed suffix.
pub open spec fn token_key(machine_guid: Seq<u8>) -> Seq<u8> {
    sha256("SUDO_AP_BROKER_V1".spec_bytes() + machine_guid + "HELLO_AUTH_TOKEN_KEY".spec_bytes())
}

/// Whether `token` is long enough and its last 32 bytes are the HMAC-SHA256
/// of the rest under `key`.
pub open spec fn token_verifies(token: Seq<u8>, key: Seq<u8>) -> bool {
    &&& token.len() >= MIN_TOKEN_LEN
    &&& token.subrange(token.len() - SIGNATURE_LEN, token.len() as int) == hmac_sha256(
        key,
        token.subrange(0, token.len() - SIGNATURE_LEN),
    )
}

fn u64_le(v: u64) -> (b: [u8; 8])
    ensures
        b@ == le_bytes64(v),
{
    let b = [
        (v & 0xff) as u8,
        ((v >> 8) & 0xff) as u8,
        ((v >> 16) & 0xff) as u8,
        ((v >> 24) & 0xff) as u8,
        ((v >> 32) & 0xff) as u8,
        ((v >> 40) & 0xff) as u8,
        ((v >> 48) & 0xff) as u8,
        ((v >> 56) & 0xff) as u8,
    ];
    assert(b@ =~= le_bytes64(v));
    b
}

/// Derives the token key from the machine GUID.
pub fn derive_hmac_key(machine_guid: &str) -> (k: Vec<u8>)
    ensures
        k@ == token_key(machine_guid.spec_bytes()),
        k@.len() == 32,
{
    let mut input: Vec<u8> = Vec::new();
    append_bytes(&mut input, "SUDO_AP_BROKER_V1".as_bytes());
    append_bytes(&mut input, machine_guid.as_bytes());
    append_bytes(&mut input, "HELLO_AUTH_TOKEN_KEY".as_bytes());
    sha256_digest(input.as_slice())
}

/// Builds and signs a token.
pub fn build_auth_token(timestamp: u64, user_sid: &[u8], machine_name: &[u8], nonce: &[u8; 16], key: &[u8]) -> (t: Vec<u8>)
    ensures
        t@ == auth_token(timestamp, user_sid@, machine_name@, nonce@, key@),
        hmac_sha256(key@, token_body(timestamp, user_sid@, machine_name@, nonce@)).len() == SIGNATURE_LEN,
{
    let sid_len = user_sid.len();
    let machine_len = machine_name.len();
    let mut t: Vec<u8> = Vec::new();
    append_bytes(&mut t, &u32_le(TOKEN_VERSION));
    append_bytes(&mut t, &u64_le(timestamp));
    append_bytes(&mut t, &u32_le(sid_len as u32));
    append_bytes(&mut t, user_sid);
    append_bytes(&mut t, &u32_le(machine_len as u32));
    append_bytes(&mut t, machine_name);
    append_bytes(&mut t, nonce);
    proof {
        let body = token_body(timestamp, user_sid@, machine_name@, nonce@);
        assert(t@ =~= body);
    }
    let signature = hmac_sha256_tag(key, t.as_slice());
    append_bytes(&mut t, signature.as_slice());
    t
}

/// Generates a token from the time, 16 random bytes drawn by the caller and
/// what the system reported: a probe that failed is replaced by `UNKNOWN_SID`, `UNKNOWN_MACHINE` or `DEFAULT_MACHINE_GUID`.
pub fn generate_auth_token(
    timestamp: u64,
    nonce: [u8; 16],
    user_sid: Option<Vec<u8>>,
    machine_name: Option<String>,
    machine_guid: Option<String>,
) -> (t: Vec<u8>)
    ensures
        ({
            let sid = match user_sid {
                Some(v) => v@,
                None => "UNKNOWN_SID".spec_bytes(),
            };
            let machine = match machine_name {
                Some(m) => m@,
                None => "UNKNOWN_MACHINE"@,
            };
            let guid = match machine_guid {
                Some(g) => g@,
                None => "DEFAULT_MACHINE_GUID"@,
            };
            let key = token_key(crate::utf8_of(guid));
            &&& t@ == auth_token(timestamp, sid, crate::utf8_of(machine), nonce@, key)
            &&& hmac_sha256(key, token_body(timestamp, sid, crate::utf8_of(machine), nonce@)).len()
                == SIGNATURE_LEN
        }),
{
    let sid: Vec<u8> = match user_sid {
        Some(v) => v,
        None => slice_to_vec_u8("UNKNOWN_SID".as_bytes()),
    };
    let machine: String = match machine_name {
        Some(m) => m,
        None => String::from_str("UNKNOWN_MACHINE"),
    };
    let guid: String = match machine_guid {
        Some(g) => g,
        None => String::from_str("DEFAULT_MACHINE_GUID"),
    };
    let key = derive_hmac_key(guid.as_str());
    build_auth_token(timestamp, sid.as_slice(), machine.as_str().as_bytes(), &nonce, key.as_slice())
}

fn slice_to_vec_u8(s: &[u8]) -> (v: Vec<u8>)
    ensures
        v@ == s@,
{
    let mut v: Vec<u8> = Vec::new();
    append_bytes(&mut v, s);
    v
}

/// Checks a token's signature with the key of `machine_guid`
/// (`DEFAULT_MACHINE_GUID` when the GUID could not be read). A token shorter
/// than `MIN_TOKEN_LEN` is refused; the answer is never an error.
pub fn verify_auth_token(token: &[u8], machine_guid: Option<&str>) -> (r: Result<bool, String>)
    ensures
        r == Ok::<bool, String>(
            token_verifies(
                token@,
                token_key(
                    crate::utf8_of(
                        match machine_guid {
                            Some(g) => g@,
                            None => "DEFAULT_MACHINE_GUID"@,
                        },
                    ),
                ),
            ),
        ),
{
    if token.len() < MIN_TOKEN_LEN {
        return Ok(false);
    }
    let (data, signature) = token.split_at(token.len() - SIGNATURE_LEN);
    let guid: &str = match machine_guid {
        Some(g) => g,
        None => "DEFAULT_MACHINE_GUID",
    };
    let key = derive_hmac_key(guid);
    Ok(hmac_sha256_verify(key.as_slice(), data, signature))
}

/// A token signed with a key verifies with that key; it is 68 bytes longer
/// than the SID and machine name it carries, and starts with the layout version.
pub proof fn lemma_token_verifies(timestamp: u64, sid: Seq<u8>, machine: Seq<u8>, nonce: Seq<u8>, key: Seq<u8>)
    requires
        nonce.len() == 16,
        hmac_sha256(key, token_body(timestamp, sid, machine, nonce)).len() == SIGNATURE_LEN,
    ensures
        token_verifies(auth_token(timestamp, sid, machine, nonce, key), key),
        auth_token(timestamp, sid, machine, nonce, key).len() == MIN_TOKEN_LEN + sid.len() + machine.len(),
        auth_token(timestamp, sid, machine, nonce, key).subrange(0, 4) == le_bytes(TOKEN_VERSION),
{
    let body = token_body(timestamp, sid, machine, nonce);
    let t = auth_token(timestamp, sid, machine, nonce, key);
    assert(t.subrange(0, t.len() - SIGNATURE_LEN) =~= body);
    assert(t.subrange(t.len() - SIGNATURE_LEN, t.len() as int) =~= hmac_sha256(key, body));
    assert(t.subrange(0, 4) =~= le_bytes(TOKEN_VERSION));
}

/// A signed token whose signature was altered, the rest kept, no longer verifies.
pub proof fn lemma_tampered_token_fails(
    timestamp: u64,
    sid: Seq<u8>,
    machine: Seq<u8>,
    nonce: Seq<u8>,
    key: Seq<u8>,
    tampered: Seq<u8>,
)
    requires
        nonce.len() == 16,
        hmac_sha256(key, token_body(timestamp, sid, machine, nonce)).len() == SIGNATURE_LEN,
        tampered.len() == auth_token(timestamp, sid, machine, nonce, key).len(),
        tampered.subrange(0, tampered.len() - SIGNATURE_LEN) == auth_token(timestamp, sid, machine, nonce, key).subrange(0, tampered.len() - SIGNATURE_LEN),
        tampered != auth_token(timestamp, sid, machine, nonce, key),
    ensures
        !token_verifies(tampered, key),
{
    let t = auth_token(timestamp, sid, machine, nonce, key);
    lemma_token_verifies(timestamp, sid, machine, nonce, key);
    if token_verifies(tampered, key) {
        assert(tampered.subrange(tampered.len() - SIGNATURE_LEN, tampered.len() as int) == t.subrange(t.len() - SIGNATURE_LEN, t.len() as int));
        assert(tampered =~= t.subrange(0, t.len() - SIGNATURE_LEN) + t.subrange(t.len() - SIGNATURE_LEN, t.len() as int));
        assert(t =~= t.subrange(0, t.len() - SIGNATURE_LEN) + t.subrange(t.len() - SIGNATURE_LEN, t.len() as int));
    }
}

/// Tokens drawn with different nonces differ, whatever else they share.
pub proof fn lemma_distinct_nonces_distinct_tokens(
    timestamp: u64,
    sid: Seq<u8>,
    machine: Seq<u8>,
    nonce1: Seq<u8>,
    nonce2: Seq<u8>,
    key: Seq<u8>,
)
    requires
        nonce1.len() == 16,
        nonce2.len() == 16,
        nonce1 != nonce2,
    ensures
        auth_token(timestamp, sid, machine, nonce1, key) != auth_token(timestamp, sid, machine, nonce2, key),
{
    let b1 = token_body(timestamp, sid, machine, nonce1);
    let b2 = token_body(timestamp, sid, machine, nonce2);
    let t1 = auth_token(timestamp, sid, machine, nonce1, key);
    let t2 = auth_token(timestamp, sid, machine, nonce2, key);
    let n = b1.len() - 16;
    if t1 == t2 {
        assert(t1.subrange(0, b1.len() as int) =~= b1);
        assert(t2.subrange(0, b2.len() as int) =~= b2);
        assert(b1.subrange(n, n + 16) =~= nonce1);
        assert(b2.subrange(n, n + 16) =~= nonce2);
    }
}


/// The number that little-endian bytes stand for: byte `i` weighs `256^i`.
pub open spec fn le_number(b: Seq<u8>) -> nat
    decreases b.len(),
{
    if b.len() == 0 {
        0
    } else {
        b[0] as nat + 256 * le_number(b.drop_first())
    }
}

/// Eight bytes read as a little-endian number.
proof fn lemma_le_number_eight(b: Seq<u8>)
    requires
        b.len() == 8,
    ensures
        le_number(b) == b[0] as nat + 0x100 * (b[1] as nat) + 0x1_0000 * (b[2] as nat) + 0x100_0000 * (b[3] as nat)
            + 0x1_0000_0000 * (b[4] as nat) + 0x100_0000_0000 * (b[5] as nat) + 0x1_0000_0000_0000 * (b[6] as nat)
            + 0x100_0000_0000_0000 * (b[7] as nat),
{
    reveal_with_fuel(le_number, 9);
    let s1 = b.drop_first();
    let s2 = s1.drop_first();
    let s3 = s2.drop_first();
    let s4 = s3.drop_first();
    let s5 = s4.drop_first();
    let s6 = s5.drop_first();
    let s7 = s6.drop_first();
    let s8 = s7.drop_first();
    assert(s8.len() == 0);
    assert(le_number(s7) == b[7] as nat);
    assert(le_number(s6) == b[6] as nat + 256 * (b[7] as nat));
    assert(le_number(s5) == b[5] as nat + 256 * le_number(s6));
    assert(le_number(s4) == b[4] as nat + 256 * le_number(s5));
    assert(le_number(s3) == b[3] as nat + 256 * le_number(s4));
    assert(le_number(s2) == b[2] as nat + 256 * le_number(s3));
    assert(le_number(s1) == b[1] as nat + 256 * le_number(s2));
}

/// A token carries its timestamp whole: bytes 4 to 12, read as a
/// little-endian number, give back the timestamp it was made with, for
/// every timestamp.
pub proof fn lemma_token_timestamp(timestamp: u64, sid: Seq<u8>, machine: Seq<u8>, nonce: Seq<u8>, key: Seq<u8>)
    ensures
        auth_token(timestamp, sid, machine, nonce, key).len() >= 12,
        le_number(auth_token(timestamp, sid, machine, nonce, key).subrange(4, 12)) == timestamp,
{
    let t = auth_token(timestamp, sid, machine, nonce, key);
    let f = t.subrange(4, 12);
    assert(f =~= le_bytes64(timestamp));
    lemma_le_number_eight(f);
    let v = timestamp;
    assert(v == (v & 0xff) + 0x100 * ((v >> 8) & 0xff) + 0x1_0000 * ((v >> 16) & 0xff) + 0x100_0000 * ((v >> 24)
        & 0xff) + 0x1_0000_0000 * ((v >> 32) & 0xff) + 0x100_0000_0000 * ((v >> 40) & 0xff) + 0x1_0000_0000_0000 * ((v
        >> 48) & 0xff) + 0x100_0000_0000_0000 * ((v >> 56) & 0xff)) by (bit_vector);
    assert(((v & 0xff) as u8) as nat == (v & 0xff)) by (bit_vector);
    assert((((v >> 8) & 0xff) as u8) as nat == ((v >> 8) & 0xff)) by (bit_vector);
    assert((((v >> 16) & 0xff) as u8) as nat == ((v >> 16) & 0xff)) by (bit_vector);
    assert((((v >> 24) & 0xff) as u8) as nat == ((v >> 24) & 0xff)) by (bit_vector);
    assert((((v >> 32) & 0xff) as u8) as nat == ((v >> 32) & 0xff)) by (bit_vector);
    assert((((v >> 40) & 0xff) as u8) as nat == ((v >> 40) & 0xff)) by (bit_vector);
    assert((((v >> 48) & 0xff) as u8) as nat == ((v >> 48) & 0xff)) by (bit_vector);
    assert((((v >> 56) & 0xff) as u8) as nat == ((v >> 56) & 0xff)) by (bit_vector);
}

} // verus!
