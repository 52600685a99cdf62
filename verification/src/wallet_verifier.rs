//! Wallet signature verification and challenge/response login text.
//!
//! Verification never raises for malformed input: it degrades to an
//! invalid result carrying a reason.  The login challenge is a fixed,
//! line-prefix-sensitive text block; its timestamp can be parsed back out
//! of it, which the lemmas at the end of this module prove.

use vstd::prelude::*;
use crate::encoding::base58_decoded;
use crate::errors::AppError;
use crate::text::{
    match_at, parse_i64, spec_contains_str, spec_i64_chars, spec_is_digit, spec_parse_i64,
    str_contains,
};
use crate::time_utils::TimeUtils;

verus! {

// ---------------------------------------------------------------------------
// Trusted cryptographic core
// ---------------------------------------------------------------------------

/// Whether 32 bytes are a well-formed Ed25519 verifying key.
pub uninterp spec fn ed25519_key_valid(pk: Seq<u8>) -> bool;

/// Whether `sig` is a valid Ed25519 signature by the key `pk` over
/// exactly the message bytes `msg`.
pub uninterp spec fn ed25519_verifies(pk: Seq<u8>, msg: Seq<u8>, sig: Seq<u8>) -> bool;

/// Relies on `ed25519_dalek::VerifyingKey::from_bytes` (which rejects
/// byte strings that are no valid curve point), `ed25519::Signature::from_bytes`
/// (infallible on 64 bytes) and `Verifier::verify` (`Ok` exactly when the
/// signature is valid).  All three are pure functions of their bytes.
#[verifier::external_body]
fn dalek_verify(pk: &[u8], msg: &[u8], sig: &[u8]) -> (r: Option<bool>)
    requires
        pk@.len() == 32,
        sig@.len() == 64,
    ensures
        r is Some <==> ed25519_key_valid(pk@),
        r matches Some(v) ==> v == ed25519_verifies(pk@, msg@, sig@),
{
    let pk_arr: [u8; 32] = match pk.try_into() {
        Ok(a) => a,
        Err(_) => return None,
    };
    let key = match ed25519_dalek::VerifyingKey::from_bytes(&pk_arr) {
        Ok(k) => k,
        Err(_) => return None,
    };
    let sig_arr: [u8; 64] = match sig.try_into() {
        Ok(a) => a,
        Err(_) => return None,
    };
    let signature = ed25519_dalek::Signature::from_bytes(&sig_arr);
    Some(ed25519_dalek::Verifier::verify(&key, msg, &signature).is_ok())
}

/// Characters a nonce may consist of: lower-case hex digits and hyphens.
pub open spec fn spec_is_nonce_char(c: char) -> bool {
    spec_is_digit(c) || ('a' <= c && c <= 'f') || c == '-'
}

pub open spec fn spec_valid_nonce(nonce: Seq<char>) -> bool {
    nonce.len() == 36 && (forall|i: int| 0 <= i < nonce.len() ==> spec_is_nonce_char(
        #[trigger] nonce[i],
    ))
}

/// Relies on `uuid::Uuid::new_v4` and its hyphenated rendering: a fresh
/// random identifier of 36 lower-case hex digits and hyphens.  The value
/// is random, so only its shape is promised.
#[verifier::external_body]
fn new_nonce() -> (r: String)
    ensures
        spec_valid_nonce(r@),
{
    uuid::Uuid::new_v4().to_string()
}

// ---------------------------------------------------------------------------
// Requests, results, and the verification contract
// ---------------------------------------------------------------------------

/// A signature ownership proof to check.
#[derive(Debug, Clone)]
pub struct SignatureVerificationRequest {
    pub wallet_address: String,
    pub message: String,
    pub signature: String,
}

/// The outcome of a check: validity, the echoed inputs, and the reason a
/// malformed input was rejected.
#[derive(Debug, Clone)]
pub struct SignatureVerificationResult {
    pub is_valid: bool,
    pub wallet_address: String,
    pub message: String,
    pub error: Option<String>,
}

/// An invalid result that echoes the inputs and carries `reason`.
pub open spec fn spec_invalid_result(
    res: SignatureVerificationResult,
    addr: Seq<char>,
    msg: Seq<char>,
    reason: Seq<char>,
) -> bool {
    &&& !res.is_valid
    &&& res.wallet_address@ == addr
    &&& res.message@ == msg
    &&& res.error matches Some(e) && e@ == reason
}

/// Exactly what signature verification answers for the given address,
/// message and signature text: malformed inputs yield an invalid result
/// with its reason; an address that is no valid verifying key is the one
/// hard error; otherwise the scheme decides.
pub open spec fn spec_verification_outcome(
    addr: Seq<char>,
    msg: Seq<char>,
    sig: Seq<char>,
    r: Result<SignatureVerificationResult, AppError>,
) -> bool {
    match base58_decoded(addr) {
        None => r matches Ok(res) && spec_invalid_result(
            res,
            addr,
            msg,
            "wallet address is not valid base58"@,
        ),
        Some(pk) => if pk.len() != 32 {
            r matches Ok(res) && spec_invalid_result(
                res,
                addr,
                msg,
                "wallet address has the wrong length"@,
            )
        } else {
            match base58_decoded(sig) {
                None => r matches Ok(res) && spec_invalid_result(
                    res,
                    addr,
                    msg,
                    "signature is not valid base58"@,
                ),
                Some(sb) => if sb.len() != 64 {
                    r matches Ok(res) && spec_invalid_result(
                        res,
                        addr,
                        msg,
                        "signature has the wrong length"@,
                    )
                } else if !ed25519_key_valid(pk) {
                    r matches Err(AppError::ValidationError(m)) && m@
                        == "wallet address is not a valid public key"@
                } else {
                    r matches Ok(res) && res.wallet_address@ == addr && res.message@ == msg
                        && res.error is None && res.is_valid == ed25519_verifies(
                        pk,
                        vstd::utf8::encode_utf8(msg),
                        sb,
                    )
                },
            }
        },
    }
}

/// The wallet verifier.  It is stateless: every check is a pure function
/// of its inputs (and, for challenges, of the clock and a fresh nonce).
pub struct WalletVerifier;

impl WalletVerifier {
    pub fn new() -> (r: Result<WalletVerifier, AppError>)
        ensures
            r is Ok,
    {
        Ok(WalletVerifier)
    }

    fn invalid_result(request: &SignatureVerificationRequest, reason: &str) -> (res:
        SignatureVerificationResult)
        ensures
            spec_invalid_result(res, request.wallet_address@, request.message@, reason@),
    {
        SignatureVerificationResult {
            is_valid: false,
            wallet_address: request.wallet_address.clone(),
            message: request.message.clone(),
            error: Some(reason.to_owned()),
        }
    }

    /// Checks an ownership proof.  Malformed input — an address or
    /// signature that is not base58, or of the wrong length — yields an
    /// invalid result with a reason, never an error; only an address that
    /// is no valid verifying key is reported as a hard error.
    pub fn verify_signature(&self, request: &SignatureVerificationRequest) -> (r: Result<
        SignatureVerificationResult,
        AppError,
    >)
        ensures
            spec_verification_outcome(
                request.wallet_address@,
                request.message@,
                request.signature@,
                r,
            ),
    {
        let pk = match crate::encoding::bs58_decode(request.wallet_address.as_str()) {
            Some(pk) => pk,
            None => {
                return Ok(Self::invalid_result(request, "wallet address is not valid base58"));
            }
        };
        if pk.len() != 32 {
            return Ok(Self::invalid_result(request, "wallet address has the wrong length"));
        }
        let sig = match crate::encoding::bs58_decode(request.signature.as_str()) {
            Some(sig) => sig,
            None => {
                return Ok(Self::invalid_result(request, "signature is not valid base58"));
            }
        };
        if sig.len() != 64 {
            return Ok(Self::invalid_result(request, "signature has the wrong length"));
        }
        match dalek_verify(pk.as_slice(), request.message.as_str().as_bytes(), sig.as_slice()) {
            None => Err(AppError::ValidationError(String::from_str(
                "wallet address is not a valid public key",
            ))),
            Some(valid) => Ok(SignatureVerificationResult {
                is_valid: valid,
                wallet_address: request.wallet_address.clone(),
                message: request.message.clone(),
                error: None,
            }),
        }
    }

    /// Verifies a batch independently: one malformed request does not
    /// abort the rest, and the results keep the input order.  The batch
    /// only fails as a whole when one request fails hard.
    pub fn verify_multiple_signatures(&self, requests: &Vec<SignatureVerificationRequest>) -> (r:
        Result<Vec<SignatureVerificationResult>, AppError>)
        ensures
            r matches Ok(results) ==> (results@.len() == requests@.len() && (forall|i: int|
                0 <= i < requests@.len() ==> spec_verification_outcome(
                    (#[trigger] requests@[i]).wallet_address@,
                    requests@[i].message@,
                    requests@[i].signature@,
                    Ok(results@[i]),
                ))),
            r matches Err(e) ==> (exists|i: int|
                0 <= i < requests@.len() && spec_verification_outcome(
                    (#[trigger] requests@[i]).wallet_address@,
                    requests@[i].message@,
                    requests@[i].signature@,
                    Err(e),
                )),
    {
        let n = requests.len();
        let mut results: Vec<SignatureVerificationResult> = Vec::new();
        let mut i: usize = 0;
        while i < n
            invariant
                i <= n,
                n == requests@.len(),
                results@.len() == i,
                forall|j: int|
                    0 <= j < i ==> spec_verification_outcome(
                        (#[trigger] requests@[j]).wallet_address@,
                        requests@[j].message@,
                        requests@[j].signature@,
                        Ok(results@[j]),
                    ),
            decreases n - i,
        {
            match self.verify_signature(&requests[i]) {
                Ok(res) => {
                    results.push(res);
                }
                Err(e) => {
                    return Err(e);
                }
            }
            i = i + 1;
        }
        Ok(results)
    }

    /// Whether the wallet holds at least `minimum_amount` of the mint.
    /// Answering truthfully needs the chain RPC client's collaboration;
    /// without it the check reports `false` rather than guessing.
    pub fn verify_token_ownership(
        &self,
        wallet_address: &str,
        mint_address: &str,
        minimum_amount: u64,
    ) -> (r: Result<bool, AppError>)
        ensures
            r matches Ok(b) && !b,
    {
        let _ = wallet_address;
        let _ = mint_address;
        let _ = minimum_amount;
        Ok(false)
    }

    /// Whether the wallet is the mint authority of the mint.  As with
    /// token ownership, without the chain RPC client's collaboration the
    /// check reports `false` rather than guessing.
    pub fn verify_mint_authority(&self, wallet_address: &str, mint_address: &str) -> (r: Result<
        bool,
        AppError,
    >)
        ensures
            r matches Ok(b) && !b,
    {
        let _ = wallet_address;
        let _ = mint_address;
        Ok(false)
    }

    /// Builds the login challenge text for `wallet_address` with the
    /// current clock and a fresh nonce.
    pub fn generate_login_challenge(&self, wallet_address: &str) -> (r: Result<String, AppError>)
        ensures
            r matches Ok(c) && (exists|ts: i64, nonce: Seq<char>|
                c@ == spec_challenge_text(wallet_address@, ts as int, nonce)
                    && spec_valid_nonce(nonce)),
    {
        let timestamp = TimeUtils::now_timestamp();
        let nonce = new_nonce();
        let challenge = build_login_challenge(wallet_address, timestamp, nonce.as_str());
        proof {
            let ts = timestamp;
            let no = nonce@;
            assert(challenge@ == spec_challenge_text(wallet_address@, ts as int, no)
                && spec_valid_nonce(no));
        }
        Ok(challenge)
    }

    /// Verifies a login challenge against the clock reading `now`: a
    /// challenge whose embedded timestamp is older than 300 seconds is
    /// rejected as expired regardless of the signature; otherwise the
    /// signature decides.
    pub fn verify_login_challenge_at(
        &self,
        wallet_address: &str,
        challenge: &str,
        signature: &str,
        now: i64,
    ) -> (r: Result<SignatureVerificationResult, AppError>)
        ensures
            spec_login_outcome(wallet_address@, challenge@, signature@, now as int, r),
    {
        let expired: bool = match extract_timestamp_from_challenge(challenge) {
            Some(ts_text) => match parse_i64(ts_text.as_str()) {
                Some(ts) => (now as i128) - (ts as i128) > 300,
                None => false,
            },
            None => false,
        };
        if expired {
            return Ok(SignatureVerificationResult {
                is_valid: false,
                wallet_address: wallet_address.to_owned(),
                message: challenge.to_owned(),
                error: Some(String::from_str("the login challenge has expired")),
            });
        }
        let request = SignatureVerificationRequest {
            wallet_address: wallet_address.to_owned(),
            message: challenge.to_owned(),
            signature: signature.to_owned(),
        };
        self.verify_signature(&request)
    }

    /// Verifies a login challenge against the current clock.  The clock
    /// reading is drawn inside, so the outcome is that of
    /// `verify_login_challenge_at` at some reading.
    pub fn verify_login_challenge(
        &self,
        wallet_address: &str,
        challenge: &str,
        signature: &str,
    ) -> (r: Result<SignatureVerificationResult, AppError>)
        ensures
            exists|now: int|
                spec_login_outcome(wallet_address@, challenge@, signature@, now, r),
    {
        let now = TimeUtils::now_timestamp();
        let r = self.verify_login_challenge_at(wallet_address, challenge, signature, now);
        proof {
            assert(spec_login_outcome(wallet_address@, challenge@, signature@, now as int, r));
        }
        r
    }
}

// ---------------------------------------------------------------------------
// Challenge text
// ---------------------------------------------------------------------------

/// The full challenge text: a fixed header, the wallet address, the
/// timestamp line, the nonce line, and a fixed footer.  The line prefixes
/// are part of the external contract and must match exactly.
pub open spec fn spec_challenge_text(addr: Seq<char>, ts: int, nonce: Seq<char>) -> Seq<char> {
    "请签名此消息以验证您的钱包所有权:\n\n钱包地址: "@ + addr + "\n时间戳: "@ + spec_i64_chars(ts)
        + "\n随机数: "@ + nonce + "\n\n此签名仅用于身份验证，不会产生任何费用。"@
}

/// Builds the challenge text for the given address, timestamp and nonce.
pub fn build_login_challenge(wallet_address: &str, timestamp: i64, nonce: &str) -> (r: String)
    ensures
        r@ == spec_challenge_text(wallet_address@, timestamp as int, nonce@),
{
    let mut s = String::from_str("请签名此消息以验证您的钱包所有权:\n\n钱包地址: ");
    s.append(wallet_address);
    s.append("\n时间戳: ");
    let ts_text = crate::text::i64_to_string(timestamp);
    s.append(ts_text.as_str());
    s.append("\n随机数: ");
    s.append(nonce);
    s.append("\n\n此签名仅用于身份验证，不会产生任何费用。");
    proof {
        assert(s@ =~= spec_challenge_text(wallet_address@, timestamp as int, nonce@));
    }
    s
}

/// The timestamp line prefix.
pub open spec fn spec_ts_prefix() -> Seq<char> {
    "时间戳: "@
}

/// Position `i` starts a line of `s`.
pub open spec fn spec_line_start(s: Seq<char>, i: int) -> bool {
    i == 0 || s[i - 1] == '\n'
}

/// The timestamp prefix stands at the start of the line beginning at `i`.
pub open spec fn spec_ts_match(s: Seq<char>, i: int) -> bool {
    spec_line_start(s, i) && 0 <= i && i + 5 <= s.len() && s.subrange(i, i + 5) == spec_ts_prefix()
}

/// The first position at or after `i` where a line starts with the
/// timestamp prefix.
pub open spec fn spec_find_ts(s: Seq<char>, i: int) -> Option<int>
    decreases s.len() - i,
        when i <= s.len()
{
    if i < 0 || i > s.len() {
        None
    } else if i + 5 <= s.len() && spec_ts_match(s, i) {
        Some(i)
    } else if i < s.len() {
        spec_find_ts(s, i + 1)
    } else {
        None
    }
}

/// The first newline at or after `i`, or the end of `s`.
pub open spec fn spec_find_nl(s: Seq<char>, i: int) -> int
    decreases s.len() - i,
        when i <= s.len()
{
    if i < 0 || i >= s.len() {
        s.len() as int
    } else if s[i] == '\n' {
        i
    } else {
        spec_find_nl(s, i + 1)
    }
}

/// The timestamp text embedded in a challenge: the remainder of the first
/// line that begins with the timestamp prefix, if any line does.
pub open spec fn spec_extract_timestamp(s: Seq<char>) -> Option<Seq<char>> {
    match spec_find_ts(s, 0) {
        Some(i) => Some(s.subrange(i + 5, spec_find_nl(s, i + 5))),
        None => None,
    }
}

/// What login-challenge verification answers at the clock reading `now`:
/// an expired challenge is rejected with the expiry reason regardless of
/// the signature; otherwise signature verification decides.
pub open spec fn spec_login_outcome(
    addr: Seq<char>,
    challenge: Seq<char>,
    sig: Seq<char>,
    now: int,
    r: Result<SignatureVerificationResult, AppError>,
) -> bool {
    if spec_challenge_expired(challenge, now) {
        r matches Ok(res) && spec_invalid_result(
            res,
            addr,
            challenge,
            "the login challenge has expired"@,
        )
    } else {
        spec_verification_outcome(addr, challenge, sig, r)
    }
}

/// A challenge is expired at `now` when its embedded timestamp parses and
/// lies more than 300 seconds in the past.
pub open spec fn spec_challenge_expired(challenge: Seq<char>, now: int) -> bool {
    match spec_extract_timestamp(challenge) {
        Some(ts_text) => match spec_parse_i64(ts_text) {
            Some(ts) => now - ts > 300,
            None => false,
        },
        None => false,
    }
}

/// Scans the challenge lines for the timestamp prefix and returns the
/// rest of that line.
pub fn extract_timestamp_from_challenge(challenge: &str) -> (r: Option<String>)
    ensures
        match r {
            Some(t) => spec_extract_timestamp(challenge@) == Some(t@),
            None => spec_extract_timestamp(challenge@) is None,
        },
{
    let n = challenge.unicode_len();
    let mut i: usize = 0;
    while i < n
        invariant
            i <= n,
            n == challenge@.len(),
            spec_find_ts(challenge@, 0) == spec_find_ts(challenge@, i as int),
        decreases n - i,
    {
        proof {
            reveal_strlit("时间戳: ");
        }
        let line_start = i == 0 || challenge.get_char(i - 1) == '\n';
        let matched = if line_start && n - i >= 5 {
            match_at(challenge, "时间戳: ", i)
        } else {
            false
        };
        if matched {
            let mut j: usize = i + 5;
            while j < n
                invariant
                    i + 5 <= j <= n,
                    n == challenge@.len(),
                    spec_find_nl(challenge@, i as int + 5) == spec_find_nl(challenge@, j as int),
                ensures
                    spec_find_nl(challenge@, i as int + 5) == j,
                    j <= n == challenge@.len(),
                decreases n - j,
            {
                if challenge.get_char(j) == '\n' {
                    break;
                }
                j = j + 1;
            }
            let text = challenge.substring_char(i + 5, j);
            proof {
                assert(spec_find_ts(challenge@, i as int) == Some(i as int));
                assert(spec_extract_timestamp(challenge@) == Some(
                    challenge@.subrange(i as int + 5, j as int),
                ));
            }
            return Some(text.to_owned());
        }
        proof {
            assert(!spec_ts_match(challenge@, i as int));
            assert(spec_find_ts(challenge@, i as int) == spec_find_ts(challenge@, i as int + 1));
        }
        i = i + 1;
    }
    proof {
        assert(spec_find_ts(challenge@, n as int) is None);
    }
    None
}

// ---------------------------------------------------------------------------
// Laws of the challenge text
// ---------------------------------------------------------------------------

/// Malformed input — an address or signature that is not base58 or has
/// the wrong length — always yields an invalid result that echoes the
/// inputs and carries a non-empty reason, never an error.
pub proof fn lemma_malformed_input_yields_invalid_result(
    addr: Seq<char>,
    msg: Seq<char>,
    sig: Seq<char>,
    r: Result<SignatureVerificationResult, AppError>,
)
    requires
        spec_verification_outcome(addr, msg, sig, r),
        !(base58_decoded(addr) matches Some(pk) && pk.len() == 32) || !(base58_decoded(sig)
            matches Some(sb) && sb.len() == 64),
    ensures
        r matches Ok(res) && !res.is_valid && res.wallet_address@ == addr && res.message@ == msg
            && (res.error matches Some(e) && e@.len() > 0),
{
    reveal_strlit("wallet address is not valid base58");
    reveal_strlit("wallet address has the wrong length");
    reveal_strlit("signature is not valid base58");
    reveal_strlit("signature has the wrong length");
}

proof fn lemma_find_ts_reaches(s: Seq<char>, lo: int, m: int)
    requires
        0 <= lo <= m,
        m + 5 <= s.len(),
        spec_ts_match(s, m),
        forall|k: int| lo <= k < m ==> !spec_ts_match(s, k),
    ensures
        spec_find_ts(s, lo) == Some(m),
    decreases m - lo,
{
    if lo < m {
        lemma_find_ts_reaches(s, lo + 1, m);
    }
}

proof fn lemma_find_nl_reaches(s: Seq<char>, lo: int, m: int)
    requires
        0 <= lo <= m <= s.len(),
        forall|k: int| lo <= k < m ==> s[k] != '\n',
        m == s.len() || s[m] == '\n',
    ensures
        spec_find_nl(s, lo) == m,
    decreases m - lo,
{
    if lo < m {
        lemma_find_nl_reaches(s, lo + 1, m);
    }
}

proof fn lemma_i64_chars_not_newline(n: int)
    ensures
        forall|k: int| 0 <= k < spec_i64_chars(n).len() ==> spec_i64_chars(n)[k] != '\n',
{
    if n >= 0 {
        crate::text::lemma_u64_chars_wf(n);
        assert(forall|k: int|
            0 <= k < spec_i64_chars(n).len() ==> spec_is_digit(#[trigger] spec_i64_chars(n)[k]));
    } else {
        crate::text::lemma_u64_chars_wf(-n);
        let d = spec_i64_chars(n);
        let u = crate::text::spec_u64_chars(-n);
        assert(d == seq!['-'] + u);
        assert(forall|k: int| 0 <= k < u.len() ==> spec_is_digit(#[trigger] u[k]));
        assert(forall|k: int| 1 <= k < d.len() ==> d[k] == u[k - 1]);
    }
}

/// The timestamp embedded in a generated challenge is found and parsed
/// back exactly, for any address free of newlines.
pub proof fn lemma_challenge_timestamp_round_trip(addr: Seq<char>, ts: i64, nonce: Seq<char>)
    requires
        forall|i: int| 0 <= i < addr.len() ==> addr[i] != '\n',
    ensures
        spec_extract_timestamp(spec_challenge_text(addr, ts as int, nonce)) == Some(
            spec_i64_chars(ts as int),
        ),
        spec_parse_i64(spec_i64_chars(ts as int)) == Some(ts),
{
    let h = "请签名此消息以验证您的钱包所有权:\n\n钱包地址: "@;
    let p1 = "\n时间戳: "@;
    let d = spec_i64_chars(ts as int);
    let p2 = "\n随机数: "@;
    let f = "\n\n此签名仅用于身份验证，不会产生任何费用。"@;
    let s = spec_challenge_text(addr, ts as int, nonce);
    reveal_strlit("请签名此消息以验证您的钱包所有权:\n\n钱包地址: ");
    reveal_strlit("\n时间戳: ");
    reveal_strlit("时间戳: ");
    reveal_strlit("\n随机数: ");
    reveal_strlit("\n\n此签名仅用于身份验证，不会产生任何费用。");
    let al = addr.len() as int;
    let dl = d.len() as int;
    let a1 = h + addr;
    let a2 = a1 + p1;
    let a3 = a2 + d;
    let a4 = a3 + p2;
    let a5 = a4 + nonce;
    assert(s == a5 + f);
    assert(h.len() == 25);
    assert(p1.len() == 6);
    assert(forall|j: int| 0 <= j < a5.len() ==> s[j] == a5[j]);
    assert(forall|j: int| 0 <= j < a4.len() ==> a5[j] == a4[j]);
    assert(forall|j: int| 0 <= j < a3.len() ==> a4[j] == a3[j]);
    assert(forall|j: int| 0 <= j < a2.len() ==> a3[j] == a2[j]);
    assert(forall|j: int| 0 <= j < a1.len() ==> a2[j] == a1[j]);
    assert(forall|j: int| 0 <= j < 25 ==> s[j] == h[j]);
    assert(forall|j: int| 0 <= j < al ==> s[25 + j] == addr[j]);
    assert(forall|j: int| 0 <= j < 6 ==> s[25 + al + j] == p1[j]);
    assert(forall|j: int| 0 <= j < dl ==> s[25 + al + 6 + j] == d[j]);
    assert(s[25 + al + 6 + dl] == p2[0]);
    let p = 25 + al + 1;
    // The prefix stands at `p`, at the start of its line.
    assert(s[p - 1] == p1[0]);
    assert(spec_line_start(s, p));
    assert(s.subrange(p, p + 5) =~= spec_ts_prefix()) by {
        assert(forall|k: int| 0 <= k < 5 ==> #[trigger] s.subrange(p, p + 5)[k] == s[p + k]);
        assert(forall|k: int| 0 <= k < 5 ==> #[trigger] s[p + k] == p1[1 + k]);
    }
    assert(spec_ts_match(s, p));
    // No earlier line begins with the prefix.
    assert forall|k: int| 0 <= k < p implies !spec_ts_match(s, k) by {
        if spec_ts_match(s, k) {
            assert(s.subrange(k, k + 5)[0] == s[k]);
            assert(s[k] == spec_ts_prefix()[0]);
            assert(s[k] == '时');
            if k < 25 {
                assert(s[k] == h[k]);
                assert(false);
            } else if k < 25 + al {
                assert(spec_line_start(s, k));
                if k == 25 {
                    assert(s[k - 1] == h[24]);
                } else {
                    assert(s[k - 1] == addr[k - 1 - 25]);
                }
                assert(false);
            } else {
                assert(k == p - 1);
                assert(s[k] == p1[0]);
                assert(false);
            }
        }
    }
    lemma_find_ts_reaches(s, 0, p);
    assert(spec_find_ts(s, 0) == Some(p));
    // The timestamp line ends right where the nonce line begins.
    lemma_i64_chars_not_newline(ts as int);
    assert(forall|k: int| p + 5 <= k < p + 5 + dl ==> s[k] == d[k - (p + 5)]);
    assert(forall|k: int| p + 5 <= k < p + 5 + dl ==> s[k] != '\n');
    assert(s[p + 5 + dl] == '\n');
    lemma_find_nl_reaches(s, p + 5, p + 5 + dl);
    assert(s.subrange(p + 5, p + 5 + dl) =~= d);
    crate::text::lemma_i64_round_trip(ts);
}

/// A generated challenge is expired at `now` exactly when more than 300
/// seconds have passed since the timestamp it was built with.
pub proof fn lemma_challenge_expiry(addr: Seq<char>, ts: i64, nonce: Seq<char>, now: i64)
    requires
        forall|i: int| 0 <= i < addr.len() ==> addr[i] != '\n',
    ensures
        spec_challenge_expired(spec_challenge_text(addr, ts as int, nonce), now as int) == (now
            - ts > 300),
{
    lemma_challenge_timestamp_round_trip(addr, ts, nonce);
}

/// A challenge generated for an address and verified within 300 seconds
/// is judged by the signature alone; verified later it is rejected as
/// expired whatever the signature was.
pub proof fn lemma_login_challenge_expiry(
    addr: Seq<char>,
    ts: i64,
    nonce: Seq<char>,
    sig: Seq<char>,
    now: i64,
    r: Result<SignatureVerificationResult, AppError>,
)
    requires
        forall|i: int| 0 <= i < addr.len() ==> addr[i] != '\n',
        spec_login_outcome(addr, spec_challenge_text(addr, ts as int, nonce), sig, now as int, r),
    ensures
        now - ts > 300 ==> (r matches Ok(res) && !res.is_valid && (res.error matches Some(e)
            && e@ == "the login challenge has expired"@)),
        now - ts <= 300 ==> spec_verification_outcome(
            addr,
            spec_challenge_text(addr, ts as int, nonce),
            sig,
            r,
        ),
{
    lemma_challenge_expiry(addr, ts, nonce, now);
}

// ---------------------------------------------------------------------------
// Wallet identification and connections
// ---------------------------------------------------------------------------

/// The wallet software families recognised from a user agent.
#[derive(Debug, Clone, PartialEq)]
pub enum WalletType {
    Phantom,
    Solflare,
    Backpack,
    Other(String),
}

impl WalletType {
    /// Classifies a user-agent string by the first recognised wallet
    /// name it mentions, in the fixed priority order.
    pub fn from_user_agent(user_agent: &str) -> (r: Self)
        ensures
            spec_contains_str(user_agent@, "Phantom"@) ==> r is Phantom,
            !spec_contains_str(user_agent@, "Phantom"@) && spec_contains_str(
                user_agent@,
                "Solflare"@,
            ) ==> r is Solflare,
            !spec_contains_str(user_agent@, "Phantom"@) && !spec_contains_str(
                user_agent@,
                "Solflare"@,
            ) && spec_contains_str(user_agent@, "Backpack"@) ==> r is Backpack,
            !spec_contains_str(user_agent@, "Phantom"@) && !spec_contains_str(
                user_agent@,
                "Solflare"@,
            ) && !spec_contains_str(user_agent@, "Backpack"@) ==> (r matches WalletType::Other(s)
                && s@ == user_agent@),
    {
        if str_contains(user_agent, "Phantom") {
            WalletType::Phantom
        } else if str_contains(user_agent, "Solflare") {
            WalletType::Solflare
        } else if str_contains(user_agent, "Backpack") {
            WalletType::Backpack
        } else {
            WalletType::Other(user_agent.to_owned())
        }
    }
}

/// A wallet session tracked by the application.
#[derive(Debug, Clone)]
pub struct WalletConnection {
    pub address: String,
    pub wallet_type: WalletType,
    pub connected_at: i64,
    pub last_activity: i64,
    pub is_verified: bool,
}

impl WalletConnection {
    /// A fresh, unverified connection; both timestamps are the same clock
    /// reading.
    pub fn new(address: String, wallet_type: WalletType) -> (r: Self)
        ensures
            r.address == address,
            r.wallet_type == wallet_type,
            r.connected_at == r.last_activity,
            !r.is_verified,
    {
        let now = TimeUtils::now_timestamp();
        WalletConnection {
            address,
            wallet_type,
            connected_at: now,
            last_activity: now,
            is_verified: false,
        }
    }

    /// Refreshes the activity timestamp from the clock; everything else
    /// is unchanged.
    pub fn update_activity(&mut self)
        ensures
            final(self).address == old(self).address,
            final(self).wallet_type == old(self).wallet_type,
            final(self).connected_at == old(self).connected_at,
            final(self).is_verified == old(self).is_verified,
    {
        self.last_activity = TimeUtils::now_timestamp();
    }

    /// Marks the connection verified and refreshes its activity.
    pub fn mark_verified(&mut self)
        ensures
            final(self).address == old(self).address,
            final(self).wallet_type == old(self).wallet_type,
            final(self).connected_at == old(self).connected_at,
            final(self).is_verified,
    {
        self.is_verified = true;
        self.update_activity();
    }

    /// Whether more than `timeout_minutes` whole minutes have passed
    /// between the last activity and the clock reading `now`.
    pub fn is_expired(&self, timeout_minutes: i64, now: i64) -> (r: bool)
        ensures
            r == (spec_whole_minutes(now - self.last_activity) > timeout_minutes),
    {
        let d: i128 = (now as i128) - (self.last_activity as i128);
        let minutes: i128 = if d >= 0 {
            d / 60
        } else {
            -((-d) / 60)
        };
        minutes > timeout_minutes as i128
    }
}

/// Whole minutes in a duration of `d` seconds, rounded toward zero.
pub open spec fn spec_whole_minutes(d: int) -> int {
    if d >= 0 {
        d / 60
    } else {
        -((-d) / 60)
    }
}

} // verus!
