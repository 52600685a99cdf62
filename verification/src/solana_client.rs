//! Chain RPC client core: request envelopes, response classification and
//! token-account decoding.
//!
//! The HTTP transport lives outside the library; everything here computes
//! on plain values.  Requests are built as complete JSON-RPC 2.0 bodies
//! with a strictly increasing identifier, and responses are interpreted
//! from the plain fields the transport extracts.

use vstd::prelude::*;
use crate::encoding::{b64_decode, base58_of, base64_decoded, bs58_encode};
use crate::errors::AppError;
use crate::text::{
    append_json_escaped, i64_to_string, parse_u64, spec_i64_chars, spec_json_escaped,
    spec_parse_u64, spec_u64_chars, str_eq, u64_to_string,
};

verus! {

/// The well-known SPL token program identifier: only accounts owned by it
/// decode as token accounts.
pub open spec fn spec_spl_token_program_id() -> Seq<char> {
    "TokenkegQfeZyiNwAJbNbGKPFXCWuBvf9Ss623VQ5DA"@
}

/// An account snapshot as the node reports it: `data` holds the payload
/// (base64 text first, encoding label second).
#[derive(Debug, Clone, PartialEq)]
pub struct AccountInfo {
    pub data: Vec<String>,
    pub executable: bool,
    pub lamports: u64,
    pub owner: String,
    pub rent_epoch: u64,
}

/// A decoded SPL token account.
#[derive(Debug, Clone, PartialEq)]
pub struct TokenAccount {
    pub mint: String,
    pub owner: String,
    pub amount: u64,
    pub decimals: u8,
    pub delegate: Option<String>,
    pub state: u8,
    pub is_native: Option<u64>,
    pub delegated_amount: u64,
    pub close_authority: Option<String>,
}

/// A decoded SPL mint account.
#[derive(Debug, Clone)]
pub struct Mint {
    pub mint_authority: Option<String>,
    pub supply: u64,
    pub decimals: u8,
    pub is_initialized: bool,
    pub freeze_authority: Option<String>,
}

/// Aggregate token facts served to callers.
#[derive(Debug, Clone, PartialEq)]
pub struct TokenInfo {
    pub mint: String,
    pub supply: u64,
    pub decimals: u8,
    pub mint_authority: Option<String>,
    pub freeze_authority: Option<String>,
}

/// The error object of a JSON-RPC response envelope.
#[derive(Debug, Clone, PartialEq)]
pub struct RpcErrorInfo {
    pub code: i64,
    pub message: String,
}

// ---------------------------------------------------------------------------
// Request building
// ---------------------------------------------------------------------------

/// A JSON string literal denoting `s`.
pub open spec fn spec_json_string(s: Seq<char>) -> Seq<char> {
    seq!['"'] + spec_json_escaped(s) + seq!['"']
}

/// The JSON-RPC 2.0 request envelope for `method`, `params` and `id`.
pub open spec fn spec_rpc_envelope(method: Seq<char>, params: Seq<char>, id: int) -> Seq<char> {
    "{\"jsonrpc\":\"2.0\",\"id\":"@ + spec_u64_chars(id) + ",\"method\":"@ + spec_json_string(
        method,
    ) + ",\"params\":"@ + params + "}"@
}

/// One issue of a request identifier: `id` is the counter's value before
/// the call, and the counter advances by one until it saturates at
/// `u64::MAX`.
pub open spec fn spec_issued_id(pre: SolanaClientService, post: SolanaClientService, id: u64) -> bool {
    &&& id == pre.request_id
    &&& post.request_id == (if pre.request_id < u64::MAX {
        pre.request_id + 1
    } else {
        u64::MAX as int
    })
    &&& post.rpc_url == pre.rpc_url
    &&& post.timeout_seconds == pre.timeout_seconds
}

/// The RPC client core: the configured endpoint, the per-call timeout and
/// the request-identifier counter.  The transport that actually posts the
/// bodies lives outside the library.
pub struct SolanaClientService {
    pub rpc_url: String,
    pub timeout_seconds: u64,
    pub request_id: u64,
}

impl SolanaClientService {
    /// A fresh client core; identifiers start at 1 and the timeout
    /// defaults to 30 seconds.
    pub fn new(rpc_url: String, timeout_seconds: Option<u64>) -> (r: Self)
        ensures
            r.rpc_url == rpc_url,
            r.timeout_seconds == (match timeout_seconds {
                Some(t) => t,
                None => 30u64,
            }),
            r.request_id == 1,
    {
        let timeout: u64 = match timeout_seconds {
            Some(t) => t,
            None => 30,
        };
        SolanaClientService { rpc_url, timeout_seconds: timeout, request_id: 1 }
    }

    /// Hands out the next request identifier.  Identifiers are strictly
    /// increasing until the counter saturates at `u64::MAX`, so no
    /// identifier below the saturation point is ever reused.
    pub fn next_request_id(&mut self) -> (id: u64)
        ensures
            spec_issued_id(*old(self), *final(self), id),
    {
        let id = self.request_id;
        if self.request_id < u64::MAX {
            self.request_id = self.request_id + 1;
        }
        id
    }

    /// Builds the complete JSON-RPC request body for `method` with the
    /// given parameter array text, consuming one request identifier.
    pub fn build_rpc_request(&mut self, method: &str, params_json: &str) -> (r: String)
        ensures
            r@ == spec_rpc_envelope(method@, params_json@, old(self).request_id as int),
            spec_issued_id(*old(self), *final(self), old(self).request_id),
    {
        let id = self.next_request_id();
        let mut s = String::from_str("{\"jsonrpc\":\"2.0\",\"id\":");
        let id_text = u64_to_string(id);
        s.append(id_text.as_str());
        s.append(",\"method\":\"");
        append_json_escaped(&mut s, method);
        s.append("\",\"params\":");
        s.append(params_json);
        s.append("}");
        proof {
            reveal_strlit(",\"method\":\"");
            reveal_strlit("\",\"params\":");
            reveal_strlit(",\"method\":");
            reveal_strlit(",\"params\":");
            reveal_strlit("\"");
            reveal_strlit("}");
            assert(s@ =~= spec_rpc_envelope(
                method@,
                params_json@,
                old(self).request_id as int,
            ));
        }
        s
    }
}

/// Identifiers of successive requests strictly increase while the
/// counter is below its saturation point, so no identifier below it is
/// ever used twice in a process lifetime.
pub proof fn lemma_request_ids_never_reused(
    s0: SolanaClientService,
    s1: SolanaClientService,
    id1: u64,
    s2: SolanaClientService,
    id2: u64,
)
    requires
        spec_issued_id(s0, s1, id1),
        spec_issued_id(s1, s2, id2),
        id1 < u64::MAX,
    ensures
        id2 > id1,
{
}

/// The parameter array for `getAccountInfo`: the queried key, base64
/// encoding and confirmed commitment.
pub fn account_info_params(pubkey: &str) -> (r: String)
    ensures
        r@ == "["@ + spec_json_string(pubkey@) + ",{\"encoding\":\"base64\",\"commitment\":\"confirmed\"}]"@,
{
    let mut s = String::from_str("[\"");
    append_json_escaped(&mut s, pubkey);
    s.append("\",{\"encoding\":\"base64\",\"commitment\":\"confirmed\"}]");
    proof {
        reveal_strlit("[\"");
        reveal_strlit("[");
        reveal_strlit("\"");
        reveal_strlit("\",{\"encoding\":\"base64\",\"commitment\":\"confirmed\"}]");
        reveal_strlit(",{\"encoding\":\"base64\",\"commitment\":\"confirmed\"}]");
        assert(s@ =~= "["@ + spec_json_string(pubkey@)
            + ",{\"encoding\":\"base64\",\"commitment\":\"confirmed\"}]"@);
    }
    s
}

/// The parameter array for `getTokenSupply` and
/// `getTokenAccountBalance`: the queried key and confirmed commitment.
pub fn commitment_params(pubkey: &str) -> (r: String)
    ensures
        r@ == "["@ + spec_json_string(pubkey@) + ",{\"commitment\":\"confirmed\"}]"@,
{
    let mut s = String::from_str("[\"");
    append_json_escaped(&mut s, pubkey);
    s.append("\",{\"commitment\":\"confirmed\"}]");
    proof {
        reveal_strlit("[\"");
        reveal_strlit("[");
        reveal_strlit("\"");
        reveal_strlit("\",{\"commitment\":\"confirmed\"}]");
        reveal_strlit(",{\"commitment\":\"confirmed\"}]");
        assert(s@ =~= "["@ + spec_json_string(pubkey@) + ",{\"commitment\":\"confirmed\"}]"@);
    }
    s
}

/// The parameter array for `getTokenAccountsByOwner`: the owner, the SPL
/// token program filter, base64 encoding and confirmed commitment.
pub fn token_accounts_by_owner_params(owner: &str) -> (r: String)
    ensures
        r@ == "["@ + spec_json_string(owner@)
            + ",{\"programId\":\"TokenkegQfeZyiNwAJbNbGKPFXCWuBvf9Ss623VQ5DA\"},{\"encoding\":\"base64\",\"commitment\":\"confirmed\"}]"@,
{
    let mut s = String::from_str("[\"");
    append_json_escaped(&mut s, owner);
    s.append(
        "\",{\"programId\":\"TokenkegQfeZyiNwAJbNbGKPFXCWuBvf9Ss623VQ5DA\"},{\"encoding\":\"base64\",\"commitment\":\"confirmed\"}]",
    );
    proof {
        reveal_strlit("[\"");
        reveal_strlit("[");
        reveal_strlit("\"");
        reveal_strlit(
            "\",{\"programId\":\"TokenkegQfeZyiNwAJbNbGKPFXCWuBvf9Ss623VQ5DA\"},{\"encoding\":\"base64\",\"commitment\":\"confirmed\"}]",
        );
        reveal_strlit(
            ",{\"programId\":\"TokenkegQfeZyiNwAJbNbGKPFXCWuBvf9Ss623VQ5DA\"},{\"encoding\":\"base64\",\"commitment\":\"confirmed\"}]",
        );
        assert(s@ =~= "["@ + spec_json_string(owner@)
            + ",{\"programId\":\"TokenkegQfeZyiNwAJbNbGKPFXCWuBvf9Ss623VQ5DA\"},{\"encoding\":\"base64\",\"commitment\":\"confirmed\"}]"@);
    }
    s
}

/// The parameter array for `getSlot`: confirmed commitment only.
pub fn slot_params() -> (r: String)
    ensures
        r@ == "[{\"commitment\":\"confirmed\"}]"@,
{
    String::from_str("[{\"commitment\":\"confirmed\"}]")
}

/// The parameter array for `getHealth`: empty.
pub fn health_params() -> (r: String)
    ensures
        r@ == "[]"@,
{
    String::from_str("[]")
}

/// The parameter array for `getTransaction`: the signature, JSON
/// encoding, confirmed commitment and the supported version cap.
pub fn transaction_params(signature: &str) -> (r: String)
    ensures
        r@ == "["@ + spec_json_string(signature@)
            + ",{\"encoding\":\"json\",\"commitment\":\"confirmed\",\"maxSupportedTransactionVersion\":0}]"@,
{
    let mut s = String::from_str("[\"");
    append_json_escaped(&mut s, signature);
    s.append(
        "\",{\"encoding\":\"json\",\"commitment\":\"confirmed\",\"maxSupportedTransactionVersion\":0}]",
    );
    proof {
        reveal_strlit("[\"");
        reveal_strlit("[");
        reveal_strlit("\"");
        reveal_strlit(
            "\",{\"encoding\":\"json\",\"commitment\":\"confirmed\",\"maxSupportedTransactionVersion\":0}]",
        );
        reveal_strlit(
            ",{\"encoding\":\"json\",\"commitment\":\"confirmed\",\"maxSupportedTransactionVersion\":0}]",
        );
        assert(s@ =~= "["@ + spec_json_string(signature@)
            + ",{\"encoding\":\"json\",\"commitment\":\"confirmed\",\"maxSupportedTransactionVersion\":0}]"@);
    }
    s
}

// ---------------------------------------------------------------------------
// Response classification
// ---------------------------------------------------------------------------

/// Classifies a JSON-RPC exchange from its plain outcome: a non-2xx HTTP
/// status, a present RPC error object, and a missing `result` field are
/// each a `BlockchainError`; everything else is success.
pub fn classify_rpc_response(status: u16, rpc_error: Option<&RpcErrorInfo>, has_result: bool) -> (r:
    Result<(), AppError>)
    ensures
        !(200 <= status < 300) ==> (r matches Err(AppError::BlockchainError(m)) && m@
            == "RPC response error: status "@ + spec_u64_chars(status as int)),
        (200 <= status < 300) ==> match rpc_error {
            Some(e) => (r matches Err(AppError::BlockchainError(m)) && m@ == "RPC error: "@
                + spec_i64_chars(e.code as int) + " - "@ + e.message@),
            None => true,
        },
        (200 <= status < 300) && rpc_error is None && !has_result ==> (r matches Err(
            AppError::BlockchainError(m),
        ) && m@ == "RPC response is missing the result field"@),
        (200 <= status < 300) && rpc_error is None && has_result ==> r is Ok,
{
    if !(200 <= status && status < 300) {
        let mut m = String::from_str("RPC response error: status ");
        let digits = u64_to_string(status as u64);
        m.append(digits.as_str());
        return Err(AppError::BlockchainError(m));
    }
    match rpc_error {
        Some(e) => {
            let mut m = String::from_str("RPC error: ");
            let code_text = i64_to_string(e.code);
            m.append(code_text.as_str());
            m.append(" - ");
            m.append(e.message.as_str());
            Err(AppError::BlockchainError(m))
        }
        None => {
            if has_result {
                Ok(())
            } else {
                Err(AppError::BlockchainError(String::from_str(
                    "RPC response is missing the result field",
                )))
            }
        }
    }
}

/// The account-query policy: an RPC-level failure degrades to `None`
/// rather than raising; a value that was present but could not be decoded
/// is a hard error.
pub fn interpret_account_query(
    classified: Result<(), AppError>,
    value: Option<Result<AccountInfo, AppError>>,
) -> (r: Result<Option<AccountInfo>, AppError>)
    ensures
        classified is Err ==> r matches Ok(None),
        classified is Ok ==> match value {
            None => r matches Ok(None),
            Some(Ok(a)) => (r matches Ok(Some(b)) && b == a),
            Some(Err(e)) => (r matches Err(e2) && e2 == e),
        },
{
    match classified {
        Err(_) => Ok(None),
        Ok(()) => match value {
            None => Ok(None),
            Some(Ok(a)) => Ok(Some(a)),
            Some(Err(e)) => Err(e),
        },
    }
}

/// Parses the textual token amount of a `getTokenSupply` or
/// `getTokenAccountBalance` result: a missing field and a field that is
/// not a decimal `u64` are each a `BlockchainError`.
pub fn parse_token_amount(amount: Option<&str>) -> (r: Result<u64, AppError>)
    ensures
        amount is None ==> (r matches Err(AppError::BlockchainError(m)) && m@
            == "token amount is missing from the response"@),
        amount matches Some(s) ==> match spec_parse_u64(s@) {
            Some(v) => (r matches Ok(w) && w == v),
            None => (r matches Err(AppError::BlockchainError(m)) && m@
                == "token amount is not a decimal integer"@),
        },
{
    match amount {
        None => Err(AppError::BlockchainError(String::from_str(
            "token amount is missing from the response",
        ))),
        Some(s) => match parse_u64(s) {
            Some(v) => Ok(v),
            None => Err(AppError::BlockchainError(String::from_str(
                "token amount is not a decimal integer",
            ))),
        },
    }
}

/// Interprets a `getSlot` result extracted as a plain unsigned integer.
pub fn interpret_slot_result(value: Option<u64>) -> (r: Result<u64, AppError>)
    ensures
        value matches Some(v) ==> (r matches Ok(w) && w == v),
        value is None ==> (r matches Err(AppError::BlockchainError(m)) && m@
            == "slot is missing from the response"@),
{
    match value {
        Some(v) => Ok(v),
        None => Err(AppError::BlockchainError(String::from_str(
            "slot is missing from the response",
        ))),
    }
}

// ---------------------------------------------------------------------------
// Token-account decoding
// ---------------------------------------------------------------------------

/// The value of a 4-byte little-endian field.
pub open spec fn spec_le_u32(b: Seq<u8>) -> int {
    b[0] + 0x100 * b[1] + 0x10000 * b[2] + 0x1000000 * b[3]
}

/// The value of an 8-byte little-endian field.
pub open spec fn spec_le_u64(b: Seq<u8>) -> int {
    b[0] + 0x100 * b[1] + 0x10000 * b[2] + 0x1000000 * b[3] + 0x100000000 * b[4]
        + 0x10000000000 * b[5] + 0x1000000000000 * b[6] + 0x100000000000000 * b[7]
}

fn read_le_u32(data: &[u8], off: usize) -> (r: u32)
    requires
        off + 4 <= data@.len(),
    ensures
        r as int == spec_le_u32(data@.subrange(off as int, off as int + 4)),
{
    let b0 = data[off] as u32;
    let b1 = data[off + 1] as u32;
    let b2 = data[off + 2] as u32;
    let b3 = data[off + 3] as u32;
    let r = b0 + 0x100 * b1 + 0x10000 * b2 + 0x1000000 * b3;
    proof {
        let sub = data@.subrange(off as int, off as int + 4);
        assert(sub[0] == data@[off as int]);
        assert(sub[1] == data@[off as int + 1]);
        assert(sub[2] == data@[off as int + 2]);
        assert(sub[3] == data@[off as int + 3]);
    }
    r
}

fn read_le_u64(data: &[u8], off: usize) -> (r: u64)
    requires
        off + 8 <= data@.len(),
    ensures
        r as int == spec_le_u64(data@.subrange(off as int, off as int + 8)),
{
    let b0 = data[off] as u64;
    let b1 = data[off + 1] as u64;
    let b2 = data[off + 2] as u64;
    let b3 = data[off + 3] as u64;
    let b4 = data[off + 4] as u64;
    let b5 = data[off + 5] as u64;
    let b6 = data[off + 6] as u64;
    let b7 = data[off + 7] as u64;
    let r = b0 + 0x100 * b1 + 0x10000 * b2 + 0x1000000 * b3 + 0x100000000 * b4 + 0x10000000000
        * b5 + 0x1000000000000 * b6 + 0x100000000000000 * b7;
    proof {
        let sub = data@.subrange(off as int, off as int + 8);
        assert(sub[0] == data@[off as int]);
        assert(sub[1] == data@[off as int + 1]);
        assert(sub[2] == data@[off as int + 2]);
        assert(sub[3] == data@[off as int + 3]);
        assert(sub[4] == data@[off as int + 4]);
        assert(sub[5] == data@[off as int + 5]);
        assert(sub[6] == data@[off as int + 6]);
        assert(sub[7] == data@[off as int + 7]);
    }
    r
}

/// The fixed SPL token-account layout: mint, owner, amount, optional
/// delegate, state byte, optional native amount, delegated amount and
/// optional close authority, 165 bytes in all.
pub open spec fn spec_token_account_fields(t: TokenAccount, b: Seq<u8>) -> bool {
    &&& t.mint@ == base58_of(b.subrange(0, 32))
    &&& t.owner@ == base58_of(b.subrange(32, 64))
    &&& t.amount as int == spec_le_u64(b.subrange(64, 72))
    &&& (if spec_le_u32(b.subrange(72, 76)) == 1 {
        t.delegate matches Some(d) && d@ == base58_of(b.subrange(76, 108))
    } else {
        t.delegate is None
    })
    &&& t.decimals == 0
    &&& t.state == b[108]
    &&& (if spec_le_u32(b.subrange(109, 113)) == 1 {
        t.is_native matches Some(n) && n as int == spec_le_u64(b.subrange(113, 121))
    } else {
        t.is_native is None
    })
    &&& t.delegated_amount as int == spec_le_u64(b.subrange(121, 129))
    &&& (if spec_le_u32(b.subrange(129, 133)) == 1 {
        t.close_authority matches Some(c) && c@ == base58_of(b.subrange(133, 165))
    } else {
        t.close_authority is None
    })
}

/// Decodes the fixed-layout SPL token-account blob.  A blob shorter than
/// 165 bytes is rejected; the account-level decimals are not part of the
/// blob and are reported as zero.
pub fn parse_token_account_data(data: &[u8]) -> (r: Result<TokenAccount, AppError>)
    ensures
        data@.len() < 165 ==> (r matches Err(AppError::BlockchainError(m)) && m@
            == "token account data is too short"@),
        data@.len() >= 165 ==> (r matches Ok(t) && spec_token_account_fields(t, data@)),
{
    if data.len() < 165 {
        return Err(AppError::BlockchainError(String::from_str(
            "token account data is too short",
        )));
    }
    let mint = bs58_encode(vstd::slice::slice_subrange(data, 0, 32));
    let owner = bs58_encode(vstd::slice::slice_subrange(data, 32, 64));
    let amount = read_le_u64(data, 64);
    let delegate_tag = read_le_u32(data, 72);
    let delegate: Option<String> = if delegate_tag == 1 {
        Some(bs58_encode(vstd::slice::slice_subrange(data, 76, 108)))
    } else {
        None
    };
    let state = data[108];
    let native_tag = read_le_u32(data, 109);
    let is_native: Option<u64> = if native_tag == 1 {
        Some(read_le_u64(data, 113))
    } else {
        None
    };
    let delegated_amount = read_le_u64(data, 121);
    let close_tag = read_le_u32(data, 129);
    let close_authority: Option<String> = if close_tag == 1 {
        Some(bs58_encode(vstd::slice::slice_subrange(data, 133, 165)))
    } else {
        None
    };
    Ok(TokenAccount {
        mint,
        owner,
        amount,
        decimals: 0,
        delegate,
        state,
        is_native,
        delegated_amount,
        close_authority,
    })
}

/// What `getTokenAccountInfo` answers for a fetched account: accounts the
/// SPL token program does not own are no token accounts and are never
/// decoded; a payload that is not base64 is a hard error; a too-short
/// blob degrades to `None`.
pub fn token_account_from_account(account: Option<&AccountInfo>) -> (r: Result<
    Option<TokenAccount>,
    AppError,
>)
    requires
        account matches Some(a) ==> a.data@.len() >= 1,
    ensures
        account is None ==> r matches Ok(None),
        account matches Some(a) ==> (if a.owner@ != spec_spl_token_program_id() {
            r matches Ok(None)
        } else {
            match base64_decoded(a.data@[0]@) {
                None => r matches Err(AppError::BlockchainError(m)) && m@
                    == "account data is not valid base64"@,
                Some(bytes) => if bytes.len() < 165 {
                    r matches Ok(None)
                } else {
                    r matches Ok(Some(t)) && spec_token_account_fields(t, bytes)
                },
            }
        }),
{
    match account {
        None => Ok(None),
        Some(acc) => {
            if !str_eq(acc.owner.as_str(), "TokenkegQfeZyiNwAJbNbGKPFXCWuBvf9Ss623VQ5DA") {
                return Ok(None);
            }
            let payload = &acc.data[0];
            match b64_decode(payload.as_str()) {
                None => Err(AppError::BlockchainError(String::from_str(
                    "account data is not valid base64",
                ))),
                Some(bytes) => {
                    match parse_token_account_data(bytes.as_slice()) {
                        Ok(t) => Ok(Some(t)),
                        Err(_) => Ok(None),
                    }
                }
            }
        }
    }
}

/// The entries of a `getTokenAccountsByOwner` result that decode: each
/// pair of account key and base64 payload whose payload decodes to a full
/// token-account blob, in response order; the rest are skipped.
pub open spec fn spec_collected_accounts(entries: Seq<(String, String)>) -> Seq<(Seq<char>, Seq<u8>)>
    decreases entries.len(),
{
    if entries.len() == 0 {
        Seq::empty()
    } else {
        let rest = spec_collected_accounts(entries.drop_last());
        let e = entries.last();
        match base64_decoded(e.1@) {
            Some(b) => if b.len() >= 165 {
                rest.push((e.0@, b))
            } else {
                rest
            },
            None => rest,
        }
    }
}

/// Decodes a bulk owner query: entries that fail to decode are silently
/// skipped, and the order of the rest is kept.
pub fn collect_token_accounts(entries: &Vec<(String, String)>) -> (r: Vec<(String, TokenAccount)>)
    ensures
        r@.len() == spec_collected_accounts(entries@).len(),
        forall|j: int|
            0 <= j < r@.len() ==> (#[trigger] r@[j]).0@ == spec_collected_accounts(entries@)[j].0
                && spec_token_account_fields(r@[j].1, spec_collected_accounts(entries@)[j].1),
{
    let n = entries.len();
    let mut out: Vec<(String, TokenAccount)> = Vec::new();
    let mut i: usize = 0;
    while i < n
        invariant
            i <= n,
            n == entries@.len(),
            out@.len() == spec_collected_accounts(entries@.subrange(0, i as int)).len(),
            forall|j: int|
                0 <= j < out@.len() ==> (#[trigger] out@[j]).0@ == spec_collected_accounts(
                    entries@.subrange(0, i as int),
                )[j].0 && spec_token_account_fields(
                    out@[j].1,
                    spec_collected_accounts(entries@.subrange(0, i as int))[j].1,
                ),
        decreases n - i,
    {
        let ghost pre = entries@.subrange(0, i as int);
        let ghost post = entries@.subrange(0, i as int + 1);
        proof {
            assert(post.drop_last() =~= pre);
            assert(post.last() == entries@[i as int]);
        }
        let pubkey = entries[i].0.clone();
        let payload = &entries[i].1;
        match b64_decode(payload.as_str()) {
            Some(bytes) => {
                if bytes.len() >= 165 {
                    match parse_token_account_data(bytes.as_slice()) {
                        Ok(t) => {
                            out.push((pubkey, t));
                        }
                        Err(_) => {}
                    }
                }
            }
            None => {}
        }
        i = i + 1;
    }
    proof {
        assert(entries@.subrange(0, n as int) =~= entries@);
    }
    out
}

/// What `getTokenInfo` answers once the account and the supply query are
/// in: a missing account or one the SPL token program does not own is no
/// token; otherwise the supply falls back to zero on a failed supply
/// query and the decimals default to 9.
pub fn token_info_of(
    mint: &str,
    account: Option<&AccountInfo>,
    supply_result: Result<u64, AppError>,
) -> (r: Option<TokenInfo>)
    ensures
        account is None ==> r is None,
        account matches Some(a) && a.owner@ != spec_spl_token_program_id() ==> r is None,
        account matches Some(a) && a.owner@ == spec_spl_token_program_id() ==> (r matches Some(t)
            && t.mint@ == mint@ && t.supply == (match supply_result {
            Ok(s) => s,
            Err(_) => 0u64,
        }) && t.decimals == 9 && t.mint_authority is None && t.freeze_authority is None),
{
    match account {
        None => None,
        Some(acc) => {
            if !str_eq(acc.owner.as_str(), "TokenkegQfeZyiNwAJbNbGKPFXCWuBvf9Ss623VQ5DA") {
                return None;
            }
            let supply = match supply_result {
                Ok(s) => s,
                Err(_) => 0,
            };
            Some(TokenInfo {
                mint: mint.to_owned(),
                supply,
                decimals: 9,
                mint_authority: None,
                freeze_authority: None,
            })
        }
    }
}

} // verus!
