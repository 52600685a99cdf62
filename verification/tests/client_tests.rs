use base64::Engine;
use solcore::errors::AppError;
use solcore::solana_client::{
    account_info_params, classify_rpc_response, collect_token_accounts, commitment_params,
    health_params, interpret_account_query, interpret_slot_result, parse_token_account_data,
    parse_token_amount, slot_params, token_account_from_account, token_accounts_by_owner_params,
    token_info_of, transaction_params, AccountInfo, RpcErrorInfo, SolanaClientService,
};

const SPL_PROGRAM: &str = "TokenkegQfeZyiNwAJbNbGKPFXCWuBvf9Ss623VQ5DA";

fn sample_blob() -> Vec<u8> {
    let mut data = vec![0u8; 165];
    for b in data.iter_mut().take(32) {
        *b = 1;
    }
    for b in data.iter_mut().take(64).skip(32) {
        *b = 2;
    }
    data[64] = 5; // amount = 5, little endian
    data[108] = 1; // state
    data[121] = 7; // delegated amount = 7
    data
}

#[test]
fn request_ids_increase_and_envelope_is_exact() {
    let mut client = SolanaClientService::new("http://node.example".to_string(), None);
    assert_eq!(client.timeout_seconds, 30);
    let body = client.build_rpc_request("getHealth", "[]");
    assert_eq!(body, "{\"jsonrpc\":\"2.0\",\"id\":1,\"method\":\"getHealth\",\"params\":[]}");
    let body2 = client.build_rpc_request("getSlot", &slot_params());
    assert_eq!(
        body2,
        "{\"jsonrpc\":\"2.0\",\"id\":2,\"method\":\"getSlot\",\"params\":[{\"commitment\":\"confirmed\"}]}"
    );
}

#[test]
fn params_builders_are_exact() {
    assert_eq!(
        account_info_params("PuBKeY1"),
        "[\"PuBKeY1\",{\"encoding\":\"base64\",\"commitment\":\"confirmed\"}]"
    );
    assert_eq!(commitment_params("MiNt"), "[\"MiNt\",{\"commitment\":\"confirmed\"}]");
    assert_eq!(health_params(), "[]");
    assert_eq!(
        token_accounts_by_owner_params("OwNeR"),
        "[\"OwNeR\",{\"programId\":\"TokenkegQfeZyiNwAJbNbGKPFXCWuBvf9Ss623VQ5DA\"},{\"encoding\":\"base64\",\"commitment\":\"confirmed\"}]"
    );
    assert_eq!(
        transaction_params("SiG"),
        "[\"SiG\",{\"encoding\":\"json\",\"commitment\":\"confirmed\",\"maxSupportedTransactionVersion\":0}]"
    );
}

#[test]
fn params_builder_escapes_payload() {
    assert_eq!(
        commitment_params("a\"b"),
        "[\"a\\\"b\",{\"commitment\":\"confirmed\"}]"
    );
}

#[test]
fn classify_reports_each_failure() {
    match classify_rpc_response(500, None, true) {
        Err(AppError::BlockchainError(m)) => assert_eq!(m, "RPC response error: status 500"),
        other => panic!("unexpected: {:?}", other),
    }
    let rpc_err = RpcErrorInfo { code: -32601, message: "method not found".to_string() };
    match classify_rpc_response(200, Some(&rpc_err), true) {
        Err(AppError::BlockchainError(m)) => {
            assert_eq!(m, "RPC error: -32601 - method not found")
        }
        other => panic!("unexpected: {:?}", other),
    }
    match classify_rpc_response(200, None, false) {
        Err(AppError::BlockchainError(m)) => {
            assert_eq!(m, "RPC response is missing the result field")
        }
        other => panic!("unexpected: {:?}", other),
    }
    assert!(classify_rpc_response(200, None, true).is_ok());
}

#[test]
fn account_query_soft_fails_on_rpc_error() {
    let rpc_failure = Err(AppError::BlockchainError("boom".to_string()));
    assert_eq!(interpret_account_query(rpc_failure, None), Ok(None));
    assert_eq!(interpret_account_query(Ok(()), None), Ok(None));
}

#[test]
fn token_amount_parsing() {
    assert_eq!(parse_token_amount(Some("123456")).unwrap(), 123456);
    assert_eq!(parse_token_amount(Some("+42")).unwrap(), 42);
    assert!(parse_token_amount(Some("12x")).is_err());
    assert!(parse_token_amount(Some("18446744073709551616")).is_err());
    assert!(parse_token_amount(None).is_err());
}

#[test]
fn slot_result_interpretation() {
    assert_eq!(interpret_slot_result(Some(321)).unwrap(), 321);
    assert!(interpret_slot_result(None).is_err());
}

#[test]
fn short_blob_is_rejected() {
    assert!(parse_token_account_data(&[0u8; 164]).is_err());
    assert!(parse_token_account_data(&[]).is_err());
}

#[test]
fn full_blob_decodes_fields() {
    let data = sample_blob();
    let acc = parse_token_account_data(&data).unwrap();
    assert_eq!(acc.mint, bs58::encode([1u8; 32]).into_string());
    assert_eq!(acc.owner, bs58::encode([2u8; 32]).into_string());
    assert_eq!(acc.amount, 5);
    assert_eq!(acc.delegate, None);
    assert_eq!(acc.state, 1);
    assert_eq!(acc.is_native, None);
    assert_eq!(acc.delegated_amount, 7);
    assert_eq!(acc.close_authority, None);
}

#[test]
fn optional_fields_decode_when_tagged() {
    let mut data = sample_blob();
    data[72] = 1; // delegate present
    for b in data.iter_mut().take(108).skip(76) {
        *b = 3;
    }
    data[109] = 1; // native amount present
    data[113] = 9;
    data[129] = 1; // close authority present
    for b in data.iter_mut().take(165).skip(133) {
        *b = 4;
    }
    let acc = parse_token_account_data(&data).unwrap();
    assert_eq!(acc.delegate, Some(bs58::encode([3u8; 32]).into_string()));
    assert_eq!(acc.is_native, Some(9));
    assert_eq!(acc.close_authority, Some(bs58::encode([4u8; 32]).into_string()));
}

#[test]
fn foreign_owner_yields_none_without_decoding() {
    let account = AccountInfo {
        data: vec!["not even base64 !!!".to_string(), "base64".to_string()],
        executable: false,
        lamports: 10,
        owner: "SomeOtherProgram1111111111111111111111111111".to_string(),
        rent_epoch: 0,
    };
    // The payload is invalid on purpose: were it decoded, this would error.
    assert_eq!(token_account_from_account(Some(&account)).unwrap(), None);
    assert_eq!(token_account_from_account(None).unwrap(), None);
}

#[test]
fn spl_owner_with_short_payload_yields_none() {
    let payload = base64::engine::general_purpose::STANDARD.encode([0u8; 64]);
    let account = AccountInfo {
        data: vec![payload, "base64".to_string()],
        executable: false,
        lamports: 10,
        owner: SPL_PROGRAM.to_string(),
        rent_epoch: 0,
    };
    assert_eq!(token_account_from_account(Some(&account)).unwrap(), None);
}

#[test]
fn spl_owner_with_full_payload_decodes() {
    let payload = base64::engine::general_purpose::STANDARD.encode(sample_blob());
    let account = AccountInfo {
        data: vec![payload, "base64".to_string()],
        executable: false,
        lamports: 10,
        owner: SPL_PROGRAM.to_string(),
        rent_epoch: 0,
    };
    let acc = token_account_from_account(Some(&account)).unwrap().unwrap();
    assert_eq!(acc.amount, 5);
    assert_eq!(acc.mint, bs58::encode([1u8; 32]).into_string());
}

#[test]
fn bulk_collection_skips_undecodable_entries() {
    let good = base64::engine::general_purpose::STANDARD.encode(sample_blob());
    let short = base64::engine::general_purpose::STANDARD.encode([0u8; 10]);
    let entries = vec![
        ("acct1".to_string(), good.clone()),
        ("acct2".to_string(), "!!not base64!!".to_string()),
        ("acct3".to_string(), short),
        ("acct4".to_string(), good),
    ];
    let collected = collect_token_accounts(&entries);
    assert_eq!(collected.len(), 2);
    assert_eq!(collected[0].0, "acct1");
    assert_eq!(collected[1].0, "acct4");
    assert_eq!(collected[0].1.amount, 5);
}

#[test]
fn token_info_defaults() {
    let account = AccountInfo {
        data: vec!["AA==".to_string(), "base64".to_string()],
        executable: false,
        lamports: 10,
        owner: SPL_PROGRAM.to_string(),
        rent_epoch: 0,
    };
    let info = token_info_of("MintX", Some(&account), Ok(777)).unwrap();
    assert_eq!(info.mint, "MintX");
    assert_eq!(info.supply, 777);
    assert_eq!(info.decimals, 9);
    let fallback = token_info_of(
        "MintX",
        Some(&account),
        Err(AppError::BlockchainError("x".to_string())),
    )
    .unwrap();
    assert_eq!(fallback.supply, 0);
    assert!(token_info_of("MintX", None, Ok(1)).is_none());
    let foreign = AccountInfo { owner: "other".to_string(), ..account };
    assert!(token_info_of("MintX", Some(&foreign), Ok(1)).is_none());
}
