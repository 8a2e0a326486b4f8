use tx_normalizer::normalize::{
    build_account_table, parse_single_transaction, resolve_account, resolve_program,
};
use tx_normalizer::parsed::MissingField;
use tx_normalizer::raw::{RpcInstruction, RpcLoadedAddresses, RpcMessage, RpcMeta, RpcTransactionContainer};

fn strings(v: &[&str]) -> Vec<String> {
    v.iter().map(|s| s.to_string()).collect()
}

fn plain_meta(err: Option<serde_json::Value>, loaded: Option<RpcLoadedAddresses>) -> RpcMeta {
    RpcMeta {
        err,
        log_messages: vec![],
        pre_balances: vec![],
        post_balances: vec![],
        loaded_addresses: loaded,
        fee: 0,
        compute_units_consumed: None,
    }
}

fn tx_with(keys: &[&str], instructions: Vec<RpcInstruction>) -> RpcTransactionContainer {
    RpcTransactionContainer {
        signatures: strings(&["sig0"]),
        message: RpcMessage {
            account_keys: strings(keys),
            instructions,
        },
    }
}

#[test]
fn scenario_static_keys_only() {
    let tx = tx_with(
        &["A", "B"],
        vec![RpcInstruction {
            program_id_index: 0,
            accounts: vec![1],
            data: "x".to_string(),
        }],
    );
    let meta = plain_meta(None, None);
    let parsed = parse_single_transaction(tx, meta).unwrap();
    assert_eq!(parsed.signature, "sig0");
    assert_eq!(parsed.fee_payer, "A");
    assert_eq!(parsed.account_keys, strings(&["A", "B"]));
    assert_eq!(parsed.instructions.len(), 1);
    assert_eq!(parsed.instructions[0].program_id, "A");
    assert_eq!(parsed.instructions[0].accounts, strings(&["B"]));
    assert_eq!(parsed.instructions[0].data, "x");
}

#[test]
fn scenario_loaded_addresses_and_out_of_range() {
    let tx = tx_with(
        &["A"],
        vec![RpcInstruction {
            program_id_index: 2,
            accounts: vec![5],
            data: "y".to_string(),
        }],
    );
    let loaded = RpcLoadedAddresses {
        writable: strings(&["B"]),
        readonly: strings(&["C"]),
    };
    let meta = plain_meta(None, Some(loaded));
    let parsed = parse_single_transaction(tx, meta).unwrap();
    assert_eq!(parsed.account_keys, strings(&["A", "B", "C"]));
    assert_eq!(parsed.instructions[0].program_id, "C");
    assert_eq!(parsed.instructions[0].accounts, strings(&["UNKNOWN_IDX_5"]));
    assert_eq!(parsed.instructions[0].data, "y");
}

#[test]
fn success_flag_error_absent() {
    let tx = tx_with(&["A"], vec![]);
    let parsed = parse_single_transaction(tx, plain_meta(None, None)).unwrap();
    assert!(parsed.is_success);
}

#[test]
fn success_flag_error_present() {
    let tx = tx_with(&["A"], vec![]);
    let mut err_detail = serde_json::Map::new();
    err_detail.insert(
        "InstructionError".to_string(),
        serde_json::Value::String("Custom".to_string()),
    );
    let meta = plain_meta(Some(serde_json::Value::Object(err_detail)), None);
    let parsed = parse_single_transaction(tx, meta).unwrap();
    assert!(!parsed.is_success);
}

#[test]
fn table_order_preserves_duplicates() {
    let keys = strings(&["X", "Y", "X"]);
    let loaded = Some(RpcLoadedAddresses {
        writable: strings(&["Y"]),
        readonly: strings(&["Z", "X"]),
    });
    let table = build_account_table(&keys, &loaded);
    assert_eq!(table, strings(&["X", "Y", "X", "Y", "Z", "X"]));
}

#[test]
fn table_without_loaded_addresses() {
    let keys = strings(&["K1", "K2"]);
    let table = build_account_table(&keys, &None);
    assert_eq!(table, strings(&["K1", "K2"]));
}

#[test]
fn program_sentinel_is_fixed() {
    let table = strings(&["A"]);
    assert_eq!(resolve_program(&table, 0), "A");
    assert_eq!(resolve_program(&table, 7), "UNKNOWN_PROGRAM_INDEX");
    assert_eq!(resolve_program(&table, 9), "UNKNOWN_PROGRAM_INDEX");
}

#[test]
fn account_sentinel_embeds_index() {
    let table: Vec<String> = vec![];
    assert_eq!(resolve_account(&table, 0), "UNKNOWN_IDX_0");
    assert_eq!(resolve_account(&table, 5), "UNKNOWN_IDX_5");
    assert_eq!(resolve_account(&table, 123), "UNKNOWN_IDX_123");
    assert_eq!(resolve_account(&table, 1048576), "UNKNOWN_IDX_1048576");
}

#[test]
fn account_sentinels_distinct() {
    let table: Vec<String> = vec![];
    let a = resolve_account(&table, 5);
    let b = resolve_account(&table, 7);
    assert_ne!(a, b);
    let c = resolve_account(&table, 12);
    let d = resolve_account(&table, 21);
    assert_ne!(c, d);
}

#[test]
fn missing_signature_reported() {
    let tx = RpcTransactionContainer {
        signatures: vec![],
        message: RpcMessage {
            account_keys: strings(&["A"]),
            instructions: vec![],
        },
    };
    let r = parse_single_transaction(tx, plain_meta(None, None));
    assert_eq!(r.unwrap_err(), MissingField::Signature);
}

#[test]
fn missing_fee_payer_reported() {
    let tx = RpcTransactionContainer {
        signatures: strings(&["sig0"]),
        message: RpcMessage {
            account_keys: vec![],
            instructions: vec![],
        },
    };
    let r = parse_single_transaction(tx, plain_meta(None, None));
    assert_eq!(r.unwrap_err(), MissingField::FeePayer);
}

#[test]
fn metadata_passes_through_verbatim() {
    let tx = tx_with(&["A"], vec![]);
    let meta = RpcMeta {
        err: None,
        log_messages: strings(&["log one", "log two"]),
        pre_balances: vec![100, 200],
        post_balances: vec![90, 210],
        loaded_addresses: None,
        fee: 5000,
        compute_units_consumed: Some(1234),
    };
    let parsed = parse_single_transaction(tx, meta).unwrap();
    assert_eq!(parsed.log_messages, strings(&["log one", "log two"]));
    assert_eq!(parsed.pre_balances, vec![100, 200]);
    assert_eq!(parsed.post_balances, vec![90, 210]);
    assert_eq!(parsed.fee, 5000);
    assert_eq!(parsed.compute_units_consumed, Some(1234));
}

#[test]
fn data_payload_not_reencoded() {
    let tx = tx_with(
        &["A"],
        vec![RpcInstruction {
            program_id_index: 0,
            accounts: vec![],
            data: "3Bxs4h24hBtQy9rw".to_string(),
        }],
    );
    let parsed = parse_single_transaction(tx, plain_meta(None, None)).unwrap();
    assert_eq!(parsed.instructions[0].data, "3Bxs4h24hBtQy9rw");
}
