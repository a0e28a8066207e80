use rgb_mintingservice::address::{check_address, AddressFaultKind, Network};
use rgb_mintingservice::dispatch::{
    number_answer, user_created_message, user_exists_message,
};
use rgb_mintingservice::flow::{Progress, Reply, ReplyKind};
use rgb_mintingservice::text::{decimal_text, joined, same_text};
use rgb_mintingservice::txid::parse_txid;
use rgb_mintingservice::user::{holds_text, KeySet, User};
use rgb_mintingservice::wallet::{FeeRate, Recipient, WalletCall};

const REGTEST_ADDRESS: &str = "bcrt1q2nfxmhd4n3c8834pj72xagvyr9gl57n5r94fsl";

#[test]
fn a_regtest_address_is_valid_on_regtest_only() {
    assert_eq!(check_address(REGTEST_ADDRESS, Network::Regtest), Ok(REGTEST_ADDRESS.to_string()));
    for other in [Network::Bitcoin, Network::Testnet, Network::Signet] {
        let fault = check_address(REGTEST_ADDRESS, other).unwrap_err();
        assert_eq!(fault.kind, AddressFaultKind::WrongNetwork);
    }
}

#[test]
fn a_wrong_network_is_named_in_the_message() {
    let fault = check_address(REGTEST_ADDRESS, Network::Bitcoin).unwrap_err();
    assert_eq!(
        fault.message,
        "address bcrt1q2nfxmhd4n3c8834pj72xagvyr9gl57n5r94fsl belongs to network regtest which is different from required bitcoin"
    );
}

#[test]
fn legacy_test_addresses_are_shared_by_the_test_networks() {
    for text in ["2N83imGV3gPwBzKJQvWJ7cRUY2SpUyU6A5e", "mqkhEMH6NCeYjFybv7pvFC22MFeaNT9AQC"] {
        for network in [Network::Testnet, Network::Signet, Network::Regtest] {
            assert_eq!(check_address(text, network), Ok(text.to_string()));
        }
        let fault = check_address(text, Network::Bitcoin).unwrap_err();
        assert_eq!(fault.kind, AddressFaultKind::WrongNetwork);
    }
}

#[test]
fn a_witness_address_of_testnet_is_not_valid_on_regtest() {
    let text = "tb1qrp33g0q5c5txsp9arysrx4k6zdkfs4nce4xj0gdcccefvpysxf3q0sl5k7";
    assert_eq!(check_address(text, Network::Testnet), Ok(text.to_string()));
    assert_eq!(check_address(text, Network::Signet), Ok(text.to_string()));
    assert_eq!(check_address(text, Network::Regtest).unwrap_err().kind, AddressFaultKind::WrongNetwork);
    assert_eq!(check_address(text, Network::Bitcoin).unwrap_err().kind, AddressFaultKind::WrongNetwork);
}

#[test]
fn a_mainnet_address_is_valid_on_mainnet_only() {
    for text in ["32iVBEu4dxkUQk9dJbZUiBiQdmypcEyJRf", "bc1qvzvkjn4q3nszqxrv3nraga2r822xjty3ykvkuw"] {
        assert_eq!(check_address(text, Network::Bitcoin), Ok(text.to_string()));
        for network in [Network::Testnet, Network::Signet, Network::Regtest] {
            assert_eq!(check_address(text, network).unwrap_err().kind, AddressFaultKind::WrongNetwork);
        }
    }
}

#[test]
fn an_address_is_handed_back_in_the_parsers_writing() {
    let shouted = REGTEST_ADDRESS.to_uppercase();
    assert_ne!(shouted, REGTEST_ADDRESS);
    assert_eq!(check_address(&shouted, Network::Regtest), Ok(REGTEST_ADDRESS.to_string()));
}

#[test]
fn a_text_that_is_no_address_is_malformed() {
    for text in ["", "hello", "bcrt1qqqqq", " bcrt1q2nfxmhd4n3c8834pj72xagvyr9gl57n5r94fsl"] {
        let fault = check_address(text, Network::Regtest).unwrap_err();
        assert_eq!(fault.kind, AddressFaultKind::Malformed, "{:?}", text);
        assert!(!fault.message.is_empty());
    }
}

#[test]
fn a_txid_is_sixty_four_hex_digits() {
    let lower = "4a5e1e4baab89f3a32518a88c31bc87f618f76673e2cc77ab2127b7afdeda33b";
    assert_eq!(parse_txid(lower).unwrap().as_text(), lower);
    let upper = lower.to_uppercase();
    assert_eq!(parse_txid(&upper).unwrap().as_text(), upper);
    assert_eq!(parse_txid(lower).unwrap(), parse_txid(lower).unwrap());
    assert_ne!(parse_txid(lower).unwrap(), parse_txid(&upper).unwrap());
}

#[test]
fn a_txid_of_another_length_is_turned_down() {
    let short = "4a5e1e4baab89f3a32518a88c31bc87f618f76673e2cc77ab2127b7afdeda33";
    assert_eq!(parse_txid(short), Err("odd hex string length 63".to_string()));
    let even = "4a5e1e4baab89f3a32518a88c31bc87f618f76673e2cc77ab2127b7afdeda3";
    assert_eq!(parse_txid(even), Err("bad hex string length 62 (expected 64)".to_string()));
    assert_eq!(parse_txid(""), Err("bad hex string length 0 (expected 64)".to_string()));
}

#[test]
fn a_txid_with_another_character_is_turned_down() {
    let text = "4a5e1e4baab89f3a32518a88c31bc87f618f76673e2cc77ab2127b7afdeda33g";
    assert_eq!(parse_txid(text), Err("invalid hex character 103".to_string()));
    let wide = "é".repeat(32);
    assert_eq!(wide.len(), 64);
    assert!(parse_txid(&wide).is_err());
}

#[test]
fn numbers_are_written_in_decimal() {
    assert_eq!(decimal_text(0), "0");
    assert_eq!(decimal_text(7), "7");
    assert_eq!(decimal_text(10), "10");
    assert_eq!(decimal_text(255), "255");
    assert_eq!(decimal_text(1_000_000), "1000000");
    assert_eq!(decimal_text(u64::MAX), "18446744073709551615");
}

#[test]
fn a_number_is_answered_as_json_writes_it() {
    for value in [0, 9, 10, 120, 18_446_744_073_709_551_615] {
        let reply = match number_answer(value) {
            Progress::Reply(reply) => reply,
            Progress::Pending(task) => panic!("{:?}", task),
        };
        assert_eq!(reply, Reply { kind: ReplyKind::Done, text: value.to_string() });
        assert_eq!(reply.text, decimal_text(value));
    }
}

#[test]
fn texts_are_joined_and_compared_by_their_characters() {
    assert_eq!(joined("data/", "alice"), "data/alice");
    assert_eq!(joined("", ""), "");
    assert!(same_text("alice", "alice"));
    assert!(!same_text("alice", "Alice"));
    assert!(!same_text("alice", "alic"));
    assert!(same_text("", ""));
}

#[test]
fn a_list_holds_a_text_by_exact_match() {
    let list = vec!["rgb:one".to_string(), "rgb:two".to_string()];
    assert!(holds_text(&list, "rgb:two"));
    assert!(!holds_text(&list, "rgb:tw"));
    assert!(!holds_text(&list, "RGB:one"));
    assert!(!holds_text(&Vec::new(), "rgb:one"));
}

#[test]
fn the_wallet_directory_is_derived_from_the_name() {
    assert_eq!(User::data_dir("alice"), "data/alice");
    assert_eq!(User::data_dir(""), "data/");
    assert_eq!(User::data_dir("a/b"), "data/a/b");
}

#[test]
fn the_messages_of_user_creation() {
    assert_eq!(user_exists_message("bob"), "User bob already exists.");
    assert_eq!(user_created_message("bob", "f00dcafe"), "Created user f00dcafe, with fingerprint bob");
}

#[test]
fn a_transfer_looks_the_asset_up_by_its_exact_id() {
    let keys = KeySet {
        mnemonic: String::new(),
        account_xpub: String::new(),
        account_xpub_fingerprint: String::new(),
    };
    let user = User::new("alice", keys);
    let holdings = vec!["rgb:one".to_string(), "rgb:two".to_string()];
    let rate = FeeRate { bits: 2.0f32.to_bits() };
    let found = user.send(&holdings, "rgb:two".to_string(), "utxob:x".to_string(), 1, rate);
    assert_eq!(
        found,
        WalletCall::Send {
            recipients: vec![Recipient::single("rgb:two".to_string(), "utxob:x".to_string(), 1)],
            skip_sync: false,
            fee_rate: rate,
            min_confirmations: 1,
        }
    );
    let missing = user.send(&holdings, "rgb:tw".to_string(), "utxob:x".to_string(), 1, rate);
    assert_eq!(
        missing,
        WalletCall::Send { recipients: vec![], skip_sync: false, fee_rate: rate, min_confirmations: 1 }
    );
    assert_eq!(
        user.list_transfers("rgb:one".to_string()),
        WalletCall::ListTransfers { asset_id: "rgb:one".to_string() }
    );
    assert_eq!(user.get_balance(), WalletCall::ListUnspentsVanilla { min_confirmations: 1 });
    assert_eq!(
        user.create_utxo(rate),
        WalletCall::CreateUtxos { include_settled: true, count: None, size: None, fee_rate: rate }
    );
}
