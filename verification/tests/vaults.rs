use ctv_vault::ctv::segwit::{
    leaf_ctv, locking_address, sequence_for_delay, vault_locking_script,
    vault_script_from_hashes,
};
use ctv_vault::ctv::{Ctv, Output};
use ctv_vault::error::CtvError;
use ctv_vault::network::Network;
use ctv_vault::transaction::Transaction;
use ctv_vault::vault::Vault;

const HOT: &str = "bcrt1qw508d6qejxtdg4y5r3zarvary0c5xw7kygt080";
const COLD: &str = "bcrt1qqypqxpq9qcrsszg2pvxq6rs0zqg3yyc5phstwt";
const VAULT_ADDRESS: &str = "bcrt1qdw2hf0ggzgr40zdm9q0fkxm649sxamjzey2nwd5al73l2pdlke0q2flvh4";
const HOT_HASH: &str = "d9aeb9637fd343453b28fc148a55f437ae2e7a3e1b850e3bc6503bab52679b2f";
const COLD_HASH: &str = "574670017347ca73d3cee38ad8b0e7ddf1948e971f225d365d74f5c464a8a2f9";

fn vault(amount: u64) -> Vault {
    Vault {
        hot: HOT.to_string(),
        cold: COLD.to_string(),
        amount,
        delay: 144,
        network: Network::Regtest,
    }
}

fn to_hex(tx: &Transaction) -> String {
    tx.serialize_hex().unwrap()
}

fn expected_height_push(height: u16) -> Vec<u8> {
    match height {
        0 => vec![0x00],
        1..=16 => vec![0x50 + height as u8],
        17..=0x7f => vec![1, height as u8],
        0x80..=0xff => vec![2, height as u8, 0],
        0x100..=0x7fff => vec![2, (height & 0xff) as u8, (height >> 8) as u8],
        _ => vec![3, (height & 0xff) as u8, (height >> 8) as u8, 0],
    }
}

#[test]
fn vault_script_for_chosen_delays() {
    let hot: Vec<u8> = (0u8..32).collect();
    let cold = vec![0xee; 32];
    let cases = [
        (0u16, "6300b275"),
        (1, "6351b275"),
        (16, "6360b275"),
        (17, "630111b275"),
        (127, "63017fb275"),
        (128, "63028000b275"),
        (144, "63029000b275"),
        (255, "6302ff00b275"),
        (256, "63020001b275"),
        (32767, "6302ff7fb275"),
        (32768, "6303008000b275"),
        (65535, "6303ffff00b275"),
    ];
    let tail = "20000102030405060708090a0b0c0d0e0f101112131415161718191a1b1c1d1e1fb36720eeeeeeeeeeeeeeeeeeeeeeeeeeeeeeeeeeeeeeeeeeeeeeeeeeeeeeeeeeeeeeeeb368";
    for (delay, head) in cases {
        let script = vault_script_from_hashes(delay, &hot, &cold).unwrap();
        assert_eq!(hex::encode(script), format!("{}{}", head, tail));
    }
}

#[test]
fn vault_script_for_every_delay() {
    let hot = vec![0x11; 32];
    let cold = vec![0x22; 32];
    for delay in 0..=u16::MAX {
        let mut expected = vec![0x63];
        expected.extend_from_slice(&expected_height_push(delay));
        expected.extend_from_slice(&[0xb2, 0x75, 0x20]);
        expected.extend_from_slice(&hot);
        expected.extend_from_slice(&[0xb3, 0x67, 0x20]);
        expected.extend_from_slice(&cold);
        expected.extend_from_slice(&[0xb3, 0x68]);
        assert_eq!(vault_script_from_hashes(delay, &hot, &cold).unwrap(), expected);
    }
}

#[test]
fn vault_script_reads_as_two_branches() {
    let script = vault_script_from_hashes(144, &vec![0x11; 32], &vec![0x22; 32]).unwrap();
    let text = bitcoin::Script::from_bytes(&script).to_string();
    assert_eq!(
        text,
        format!(
            "OP_IF OP_PUSHBYTES_2 9000 OP_CSV OP_DROP OP_PUSHBYTES_32 {} OP_NOP4 OP_ELSE OP_PUSHBYTES_32 {} OP_NOP4 OP_ENDIF",
            "11".repeat(32),
            "22".repeat(32)
        )
    );
}

#[test]
fn vault_script_rejects_hashes_of_other_lengths() {
    let good = vec![1u8; 32];
    for len in [0usize, 31, 33] {
        let bad = vec![1u8; len];
        assert_eq!(vault_script_from_hashes(1, &bad, &good), Err(CtvError::MalformedCommitment));
        assert_eq!(vault_script_from_hashes(1, &good, &bad), Err(CtvError::MalformedCommitment));
    }
}

#[test]
fn vault_locking_script_commits_to_both_leaf_templates() {
    let script = vault_locking_script(
        144,
        COLD.to_string(),
        HOT.to_string(),
        Network::Regtest,
        100000,
    )
    .unwrap();
    assert_eq!(
        hex::encode(&script),
        "63029000b27520d9aeb9637fd343453b28fc148a55f437ae2e7a3e1b850e3bc6503bab52679b2fb36720574670017347ca73d3cee38ad8b0e7ddf1948e971f225d365d74f5c464a8a2f9b368"
    );
    let hot = hex::decode(HOT_HASH).unwrap();
    let cold = hex::decode(COLD_HASH).unwrap();
    assert_eq!(script, vault_script_from_hashes(144, &hot, &cold).unwrap());
}

#[test]
fn vault_locking_script_just_above_the_fee() {
    let script =
        vault_locking_script(1, COLD.to_string(), HOT.to_string(), Network::Regtest, 601).unwrap();
    assert_eq!(
        hex::encode(script),
        "6351b275209ac12f9ac3942992875cccd1a5e52787edc79367c95d9e186b38a8b41aa2f004b3672087eb60a9477a0cf92c90d7d9ab917d784cc69058cc03fe3cf709f820ec05e81eb368"
    );
}

#[test]
fn vault_locking_script_fails_on_small_amounts() {
    for amount in [0u64, 1, 599, 600] {
        assert_eq!(
            vault_locking_script(1, COLD.to_string(), HOT.to_string(), Network::Regtest, amount),
            Err(CtvError::AmountTooSmall)
        );
    }
}

#[test]
fn vault_locking_script_fails_on_foreign_addresses() {
    let foreign = "bc1qw508d6qejxtdg4y5r3zarvary0c5xw7kv8f3t4";
    assert_eq!(
        vault_locking_script(1, foreign.to_string(), HOT.to_string(), Network::Regtest, 1000),
        Err(CtvError::InvalidAddressForNetwork)
    );
    assert_eq!(
        vault_locking_script(1, COLD.to_string(), foreign.to_string(), Network::Regtest, 1000),
        Err(CtvError::InvalidAddressForNetwork)
    );
    assert_eq!(
        vault_locking_script(1, COLD.to_string(), HOT.to_string(), Network::Bitcoin, 1000),
        Err(CtvError::InvalidAddressForNetwork)
    );
}

#[test]
fn leaf_template_pays_the_amount_less_the_fee() {
    let leaf = leaf_ctv(HOT.to_string(), Network::Signet, 601, 144).unwrap();
    assert_eq!(
        leaf,
        Ctv {
            network: Network::Signet,
            version: 1,
            locktime: 0,
            sequences: vec![144],
            outputs: vec![Output::Address { address: HOT.to_string(), amount: 1 }],
        }
    );
}

#[test]
fn leaf_template_needs_more_than_the_fee() {
    for amount in [0u64, 600] {
        assert_eq!(
            leaf_ctv(HOT.to_string(), Network::Regtest, amount, 0),
            Err(CtvError::AmountTooSmall)
        );
    }
}

#[test]
fn branches_pay_the_amount_less_the_fee() {
    for amount in [601u64, 1000, 100000, u64::MAX] {
        let v = vault(amount);
        let hot = v.hot_ctv().unwrap();
        let cold = v.cold_ctv().unwrap();
        assert_eq!(
            hot.outputs,
            vec![Output::Address { address: HOT.to_string(), amount: amount - 600 }]
        );
        assert_eq!(
            cold.outputs,
            vec![Output::Address { address: COLD.to_string(), amount: amount - 600 }]
        );
        assert_eq!(hot.sequences, vec![144]);
        assert_eq!(cold.sequences, vec![0]);
        assert_eq!(hot.version, 1);
        assert_eq!(hot.locktime, 0);
        assert_eq!(hot.network, Network::Regtest);
    }
}

#[test]
fn vault_not_above_the_fee_yields_nothing() {
    for amount in [0u64, 1, 599, 600] {
        let v = vault(amount);
        assert_eq!(v.hot_ctv(), Err(CtvError::AmountTooSmall));
        assert_eq!(v.cold_ctv(), Err(CtvError::AmountTooSmall));
        assert_eq!(v.vault_address(), Err(CtvError::AmountTooSmall));
        assert_eq!(v.vault_ctv(), Err(CtvError::AmountTooSmall));
    }
}

#[test]
fn branch_hashes_are_those_in_the_script() {
    let v = vault(100000);
    assert_eq!(hex::encode(v.hot_ctv().unwrap().ctv().unwrap()), HOT_HASH);
    assert_eq!(hex::encode(v.cold_ctv().unwrap().ctv().unwrap()), COLD_HASH);
}

#[test]
fn branches_commit_to_different_hashes() {
    let v = vault(100000);
    assert_ne!(v.hot_ctv().unwrap().ctv().unwrap(), v.cold_ctv().unwrap().ctv().unwrap());
    assert_ne!(v.hot_ctv().unwrap().as_tx().unwrap(), v.cold_ctv().unwrap().as_tx().unwrap());
    let other = vault(100001);
    assert_ne!(v.hot_ctv().unwrap().ctv().unwrap(), other.hot_ctv().unwrap().ctv().unwrap());
}

#[test]
fn hot_branch_carries_the_sequence_for_the_delay() {
    for delay in [0u16, 1, 16, 144, 0x7fff, 0x8000, u16::MAX] {
        let mut v = vault(100000);
        v.delay = delay;
        let hot = v.hot_ctv().unwrap();
        let cold = v.cold_ctv().unwrap();
        assert_eq!(hot.sequences, vec![delay as u32]);
        assert_eq!(hot.sequences, vec![bitcoin::Sequence::from_height(delay).0]);
        assert_eq!(cold.sequences, vec![0]);
        assert_eq!(sequence_for_delay(delay), delay as u32);
        let chain = hot.spending_tx([1; 32], 0).unwrap();
        assert_eq!(chain[0].input[0].sequence, delay as u32);
        let script = vault_locking_script(
            delay,
            COLD.to_string(),
            HOT.to_string(),
            Network::Regtest,
            100000,
        )
        .unwrap();
        let expected = vault_script_from_hashes(
            delay,
            &hot.ctv().unwrap(),
            &cold.ctv().unwrap(),
        )
        .unwrap();
        assert_eq!(script, expected);
    }
    let mut v = vault(100000);
    v.delay = u16::MAX;
    assert_eq!(
        hex::encode(v.hot_ctv().unwrap().ctv().unwrap()),
        "e3eb01b79c1dfd04ae8d89b0cf7d3bccbe5e368800a1cc6f28aca9f97e1867f1"
    );
}

#[test]
fn branches_with_a_delay_differ_even_for_one_address() {
    let mut v = vault(100000);
    v.cold = HOT.to_string();
    assert_ne!(v.hot_ctv().unwrap().as_tx().unwrap(), v.cold_ctv().unwrap().as_tx().unwrap());
    assert_ne!(v.hot_ctv().unwrap().ctv().unwrap(), v.cold_ctv().unwrap().ctv().unwrap());
}

#[test]
fn addresses_that_differ_in_case_only_commit_to_the_same_hash() {
    let mut v = vault(100000);
    v.delay = 0;
    v.cold = HOT.to_uppercase();
    assert_ne!(v.hot, v.cold);
    assert_ne!(v.hot_ctv().unwrap(), v.cold_ctv().unwrap());
    assert_eq!(v.hot_ctv().unwrap().as_tx().unwrap(), v.cold_ctv().unwrap().as_tx().unwrap());
    assert_eq!(v.hot_ctv().unwrap().ctv().unwrap(), v.cold_ctv().unwrap().ctv().unwrap());
}

#[test]
fn vault_address_pays_to_the_vault_script() {
    let v = vault(100000);
    assert_eq!(v.vault_address().unwrap(), VAULT_ADDRESS);
    let script = vault_locking_script(
        144,
        COLD.to_string(),
        HOT.to_string(),
        Network::Regtest,
        100000,
    )
    .unwrap();
    assert_eq!(v.vault_address().unwrap(), locking_address(&script, Network::Regtest));
}

#[test]
fn vault_address_depends_on_every_parameter() {
    let base = vault(100000).vault_address().unwrap();
    let mut v = vault(100000);
    v.delay = 145;
    assert_ne!(v.vault_address().unwrap(), base);
    let mut v = vault(100000);
    v.amount = 100001;
    assert_ne!(v.vault_address().unwrap(), base);
    let mut v = vault(100000);
    v.hot = COLD.to_string();
    assert_ne!(v.vault_address().unwrap(), base);
    let mut v = vault(100000);
    v.cold = HOT.to_string();
    assert_ne!(v.vault_address().unwrap(), base);
}

#[test]
fn vault_address_survives_a_round_trip_through_text() {
    let v = vault(100000);
    let before = v.vault_address().unwrap();
    let mut fields = serde_json::Map::new();
    fields.insert("hot".to_string(), serde_json::Value::from(v.hot.clone()));
    fields.insert("cold".to_string(), serde_json::Value::from(v.cold.clone()));
    fields.insert("amount".to_string(), serde_json::Value::from(v.amount));
    fields.insert("delay".to_string(), serde_json::Value::from(v.delay));
    fields.insert("network".to_string(), serde_json::Value::from("regtest"));
    let text = serde_json::to_string(&serde_json::Value::Object(fields)).unwrap();
    let read: serde_json::Value = serde_json::from_str(&text).unwrap();
    let restored = Vault {
        hot: read["hot"].as_str().unwrap().to_string(),
        cold: read["cold"].as_str().unwrap().to_string(),
        amount: read["amount"].as_u64().unwrap(),
        delay: read["delay"].as_u64().unwrap() as u16,
        network: match read["network"].as_str().unwrap() {
            "regtest" => Network::Regtest,
            other => panic!("unexpected network {}", other),
        },
    };
    assert_eq!(restored, v);
    assert_eq!(restored.vault_address().unwrap(), before);
    assert_eq!(v.vault_address().unwrap(), before);
}

#[test]
fn vault_template_pays_into_the_vault() {
    let v = vault(100000);
    let template = v.vault_ctv().unwrap();
    assert_eq!(
        template,
        Ctv {
            network: Network::Regtest,
            version: 1,
            locktime: 0,
            sequences: vec![0],
            outputs: vec![Output::Address { address: VAULT_ADDRESS.to_string(), amount: 100000 }],
        }
    );
    assert_eq!(
        hex::encode(template.ctv().unwrap()),
        "6f0e4fb355ef1610b0918a3f9b93ab60a41135b11d9e09a15a084964a1686568"
    );
}

#[test]
fn unvault_and_hot_transactions() {
    let v = vault(100000);
    let unvault = v.vault_ctv().unwrap().spending_tx([0xaa; 32], 1).unwrap();
    assert_eq!(unvault.len(), 1);
    assert_eq!(
        to_hex(&unvault[0]),
        "01000000000101aaaaaaaaaaaaaaaaaaaaaaaaaaaaaaaaaaaaaaaaaaaaaaaaaaaaaaaaaaaaaaaa01000000000000000001a0860100000000002200206b9574bd0812075789bb281e9b1b7aa9606eee42c91537369dffa3f505bfb65e0122206f0e4fb355ef1610b0918a3f9b93ab60a41135b11d9e09a15a084964a1686568b300000000"
    );
    let txid: [u8; 32] =
        hex::decode("13d1a40a988abf8a6603c146f79c1866ddeae34b4c68cd1396df1055a002a99f")
            .unwrap()
            .try_into()
            .unwrap();
    let hot = v.hot_ctv().unwrap().spending_tx(txid, 0).unwrap();
    assert_eq!(hot.len(), 1);
    assert_eq!(
        to_hex(&hot[0]),
        "0100000000010113d1a40a988abf8a6603c146f79c1866ddeae34b4c68cd1396df1055a002a99f000000000090000000014884010000000000160014751e76e8199196d454941c45d1b3a323f1433bd6012220d9aeb9637fd343453b28fc148a55f437ae2e7a3e1b850e3bc6503bab52679b2fb300000000"
    );
    let cold = v.cold_ctv().unwrap().spending_tx(txid, 0).unwrap();
    assert_eq!(cold.len(), 1);
    assert_eq!(
        to_hex(&cold[0]),
        "0100000000010113d1a40a988abf8a6603c146f79c1866ddeae34b4c68cd1396df1055a002a99f0000000000000000000148840100000000001600140102030405060708090a0b0c0d0e0f1011121314012220574670017347ca73d3cee38ad8b0e7ddf1948e971f225d365d74f5c464a8a2f9b300000000"
    );
}
