use ctv_vault::ctv::util::{ctv, outputs, scriptsigs, sequences, sha256};
use ctv_vault::transaction::{OutPoint, Transaction, TxIn, TxOut};

fn from_bitcoin(tx: &bitcoin::Transaction) -> Transaction {
    Transaction {
        version: tx.version.0,
        lock_time: tx.lock_time.to_consensus_u32(),
        input: tx
            .input
            .iter()
            .map(|i| TxIn {
                previous_output: OutPoint {
                    txid: bitcoin::hashes::Hash::to_byte_array(i.previous_output.txid),
                    vout: i.previous_output.vout,
                },
                script_sig: i.script_sig.to_bytes(),
                sequence: i.sequence.0,
                witness: i.witness.to_vec(),
            })
            .collect(),
        output: tx
            .output
            .iter()
            .map(|o| TxOut { value: o.value.to_sat(), script_pubkey: o.script_pubkey.to_bytes() })
            .collect(),
    }
}

fn parse(hex_tx: &str) -> Transaction {
    let raw = hex::decode(hex_tx).unwrap();
    let tx: bitcoin::Transaction = bitcoin::consensus::deserialize(&raw).unwrap();
    from_bitcoin(&tx)
}

fn input(fill: u8, vout: u32, script_sig: Vec<u8>, sequence: u32) -> TxIn {
    TxIn {
        previous_output: OutPoint { txid: [fill; 32], vout },
        script_sig,
        sequence,
        witness: Vec::new(),
    }
}

const ONE_IN_ONE_OUT: &str = "0200000001000102030405060708090a0b0c0d0e0f101112131415161718191a1b1c1d1e1f0100000000feffffff0150c3000000000000160014751e76e8199196d454941c45d1b3a323f1433bd600000000";

const SCRIPT_SIG_PRESENT: &str = "0100000002070707070707070707070707070707070707070707070707070707070707070700000000160014751e76e8199196d454941c45d1b3a323f1433bd60000000009090909090909090909090909090909090909090909090909090909090909090300000000ffffffff03010000000000000001510040075af07507002200201863143c14c5166804bd19203356da136c985678cd4d27a1b8c63296049032620000000000000000056a0361626320a10700";

// The expected digests below were computed apart from this library, by the
// hashing steps that BIP-119 gives as its reference, written out with the
// SHA-256 of another implementation.
#[test]
fn test_ctv() {
    let vectors: Vec<(&str, Vec<i64>, Vec<&str>)> = vec![
        (
            ONE_IN_ONE_OUT,
            vec![0, 1, 4294967295],
            vec![
                "6a4f56a189b6ced701149adbabc943a0256f6b28b722d9c6f4b0d133473fdb99",
                "b7d277169a674c1e5ad3b9240a8446eedeb901c067f979a334ed9db75a62d12f",
                "235c3031afb495cb6fa8fe8ae97ae6ebef4be65a8eea819ae1b46c4585d0b922",
            ],
        ),
        (
            SCRIPT_SIG_PRESENT,
            vec![0, 1],
            vec![
                "e88332864bc32f612cdd147bc9cb9941797bc57af1d6f13c4823fa0210ce8225",
                "6c47275ee8acefc1300289fbc25cb61afca4c086f38a454a86c210b54b313f28",
            ],
        ),
    ];
    for (hex_tx, spend_index, result) in vectors {
        let tx = parse(hex_tx);
        for (idx, si) in spend_index.into_iter().enumerate() {
            let hash = hex::encode(ctv(&tx, si as u32));
            assert_eq!(hash, result[idx]);
        }
    }
}

#[test]
fn sha256_matches_known_digests() {
    assert_eq!(
        hex::encode(sha256(Vec::new())),
        "e3b0c44298fc1c149afbf4c8996fb92427ae41e4649b934ca495991b7852b855"
    );
    assert_eq!(
        hex::encode(sha256(b"abc".to_vec())),
        "ba7816bf8f01cfea414140de5dae2223b00361a396177a9cb410ff61f20015ad"
    );
}

#[test]
fn hash_is_stable_across_calls() {
    let tx = parse(SCRIPT_SIG_PRESENT);
    let first = ctv(&tx, 1);
    let second = ctv(&tx.clone(), 1);
    assert_eq!(first, second);
    assert_eq!(first.len(), 32);
}

#[test]
fn hash_covers_negative_version_and_no_outputs() {
    let tx = Transaction {
        version: -1,
        lock_time: 0xffff_ffff,
        input: vec![
            input(1, 0, Vec::new(), 5),
            input(2, 1, Vec::new(), 6),
            input(3, 2, Vec::new(), 7),
        ],
        output: Vec::new(),
    };
    assert_eq!(
        hex::encode(ctv(&tx, 2)),
        "45c260b4d7a4199810e59a951d632fe1c65865a9207678f4174d0fb580d66320"
    );
}

#[test]
fn hash_ignores_witness_and_outpoints() {
    let mut tx = Transaction {
        version: 2,
        lock_time: 0,
        input: vec![input(0xaa, 0, Vec::new(), 0)],
        output: vec![TxOut { value: 1000, script_pubkey: vec![0u8; 300] }],
    };
    let expected = "bc4b3681a9da08cb069feb50ff7d55ce5496555947e5a37f6a90deb8c1708ed4";
    assert_eq!(hex::encode(ctv(&tx, 0)), expected);
    tx.input[0].witness = vec![vec![1, 2], Vec::new()];
    assert_eq!(hex::encode(ctv(&tx, 0)), expected);
    tx.input[0].previous_output = OutPoint { txid: [0x55; 32], vout: 9 };
    assert_eq!(hex::encode(ctv(&tx, 0)), expected);
}

#[test]
fn empty_script_sigs_add_nothing_to_the_message() {
    let tx = parse(ONE_IN_ONE_OUT);
    assert_eq!(scriptsigs(&tx), None);
    let mut message: Vec<u8> = Vec::new();
    message.extend_from_slice(&2i32.to_le_bytes());
    message.extend_from_slice(&0u32.to_le_bytes());
    message.extend_from_slice(&1u32.to_le_bytes());
    message.extend_from_slice(&sequences(&tx));
    message.extend_from_slice(&1u32.to_le_bytes());
    message.extend_from_slice(&outputs(&tx));
    message.extend_from_slice(&0u32.to_le_bytes());
    assert_eq!(message.len(), 84);
    assert_eq!(ctv(&tx, 0), sha256(message));
}

#[test]
fn one_script_sig_adds_the_digest_of_all() {
    let tx = parse(SCRIPT_SIG_PRESENT);
    let segment = scriptsigs(&tx).unwrap();
    assert_eq!(segment.len(), 32);
    assert_eq!(
        hex::encode(&segment),
        "c4b809b83a55eb550e81fd1a479fa3e82174e278ff2dc2b90f7e0ce8ff03f5cc"
    );
    let mut message: Vec<u8> = Vec::new();
    message.extend_from_slice(&1i32.to_le_bytes());
    message.extend_from_slice(&500000u32.to_le_bytes());
    message.extend_from_slice(&segment);
    message.extend_from_slice(&2u32.to_le_bytes());
    message.extend_from_slice(&sequences(&tx));
    message.extend_from_slice(&3u32.to_le_bytes());
    message.extend_from_slice(&outputs(&tx));
    message.extend_from_slice(&1u32.to_le_bytes());
    assert_eq!(message.len(), 116);
    assert_eq!(ctv(&tx, 1), sha256(message));
}

#[test]
fn script_sig_segment_changes_the_hash() {
    let bare = Transaction {
        version: 2,
        lock_time: 0,
        input: vec![input(4, 0, Vec::new(), 1)],
        output: vec![TxOut { value: 7, script_pubkey: vec![0x51] }],
    };
    let mut signed = bare.clone();
    signed.input[0].script_sig = vec![0x00];
    assert_eq!(scriptsigs(&bare), None);
    assert_eq!(scriptsigs(&signed), Some(sha256(vec![0x01, 0x00])));
    assert_ne!(ctv(&bare, 0), ctv(&signed, 0));
}

#[test]
fn sequences_and_outputs_digests() {
    let tx = parse(ONE_IN_ONE_OUT);
    assert_eq!(
        hex::encode(sequences(&tx)),
        "b4248c210a2905b94345e1a8414d0e12efcfb2f4f0f2397159a71283397a0ccd"
    );
    assert_eq!(
        hex::encode(outputs(&tx)),
        "d6ed463fc5839e0fb12f4bc6f4655935e7e2db8a457c9ad0645787226378a51d"
    );
}

#[test]
fn outputs_digest_agrees_with_consensus_encoding() {
    let raw = hex::decode(SCRIPT_SIG_PRESENT).unwrap();
    let theirs: bitcoin::Transaction = bitcoin::consensus::deserialize(&raw).unwrap();
    let mut encoded: Vec<u8> = Vec::new();
    for out in &theirs.output {
        encoded.extend_from_slice(&bitcoin::consensus::serialize(out));
    }
    assert_eq!(outputs(&from_bitcoin(&theirs)), sha256(encoded));
}

#[test]
fn digests_of_nothing_are_the_digest_of_the_empty_string() {
    let tx = Transaction { version: 1, lock_time: 0, input: Vec::new(), output: Vec::new() };
    let empty = sha256(Vec::new());
    assert_eq!(sequences(&tx), empty);
    assert_eq!(outputs(&tx), empty);
    assert_eq!(scriptsigs(&tx), None);
}
