use abax_governance::digest::append_bytes;
use abax_governance::digest::hash_description;
use abax_governance::govern::hashing::encode_proposal;
use abax_governance::govern::hashing::encode_transaction;
use abax_governance::govern::hashing::hash_proposal;
use abax_governance::govern::hashing::hash_proposal_with_description;
use abax_governance::govern::hashing::is_encodable;
use abax_governance::govern::structs::Proposal;
use abax_governance::govern::structs::Transaction;
use abax_governance::hasher::Hasher;
use abax_governance::types::AccountId;
use parity_scale_codec::Encode;

const EMPTY_DIGEST: [u8; 32] = [
    0x0e, 0x57, 0x51, 0xc0, 0x26, 0xe5, 0x43, 0xb2, 0xe8, 0xab, 0x2e, 0xb0, 0x60, 0x99, 0xda, 0xa1,
    0xd1, 0xe5, 0xdf, 0x47, 0x77, 0x8f, 0x77, 0x87, 0xfa, 0xab, 0x45, 0xcd, 0xf1, 0x2f, 0xe3, 0xa8,
];

const DESCRIPTION: &str = "Raise the unstake period";

const DESCRIPTION_DIGEST: [u8; 32] = [
    202, 140, 167, 230, 64, 246, 75, 75, 216, 6, 250, 103, 189, 20, 101, 102, 197, 113, 237, 178,
    215, 3, 102, 233, 107, 102, 109, 155, 160, 100, 120, 6,
];

const PROPOSAL_ID: [u8; 32] = [
    232, 223, 29, 212, 149, 236, 212, 217, 172, 16, 203, 204, 159, 145, 31, 156, 57, 51, 204, 176,
    168, 219, 212, 14, 76, 0, 179, 36, 139, 233, 215, 226,
];

fn sample() -> Proposal {
    Proposal {
        rules_id: 0,
        voter_reward_part_e12: 50_000_000_000,
        transactions: vec![
            Transaction {
                callee: AccountId([7; 32]),
                selector: [1, 2, 3, 4],
                input: vec![9, 8, 7],
                transferred_value: 5,
            },
            Transaction {
                callee: AccountId([6; 32]),
                selector: [0xde, 0xad, 0xbe, 0xef],
                input: vec![0; 70],
                transferred_value: 1 << 100,
            },
        ],
    }
}

fn sample_encoding() -> Vec<u8> {
    let mut bytes = vec![0, 0, 0, 0, 0, 0, 0, 0, 0, 116, 59, 164, 11, 0, 0, 0, 8];
    bytes.extend([7u8; 32]);
    bytes.extend([1, 2, 3, 4, 12, 9, 8, 7, 5]);
    bytes.extend([0u8; 15]);
    bytes.extend([6u8; 32]);
    bytes.extend([222, 173, 190, 239, 25, 1]);
    bytes.extend([0u8; 70]);
    bytes.extend([0, 0, 0, 0, 0, 0, 0, 0, 0, 0, 0, 0, 16, 0, 0, 0]);
    bytes
}

fn as_tuples(proposal: &Proposal) -> (u64, u64, Vec<([u8; 32], [u8; 4], Vec<u8>, u128)>) {
    let mut transactions = Vec::new();
    for transaction in &proposal.transactions {
        transactions.push((
            transaction.callee.0,
            transaction.selector,
            transaction.input.clone(),
            transaction.transferred_value,
        ));
    }
    (proposal.rules_id, proposal.voter_reward_part_e12, transactions)
}

#[test]
fn description_digest_of_the_empty_text() {
    assert_eq!(hash_description(""), EMPTY_DIGEST);
}

#[test]
fn description_digest_of_a_text() {
    assert_eq!(hash_description(DESCRIPTION), DESCRIPTION_DIGEST);
    assert_ne!(hash_description("Raise the unstake perioD"), DESCRIPTION_DIGEST);
}

#[test]
fn proposal_encoding_is_field_after_field() {
    assert_eq!(encode_proposal(&sample()), sample_encoding());
    assert_eq!(sample_encoding().len(), 197);
}

#[test]
fn proposal_encoding_is_what_the_codec_gives_for_the_fields() {
    let proposal = sample();
    assert_eq!(encode_proposal(&proposal), as_tuples(&proposal).encode());
    let mut long = sample();
    long.transactions[0].input = vec![3; 20_000];
    long.rules_id = u64::MAX;
    long.transactions[1].transferred_value = u128::MAX;
    for _ in 0..70 {
        long.transactions.push(Transaction {
            callee: AccountId([1; 32]),
            selector: [0; 4],
            input: vec![],
            transferred_value: 77,
        });
    }
    assert_eq!(encode_proposal(&long), as_tuples(&long).encode());
}

#[test]
fn proposal_without_calls_encodes_to_its_head() {
    let proposal = Proposal { rules_id: 3, voter_reward_part_e12: 0, transactions: vec![] };
    assert_eq!(encode_proposal(&proposal), vec![3, 0, 0, 0, 0, 0, 0, 0, 0, 0, 0, 0, 0, 0, 0, 0, 0]);
    assert_eq!(
        hash_proposal(&proposal, &EMPTY_DIGEST),
        abax_governance::types::Hash([
            187, 83, 122, 247, 186, 111, 5, 164, 234, 195, 48, 20, 85, 160, 111, 233, 118, 29, 172,
            48, 127, 249, 119, 162, 13, 19, 196, 32, 208, 28, 180, 238
        ])
    );
}

#[test]
fn transaction_encoding_goes_to_the_end_of_the_target() {
    let mut target = vec![1, 2];
    encode_transaction(&mut target, &sample().transactions[0]);
    let mut expected = vec![1, 2];
    expected.extend([7u8; 32]);
    expected.extend([1, 2, 3, 4, 12, 9, 8, 7, 5]);
    expected.extend([0u8; 15]);
    assert_eq!(target, expected);
}

#[test]
fn proposal_identifier_is_the_digest_of_encoding_and_description_digest() {
    assert_eq!(hash_proposal(&sample(), &DESCRIPTION_DIGEST), abax_governance::types::Hash(PROPOSAL_ID));
    assert_eq!(
        hash_proposal_with_description(&sample(), &String::from(DESCRIPTION)),
        abax_governance::types::Hash(PROPOSAL_ID)
    );
    assert_ne!(hash_proposal(&sample(), &EMPTY_DIGEST), abax_governance::types::Hash(PROPOSAL_ID));
    let mut other = sample();
    other.voter_reward_part_e12 += 1;
    assert_ne!(hash_proposal(&other, &DESCRIPTION_DIGEST), abax_governance::types::Hash(PROPOSAL_ID));
}

#[test]
fn hasher_gives_the_same_identifiers() {
    let hasher = Hasher::new();
    assert_eq!(hasher.hash_description(String::from(DESCRIPTION)), DESCRIPTION_DIGEST);
    assert_eq!(hasher.hash_proposal(sample(), DESCRIPTION_DIGEST), abax_governance::types::Hash(PROPOSAL_ID));
    assert_eq!(
        hasher.hash_proposal_with_description(sample(), String::from(DESCRIPTION)),
        abax_governance::types::Hash(PROPOSAL_ID)
    );
}

#[test]
fn proposals_of_usual_lengths_are_encodable() {
    assert!(is_encodable(&sample()));
    assert!(is_encodable(&Proposal { rules_id: 0, voter_reward_part_e12: 0, transactions: vec![] }));
}

#[test]
fn append_bytes_appends() {
    let mut target = vec![1, 2, 3];
    append_bytes(&mut target, &[4, 5]);
    append_bytes(&mut target, &[]);
    assert_eq!(target, vec![1, 2, 3, 4, 5]);
}
