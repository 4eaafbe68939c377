use ic_nns_governance::canister_threshold_sigs::corrupt::{CorruptBytes, CorruptBytesCollection};
use ic_nns_governance::canister_threshold_sigs::types::{
    BasicSig, BasicSigOf, BasicSignature, BasicSignatureBatch, Randomness, Signed,
    ThresholdEcdsaCombinedSignature, ThresholdEcdsaSigShare,
};
use std::collections::BTreeMap;

#[test]
fn basic_sig_flips_the_last_bit() {
    let original_signature = BasicSig(vec![0b00000000]);
    let corrupted_signature = original_signature.clone_with_bit_flipped();
    assert_ne!(original_signature, corrupted_signature);
    assert_eq!(corrupted_signature, BasicSig(vec![0b00000001]));
}

#[test]
fn byte_vectors_flip_only_the_last_byte() {
    let bytes = vec![7u8, 8, 0b10101010];
    let flipped = bytes.clone_with_bit_flipped();
    assert_eq!(flipped, vec![7u8, 8, 0b10101011]);
    assert_eq!(flipped.clone_with_bit_flipped(), bytes);
}

#[test]
fn arrays_and_randomness_flip_the_last_bit() {
    let array = [1u8, 2, 3];
    assert_eq!(array.clone_with_bit_flipped(), [1u8, 2, 2]);
    let mut bytes = [0u8; 32];
    bytes[31] = 0xff;
    let randomness = Randomness::from(bytes);
    let corrupted = randomness.clone_with_bit_flipped();
    assert_ne!(corrupted, randomness);
    assert_eq!(corrupted.get()[31], 0xfe);
    assert_eq!(corrupted.get()[..31], bytes[..31]);
}

#[test]
fn signature_wrappers_flip_their_bytes() {
    let share = ThresholdEcdsaSigShare { sig_share_raw: vec![4, 4] };
    assert_eq!(share.clone_with_bit_flipped().sig_share_raw, vec![4, 5]);
    let combined = ThresholdEcdsaCombinedSignature { signature: vec![1] };
    assert_eq!(combined.clone_with_bit_flipped().signature, vec![0]);
    let sig: BasicSigOf<String> = BasicSigOf::new(BasicSig(vec![2, 3]));
    assert_eq!(sig.clone_with_bit_flipped().get_ref(), &BasicSig(vec![2, 2]));
    let signature = BasicSignature { signature: sig, signer: 9 };
    let corrupted = signature.clone_with_bit_flipped();
    assert_eq!(corrupted.signer, 9);
    assert_eq!(corrupted.signature.get_ref(), &BasicSig(vec![2, 2]));
}

fn batch() -> BasicSignatureBatch<String> {
    let mut signatures_map = BTreeMap::new();
    signatures_map.insert(1u64, BasicSigOf::new(BasicSig(vec![0b00000000])));
    signatures_map.insert(2u64, BasicSigOf::new(BasicSig(vec![0b11111111])));
    BasicSignatureBatch { signatures_map }
}

#[test]
fn flip_a_bit_in_one_corrupts_the_first_signer_only() {
    let mut signatures = batch();
    signatures.flip_a_bit_in_one();
    assert_eq!(signatures.signatures_map[&1].get_ref(), &BasicSig(vec![0b00000001]));
    assert_eq!(signatures.signatures_map[&2].get_ref(), &BasicSig(vec![0b11111111]));
    signatures.flip_a_bit_in_one();
    assert_eq!(signatures, batch());
}

#[test]
fn flip_a_bit_in_all_corrupts_every_signature() {
    let mut signatures = batch();
    signatures.flip_a_bit_in_all();
    assert_eq!(signatures.signatures_map[&1].get_ref(), &BasicSig(vec![0b00000001]));
    assert_eq!(signatures.signatures_map[&2].get_ref(), &BasicSig(vec![0b11111110]));
    signatures.flip_a_bit_in_all();
    assert_eq!(signatures, batch());
}

#[test]
fn signed_values_flip_their_signatures_only() {
    let mut signed = Signed { content: "dealing".to_string(), signature: batch() };
    signed.flip_a_bit_in_all();
    assert_eq!(signed.content, "dealing");
    assert_eq!(signed.signature.signatures_map[&2].get_ref(), &BasicSig(vec![0b11111110]));
    let mut signed = Signed { content: "dealing".to_string(), signature: batch() };
    signed.flip_a_bit_in_one();
    assert_eq!(signed.signature.signatures_map[&1].get_ref(), &BasicSig(vec![0b00000001]));
    assert_eq!(signed.signature.signatures_map[&2].get_ref(), &BasicSig(vec![0b11111111]));
}
