use karmaspark::memory::{decode_embedding, encode_embedding, rank_by_score};

fn bits(v: &[f32]) -> Vec<u32> {
    v.iter().map(|x| x.to_bits()).collect()
}

#[test]
fn embedding_round_trip() {
    let stored = vec![1.5f32, -0.25, 3.14159, 0.0, f32::MIN_POSITIVE];
    let blob = encode_embedding(&bits(&stored));
    assert_eq!(blob.len(), 20);
    let back: Vec<f32> = decode_embedding(&blob).into_iter().map(f32::from_bits).collect();
    assert_eq!(back, stored);
}

#[test]
fn embedding_bytes_are_little_endian() {
    assert_eq!(encode_embedding(&vec![0x0102_0304]), vec![4, 3, 2, 1]);
    let blob: Vec<u8> = 1.0f32.to_le_bytes().to_vec();
    assert_eq!(encode_embedding(&bits(&[1.0])), blob);
}

#[test]
fn trailing_partial_word_is_dropped() {
    assert_eq!(decode_embedding(&vec![4, 3, 2, 1, 9, 9]), vec![0x0102_0304]);
    assert_eq!(decode_embedding(&vec![]), Vec::<u32>::new());
}

#[test]
fn ranking_is_stable_and_descending() {
    let scores = bits(&[0.5, 0.9, 0.5, -0.1, 0.9]);
    assert_eq!(rank_by_score(&scores, 3), vec![1, 4, 0]);
    assert_eq!(rank_by_score(&scores, 10), vec![1, 4, 0, 2, 3]);
    assert_eq!(rank_by_score(&scores, 0), Vec::<usize>::new());
}

#[test]
fn ranking_orders_negative_scores() {
    let scores = bits(&[-0.5, -0.1, -0.0, 0.0, -1.0]);
    assert_eq!(rank_by_score(&scores, 5), vec![2, 3, 1, 0, 4]);
}
