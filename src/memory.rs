//! Memory records as the store keeps them: embeddings are persisted as
//! little-endian 32-bit words (the bit patterns of the floats), and a
//! similarity search ranks the candidates by score, keeping their order on
//! ties.

use vstd::prelude::*;
use vstd::set_lib::{lemma_int_range, lemma_len_subset, set_int_range};

verus! {

/// The four little-endian bytes of a word.
pub open spec fn word_bytes(w: u32) -> Seq<u8> {
    seq![(w & 0xff) as u8, ((w >> 8) & 0xff) as u8, ((w >> 16) & 0xff) as u8, (w >> 24) as u8]
}

/// The word whose little-endian bytes are given.
pub open spec fn word_of(b0: u8, b1: u8, b2: u8, b3: u8) -> u32 {
    (b0 as u32) | ((b1 as u32) << 8) | ((b2 as u32) << 16) | ((b3 as u32) << 24)
}

/// `blob` is the little-endian encoding of `words`.
pub open spec fn encodes(blob: Seq<u8>, words: Seq<u32>) -> bool {
    &&& blob.len() == 4 * words.len()
    &&& forall|i: int, k: int|
        0 <= i < words.len() && 0 <= k < 4 ==> #[trigger] blob[4 * i + k] == word_bytes(
            words[i],
        )[k]
}

/// `words` are the whole little-endian words of `blob`; a trailing partial
/// word is dropped.
pub open spec fn decodes(words: Seq<u32>, blob: Seq<u8>) -> bool {
    &&& words.len() == blob.len() / 4
    &&& forall|i: int|
        0 <= i < words.len() ==> #[trigger] words[i] == word_of(
            blob[4 * i],
            blob[4 * i + 1],
            blob[4 * i + 2],
            blob[4 * i + 3],
        )
}

proof fn lemma_word_round_trip(w: u32)
    ensures
        word_of(word_bytes(w)[0], word_bytes(w)[1], word_bytes(w)[2], word_bytes(w)[3]) == w,
{
    let b0 = (w & 0xff) as u8;
    let b1 = ((w >> 8) & 0xff) as u8;
    let b2 = ((w >> 16) & 0xff) as u8;
    let b3 = (w >> 24) as u8;
    assert(((b0 as u32) | ((b1 as u32) << 8) | ((b2 as u32) << 16) | ((b3 as u32) << 24)) == w)
        by (bit_vector)
        requires
            b0 == (w & 0xff) as u8,
            b1 == ((w >> 8) & 0xff) as u8,
            b2 == ((w >> 16) & 0xff) as u8,
            b3 == (w >> 24) as u8,
    ;
}

/// The little-endian encoding of an embedding's words.
pub fn encode_embedding(words: &Vec<u32>) -> (r: Vec<u8>)
    requires
        4 * words@.len() <= usize::MAX,
    ensures
        encodes(r@, words@),
{
    let mut r: Vec<u8> = Vec::new();
    let mut i: usize = 0;
    while i < words.len()
        invariant
            i <= words@.len(),
            4 * words@.len() <= usize::MAX,
            r@.len() == 4 * i,
            forall|j: int, k: int|
                0 <= j < i && 0 <= k < 4 ==> #[trigger] r@[4 * j + k] == word_bytes(words@[j])[k],
        decreases words@.len() - i,
    {
        let w = words[i];
        r.push((w & 0xff) as u8);
        r.push(((w >> 8) & 0xff) as u8);
        r.push(((w >> 16) & 0xff) as u8);
        r.push((w >> 24) as u8);
        proof {
            assert forall|j: int, k: int| 0 <= j < i + 1 && 0 <= k < 4 implies #[trigger] r@[4 * j
                + k] == word_bytes(words@[j])[k] by {
                if j == i {
                    assert(4 * j + k == 4 * i + k);
                }
            }
        }
        i = i + 1;
    }
    r
}

/// The words of a stored embedding: each run of four bytes read
/// little-endian, a trailing partial run dropped.
pub fn decode_embedding(blob: &Vec<u8>) -> (r: Vec<u32>)
    ensures
        decodes(r@, blob@),
{
    let mut r: Vec<u32> = Vec::new();
    let len = blob.len();
    let n = len / 4;
    let mut i: usize = 0;
    while i < n
        invariant
            len == blob@.len(),
            n == blob@.len() / 4,
            i <= n,
            r@.len() == i,
            forall|j: int|
                0 <= j < i ==> #[trigger] r@[j] == word_of(
                    blob@[4 * j],
                    blob@[4 * j + 1],
                    blob@[4 * j + 2],
                    blob@[4 * j + 3],
                ),
        decreases n - i,
    {
        assert(4 * i + 3 < len) by (nonlinear_arith)
            requires
                i < n,
                n == len / 4,
        ;
        let b = 4 * i;
        let w = (blob[b] as u32) | ((blob[b + 1] as u32) << 8) | ((blob[b + 2] as u32) << 16) | ((
        blob[b + 3] as u32) << 24);
        r.push(w);
        i = i + 1;
    }
    r
}

/// Decoding what was encoded gives back the same words.
pub proof fn lemma_embedding_round_trip(words: Seq<u32>, blob: Seq<u8>, back: Seq<u32>)
    requires
        encodes(blob, words),
        decodes(back, blob),
    ensures
        back == words,
{
    assert forall|i: int| 0 <= i < words.len() implies back[i] == words[i] by {
        lemma_word_round_trip(words[i]);
        assert(blob[4 * i + 0] == word_bytes(words[i])[0]);
        assert(blob[4 * i + 1] == word_bytes(words[i])[1]);
        assert(blob[4 * i + 2] == word_bytes(words[i])[2]);
        assert(blob[4 * i + 3] == word_bytes(words[i])[3]);
        assert(4 * i + 0 == 4 * i);
    }
    assert(back =~= words);
}

/// The rank of a score given as the bit pattern of a 32-bit float: for
/// numbers (not NaN) a larger float has a larger key, and both zeros share
/// one key.
pub open spec fn score_key(bits: u32) -> int {
    if bits >= 0x8000_0000 {
        -((bits - 0x8000_0000) as int)
    } else {
        bits as int
    }
}

/// Candidate `a` comes before candidate `b`: a higher score, or an equal
/// score and an earlier place.
pub open spec fn ranks_before(scores: Seq<u32>, a: int, b: int) -> bool {
    score_key(scores[a]) > score_key(scores[b]) || (score_key(scores[a]) == score_key(scores[b])
        && a < b)
}

/// `r` lists the places of the best `limit` candidates, best first, in the
/// order of a stable sort by descending score.
pub open spec fn is_top_ranking(r: Seq<usize>, scores: Seq<u32>, limit: nat) -> bool {
    &&& r.len() == if limit < scores.len() {
        limit
    } else {
        scores.len()
    }
    &&& forall|i: int| 0 <= i < r.len() ==> #[trigger] r[i] < scores.len()
    &&& forall|i: int, j: int| 0 <= i < j < r.len() ==> ranks_before(scores, r[i] as int, r[j] as int)
    &&& forall|i: int, k: int|
        0 <= i < r.len() && 0 <= k < scores.len() && !r.contains(k as usize) ==> ranks_before(
            scores,
            r[i] as int,
            k,
        )
}

/// Fewer places than candidates leave some candidate out.
proof fn lemma_some_free(r: Seq<usize>, n: nat)
    requires
        r.len() < n,
        n <= usize::MAX,
    ensures
        exists|k: int| 0 <= k < n && !#[trigger] r.contains(k as usize),
{
    broadcast use vstd::seq_lib::seq_to_set_is_finite;

    let ri = r.map_values(|x: usize| x as int);
    if forall|k: int| 0 <= k < n ==> #[trigger] r.contains(k as usize) {
        assert(set_int_range(0, n as int).subset_of(ri.to_set())) by {
            assert forall|k: int| set_int_range(0, n as int).contains(k) implies ri.to_set().contains(
                k,
            ) by {
                assert(r.contains(k as usize));
                let p = choose|p: int| 0 <= p < r.len() && r[p] == k as usize;
                assert(ri[p] == k);
            }
        }
        ri.lemma_cardinality_of_set();
        lemma_int_range(0, n as int);
        lemma_len_subset(set_int_range(0, n as int), ri.to_set());
    }
}

fn key_of(bits: u32) -> (r: i64)
    ensures
        r == score_key(bits),
{
    if bits >= 0x8000_0000 {
        -((bits - 0x8000_0000) as i64)
    } else {
        bits as i64
    }
}

/// The places of the best `limit` candidates by score, best first; among
/// equal scores the earlier candidate comes first.
pub fn rank_by_score(scores: &Vec<u32>, limit: usize) -> (r: Vec<usize>)
    ensures
        is_top_ranking(r@, scores@, limit as nat),
{
    let n = scores.len();
    let count = if limit < n {
        limit
    } else {
        n
    };
    let mut taken: Vec<bool> = Vec::new();
    let mut t: usize = 0;
    while t < n
        invariant
            t <= n,
            taken@.len() == t,
            forall|k: int| 0 <= k < t ==> !taken@[k],
        decreases n - t,
    {
        taken.push(false);
        t = t + 1;
    }
    let mut r: Vec<usize> = Vec::new();
    while r.len() < count
        invariant
            n == scores@.len(),
            count <= n,
            count == if limit < n {
                limit
            } else {
                n
            },
            r@.len() <= count,
            taken@.len() == n,
            forall|k: int| 0 <= k < n ==> (taken@[k] <==> r@.contains(k as usize)),
            forall|i: int| 0 <= i < r@.len() ==> #[trigger] r@[i] < n,
            forall|i: int, j: int|
                0 <= i < j < r@.len() ==> ranks_before(scores@, r@[i] as int, r@[j] as int),
            forall|i: int, k: int|
                0 <= i < r@.len() && 0 <= k < n && !r@.contains(k as usize) ==> ranks_before(
                    scores@,
                    r@[i] as int,
                    k,
                ),
        decreases count - r@.len(),
    {
        // some candidate is still free, since fewer than n are taken
        let mut best: usize = n;
        let mut j: usize = 0;
        while j < n
            invariant
                n == scores@.len(),
                taken@.len() == n,
                j <= n,
                best == n || (best < j && !taken@[best as int]),
                best == n ==> forall|k: int| 0 <= k < j ==> taken@[k],
                best < n ==> forall|k: int|
                    0 <= k < j && !taken@[k] && k != best ==> ranks_before(scores@, best as int, k),
            decreases n - j,
        {
            if !taken[j] {
                if best == n || key_of(scores[j]) > key_of(scores[best]) {
                    best = j;
                }
            }
            j = j + 1;
        }
        proof {
            if best == n {
                lemma_some_free(r@, n as nat);
                let k = choose|k: int| 0 <= k < n && !#[trigger] r@.contains(k as usize);
                assert(taken@[k]);
            }
        }
        let ghost old_r = r@;
        r.push(best);
        taken.set(best, true);
        proof {
            assert(r@.last() == best);
            assert forall|k: int| 0 <= k < n implies (taken@[k] <==> r@.contains(k as usize)) by {
                if k == best {
                    assert(r@[r@.len() - 1] == best);
                } else {
                    if r@.contains(k as usize) {
                        let p = choose|p: int| 0 <= p < r@.len() && r@[p] == k as usize;
                        assert(p < old_r.len());
                        assert(old_r.contains(k as usize));
                    }
                    if old_r.contains(k as usize) {
                        let p = choose|p: int| 0 <= p < old_r.len() && old_r[p] == k as usize;
                        assert(r@[p] == k as usize);
                    }
                }
            }
            assert forall|i: int, k: int|
                0 <= i < r@.len() && 0 <= k < n && !r@.contains(k as usize) implies ranks_before(
                scores@,
                r@[i] as int,
                k,
            ) by {
                assert(!old_r.contains(k as usize)) by {
                    if old_r.contains(k as usize) {
                        let p = choose|p: int| 0 <= p < old_r.len() && old_r[p] == k as usize;
                        assert(r@[p] == k as usize);
                    }
                }
                assert(k != best) by {
                    assert(r@[r@.len() - 1] == best);
                }
                if i < old_r.len() {
                    assert(r@[i] == old_r[i]);
                } else {
                    assert(!taken@[k] || k == best);
                }
            }
            assert forall|i: int, j: int|
                0 <= i < j < r@.len() implies ranks_before(scores@, r@[i] as int, r@[j] as int) by {
                if j == r@.len() - 1 {
                    assert(r@[i] == old_r[i]);
                    assert(!old_r.contains(best)) by {
                        if old_r.contains(best) {
                            let p = choose|p: int| 0 <= p < old_r.len() && old_r[p] == best;
                            assert(taken@[best as int] == true);
                        }
                    }
                } else {
                    assert(r@[i] == old_r[i]);
                    assert(r@[j] == old_r[j]);
                }
            }
        }
    }
    r
}

} // verus!