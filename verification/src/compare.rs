//! Byte-exact output comparison, streamed in fixed-size chunks.
//!
//! The produced output and the expected output are read in chunks of
//! `CHUNK_SIZE` bytes. Comparison short-circuits: a length mismatch or a
//! first differing chunk decides the result without looking further.

use vstd::prelude::*;

verus! {

/// Size of one read chunk, in bytes.
pub const CHUNK_SIZE: usize = 4096;

/// What one round of chunk comparison decided.
#[derive(Clone, Copy, Debug, PartialEq, Eq)]
pub enum ChunkOutcome {
    /// Both chunks were full and identical: read the next pair.
    Continue,
    /// The comparison is decided; no further bytes need to be read.
    Done { equal: bool },
}

/// Compares one pair of chunks, given the bytes each reader produced in
/// this round. Two empty chunks mean both inputs are exhausted and equal;
/// a length mismatch or a differing byte decides inequality at once.
pub fn compare_chunk(c1: &[u8], c2: &[u8]) -> (r: ChunkOutcome)
    ensures
        r == (if c1@.len() != c2@.len() {
            (ChunkOutcome::Done { equal: false })
        } else if c1@.len() == 0 {
            (ChunkOutcome::Done { equal: true })
        } else if c1@ =~= c2@ {
            ChunkOutcome::Continue
        } else {
            (ChunkOutcome::Done { equal: false })
        }),
{
    if c1.len() != c2.len() {
        return ChunkOutcome::Done { equal: false };
    }
    if c1.len() == 0 {
        return ChunkOutcome::Done { equal: true };
    }
    let mut idx: usize = 0;
    while idx < c1.len()
        invariant
            c1@.len() == c2@.len(),
            idx <= c1@.len(),
            forall|k: int| 0 <= k < idx ==> c1@[k] == c2@[k],
        decreases c1@.len() - idx,
    {
        if c1[idx] != c2[idx] {
            return ChunkOutcome::Done { equal: false };
        }
        idx += 1;
    }
    proof {
        assert(c1@ =~= c2@);
    }
    ChunkOutcome::Continue
}

/// Whether the produced answer equals the expected solution, byte for byte.
/// Walks both inputs in `CHUNK_SIZE` pieces through [`compare_chunk`], so a
/// mismatch is decided without touching the bytes past it.
pub fn answer_is_equal_to_solution(answer: &[u8], solution: &[u8]) -> (r: bool)
    ensures
        r == (answer@ == solution@),
{
    let alen = answer.len();
    let blen = solution.len();
    let mut pos: usize = 0;
    loop
        invariant
            pos <= alen,
            pos <= blen,
            alen == answer@.len(),
            blen == solution@.len(),
            answer@.subrange(0, pos as int) =~= solution@.subrange(0, pos as int),
        decreases alen - pos,
    {
        let end1 = if alen - pos < CHUNK_SIZE {
            alen
        } else {
            pos + CHUNK_SIZE
        };
        let end2 = if blen - pos < CHUNK_SIZE {
            blen
        } else {
            pos + CHUNK_SIZE
        };
        let c1 = vstd::slice::slice_subrange(answer, pos, end1);
        let c2 = vstd::slice::slice_subrange(solution, pos, end2);
        match compare_chunk(c1, c2) {
            ChunkOutcome::Done { equal } => {
                proof {
                    if equal {
                        assert(pos == alen && pos == blen);
                        assert forall|k: int| 0 <= k < alen implies answer@[k]
                            == solution@[k] by {
                            assert(answer@.subrange(0, pos as int)[k]
                                == solution@.subrange(0, pos as int)[k]);
                        }
                        assert(answer@ =~= solution@);
                    } else {
                        if c1@.len() != c2@.len() {
                            assert(alen != blen);
                        } else {
                            let k = choose|k: int|
                                0 <= k < c1@.len() && c1@[k] != c2@[k];
                            assert(answer@[pos + k] != solution@[pos + k]);
                        }
                        assert(answer@ != solution@);
                    }
                }
                return equal;
            },
            ChunkOutcome::Continue => {
                proof {
                    assert forall|k: int| 0 <= k < end1 implies answer@[k]
                        == solution@[k] by {
                        if k < pos {
                            assert(answer@.subrange(0, pos as int)[k]
                                == solution@.subrange(0, pos as int)[k]);
                        } else {
                            assert(c1@[k - pos] == c2@[k - pos]);
                        }
                    }
                    assert(answer@.subrange(0, end1 as int) =~= solution@.subrange(
                        0,
                        end1 as int,
                    ));
                }
                pos = end1;
            },
        }
    }
}

} // verus!
