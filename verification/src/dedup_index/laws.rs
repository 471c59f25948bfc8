//! Properties of the dedup index that hold across calls.
use vstd::prelude::*;

use crate::dedup_index::index::{keys_ascending, Videos};
use crate::dedup_index::order::text_lt;

verus! {

/// Consecutive pages list hashes in increasing order without overlap:
/// every hash on page `page` comes before every hash on page `page + 1`.
pub proof fn law_pages_follow_each_other(pairs: Seq<(String, Videos)>, page: int, size: int, i: int, j: int)
    requires
        keys_ascending(pairs),
        0 <= page,
        0 < size,
        0 <= i < size,
        0 <= j < size,
        (page + 1) * size + j < pairs.len(),
    ensures
        text_lt(pairs[page * size + i].0@, pairs[(page + 1) * size + j].0@),
{
    assert((page + 1) * size == page * size + size) by (nonlinear_arith);
    assert(0 <= page * size) by (nonlinear_arith)
        requires
            0 <= page,
            0 < size,
    ;
}

/// Indexing a video whose id is not itself an indexed hash makes its hash
/// known, with that video alone; every other hash keeps its videos.
pub proof fn law_indexed_hash_is_duplicate(
    before: Map<Seq<char>, Videos>,
    after: Map<Seq<char>, Videos>,
    video_id: String,
    video: (String, u64),
)
    requires
        !before.contains_key(video_id@),
        after == before.insert(video.0@, after[video.0@]),
        after[video.0@]@ == seq![(video_id, video.1)],
    ensures
        after.contains_key(video.0@),
        after[video.0@]@.len() == 1,
        after[video.0@]@[0] == (video_id, video.1),
        forall|h: Seq<char>| h != video.0@ && #[trigger] before.contains_key(h) ==> after.contains_key(h) && after[h] == before[h],
{
}

} // verus!
