//! The dedup index's state and requests. Whether the caller is an
//! administrator comes from the platform.
use vstd::prelude::*;

use crate::dedup_index::index::{HashIndex, Videos};
use crate::text::literal;

verus! {

/// Pages of more entries than this are for administrators only.
pub const LISTING_SIZE_LIMIT_EXCLUSIVE: usize = 100;

/// Why a listing was refused.
#[derive(Clone, Copy, Debug, PartialEq, Eq, Structural)]
pub enum ListError {
    WillOverflow,
    SizeNotAllowed,
    PageOutOfRange,
}

/// The state of the dedup index.
pub struct CanisterData {
    pub index: HashIndex,
    pub version: String,
}

impl CanisterData {
    /// Sets the version.
    pub fn set_version(&mut self, version: &str)
        ensures
            final(self).version@ == version@,
            final(self).index == old(self).index,
    {
        self.version = String::from_str(version);
    }
}

impl Default for CanisterData {
    /// An empty index at version "v1.0.0".
    fn default() -> (d: CanisterData)
        ensures
            d.index.map() == Map::<Seq<char>, Videos>::empty(),
            d.version@ == "v1.0.0"@,
    {
        CanisterData { index: HashIndex::new(), version: literal("v1.0.0") }
    }
}

/// The version.
pub fn get_version(data: &CanisterData) -> (r: String)
    ensures
        r == data.version,
{
    data.version.clone()
}

/// Indexes the video `video_id` with its hash and time. When the index has
/// an entry under the video's id, nothing changes; otherwise the video's
/// hash gets this video alone, in place of whatever it had.
pub fn add_video_to_index(data: &mut CanisterData, video_id: String, video: (String, u64))
    ensures
        final(data).version == old(data).version,
        old(data).index.map().contains_key(video_id@) ==> final(data).index == old(data).index,
        !old(data).index.map().contains_key(video_id@) ==> final(data).index.map()
            == old(data).index.map().insert(video.0@, final(data).index.map()[video.0@]),
        !old(data).index.map().contains_key(video_id@) ==> final(data).index.map()[video.0@]@ == seq![(video_id, video.1)],
{
    if data.index.contains_key(&video_id) {
        return;
    }
    let (video_hash, timestamp) = video;
    let videos = Videos::single(video_id, timestamp);
    data.index.insert(video_hash, videos);
}

/// Whether some video has the hash.
pub fn is_duplicate(data: &CanisterData, video_hash: String) -> (r: bool)
    ensures
        r == data.index.map().contains_key(video_hash@),
{
    data.index.contains_key(&video_hash)
}

/// How many distinct hashes are indexed.
pub fn unique_hash_count(data: &CanisterData) -> (r: u64)
    ensures
        r == data.index.pairs().len(),
{
    data.index.len() as u64
}

/// The page `page` of `size` entries, in string order of the hashes.
/// Refused when the start position overflows, when a caller who is not an
/// administrator asks for more than the limit, and when the page starts
/// past the last entry.
pub fn list_hashes(data: &CanisterData, caller_is_admin: bool, page: usize, size: usize) -> (r: Result<Vec<(String, Videos)>, ListError>)
    ensures
        page * size > usize::MAX ==> r == Err::<Vec<(String, Videos)>, ListError>(ListError::WillOverflow),
        page * size <= usize::MAX && size > LISTING_SIZE_LIMIT_EXCLUSIVE && !caller_is_admin
            ==> r == Err::<Vec<(String, Videos)>, ListError>(ListError::SizeNotAllowed),
        page * size <= usize::MAX && (size <= LISTING_SIZE_LIMIT_EXCLUSIVE || caller_is_admin) && page * size >= data.index.pairs().len()
            ==> r == Err::<Vec<(String, Videos)>, ListError>(ListError::PageOutOfRange),
        page * size <= usize::MAX && (size <= LISTING_SIZE_LIMIT_EXCLUSIVE || caller_is_admin) && page * size < data.index.pairs().len()
            ==> (r matches Ok(entries) && {
                let start = page * size;
                let n = data.index.pairs().len();
                &&& entries@.len() == (if size < n - start { size as int } else { n - start })
                &&& forall|i: int| 0 <= i < entries@.len() ==> (#[trigger] entries@[i]).0 == data.index.pairs()[start + i].0
                    && entries@[i].1@ == data.index.pairs()[start + i].1@
            }),
{
    let start_idx = match page.checked_mul(size) {
        Some(s) => s,
        None => return Err(ListError::WillOverflow),
    };
    if size > LISTING_SIZE_LIMIT_EXCLUSIVE && !caller_is_admin {
        return Err(ListError::SizeNotAllowed);
    }
    if start_idx as u64 >= data.index.len() as u64 {
        return Err(ListError::PageOutOfRange);
    }
    Ok(data.index.slice(start_idx, size))
}

} // verus!
