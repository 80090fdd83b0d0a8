//! Where the objects of a table are stored.
//!
//! Blocks, segments and snapshots lie under three directories of their own.
//! A block or a segment is named by a fresh random UUID, a snapshot by the
//! name that the caller gives.

use vstd::prelude::*;
use crate::fuse::constants::FUSE_TBL_BLOCK_PREFIX;
use crate::fuse::constants::FUSE_TBL_SEGMENT_PREFIX;
use crate::fuse::constants::FUSE_TBL_SNAPSHOT_PREFIX;

verus! {

/// A lower-case hexadecimal digit.
pub open spec fn is_lower_hex(c: char) -> bool {
    ('0' <= c && c <= '9') || ('a' <= c && c <= 'f')
}

/// The simple form of a random UUID: 32 lower-case hexadecimal digits, of
/// which the thirteenth gives the version, 4, and the seventeenth the
/// variant.
pub open spec fn is_simple_uuid(s: Seq<char>) -> bool {
    &&& s.len() == 32
    &&& forall|i: int| 0 <= i < 32 ==> is_lower_hex(#[trigger] s[i])
    &&& s[12] == '4'
    &&& (s[16] == '8' || s[16] == '9' || s[16] == 'a' || s[16] == 'b')
}

/// The location of the block that is named `uuid`.
pub open spec fn block_location(uuid: Seq<char>) -> Seq<char> {
    "_b"@ + "/"@ + uuid + ".parquet"@
}

/// The location of the segment that is named `uuid`.
pub open spec fn segment_location(uuid: Seq<char>) -> Seq<char> {
    "_sg"@ + "/"@ + uuid
}

/// The location of the snapshot that is named `name`.
pub open spec fn snapshot_location_spec(name: Seq<char>) -> Seq<char> {
    "_ss"@ + "/"@ + name
}

/// `Uuid::new_v4` of the crate `uuid`, written out by `to_simple` and
/// `to_string`: a fresh random UUID as 32 lower-case hexadecimal digits
/// without hyphens, with the version and variant digits of a random UUID.
/// Two calls may give any two such texts. The call panics where the
/// operating system hands out no random bytes.
#[verifier::external_body]
fn new_simple_uuid() -> (s: String)
    ensures
        is_simple_uuid(s@),
{
    uuid::Uuid::new_v4().to_simple().to_string()
}

/// The location of the block that is named `uuid`.
pub fn block_location_of(uuid: &str) -> (location: String)
    ensures
        location@ == block_location(uuid@),
{
    let mut location = String::from_str(FUSE_TBL_BLOCK_PREFIX);
    location.append("/");
    location.append(uuid);
    location.append(".parquet");
    location
}

/// The location of the segment that is named `uuid`.
pub fn segment_location_of(uuid: &str) -> (location: String)
    ensures
        location@ == segment_location(uuid@),
{
    let mut location = String::from_str(FUSE_TBL_SEGMENT_PREFIX);
    location.append("/");
    location.append(uuid);
    location
}

/// A location for a new block, under a fresh random name.
pub fn gen_block_location() -> (location: String)
    ensures
        exists|uuid: Seq<char>| is_simple_uuid(uuid) && location@ == #[trigger] block_location(uuid),
{
    let uuid = new_simple_uuid();
    block_location_of(uuid.as_str())
}

/// A location for a new segment, under a fresh random name.
pub fn gen_segment_info_location() -> (location: String)
    ensures
        exists|uuid: Seq<char>|
            is_simple_uuid(uuid) && location@ == #[trigger] segment_location(uuid),
{
    let uuid = new_simple_uuid();
    segment_location_of(uuid.as_str())
}

/// The location of the snapshot that is named `name`.
pub fn snapshot_location(name: &str) -> (location: String)
    ensures
        location@ == snapshot_location_spec(name@),
{
    let mut location = String::from_str(FUSE_TBL_SNAPSHOT_PREFIX);
    location.append("/");
    location.append(name);
    location
}

/// No block, segment and snapshot share a location, whatever their names.
pub proof fn lemma_locations_disjoint(block: Seq<char>, segment: Seq<char>, snapshot: Seq<char>)
    ensures
        block_location(block) != segment_location(segment),
        block_location(block) != snapshot_location_spec(snapshot),
        segment_location(segment) != snapshot_location_spec(snapshot),
{
    reveal_strlit("_b");
    reveal_strlit("_sg");
    reveal_strlit("_ss");
    reveal_strlit("/");
    reveal_strlit(".parquet");
    assert(block_location(block)[1] == 'b');
    assert(segment_location(segment)[1] == 's');
    assert(segment_location(segment)[2] == 'g');
    assert(snapshot_location_spec(snapshot)[1] == 's');
    assert(snapshot_location_spec(snapshot)[2] == 's');
}

/// Blocks, and segments, that are named differently lie at different
/// locations.
pub proof fn lemma_locations_injective(a: Seq<char>, b: Seq<char>)
    requires
        a != b,
    ensures
        segment_location(a) != segment_location(b),
        snapshot_location_spec(a) != snapshot_location_spec(b),
        a.len() == b.len() ==> block_location(a) != block_location(b),
{
    reveal_strlit("_b");
    reveal_strlit("_sg");
    reveal_strlit("_ss");
    reveal_strlit("/");
    reveal_strlit(".parquet");
    assert(segment_location(a).subrange(4, segment_location(a).len() as int) =~= a);
    assert(segment_location(b).subrange(4, segment_location(b).len() as int) =~= b);
    assert(snapshot_location_spec(a).subrange(4, snapshot_location_spec(a).len() as int) =~= a);
    assert(snapshot_location_spec(b).subrange(4, snapshot_location_spec(b).len() as int) =~= b);
    if a.len() == b.len() {
        assert(block_location(a).subrange(3, 3 + a.len() as int) =~= a);
        assert(block_location(b).subrange(3, 3 + b.len() as int) =~= b);
    }
}

} // verus!
