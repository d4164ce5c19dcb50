use vstd::prelude::*;

use vstd::string::StrSliceExecFns;
use vstd::string::StringExecFns;

verus! {

/// A content id with an optional leading "0x" removed. Callers may supply
/// either form; storage always uses the bare form.
pub open spec fn strip_0x(s: Seq<char>) -> Seq<char> {
    if s.len() >= 2 && s[0] == '0' && s[1] == 'x' {
        s.subrange(2, s.len() as int)
    } else {
        s
    }
}

/// The shard directory name: the first four characters of the stripped id.
pub open spec fn shard_of(id: Seq<char>) -> Seq<char>
    recommends
        strip_0x(id).len() >= 4,
{
    strip_0x(id).subrange(0, 4)
}

/// Removes a leading "0x" from a content id, if present.
pub fn stripped_id(id: &str) -> (r: &str)
    ensures
        r@ == strip_0x(id@),
{
    let len = id.unicode_len();
    if len >= 2 && id.get_char(0) == '0' && id.get_char(1) == 'x' {
        id.substring_char(2, len)
    } else {
        id
    }
}

/// Where a blob lives on disk, relative to the storage root: a shard
/// directory and a file name inside it.
pub struct BlobPath {
    pub shard: String,
    pub file: String,
}

/// Computes the storage location of a content id: the shard is the first
/// four characters of the stripped id, the file name is the full stripped id.
pub fn blob_path(content_id: &str) -> (r: BlobPath)
    requires
        strip_0x(content_id@).len() >= 4,
    ensures
        r.shard@ == shard_of(content_id@),
        r.file@ == strip_0x(content_id@),
{
    let s = stripped_id(content_id);
    let shard = String::from_str(s.substring_char(0, 4));
    let file = String::from_str(s);
    BlobPath { shard, file }
}

/// The file tree under the storage root, as a map from file name (stripped
/// content id) to stored payload bytes. Writing a record replaces any file
/// of the same name.
pub open spec fn store_put(
    m: Map<Seq<char>, Seq<u8>>,
    id: Seq<char>,
    payload: Seq<u8>,
) -> Map<Seq<char>, Seq<u8>> {
    m.insert(strip_0x(id), payload)
}

/// Idempotence of storage: writing the same record twice produces a file
/// tree identical to writing it once.
pub proof fn lemma_put_idempotent(m: Map<Seq<char>, Seq<u8>>, id: Seq<char>, payload: Seq<u8>)
    ensures
        store_put(store_put(m, id, payload), id, payload) == store_put(m, id, payload),
{
    assert(store_put(store_put(m, id, payload), id, payload) =~= store_put(m, id, payload));
}

/// All writes of one ingestion cycle applied in processing order (a later
/// record with the same id wins).
pub open spec fn store_put_all(
    m: Map<Seq<char>, Seq<u8>>,
    rs: Seq<(Seq<char>, Seq<u8>)>,
) -> Map<Seq<char>, Seq<u8>>
    decreases rs.len(),
{
    if rs.len() == 0 {
        m
    } else {
        store_put(store_put_all(m, rs.drop_last()), rs.last().0, rs.last().1)
    }
}

/// The payload of the last record in `rs` that is stored under key `k`.
pub open spec fn last_write(rs: Seq<(Seq<char>, Seq<u8>)>, k: Seq<char>) -> Option<Seq<u8>>
    decreases rs.len(),
{
    if rs.len() == 0 {
        None
    } else if strip_0x(rs.last().0) == k {
        Some(rs.last().1)
    } else {
        last_write(rs.drop_last(), k)
    }
}

proof fn lemma_put_all_get(
    m: Map<Seq<char>, Seq<u8>>,
    rs: Seq<(Seq<char>, Seq<u8>)>,
    k: Seq<char>,
)
    ensures
        match last_write(rs, k) {
            Some(p) => store_put_all(m, rs).contains_key(k) && store_put_all(m, rs)[k] == p,
            None => store_put_all(m, rs).contains_key(k) == m.contains_key(k) && (m.contains_key(
                k,
            ) ==> store_put_all(m, rs)[k] == m[k]),
        },
    decreases rs.len(),
{
    if rs.len() > 0 {
        lemma_put_all_get(m, rs.drop_last(), k);
    }
}

/// Crash-resume safety of storage: if a run already wrote the records of a
/// height and the process is restarted before the cursor advanced, replaying
/// the same records leaves the file tree exactly as it was — no duplicate
/// and no changed entry.
pub proof fn lemma_replay_idempotent(m: Map<Seq<char>, Seq<u8>>, rs: Seq<(Seq<char>, Seq<u8>)>)
    ensures
        store_put_all(store_put_all(m, rs), rs) == store_put_all(m, rs),
{
    let once = store_put_all(m, rs);
    let twice = store_put_all(once, rs);
    assert forall|k: Seq<char>| #[trigger] once.contains_key(k) implies twice.contains_key(k)
        && twice[k] == once[k] by {
        lemma_put_all_get(m, rs, k);
        lemma_put_all_get(once, rs, k);
    }
    assert forall|k: Seq<char>| #[trigger] twice.contains_key(k) implies once.contains_key(k) by {
        lemma_put_all_get(m, rs, k);
        lemma_put_all_get(once, rs, k);
    }
    assert(twice =~= once);
}

} // verus!
