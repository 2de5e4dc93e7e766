//! Properties that relate several operations of the bridge, proved over the
//! specifications that the operations' own contracts use.
use vstd::prelude::*;

use crate::codec::{base64_decoding, decimal};
use crate::entry::{directory_type_name, entry_of, Entry, EntryKind};
use crate::fs::{
    bytes_from, entries_of, is_chunk_plan, ls_entries, ls_fetch, range_for_offset, range_header,
    rmdir_fetch, rmdir_verdict,
    upload_verdict, ChunkSpec, FsError, PayloadIssue,
};
use crate::model::{entry_type_name, ContentValue, Contents, ContentsEntryType};
use crate::plan::{plan_result, Operand};

verus! {

/// The payload that the service holds once the pieces of `plan` were
/// appended to it in order.
pub open spec fn reassembled(data: Seq<u8>, plan: Seq<ChunkSpec>) -> Seq<u8>
    decreases plan.len(),
{
    if plan.len() == 0 {
        Seq::empty()
    } else {
        reassembled(data, plan.drop_last()) + data.subrange(
            plan.last().start as int,
            plan.last().end as int,
        )
    }
}

proof fn lemma_chunk_bounds(plan: Seq<ChunkSpec>, total: nat, chunk_size: nat, k: int)
    requires
        is_chunk_plan(plan, total, chunk_size),
        0 <= k < plan.len(),
    ensures
        plan[k].start <= plan[k].end <= total,
    decreases plan.len() - k,
{
    if k < plan.len() - 1 {
        lemma_chunk_bounds(plan, total, chunk_size, k + 1);
        assert(plan[k].end == plan[k + 1].start);
        assert(plan[k].end == plan[k].start + chunk_size);
    }
}

proof fn lemma_reassembled_prefix(data: Seq<u8>, plan: Seq<ChunkSpec>, chunk_size: nat, k: int)
    requires
        is_chunk_plan(plan, data.len(), chunk_size),
        0 <= k < plan.len(),
    ensures
        reassembled(data, plan.take(k + 1)) == data.take(plan[k].end as int),
    decreases k,
{
    lemma_chunk_bounds(plan, data.len(), chunk_size, k);
    let p = plan.take(k + 1);
    assert(p.last() == plan[k]);
    if k == 0 {
        assert(p.drop_last() =~= Seq::<ChunkSpec>::empty());
        assert(reassembled(data, p.drop_last()) == Seq::<u8>::empty());
        assert(plan[0].start == 0);
        assert(Seq::<u8>::empty() + data.subrange(0, plan[0].end as int) =~= data.take(plan[0].end as int));
    } else {
        lemma_reassembled_prefix(data, plan, chunk_size, k - 1);
        lemma_chunk_bounds(plan, data.len(), chunk_size, k - 1);
        assert(p.drop_last() =~= plan.take(k));
        assert(plan[k - 1].end == plan[k].start);
        assert(data.take(plan[k - 1].end as int) + data.subrange(
            plan[k].start as int,
            plan[k].end as int,
        ) =~= data.take(plan[k].end as int));
    }
}

/// Appending the pieces of a chunked upload in order rebuilds the payload
/// exactly, whatever the chunk size; each piece but the last is numbered
/// from 1 and the last carries -1; and a chunk size of at least the
/// payload's length gives a single piece.
pub proof fn chunked_upload_reassembles(data: Seq<u8>, plan: Seq<ChunkSpec>, chunk_size: nat)
    requires
        chunk_size >= 1,
        is_chunk_plan(plan, data.len(), chunk_size),
    ensures
        reassembled(data, plan) == data,
        forall|k: int| 0 <= k < plan.len() - 1 ==> #[trigger] plan[k].index == k + 1,
        plan.last().index == -1,
        chunk_size >= data.len() ==> plan.len() == 1,
{
    let n = plan.len() as int;
    lemma_reassembled_prefix(data, plan, chunk_size, n - 1);
    assert(plan.take(n) =~= plan);
    assert(data.take(data.len() as int) =~= data);
    if chunk_size >= data.len() && n > 1 {
        lemma_chunk_bounds(plan, data.len(), chunk_size, 0);
        lemma_chunk_bounds(plan, data.len(), chunk_size, 1);
        lemma_chunk_bounds(plan, data.len(), chunk_size, n - 1);
        assert(plan[0].end == plan[0].start + chunk_size);
        assert(plan[0].end == plan[1].start);
        if n - 1 > 1 {
            lemma_starts_grow(plan, data.len(), chunk_size, 1, n - 1);
        }
        assert(plan[n - 1].start >= plan[1].start);
        assert(data.len() > 0 ==> plan.last().start < plan.last().end);
    }
}

/// What the service holds once it decoded each chunk body and appended the
/// bytes in order; none when a body does not decode.
pub open spec fn appended_bodies(bodies: Seq<Seq<char>>) -> Option<Seq<u8>>
    decreases bodies.len(),
{
    if bodies.len() == 0 {
        Some(Seq::empty())
    } else {
        match (appended_bodies(bodies.drop_last()), base64_decoding(bodies.last())) {
            (Some(front), Some(last)) => Some(front + last),
            _ => None,
        }
    }
}

proof fn lemma_appended_bodies(data: Seq<u8>, plan: Seq<ChunkSpec>, bodies: Seq<Seq<char>>, n: int)
    requires
        0 <= n <= plan.len(),
        bodies.len() == plan.len(),
        forall|k: int|
            0 <= k < plan.len() ==> base64_decoding(#[trigger] bodies[k]) == Some(
                data.subrange(plan[k].start as int, plan[k].end as int),
            ),
    ensures
        appended_bodies(bodies.take(n)) == Some(reassembled(data, plan.take(n))),
    decreases n,
{
    if n == 0 {
        assert(bodies.take(0) =~= Seq::<Seq<char>>::empty());
        assert(plan.take(0) =~= Seq::<ChunkSpec>::empty());
    } else {
        lemma_appended_bodies(data, plan, bodies, n - 1);
        assert(bodies.take(n).drop_last() =~= bodies.take(n - 1));
        assert(plan.take(n).drop_last() =~= plan.take(n - 1));
        assert(bodies.take(n).last() == bodies[n - 1]);
        assert(plan.take(n).last() == plan[n - 1]);
    }
}

/// The bodies of a chunked upload, each the base64 text of its piece (as
/// `chunk_model` makes them), decode and append, in order, to exactly the
/// payload: the service that follows the append protocol ends up holding
/// what was sent, whatever the chunk size.
pub proof fn chunked_upload_bodies_rebuild_payload(
    data: Seq<u8>,
    plan: Seq<ChunkSpec>,
    chunk_size: nat,
    bodies: Seq<Seq<char>>,
)
    requires
        chunk_size >= 1,
        is_chunk_plan(plan, data.len(), chunk_size),
        bodies.len() == plan.len(),
        forall|k: int|
            0 <= k < plan.len() ==> base64_decoding(#[trigger] bodies[k]) == Some(
                data.subrange(plan[k].start as int, plan[k].end as int),
            ),
    ensures
        appended_bodies(bodies) == Some(data),
{
    lemma_appended_bodies(data, plan, bodies, plan.len() as int);
    assert(bodies.take(plan.len() as int) =~= bodies);
    assert(plan.take(plan.len() as int) =~= plan);
    chunked_upload_reassembles(data, plan, chunk_size);
}

proof fn lemma_starts_grow(plan: Seq<ChunkSpec>, total: nat, chunk_size: nat, i: int, j: int)
    requires
        is_chunk_plan(plan, total, chunk_size),
        0 <= i <= j < plan.len(),
    ensures
        plan[i].start <= plan[j].start,
    decreases j - i,
{
    if i < j {
        lemma_starts_grow(plan, total, chunk_size, i, j - 1);
        lemma_chunk_bounds(plan, total, chunk_size, j - 1);
        assert(plan[j - 1].end == plan[j].start);
    }
}

/// An upload succeeds only if the service reports exactly as many bytes as
/// were sent; otherwise it is an integrity failure.
pub proof fn upload_checks_size(c: Contents, total_len: u64)
    ensures
        upload_verdict(c, total_len) is Ok <==> entry_of(c).size == Some(total_len),
        !(upload_verdict(c, total_len) is Ok) ==> upload_verdict(c, total_len) matches Err(
            FsError::InvalidPayload(PayloadIssue::SizeMismatch { .. }),
        ),
{
}

/// A directory that `mkdir` created reads back as a directory: the node
/// type it asks for is the type name that the metadata of a directory
/// carries, and a record of that type is a directory entry.
pub proof fn created_directory_reads_as_directory(c: Contents)
    requires
        c.content_type@ == entry_type_name(ContentsEntryType::Directory),
    ensures
        entry_of(c).kind == EntryKind::Directory,
{
}

/// A non-recursive `rmdir` fetches the node as `ls` does, fails whenever
/// `ls` lists something there, and goes ahead once `ls` lists nothing; for
/// a directory that came with its listing, it fails exactly when the
/// listing is not empty.
pub proof fn rmdir_refuses_nonempty_listing(c: Contents)
    ensures
        rmdir_fetch(false) == ls_fetch(),
        (ls_entries(c) matches Ok(s) && s.len() > 0) ==> rmdir_verdict(c) is Err,
        ls_entries(c) == Ok::<Seq<Entry>, FsError>(Seq::empty()) ==> rmdir_verdict(c) is Ok,
        c.content_type@ == directory_type_name() ==> (c.content matches Some(ContentValue::Contents(_))
            ==> (rmdir_verdict(c) is Err <==> (ls_entries(c) matches Ok(s) && s.len() > 0))),
{
    if c.content_type@ == directory_type_name() {
        if let Some(ContentValue::Contents(children)) = c.content {
            assert(entries_of(children@).len() == children@.len());
        }
    } else {
        assert(seq![entry_of(c)].len() == 1);
    }
}

/// `ls` on a directory lists one entry per child, in order and under the
/// child's own name: a name is listed exactly when the service holds a
/// child of that name.
pub proof fn ls_lists_children_by_name(c: Contents, name: Seq<char>)
    requires
        c.content_type@ == directory_type_name(),
        c.content matches Some(ContentValue::Contents(_)),
    ensures
        ls_entries(c) matches Ok(s) && (
            (exists|i: int| 0 <= i < s.len() && (#[trigger] s[i]).name@ == name)
            <==> (exists|j: int| 0 <= j < c.content->Some_0->Contents_0@.len() && (
                #[trigger] c.content->Some_0->Contents_0@[j]).name@ == name)),
{
    let children = c.content->Some_0->Contents_0@;
    let s = entries_of(children);
    assert forall|i: int| 0 <= i < s.len() implies s[i].name == children[i].name by {}
    if exists|i: int| 0 <= i < s.len() && (#[trigger] s[i]).name@ == name {
        let i = choose|i: int| 0 <= i < s.len() && (#[trigger] s[i]).name@ == name;
        assert(children[i].name@ == name);
    }
    if exists|j: int| 0 <= j < children.len() && (#[trigger] children[j]).name@ == name {
        let j = choose|j: int| 0 <= j < children.len() && (#[trigger] children[j]).name@ == name;
        assert(s[j].name@ == name);
    }
}

/// Sources that mix a local and a remote operand are rejected, whatever the
/// destination.
pub proof fn mixed_sources_rejected(sources: Seq<Operand>, destination: Operand, i: int, j: int)
    requires
        0 <= i < sources.len(),
        0 <= j < sources.len(),
        sources[i] is Local,
        sources[j] is Remote,
    ensures
        plan_result(sources, destination) is Err,
{
}

/// A download from offset `start` asks the streaming transport for the
/// open range `bytes=<start>-` (no range at all from 0), and otherwise keeps
/// exactly the bytes of the whole file from `start` on: the last
/// `len - start` of them, all of them from 0, and nothing past the end.
pub proof fn offset_download_is_suffix(bytes: Seq<u8>, start: u64)
    ensures
        start > 0 ==> range_for_offset(start) == Some((start, None::<u64>)) && range_header(
            start as nat,
            None,
        ) == seq!['b', 'y', 't', 'e', 's', '='] + decimal(start as nat) + seq!['-'],
        start == 0 ==> range_for_offset(start) is None && bytes_from(bytes, 0) == Some(bytes),
        start <= bytes.len() ==> (bytes_from(bytes, start as nat) matches Some(b) && b.len()
            == bytes.len() - start && forall|i: int| 0 <= i < b.len() ==> b[i] == bytes[start + i]),
        start > bytes.len() ==> bytes_from(bytes, start as nat) is None,
{
    assert(bytes.skip(0) =~= bytes);
}

} // verus!
