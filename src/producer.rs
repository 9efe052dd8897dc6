use vstd::prelude::*;
use crate::paths::{join_path, join_spec, strip_leading_separators, strip_seps};
use crate::upload::{opt_str, TransferChunk};

verus! {

/// Bytes read from the local file for each chunk.
pub const CHUNK_SIZE: usize = 65536;

/// Chunks that may wait between the reading worker and the sender; a full
/// queue blocks the reader.
pub const QUEUE_CAPACITY: usize = 4;

/// The client side of an upload: turns the blocks read from a local file into
/// the chunk stream. Every block but the last is full; the chunk of the first
/// short block (empty when the size is a multiple of the block size) carries
/// `eof`, and nothing follows it.
pub struct ChunkProducer {
    pub filename: String,
    pub target_dir: String,
    pub finished: bool,
}

/// The last character of `s` closes no component: it is a separator, or the
/// `.` of a trailing `/.` component, which paths ignore.
pub open spec fn trailing_noise(s: Seq<char>) -> bool {
    s.len() > 0 && (s.last() == '/' || (s.len() >= 2 && s.last() == '.' && s[s.len() - 2] == '/'))
}

/// `s` without its trailing separators and trailing `.` components.
pub open spec fn trim_trailing(s: Seq<char>) -> Seq<char>
    decreases s.len(),
{
    if trailing_noise(s) {
        trim_trailing(s.drop_last())
    } else {
        s
    }
}

/// What follows the last separator of `s` (all of `s` where it has none).
pub open spec fn last_segment(s: Seq<char>) -> Seq<char>
    decreases s.len(),
{
    if s.len() == 0 || s.last() == '/' {
        Seq::empty()
    } else {
        last_segment(s.drop_last()).push(s.last())
    }
}

/// The name of the file that a path ends in: its last component once
/// trailing separators and `.` components are dropped (`dir/.` ends in
/// `dir`), or none where that is empty, `.` or `..`.
pub open spec fn file_name_spec(p: Seq<char>) -> Option<Seq<char>> {
    let seg = last_segment(trim_trailing(p));
    if seg.len() == 0 || seg == seq!['.'] || seg == seq!['.', '.'] {
        None
    } else {
        Some(seg)
    }
}

/// A local path read relative to `home`, whatever separators lead it.
pub open spec fn local_path_spec(home: Seq<char>, local: Seq<char>) -> Seq<char> {
    join_spec(home, strip_seps(local))
}

impl ChunkProducer {
    pub fn new(filename: String, target_dir: String) -> (r: ChunkProducer)
        ensures
            r.filename@ == filename@,
            r.target_dir@ == target_dir@,
            !r.finished,
    {
        ChunkProducer { filename, target_dir, finished: false }
    }

    /// The chunk for the next block read from the file, or none once the
    /// stream has ended. A block shorter than `CHUNK_SIZE` is the last one.
    pub fn next_chunk(&mut self, block: Vec<u8>) -> (r: Option<TransferChunk>)
        requires
            block@.len() <= CHUNK_SIZE,
        ensures
            final(self).filename@ == old(self).filename@,
            final(self).target_dir@ == old(self).target_dir@,
            old(self).finished ==> r is None && final(self).finished,
            !old(self).finished ==> (r matches Some(c) && c.filename@ == old(self).filename@
                && c.target_dir@ == old(self).target_dir@ && c.data@ == block@ && c.eof == (
            block@.len() < CHUNK_SIZE) && final(self).finished == c.eof),
    {
        if self.finished {
            return None;
        }
        let eof = block.len() < CHUNK_SIZE;
        self.finished = eof;
        Some(
            TransferChunk {
                filename: self.filename.clone(),
                target_dir: self.target_dir.clone(),
                data: block,
                eof,
            },
        )
    }

    /// Ends the stream early: the file could not be read, or the receiving
    /// side went away. No chunk follows.
    pub fn stop(&mut self)
        ensures
            final(self).filename@ == old(self).filename@,
            final(self).target_dir@ == old(self).target_dir@,
            final(self).finished,
    {
        self.finished = true;
    }
}

proof fn lemma_trim_step(s: Seq<char>, e: int)
    requires
        0 < e <= s.len(),
        trailing_noise(s.subrange(0, e)),
    ensures
        trim_trailing(s.subrange(0, e)) == trim_trailing(s.subrange(0, e - 1)),
{
    assert(s.subrange(0, e).drop_last() =~= s.subrange(0, e - 1));
}

/// The local file that a path names under `home`.
pub fn local_upload_path(home: &str, local: &str) -> (r: String)
    ensures
        r@ == local_path_spec(home@, local@),
{
    join_path(home, strip_leading_separators(local))
}

/// The name of the file that `p` ends in, as `Path::file_name` reads it: its
/// last component once trailing separators and `.` components are dropped,
/// or none where that is empty, `.` or `..`.
pub fn file_name(p: &str) -> (r: Option<String>)
    ensures
        opt_str(r) == file_name_spec(p@),
{
    let n = p.unicode_len();
    let mut end: usize = n;
    assert(p@.subrange(0, n as int) =~= p@);
    while end > 0 && (p.get_char(end - 1) == '/' || (end >= 2 && p.get_char(end - 1) == '.' && p.get_char(
        end - 2,
    ) == '/'))
        invariant
            n == p@.len(),
            end <= n,
            trim_trailing(p@.subrange(0, end as int)) == trim_trailing(p@),
        decreases end,
    {
        proof {
            lemma_trim_step(p@, end as int);
        }
        end = end - 1;
    }
    let ghost t = p@.subrange(0, end as int);
    assert(!trailing_noise(t));
    assert(trim_trailing(t) == t);
    let mut start: usize = end;
    while start > 0 && p.get_char(start - 1) != '/'
        invariant
            n == p@.len(),
            start <= end <= n,
            t == p@.subrange(0, end as int),
            last_segment(t) == last_segment(p@.subrange(0, start as int)) + p@.subrange(
                start as int,
                end as int,
            ),
        decreases start,
    {
        let ghost pre = p@.subrange(0, start as int);
        assert(pre.drop_last() =~= p@.subrange(0, start - 1));
        assert(p@.subrange(start - 1, end as int) =~= seq![pre.last()] + p@.subrange(
            start as int,
            end as int,
        ));
        assert(last_segment(pre) == last_segment(pre.drop_last()).push(pre.last()));
        assert(last_segment(pre.drop_last()).push(pre.last()) + p@.subrange(start as int, end as int)
            =~= last_segment(pre.drop_last()) + p@.subrange(start - 1, end as int));
        start = start - 1;
    }
    assert(last_segment(p@.subrange(0, start as int)) =~= Seq::<char>::empty());
    let seg = p.substring_char(start, end);
    assert(seg@ =~= last_segment(t));
    let len = end - start;
    if len == 0 {
        return None;
    }
    if len == 1 && seg.get_char(0) == '.' {
        assert(seg@ =~= seq!['.']);
        return None;
    }
    if len == 2 && seg.get_char(0) == '.' && seg.get_char(1) == '.' {
        assert(seg@ =~= seq!['.', '.']);
        return None;
    }
    assert(seg@ != seq!['.'] && seg@ != seq!['.', '.']) by {
        if len == 1 {
            assert(seg@[0] != '.');
        }
        if len == 2 {
            assert(seg@[0] != '.' || seg@[1] != '.');
        }
    }
    Some(String::from_str(seg))
}

} // verus!

verus! {

/// The blocks that the producer reads from a file with content `c`: full
/// blocks, then one short block (empty where the size is a multiple of the
/// block size).
pub open spec fn blocks(c: Seq<u8>) -> Seq<Seq<u8>>
    decreases c.len(),
{
    if c.len() < CHUNK_SIZE {
        seq![c]
    } else {
        seq![c.take(CHUNK_SIZE as int)] + blocks(c.skip(CHUNK_SIZE as int))
    }
}

/// The bytes of a sequence of chunks, one after the other.
pub open spec fn concat_all(b: Seq<Seq<u8>>) -> Seq<u8>
    decreases b.len(),
{
    if b.len() == 0 {
        Seq::empty()
    } else {
        b[0] + concat_all(b.drop_first())
    }
}

/// Chunking loses and adds nothing: the blocks of a file put back together
/// are the file, there are `len / CHUNK_SIZE + 1` of them, and exactly the
/// last one is short, so exactly the last chunk carries `eof`.
pub proof fn chunks_reassemble(c: Seq<u8>)
    ensures
        concat_all(blocks(c)) == c,
        blocks(c).len() == (c.len() as int) / (CHUNK_SIZE as int) + 1,
        forall|i: int| 0 <= i < blocks(c).len() ==> ((#[trigger] blocks(c)[i]).len() < CHUNK_SIZE <==> i
            == blocks(c).len() - 1),
        forall|i: int| 0 <= i < blocks(c).len() ==> (#[trigger] blocks(c)[i]).len() <= CHUNK_SIZE,
    decreases c.len(),
{
    if c.len() < CHUNK_SIZE {
        assert(blocks(c) =~= seq![c]);
        assert(concat_all(seq![c]) =~= c + concat_all(seq![c].drop_first()));
        assert(seq![c].drop_first() =~= Seq::<Seq<u8>>::empty());
        assert(c + Seq::<u8>::empty() =~= c);
    } else {
        let rest = c.skip(CHUNK_SIZE as int);
        chunks_reassemble(rest);
        let b = blocks(c);
        assert(b =~= seq![c.take(CHUNK_SIZE as int)] + blocks(rest));
        assert(b.drop_first() =~= blocks(rest));
        assert(c.take(CHUNK_SIZE as int) + rest =~= c);
        assert((c.len() as int) / (CHUNK_SIZE as int) == (rest.len() as int) / (CHUNK_SIZE as int) + 1) by {
            assert(rest.len() == c.len() - CHUNK_SIZE);
            vstd::arithmetic::div_mod::lemma_div_plus_one(rest.len() as int, CHUNK_SIZE as int);
        }
        assert forall|i: int| 0 <= i < b.len() implies ((#[trigger] b[i]).len() < CHUNK_SIZE <==> i == b.len() - 1)
            && b[i].len() <= CHUNK_SIZE by {
            if i > 0 {
                assert(b[i] == blocks(rest)[i - 1]);
            }
        }
    }
}

} // verus!
