//! Following the client's log file as it grows: each read takes what was added since the
//! last one, or the whole file when it shrank (the client started a new log).

use vstd::prelude::*;

verus! {

/// The part of the file to read: from `start`, `len` bytes.
#[derive(Debug, Clone, Copy, PartialEq, Eq, Structural)]
pub struct ReadRange {
    pub start: u64,
    pub len: u64,
}

/// What to read of a file of `current` bytes when `last` bytes were read before: nothing when
/// the size did not change; what was appended when it grew; all of it when it shrank.
pub open spec fn read_range_for(last: u64, current: u64) -> Option<ReadRange> {
    if current == last {
        None
    } else if current > last {
        Some(ReadRange { start: last, len: (current - last) as u64 })
    } else {
        Some(ReadRange { start: 0, len: current })
    }
}

/// Follows a log file.
#[derive(Debug, Clone)]
pub struct LogWatcher {
    path: String,
    last_file_size: u64,
}

impl LogWatcher {
    /// The path of the file followed.
    pub closed spec fn path_view(&self) -> Seq<char> {
        self.path@
    }

    /// The size of the file at the last read.
    pub closed spec fn last_size(&self) -> u64 {
        self.last_file_size
    }

    /// A watcher of the file at `path`, which has read nothing yet.
    pub fn new(path: String) -> (r: LogWatcher)
        ensures
            r.path_view() == path@,
            r.last_size() == 0,
    {
        LogWatcher { path, last_file_size: 0 }
    }

    /// The path of the file followed.
    pub fn path(&self) -> (r: &str)
        ensures
            r@ == self.path_view(),
    {
        self.path.as_str()
    }

    /// The size of the file at the last read.
    pub fn last_file_size(&self) -> (r: u64)
        ensures
            r == self.last_size(),
    {
        self.last_file_size
    }

    /// What to read now that the file has `current_file_size` bytes.
    pub fn next_read(&self, current_file_size: u64) -> (r: Option<ReadRange>)
        ensures
            r == read_range_for(self.last_size(), current_file_size),
    {
        if current_file_size == self.last_file_size {
            None
        } else if current_file_size > self.last_file_size {
            Some(ReadRange { start: self.last_file_size, len: current_file_size - self.last_file_size })
        } else {
            Some(ReadRange { start: 0, len: current_file_size })
        }
    }

    /// Records that the file was read up to `current_file_size` bytes.
    pub fn commit_read(&mut self, current_file_size: u64)
        ensures
            final(self).path_view() == old(self).path_view(),
            final(self).last_size() == current_file_size,
    {
        self.last_file_size = current_file_size;
    }
}

/// A read ends where the file ends: the range it takes stops at the current size.
pub proof fn lemma_read_reaches_end(last: u64, current: u64)
    requires
        read_range_for(last, current) is Some,
    ensures
        read_range_for(last, current)->0.start + read_range_for(last, current)->0.len == current,
{
}

/// Once a read of a file of `current` bytes is recorded (`commit_read`), looking again at a
/// file of the same size (`next_read`) reads nothing.
pub proof fn lemma_reread_is_empty(current: u64)
    ensures
        read_range_for(current, current) is None,
{
}

/// While the file only grows, consecutive reads take adjacent ranges: each begins where the
/// previous one ended, so nothing is read twice and nothing is skipped.
pub proof fn lemma_growing_reads_are_adjacent(last: u64, first: u64, second: u64)
    requires
        last < first,
        first < second,
    ensures
        read_range_for(last, first) matches Some(a) && read_range_for(first, second) matches Some(b)
            && b.start == a.start + a.len,
{
}

/// The bytes that a read takes of a file whose content is `file`, when `last` bytes were read
/// before: the range that `read_range_for` gives for the file's size, or nothing.
pub open spec fn read_chunk(file: Seq<u8>, last: u64, current: u64) -> Seq<u8> {
    match read_range_for(last, current) {
        Some(r) => file.subrange(r.start as int, r.start + r.len),
        None => Seq::empty(),
    }
}

/// The bytes that successive reads give, joined in order, from a watcher that read `last`
/// bytes before, when at each read the file holds the first `sizes[k]` bytes of `file`; each
/// read is recorded (`commit_read`) before the next.
pub open spec fn reads_joined(file: Seq<u8>, last: u64, sizes: Seq<u64>) -> Seq<u8>
    decreases sizes.len(),
{
    if sizes.len() == 0 {
        Seq::empty()
    } else {
        read_chunk(file, last, sizes[0]) + reads_joined(file, sizes[0], sizes.drop_first())
    }
}

/// The size of the file at the last of the reads, or `last` when there is none.
pub open spec fn size_after(last: u64, sizes: Seq<u64>) -> u64 {
    if sizes.len() == 0 {
        last
    } else {
        sizes.last()
    }
}

/// While the file only grows by appending, the successive reads joined are exactly the bytes
/// added since the first of them: no byte is read twice and none is skipped. From a new
/// watcher (`last` is 0) they are the whole file as it stands at the last read.
pub proof fn lemma_growing_reads_join_to_file(file: Seq<u8>, last: u64, sizes: Seq<u64>)
    requires
        last <= file.len(),
        forall|i: int| 0 <= i < sizes.len() ==> last <= #[trigger] sizes[i] <= file.len(),
        forall|i: int, j: int| 0 <= i <= j < sizes.len() ==> sizes[i] <= sizes[j],
    ensures
        reads_joined(file, last, sizes) == file.subrange(last as int, size_after(last, sizes) as int),
    decreases sizes.len(),
{
    if sizes.len() == 0 {
        assert(file.subrange(last as int, last as int) =~= Seq::<u8>::empty());
    } else {
        let rest = sizes.drop_first();
        assert forall|i: int| 0 <= i < rest.len() implies sizes[0] <= #[trigger] rest[i] <= file.len() by {
            assert(rest[i] == sizes[i + 1]);
        }
        assert forall|i: int, j: int| 0 <= i <= j < rest.len() implies rest[i] <= rest[j] by {
            assert(rest[i] == sizes[i + 1] && rest[j] == sizes[j + 1]);
        }
        lemma_growing_reads_join_to_file(file, sizes[0], rest);
        let end = size_after(last, sizes);
        assert(size_after(sizes[0], rest) == end) by {
            if rest.len() > 0 {
                assert(rest.last() == sizes.last());
            }
        }
        assert(sizes[0] <= end) by {
            if rest.len() > 0 {
                assert(sizes[0] <= sizes[sizes.len() - 1]);
            }
        }
        if sizes[0] == last {
            assert(read_chunk(file, last, sizes[0]) =~= Seq::<u8>::empty());
            assert(reads_joined(file, last, sizes) =~= reads_joined(file, sizes[0], rest));
        } else {
            assert(read_chunk(file, last, sizes[0]) == file.subrange(last as int, sizes[0] as int));
            assert(file.subrange(last as int, sizes[0] as int) + file.subrange(sizes[0] as int, end as int)
                =~= file.subrange(last as int, end as int));
        }
    }
}

} // verus!
