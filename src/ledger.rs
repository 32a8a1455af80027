//! Progress accounting: which chunks are done and how many bytes they hold.
//!
//! Bytes are counted only when a whole chunk has arrived, so the byte total is
//! always the sum of the lengths of the completed chunks.
use crate::chunks::{
    chunk_count, chunk_len, chunk_range, chunk_size_for, lemma_begin_monotone, lemma_chunk_count_bounds,
    lemma_chunk_in_layout, lemma_layout_covers_file, prefix_bytes, total_chunks,
};
use crate::error::DownloadError;
use vstd::prelude::*;

verus! {

/// Sum of the lengths of the chunks listed in `s`, in a file of `total` bytes.
pub open spec fn completed_bytes(total: int, s: Seq<u64>) -> int
    decreases s.len(),
{
    if s.len() == 0 {
        0
    } else {
        completed_bytes(total, s.drop_last()) + chunk_len(total, s.last() as int)
    }
}

/// Sum of the lengths of those chunks among `0 .. k` that `s` lists.
pub open spec fn marked_bytes(total: int, s: Seq<u64>, k: nat) -> int
    decreases k,
{
    if k == 0 {
        0
    } else {
        marked_bytes(total, s, (k - 1) as nat) + if s.contains((k - 1) as u64) {
            chunk_len(total, k - 1)
        } else {
            0
        }
    }
}

/// Every index listed is a chunk of the file.
pub open spec fn all_in_layout(total: int, s: Seq<u64>) -> bool {
    forall|i: int| 0 <= i < s.len() ==> (#[trigger] s[i] as int) < chunk_count(total)
}

proof fn lemma_marked_push(total: int, s: Seq<u64>, x: u64, k: nat)
    requires
        !s.contains(x),
        k <= u64::MAX + 1,
    ensures
        marked_bytes(total, s.push(x), k) == marked_bytes(total, s, k) + if (x as int) < k {
            chunk_len(total, x as int)
        } else {
            0
        },
    decreases k,
{
    if k > 0 {
        lemma_marked_push(total, s, x, (k - 1) as nat);
        let y = (k - 1) as u64;
        assert(s.push(x).contains(y) <==> (s.contains(y) || y == x)) by {
            if s.push(x).contains(y) {
                let j = choose|j: int| 0 <= j < s.push(x).len() && s.push(x)[j] == y;
                if j < s.len() {
                    assert(s[j] == y);
                }
            }
            if s.contains(y) {
                let j = choose|j: int| 0 <= j < s.len() && s[j] == y;
                assert(s.push(x)[j] == y);
            }
            if y == x {
                assert(s.push(x)[s.len() as int] == y);
            }
        }
    }
}

proof fn lemma_marked_le_prefix(total: int, s: Seq<u64>, k: nat)
    requires
        total >= 0,
    ensures
        0 <= marked_bytes(total, s, k) <= prefix_bytes(total, k),
    decreases k,
{
    if k > 0 {
        lemma_marked_le_prefix(total, s, (k - 1) as nat);
        lemma_begin_monotone(total, k - 1, k as int);
    }
}

proof fn lemma_completed_is_marked(total: int, s: Seq<u64>)
    requires
        0 <= total <= u64::MAX,
        s.no_duplicates(),
        all_in_layout(total, s),
    ensures
        completed_bytes(total, s) == marked_bytes(total, s, chunk_count(total) as nat),
    decreases s.len(),
{
    lemma_chunk_count_bounds(total);
    lemma_count_fits(total);
    let n = chunk_count(total) as nat;
    if s.len() == 0 {
        lemma_marked_none(total, s, n);
    } else {
        let t = s.drop_last();
        let x = s.last();
        assert(t.push(x) =~= s);
        assert(!t.contains(x)) by {
            if t.contains(x) {
                let j = choose|j: int| 0 <= j < t.len() && t[j] == x;
                assert(s[j] == s[s.len() - 1]);
            }
        }
        assert(all_in_layout(total, t)) by {
            assert forall|i: int| 0 <= i < t.len() implies (#[trigger] t[i] as int) < chunk_count(
                total,
            ) by {
                assert(t[i] == s[i]);
            }
        }
        assert(t.no_duplicates()) by {
            assert forall|i: int, j: int|
                0 <= i < t.len() && 0 <= j < t.len() && i != j implies t[i] != t[j] by {
                assert(t[i] == s[i] && t[j] == s[j]);
            }
        }
        assert((x as int) < chunk_count(total)) by {
            assert(s[s.len() - 1] == x);
        }
        lemma_completed_is_marked(total, t);
        lemma_marked_push(total, t, x, n);
    }
}

proof fn lemma_marked_none(total: int, s: Seq<u64>, k: nat)
    requires
        s.len() == 0,
    ensures
        marked_bytes(total, s, k) == 0,
    decreases k,
{
    if k > 0 {
        lemma_marked_none(total, s, (k - 1) as nat);
    }
}

proof fn lemma_count_fits(total: int)
    requires
        0 <= total <= u64::MAX,
    ensures
        chunk_count(total) <= u64::MAX,
{
    lemma_chunk_count_bounds(total);
    let cs = chunk_size_for(total);
    let n = chunk_count(total);
    if n > 0 {
        assert(n - 1 < total) by (nonlinear_arith)
            requires (n - 1) * cs < total, cs >= 1, n >= 1;
    }
}

/// Listed chunks that are distinct chunks of the file hold at most the whole
/// file.
pub proof fn lemma_completed_bytes_bounded(total: int, s: Seq<u64>)
    requires
        0 <= total <= u64::MAX,
        s.no_duplicates(),
        all_in_layout(total, s),
    ensures
        0 <= completed_bytes(total, s) <= total,
{
    lemma_completed_is_marked(total, s);
    lemma_marked_le_prefix(total, s, chunk_count(total) as nat);
    lemma_layout_covers_file(total);
}

/// A saved list of completed chunks that a ledger can be rebuilt from: no
/// index twice, every index a chunk of the file.
pub open spec fn restorable(total_size: u64, s: Seq<u64>) -> bool {
    s.no_duplicates() && all_in_layout(total_size as int, s)
}

/// Which chunks of one file are complete, and the bytes they account for.
pub struct ChunkLedger {
    total_size: u64,
    completed: Vec<u64>,
    downloaded_bytes: u64,
}

impl ChunkLedger {
    pub closed spec fn spec_total_size(&self) -> u64 {
        self.total_size
    }

    pub closed spec fn spec_completed(&self) -> Seq<u64> {
        self.completed@
    }

    pub closed spec fn spec_downloaded(&self) -> u64 {
        self.downloaded_bytes
    }

    /// No chunk is listed twice, every listed chunk belongs to the file, and the
    /// byte count is the sum of the lengths of the listed chunks.
    pub open spec fn wf(&self) -> bool {
        &&& self.spec_completed().no_duplicates()
        &&& all_in_layout(self.spec_total_size() as int, self.spec_completed())
        &&& self.spec_downloaded() as int == completed_bytes(
            self.spec_total_size() as int,
            self.spec_completed(),
        )
    }

    /// An empty ledger for a file of `total_size` bytes.
    pub fn new(total_size: u64) -> (r: Self)
        ensures
            r.wf(),
            r.spec_total_size() == total_size,
            r.spec_completed() == Seq::<u64>::empty(),
            r.spec_downloaded() == 0,
    {
        ChunkLedger { total_size, completed: Vec::new(), downloaded_bytes: 0 }
    }

    /// Rebuilds a ledger from a saved list of completed chunks. Fails with an
    /// integrity error when the list names a chunk twice or names an index past
    /// the last chunk.
    pub fn restore(total_size: u64, completed: &Vec<u64>) -> (r: Result<Self, DownloadError>)
        ensures
            r is Ok <==> restorable(total_size, completed@),
            r matches Ok(l) ==> {
                &&& l.wf()
                &&& l.spec_total_size() == total_size
                &&& l.spec_completed() == completed@
                &&& l.spec_downloaded() as int == completed_bytes(total_size as int, completed@)
            },
            r matches Err(e) ==> e is Integrity,
    {
        let n = total_chunks(total_size);
        let mut ledger = ChunkLedger::new(total_size);
        let mut i: usize = 0;
        while i < completed.len()
            invariant
                0 <= i <= completed.len(),
                n as int == chunk_count(total_size as int),
                ledger.wf(),
                ledger.total_size == total_size,
                ledger.completed@ == completed@.subrange(0, i as int),
            decreases completed.len() - i,
        {
            let x = completed[i];
            if x >= n || ledger.is_recorded(x) {
                proof {
                    if x < n {
                        let j = choose|j: int| 0 <= j < i && ledger.completed@[j] == x;
                        assert(completed@[j] == completed@[i as int]);
                    } else {
                        assert(completed@[i as int] == x);
                    }
                }
                return Err(
                    DownloadError::Integrity {
                        message: String::from_str("saved chunk list is inconsistent"),
                    },
                );
            }
            let added = ledger.record_completion(x);
            assert(added is Some);
            i = i + 1;
            assert(ledger.completed@ =~= completed@.subrange(0, i as int));
        }
        assert(completed@.subrange(0, i as int) =~= completed@);
        Ok(ledger)
    }

    /// Whether chunk `index` is already listed as complete.
    pub fn is_recorded(&self, index: u64) -> (r: bool)
        ensures
            r == self.spec_completed().contains(index),
    {
        let mut i: usize = 0;
        while i < self.completed.len()
            invariant
                0 <= i <= self.completed.len(),
                forall|j: int| 0 <= j < i ==> self.completed@[j] != index,
            decreases self.completed.len() - i,
        {
            if self.completed[i] == index {
                assert(self.completed@[i as int] == index);
                return true;
            }
            i = i + 1;
        }
        false
    }

    /// Records that chunk `index` arrived in full. A chunk already listed is
    /// not counted again and `None` is returned; otherwise its length is added
    /// to the byte count and the new byte count is returned.
    pub fn record_completion(&mut self, index: u64) -> (r: Option<u64>)
        requires
            old(self).wf(),
            (index as int) < chunk_count(old(self).spec_total_size() as int),
        ensures
            final(self).wf(),
            final(self).spec_total_size() == old(self).spec_total_size(),
            old(self).spec_completed().contains(index) ==> (r is None && *final(self) == *old(
                self,
            )),
            !old(self).spec_completed().contains(index) ==> {
                &&& final(self).spec_completed() == old(self).spec_completed().push(index)
                &&& final(self).spec_downloaded() as int == old(self).spec_downloaded() + chunk_len(
                    old(self).spec_total_size() as int,
                    index as int,
                )
                &&& r == Some(final(self).spec_downloaded())
            },
    {
        if self.is_recorded(index) {
            return None;
        }
        let (_, _, len) = chunk_range(self.total_size, index);
        let ghost total = self.total_size as int;
        let ghost s = self.completed@.push(index);
        proof {
            assert(s.drop_last() =~= self.completed@);
            assert(s.no_duplicates()) by {
                assert forall|i: int, j: int|
                    0 <= i < s.len() && 0 <= j < s.len() && i != j implies s[i] != s[j] by {
                    if i < s.len() - 1 && j < s.len() - 1 {
                        assert(s[i] == self.completed@[i] && s[j] == self.completed@[j]);
                    } else if i < s.len() - 1 {
                        assert(s[i] == self.completed@[i]);
                    } else {
                        assert(s[j] == self.completed@[j]);
                    }
                }
            }
            assert(all_in_layout(total, s)) by {
                assert forall|i: int| 0 <= i < s.len() implies (#[trigger] s[i] as int)
                    < chunk_count(total) by {
                    if i < s.len() - 1 {
                        assert(s[i] == self.completed@[i]);
                    }
                }
            }
            lemma_completed_bytes_bounded(total, s);
        }
        self.completed.push(index);
        self.downloaded_bytes = self.downloaded_bytes + len;
        Some(self.downloaded_bytes)
    }

    pub fn total_size(&self) -> (r: u64)
        ensures
            r == self.spec_total_size(),
    {
        self.total_size
    }

    pub fn downloaded_bytes(&self) -> (r: u64)
        ensures
            r == self.spec_downloaded(),
    {
        self.downloaded_bytes
    }

    pub fn completed_count(&self) -> (r: u64)
        requires
            self.wf(),
        ensures
            r as int == self.spec_completed().len(),
    {
        proof {
            self.lemma_count_bounded();
        }
        self.completed.len() as u64
    }

    /// A copy of the list of completed chunks, in order of completion.
    pub fn completed_chunks(&self) -> (r: Vec<u64>)
        ensures
            r@ == self.spec_completed(),
    {
        self.completed.clone()
    }

    /// A well-formed ledger lists at most as many chunks as the file has.
    pub proof fn lemma_count_bounded(&self)
        requires
            self.wf(),
        ensures
            self.spec_completed().len() <= chunk_count(self.spec_total_size() as int),
            chunk_count(self.spec_total_size() as int) <= u64::MAX,
    {
        let total = self.spec_total_size() as int;
        let s = self.spec_completed();
        lemma_count_fits(total);
        let n = chunk_count(total);
        lemma_chunk_count_bounds(total);
        let set_s = s.to_set();
        let range = Set::new(|i: u64| (i as int) < n);
        s.unique_seq_to_set();
        assert(set_s.subset_of(range)) by {
            assert forall|x: u64| set_s.contains(x) implies range.contains(x) by {
                let j = choose|j: int| 0 <= j < s.len() && s[j] == x;
                assert((s[j] as int) < n);
            }
        }
        lemma_range_len(n as nat);
        vstd::set_lib::lemma_len_subset(set_s, range);
    }

    /// The counted bytes of a well-formed ledger never exceed the file size.
    pub proof fn lemma_bytes_bounded(&self)
        requires
            self.wf(),
        ensures
            self.spec_downloaded() <= self.spec_total_size(),
    {
        lemma_completed_bytes_bounded(self.spec_total_size() as int, self.spec_completed());
    }
}

proof fn lemma_range_len(n: nat)
    requires
        n <= u64::MAX + 1,
    ensures
        Set::new(|i: u64| (i as int) < n).finite(),
        Set::new(|i: u64| (i as int) < n).len() == n,
    decreases n,
{
    let r = Set::new(|i: u64| (i as int) < n);
    if n == 0 {
        assert(r =~= Set::<u64>::empty());
    } else {
        let m = (n - 1) as nat;
        lemma_range_len(m);
        let r0 = Set::new(|i: u64| (i as int) < m);
        assert(r =~= r0.insert(m as u64));
    }
}

/// Counting bytes only on whole-chunk success means a ledger that reached the
/// file size holds exactly the file size: a completed download has
/// `downloaded_bytes == total_size`.
pub proof fn lemma_complete_means_exact(l: &ChunkLedger)
    requires
        l.wf(),
        l.spec_downloaded() >= l.spec_total_size(),
    ensures
        l.spec_downloaded() == l.spec_total_size(),
{
    l.lemma_bytes_bounded();
}


proof fn lemma_full_marked(total: int, s: Seq<u64>, k: nat)
    requires
        0 <= total <= u64::MAX,
        k <= chunk_count(total),
        marked_bytes(total, s, k) == prefix_bytes(total, k),
    ensures
        forall|i: int| 0 <= i < k ==> s.contains(#[trigger] (i as u64)),
    decreases k,
{
    if k > 0 {
        lemma_marked_le_prefix(total, s, (k - 1) as nat);
        lemma_chunk_in_layout(total, k - 1);
        lemma_full_marked(total, s, (k - 1) as nat);
        assert forall|i: int| 0 <= i < k implies s.contains(#[trigger] (i as u64)) by {
            if i < k - 1 {
            } else {
                assert(i == k - 1);
            }
        }
    }
}

/// A ledger whose byte count reached the file size holds every chunk of the
/// file, each once: completion means `|completed_chunks| == total_chunks`.
pub proof fn lemma_full_ledger_has_every_chunk(l: &ChunkLedger)
    requires
        l.wf(),
        l.spec_downloaded() == l.spec_total_size(),
    ensures
        forall|i: int|
            0 <= i < chunk_count(l.spec_total_size() as int) ==> l.spec_completed().contains(
                #[trigger] (i as u64),
            ),
        l.spec_completed().len() == chunk_count(l.spec_total_size() as int),
{
    let total = l.spec_total_size() as int;
    let s = l.spec_completed();
    let n = chunk_count(total);
    lemma_chunk_count_bounds(total);
    lemma_count_fits(total);
    lemma_completed_is_marked(total, s);
    lemma_layout_covers_file(total);
    lemma_full_marked(total, s, n as nat);
    let range = Set::new(|i: u64| (i as int) < n);
    s.unique_seq_to_set();
    assert(s.to_set() =~= range) by {
        assert forall|x: u64| s.to_set().contains(x) implies range.contains(x) by {
            let j = choose|j: int| 0 <= j < s.len() && s[j] == x;
            assert((s[j] as int) < n);
        }
        assert forall|x: u64| range.contains(x) implies s.to_set().contains(x) by {
            assert(s.contains((x as int) as u64));
        }
    }
    lemma_range_len(n as nat);
}

} // verus!
