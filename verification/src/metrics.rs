//! The gateway's business metrics: request and byte counters, the histogram
//! of upload sizes and the tally of answers by path, method and status.
//!
//! Counters saturate at the largest value instead of starting over.

use crate::text::str_eq;
use vstd::prelude::*;

verus! {

/// Number of finite buckets of the upload-size histogram.
pub const SIZE_BUCKETS: usize = 7;

/// The upper bound of bucket `i` in bytes: zero, then the powers of 1024 from
/// one byte up to 1024 to the fifth.
pub open spec fn bucket_bound(i: int) -> u64 {
    if i == 0 {
        0
    } else if i == 1 {
        1
    } else if i == 2 {
        1024
    } else if i == 3 {
        1048576
    } else if i == 4 {
        1073741824
    } else if i == 5 {
        1099511627776
    } else {
        1125899906842624
    }
}

/// The upper bound of a bucket, where the histogram has that bucket.
pub fn bound_of(i: usize) -> (r: Option<u64>)
    ensures
        r == if i < SIZE_BUCKETS {
            Some(bucket_bound(i as int))
        } else {
            None
        },
{
    if i == 0 {
        Some(0)
    } else if i == 1 {
        Some(1)
    } else if i == 2 {
        Some(1024)
    } else if i == 3 {
        Some(1048576)
    } else if i == 4 {
        Some(1073741824)
    } else if i == 5 {
        Some(1099511627776)
    } else if i == 6 {
        Some(1125899906842624)
    } else {
        None
    }
}

/// A histogram of sizes with cumulative buckets: bucket `i` counts the
/// observations that are no larger than its bound.
#[derive(Debug, PartialEq, Eq)]
pub struct SizeHistogram {
    buckets: Vec<u64>,
    count: u64,
    sum: u64,
}

/// The mathematical content of a [`SizeHistogram`].
pub ghost struct HistogramView {
    /// The counters of the buckets, one for each.
    pub buckets: Seq<u64>,
    /// Number of observations.
    pub count: u64,
    /// Sum of the observed sizes.
    pub sum: u64,
}

impl View for SizeHistogram {
    type V = HistogramView;

    closed spec fn view(&self) -> HistogramView {
        HistogramView { buckets: self.buckets@, count: self.count, sum: self.sum }
    }
}

/// The histogram after one more observation.
pub open spec fn observed(h: HistogramView, size: u64) -> HistogramView {
    HistogramView {
        buckets: Seq::new(
            h.buckets.len(),
            |i: int|
                if size <= bucket_bound(i) {
                    h.buckets[i].saturating_add(1)
                } else {
                    h.buckets[i]
                },
        ),
        count: h.count.saturating_add(1),
        sum: h.sum.saturating_add(size),
    }
}

/// The histogram without observations.
pub open spec fn empty_histogram() -> HistogramView {
    HistogramView { buckets: Seq::new(SIZE_BUCKETS as nat, |i: int| 0u64), count: 0, sum: 0 }
}

impl SizeHistogram {
    #[verifier::type_invariant]
    spec fn one_counter_per_bucket(&self) -> bool {
        self.buckets@.len() == SIZE_BUCKETS
    }

    /// A histogram without observations.
    pub fn new() -> (r: Self)
        ensures
            r@ == empty_histogram(),
    {
        let mut buckets: Vec<u64> = Vec::new();
        let mut i: usize = 0;
        while i < SIZE_BUCKETS
            invariant
                i <= SIZE_BUCKETS,
                buckets@.len() == i,
                forall|j: int| 0 <= j < i ==> buckets@[j] == 0,
            decreases SIZE_BUCKETS - i,
        {
            buckets.push(0);
            i += 1;
        }
        assert(buckets@ =~= empty_histogram().buckets);
        SizeHistogram { buckets, count: 0, sum: 0 }
    }

    /// The histogram with one more size recorded.
    pub fn with_observation(&self, size: u64) -> (r: SizeHistogram)
        ensures
            r@ == observed(self@, size),
    {
        proof {
            use_type_invariant(self);
        }
        let mut buckets: Vec<u64> = Vec::new();
        let mut i: usize = 0;
        while i < SIZE_BUCKETS
            invariant
                i <= SIZE_BUCKETS,
                self.buckets@.len() == SIZE_BUCKETS,
                buckets@.len() == i,
                forall|j: int| 0 <= j < i ==> buckets@[j] == observed(self@, size).buckets[j],
            decreases SIZE_BUCKETS - i,
        {
            let bound = match bound_of(i) {
                Some(bound) => bound,
                None => 0,
            };
            if size <= bound {
                buckets.push(self.buckets[i].saturating_add(1));
            } else {
                buckets.push(self.buckets[i]);
            }
            i += 1;
        }
        assert(buckets@ =~= observed(self@, size).buckets);
        SizeHistogram {
            buckets,
            count: self.count.saturating_add(1),
            sum: self.sum.saturating_add(size),
        }
    }

    /// Records one size.
    pub fn observe(&mut self, size: u64)
        ensures
            final(self)@ == observed(old(self)@, size),
    {
        *self = self.with_observation(size);
    }

    /// The counters of the buckets, one for each.
    pub fn buckets(&self) -> (r: &Vec<u64>)
        ensures
            r@ == self@.buckets,
            r@.len() == SIZE_BUCKETS,
    {
        proof {
            use_type_invariant(self);
        }
        &self.buckets
    }

    /// Number of observations.
    pub fn count(&self) -> (r: u64)
        ensures
            r == self@.count,
    {
        self.count
    }

    /// Sum of the observed sizes.
    pub fn sum(&self) -> (r: u64)
        ensures
            r == self@.sum,
    {
        self.sum
    }
}

/// The sum of the lengths of the chunks of a stream.
pub open spec fn chunk_sum(chunks: Seq<usize>) -> nat
    decreases chunks.len(),
{
    if chunks.len() == 0 {
        0
    } else {
        chunk_sum(chunks.drop_last()) + chunks.last() as nat
    }
}

/// What a byte counter shows after the chunks of a stream have passed it.
pub open spec fn streamed_total(chunks: Seq<usize>) -> u64
    decreases chunks.len(),
{
    if chunks.len() == 0 {
        0
    } else {
        streamed_total(chunks.drop_last()).saturating_add(chunks.last() as u64)
    }
}

/// A byte counter shows the number of bytes that passed it, as long as that
/// number fits the counter.
pub proof fn lemma_streamed_total(chunks: Seq<usize>)
    ensures
        chunk_sum(chunks) <= u64::MAX ==> streamed_total(chunks) == chunk_sum(chunks),
        chunk_sum(chunks) > u64::MAX ==> streamed_total(chunks) == u64::MAX,
    decreases chunks.len(),
{
    if chunks.len() > 0 {
        lemma_streamed_total(chunks.drop_last());
    }
}

/// The counter of the bytes of one upload: every chunk that leaves for the
/// storage service passes it.
pub struct UploadByteCounter {
    total: u64,
    chunks: Ghost<Seq<usize>>,
}

impl UploadByteCounter {
    /// The lengths of the chunks that have passed, in their order.
    pub closed spec fn chunks(&self) -> Seq<usize> {
        self.chunks@
    }

    /// What the counter shows.
    pub closed spec fn shown(&self) -> u64 {
        self.total
    }

    #[verifier::type_invariant]
    spec fn counts_what_passed(&self) -> bool {
        self.total == streamed_total(self.chunks@)
    }

    /// A counter that nothing has passed.
    pub fn new() -> (r: Self)
        ensures
            r.chunks() == Seq::<usize>::empty(),
    {
        UploadByteCounter { total: 0, chunks: Ghost(Seq::empty()) }
    }

    /// Lets a chunk of the given length pass.
    pub fn record(&mut self, chunk_len: usize)
        ensures
            final(self).chunks() == old(self).chunks().push(chunk_len),
    {
        proof {
            use_type_invariant(&*self);
            assert(self.chunks@.push(chunk_len).drop_last() =~= self.chunks@);
        }
        let total = self.total.saturating_add(chunk_len as u64);
        *self = UploadByteCounter { total, chunks: Ghost(self.chunks@.push(chunk_len)) };
    }

    /// The bytes that have passed.
    pub fn total(&self) -> (r: u64)
        ensures
            r == streamed_total(self.chunks()),
            chunk_sum(self.chunks()) <= u64::MAX ==> r == chunk_sum(self.chunks()),
    {
        proof {
            use_type_invariant(self);
            lemma_streamed_total(self.chunks@);
        }
        self.total
    }
}

/// How often one status answered requests of one path and method.
#[derive(Debug, Clone, PartialEq, Eq)]
pub struct ReturnCodeCount {
    pub api_path: String,
    pub method: String,
    pub status_code: u16,
    pub count: u64,
}

/// The labels of a tally entry.
#[verifier::ext_equal]
pub ghost struct ReturnCodeLabels {
    pub api_path: Seq<char>,
    pub method: Seq<char>,
    pub status_code: u16,
}

/// The mathematical content of a [`ReturnCodeCount`]: labels and their count.
pub ghost struct TallyEntry {
    pub labels: ReturnCodeLabels,
    pub count: u64,
}

impl View for ReturnCodeCount {
    type V = TallyEntry;

    open spec fn view(&self) -> TallyEntry {
        TallyEntry {
            labels: ReturnCodeLabels {
                api_path: self.api_path@,
                method: self.method@,
                status_code: self.status_code,
            },
            count: self.count,
        }
    }
}

/// The views of the entries of a tally.
pub open spec fn tally_entries(v: Seq<ReturnCodeCount>) -> Seq<TallyEntry> {
    Seq::new(v.len(), |i: int| v[i]@)
}

/// How often the tally has counted the given labels.
pub open spec fn tally_of(entries: Seq<TallyEntry>, labels: ReturnCodeLabels) -> u64
    decreases entries.len(),
{
    if entries.len() == 0 {
        0
    } else if entries[0].labels == labels {
        entries[0].count
    } else {
        tally_of(entries.drop_first(), labels)
    }
}

/// Whether no labels occur twice in the tally.
pub open spec fn labels_unique(entries: Seq<TallyEntry>) -> bool {
    forall|i: int, j: int|
        0 <= i < j < entries.len() ==> (#[trigger] entries[i]).labels != (
        #[trigger] entries[j]).labels
}

/// All business metrics of the gateway.
#[derive(Debug, PartialEq, Eq)]
pub struct Metrics {
    total_requests: u64,
    total_bytes_uploaded: u64,
    upload_sizes_ok: SizeHistogram,
    upload_sizes_fail: SizeHistogram,
    return_codes: Vec<ReturnCodeCount>,
}

/// The mathematical content of [`Metrics`].
pub ghost struct MetricsView {
    /// Requests of the business routes.
    pub total_requests: u64,
    /// Bytes that left for the storage service.
    pub total_bytes_uploaded: u64,
    /// Sizes of the uploads that the storage service accepted.
    pub upload_sizes_ok: HistogramView,
    /// Sizes of the uploads that it refused.
    pub upload_sizes_fail: HistogramView,
    /// The tally of answers, one entry for each path, method and status that
    /// was counted.
    pub return_codes: Seq<TallyEntry>,
}

impl MetricsView {
    /// How often answers with the given labels were counted.
    pub open spec fn return_code_count(self, labels: ReturnCodeLabels) -> u64 {
        tally_of(self.return_codes, labels)
    }
}

impl View for Metrics {
    type V = MetricsView;

    closed spec fn view(&self) -> MetricsView {
        MetricsView {
            total_requests: self.total_requests,
            total_bytes_uploaded: self.total_bytes_uploaded,
            upload_sizes_ok: self.upload_sizes_ok@,
            upload_sizes_fail: self.upload_sizes_fail@,
            return_codes: tally_entries(self.return_codes@),
        }
    }
}

/// The metrics of a gateway that has served nothing yet.
pub open spec fn empty_metrics() -> MetricsView {
    MetricsView {
        total_requests: 0,
        total_bytes_uploaded: 0,
        upload_sizes_ok: empty_histogram(),
        upload_sizes_fail: empty_histogram(),
        return_codes: Seq::empty(),
    }
}

/// The metrics after one more request.
pub open spec fn counted_request(before: MetricsView) -> MetricsView {
    MetricsView { total_requests: before.total_requests.saturating_add(1), ..before }
}

/// The metrics after one more finished upload: its bytes add to the byte
/// total, and their number is observed once, in the histogram of the
/// outcome.
pub open spec fn counted_upload(before: MetricsView, data_size: u64, success: bool) -> MetricsView {
    if success {
        MetricsView {
            total_bytes_uploaded: before.total_bytes_uploaded.saturating_add(data_size),
            upload_sizes_ok: observed(before.upload_sizes_ok, data_size),
            ..before
        }
    } else {
        MetricsView {
            total_bytes_uploaded: before.total_bytes_uploaded.saturating_add(data_size),
            upload_sizes_fail: observed(before.upload_sizes_fail, data_size),
            ..before
        }
    }
}

/// The metrics after the given labels were counted once more: their count
/// grows by one and every other count stays, and so does everything else.
pub open spec fn counted_status(
    before: MetricsView,
    labels: ReturnCodeLabels,
    after: MetricsView,
) -> bool {
    &&& after.return_code_count(labels) == before.return_code_count(labels).saturating_add(1)
    &&& forall|other: ReturnCodeLabels|
        other != labels ==> #[trigger] after.return_code_count(other) == before.return_code_count(
            other,
        )
    &&& labels_unique(after.return_codes)
    &&& after.total_requests == before.total_requests
    &&& after.total_bytes_uploaded == before.total_bytes_uploaded
    &&& after.upload_sizes_ok == before.upload_sizes_ok
    &&& after.upload_sizes_fail == before.upload_sizes_fail
}

/// One finished upload is counted once. Below the top of the counters, the
/// byte total grows by the upload's bytes, and the histogram of the outcome,
/// and no other, gets exactly one more observation, of those bytes; an upload
/// of no bytes is observed as well.
pub proof fn lemma_upload_is_counted_once(before: MetricsView, data_size: u64, success: bool)
    requires
        before.total_bytes_uploaded + data_size <= u64::MAX,
        before.upload_sizes_ok.count < u64::MAX,
        before.upload_sizes_fail.count < u64::MAX,
        before.upload_sizes_ok.sum + data_size <= u64::MAX,
        before.upload_sizes_fail.sum + data_size <= u64::MAX,
    ensures
        ({
            let after = counted_upload(before, data_size, success);
            &&& after.total_bytes_uploaded == before.total_bytes_uploaded + data_size
            &&& success ==> after.upload_sizes_ok.count == before.upload_sizes_ok.count + 1
                && after.upload_sizes_ok.sum == before.upload_sizes_ok.sum + data_size
                && after.upload_sizes_fail == before.upload_sizes_fail
            &&& !success ==> after.upload_sizes_fail.count == before.upload_sizes_fail.count + 1
                && after.upload_sizes_fail.sum == before.upload_sizes_fail.sum + data_size
                && after.upload_sizes_ok == before.upload_sizes_ok
            &&& after.total_requests == before.total_requests
            &&& after.return_codes == before.return_codes
        }),
{
}

impl Metrics {
    #[verifier::type_invariant]
    spec fn no_labels_twice(&self) -> bool {
        labels_unique(tally_entries(self.return_codes@))
    }

    /// Metrics of a gateway that has served nothing yet.
    pub fn new() -> (r: Self)
        ensures
            r@ == empty_metrics(),
    {
        let r = Metrics {
            total_requests: 0,
            total_bytes_uploaded: 0,
            upload_sizes_ok: SizeHistogram::new(),
            upload_sizes_fail: SizeHistogram::new(),
            return_codes: Vec::new(),
        };
        assert(r@.return_codes =~= Seq::<TallyEntry>::empty());
        r
    }

    /// Requests of the business routes.
    pub fn total_requests(&self) -> (r: u64)
        ensures
            r == self@.total_requests,
    {
        self.total_requests
    }

    /// Bytes that left for the storage service.
    pub fn total_bytes_uploaded(&self) -> (r: u64)
        ensures
            r == self@.total_bytes_uploaded,
    {
        self.total_bytes_uploaded
    }

    /// Sizes of the uploads that the storage service accepted.
    pub fn upload_sizes_ok(&self) -> (r: &SizeHistogram)
        ensures
            r@ == self@.upload_sizes_ok,
    {
        &self.upload_sizes_ok
    }

    /// Sizes of the uploads that the storage service refused.
    pub fn upload_sizes_fail(&self) -> (r: &SizeHistogram)
        ensures
            r@ == self@.upload_sizes_fail,
    {
        &self.upload_sizes_fail
    }

    /// The tally of answers: one entry for each path, method and status that
    /// was counted, none twice.
    pub fn return_codes(&self) -> (r: &Vec<ReturnCodeCount>)
        ensures
            tally_entries(r@) == self@.return_codes,
            labels_unique(tally_entries(r@)),
    {
        proof {
            use_type_invariant(self);
        }
        &self.return_codes
    }

    /// How often answers with the given path, method and status were
    /// counted.
    pub fn return_code_count(&self, api_path: &str, method: &str, status: u16) -> (r: u64)
        ensures
            r == self@.return_code_count(
                ReturnCodeLabels { api_path: api_path@, method: method@, status_code: status },
            ),
    {
        let ghost labels = ReturnCodeLabels {
            api_path: api_path@,
            method: method@,
            status_code: status,
        };
        let ghost entries = tally_entries(self.return_codes@);
        let n = self.return_codes.len();
        let mut i: usize = 0;
        while i < n
            invariant
                i <= n,
                n == self.return_codes@.len(),
                entries == tally_entries(self.return_codes@),
                labels == (ReturnCodeLabels {
                    api_path: api_path@,
                    method: method@,
                    status_code: status,
                }),
                forall|j: int| 0 <= j < i ==> (#[trigger] entries[j]).labels != labels,
            decreases n - i,
        {
            let entry = &self.return_codes[i];
            if entry.status_code == status && str_eq(entry.api_path.as_str(), api_path) && str_eq(
                entry.method.as_str(),
                method,
            ) {
                proof {
                    assert(entries[i as int].labels =~= labels);
                    lemma_tally_at(entries, labels, i as int);
                }
                return entry.count;
            }
            assert(entries[i as int] == self.return_codes@[i as int]@);
            i += 1;
        }
        proof {
            lemma_tally_absent(entries, labels);
        }
        0
    }
}

/// Counts one more request.
pub fn count_request(metrics: &mut Metrics)
    ensures
        final(metrics)@ == counted_request(old(metrics)@),
{
    proof {
        use_type_invariant(&*metrics);
    }
    metrics.total_requests = metrics.total_requests.saturating_add(1);
}

/// Counts the bytes of one finished upload: they add to the byte total, and
/// their number is observed once, in the histogram of the outcome.
pub fn count_uploaded_size(metrics: &mut Metrics, data_size: u64, success: bool)
    ensures
        final(metrics)@ == counted_upload(old(metrics)@, data_size, success),
{
    proof {
        use_type_invariant(&*metrics);
    }
    metrics.total_bytes_uploaded = metrics.total_bytes_uploaded.saturating_add(data_size);
    if success {
        metrics.upload_sizes_ok = metrics.upload_sizes_ok.with_observation(data_size);
    } else {
        metrics.upload_sizes_fail = metrics.upload_sizes_fail.with_observation(data_size);
    }
}

/// The tally of the first entry with the given labels is the tally of the
/// labels.
proof fn lemma_tally_at(entries: Seq<TallyEntry>, labels: ReturnCodeLabels, i: int)
    requires
        0 <= i < entries.len(),
        entries[i].labels == labels,
        forall|j: int| 0 <= j < i ==> (#[trigger] entries[j]).labels != labels,
    ensures
        tally_of(entries, labels) == entries[i].count,
    decreases i,
{
    if i > 0 {
        assert(entries[0].labels != labels);
        let rest = entries.drop_first();
        assert forall|j: int| 0 <= j < i - 1 implies (#[trigger] rest[j]).labels != labels by {
            assert(rest[j] == entries[j + 1]);
        }
        lemma_tally_at(rest, labels, i - 1);
    }
}

/// Labels that no entry has were never counted.
proof fn lemma_tally_absent(entries: Seq<TallyEntry>, labels: ReturnCodeLabels)
    requires
        forall|j: int| 0 <= j < entries.len() ==> (#[trigger] entries[j]).labels != labels,
    ensures
        tally_of(entries, labels) == 0,
    decreases entries.len(),
{
    if entries.len() > 0 {
        assert(entries[0].labels != labels);
        let rest = entries.drop_first();
        assert forall|j: int| 0 <= j < rest.len() implies (#[trigger] rest[j]).labels
            != labels by {
            assert(rest[j] == entries[j + 1]);
        }
        lemma_tally_absent(rest, labels);
    }
}

/// A new count at entry `i` changes the tally of that entry's labels alone.
proof fn lemma_tally_after_bump(
    entries: Seq<TallyEntry>,
    bumped: TallyEntry,
    i: int,
    other: ReturnCodeLabels,
)
    requires
        0 <= i < entries.len(),
        bumped.labels == entries[i].labels,
        other != entries[i].labels,
    ensures
        tally_of(entries.update(i, bumped), other) == tally_of(entries, other),
    decreases entries.len(),
{
    let after = entries.update(i, bumped);
    if i == 0 {
        assert(after.drop_first() =~= entries.drop_first());
    } else {
        assert(after[0] == entries[0]);
        assert(after.drop_first() =~= entries.drop_first().update(i - 1, bumped));
        if entries[0].labels != other {
            lemma_tally_after_bump(entries.drop_first(), bumped, i - 1, other);
        }
    }
}

/// A new entry at the end changes the tally of its labels alone, where those
/// labels are new.
proof fn lemma_tally_after_push(
    entries: Seq<TallyEntry>,
    added: TallyEntry,
    other: ReturnCodeLabels,
)
    ensures
        other != added.labels ==> tally_of(entries.push(added), other) == tally_of(
            entries,
            other,
        ),
        (forall|j: int| 0 <= j < entries.len() ==> (#[trigger] entries[j]).labels != other)
            && other == added.labels ==> tally_of(entries.push(added), other) == added.count,
    decreases entries.len(),
{
    let after = entries.push(added);
    if entries.len() == 0 {
        assert(after.drop_first() =~= Seq::<TallyEntry>::empty());
        assert(after[0] == added);
        assert(tally_of(after.drop_first(), other) == 0);
        assert(tally_of(entries, other) == 0);
    } else {
        assert(after[0] == entries[0]);
        assert(after.drop_first() =~= entries.drop_first().push(added));
        lemma_tally_after_push(entries.drop_first(), added, other);
        if forall|j: int| 0 <= j < entries.len() ==> (#[trigger] entries[j]).labels != other {
            assert(entries[0].labels != other);
            assert forall|j: int| 0 <= j < entries.drop_first().len() implies (
            #[trigger] entries.drop_first()[j]).labels != other by {
                assert(entries.drop_first()[j] == entries[j + 1]);
            }
        }
    }
}

/// Counts the answer to a request by path, method and status.
pub fn count_response_status(metrics: &mut Metrics, api_path: &str, method: &str, status: u16)
    ensures
        counted_status(
            old(metrics)@,
            ReturnCodeLabels { api_path: api_path@, method: method@, status_code: status },
            final(metrics)@,
        ),
{
    proof {
        use_type_invariant(&*metrics);
    }
    let ghost labels = ReturnCodeLabels {
        api_path: api_path@,
        method: method@,
        status_code: status,
    };
    let ghost before = tally_entries(metrics.return_codes@);
    let mut codes: Vec<ReturnCodeCount> = Vec::new();
    core::mem::swap(&mut metrics.return_codes, &mut codes);
    assert(tally_entries(metrics.return_codes@) =~= Seq::<TallyEntry>::empty());
    let n = codes.len();
    let mut i: usize = 0;
    while i < n
        invariant
            i <= n,
            n == codes@.len(),
            tally_entries(codes@) == before,
            before == old(metrics)@.return_codes,
            metrics@ == (MetricsView { return_codes: Seq::empty(), ..old(metrics)@ }),
            labels == (ReturnCodeLabels {
                api_path: api_path@,
                method: method@,
                status_code: status,
            }),
            labels_unique(before),
            forall|j: int| 0 <= j < i ==> (#[trigger] before[j]).labels != labels,
        decreases n - i,
    {
        let entry = &codes[i];
        assert(before[i as int] == codes@[i as int]@);
        if entry.status_code == status && str_eq(entry.api_path.as_str(), api_path) && str_eq(
            entry.method.as_str(),
            method,
        ) {
            assert(before[i as int].labels =~= labels);
            let bumped = ReturnCodeCount {
                api_path: entry.api_path.clone(),
                method: entry.method.clone(),
                status_code: status,
                count: entry.count.saturating_add(1),
            };
            proof {
                let after = before.update(i as int, bumped@);
                assert(tally_entries(codes@.update(i as int, bumped)) =~= after);
                assert(bumped@.labels =~= labels);
                lemma_tally_at(before, labels, i as int);
                lemma_tally_at(after, labels, i as int);
                assert forall|other: ReturnCodeLabels| other != labels implies #[trigger] tally_of(
                    after,
                    other,
                ) == tally_of(before, other) by {
                    lemma_tally_after_bump(before, bumped@, i as int, other);
                }
                assert(labels_unique(after)) by {
                    assert forall|a: int, b: int| 0 <= a < b < after.len() implies (
                    #[trigger] after[a]).labels != (#[trigger] after[b]).labels by {
                        assert(after[a].labels == before[a].labels);
                        assert(after[b].labels == before[b].labels);
                    }
                }
            }
            codes.set(i, bumped);
            metrics.return_codes = codes;
            return ;
        }
        i += 1;
    }
    let added = ReturnCodeCount {
        api_path: String::from_str(api_path),
        method: String::from_str(method),
        status_code: status,
        count: 1,
    };
    proof {
        let after = before.push(added@);
        assert(tally_entries(codes@.push(added)) =~= after);
        assert(added@.labels =~= labels);
        lemma_tally_absent(before, labels);
        lemma_tally_after_push(before, added@, labels);
        assert forall|other: ReturnCodeLabels| other != labels implies #[trigger] tally_of(
            after,
            other,
        ) == tally_of(before, other) by {
            lemma_tally_after_push(before, added@, other);
        }
        assert(labels_unique(after)) by {
            assert forall|a: int, b: int| 0 <= a < b < after.len() implies (
            #[trigger] after[a]).labels != (#[trigger] after[b]).labels by {
                if b < before.len() {
                    assert(after[a] == before[a] && after[b] == before[b]);
                } else {
                    assert(after[a] == before[a]);
                    assert(after[b] == added@);
                }
            }
        }
    }
    codes.push(added);
    metrics.return_codes = codes;
}

/// The label of an upload's outcome in the size histogram.
pub fn outcome_label(success: bool) -> (r: &'static str)
    ensures
        r@ == if success {
            "ok"@
        } else {
            "fail"@
        },
{
    if success {
        "ok"
    } else {
        "fail"
    }
}

} // verus!
