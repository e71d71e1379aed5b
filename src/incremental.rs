//! Deciding which blobs to upload, tracking the batches of one upload run,
//! and the identity set that a run leaves behind.
//!
//! The set kept per project holds the local identities of blobs (the hex
//! SHA-256 of path then content). A batch counts as confirmed when the
//! backend answers it with a non-empty list of names; the identities of its
//! blobs then join the set. Keeping one identifier space makes the decision
//! "already uploaded?" a plain membership test on the next run.

use vstd::prelude::*;
use crate::chunking::BlobItem;
use crate::identity::{identity_of, sha256_hex};

verus! {

pub open spec fn blob_id(b: (Seq<char>, Seq<char>)) -> Seq<char> {
    identity_of(b.0, b.1)
}

/// Some blob of `blobs` has identity `x`.
pub open spec fn has_id(blobs: Seq<(Seq<char>, Seq<char>)>, x: Seq<char>) -> bool {
    exists|j: int| 0 <= j < blobs.len() && blob_id(blobs[j]) == x
}

pub open spec fn blob_views(blobs: Seq<BlobItem>) -> Seq<(Seq<char>, Seq<char>)> {
    blobs.map_values(|b: BlobItem| b@)
}

/// The identities to upload and to keep for one run.
#[derive(Debug)]
pub struct UploadPlan {
    /// Identities of current blobs that were already known.
    pub existing: Vec<String>,
    /// One blob for each current identity that was not known.
    pub new_blobs: Vec<BlobItem>,
    /// The identity of each blob of `new_blobs`, at the same index.
    pub new_ids: Vec<String>,
}

/// Whether `x` is one of the strings of `v`.
pub fn contains_string(v: &Vec<String>, x: &String) -> (r: bool)
    ensures
        r == v.deep_view().contains(x@),
{
    let mut i: usize = 0;
    while i < v.len()
        invariant
            i <= v.len(),
            forall|k: int| 0 <= k < i ==> v@[k]@ != x@,
        decreases v.len() - i,
    {
        if v[i] == *x {
            assert(v.deep_view()[i as int] == x@);
            return true;
        }
        i += 1;
    }
    proof {
        if v.deep_view().contains(x@) {
            let k = choose|k: int| 0 <= k < v.deep_view().len() && v.deep_view()[k] == x@;
            assert(v@[k]@ == x@);
        }
    }
    false
}

pub fn copy_blob(b: &BlobItem) -> (r: BlobItem)
    ensures
        r@ == b@,
{
    BlobItem { path: b.path.clone(), content: b.content.clone() }
}

/// Splits the current blobs into identities already known and blobs to
/// upload. Each identity appears once; a blob is hashed once.
pub fn plan_upload(blobs: &Vec<BlobItem>, known: &Vec<String>) -> (r: UploadPlan)
    ensures
        forall|x: Seq<char>|
            r.existing.deep_view().contains(x) <==> (has_id(blob_views(blobs@), x)
                && known.deep_view().contains(x)),
        forall|x: Seq<char>|
            r.new_ids.deep_view().contains(x) <==> (has_id(blob_views(blobs@), x)
                && !known.deep_view().contains(x)),
        r.existing.deep_view().to_set() == kept_ids(blob_views(blobs@), known.deep_view()),
        r.new_ids.deep_view().to_set() == fresh_ids(blob_views(blobs@), known.deep_view()),
        r.existing.deep_view().no_duplicates(),
        r.new_ids.deep_view().no_duplicates(),
        r.new_blobs@.len() == r.new_ids@.len(),
        forall|i: int|
            0 <= i < r.new_ids@.len() ==> r.new_ids@[i]@ == blob_id(#[trigger] r.new_blobs@[i]@)
                && blob_views(blobs@).contains(r.new_blobs@[i]@),
{
    let ghost views = blob_views(blobs@);
    let ghost kn = known.deep_view();
    let mut existing: Vec<String> = Vec::new();
    let mut new_blobs: Vec<BlobItem> = Vec::new();
    let mut new_ids: Vec<String> = Vec::new();
    let mut i: usize = 0;
    while i < blobs.len()
        invariant
            i <= blobs.len(),
            views == blob_views(blobs@),
            kn == known.deep_view(),
            forall|x: Seq<char>|
                #![trigger existing.deep_view().contains(x)]
                #![trigger has_id(views.take(i as int), x)]
                existing.deep_view().contains(x) <==> (has_id(views.take(i as int), x) && kn.contains(x)),
            forall|x: Seq<char>|
                #![trigger new_ids.deep_view().contains(x)]
                #![trigger has_id(views.take(i as int), x)]
                new_ids.deep_view().contains(x) <==> (has_id(views.take(i as int), x) && !kn.contains(x)),
            existing.deep_view().no_duplicates(),
            new_ids.deep_view().no_duplicates(),
            new_blobs@.len() == new_ids@.len(),
            forall|k: int|
                0 <= k < new_ids@.len() ==> new_ids@[k]@ == blob_id(#[trigger] new_blobs@[k]@)
                    && views.contains(new_blobs@[k]@),
        decreases blobs.len() - i,
    {
        let ghost pre = views.take(i as int);
        let ghost old_existing = existing.deep_view();
        let ghost old_new_ids = new_ids.deep_view();
        let id = sha256_hex(blobs[i].path.as_str(), blobs[i].content.as_str());
        let ghost post = views.take(i as int + 1);
        assert(post == pre.push(views[i as int]));
        assert(views[i as int] == blobs@[i as int]@);
        assert forall|x: Seq<char>| has_id(post, x) <==> (has_id(pre, x) || x == id@) by {
            if has_id(post, x) {
                let j = choose|j: int| 0 <= j < post.len() && blob_id(post[j]) == x;
                if j < pre.len() {
                    assert(pre[j] == post[j]);
                }
            }
            if has_id(pre, x) {
                let j = choose|j: int| 0 <= j < pre.len() && blob_id(pre[j]) == x;
                assert(post[j] == pre[j]);
            }
            if x == id@ {
                assert(blob_id(post[i as int]) == x);
            }
        }
        if contains_string(known, &id) {
            if !contains_string(&existing, &id) {
                existing.push(id);
                assert(existing.deep_view() == old_existing.push(id@));
                assert forall|x: Seq<char>| existing.deep_view().contains(x) <==> (old_existing.contains(x) || x == id@) by {
                    if existing.deep_view().contains(x) {
                        let k = choose|k: int| 0 <= k < existing.deep_view().len() && existing.deep_view()[k] == x;
                        if k < old_existing.len() {
                            assert(old_existing[k] == x);
                        }
                    }
                    if old_existing.contains(x) {
                        let k = choose|k: int| 0 <= k < old_existing.len() && old_existing[k] == x;
                        assert(existing.deep_view()[k] == x);
                    }
                    if x == id@ {
                        assert(existing.deep_view()[old_existing.len() as int] == x);
                    }
                }
            }
        } else {
            if !contains_string(&new_ids, &id) {
                let blob = copy_blob(&blobs[i]);
                assert(views.contains(blob@)) by {
                    assert(views[i as int] == blob@);
                }
                new_ids.push(id);
                new_blobs.push(blob);
                assert(new_ids.deep_view() == old_new_ids.push(id@));
                assert forall|x: Seq<char>| new_ids.deep_view().contains(x) <==> (old_new_ids.contains(x) || x == id@) by {
                    if new_ids.deep_view().contains(x) {
                        let k = choose|k: int| 0 <= k < new_ids.deep_view().len() && new_ids.deep_view()[k] == x;
                        if k < old_new_ids.len() {
                            assert(old_new_ids[k] == x);
                        }
                    }
                    if old_new_ids.contains(x) {
                        let k = choose|k: int| 0 <= k < old_new_ids.len() && old_new_ids[k] == x;
                        assert(new_ids.deep_view()[k] == x);
                    }
                    if x == id@ {
                        assert(new_ids.deep_view()[old_new_ids.len() as int] == x);
                    }
                }
            }
        }
        assert forall|x: Seq<char>|
            existing.deep_view().contains(x) <==> (old_existing.contains(x) || (x == id@ && kn.contains(x)))
        by {
            if x == id@ && kn.contains(x) && !old_existing.contains(x) {
                assert(existing.deep_view().contains(x));
            }
        }
        assert forall|x: Seq<char>|
            new_ids.deep_view().contains(x) <==> (old_new_ids.contains(x) || (x == id@ && !kn.contains(x)))
        by {
            if x == id@ && !kn.contains(x) && !old_new_ids.contains(x) {
                assert(new_ids.deep_view().contains(x));
            }
        }
        assert forall|x: Seq<char>|
            existing.deep_view().contains(x) <==> (has_id(post, x) && kn.contains(x)) by {
            assert(old_existing.contains(x) <==> (has_id(pre, x) && kn.contains(x)));
            assert(has_id(post, x) <==> (has_id(pre, x) || x == id@));
        }
        assert forall|x: Seq<char>|
            new_ids.deep_view().contains(x) <==> (has_id(post, x) && !kn.contains(x)) by {
            assert(old_new_ids.contains(x) <==> (has_id(pre, x) && !kn.contains(x)));
            assert(has_id(post, x) <==> (has_id(pre, x) || x == id@));
        }
        i += 1;
    }
    assert(views.take(blobs@.len() as int) == views);
    assert(existing.deep_view().to_set() =~= kept_ids(views, kn));
    assert(new_ids.deep_view().to_set() =~= fresh_ids(views, kn));
    UploadPlan { existing, new_blobs, new_ids }
}

/// Start of batch `k` when `n` items are cut into batches of `size`.
pub open spec fn batch_start(n: nat, size: nat, k: nat) -> nat {
    if k * size > n {
        n
    } else {
        k * size
    }
}

/// End of batch `k`: the next batch's start, or the end of the items.
pub open spec fn batch_end(n: nat, size: nat, k: nat) -> nat {
    batch_start(n, size, k + 1)
}

pub open spec fn batch_count(n: nat, size: nat) -> nat {
    if n % size == 0 {
        n / size
    } else {
        n / size + 1
    }
}

/// The batches of one upload run, attempted one after another.
#[derive(Debug)]
pub struct UploadRun {
    pub batch_size: usize,
    /// Blobs to upload, and the identity of each at the same index.
    pub blobs: Vec<BlobItem>,
    pub ids: Vec<String>,
    /// Index of the next batch to attempt, from 0.
    pub next_batch: usize,
    /// Identities of the blobs of the batches that were confirmed, in order.
    pub confirmed: Vec<String>,
    /// Numbers, from 1, of the batches that failed.
    pub failed_batches: Vec<usize>,
}

impl UploadRun {
    pub open spec fn total(&self) -> nat {
        batch_count(self.blobs@.len(), self.batch_size as nat)
    }

    pub open spec fn wf(&self) -> bool {
        &&& self.batch_size > 0
        &&& self.blobs@.len() == self.ids@.len()
        &&& self.next_batch <= self.total()
        &&& forall|x: Seq<char>| #[trigger] self.confirmed.deep_view().contains(x) ==> self.ids.deep_view().contains(x)
    }

    /// The state after the batch `next_batch` was attempted: on success its
    /// identities are confirmed, on failure its number is recorded; either
    /// way the run moves on to the following batch.
    pub open spec fn stepped(pre: UploadRun, post: UploadRun, success: bool) -> bool {
        let n = pre.blobs@.len();
        let k = pre.next_batch as nat;
        &&& post.batch_size == pre.batch_size
        &&& post.blobs@ == pre.blobs@
        &&& post.ids@ == pre.ids@
        &&& post.next_batch == pre.next_batch + 1
        &&& if success {
            &&& post.confirmed.deep_view() == pre.confirmed.deep_view() + pre.ids.deep_view().subrange(
                batch_start(n, pre.batch_size as nat, k) as int,
                batch_end(n, pre.batch_size as nat, k) as int,
            )
            &&& post.failed_batches@ == pre.failed_batches@
        } else {
            &&& post.confirmed.deep_view() == pre.confirmed.deep_view()
            &&& post.failed_batches@ == pre.failed_batches@.push((k + 1) as usize)
        }
    }

    /// A run over the blobs that a plan marked new.
    pub fn new(plan: UploadPlan, batch_size: usize) -> (r: UploadRun)
        requires
            batch_size > 0,
            plan.new_blobs@.len() == plan.new_ids@.len(),
        ensures
            r.wf(),
            r.batch_size == batch_size,
            r.blobs@ == plan.new_blobs@,
            r.ids@ == plan.new_ids@,
            r.next_batch == 0,
            r.confirmed@.len() == 0,
            r.failed_batches@.len() == 0,
    {
        UploadRun {
            batch_size,
            blobs: plan.new_blobs,
            ids: plan.new_ids,
            next_batch: 0,
            confirmed: Vec::new(),
            failed_batches: Vec::new(),
        }
    }

    /// Number of batches in the run.
    pub fn total_batches(&self) -> (r: usize)
        requires
            self.wf(),
        ensures
            r == self.total(),
    {
        let n = self.blobs.len();
        if n % self.batch_size == 0 {
            n / self.batch_size
        } else {
            assert(n / self.batch_size < n) by (nonlinear_arith)
                requires n % self.batch_size != 0, self.batch_size > 0, n >= 0;
            n / self.batch_size + 1
        }
    }

    /// Whether a batch remains to be attempted.
    pub fn has_pending(&self) -> (r: bool)
        requires
            self.wf(),
        ensures
            r == (self.next_batch < self.total()),
    {
        self.next_batch < self.total_batches()
    }

    /// The blobs of the next batch, in order.
    pub fn current_batch(&self) -> (r: Vec<BlobItem>)
        requires
            self.wf(),
            self.next_batch < self.total(),
        ensures
            blob_views(r@) == blob_views(self.blobs@).subrange(
                batch_start(self.blobs@.len(), self.batch_size as nat, self.next_batch as nat) as int,
                batch_end(self.blobs@.len(), self.batch_size as nat, self.next_batch as nat) as int,
            ),
    {
        let (start, end) = self.bounds();
        let mut out: Vec<BlobItem> = Vec::new();
        let mut i: usize = start;
        while i < end
            invariant
                start <= i <= end <= self.blobs@.len(),
                blob_views(out@) == blob_views(self.blobs@).subrange(start as int, i as int),
            decreases end - i,
        {
            let b = copy_blob(&self.blobs[i]);
            let ghost prev = out@;
            out.push(b);
            assert(out@ == prev.push(b));
            assert(blob_views(out@) =~= blob_views(prev).push(b@));
            assert(blob_views(out@) =~= blob_views(self.blobs@).subrange(start as int, i + 1));
            i += 1;
        }
        out
    }

    fn bounds(&self) -> (r: (usize, usize))
        requires
            self.wf(),
            self.next_batch < self.total(),
        ensures
            r.0 == batch_start(self.blobs@.len(), self.batch_size as nat, self.next_batch as nat),
            r.1 == batch_end(self.blobs@.len(), self.batch_size as nat, self.next_batch as nat),
            r.0 <= r.1 <= self.blobs@.len(),
    {
        let n = self.blobs.len();
        let b = self.batch_size;
        let k = self.next_batch;
        let n = self.blobs.len();
        proof {
            lemma_batch_start_fits(n as nat, b as nat, k as nat);
        }
        let start = k * b;
        let end = if n - start <= b { n } else { start + b };
        assert((k + 1) * b == k * b + b) by (nonlinear_arith);
        (start, end)
    }

    /// Records the outcome of the next batch: it succeeded when the backend
    /// answered with a non-empty list of names.
    pub fn record(&mut self, names: Option<Vec<String>>)
        requires
            old(self).wf(),
            old(self).next_batch < old(self).total(),
        ensures
            final(self).wf(),
            UploadRun::stepped(
                *old(self),
                *final(self),
                names is Some && names->0@.len() > 0,
            ),
    {
        let success = match &names {
            Some(v) => v.len() > 0,
            None => false,
        };
        let k = self.next_batch;
        let n = self.blobs.len();
        proof {
            lemma_batch_start_fits(self.blobs@.len(), self.batch_size as nat, k as nat);
            assert(k <= k * self.batch_size) by (nonlinear_arith)
                requires self.batch_size >= 1;
            assert(k < n);
        }
        if success {
            let (start, end) = self.bounds();
            let mut i: usize = start;
            let ghost before = self.confirmed.deep_view();
            while i < end
                invariant
                    start <= i <= end <= self.ids@.len(),
                    self.ids@ == old(self).ids@,
                    self.blobs@ == old(self).blobs@,
                    self.batch_size == old(self).batch_size,
                    self.next_batch == k,
                    k == old(self).next_batch,
                    self.failed_batches@ == old(self).failed_batches@,
                    before == old(self).confirmed.deep_view(),
                    forall|x: Seq<char>| #[trigger] before.contains(x) ==> self.ids.deep_view().contains(x),
                    forall|x: Seq<char>|
                        #[trigger] self.confirmed.deep_view().contains(x) ==> self.ids.deep_view().contains(x),
                    self.confirmed.deep_view() == before + self.ids.deep_view().subrange(
                        start as int,
                        i as int,
                    ),
                decreases end - i,
            {
                let id = self.ids[i].clone();
                let ghost prev = self.confirmed@;
                let ghost prev_dv = self.confirmed.deep_view();
                self.confirmed.push(id);
                assert(self.confirmed@ == prev.push(id));
                assert(self.confirmed.deep_view() =~= prev_dv.push(id@));
                assert(self.ids.deep_view()[i as int] == id@);
                assert forall|x: Seq<char>| #[trigger] self.confirmed.deep_view().contains(x) implies self.ids.deep_view().contains(x) by {
                    if x != id@ {
                        let k = choose|k: int| 0 <= k < self.confirmed.deep_view().len() && self.confirmed.deep_view()[k] == x;
                        assert(prev_dv[k] == x);
                        assert(prev_dv.contains(x));
                    }
                }
                assert(self.ids.deep_view().subrange(start as int, i + 1) =~= self.ids.deep_view().subrange(
                    start as int,
                    i as int,
                ).push(id@));
                assert(self.confirmed.deep_view() =~= before + self.ids.deep_view().subrange(
                    start as int,
                    i + 1,
                ));
                i += 1;
            }
        } else {
            self.failed_batches.push(k + 1);
        }
        self.next_batch = k + 1;
    }
}

proof fn lemma_batch_start_fits(n: nat, b: nat, k: nat)
    requires
        b > 0,
        k < batch_count(n, b),
    ensures
        k * b < n,
{
    let q = n / b;
    let r = n % b;
    assert(n == b * q + r && 0 <= r < b) by {
        vstd::arithmetic::div_mod::lemma_fundamental_div_mod(n as int, b as int);
    }
    if r == 0 {
        assert(k * b < q * b) by (nonlinear_arith)
            requires k < q, b > 0;
    } else {
        assert(k * b <= q * b) by (nonlinear_arith)
            requires k <= q, b > 0;
    }
}

/// A failed batch does not end the run: after batch `k` fails, batch `k + 1`
/// is the next one attempted whenever it exists.
pub proof fn lemma_failure_isolated(pre: UploadRun, post: UploadRun)
    requires
        pre.wf(),
        UploadRun::stepped(pre, post, false),
        pre.next_batch + 1 < pre.total(),
    ensures
        post.wf(),
        post.next_batch == pre.next_batch + 1,
        post.next_batch < post.total(),
        post.confirmed.deep_view() == pre.confirmed.deep_view(),
{
}

/// Identities of current blobs that were already known.
pub open spec fn kept_ids(blobs: Seq<(Seq<char>, Seq<char>)>, known: Seq<Seq<char>>) -> Set<Seq<char>> {
    Set::new(|x: Seq<char>| has_id(blobs, x) && known.contains(x))
}

/// Identities of current blobs that still have to be uploaded.
pub open spec fn fresh_ids(blobs: Seq<(Seq<char>, Seq<char>)>, known: Seq<Seq<char>>) -> Set<Seq<char>> {
    Set::new(|x: Seq<char>| has_id(blobs, x) && !known.contains(x))
}

/// The identity list a run leaves behind: the known identities still
/// present, then those of the confirmed batches.
pub fn merged_identities(existing: &Vec<String>, confirmed: &Vec<String>) -> (r: Vec<String>)
    ensures
        r.deep_view() == existing.deep_view() + confirmed.deep_view(),
{
    let mut r: Vec<String> = Vec::new();
    let mut i: usize = 0;
    while i < existing.len()
        invariant
            i <= existing.len(),
            r.deep_view() == existing.deep_view().take(i as int),
        decreases existing.len() - i,
    {
        let ghost prev = r.deep_view();
        r.push(existing[i].clone());
        assert(r.deep_view() =~= prev.push(existing@[i as int]@));
        assert(existing.deep_view().take(i + 1) =~= existing.deep_view().take(i as int).push(existing@[i as int]@));
        i += 1;
    }
    assert(existing.deep_view().take(existing.len() as int) =~= existing.deep_view());
    let mut j: usize = 0;
    while j < confirmed.len()
        invariant
            j <= confirmed.len(),
            r.deep_view() == existing.deep_view() + confirmed.deep_view().take(j as int),
        decreases confirmed.len() - j,
    {
        let ghost prev = r.deep_view();
        r.push(confirmed[j].clone());
        assert(r.deep_view() =~= prev.push(confirmed@[j as int]@));
        assert(confirmed.deep_view().take(j + 1) =~= confirmed.deep_view().take(j as int).push(confirmed@[j as int]@));
        assert(existing.deep_view() + confirmed.deep_view().take(j + 1) =~= (existing.deep_view() + confirmed.deep_view().take(j as int)).push(confirmed@[j as int]@));
        j += 1;
    }
    assert(confirmed.deep_view().take(confirmed.len() as int) =~= confirmed.deep_view());
    r
}

/// What a run leaves behind: the kept identities and the confirmed ones.
/// The confirmed identities are new ones, so the result is the known
/// identities still present joined with those whose upload was confirmed.
pub proof fn lemma_persisted_set(
    blobs: Seq<(Seq<char>, Seq<char>)>,
    known: Seq<Seq<char>>,
    existing: Seq<Seq<char>>,
    new_ids: Seq<Seq<char>>,
    confirmed: Seq<Seq<char>>,
)
    requires
        existing.to_set() == kept_ids(blobs, known),
        new_ids.to_set() == fresh_ids(blobs, known),
        forall|x: Seq<char>| #[trigger] confirmed.contains(x) ==> new_ids.contains(x),
    ensures
        (existing + confirmed).to_set() == kept_ids(blobs, known).union(confirmed.to_set()),
        confirmed.to_set().subset_of(fresh_ids(blobs, known)),
        kept_ids(blobs, known).disjoint(fresh_ids(blobs, known)),
{
    assert forall|x: Seq<char>| (existing + confirmed).to_set().contains(x) <==> kept_ids(blobs, known).union(
        confirmed.to_set(),
    ).contains(x) by {
        if (existing + confirmed).contains(x) {
            let k = choose|k: int| 0 <= k < (existing + confirmed).len() && (existing + confirmed)[k] == x;
            if k < existing.len() {
                assert(existing[k] == x);
                assert(existing.to_set().contains(x));
            } else {
                assert(confirmed[k - existing.len()] == x);
                assert(confirmed.to_set().contains(x));
            }
        }
        if existing.to_set().contains(x) {
            let k = choose|k: int| 0 <= k < existing.len() && existing[k] == x;
            assert((existing + confirmed)[k] == x);
        }
        if confirmed.to_set().contains(x) {
            let k = choose|k: int| 0 <= k < confirmed.len() && confirmed[k] == x;
            assert((existing + confirmed)[existing.len() + k] == x);
        }
    }
    assert((existing + confirmed).to_set() =~= kept_ids(blobs, known).union(confirmed.to_set()));
    assert forall|x: Seq<char>| confirmed.to_set().contains(x) implies fresh_ids(blobs, known).contains(x) by {
        assert(new_ids.contains(x));
        assert(new_ids.to_set().contains(x));
    }
}

/// A first run over blobs with distinct identities: every identity is new,
/// none is kept, and when the batch size is at least the number of blobs a
/// single batch carries all of them.
pub proof fn lemma_first_run_single_batch(blobs: Seq<(Seq<char>, Seq<char>)>, size: nat)
    requires
        blobs.len() > 0,
        size >= blobs.len(),
        blobs.map_values(|b: (Seq<char>, Seq<char>)| blob_id(b)).no_duplicates(),
    ensures
        kept_ids(blobs, seq![]) == Set::<Seq<char>>::empty(),
        fresh_ids(blobs, seq![]) == blobs.map_values(|b: (Seq<char>, Seq<char>)| blob_id(b)).to_set(),
        fresh_ids(blobs, seq![]).len() == blobs.len(),
        batch_count(blobs.len(), size) == 1,
        batch_start(blobs.len(), size, 0) == 0,
        batch_end(blobs.len(), size, 0) == blobs.len(),
{
    let ids = blobs.map_values(|b: (Seq<char>, Seq<char>)| blob_id(b));
    let none: Seq<Seq<char>> = seq![];
    assert(kept_ids(blobs, none) =~= Set::<Seq<char>>::empty());
    assert forall|x: Seq<char>| fresh_ids(blobs, none).contains(x) <==> ids.to_set().contains(x) by {
        if has_id(blobs, x) {
            let j = choose|j: int| 0 <= j < blobs.len() && blob_id(blobs[j]) == x;
            assert(ids[j] == x);
        }
        if ids.contains(x) {
            let j = choose|j: int| 0 <= j < ids.len() && ids[j] == x;
            assert(blob_id(blobs[j]) == x);
        }
    }
    assert(fresh_ids(blobs, none) =~= ids.to_set());
    ids.unique_seq_to_set();
    let n = blobs.len();
    if n == size {
        vstd::arithmetic::div_mod::lemma_mod_self_0(n as int);
        vstd::arithmetic::div_mod::lemma_div_basics(n as int);
    } else {
        vstd::arithmetic::div_mod::lemma_small_mod(n, size);
        vstd::arithmetic::div_mod::lemma_basic_div(n as int, size as int);
    }
    assert(0 * size == 0);
    assert(1 * size == size);
}

/// Re-indexing an unchanged project: when the known identities are exactly
/// those of the current blobs, nothing is new (so no batch is sent) and the
/// kept identities are the known ones.
pub proof fn lemma_reindex_unchanged(blobs: Seq<(Seq<char>, Seq<char>)>, known: Seq<Seq<char>>)
    requires
        forall|x: Seq<char>| known.contains(x) <==> has_id(blobs, x),
    ensures
        fresh_ids(blobs, known) == Set::<Seq<char>>::empty(),
        kept_ids(blobs, known) == known.to_set(),
        forall|size: nat| size > 0 ==> batch_count(0, size) == 0,
{
    assert(fresh_ids(blobs, known) =~= Set::<Seq<char>>::empty());
    assert(kept_ids(blobs, known) =~= known.to_set());
    assert forall|size: nat| size > 0 implies batch_count(0, size) == 0 by {
        vstd::arithmetic::div_mod::lemma_basic_div(0, size as int);
    }
}

/// Re-indexing after files were removed: nothing is new, and an identity
/// that no current blob has is dropped from the kept set.
pub proof fn lemma_deleted_blob_dropped(
    before: Seq<(Seq<char>, Seq<char>)>,
    after: Seq<(Seq<char>, Seq<char>)>,
    known: Seq<Seq<char>>,
    gone: Seq<char>,
)
    requires
        forall|x: Seq<char>| known.contains(x) <==> has_id(before, x),
        forall|x: Seq<char>| has_id(after, x) ==> has_id(before, x),
        !has_id(after, gone),
    ensures
        fresh_ids(after, known) == Set::<Seq<char>>::empty(),
        !kept_ids(after, known).contains(gone),
        kept_ids(after, known) == Set::new(|x: Seq<char>| has_id(after, x)),
{
    assert(fresh_ids(after, known) =~= Set::<Seq<char>>::empty());
    assert(kept_ids(after, known) =~= Set::new(|x: Seq<char>| has_id(after, x)));
}

} // verus!
