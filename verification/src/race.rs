use vstd::prelude::*;

verus! {

broadcast use vstd::seq_lib::group_seq_properties;

/// Telemetry is flushed before every pass whose index is a multiple of this.
pub const REPORT_EVERY: usize = 1000;

/// `s` with the neighbours at `j` and `j + 1` exchanged.
pub open spec fn swap_adjacent(s: Seq<i32>, j: int) -> Seq<i32> {
    s.update(j, s[j + 1]).update(j + 1, s[j])
}

/// One compare-and-exchange of bubble sort at position `j`.
pub open spec fn bubble_step(s: Seq<i32>, j: int) -> Seq<i32> {
    if s[j] > s[j + 1] {
        swap_adjacent(s, j)
    } else {
        s
    }
}

/// `s` after the compare-and-exchange steps at positions `0 .. j`.
pub open spec fn bubble_upto(s: Seq<i32>, j: nat) -> Seq<i32>
    decreases j,
{
    if j == 0 {
        s
    } else {
        bubble_step(bubble_upto(s, (j - 1) as nat), j - 1)
    }
}

/// Number of exchanges among the steps at positions `0 .. j`.
pub open spec fn swaps_upto(s: Seq<i32>, j: nat) -> nat
    decreases j,
{
    if j == 0 {
        0
    } else {
        let t = bubble_upto(s, (j - 1) as nat);
        swaps_upto(s, (j - 1) as nat) + if t[j - 1] > t[j as int] { 1nat } else { 0nat }
    }
}

/// Comparisons made by the first `p` passes over `n` elements: pass `i`
/// compares `n - 1 - i` neighbouring pairs.
pub open spec fn comparisons_through(n: nat, p: nat) -> nat
    decreases p,
{
    if p == 0 {
        0
    } else {
        comparisons_through(n, (p - 1) as nat) + (n - p) as nat
    }
}

/// Number of elements of `t` strictly below `x`.
pub open spec fn count_below(x: i32, t: Seq<i32>) -> nat
    decreases t.len(),
{
    if t.len() == 0 {
        0
    } else {
        (if t[0] < x { 1nat } else { 0nat }) + count_below(x, t.drop_first())
    }
}

/// Number of pairs `i < j` with `s[i] > s[j]`.
pub open spec fn inversions(s: Seq<i32>) -> nat
    decreases s.len(),
{
    if s.len() == 0 {
        0
    } else {
        count_below(s[0], s.drop_first()) + inversions(s.drop_first())
    }
}

pub open spec fn is_sorted(s: Seq<i32>) -> bool {
    forall|i: int, j: int| 0 <= i <= j < s.len() ==> s[i] <= s[j]
}

/// From position `b` on, `s` is sorted, and nothing before `b` exceeds
/// anything from `b` on.
pub open spec fn settled_from(s: Seq<i32>, b: int) -> bool {
    &&& forall|i: int, k: int| b <= i <= k < s.len() ==> s[i] <= s[k]
    &&& forall|i: int, k: int| 0 <= i < b && b <= k < s.len() ==> s[i] <= s[k]
}

proof fn lemma_count_below_swap(x: i32, t: Seq<i32>, j: int)
    requires
        0 <= j < t.len() - 1,
    ensures
        count_below(x, swap_adjacent(t, j)) == count_below(x, t),
    decreases j,
{
    let u = swap_adjacent(t, j);
    if j == 0 {
        let r = t.drop_first().drop_first();
        assert(u.drop_first().drop_first() =~= r);
        assert(u.drop_first()[0] == t[0]);
        assert(t.drop_first()[0] == t[1]);
        reveal_with_fuel(count_below, 3);
    } else {
        lemma_count_below_swap(x, t.drop_first(), j - 1);
        assert(u.drop_first() =~= swap_adjacent(t.drop_first(), j - 1));
    }
}

/// Exchanging a neighbouring pair that is out of order removes exactly one
/// inversion.
pub proof fn lemma_inversions_swap(s: Seq<i32>, j: int)
    requires
        0 <= j < s.len() - 1,
        s[j] > s[j + 1],
    ensures
        inversions(swap_adjacent(s, j)) + 1 == inversions(s),
    decreases j,
{
    let u = swap_adjacent(s, j);
    if j == 0 {
        let a = s[0];
        let b = s[1];
        let r = s.drop_first().drop_first();
        assert(s.drop_first()[0] == b);
        assert(u.drop_first()[0] == a);
        assert(u.drop_first().drop_first() =~= r);
        assert(count_below(a, s.drop_first()) == 1 + count_below(a, r));
        assert(count_below(b, u.drop_first()) == count_below(b, r));
        assert(inversions(s.drop_first()) == count_below(b, r) + inversions(r));
        assert(inversions(u.drop_first()) == count_below(a, r) + inversions(r));
    } else {
        lemma_inversions_swap(s.drop_first(), j - 1);
        assert(u.drop_first() =~= swap_adjacent(s.drop_first(), j - 1));
        lemma_count_below_swap(s[0], s.drop_first(), j - 1);
    }
}

proof fn lemma_swap_multiset(s: Seq<i32>, j: int)
    requires
        0 <= j < s.len() - 1,
    ensures
        swap_adjacent(s, j).to_multiset() =~= s.to_multiset(),
{
    let t = s.update(j, s[j + 1]);
    assert(t[j + 1] == s[j + 1]);
    assert(t.to_multiset() == s.to_multiset().insert(s[j + 1]).remove(s[j]));
    assert(t.update(j + 1, s[j]).to_multiset() == t.to_multiset().insert(s[j]).remove(s[j + 1]));
}

proof fn lemma_comparisons_closed_form(n: nat, p: nat)
    requires
        p <= n,
    ensures
        2 * comparisons_through(n, p) == p * (2 * n - p - 1),
    decreases p,
{
    if p > 0 {
        lemma_comparisons_closed_form(n, (p - 1) as nat);
        assert(2 * comparisons_through(n, p) == (p - 1) * (2 * n - (p - 1) - 1) + 2 * (n - p));
        assert((p - 1) * (2 * n - (p - 1) - 1) + 2 * (n - p) == p * (2 * n - p - 1))
            by (nonlinear_arith)
            requires
                p >= 1,
                p <= n,
        ;
    } else {
        assert(p * (2 * n - p - 1) == 0) by (nonlinear_arith)
            requires
                p == 0,
        ;
    }
}

proof fn lemma_comparisons_monotonic(n: nat, p: nat, q: nat)
    requires
        p <= q <= n,
    ensures
        comparisons_through(n, p) <= comparisons_through(n, q),
    decreases q,
{
    if p < q {
        lemma_comparisons_monotonic(n, p, (q - 1) as nat);
    }
}

/// Every pass of a sort over `n` elements makes `n * (n - 1) / 2`
/// comparisons in all.
pub proof fn lemma_all_comparisons(n: nat)
    ensures
        comparisons_through(n, n) == n * (n - 1) / 2,
{
    lemma_comparisons_closed_form(n, n);
    if n > 0 {
        assert(n * (2 * n - n - 1) == n * (n - 1)) by (nonlinear_arith);
    }
}

/// What the driver of the race is asked to do next.
#[derive(Debug, Clone, Copy, PartialEq, Eq, Structural)]
pub enum RaceStep {
    /// Publish the counters before pass `pass` of `len` runs.
    Report { pass: usize, len: usize, swaps: u64, comparisons: u64 },
    /// One pass over the unsorted prefix was made.
    Passed,
    /// The data are sorted; publish the final counters.
    Finished { swaps: u64, comparisons: u64 },
}

/// A bubble sort that can be advanced one pass at a time, counting the
/// comparisons it makes and the exchanges it performs.
pub struct SortRace {
    pub data: Vec<i32>,
    pub pass: usize,
    pub swaps: u64,
    pub comparisons: u64,
    pub reported: bool,
    pub input: Ghost<Seq<i32>>,
}

impl SortRace {
    pub open spec fn wf(&self) -> bool {
        let n = self.data.len();
        &&& self.input@.len() == n
        &&& self.pass <= n
        &&& n * (n - 1) / 2 <= u64::MAX
        &&& self.data@.to_multiset() == self.input@.to_multiset()
        &&& settled_from(self.data@, n - self.pass)
        &&& self.swaps + inversions(self.data@) == inversions(self.input@)
        &&& self.comparisons == comparisons_through(n as nat, self.pass as nat)
        &&& self.swaps <= self.comparisons
    }

    /// A race over `data`, before its first pass.
    pub fn new(data: Vec<i32>) -> (r: SortRace)
        requires
            data.len() * (data.len() - 1) / 2 <= u64::MAX,
        ensures
            r.wf(),
            r.data@ == data@,
            r.input@ == data@,
            r.pass == 0,
            r.swaps == 0,
            r.comparisons == 0,
            !r.reported,
    {
        let ghost input = data@;
        SortRace { data, pass: 0, swaps: 0, comparisons: 0, reported: false, input: Ghost(input) }
    }

    /// One pass: compare-and-exchange every neighbouring pair of the
    /// unsorted prefix.
    fn run_pass(&mut self)
        requires
            old(self).wf(),
            old(self).pass < old(self).data.len(),
        ensures
            final(self).wf(),
            final(self).input == old(self).input,
            final(self).reported == old(self).reported,
            final(self).pass == old(self).pass + 1,
            final(self).data@ == bubble_upto(
                old(self).data@,
                (old(self).data.len() - old(self).pass - 1) as nat,
            ),
            final(self).swaps == old(self).swaps + swaps_upto(
                old(self).data@,
                (old(self).data.len() - old(self).pass - 1) as nat,
            ),
    {
        let n = self.data.len();
        let p = self.pass;
        let b = n - p;
        let m = b - 1;
        let ghost start = self.data@;
        let ghost swaps0 = self.swaps;
        let ghost comps0 = self.comparisons;
        proof {
            lemma_comparisons_monotonic(n as nat, (p + 1) as nat, n as nat);
            lemma_all_comparisons(n as nat);
        }
        let mut j: usize = 0;
        while j < m
            invariant
                self.data.len() == n,
                n == start.len(),
                b == n - p,
                m == b - 1,
                p < n,
                j <= m,
                self.pass == p,
                self.input == old(self).input,
                self.reported == old(self).reported,
                self.input@.len() == n,
                start == old(self).data@,
                swaps0 == old(self).swaps,
                comps0 == comparisons_through(n as nat, p as nat),
                comps0 + m == comparisons_through(n as nat, (p + 1) as nat),
                comparisons_through(n as nat, (p + 1) as nat) <= u64::MAX,
                n * (n - 1) / 2 <= u64::MAX,
                self.data@ == bubble_upto(start, j as nat),
                self.swaps == swaps0 + swaps_upto(start, j as nat),
                self.comparisons == comps0 + j,
                self.swaps <= self.comparisons,
                self.data@.to_multiset() == self.input@.to_multiset(),
                self.swaps + inversions(self.data@) == inversions(self.input@),
                forall|i: int| 0 <= i < j ==> self.data[i] <= self.data[j as int],
                forall|i: int, k: int| b <= i <= k < n ==> self.data[i] <= self.data[k],
                forall|i: int, k: int| 0 <= i < b && b <= k < n ==> self.data[i] <= self.data[k],
            decreases m - j,
        {
            let ghost before = self.data@;
            self.comparisons = self.comparisons + 1;
            if self.data[j] > self.data[j + 1] {
                let x = self.data[j];
                let y = self.data[j + 1];
                self.data.set(j, y);
                self.data.set(j + 1, x);
                proof {
                    lemma_inversions_swap(before, j as int);
                    lemma_swap_multiset(before, j as int);
                    assert(self.data@ =~= swap_adjacent(before, j as int));
                }
                self.swaps = self.swaps + 1;
            }
            j = j + 1;
        }
        self.pass = p + 1;
        proof {
            assert(settled_from(self.data@, n - (p + 1)));
        }
    }

    /// Decides and performs the next move of the race. Before each pass
    /// whose index is a multiple of `REPORT_EVERY` the counters are first
    /// handed out for publication; then the pass is run; once every pass
    /// ran, the race is finished.
    pub fn advance(&mut self) -> (step: RaceStep)
        requires
            old(self).wf(),
        ensures
            final(self).wf(),
            final(self).input == old(self).input,
            ({
                let o = *old(self);
                let f = *final(self);
                let n = o.data.len();
                if o.pass < n && o.pass % REPORT_EVERY == 0 && !o.reported {
                    &&& step == RaceStep::Report {
                        pass: o.pass,
                        len: n,
                        swaps: o.swaps,
                        comparisons: o.comparisons,
                    }
                    &&& f.data@ == o.data@
                    &&& f.pass == o.pass
                    &&& f.swaps == o.swaps
                    &&& f.comparisons == o.comparisons
                    &&& f.reported
                } else if o.pass < n {
                    &&& step == RaceStep::Passed
                    &&& f.data@ == bubble_upto(o.data@, (n - o.pass - 1) as nat)
                    &&& f.pass == o.pass + 1
                    &&& f.swaps == o.swaps + swaps_upto(o.data@, (n - o.pass - 1) as nat)
                    &&& f.comparisons == o.comparisons + (n - o.pass - 1)
                    &&& !f.reported
                } else {
                    &&& step == RaceStep::Finished { swaps: o.swaps, comparisons: o.comparisons }
                    &&& f == o
                    &&& is_sorted(f.data@)
                    &&& f.data@.to_multiset() == f.input@.to_multiset()
                    &&& f.swaps == inversions(f.input@)
                    &&& f.comparisons == n * (n - 1) / 2
                }
            }),
    {
        let n = self.data.len();
        if self.pass < n && self.pass % REPORT_EVERY == 0 && !self.reported {
            self.reported = true;
            RaceStep::Report {
                pass: self.pass,
                len: n,
                swaps: self.swaps,
                comparisons: self.comparisons,
            }
        } else if self.pass < n {
            self.run_pass();
            self.reported = false;
            RaceStep::Passed
        } else {
            proof {
                lemma_finished_race(self);
            }
            RaceStep::Finished { swaps: self.swaps, comparisons: self.comparisons }
        }
    }
}

/// A race that has made all its passes has sorted its data, kept the same
/// elements, exchanged exactly as often as the input had inversions, and
/// compared `n * (n - 1) / 2` times.
pub proof fn lemma_finished_race(race: &SortRace)
    requires
        race.wf(),
        race.pass == race.data.len(),
    ensures
        is_sorted(race.data@),
        race.data@.to_multiset() == race.input@.to_multiset(),
        race.swaps == inversions(race.input@),
        race.comparisons == race.data.len() * (race.data.len() - 1) / 2,
{
    lemma_all_comparisons(race.data.len() as nat);
    lemma_inversions_of_sorted(race.data@);
}

/// The empty sequence has no inversion, and putting `x` in front of `t` adds
/// one inversion per element of `t` below `x`.
pub proof fn lemma_inversions_front(x: i32, t: Seq<i32>)
    ensures
        inversions(Seq::<i32>::empty()) == 0,
        inversions(seq![x] + t) == count_below(x, t) + inversions(t),
        count_below(x, Seq::<i32>::empty()) == 0,
        count_below(x, seq![x] + t) == count_below(x, t),
{
    let s = seq![x] + t;
    assert(s.drop_first() =~= t);
    assert(s[0] == x);
}

/// A sorted sequence has no inversions.
pub proof fn lemma_inversions_of_sorted(s: Seq<i32>)
    requires
        is_sorted(s),
    ensures
        inversions(s) == 0,
    decreases s.len(),
{
    if s.len() > 0 {
        let t = s.drop_first();
        lemma_count_below_none(s[0], t);
        lemma_inversions_of_sorted(t);
    }
}

proof fn lemma_count_below_all(x: i32, t: Seq<i32>)
    requires
        forall|k: int| 0 <= k < t.len() ==> t[k] < x,
    ensures
        count_below(x, t) == t.len(),
    decreases t.len(),
{
    if t.len() > 0 {
        lemma_count_below_all(x, t.drop_first());
    }
}

pub open spec fn strictly_decreasing(s: Seq<i32>) -> bool {
    forall|i: int, j: int| 0 <= i < j < s.len() ==> s[i] > s[j]
}

/// In a strictly decreasing sequence every pair is an inversion.
pub proof fn lemma_inversions_of_decreasing(s: Seq<i32>)
    requires
        strictly_decreasing(s),
    ensures
        inversions(s) == s.len() * (s.len() - 1) / 2,
    decreases s.len(),
{
    if s.len() > 0 {
        let t = s.drop_first();
        lemma_count_below_all(s[0], t);
        lemma_inversions_of_decreasing(t);
        let n = s.len() as int;
        assert((n - 1) + (n - 1) * (n - 2) / 2 == n * (n - 1) / 2) by (nonlinear_arith)
            requires
                n >= 1,
        ;
    }
}

/// A race over strictly decreasing data, once finished, exchanged at every
/// comparison it made.
pub proof fn lemma_descending_race_swaps_every_comparison(race: &SortRace)
    requires
        race.wf(),
        race.pass == race.data.len(),
        strictly_decreasing(race.input@),
    ensures
        race.swaps == race.comparisons,
{
    lemma_finished_race(race);
    lemma_inversions_of_decreasing(race.input@);
}

/// The data of the race: `n - 1, n - 2, ..., 0` (nothing when `n <= 0`).
pub fn race_input(n: i32) -> (v: Vec<i32>)
    ensures
        v.len() == (if n > 0 { n as int } else { 0 }),
        forall|k: int| 0 <= k < v.len() ==> v[k] == n - 1 - k,
        strictly_decreasing(v@),
{
    let mut v: Vec<i32> = Vec::new();
    if n <= 0 {
        return v;
    }
    let mut k: i32 = 0;
    while k < n
        invariant
            0 <= k <= n,
            v.len() == k,
            forall|i: int| 0 <= i < v.len() ==> v[i] == n - 1 - i,
        decreases n - k,
    {
        v.push(n - 1 - k);
        k = k + 1;
    }
    v
}

proof fn lemma_count_below_none(x: i32, t: Seq<i32>)
    requires
        forall|k: int| 0 <= k < t.len() ==> x <= t[k],
    ensures
        count_below(x, t) == 0,
    decreases t.len(),
{
    if t.len() > 0 {
        lemma_count_below_none(x, t.drop_first());
    }
}


/// Counters of one engine as the status endpoint reports them.
#[derive(Debug, Clone, Copy, PartialEq, Eq, Structural)]
pub struct EngineProgress {
    pub progress: i32,
    pub swaps: u64,
    pub comparisons: u64,
    pub elapsed_ms: u64,
}

impl EngineProgress {
    /// The stored counters of an engine, each one that could not be read
    /// taken as zero.
    pub fn from_readings(
        progress: Option<i32>,
        swaps: Option<u64>,
        comparisons: Option<u64>,
        elapsed_ms: Option<u64>,
    ) -> (r: EngineProgress)
        ensures
            r.progress == (match progress { Some(v) => v, None => 0 }),
            r.swaps == (match swaps { Some(v) => v, None => 0 }),
            r.comparisons == (match comparisons { Some(v) => v, None => 0 }),
            r.elapsed_ms == (match elapsed_ms { Some(v) => v, None => 0 }),
    {
        EngineProgress {
            progress: match progress { Some(v) => v, None => 0 },
            swaps: match swaps { Some(v) => v, None => 0 },
            comparisons: match comparisons { Some(v) => v, None => 0 },
            elapsed_ms: match elapsed_ms { Some(v) => v, None => 0 },
        }
    }
}

/// What the status endpoint reports of a race.
#[derive(Debug)]
pub struct RaceStatus {
    pub rust: EngineProgress,
    pub django: EngineProgress,
    pub winner: String,
    pub start_ms: u64,
}

impl RaceStatus {
    /// The status from the stored values: an unreadable winner is `"none"`,
    /// an unreadable start time zero.
    pub fn from_readings(
        rust: EngineProgress,
        django: EngineProgress,
        winner: Option<String>,
        start_ms: Option<u64>,
    ) -> (r: RaceStatus)
        ensures
            r.rust == rust,
            r.django == django,
            r.winner@ == (match winner { Some(w) => w@, None => "none"@ }),
            r.start_ms == (match start_ms { Some(v) => v, None => 0 }),
    {
        RaceStatus {
            rust,
            django,
            winner: match winner { Some(w) => w, None => String::from_str("none") },
            start_ms: match start_ms { Some(v) => v, None => 0 },
        }
    }
}

} // verus!
