//! Timing of commands: how long each run of a command took, kept by the
//! command's name. Times are counted in nanoseconds.
use vstd::prelude::*;

use crate::table::NameMap;

verus! {

/// A time and the tag it was recorded with.
pub open spec fn result_view(r: PerformanceResult) -> (u128, Seq<char>) {
    (r.time, r.tag@)
}

/// The times and tags of a sequence of results.
pub open spec fn results_view(v: Seq<PerformanceResult>) -> Seq<(u128, Seq<char>)> {
    v.map_values(|r: PerformanceResult| result_view(r))
}

/// The sum of the times of `rs`.
pub open spec fn total_nanos(rs: Seq<(u128, Seq<char>)>) -> int
    decreases rs.len(),
{
    if rs.len() == 0 {
        0
    } else {
        total_nanos(rs.drop_last()) + rs.last().0
    }
}

/// The mean of the times of `rs`, rounded down, as 64 bits.
pub open spec fn average_nanos(rs: Seq<(u128, Seq<char>)>) -> u64 {
    (total_nanos(rs) / (rs.len() as int)) as u64
}

/// Whether `name` is one of `names`.
pub open spec fn listed(names: Seq<Seq<char>>, name: Seq<char>) -> bool {
    names.contains(name)
}

/// For each command of `order` that `wanted` lists: its name, how many
/// times were recorded and their mean.
pub open spec fn summary_lines(
    order: Seq<Seq<char>>,
    times: Map<Seq<char>, Seq<(u128, Seq<char>)>>,
    wanted: Seq<Seq<char>>,
) -> Seq<(Seq<char>, nat, u64)>
    decreases order.len(),
{
    if order.len() == 0 {
        Seq::empty()
    } else {
        let rest = summary_lines(order.drop_last(), times, wanted);
        let c = order.last();
        if listed(wanted, c) {
            rest.push((c, times[c].len(), average_nanos(times[c])))
        } else {
            rest
        }
    }
}

/// For each command of `order` that `wanted` lists: its name and its
/// recorded times and tags.
pub open spec fn report_lines(
    order: Seq<Seq<char>>,
    times: Map<Seq<char>, Seq<(u128, Seq<char>)>>,
    wanted: Seq<Seq<char>>,
) -> Seq<(Seq<char>, Seq<(u128, Seq<char>)>)>
    decreases order.len(),
{
    if order.len() == 0 {
        Seq::empty()
    } else {
        let rest = report_lines(order.drop_last(), times, wanted);
        let c = order.last();
        if listed(wanted, c) {
            rest.push((c, times[c]))
        } else {
            rest
        }
    }
}

/// The values of summary lines.
pub open spec fn summary_view(v: Seq<(String, usize, u64)>) -> Seq<(Seq<char>, nat, u64)> {
    v.map_values(|l: (String, usize, u64)| (l.0@, l.1 as nat, l.2))
}

/// The values of report lines.
pub open spec fn report_view(v: Seq<(String, Vec<PerformanceResult>)>) -> Seq<
    (Seq<char>, Seq<(u128, Seq<char>)>),
> {
    v.map_values(|l: (String, Vec<PerformanceResult>)| (l.0@, results_view(l.1@)))
}

/// Whether `name` is one of `names`.
pub(crate) fn contains_name(names: &Vec<String>, name: &String) -> (b: bool)
    ensures
        b == listed(names@.map_values(|s: String| s@), name@),
{
    let ghost view = names@.map_values(|s: String| s@);
    let mut i: usize = 0;
    while i < names.len()
        invariant
            i <= names@.len(),
            view == names@.map_values(|s: String| s@),
            forall|j: int| 0 <= j < i ==> view[j] != name@,
        decreases names@.len() - i,
    {
        if names[i] == *name {
            assert(view[i as int] == name@);
            return true;
        }
        i = i + 1;
    }
    proof {
        if view.contains(name@) {
            let j = choose|j: int| 0 <= j < view.len() && view[j] == name@;
            assert(false);
        }
    }
    false
}

/// The times recorded, by command.
pub struct PerformanceTracker {
    pub execution_times: NameMap<Vec<PerformanceResult>>,
}

impl PerformanceTracker {
    /// The times recorded, by command, oldest first.
    pub open spec fn times(self) -> Map<Seq<char>, Seq<(u128, Seq<char>)>> {
        self.execution_times.map().map_values(|v: Vec<PerformanceResult>| results_view(v@))
    }

    /// The commands recorded, each once.
    pub open spec fn order(self) -> Seq<Seq<char>> {
        self.execution_times.names()
    }

    /// The table is well formed and every command recorded has a time.
    pub open spec fn wf(self) -> bool {
        &&& self.execution_times.wf()
        &&& forall|c: Seq<char>| #[trigger]
            self.execution_times.map().contains_key(c) ==> self.execution_times.map()[c]@.len()
                > 0
    }

    /// No times recorded.
    pub fn new() -> (t: Self)
        ensures
            t.wf(),
            t.times() == Map::<Seq<char>, Seq<(u128, Seq<char>)>>::empty(),
    {
        let t = PerformanceTracker { execution_times: NameMap::new() };
        assert(t.times() =~= Map::<Seq<char>, Seq<(u128, Seq<char>)>>::empty());
        t
    }

    /// Records that a run of `command` took `time` nanoseconds, with `tag`.
    pub fn record(&mut self, command: &str, time: u128, tag: String)
        requires
            old(self).wf(),
        ensures
            final(self).wf(),
            final(self).times() == old(self).times().insert(
                command@,
                if old(self).times().contains_key(command@) {
                    old(self).times()[command@]
                } else {
                    Seq::empty()
                }.push((time, tag@)),
            ),
    {
        let perf = PerformanceResult::new(time, tag);
        let ghost p = result_view(perf);
        let mut results = match self.execution_times.remove(command) {
            Some(v) => v,
            None => Vec::new(),
        };
        let ghost before = results@;
        results.push(perf);
        self.execution_times.insert(String::from_str(command), results);
        proof {
            let o = old(self).times();
            let expected = if o.contains_key(command@) {
                o[command@]
            } else {
                Seq::empty()
            }.push(p);
            assert(results_view(before.push(perf)) =~= results_view(before).push(p));
            assert(!o.contains_key(command@) ==> results_view(before) =~= Seq::<
                (u128, Seq<char>),
            >::empty());
            assert(self.times() =~= o.insert(command@, expected));
        }
    }

    /// The mean time of `command`, in nanoseconds, rounded down and cut
    /// to 64 bits.
    pub fn average(&self, command: &str) -> (n: u64)
        requires
            self.wf(),
            self.times().contains_key(command@),
            total_nanos(self.times()[command@]) <= u128::MAX,
        ensures
            n == average_nanos(self.times()[command@]),
    {
        let results = self.execution_times.get(command).unwrap();
        average_of(results)
    }

    /// For each command recorded that `wanted` lists, its name, how many
    /// times were recorded and their mean.
    pub fn summary(&self, wanted: &Vec<String>) -> (r: Vec<(String, usize, u64)>)
        requires
            self.wf(),
            forall|c: Seq<char>| #[trigger]
                self.times().contains_key(c) ==> total_nanos(self.times()[c]) <= u128::MAX,
        ensures
            summary_view(r@) == summary_lines(
                self.order(),
                self.times(),
                wanted@.map_values(|s: String| s@),
            ),
    {
        let ghost inc = wanted@.map_values(|s: String| s@);
        let mut r: Vec<(String, usize, u64)> = Vec::new();
        let n = self.execution_times.len();
        let mut i: usize = 0;
        while i < n
            invariant
                self.wf(),
                n == self.order().len(),
                i <= n,
                inc == wanted@.map_values(|s: String| s@),
                forall|c: Seq<char>| #[trigger]
                    self.times().contains_key(c) ==> total_nanos(self.times()[c]) <= u128::MAX,
                summary_view(r@) == summary_lines(self.order().take(i as int), self.times(), inc),
            decreases n - i,
        {
            let (name, results) = self.execution_times.entry(i);
            let ghost c = self.order()[i as int];
            assert(self.order().take(i + 1).drop_last() =~= self.order().take(i as int));
            assert(self.times().contains_key(c));
            assert(self.times()[c] == results_view(results@));
            if contains_name(wanted, name) {
                let avg = average_of(results);
                let ghost before = r@;
                r.push((name.clone(), results.len(), avg));
                assert(summary_view(r@) =~= summary_view(before).push(
                    (c, self.times()[c].len(), average_nanos(self.times()[c])),
                ));
            }
            i = i + 1;
        }
        assert(self.order().take(n as int) =~= self.order());
        r
    }

    /// For each command recorded that `wanted` lists, its name and its
    /// recorded times and tags.
    pub fn report(&self, wanted: &Vec<String>) -> (r: Vec<(String, Vec<PerformanceResult>)>)
        requires
            self.wf(),
        ensures
            report_view(r@) == report_lines(
                self.order(),
                self.times(),
                wanted@.map_values(|s: String| s@),
            ),
    {
        let ghost inc = wanted@.map_values(|s: String| s@);
        let mut r: Vec<(String, Vec<PerformanceResult>)> = Vec::new();
        let n = self.execution_times.len();
        let mut i: usize = 0;
        while i < n
            invariant
                self.wf(),
                n == self.order().len(),
                i <= n,
                inc == wanted@.map_values(|s: String| s@),
                report_view(r@) == report_lines(self.order().take(i as int), self.times(), inc),
            decreases n - i,
        {
            let (name, results) = self.execution_times.entry(i);
            let ghost c = self.order()[i as int];
            assert(self.order().take(i + 1).drop_last() =~= self.order().take(i as int));
            if contains_name(wanted, name) {
                let copy = copy_results(results);
                let ghost before = r@;
                r.push((name.clone(), copy));
                assert(report_view(r@) =~= report_view(before).push((c, self.times()[c])));
            }
            i = i + 1;
        }
        assert(self.order().take(n as int) =~= self.order());
        r
    }

    /// Forgets every time recorded.
    pub fn clear(&mut self)
        ensures
            final(self).wf(),
            final(self).times() == Map::<Seq<char>, Seq<(u128, Seq<char>)>>::empty(),
    {
        self.execution_times.clear();
        assert(self.times() =~= Map::<Seq<char>, Seq<(u128, Seq<char>)>>::empty());
    }
}

/// The mean of the times of `results`, rounded down and cut to 64 bits.
pub(crate) fn average_of(results: &Vec<PerformanceResult>) -> (n: u64)
    requires
        results@.len() > 0,
        total_nanos(results_view(results@)) <= u128::MAX,
    ensures
        n == average_nanos(results_view(results@)),
{
    let ghost rs = results_view(results@);
    let mut sum: u128 = 0;
    let mut i: usize = 0;
    proof {
        lemma_total_prefix_bounded(rs, rs.len() as int);
    }
    while i < results.len()
        invariant
            i <= results@.len(),
            rs == results_view(results@),
            sum == total_nanos(rs.take(i as int)),
            total_nanos(rs) <= u128::MAX,
        decreases results@.len() - i,
    {
        assert(rs.take(i + 1).drop_last() =~= rs.take(i as int));
        proof {
            lemma_total_prefix_bounded(rs, i + 1);
        }
        sum = sum + results[i].time;
        i = i + 1;
    }
    assert(rs.take(i as int) =~= rs);
    let len = results.len() as u128;
    (sum / len) as u64
}

/// A copy of `results`.
pub(crate) fn copy_results(results: &Vec<PerformanceResult>) -> (r: Vec<PerformanceResult>)
    ensures
        results_view(r@) == results_view(results@),
{
    let mut r: Vec<PerformanceResult> = Vec::new();
    let mut i: usize = 0;
    while i < results.len()
        invariant
            i <= results@.len(),
            results_view(r@) == results_view(results@).take(i as int),
        decreases results@.len() - i,
    {
        let ghost before = r@;
        let item = PerformanceResult::new(results[i].time, results[i].tag.clone());
        assert(result_view(item) == result_view(results@[i as int]));
        r.push(item);
        assert(r@ == before.push(item));
        assert(results_view(r@) =~= results_view(before).push(result_view(item)));
        assert(results_view(r@) =~= results_view(results@).take(i + 1));
        i = i + 1;
    }
    assert(results_view(results@).take(i as int) =~= results_view(results@));
    r
}

/// The times of a prefix add up to no more than those of the whole.
pub(crate) proof fn lemma_total_prefix_bounded(rs: Seq<(u128, Seq<char>)>, k: int)
    requires
        0 <= k <= rs.len(),
    ensures
        0 <= total_nanos(rs.take(k)) <= total_nanos(rs),
    decreases rs.len(),
{
    if rs.len() > 0 {
        if k == rs.len() {
            assert(rs.take(k) =~= rs);
            lemma_total_nonnegative(rs);
        } else {
            lemma_total_prefix_bounded(rs.drop_last(), k);
            assert(rs.drop_last().take(k) =~= rs.take(k));
        }
    } else {
        assert(rs.take(k) =~= rs);
    }
}

/// A sum of times is never negative.
proof fn lemma_total_nonnegative(rs: Seq<(u128, Seq<char>)>)
    ensures
        total_nanos(rs) >= 0,
    decreases rs.len(),
{
    if rs.len() > 0 {
        lemma_total_nonnegative(rs.drop_last());
    }
}

/// A time, in nanoseconds, and the tag it was recorded with.
pub struct PerformanceResult {
    pub time: u128,
    pub tag: String,
}

impl PerformanceResult {
    /// The result `time` with `tag`.
    pub fn new(time: u128, tag: String) -> (r: Self)
        ensures
            r.time == time,
            r.tag@ == tag@,
    {
        PerformanceResult { time, tag }
    }
}

/// The mean of a single recorded time is that time, when it fits in 64
/// bits.
pub proof fn law_average_of_one(time: u128, tag: Seq<char>)
    requires
        time <= u64::MAX,
    ensures
        average_nanos(seq![(time, tag)]) == time,
{
    let rs = seq![(time, tag)];
    assert(rs.drop_last() =~= Seq::<(u128, Seq<char>)>::empty());
    assert(total_nanos(rs.drop_last()) == 0);
    assert(total_nanos(rs) == time);
}

} // verus!
