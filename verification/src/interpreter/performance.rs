//! Timing of commands, as first kept by the interpreter: how long each run
//! of a command took, by the command's name. Times are counted in
//! nanoseconds.
use vstd::prelude::*;

use crate::interpreter::util::performance::{
    average_nanos, lemma_total_prefix_bounded, listed, report_lines, summary_lines, summary_view,
    total_nanos,
};
use crate::interpreter::util::performance::contains_name;
use crate::table::NameMap;

verus! {

/// A time and the tag it was recorded with.
pub open spec fn result_view(r: PerformanceResult) -> (u128, Seq<char>) {
    (r.time, r.tag@)
}

/// The times and tags of a sequence of results.
pub open spec fn results_view(v: Seq<PerformanceResult>) -> Seq<(u128, Seq<char>)> {
    v.map_values(|r: PerformanceResult| result_view(r))
}

/// The values of report lines.
pub open spec fn report_view(v: Seq<(String, Vec<PerformanceResult>)>) -> Seq<
    (Seq<char>, Seq<(u128, Seq<char>)>),
> {
    v.map_values(|l: (String, Vec<PerformanceResult>)| (l.0@, results_view(l.1@)))
}

/// The times recorded, by command.
pub struct PerformanceTracker {
    pub command_execution_times: NameMap<Vec<PerformanceResult>>,
}

impl PerformanceTracker {
    /// The times recorded, by command, oldest first.
    pub open spec fn times(self) -> Map<Seq<char>, Seq<(u128, Seq<char>)>> {
        self.command_execution_times.map().map_values(|v: Vec<PerformanceResult>| results_view(v@))
    }

    /// The commands recorded, each once.
    pub open spec fn order(self) -> Seq<Seq<char>> {
        self.command_execution_times.names()
    }

    /// The table is well formed and every command recorded has a time.
    pub open spec fn wf(self) -> bool {
        &&& self.command_execution_times.wf()
        &&& forall|c: Seq<char>| #[trigger]
            self.command_execution_times.map().contains_key(c) ==> self.command_execution_times.map()[c]@.len()
                > 0
    }

    /// No times recorded.
    pub fn new() -> (t: Self)
        ensures
            t.wf(),
            t.times() == Map::<Seq<char>, Seq<(u128, Seq<char>)>>::empty(),
    {
        let t = PerformanceTracker { command_execution_times: NameMap::new() };
        assert(t.times() =~= Map::<Seq<char>, Seq<(u128, Seq<char>)>>::empty());
        t
    }

    /// Records that a run of `command` took `time` nanoseconds, with `tag`.
    pub fn record_command_execution(&mut self, command: &String, time: u128, tag: String)
        requires
            old(self).wf(),
        ensures
            final(self).wf(),
            final(self).times() == old(self).times().insert(
                command@,
                if old(self).times().contains_key(command@) {
                    old(self).times()[command@]
                } else {
                    Seq::empty()
                }.push((time, tag@)),
            ),
    {
        let perf = PerformanceResult::from(time, tag);
        let ghost p = result_view(perf);
        let mut results = match self.command_execution_times.remove(command.as_str()) {
            Some(v) => v,
            None => Vec::new(),
        };
        let ghost before = results@;
        results.push(perf);
        self.command_execution_times.insert(command.clone(), results);
        proof {
            let o = old(self).times();
            let expected = if o.contains_key(command@) {
                o[command@]
            } else {
                Seq::empty()
            }.push(p);
            assert(results_view(before.push(perf)) =~= results_view(before).push(p));
            assert(!o.contains_key(command@) ==> results_view(before) =~= Seq::<
                (u128, Seq<char>),
            >::empty());
            assert(self.times() =~= o.insert(command@, expected));
        }
    }

    /// For each command recorded that `wanted` lists, its name, how many
    /// times were recorded and their mean.
    pub fn summary(&self, wanted: &Vec<String>) -> (r: Vec<(String, usize, u64)>)
        requires
            self.wf(),
            forall|c: Seq<char>| #[trigger]
                self.times().contains_key(c) ==> total_nanos(self.times()[c]) <= u128::MAX,
        ensures
            summary_view(r@) == summary_lines(
                self.order(),
                self.times(),
                wanted@.map_values(|s: String| s@),
            ),
    {
        let ghost inc = wanted@.map_values(|s: String| s@);
        let mut r: Vec<(String, usize, u64)> = Vec::new();
        let n = self.command_execution_times.len();
        let mut i: usize = 0;
        while i < n
            invariant
                self.wf(),
                n == self.order().len(),
                i <= n,
                inc == wanted@.map_values(|s: String| s@),
                forall|c: Seq<char>| #[trigger]
                    self.times().contains_key(c) ==> total_nanos(self.times()[c]) <= u128::MAX,
                summary_view(r@) == summary_lines(self.order().take(i as int), self.times(), inc),
            decreases n - i,
        {
            let (name, results) = self.command_execution_times.entry(i);
            let ghost c = self.order()[i as int];
            assert(self.order().take(i + 1).drop_last() =~= self.order().take(i as int));
            assert(self.times().contains_key(c));
            assert(self.times()[c] == results_view(results@));
            if contains_name(wanted, name) {
                let avg = average_of(results);
                let ghost before = r@;
                r.push((name.clone(), results.len(), avg));
                assert(summary_view(r@) =~= summary_view(before).push(
                    (c, self.times()[c].len(), average_nanos(self.times()[c])),
                ));
            }
            i = i + 1;
        }
        assert(self.order().take(n as int) =~= self.order());
        r
    }

    /// For each command recorded that `wanted` lists, its name and its
    /// recorded times and tags.
    pub fn report(&self, wanted: &Vec<String>) -> (r: Vec<(String, Vec<PerformanceResult>)>)
        requires
            self.wf(),
        ensures
            report_view(r@) == report_lines(
                self.order(),
                self.times(),
                wanted@.map_values(|s: String| s@),
            ),
    {
        let ghost inc = wanted@.map_values(|s: String| s@);
        let mut r: Vec<(String, Vec<PerformanceResult>)> = Vec::new();
        let n = self.command_execution_times.len();
        let mut i: usize = 0;
        while i < n
            invariant
                self.wf(),
                n == self.order().len(),
                i <= n,
                inc == wanted@.map_values(|s: String| s@),
                report_view(r@) == report_lines(self.order().take(i as int), self.times(), inc),
            decreases n - i,
        {
            let (name, results) = self.command_execution_times.entry(i);
            let ghost c = self.order()[i as int];
            assert(self.order().take(i + 1).drop_last() =~= self.order().take(i as int));
            if contains_name(wanted, name) {
                let copy = copy_results(results);
                let ghost before = r@;
                r.push((name.clone(), copy));
                assert(report_view(r@) =~= report_view(before).push((c, self.times()[c])));
            }
            i = i + 1;
        }
        assert(self.order().take(n as int) =~= self.order());
        r
    }

    /// Forgets every time recorded.
    pub fn clear(&mut self)
        ensures
            final(self).wf(),
            final(self).times() == Map::<Seq<char>, Seq<(u128, Seq<char>)>>::empty(),
    {
        self.command_execution_times.clear();
        assert(self.times() =~= Map::<Seq<char>, Seq<(u128, Seq<char>)>>::empty());
    }
}

/// The mean of the times of `results`, rounded down and cut to 64 bits.
fn average_of(results: &Vec<PerformanceResult>) -> (n: u64)
    requires
        results@.len() > 0,
        total_nanos(results_view(results@)) <= u128::MAX,
    ensures
        n == average_nanos(results_view(results@)),
{
    let ghost rs = results_view(results@);
    let mut sum: u128 = 0;
    let mut i: usize = 0;
    proof {
        lemma_total_prefix_bounded(rs, rs.len() as int);
    }
    while i < results.len()
        invariant
            i <= results@.len(),
            rs == results_view(results@),
            sum == total_nanos(rs.take(i as int)),
            total_nanos(rs) <= u128::MAX,
        decreases results@.len() - i,
    {
        assert(rs.take(i + 1).drop_last() =~= rs.take(i as int));
        proof {
            lemma_total_prefix_bounded(rs, i + 1);
        }
        sum = sum + results[i].time;
        i = i + 1;
    }
    assert(rs.take(i as int) =~= rs);
    let len = results.len() as u128;
    (sum / len) as u64
}

/// A copy of `results`.
fn copy_results(results: &Vec<PerformanceResult>) -> (r: Vec<PerformanceResult>)
    ensures
        results_view(r@) == results_view(results@),
{
    let mut r: Vec<PerformanceResult> = Vec::new();
    let mut i: usize = 0;
    while i < results.len()
        invariant
            i <= results@.len(),
            results_view(r@) == results_view(results@).take(i as int),
        decreases results@.len() - i,
    {
        let ghost before = r@;
        let item = PerformanceResult::from(results[i].time, results[i].tag.clone());
        assert(result_view(item) == result_view(results@[i as int]));
        r.push(item);
        assert(r@ == before.push(item));
        assert(results_view(r@) =~= results_view(before).push(result_view(item)));
        assert(results_view(r@) =~= results_view(results@).take(i + 1));
        i = i + 1;
    }
    assert(results_view(results@).take(i as int) =~= results_view(results@));
    r
}

/// A time, in nanoseconds, and the tag it was recorded with.
pub struct PerformanceResult {
    pub time: u128,
    pub tag: String,
}

impl PerformanceResult {
    /// The result `time` with `tag`.
    pub fn from(time: u128, tag: String) -> (r: Self)
        ensures
            r.time == time,
            r.tag@ == tag@,
    {
        PerformanceResult { time, tag }
    }
}

} // verus!
