//! What a simulation reports.
use crate::felt::Felt;
use vstd::prelude::*;

verus! {

/// A table from names to values, in which no name occurs twice.
#[derive(Clone, Debug)]
pub struct Table<V> {
    entries: Vec<(String, V)>,
}

/// What pairs say when a later pair overrides an earlier one of the same name.
pub open spec fn last_of_each<V>(pairs: Seq<(String, V)>) -> Map<Seq<char>, V>
    decreases pairs.len(),
{
    if pairs.len() == 0 {
        Map::empty()
    } else {
        last_of_each(pairs.drop_last()).insert(pairs.last().0@, pairs.last().1)
    }
}

/// No two pairs have the same name.
pub open spec fn distinct_names<V>(pairs: Seq<(String, V)>) -> bool {
    forall|i: int, j: int|
        0 <= i < j < pairs.len() ==> (#[trigger] pairs[i]).0@ != (#[trigger] pairs[j]).0@
}

proof fn lemma_named<V>(pairs: Seq<(String, V)>, name: Seq<char>)
    ensures
        last_of_each(pairs).contains_key(name) <==> exists|i: int|
            0 <= i < pairs.len() && (#[trigger] pairs[i]).0@ == name,
    decreases pairs.len(),
{
    if pairs.len() > 0 {
        let front = pairs.drop_last();
        lemma_named(front, name);
        if exists|i: int| 0 <= i < pairs.len() && (#[trigger] pairs[i]).0@ == name {
            let i = choose|i: int| 0 <= i < pairs.len() && (#[trigger] pairs[i]).0@ == name;
            if i < front.len() {
                assert(front[i].0@ == name);
            }
        }
        if exists|i: int| 0 <= i < front.len() && (#[trigger] front[i]).0@ == name {
            let i = choose|i: int| 0 <= i < front.len() && (#[trigger] front[i]).0@ == name;
            assert(pairs[i].0@ == name);
        }
        assert(pairs[pairs.len() - 1] == pairs.last());
    }
}

proof fn lemma_value_at<V>(pairs: Seq<(String, V)>, i: int)
    requires
        distinct_names(pairs),
        0 <= i < pairs.len(),
    ensures
        last_of_each(pairs).contains_key(pairs[i].0@),
        last_of_each(pairs)[pairs[i].0@] == pairs[i].1,
    decreases pairs.len(),
{
    let front = pairs.drop_last();
    if i < front.len() {
        assert(distinct_names(front)) by {
            assert forall|a: int, b: int| 0 <= a < b < front.len() implies (
            #[trigger] front[a]).0@ != (#[trigger] front[b]).0@ by {
                assert(front[a] == pairs[a] && front[b] == pairs[b]);
            }
        }
        lemma_value_at(front, i);
        assert(front[i] == pairs[i]);
        assert(pairs[i].0@ != pairs[pairs.len() - 1].0@);
    }
}

proof fn lemma_override<V>(pairs: Seq<(String, V)>, i: int, pair: (String, V))
    requires
        distinct_names(pairs),
        0 <= i < pairs.len(),
        pairs[i].0@ == pair.0@,
    ensures
        distinct_names(pairs.update(i, pair)),
        last_of_each(pairs.update(i, pair)) == last_of_each(pairs).insert(pair.0@, pair.1),
    decreases pairs.len(),
{
    let updated = pairs.update(i, pair);
    assert forall|a: int, b: int| 0 <= a < b < updated.len() implies (#[trigger] updated[a]).0@ != (
    #[trigger] updated[b]).0@ by {
        assert(pairs[a].0@ != pairs[b].0@);
    }
    let front = pairs.drop_last();
    if i < front.len() {
        assert(distinct_names(front)) by {
            assert forall|a: int, b: int| 0 <= a < b < front.len() implies (
            #[trigger] front[a]).0@ != (#[trigger] front[b]).0@ by {
                assert(front[a] == pairs[a] && front[b] == pairs[b]);
            }
        }
        assert(front[i] == pairs[i]);
        lemma_override(front, i, pair);
        assert(updated.drop_last() =~= front.update(i, pair));
        assert(pairs[i].0@ != pairs[pairs.len() - 1].0@);
        let last = pairs.last();
        assert(last_of_each(front).insert(pair.0@, pair.1).insert(last.0@, last.1)
            =~= last_of_each(front).insert(last.0@, last.1).insert(pair.0@, pair.1));
    } else {
        assert(updated.drop_last() =~= front);
        assert(last_of_each(front).insert(pair.0@, pair.1) =~= last_of_each(front).insert(
            pair.0@,
            pairs.last().1,
        ).insert(pair.0@, pair.1));
    }
}

impl<V> View for Table<V> {
    type V = Map<Seq<char>, V>;

    closed spec fn view(&self) -> Map<Seq<char>, V> {
        last_of_each(self.entries@)
    }
}

impl<V> Table<V> {
    /// No name occurs twice.
    pub closed spec fn wf(self) -> bool {
        distinct_names(self.entries@)
    }

    /// A table without entries.
    pub fn new() -> (table: Table<V>)
        ensures
            table.wf(),
            table@ == Map::<Seq<char>, V>::empty(),
    {
        Table { entries: Vec::new() }
    }

    /// Gives `name` the value `value`, in place of any it had.
    pub fn insert(&mut self, name: String, value: V)
        requires
            old(self).wf(),
        ensures
            final(self).wf(),
            final(self)@ == old(self)@.insert(name@, value),
    {
        let ghost before = self.entries@;
        let mut i: usize = 0;
        while i < self.entries.len()
            invariant
                i <= self.entries.len(),
                self.entries@ == before,
                old(self).entries@ == before,
                distinct_names(before),
                forall|j: int| 0 <= j < i ==> (#[trigger] before[j]).0@ != name@,
            decreases self.entries.len() - i,
        {
            if self.entries[i].0 == name {
                proof {
                    lemma_override(before, i as int, (name, value));
                }
                self.entries.set(i, (name, value));
                return ;
            }
            i = i + 1;
        }
        self.entries.push((name, value));
        proof {
            let after = self.entries@;
            assert(after.drop_last() =~= before);
            assert forall|a: int, b: int| 0 <= a < b < after.len() implies (
            #[trigger] after[a]).0@ != (#[trigger] after[b]).0@ by {
                assert(after[a] == before[a]);
                if b < before.len() {
                    assert(after[b] == before[b]);
                }
            }
        }
    }

    /// The value of `name`, if it has one.
    pub fn get(&self, name: &str) -> (value: Option<&V>)
        requires
            self.wf(),
        ensures
            match value {
                Some(v) => self@.contains_key(name@) && *v == self@[name@],
                None => !self@.contains_key(name@),
            },
    {
        let wanted = name.to_owned();
        let mut i: usize = 0;
        while i < self.entries.len()
            invariant
                i <= self.entries.len(),
                wanted@ == name@,
                self.wf(),
                forall|j: int| 0 <= j < i ==> (#[trigger] self.entries@[j]).0@ != name@,
            decreases self.entries.len() - i,
        {
            if self.entries[i].0 == wanted {
                proof {
                    lemma_value_at(self.entries@, i as int);
                }
                return Some(&self.entries[i].1);
            }
            i = i + 1;
        }
        proof {
            lemma_named(self.entries@, name@);
        }
        None
    }

    /// The entries, each name once.
    pub fn entries(&self) -> (entries: &Vec<(String, V)>)
        ensures
            last_of_each(entries@) == self@,
            self.wf() ==> distinct_names(entries@),
    {
        &self.entries
    }
}

/// The rendered metrics of one token, by name.
pub type MetricsView = Map<Seq<char>, Seq<char>>;

/// What a table of texts says.
pub open spec fn texts(table: Map<Seq<char>, String>) -> MetricsView {
    Map::new(|name: Seq<char>| table.contains_key(name), |name: Seq<char>| table[name]@)
}

/// The simulation report.
#[derive(Clone, Debug)]
pub struct SimulationReport {
    pub chain_id: Option<Felt>,
    pub block_number: Option<u64>,
    /// The metrics of each token, by the token's name.
    pub reports: Table<Table<String>>,
}

/// What a report says.
#[verifier::ext_equal]
pub struct ReportView {
    pub chain_id: Option<Felt>,
    pub block_number: Option<u64>,
    pub reports: Map<Seq<char>, MetricsView>,
}

impl View for SimulationReport {
    type V = ReportView;

    open spec fn view(&self) -> ReportView {
        ReportView {
            chain_id: self.chain_id,
            block_number: self.block_number,
            reports: Map::new(
                |name: Seq<char>| self.reports@.contains_key(name),
                |name: Seq<char>| texts(self.reports@[name]@),
            ),
        }
    }
}

impl ReportView {
    /// The report with the metrics of a token filed under its name, in place of
    /// any that were. Of two metrics of one name the later counts.
    pub open spec fn filed(self, token: Seq<char>, metrics: Seq<(String, String)>) -> ReportView {
        ReportView { reports: self.reports.insert(token, texts(last_of_each(metrics))), ..self }
    }
}

/// Of two filings for one token only the second is left, whole.
pub proof fn law_second_filing(
    report: ReportView,
    token: Seq<char>,
    first: Seq<(String, String)>,
    second: Seq<(String, String)>,
)
    ensures
        report.filed(token, first).filed(token, second) == report.filed(token, second),
        report.filed(token, first).filed(token, second).reports.dom() == report.filed(
            token,
            first,
        ).reports.dom(),
{
    assert(report.filed(token, first).filed(token, second).reports =~= report.filed(
        token,
        second,
    ).reports);
}

/// The report before anything has been measured.
pub open spec fn empty_report() -> ReportView {
    ReportView { chain_id: None, block_number: None, reports: Map::empty() }
}

impl SimulationReport {
    /// No token, and no metric of a token, is listed twice.
    pub open spec fn wf(self) -> bool {
        &&& self.reports.wf()
        &&& forall|name: Seq<char>|
            self.reports@.contains_key(name) ==> (#[trigger] self.reports@[name]).wf()
    }

    /// Files the rendered metrics of a token under its name. Of two metrics of
    /// one name the later counts.
    pub fn record(&mut self, token: &str, metrics: Vec<(String, String)>)
        requires
            old(self).wf(),
        ensures
            final(self).wf(),
            final(self)@ == old(self)@.filed(token@, metrics@),
    {
        let mut table: Table<String> = Table::new();
        let ghost all = metrics@;
        let mut i: usize = 0;
        assert(all.take(0) =~= Seq::empty());
        while i < metrics.len()
            invariant
                i <= metrics.len(),
                metrics@ == all,
                table.wf(),
                texts(table@) == texts(last_of_each(all.take(i as int))),
            decreases metrics.len() - i,
        {
            let ghost before = table@;
            let name = metrics[i].0.clone();
            let value = metrics[i].1.clone();
            table.insert(name, value);
            proof {
                let so_far = last_of_each(all.take(i as int));
                assert(all.take(i + 1).drop_last() =~= all.take(i as int));
                assert(all.take(i + 1).last() == all[i as int]);
                assert(texts(before.insert(name@, value)) =~= texts(before).insert(name@, value@));
                assert(texts(so_far.insert(name@, all[i as int].1)) =~= texts(so_far).insert(
                    name@,
                    value@,
                ));
            }
            i = i + 1;
        }
        assert(all.take(i as int) =~= all);
        let ghost before = self@;
        self.reports.insert(token.to_owned(), table);
        assert(self@.reports =~= before.reports.insert(token@, texts(last_of_each(all))));
    }

    /// The metrics filed for a token, if there are any.
    pub fn metrics_of(&self, token: &str) -> (metrics: Option<&Table<String>>)
        requires
            self.wf(),
        ensures
            match metrics {
                Some(m) => self@.reports.contains_key(token@) && texts(m@)
                    == self@.reports[token@] && m.wf(),
                None => !self@.reports.contains_key(token@),
            },
    {
        self.reports.get(token)
    }
}

impl Default for SimulationReport {
    fn default() -> (report: SimulationReport)
        ensures
            report.wf(),
            report@ == empty_report(),
    {
        let report = SimulationReport { chain_id: None, block_number: None, reports: Table::new() };
        assert(report@.reports =~= Map::empty());
        report
    }
}

proof fn lemma_last_counts(pairs: Seq<(String, String)>, i: int)
    requires
        0 <= i < pairs.len(),
        forall|j: int| i < j < pairs.len() ==> (#[trigger] pairs[j]).0@ != pairs[i].0@,
    ensures
        last_of_each(pairs).contains_key(pairs[i].0@),
        last_of_each(pairs)[pairs[i].0@] == pairs[i].1,
    decreases pairs.len(),
{
    let front = pairs.drop_last();
    if i < front.len() {
        assert(front[i] == pairs[i]);
        assert forall|j: int| i < j < front.len() implies (#[trigger] front[j]).0@
            != front[i].0@ by {
            assert(front[j] == pairs[j]);
        }
        lemma_last_counts(front, i);
        assert(pairs[pairs.len() - 1].0@ != pairs[i].0@);
    }
}

/// Metrics filed for a token are found under its name: each with the last value
/// given for it, and no others. Nothing is changed for another token.
pub proof fn law_filed(
    report: ReportView,
    token: Seq<char>,
    metrics: Seq<(String, String)>,
    name: Seq<char>,
    i: int,
)
    ensures
        ({
            let filed = report.filed(token, metrics);
            &&& filed.chain_id == report.chain_id
            &&& filed.block_number == report.block_number
            &&& filed.reports.contains_key(token)
            &&& 0 <= i < metrics.len() && (forall|j: int|
                i < j < metrics.len() ==> (#[trigger] metrics[j]).0@ != metrics[i].0@)
                ==> filed.reports[token].contains_key(metrics[i].0@)
                && filed.reports[token][metrics[i].0@] == metrics[i].1@
            &&& filed.reports[token].contains_key(name) <==> exists|j: int|
                0 <= j < metrics.len() && (#[trigger] metrics[j]).0@ == name
            &&& forall|other: Seq<char>|
                other != token ==> (#[trigger] filed.reports.contains_key(other)
                    <==> report.reports.contains_key(other)) && filed.reports[other]
                    == report.reports[other]
        }),
{
    if 0 <= i < metrics.len() && (forall|j: int|
        i < j < metrics.len() ==> (#[trigger] metrics[j]).0@ != metrics[i].0@) {
        lemma_last_counts(metrics, i);
    }
    lemma_named(metrics, name);
}

/// What is seen of a report is what it holds.
pub proof fn law_report_as_seen(report: SimulationReport, token: Seq<char>, name: Seq<char>)
    ensures
        report@.chain_id == report.chain_id,
        report@.block_number == report.block_number,
        report@.reports.contains_key(token) <==> report.reports@.contains_key(token),
        report@.reports.contains_key(token) ==> (report@.reports[token].contains_key(name)
            <==> report.reports@[token]@.contains_key(name)),
        report@.reports.contains_key(token) && report@.reports[token].contains_key(name)
            ==> report@.reports[token][name] == report.reports@[token]@[name]@,
{
}

/// In a list without repeated names, every pair says what its name stands for.
pub proof fn law_distinct_names<V>(pairs: Seq<(String, V)>, i: int, j: int)
    requires
        distinct_names(pairs),
        0 <= i < j < pairs.len(),
    ensures
        pairs[i].0@ != pairs[j].0@,
        last_of_each(pairs).contains_key(pairs[i].0@),
        last_of_each(pairs)[pairs[i].0@] == pairs[i].1,
        last_of_each(pairs)[pairs[j].0@] == pairs[j].1,
{
    lemma_value_at(pairs, i);
    lemma_value_at(pairs, j);
}

} // verus!
