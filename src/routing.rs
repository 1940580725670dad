use vstd::prelude::*;

use crate::severity::{lets_through, Severity};

verus! {

/// What a routing table says: the threshold of every namespace that no
/// entry names, and the entries in the order they were set.
pub struct RoutingView {
    pub baseline: Severity,
    pub entries: Seq<(Seq<char>, Severity)>,
}

/// The threshold the latest entry for `ns` sets, if any entry names it.
pub open spec fn last_assigned(entries: Seq<(Seq<char>, Severity)>, ns: Seq<char>) -> Option<Severity>
    decreases entries.len(),
{
    if entries.len() == 0 {
        None
    } else if entries.last().0 == ns {
        Some(entries.last().1)
    } else {
        last_assigned(entries.drop_last(), ns)
    }
}

/// The threshold that applies to records of namespace `ns`.
pub open spec fn threshold_of(t: RoutingView, ns: Seq<char>) -> Severity {
    match last_assigned(t.entries, ns) {
        Some(l) => l,
        None => t.baseline,
    }
}

/// The threshold of namespaces that nothing names: the level itself where
/// it is `Trace`, `Error` or `Off`, else `Warn`.
pub open spec fn baseline_for(level: Severity) -> Severity {
    match level {
        Severity::Trace => Severity::Trace,
        Severity::Error => Severity::Error,
        Severity::Off => Severity::Off,
        _ => Severity::Warn,
    }
}

/// Each name in `names` set to `level`, in order.
pub open spec fn assignments(names: Seq<Seq<char>>, level: Severity) -> Seq<(Seq<char>, Severity)> {
    names.map_values(|n: Seq<char>| (n, level))
}

/// The names a slice of strings holds.
pub open spec fn names_of(names: Seq<&str>) -> Seq<Seq<char>> {
    names.map_values(|n: &str| n@)
}

/// The table for a level: the root at the level, then each elevated
/// namespace at the level, then each suppressed namespace at `Off`.
pub open spec fn planned_routing(
    level: Severity,
    root: Seq<char>,
    elevated: Seq<Seq<char>>,
    suppressed: Seq<Seq<char>>,
) -> RoutingView {
    RoutingView {
        baseline: baseline_for(level),
        entries: seq![(root, level)] + assignments(elevated, level) + assignments(suppressed, Severity::Off),
    }
}

/// The thresholds handed to the logging facility.
pub struct RoutingTable {
    pub baseline: Severity,
    pub entries: Vec<(String, Severity)>,
}

/// The entries' names as character sequences.
pub open spec fn entries_view(v: Seq<(String, Severity)>) -> Seq<(Seq<char>, Severity)> {
    v.map_values(|e: (String, Severity)| (e.0@, e.1))
}

impl View for RoutingTable {
    type V = RoutingView;

    open spec fn view(&self) -> RoutingView {
        RoutingView { baseline: self.baseline, entries: entries_view(self.entries@) }
    }
}

/// The baseline threshold for a resolved level.
pub fn baseline_threshold(level: Severity) -> (r: Severity)
    ensures
        r == baseline_for(level),
{
    match level {
        Severity::Trace => Severity::Trace,
        Severity::Error => Severity::Error,
        Severity::Off => Severity::Off,
        _ => Severity::Warn,
    }
}

fn push_all(table: &mut RoutingTable, names: &[&str], level: Severity)
    ensures
        final(table).baseline == old(table).baseline,
        final(table)@.entries == old(table)@.entries + assignments(names_of(names@), level),
{
    let ghost start = table@.entries;
    let mut i: usize = 0;
    while i < names.len()
        invariant
            i <= names@.len(),
            table.baseline == old(table).baseline,
            start == old(table)@.entries,
            table@.entries == start + assignments(names_of(names@.take(i as int)), level),
        decreases names@.len() - i,
    {
        let ghost before = table.entries@;
        let name = String::from_str(names[i]);
        table.entries.push((name, level));
        proof {
            assert(entries_view(table.entries@) =~= entries_view(before).push((names@[i as int]@, level)));
            assert(names@.take(i + 1) =~= names@.take(i as int).push(names@[i as int]));
            assert(assignments(names_of(names@.take(i + 1)), level) =~= assignments(
                names_of(names@.take(i as int)),
                level,
            ).push((names@[i as int]@, level)));
            assert(table@.entries =~= start + assignments(names_of(names@.take(i + 1)), level));
        }
        i = i + 1;
    }
    assert(names@.take(i as int) =~= names@);
}

impl RoutingTable {
    /// The table for a resolved level: namespaces that nothing names get the
    /// baseline; the root, then each elevated namespace, get the level; each
    /// suppressed namespace then gets `Off`.
    pub fn plan(level: Severity, root: &str, elevated: &[&str], suppressed: &[&str]) -> (r: RoutingTable)
        ensures
            r@ == planned_routing(level, root@, names_of(elevated@), names_of(suppressed@)),
    {
        let mut table = RoutingTable { baseline: baseline_threshold(level), entries: Vec::new() };
        table.entries.push((String::from_str(root), level));
        assert(table@.entries =~= seq![(root@, level)]);
        push_all(&mut table, elevated, level);
        push_all(&mut table, suppressed, Severity::Off);
        table
    }

    /// The threshold for records whose namespace is exactly `ns`: that of the
    /// latest entry naming it, else the baseline.
    pub fn threshold_for(&self, ns: &str) -> (r: Severity)
        ensures
            r == threshold_of(self@, ns@),
    {
        let wanted = String::from_str(ns);
        let mut i: usize = self.entries.len();
        assert(self@.entries.take(i as int) =~= self@.entries);
        while i > 0
            invariant
                i <= self.entries@.len(),
                wanted@ == ns@,
                last_assigned(self@.entries, ns@) == last_assigned(self@.entries.take(i as int), ns@),
            decreases i,
        {
            let ghost prefix = self@.entries.take(i as int);
            assert(prefix.drop_last() =~= self@.entries.take(i - 1));
            if self.entries[i - 1].0 == wanted {
                return self.entries[i - 1].1;
            }
            i = i - 1;
        }
        assert(self@.entries.take(0) =~= Seq::<(Seq<char>, Severity)>::empty());
        self.baseline
    }

    /// Whether a record at `record` from namespace `ns` is written.
    pub fn enabled(&self, ns: &str, record: Severity) -> (r: bool)
        ensures
            r == lets_through(threshold_of(self@, ns@), record),
    {
        self.threshold_for(ns).lets_through(record)
    }
}

proof fn lemma_last_assigned_concat(a: Seq<(Seq<char>, Severity)>, b: Seq<(Seq<char>, Severity)>, ns: Seq<char>)
    ensures
        last_assigned(a + b, ns) == match last_assigned(b, ns) {
            Some(l) => Some(l),
            None => last_assigned(a, ns),
        },
    decreases b.len(),
{
    if b.len() > 0 {
        assert((a + b).drop_last() =~= a + b.drop_last());
        assert((a + b).last() == b.last());
        lemma_last_assigned_concat(a, b.drop_last(), ns);
    } else {
        assert(a + b =~= a);
    }
}

proof fn lemma_last_assigned_uniform(names: Seq<Seq<char>>, level: Severity, ns: Seq<char>)
    ensures
        last_assigned(assignments(names, level), ns) == if names.contains(ns) {
            Some(level)
        } else {
            None::<Severity>
        },
    decreases names.len(),
{
    if names.len() > 0 {
        let rest = names.drop_last();
        assert(assignments(names, level).drop_last() =~= assignments(rest, level));
        lemma_last_assigned_uniform(rest, level, ns);
        if names.last() == ns {
            assert(names[names.len() - 1] == ns);
        } else if rest.contains(ns) {
            let j = choose|j: int| 0 <= j < rest.len() && rest[j] == ns;
            assert(names[j] == ns);
        } else if names.contains(ns) {
            let j = choose|j: int| 0 <= j < names.len() && names[j] == ns;
            if j < names.len() - 1 {
                assert(rest[j] == ns);
            }
        }
    }
}

proof fn lemma_planned_threshold(
    level: Severity,
    root: Seq<char>,
    elevated: Seq<Seq<char>>,
    suppressed: Seq<Seq<char>>,
    ns: Seq<char>,
)
    ensures
        threshold_of(planned_routing(level, root, elevated, suppressed), ns) == if suppressed.contains(ns) {
            Severity::Off
        } else if elevated.contains(ns) || ns == root {
            level
        } else {
            baseline_for(level)
        },
{
    let head = seq![(root, level)];
    let up = assignments(elevated, level);
    let down = assignments(suppressed, Severity::Off);
    lemma_last_assigned_concat(head + up, down, ns);
    lemma_last_assigned_concat(head, up, ns);
    lemma_last_assigned_uniform(elevated, level, ns);
    lemma_last_assigned_uniform(suppressed, Severity::Off, ns);
    assert(head.drop_last() =~= Seq::<(Seq<char>, Severity)>::empty());
    assert(head.last() == (root, level));
    assert(last_assigned(head.drop_last(), ns) == None::<Severity>);
    assert(last_assigned(head, ns) == if ns == root {
        Some(level)
    } else {
        None::<Severity>
    });
}

/// A namespace that is neither the root nor named in either override list
/// gets the baseline threshold: at level `Trace` it passes `Trace` records,
/// and at level `Info` it holds back `Debug` ones.
pub proof fn unnamed_namespaces_follow_baseline(
    level: Severity,
    root: Seq<char>,
    elevated: Seq<Seq<char>>,
    suppressed: Seq<Seq<char>>,
    ns: Seq<char>,
)
    requires
        ns != root,
        !elevated.contains(ns),
        !suppressed.contains(ns),
    ensures
        threshold_of(planned_routing(level, root, elevated, suppressed), ns) == baseline_for(level),
        level == Severity::Trace ==> lets_through(
            threshold_of(planned_routing(level, root, elevated, suppressed), ns),
            Severity::Trace,
        ),
        level == Severity::Info ==> !lets_through(
            threshold_of(planned_routing(level, root, elevated, suppressed), ns),
            Severity::Debug,
        ),
{
    lemma_planned_threshold(level, root, elevated, suppressed, ns);
}

/// A namespace that is both elevated and suppressed ends up silenced.
pub proof fn suppression_wins(
    level: Severity,
    root: Seq<char>,
    elevated: Seq<Seq<char>>,
    suppressed: Seq<Seq<char>>,
    ns: Seq<char>,
)
    requires
        elevated.contains(ns),
        suppressed.contains(ns),
    ensures
        threshold_of(planned_routing(level, root, elevated, suppressed), ns) == Severity::Off,
        forall|record: Severity|
            !lets_through(threshold_of(planned_routing(level, root, elevated, suppressed), ns), record),
{
    lemma_planned_threshold(level, root, elevated, suppressed, ns);
}

/// The root namespace, unless suppressed, logs at the resolved level even
/// where the baseline is quieter: at level `Debug` it passes `Debug` records.
pub proof fn root_follows_level(
    level: Severity,
    root: Seq<char>,
    elevated: Seq<Seq<char>>,
    suppressed: Seq<Seq<char>>,
)
    requires
        !suppressed.contains(root),
    ensures
        threshold_of(planned_routing(level, root, elevated, suppressed), root) == level,
        level == Severity::Debug ==> lets_through(
            threshold_of(planned_routing(level, root, elevated, suppressed), root),
            Severity::Debug,
        ),
{
    lemma_planned_threshold(level, root, elevated, suppressed, root);
}

} // verus!
