//! The usage counter: a per-request accumulator recording how many times each
//! model or command is referenced while one request tree is compiled.
//!
//! Downstream consumers use the exact counts for fan-out decisions, so the
//! contracts here pin every count precisely: recording a reference adds one
//! to that identity's count and leaves every other count unchanged.

use vstd::prelude::*;
use vstd::multiset::Multiset;
use vstd::pervasive::VecAdditionalExecFns;

verus! {

broadcast use vstd::seq_lib::group_to_multiset_ensures;

/// How often one model has been referenced so far.
#[derive(Debug, PartialEq, Eq)]
pub struct ModelCount {
    pub model: String,
    pub count: u64,
}

/// How often one command has been referenced so far.
#[derive(Debug, PartialEq, Eq)]
pub struct CommandCount {
    pub command: String,
    pub count: u64,
}

/// The accumulator threaded by mutable reference through one request's whole
/// compilation. Scoped to that request and discarded with the finished IR.
#[derive(Debug, PartialEq, Eq)]
pub struct UsagesCounts {
    pub models_used: Vec<ModelCount>,
    pub commands_used: Vec<CommandCount>,
}

/// What one entry contributes to the count of model `m`.
pub open spec fn model_entry_count(e: ModelCount, m: Seq<char>) -> int {
    if e.model@ == m {
        e.count as int
    } else {
        0
    }
}

/// The recorded count of model `m`: the sum of all entries naming it.
/// With unique entry names this is the single entry's count, or zero.
pub open spec fn models_count(s: Seq<ModelCount>, m: Seq<char>) -> int
    decreases s.len(),
{
    if s.len() == 0 {
        0
    } else {
        models_count(s.drop_last(), m) + model_entry_count(s.last(), m)
    }
}

/// What one entry contributes to the count of command `c`.
pub open spec fn command_entry_count(e: CommandCount, c: Seq<char>) -> int {
    if e.command@ == c {
        e.count as int
    } else {
        0
    }
}

/// The recorded count of command `c`.
pub open spec fn commands_count(s: Seq<CommandCount>, c: Seq<char>) -> int
    decreases s.len(),
{
    if s.len() == 0 {
        0
    } else {
        commands_count(s.drop_last(), c) + command_entry_count(s.last(), c)
    }
}

/// Each model appears in at most one entry.
pub open spec fn models_wf(s: Seq<ModelCount>) -> bool {
    forall|i: int, j: int| 0 <= i < j < s.len() ==> s[i].model@ != s[j].model@
}

/// Each command appears in at most one entry.
pub open spec fn commands_wf(s: Seq<CommandCount>) -> bool {
    forall|i: int, j: int| 0 <= i < j < s.len() ==> s[i].command@ != s[j].command@
}

impl UsagesCounts {
    /// Well-formed: no model and no command is tracked twice.
    pub open spec fn wf(self) -> bool {
        models_wf(self.models_used@) && commands_wf(self.commands_used@)
    }

    /// The count recorded for model `m`, zero when `m` was never recorded.
    pub open spec fn model_count(self, m: Seq<char>) -> int {
        models_count(self.models_used@, m)
    }

    /// The count recorded for command `c`, zero when `c` was never recorded.
    pub open spec fn command_count(self, c: Seq<char>) -> int {
        commands_count(self.commands_used@, c)
    }

    /// A fresh accumulator with nothing recorded yet.
    pub fn new() -> (res: UsagesCounts)
        ensures
            res.wf(),
            forall|m: Seq<char>| res.model_count(m) == 0,
            forall|c: Seq<char>| res.command_count(c) == 0,
            res.models_used@.len() == 0,
            res.commands_used@.len() == 0,
    {
        UsagesCounts { models_used: Vec::new(), commands_used: Vec::new() }
    }
}

/// Replacing the entry at `i` changes the sum only by the difference of the
/// two entries' contributions.
proof fn lemma_models_count_update(s: Seq<ModelCount>, i: int, e: ModelCount, m: Seq<char>)
    requires
        0 <= i < s.len(),
    ensures
        models_count(s.update(i, e), m) == models_count(s, m) - model_entry_count(s[i], m)
            + model_entry_count(e, m),
    decreases s.len(),
{
    let su = s.update(i, e);
    if i == s.len() - 1 {
        assert(su.drop_last() =~= s.drop_last());
    } else {
        assert(su.last() == s.last());
        assert(su.drop_last() =~= s.drop_last().update(i, e));
        lemma_models_count_update(s.drop_last(), i, e, m);
    }
}

/// When no entry of `s` names `m`, the recorded count of `m` is zero.
proof fn lemma_models_count_absent(s: Seq<ModelCount>, m: Seq<char>)
    requires
        forall|i: int| 0 <= i < s.len() ==> s[i].model@ != m,
    ensures
        models_count(s, m) == 0,
    decreases s.len(),
{
    if s.len() > 0 {
        lemma_models_count_absent(s.drop_last(), m);
    }
}

/// With unique entry names, the recorded count of the model named by entry
/// `i` is exactly that entry's count.
proof fn lemma_models_count_found(s: Seq<ModelCount>, i: int)
    requires
        models_wf(s),
        0 <= i < s.len(),
    ensures
        models_count(s, s[i].model@) == s[i].count as int,
    decreases s.len(),
{
    if i == s.len() - 1 {
        assert(forall|j: int|
            0 <= j < s.drop_last().len() ==> s.drop_last()[j].model@ != s[i].model@);
        lemma_models_count_absent(s.drop_last(), s[i].model@);
    } else {
        lemma_models_count_found(s.drop_last(), i);
    }
}

/// Records one reference to a model: its count grows by exactly one, every
/// other model's count and all command counts are unchanged.
#[verifier::loop_isolation(false)]
pub fn count_model(model_name: &String, usage_counts: &mut UsagesCounts)
    requires
        old(usage_counts).wf(),
        old(usage_counts).model_count(model_name@) < u64::MAX,
    ensures
        final(usage_counts).wf(),
        forall|m: Seq<char>|
            #[trigger] final(usage_counts).model_count(m) == old(usage_counts).model_count(m)
                + (if m == model_name@ { 1int } else { 0int }),
        final(usage_counts).commands_used@ == old(usage_counts).commands_used@,
{
    let ghost s0 = usage_counts.models_used@;
    let mut i: usize = 0;
    let n = usage_counts.models_used.len();
    while i < n
        invariant
            usage_counts.models_used@ == s0,
            usage_counts.commands_used@ == old(usage_counts).commands_used@,
            n == s0.len(),
            i <= n,
            forall|j: int| 0 <= j < i ==> s0[j].model@ != model_name@,
        decreases n - i,
    {
        if usage_counts.models_used[i].model.eq(model_name) {
            proof {
                lemma_models_count_found(s0, i as int);
            }
            let new_count = usage_counts.models_used[i].count + 1;
            let name = usage_counts.models_used[i].model.clone();
            usage_counts.models_used.set(i, ModelCount { model: name, count: new_count });
            proof {
                assert forall|m: Seq<char>|
                    #[trigger] models_count(usage_counts.models_used@, m) == models_count(s0, m)
                        + (if m == model_name@ { 1int } else { 0int }) by {
                    lemma_models_count_update(
                        s0,
                        i as int,
                        ModelCount { model: s0[i as int].model, count: (s0[i as int].count + 1) as u64 },
                        m,
                    );
                }
                assert(forall|p: int, q: int|
                    0 <= p < q < usage_counts.models_used@.len()
                        ==> usage_counts.models_used@[p].model@
                        != usage_counts.models_used@[q].model@);
            }
            return ;
        }
        i = i + 1;
    }
    proof {
        lemma_models_count_absent(s0, model_name@);
    }
    let name = model_name.clone();
    usage_counts.models_used.push(ModelCount { model: name, count: 1 });
    proof {
        assert(usage_counts.models_used@.drop_last() =~= s0);
        assert(forall|p: int, q: int|
            0 <= p < q < usage_counts.models_used@.len()
                ==> usage_counts.models_used@[p].model@ != usage_counts.models_used@[q].model@);
    }
}

/// Records one reference to a command, mirroring `count_model`.
#[verifier::loop_isolation(false)]
pub fn count_command(command_name: &String, usage_counts: &mut UsagesCounts)
    requires
        old(usage_counts).wf(),
        old(usage_counts).command_count(command_name@) < u64::MAX,
    ensures
        final(usage_counts).wf(),
        forall|c: Seq<char>|
            #[trigger] final(usage_counts).command_count(c) == old(usage_counts).command_count(c)
                + (if c == command_name@ { 1int } else { 0int }),
        final(usage_counts).models_used@ == old(usage_counts).models_used@,
{
    let ghost s0 = usage_counts.commands_used@;
    let mut i: usize = 0;
    let n = usage_counts.commands_used.len();
    while i < n
        invariant
            usage_counts.commands_used@ == s0,
            usage_counts.models_used@ == old(usage_counts).models_used@,
            n == s0.len(),
            i <= n,
            forall|j: int| 0 <= j < i ==> s0[j].command@ != command_name@,
        decreases n - i,
    {
        if usage_counts.commands_used[i].command.eq(command_name) {
            proof {
                lemma_commands_count_found(s0, i as int);
            }
            let new_count = usage_counts.commands_used[i].count + 1;
            let name = usage_counts.commands_used[i].command.clone();
            usage_counts.commands_used.set(i, CommandCount { command: name, count: new_count });
            proof {
                assert forall|c: Seq<char>|
                    #[trigger] commands_count(usage_counts.commands_used@, c) == commands_count(s0, c)
                        + (if c == command_name@ { 1int } else { 0int }) by {
                    lemma_commands_count_update(
                        s0,
                        i as int,
                        CommandCount {
                            command: s0[i as int].command,
                            count: (s0[i as int].count + 1) as u64,
                        },
                        c,
                    );
                }
                assert(forall|p: int, q: int|
                    0 <= p < q < usage_counts.commands_used@.len()
                        ==> usage_counts.commands_used@[p].command@
                        != usage_counts.commands_used@[q].command@);
            }
            return ;
        }
        i = i + 1;
    }
    proof {
        lemma_commands_count_absent(s0, command_name@);
    }
    let name = command_name.clone();
    usage_counts.commands_used.push(CommandCount { command: name, count: 1 });
    proof {
        assert(usage_counts.commands_used@.drop_last() =~= s0);
        assert(forall|p: int, q: int|
            0 <= p < q < usage_counts.commands_used@.len()
                ==> usage_counts.commands_used@[p].command@
                != usage_counts.commands_used@[q].command@);
    }
}

proof fn lemma_commands_count_update(s: Seq<CommandCount>, i: int, e: CommandCount, c: Seq<char>)
    requires
        0 <= i < s.len(),
    ensures
        commands_count(s.update(i, e), c) == commands_count(s, c) - command_entry_count(s[i], c)
            + command_entry_count(e, c),
    decreases s.len(),
{
    let su = s.update(i, e);
    if i == s.len() - 1 {
        assert(su.drop_last() =~= s.drop_last());
    } else {
        assert(su.last() == s.last());
        assert(su.drop_last() =~= s.drop_last().update(i, e));
        lemma_commands_count_update(s.drop_last(), i, e, c);
    }
}

proof fn lemma_commands_count_absent(s: Seq<CommandCount>, c: Seq<char>)
    requires
        forall|i: int| 0 <= i < s.len() ==> s[i].command@ != c,
    ensures
        commands_count(s, c) == 0,
    decreases s.len(),
{
    if s.len() > 0 {
        lemma_commands_count_absent(s.drop_last(), c);
    }
}

proof fn lemma_commands_count_found(s: Seq<CommandCount>, i: int)
    requires
        commands_wf(s),
        0 <= i < s.len(),
    ensures
        commands_count(s, s[i].command@) == s[i].count as int,
    decreases s.len(),
{
    if i == s.len() - 1 {
        assert(forall|j: int|
            0 <= j < s.drop_last().len() ==> s.drop_last()[j].command@ != s[i].command@);
        lemma_commands_count_absent(s.drop_last(), s[i].command@);
    } else {
        lemma_commands_count_found(s.drop_last(), i);
    }
}

/// How many of the references in `refs` name `m`.
pub open spec fn occurrences(refs: Seq<Seq<char>>, m: Seq<char>) -> int
    decreases refs.len(),
{
    if refs.len() == 0 {
        0
    } else {
        occurrences(refs.drop_last(), m) + (if refs.last() == m { 1int } else { 0int })
    }
}

/// The number of occurrences is the reference sequence's multiset count.
proof fn lemma_occurrences_is_multiset_count(refs: Seq<Seq<char>>, m: Seq<char>)
    ensures
        occurrences(refs, m) == refs.to_multiset().count(m),
    decreases refs.len(),
{
    broadcast use vstd::multiset::group_multiset_axioms;

    if refs.len() == 0 {
        assert(refs.to_multiset() =~= Multiset::empty());
    } else {
        lemma_occurrences_is_multiset_count(refs.drop_last(), m);
        assert(refs =~= refs.drop_last().push(refs.last()));
    }
}

/// Usage counting is order-independent: two compilation orders that make the
/// same references, each the same number of times, record the same count for
/// every model. Together with `count_model`'s contract — each reference adds
/// exactly one — a request tree referencing a model `n` times always ends
/// with that model's count grown by exactly `n`, whatever the order.
pub proof fn lemma_occurrences_order_independent(
    refs1: Seq<Seq<char>>,
    refs2: Seq<Seq<char>>,
    m: Seq<char>,
)
    requires
        refs1.to_multiset() == refs2.to_multiset(),
    ensures
        occurrences(refs1, m) == occurrences(refs2, m),
{
    lemma_occurrences_is_multiset_count(refs1, m);
    lemma_occurrences_is_multiset_count(refs2, m);
}

/// Records one reference for each name in order: every model's count grows
/// by exactly its number of occurrences in `model_names`.
#[verifier::loop_isolation(false)]
pub fn count_models(model_names: &Vec<String>, usage_counts: &mut UsagesCounts)
    requires
        old(usage_counts).wf(),
        forall|m: Seq<char>|
            old(usage_counts).model_count(m)
                + occurrences(model_names@.map_values(|s: String| s@), m) < u64::MAX,
    ensures
        final(usage_counts).wf(),
        forall|m: Seq<char>|
            #[trigger] final(usage_counts).model_count(m) == old(usage_counts).model_count(m)
                + occurrences(model_names@.map_values(|s: String| s@), m),
        final(usage_counts).commands_used@ == old(usage_counts).commands_used@,
{
    let ghost all = model_names@.map_values(|s: String| s@);
    let ghost c0 = *usage_counts;
    let mut i: usize = 0;
    while i < model_names.len()
        invariant
            i <= model_names.len(),
            all == model_names@.map_values(|s: String| s@),
            usage_counts.wf(),
            forall|m: Seq<char>|
                #[trigger] usage_counts.model_count(m) == c0.model_count(m)
                    + occurrences(all.subrange(0, i as int), m),
            forall|m: Seq<char>| c0.model_count(m) + occurrences(all, m) < u64::MAX,
            usage_counts.commands_used@ == c0.commands_used@,
        decreases model_names.len() - i,
    {
        proof {
            lemma_occurrences_prefix_bound(all, i as int, model_names@[i as int]@);
        }
        count_model(&model_names[i], usage_counts);
        i = i + 1;
        proof {
            assert forall|m: Seq<char>|
                #[trigger] usage_counts.model_count(m) == c0.model_count(m)
                    + occurrences(all.subrange(0, i as int), m) by {
                assert(all.subrange(0, i as int).drop_last() =~= all.subrange(0, i as int - 1));
            }
        }
    }
    proof {
        assert(all.subrange(0, model_names@.len() as int) =~= all);
    }
}

/// Occurrences over a prefix never exceed occurrences over the whole
/// sequence, and the element at the prefix end contributes one more.
proof fn lemma_occurrences_prefix_bound(refs: Seq<Seq<char>>, i: int, m: Seq<char>)
    requires
        0 <= i < refs.len(),
        refs[i] == m,
    ensures
        occurrences(refs.subrange(0, i), m) + 1 <= occurrences(refs, m),
    decreases refs.len(),
{
    if i == refs.len() - 1 {
        assert(refs.subrange(0, i) =~= refs.drop_last());
        lemma_occurrences_nonneg(refs.drop_last(), m);
        assert(occurrences(refs, m) == occurrences(refs.drop_last(), m) + 1);
    } else {
        assert(refs.drop_last()[i] == m);
        lemma_occurrences_prefix_bound(refs.drop_last(), i, m);
        assert(refs.drop_last().subrange(0, i) =~= refs.subrange(0, i));
        assert(occurrences(refs, m) >= occurrences(refs.drop_last(), m));
    }
}

/// An occurrence count is never negative.
proof fn lemma_occurrences_nonneg(refs: Seq<Seq<char>>, m: Seq<char>)
    ensures
        occurrences(refs, m) >= 0,
    decreases refs.len(),
{
    if refs.len() > 0 {
        lemma_occurrences_nonneg(refs.drop_last(), m);
    }
}

} // verus!
