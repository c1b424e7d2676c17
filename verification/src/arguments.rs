//! The argument map: an ordered mapping from connector-level argument name
//! to resolved value, with unique keys, built by resolving the client's
//! model arguments and then merging the server's preset bindings over them.
//!
//! No key is ever silently overwritten. A collision between two
//! independently declared arguments is a hard error; a preset landing on a
//! user-supplied key is the one deliberate override point — server policy is
//! authoritative there, so the preset's value replaces the user's without
//! raising a conflict.

use vstd::prelude::*;
use vstd::pervasive::VecAdditionalExecFns;
use crate::error::Error;
use crate::model::{ArgumentMapping, HeaderPreset, ModelSource, lookup_mapping};
use crate::permissions::{
    ArgumentPreset, RequestHeaders, SessionVariables, lookup_pair, spec_resolve_value_expression,
    resolve_value_expression,
};
use crate::types::Value;
use crate::usage::UsagesCounts;

verus! {

/// One resolved connector-level argument.
#[derive(Debug, PartialEq, Eq)]
pub struct Argument {
    pub name: String,
    pub value: Value,
}

/// The ordered argument map. Entries keep insertion order; well-formedness
/// is key uniqueness.
#[derive(Debug, PartialEq, Eq)]
pub struct ArgumentMap {
    pub entries: Vec<Argument>,
}

/// Key uniqueness: no argument name occurs twice.
pub open spec fn arguments_wf(s: Seq<Argument>) -> bool {
    forall|i: int, j: int| 0 <= i < j < s.len() ==> s[i].name@ != s[j].name@
}

/// First-match lookup of an argument's value.
pub open spec fn lookup_argument(s: Seq<Argument>, name: Seq<char>) -> Option<Value>
    decreases s.len(),
{
    if s.len() == 0 {
        None
    } else if s.first().name@ == name {
        Some(s.first().value)
    } else {
        lookup_argument(s.drop_first(), name)
    }
}

/// Some entry bears this name.
pub open spec fn contains_argument_name(s: Seq<Argument>, name: Seq<char>) -> bool {
    exists|i: int| 0 <= i < s.len() && s[i].name@ == name
}

/// Inserting `name` with `value`: the first entry bearing `name` keeps its
/// place with the new value; with no such entry the argument is appended.
pub open spec fn spec_upsert(s: Seq<Argument>, name: String, value: Value) -> Seq<Argument>
    decreases s.len(),
{
    if s.len() == 0 {
        seq![Argument { name, value }]
    } else if s.first().name@ == name@ {
        seq![Argument { name: s.first().name, value }] + s.drop_first()
    } else {
        seq![s.first()] + spec_upsert(s.drop_first(), name, value)
    }
}

/// With no entry named `name`, the upsert is exactly an append.
pub proof fn lemma_upsert_absent(s: Seq<Argument>, name: String, value: Value)
    requires
        !contains_argument_name(s, name@),
    ensures
        spec_upsert(s, name, value) =~= s.push(Argument { name, value }),
    decreases s.len(),
{
    if s.len() == 0 {
    } else {
        assert(s[0].name@ != name@);
        assert(forall|i: int| 0 <= i < s.drop_first().len() ==> s.drop_first()[i] == s[i + 1]);
        assert(!contains_argument_name(s.drop_first(), name@));
        lemma_upsert_absent(s.drop_first(), name, value);
    }
}

/// With the first entry named `name` at `i`, the upsert is exactly an
/// in-place replacement of that entry's value.
pub proof fn lemma_upsert_found(s: Seq<Argument>, i: int, name: String, value: Value)
    requires
        0 <= i < s.len(),
        s[i].name@ == name@,
        forall|j: int| 0 <= j < i ==> s[j].name@ != name@,
    ensures
        spec_upsert(s, name, value) =~= s.update(i, Argument { name: s[i].name, value }),
    decreases s.len(),
{
    if i == 0 {
        assert(s.first().name@ == name@);
        assert(seq![Argument { name: s.first().name, value }] + s.drop_first() =~= s.update(
            0,
            Argument { name: s[0].name, value },
        ));
    } else {
        assert(s.first().name@ != name@);
        assert(forall|j: int| 0 <= j < s.drop_first().len() ==> s.drop_first()[j] == s[j + 1]);
        lemma_upsert_found(s.drop_first(), i - 1, name, value);
        assert(seq![s.first()] + s.drop_first().update(
            i - 1,
            Argument { name: s.drop_first()[i - 1].name, value },
        ) =~= s.update(i, Argument { name: s[i].name, value }));
    }
}

/// The upsert's effect on well-formedness and on every lookup: uniqueness is
/// preserved, the inserted name now maps to the inserted value, and every
/// other name maps as before.
pub proof fn lemma_upsert_properties(s: Seq<Argument>, name: String, value: Value)
    requires
        arguments_wf(s),
    ensures
        arguments_wf(spec_upsert(s, name, value)),
        lookup_argument(spec_upsert(s, name, value), name@) == Some(value),
        forall|n: Seq<char>|
            n != name@ ==> lookup_argument(spec_upsert(s, name, value), n) == lookup_argument(s, n),
        contains_argument_name(s, name@) ==> spec_upsert(s, name, value).len() == s.len(),
        !contains_argument_name(s, name@) ==> spec_upsert(s, name, value) =~= s.push(
            Argument { name, value },
        ),
        forall|i: int|
            0 <= i < s.len() ==> (#[trigger] spec_upsert(s, name, value)[i]).name@ == s[i].name@,
    decreases s.len(),
{
    let su = spec_upsert(s, name, value);
    if s.len() == 0 {
        assert(su.first() == Argument { name, value });
        assert(su.drop_first() =~= Seq::<Argument>::empty());
        assert forall|n: Seq<char>| n != name@ implies lookup_argument(su, n) == lookup_argument(
            s,
            n,
        ) by {
            assert(lookup_argument(su.drop_first(), n) is None);
        }
    } else if s.first().name@ == name@ {
        assert(su =~= s.update(0, Argument { name: s[0].name, value })) by {
            lemma_upsert_found(s, 0, name, value);
        }
        assert(lookup_argument(su, name@) == Some(value));
        assert forall|n: Seq<char>| n != name@ implies lookup_argument(su, n) == lookup_argument(
            s,
            n,
        ) by {
            assert(su.drop_first() =~= s.drop_first());
        }
        assert(contains_argument_name(s, name@)) by {
            assert(s[0].name@ == name@);
        }
    } else {
        lemma_upsert_properties(s.drop_first(), name, value);
        let rest = s.drop_first();
        let ru = spec_upsert(rest, name, value);
        assert(su =~= seq![s.first()] + ru);
        assert(forall|i: int| 0 <= i < rest.len() ==> rest[i] == s[i + 1]);
        assert(su.first() == s.first());
        assert(su.drop_first() =~= ru);
        // uniqueness: the head's name differs from every name in the tail
        assert forall|i: int, j: int| 0 <= i < j < su.len() implies su[i].name@ != su[j].name@ by {
            if i == 0 {
                if j - 1 < rest.len() {
                    assert(ru[j - 1].name@ == rest[j - 1].name@ || ru[j - 1].name@ == name@);
                } else {
                    assert(ru[j - 1].name@ == name@);
                }
                if contains_argument_name(rest, name@) {
                    let k = choose|k: int| 0 <= k < rest.len() && rest[k].name@ == name@;
                    assert(s[k + 1].name@ == name@);
                    assert(s[0].name@ != name@);
                } else {
                    assert(ru =~= rest.push(Argument { name, value }));
                }
            } else {
                assert(su[i] == ru[i - 1]);
                assert(su[j] == ru[j - 1]);
                assert(arguments_wf(ru));
            }
        }
        // lookups go through the unchanged head
        assert(lookup_argument(su, name@) == lookup_argument(ru, name@));
        assert forall|n: Seq<char>| n != name@ implies lookup_argument(su, n) == lookup_argument(
            s,
            n,
        ) by {
            if s.first().name@ != n {
                assert(lookup_argument(su, n) == lookup_argument(ru, n));
                assert(lookup_argument(s, n) == lookup_argument(rest, n));
            }
        }
        if contains_argument_name(s, name@) {
            let k = choose|k: int| 0 <= k < s.len() && s[k].name@ == name@;
            assert(rest[k - 1] == s[k]);
            assert(contains_argument_name(rest, name@));
        }
        if !contains_argument_name(s, name@) {
            assert(!contains_argument_name(rest, name@)) by {
                if contains_argument_name(rest, name@) {
                    let k = choose|k: int| 0 <= k < rest.len() && rest[k].name@ == name@;
                    assert(s[k + 1].name@ == name@);
                }
            }
            assert(ru =~= rest.push(Argument { name, value }));
            assert(su =~= s.push(Argument { name, value }));
        }
    }
}

impl ArgumentMap {
    /// Key uniqueness.
    pub open spec fn wf(self) -> bool {
        arguments_wf(self.entries@)
    }

    /// The value bound to a connector-level argument name, if any.
    pub open spec fn spec_lookup(self, name: Seq<char>) -> Option<Value> {
        lookup_argument(self.entries@, name)
    }

    /// An empty argument map.
    pub fn new() -> (res: ArgumentMap)
        ensures
            res.entries@.len() == 0,
            res.wf(),
    {
        ArgumentMap { entries: Vec::new() }
    }

    /// Whether the map already binds this name.
    #[verifier::loop_isolation(false)]
    pub fn contains_argument(&self, name: &String) -> (res: bool)
        ensures
            res == contains_argument_name(self.entries@, name@),
    {
        let mut i: usize = 0;
        while i < self.entries.len()
            invariant
                i <= self.entries@.len(),
                forall|j: int| 0 <= j < i ==> self.entries@[j].name@ != name@,
            decreases self.entries@.len() - i,
        {
            if self.entries[i].name.eq(name) {
                return true;
            }
            i = i + 1;
        }
        false
    }

    /// Appends a fresh binding; the name must not be bound yet.
    pub fn insert(&mut self, name: String, value: Value)
        requires
            !contains_argument_name(old(self).entries@, name@),
        ensures
            final(self).entries@ == old(self).entries@.push(Argument { name, value }),
    {
        self.entries.push(Argument { name, value });
    }

    /// Binds `name` to `value`, replacing in place the value of an existing
    /// binding and appending otherwise.
    #[verifier::loop_isolation(false)]
    pub fn upsert(&mut self, name: String, value: Value)
        ensures
            final(self).entries@ == spec_upsert(old(self).entries@, name, value),
    {
        let ghost s0 = self.entries@;
        let mut i: usize = 0;
        while i < self.entries.len()
            invariant
                self.entries@ == s0,
                i <= s0.len(),
                forall|j: int| 0 <= j < i ==> s0[j].name@ != name@,
            decreases s0.len() - i,
        {
            if self.entries[i].name.eq(&name) {
                let stored_name = self.entries[i].name.clone();
                self.entries.set(i, Argument { name: stored_name, value });
                proof {
                    lemma_upsert_found(s0, i as int, name, value);
                }
                return ;
            }
            i = i + 1;
        }
        proof {
            if contains_argument_name(s0, name@) {
                let k = choose|k: int| 0 <= k < s0.len() && s0[k].name@ == name@;
                assert(false);
            }
            lemma_upsert_absent(s0, name, value);
        }
        self.entries.push(Argument { name, value });
    }
}

/// Resolves one classified model argument to its connector-level name and
/// value. The value-resolution collaborator may record models referenced
/// from inside argument values; the plain scalar values this compiler
/// carries reference none, so the usage counts pass through unchanged.
pub fn build_ndc_argument_as_value(
    field_call_name: &String,
    argument: &crate::request::ArgumentValue,
    model_source: &ModelSource,
    session_variables: &SessionVariables,
    usage_counts: &mut UsagesCounts,
) -> (res: Result<(String, Value), Error>)
    ensures
        *final(usage_counts) == *old(usage_counts),
        match lookup_mapping(model_source.argument_mappings@, argument.name@) {
            Some(ndc) => res matches Ok(p) && p.0 == ndc && p.1 == argument.value,
            None => res == Err::<(String, Value), Error>(
                Error::ArgumentMappingNotFound { argument_name: argument.name },
            ),
        },
{
    match model_source.connector_argument_name(&argument.name) {
        Some(ndc_name) => Ok((ndc_name, argument.value.clone())),
        None => Err(Error::ArgumentMappingNotFound { argument_name: argument.name.clone() }),
    }
}

/// The fold of one preset over an argument map: its logical name must map to
/// a connector name and its value must resolve; the binding then lands by
/// upsert, overriding any user-supplied value of the same name.
pub open spec fn spec_apply_preset(
    entries: Seq<Argument>,
    p: ArgumentPreset,
    mappings: Seq<ArgumentMapping>,
    session: Seq<(String, String)>,
) -> Result<Seq<Argument>, Error> {
    match lookup_mapping(mappings, p.argument_name@) {
        None => Err(Error::ArgumentMappingNotFound { argument_name: p.argument_name }),
        Some(ndc) => match spec_resolve_value_expression(p.value, session) {
            Err(e) => Err(e),
            Ok(v) => Ok(spec_upsert(entries, ndc, v)),
        },
    }
}

/// The fold of a role's presets, in order, over an argument map.
pub open spec fn spec_apply_presets(
    entries: Seq<Argument>,
    presets: Seq<ArgumentPreset>,
    mappings: Seq<ArgumentMapping>,
    session: Seq<(String, String)>,
) -> Result<Seq<Argument>, Error>
    decreases presets.len(),
{
    if presets.len() == 0 {
        Ok(entries)
    } else {
        match spec_apply_presets(entries, presets.drop_last(), mappings, session) {
            Err(e) => Err(e),
            Ok(cur) => spec_apply_preset(cur, presets.last(), mappings, session),
        }
    }
}

/// The fold of the connector-link header presets: each header the request
/// carries lands as a string-valued argument; an absent header binds
/// nothing.
pub open spec fn spec_apply_header_presets(
    entries: Seq<Argument>,
    hps: Seq<HeaderPreset>,
    headers: Seq<(String, String)>,
) -> Seq<Argument>
    decreases hps.len(),
{
    if hps.len() == 0 {
        entries
    } else {
        let prev = spec_apply_header_presets(entries, hps.drop_last(), headers);
        match lookup_pair(headers, hps.last().header_name@) {
            None => prev,
            Some(w) => spec_upsert(prev, hps.last().argument_name, Value::Str(w)),
        }
    }
}

/// A failed preset fold stays failed however many further presets follow.
proof fn lemma_apply_presets_err_extends(
    entries: Seq<Argument>,
    presets: Seq<ArgumentPreset>,
    mappings: Seq<ArgumentMapping>,
    session: Seq<(String, String)>,
    k: int,
)
    requires
        0 <= k <= presets.len(),
        spec_apply_presets(entries, presets.subrange(0, k), mappings, session) is Err,
    ensures
        spec_apply_presets(entries, presets, mappings, session) == spec_apply_presets(
            entries,
            presets.subrange(0, k),
            mappings,
            session,
        ),
    decreases presets.len() - k,
{
    if k == presets.len() {
        assert(presets.subrange(0, k) =~= presets);
    } else {
        assert(presets.subrange(0, k + 1).drop_last() =~= presets.subrange(0, k));
        lemma_apply_presets_err_extends(entries, presets, mappings, session, k + 1);
    }
}

/// A successful preset fold preserves key uniqueness.
pub proof fn lemma_apply_presets_wf(
    entries: Seq<Argument>,
    presets: Seq<ArgumentPreset>,
    mappings: Seq<ArgumentMapping>,
    session: Seq<(String, String)>,
)
    requires
        arguments_wf(entries),
        spec_apply_presets(entries, presets, mappings, session) is Ok,
    ensures
        arguments_wf(spec_apply_presets(entries, presets, mappings, session)->Ok_0),
    decreases presets.len(),
{
    if presets.len() > 0 {
        lemma_apply_presets_wf(entries, presets.drop_last(), mappings, session);
        let cur = spec_apply_presets(entries, presets.drop_last(), mappings, session)->Ok_0;
        let p = presets.last();
        let ndc = lookup_mapping(mappings, p.argument_name@)->Some_0;
        let v = spec_resolve_value_expression(p.value, session)->Ok_0;
        lemma_upsert_properties(cur, ndc, v);
    }
}

/// A header-preset fold preserves key uniqueness.
pub proof fn lemma_apply_header_presets_wf(
    entries: Seq<Argument>,
    hps: Seq<HeaderPreset>,
    headers: Seq<(String, String)>,
)
    requires
        arguments_wf(entries),
    ensures
        arguments_wf(spec_apply_header_presets(entries, hps, headers)),
    decreases hps.len(),
{
    if hps.len() > 0 {
        lemma_apply_header_presets_wf(entries, hps.drop_last(), headers);
        let prev = spec_apply_header_presets(entries, hps.drop_last(), headers);
        match lookup_pair(headers, hps.last().header_name@) {
            None => {},
            Some(w) => {
                lemma_upsert_properties(prev, hps.last().argument_name, Value::Str(w));
            },
        }
    }
}

/// Merges the role's preset bindings, then the connector-link header
/// bindings, over the user-resolved argument map. Presets are authoritative:
/// a preset landing on a user-supplied name replaces that value and raises
/// no conflict. The usage counts pass through unchanged: preset values hold
/// no model references.
#[verifier::loop_isolation(false)]
pub fn process_argument_presets(
    model_source: &ModelSource,
    argument_presets: &Vec<ArgumentPreset>,
    session_variables: &SessionVariables,
    request_headers: &RequestHeaders,
    model_arguments: ArgumentMap,
    usage_counts: &mut UsagesCounts,
) -> (res: Result<ArgumentMap, Error>)
    ensures
        *final(usage_counts) == *old(usage_counts),
        match spec_apply_presets(
            model_arguments.entries@,
            argument_presets@,
            model_source.argument_mappings@,
            session_variables.vars@,
        ) {
            Err(e) => res == Err::<ArgumentMap, Error>(e),
            Ok(es) => res matches Ok(m) && m.entries@ == spec_apply_header_presets(
                es,
                model_source.data_connector_link_argument_presets@,
                request_headers.headers@,
            ),
        },
{
    let ghost e0 = model_arguments.entries@;
    let ghost mappings = model_source.argument_mappings@;
    let ghost session = session_variables.vars@;
    let mut merged = model_arguments;
    let mut i: usize = 0;
    proof {
        assert(argument_presets@.subrange(0, 0) =~= Seq::<ArgumentPreset>::empty());
    }
    while i < argument_presets.len()
        invariant
            i <= argument_presets@.len(),
            spec_apply_presets(e0, argument_presets@.subrange(0, i as int), mappings, session)
                == Ok::<Seq<Argument>, Error>(merged.entries@),
            *usage_counts == *old(usage_counts),
        decreases argument_presets@.len() - i,
    {
        let preset = &argument_presets[i];
        proof {
            assert(argument_presets@.subrange(0, i as int + 1).drop_last() =~= argument_presets@
                .subrange(0, i as int));
            assert(argument_presets@.subrange(0, i as int + 1).last() == argument_presets@[i as int]);
        }
        match model_source.connector_argument_name(&preset.argument_name) {
            None => {
                let e = Error::ArgumentMappingNotFound {
                    argument_name: preset.argument_name.clone(),
                };
                proof {
                    lemma_apply_presets_err_extends(e0, argument_presets@, mappings, session, i as int + 1);
                }
                return Err(e);
            },
            Some(ndc_name) => {
                match resolve_value_expression(&preset.value, session_variables) {
                    Err(e) => {
                        proof {
                            lemma_apply_presets_err_extends(
                                e0,
                                argument_presets@,
                                mappings,
                                session,
                                i as int + 1,
                            );
                        }
                        return Err(e);
                    },
                    Ok(v) => {
                        merged.upsert(ndc_name, v);
                    },
                }
            },
        }
        i = i + 1;
    }
    proof {
        assert(argument_presets@.subrange(0, argument_presets@.len() as int) =~= argument_presets@);
    }
    let ghost after_presets = merged.entries@;
    let header_presets = &model_source.data_connector_link_argument_presets;
    let mut i: usize = 0;
    proof {
        assert(header_presets@.subrange(0, 0) =~= Seq::<HeaderPreset>::empty());
    }
    while i < header_presets.len()
        invariant
            i <= header_presets@.len(),
            spec_apply_header_presets(
                after_presets,
                header_presets@.subrange(0, i as int),
                request_headers.headers@,
            ) == merged.entries@,
            *usage_counts == *old(usage_counts),
        decreases header_presets@.len() - i,
    {
        let hp = &header_presets[i];
        proof {
            assert(header_presets@.subrange(0, i as int + 1).drop_last() =~= header_presets@
                .subrange(0, i as int));
            assert(header_presets@.subrange(0, i as int + 1).last() == header_presets@[i as int]);
        }
        match request_headers.get(&hp.header_name) {
            None => {},
            Some(w) => {
                let arg_name = hp.argument_name.clone();
                merged.upsert(arg_name, Value::Str(w));
            },
        }
        i = i + 1;
    }
    proof {
        assert(header_presets@.subrange(0, header_presets@.len() as int) =~= header_presets@);
    }
    Ok(merged)
}

/// Preset precedence: for an argument map holding a user-supplied value and
/// a preset naming the same argument, applying the preset always succeeds —
/// this collision is the deliberate override point, never a conflict error —
/// and the merged map binds the name to the preset's resolved value, every
/// other binding unchanged and every user entry keeping its place.
pub proof fn lemma_preset_precedence(
    entries: Seq<Argument>,
    p: ArgumentPreset,
    mappings: Seq<ArgumentMapping>,
    session: Seq<(String, String)>,
)
    requires
        arguments_wf(entries),
        lookup_mapping(mappings, p.argument_name@) is Some,
        spec_resolve_value_expression(p.value, session) is Ok,
    ensures
        spec_apply_preset(entries, p, mappings, session) is Ok,
        ({
            let ndc = lookup_mapping(mappings, p.argument_name@)->Some_0;
            let v = spec_resolve_value_expression(p.value, session)->Ok_0;
            let es = spec_apply_preset(entries, p, mappings, session)->Ok_0;
            &&& arguments_wf(es)
            &&& lookup_argument(es, ndc@) == Some(v)
            &&& forall|n: Seq<char>| n != ndc@ ==> lookup_argument(es, n) == lookup_argument(entries, n)
            &&& forall|i: int| 0 <= i < entries.len() ==> (#[trigger] es[i]).name@ == entries[i].name@
        }),
{
    let ndc = lookup_mapping(mappings, p.argument_name@)->Some_0;
    let v = spec_resolve_value_expression(p.value, session)->Ok_0;
    lemma_upsert_properties(entries, ndc, v);
}

} // verus!
