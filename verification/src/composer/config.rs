//! The composer's executor settings: which executors, variants, models,
//! reasoning efforts, agent modes and permission modes are offered, in what
//! order, which one is selected, and what cycling through them does.
use vstd::prelude::*;

use crate::app::util::{model_key, ModelInfo, ReasoningOption};
use crate::model::dto::opt_text;
use crate::model::format::{display_permission, permission_label, PermissionPolicy};
use crate::app::util::{default_variant_name, default_variant_to_none};
use crate::sort::{
    insert_position, insert_sorted, lemma_insert_at_position, lemma_sort_by_len, lemma_sort_by_sorted,
    lemma_text_le_antisymmetric, lemma_text_le_total, lemma_text_le_trans, lemma_text_order, sort_by,
    sorted_by, text_le, text_le_chars, total_preorder,
};
use crate::app::util::{fuzzy_contains, fuzzy_match};
use crate::input::keys::{KeyCode, KeyEvent};
use crate::text::{chars_of, lowercase, push_char, push_str, to_lowercase, trim, trim_chars, string_of};

verus! {

/// An agent mode that an executor offers.
#[derive(Debug, Clone, PartialEq, Eq)]
pub struct AgentInfo {
    pub id: String,
    pub label: String,
    pub description: Option<String>,
    pub is_default: bool,
}

/// The composer's executor settings. The executor is named as the backend
/// names it.
#[derive(Debug, Clone, PartialEq, Eq)]
pub struct ComposerConfig {
    pub executor: String,
    pub variant: Option<String>,
    pub model_id: Option<String>,
    pub agent_id: Option<String>,
    pub reasoning_id: Option<String>,
    pub permission_policy: Option<PermissionPolicy>,
}

/// What the executor offers for the composer's settings.
#[derive(Debug, Clone, PartialEq, Eq)]
pub struct DiscoveredOptions {
    pub models: Vec<ModelInfo>,
    pub default_model: Option<String>,
    pub agents: Vec<AgentInfo>,
    pub permissions: Vec<PermissionPolicy>,
}

/// An executor the user has profiles for, with the names of its
/// configurations.
#[derive(Debug, Clone, PartialEq, Eq)]
pub struct ExecutorProfile {
    pub executor: String,
    pub configurations: Vec<String>,
}

/// The texts of strings.
pub open spec fn texts(s: Seq<String>) -> Seq<Seq<char>> {
    s.map_values(|x: String| x@)
}

/// The order executors are offered in: by name.
pub open spec fn name_order() -> spec_fn(Seq<char>, Seq<char>) -> bool {
    |a: Seq<char>, b: Seq<char>| text_le(a, b)
}

/// The variant that stands for "no variant".
pub open spec fn default_variant() -> Seq<char> {
    "DEFAULT"@
}

/// The order variants are offered in: `DEFAULT` first, then by name.
pub open spec fn variant_order() -> spec_fn(Seq<char>, Seq<char>) -> bool {
    |a: Seq<char>, b: Seq<char>| a == default_variant() || (b != default_variant() && text_le(a, b))
}

fn text_le_strings(a: &String, b: &String) -> (r: bool)
    ensures
        r == text_le(a@, b@),
{
    text_le_chars(&chars_of(a.as_str()), &chars_of(b.as_str()))
}

fn variant_le(a: &String, b: &String) -> (r: bool)
    ensures
        r == (variant_order())(a@, b@),
{
    let default_name = String::from_str("DEFAULT");
    proof {
        reveal_strlit("DEFAULT");
    }
    *a == default_name || (*b != default_name && text_le_strings(a, b))
}

fn comes_no_later(a: &String, b: &String, variants: bool) -> (r: bool)
    ensures
        r == (if variants {
            variant_order()
        } else {
            name_order()
        })(a@, b@),
{
    if variants {
        variant_le(a, b)
    } else {
        text_le_strings(a, b)
    }
}

/// Inserts `x` into `sorted` as `insert_sorted` does, by the name order
/// (`variants` false) or the variant order.
fn insert_text(sorted: &mut Vec<String>, x: String, variants: bool)
    ensures
        texts(final(sorted)@) == insert_sorted(
            texts(old(sorted)@),
            x@,
            if variants {
                variant_order()
            } else {
                name_order()
            },
        ),
{
    let ghost le = if variants {
        variant_order()
    } else {
        name_order()
    };
    let ghost ts = texts(sorted@);
    let mut j: usize = sorted.len();
    proof {
        assert(ts.take(j as int) =~= ts);
    }
    while j > 0 && !comes_no_later(&sorted[j - 1], &x, variants)
        invariant
            j <= sorted@.len(),
            ts == texts(sorted@),
            le == (if variants {
                variant_order()
            } else {
                name_order()
            }),
            insert_position(ts, x@, le) == insert_position(ts.take(j as int), x@, le),
        decreases j,
    {
        proof {
            assert(ts.take(j as int).drop_last() =~= ts.take(j - 1));
        }
        j = j - 1;
    }
    proof {
        lemma_insert_at_position(ts, x@, le);
    }
    sorted.insert(j, x);
    proof {
        assert(texts(sorted@) =~= insert_sorted(ts, x@, le));
    }
}

/// Sorts texts: by name (`variants` false) or in the variant order.
fn sort_texts(items: &Vec<String>, variants: bool) -> (r: Vec<String>)
    ensures
        texts(r@) == sort_by(
            texts(items@),
            if variants {
                variant_order()
            } else {
                name_order()
            },
        ),
{
    let ghost le = if variants {
        variant_order()
    } else {
        name_order()
    };
    let mut sorted: Vec<String> = Vec::new();
    let mut i: usize = 0;
    while i < items.len()
        invariant
            i <= items@.len(),
            le == (if variants {
                variant_order()
            } else {
                name_order()
            }),
            texts(sorted@) == sort_by(texts(items@).take(i as int), le),
        decreases items@.len() - i,
    {
        proof {
            assert(texts(items@).take(i + 1).drop_last() =~= texts(items@).take(i as int));
        }
        insert_text(&mut sorted, items[i].clone(), variants);
        i = i + 1;
    }
    proof {
        assert(texts(items@).take(items@.len() as int) =~= texts(items@));
    }
    sorted
}

/// The executors' names.
pub open spec fn executor_names(profiles: Seq<ExecutorProfile>) -> Seq<Seq<char>> {
    profiles.map_values(|p: ExecutorProfile| p.executor@)
}

/// The executors the composer can switch to: those with profiles, by name.
pub fn executor_options(profiles: &Vec<ExecutorProfile>) -> (r: Vec<String>)
    ensures
        texts(r@) == sort_by(executor_names(profiles@), name_order()),
{
    let mut names: Vec<String> = Vec::new();
    let mut i: usize = 0;
    while i < profiles.len()
        invariant
            i <= profiles@.len(),
            texts(names@) == executor_names(profiles@).take(i as int),
        decreases profiles@.len() - i,
    {
        let ghost before = names@;
        names.push(profiles[i].executor.clone());
        proof {
            assert(texts(names@) =~= texts(before).push(profiles@[i as int].executor@));
            assert(executor_names(profiles@).take(i + 1) =~= executor_names(profiles@).take(
                i as int,
            ).push(profiles@[i as int].executor@));
        }
        i = i + 1;
    }
    proof {
        assert(executor_names(profiles@).take(profiles@.len() as int) =~= executor_names(profiles@));
    }
    sort_texts(&names, false)
}

/// The first profile from index `i` on for `executor`.
pub open spec fn profile_index(profiles: Seq<ExecutorProfile>, executor: Seq<char>, i: int) -> Option<int>
    decreases profiles.len() - i,
{
    if i < 0 || i >= profiles.len() {
        None
    } else if profiles[i].executor@ == executor {
        Some(i)
    } else {
        profile_index(profiles, executor, i + 1)
    }
}

/// The configuration names that are variants: all but the record of
/// recently used models.
pub open spec fn variant_names(keys: Seq<Seq<char>>) -> Seq<Seq<char>>
    decreases keys.len(),
{
    if keys.len() == 0 {
        Seq::empty()
    } else if keys.last() == "recently_used_models"@ {
        variant_names(keys.drop_last())
    } else {
        variant_names(keys.drop_last()).push(keys.last())
    }
}

/// The variants offered for an executor: its configurations in the variant
/// order, or just `DEFAULT` when it has none or no profile.
pub open spec fn variant_list(profiles: Seq<ExecutorProfile>, executor: Seq<char>) -> Seq<Seq<char>> {
    match profile_index(profiles, executor, 0) {
        None => seq![default_variant()],
        Some(k) => {
            let sorted = sort_by(variant_names(texts(profiles[k].configurations@)), variant_order());
            if sorted.len() == 0 {
                seq![default_variant()]
            } else {
                sorted
            }
        },
    }
}

fn find_profile(profiles: &Vec<ExecutorProfile>, executor: &String) -> (r: Option<usize>)
    ensures
        match r {
            Some(k) => profile_index(profiles@, executor@, 0) == Some(k as int) && k < profiles@.len(),
            None => profile_index(profiles@, executor@, 0) is None,
        },
{
    let mut i: usize = 0;
    while i < profiles.len()
        invariant
            i <= profiles@.len(),
            profile_index(profiles@, executor@, 0) == profile_index(profiles@, executor@, i as int),
        decreases profiles@.len() - i,
    {
        if profiles[i].executor == *executor {
            return Some(i);
        }
        i = i + 1;
    }
    None
}

fn default_variant_list() -> (r: Vec<String>)
    ensures
        texts(r@) == seq![default_variant()],
{
    let r = vec![String::from_str("DEFAULT")];
    proof {
        assert(texts(r@) =~= seq![default_variant()]);
    }
    r
}

/// The variants offered for an executor.
pub fn variant_options(profiles: &Vec<ExecutorProfile>, executor: &String) -> (r: Vec<String>)
    ensures
        texts(r@) == variant_list(profiles@, executor@),
{
    let k = match find_profile(profiles, executor) {
        None => {
            return default_variant_list();
        },
        Some(k) => k,
    };
    let keys = &profiles[k].configurations;
    let recent = String::from_str("recently_used_models");
    let mut names: Vec<String> = Vec::new();
    let mut i: usize = 0;
    while i < keys.len()
        invariant
            i <= keys@.len(),
            recent@ == "recently_used_models"@,
            texts(names@) == variant_names(texts(keys@).take(i as int)),
        decreases keys@.len() - i,
    {
        proof {
            assert(texts(keys@).take(i + 1).drop_last() =~= texts(keys@).take(i as int));
        }
        if keys[i] != recent {
            let ghost before = names@;
            names.push(keys[i].clone());
            proof {
                assert(texts(names@) =~= texts(before).push(keys@[i as int]@));
            }
        }
        i = i + 1;
    }
    proof {
        assert(texts(keys@).take(keys@.len() as int) =~= texts(keys@));
    }
    let sorted = sort_texts(&names, true);
    if sorted.len() == 0 {
        default_variant_list()
    } else {
        sorted
    }
}

/// The key a model is selected by: `provider/id`, or its id alone.
pub open spec fn key_of(m: ModelInfo) -> Seq<char> {
    match m.provider_id {
        Some(p) => p@ + seq!['/'] + m.id@,
        None => m.id@,
    }
}

/// The model selected: the config's own choice, else the executor's
/// default model.
pub open spec fn selected_model(config: Option<ComposerConfig>, options: Option<DiscoveredOptions>) -> Option<Seq<char>> {
    let chosen = match config {
        Some(c) => opt_text(c.model_id),
        None => None,
    };
    if chosen is Some {
        chosen
    } else {
        match options {
            Some(o) => opt_text(o.default_model),
            None => None,
        }
    }
}

/// The first model from index `i` on whose key is `key`.
pub open spec fn model_index(models: Seq<ModelInfo>, key: Seq<char>, i: int) -> Option<int>
    decreases models.len() - i,
{
    if i < 0 || i >= models.len() {
        None
    } else if key_of(models[i]) == key {
        Some(i)
    } else {
        model_index(models, key, i + 1)
    }
}

/// The selected model's entry among the offered models, if it is offered.
pub open spec fn selected_model_entry(config: Option<ComposerConfig>, options: Option<DiscoveredOptions>) -> Option<ModelInfo> {
    match (selected_model(config, options), options) {
        (Some(key), Some(o)) => match model_index(o.models@, key, 0) {
            Some(k) => Some(o.models@[k]),
            None => None,
        },
        _ => None,
    }
}

fn copy_opt(s: &Option<String>) -> (r: Option<String>)
    ensures
        r == *s,
{
    match s {
        Some(t) => Some(t.clone()),
        None => None,
    }
}

/// The model selected.
pub fn selected_model_value(config: &Option<ComposerConfig>, options: &Option<DiscoveredOptions>) -> (r: Option<String>)
    ensures
        opt_text(r) == selected_model(*config, *options),
{
    let chosen = match config {
        Some(c) => copy_opt(&c.model_id),
        None => None,
    };
    if chosen.is_some() {
        chosen
    } else {
        match options {
            Some(o) => copy_opt(&o.default_model),
            None => None,
        }
    }
}

proof fn lemma_model_index_found(models: Seq<ModelInfo>, key: Seq<char>, i: int)
    ensures
        model_index(models, key, i) matches Some(k) ==> i <= k < models.len() && key_of(models[k])
            == key,
    decreases models.len() - i,
{
    if 0 <= i < models.len() && key_of(models[i]) != key {
        lemma_model_index_found(models, key, i + 1);
    }
}

fn find_model(models: &Vec<ModelInfo>, key: &String) -> (r: Option<usize>)
    ensures
        match r {
            Some(k) => model_index(models@, key@, 0) == Some(k as int) && k < models@.len()
                && key_of(models@[k as int]) == key@,
            None => model_index(models@, key@, 0) is None,
        },
{
    let mut i: usize = 0;
    while i < models.len()
        invariant
            i <= models@.len(),
            model_index(models@, key@, 0) == model_index(models@, key@, i as int),
        decreases models@.len() - i,
    {
        let k = model_key(&models[i]);
        if k == *key {
            proof {
                lemma_model_index_found(models@, key@, 0);
            }
            return Some(i);
        }
        i = i + 1;
    }
    None
}

fn selected_model_index(config: &Option<ComposerConfig>, options: &Option<DiscoveredOptions>) -> (r: Option<usize>)
    ensures
        match r {
            Some(k) => options is Some && k < options->0.models@.len() && selected_model_entry(
                *config,
                *options,
            ) == Some(options->0.models@[k as int]),
            None => selected_model_entry(*config, *options) is None,
        },
{
    let selected = match selected_model_value(config, options) {
        Some(s) => s,
        None => {
            return None;
        },
    };
    match options {
        Some(o) => find_model(&o.models, &selected),
        None => None,
    }
}

/// The label of the selected model: its `provider/id`, which is the key it
/// is selected by.
pub fn selected_model_label(config: &Option<ComposerConfig>, options: &Option<DiscoveredOptions>) -> (r: Option<String>)
    ensures
        opt_text(r) == selected_model(*config, *options),
{
    let selected = match selected_model_value(config, options) {
        Some(s) => s,
        None => {
            return None;
        },
    };
    match options {
        Some(o) => match find_model(&o.models, &selected) {
            Some(k) => Some(model_key(&o.models[k])),
            None => Some(selected),
        },
        None => Some(selected),
    }
}

/// The ids of reasoning options.
pub open spec fn reasoning_ids(opts: Seq<ReasoningOption>) -> Seq<Seq<char>> {
    opts.map_values(|o: ReasoningOption| o.id@)
}

/// The reasoning efforts offered: those of the selected model, when it is
/// offered.
pub open spec fn reasoning_list(config: Option<ComposerConfig>, options: Option<DiscoveredOptions>) -> Seq<Seq<char>> {
    match selected_model_entry(config, options) {
        Some(m) => reasoning_ids(m.reasoning_options@),
        None => Seq::empty(),
    }
}

/// The reasoning efforts offered.
pub fn reasoning_options(config: &Option<ComposerConfig>, options: &Option<DiscoveredOptions>) -> (r: Vec<String>)
    ensures
        texts(r@) == reasoning_list(*config, *options),
{
    let mut ids: Vec<String> = Vec::new();
    match selected_model_index(config, options) {
        None => {
            proof {
                assert(texts(ids@) =~= Seq::<Seq<char>>::empty());
            }
            ids
        },
        Some(k) => {
            let opts = &options.as_ref().unwrap().models[k].reasoning_options;
            let mut i: usize = 0;
            while i < opts.len()
                invariant
                    i <= opts@.len(),
                    texts(ids@) == reasoning_ids(opts@).take(i as int),
                decreases opts@.len() - i,
            {
                let ghost before = ids@;
                ids.push(opts[i].id.clone());
                proof {
                    assert(texts(ids@) =~= texts(before).push(opts@[i as int].id@));
                    assert(reasoning_ids(opts@).take(i + 1) =~= reasoning_ids(opts@).take(
                        i as int,
                    ).push(opts@[i as int].id@));
                }
                i = i + 1;
            }
            proof {
                assert(reasoning_ids(opts@).take(opts@.len() as int) =~= reasoning_ids(opts@));
            }
            ids
        },
    }
}

/// The first reasoning option from index `i` on marked as the default.
pub open spec fn default_reasoning(opts: Seq<ReasoningOption>, i: int) -> Option<int>
    decreases opts.len() - i,
{
    if i < 0 || i >= opts.len() {
        None
    } else if opts[i].is_default {
        Some(i)
    } else {
        default_reasoning(opts, i + 1)
    }
}

/// The reasoning effort shown as selected: the config's own choice, else
/// the selected model's default effort.
pub open spec fn selected_reasoning(config: Option<ComposerConfig>, options: Option<DiscoveredOptions>) -> Option<Seq<char>> {
    let chosen = match config {
        Some(c) => opt_text(c.reasoning_id),
        None => None,
    };
    if chosen is Some {
        chosen
    } else {
        match selected_model_entry(config, options) {
            Some(m) => match default_reasoning(m.reasoning_options@, 0) {
                Some(k) => Some(m.reasoning_options@[k].id@),
                None => None,
            },
            None => None,
        }
    }
}

/// The reasoning effort shown as selected.
pub fn selected_reasoning_label(config: &Option<ComposerConfig>, options: &Option<DiscoveredOptions>) -> (r: Option<String>)
    ensures
        opt_text(r) == selected_reasoning(*config, *options),
{
    let chosen = match config {
        Some(c) => copy_opt(&c.reasoning_id),
        None => None,
    };
    if chosen.is_some() {
        return chosen;
    }
    let k = match selected_model_index(config, options) {
        Some(k) => k,
        None => {
            return None;
        },
    };
    let opts = &options.as_ref().unwrap().models[k].reasoning_options;
    let ghost wanted = selected_reasoning(*config, *options);
    assert(wanted == match default_reasoning(opts@, 0) {
        Some(j) => Some(opts@[j].id@),
        None => None,
    });
    let mut i: usize = 0;
    while i < opts.len()
        invariant
            i <= opts@.len(),
            wanted == selected_reasoning(*config, *options),
            wanted == match default_reasoning(opts@, 0) {
                Some(j) => Some(opts@[j].id@),
                None => None,
            },
            default_reasoning(opts@, 0) == default_reasoning(opts@, i as int),
        decreases opts@.len() - i,
    {
        if opts[i].is_default {
            return Some(opts[i].id.clone());
        }
        i = i + 1;
    }
    None
}

impl AgentInfo {
    /// A copy of the agent mode.
    pub fn copy_agent(&self) -> (r: AgentInfo)
        ensures
            r == *self,
    {
        AgentInfo {
            id: self.id.clone(),
            label: self.label.clone(),
            description: copy_opt(&self.description),
            is_default: self.is_default,
        }
    }
}

/// The order agent modes are offered in: default modes first, then by
/// label, then by id.
pub open spec fn agent_order() -> spec_fn(AgentInfo, AgentInfo) -> bool {
    |a: AgentInfo, b: AgentInfo|
        (a.is_default && !b.is_default) || (a.is_default == b.is_default && ((a.label@ != b.label@
            && text_le(a.label@, b.label@)) || (a.label@ == b.label@ && text_le(a.id@, b.id@))))
}

fn agent_le(a: &AgentInfo, b: &AgentInfo) -> (r: bool)
    ensures
        r == (agent_order())(*a, *b),
{
    if a.is_default != b.is_default {
        return a.is_default;
    }
    if a.label != b.label {
        text_le_strings(&a.label, &b.label)
    } else {
        text_le_strings(&a.id, &b.id)
    }
}

/// An agent mode matches the picker's query (trimmed and lowercased) when
/// the query is empty or fuzzily matches its label, id or description.
pub open spec fn agent_matches(q: Seq<char>, a: AgentInfo) -> bool {
    q.len() == 0 || fuzzy_match(q, a.label@) || fuzzy_match(q, a.id@) || match a.description {
        Some(d) => fuzzy_match(q, d@),
        None => false,
    }
}

/// The agent modes that match, in their order.
pub open spec fn matching_agents(q: Seq<char>, agents: Seq<AgentInfo>) -> Seq<AgentInfo>
    decreases agents.len(),
{
    if agents.len() == 0 {
        Seq::empty()
    } else if agent_matches(q, agents.last()) {
        matching_agents(q, agents.drop_last()).push(agents.last())
    } else {
        matching_agents(q, agents.drop_last())
    }
}

/// The agent modes offered.
pub open spec fn agents_of(options: Option<DiscoveredOptions>) -> Seq<AgentInfo> {
    match options {
        Some(o) => o.agents@,
        None => Seq::empty(),
    }
}

/// The choices of the agent-mode picker for a query: the default mode
/// (`None`) first, then the matching agent modes in the agent order.
pub open spec fn agent_choices(query: Seq<char>, options: Option<DiscoveredOptions>) -> Seq<Option<AgentInfo>> {
    seq![None] + sort_by(matching_agents(lowercase(trim(query)), agents_of(options)), agent_order()).map_values(
        |a: AgentInfo| Some(a),
    )
}

fn insert_agent(sorted: &mut Vec<AgentInfo>, x: AgentInfo)
    ensures
        final(sorted)@ == insert_sorted(old(sorted)@, x, agent_order()),
{
    let ghost s0 = sorted@;
    let mut j: usize = sorted.len();
    proof {
        assert(s0.take(j as int) =~= s0);
    }
    while j > 0 && !agent_le(&sorted[j - 1], &x)
        invariant
            j <= sorted@.len(),
            s0 == sorted@,
            insert_position(s0, x, agent_order()) == insert_position(s0.take(j as int), x, agent_order()),
        decreases j,
    {
        proof {
            assert(s0.take(j as int).drop_last() =~= s0.take(j - 1));
        }
        j = j - 1;
    }
    proof {
        lemma_insert_at_position(s0, x, agent_order());
    }
    sorted.insert(j, x);
    proof {
        assert(sorted@ =~= insert_sorted(s0, x, agent_order()));
    }
}

fn agent_matches_query(q: &String, a: &AgentInfo) -> (r: bool)
    ensures
        r == agent_matches(q@, *a),
{
    if chars_of(q.as_str()).len() == 0 || fuzzy_contains(q.as_str(), a.label.as_str()) || fuzzy_contains(q.as_str(), a.id.as_str()) {
        return true;
    }
    match &a.description {
        Some(d) => fuzzy_contains(q.as_str(), d.as_str()),
        None => false,
    }
}

/// The choices of the agent-mode picker for `query` (the picker's query,
/// or empty without a picker).
pub fn filtered_agent_mode_options(query: &str, options: &Option<DiscoveredOptions>) -> (r: Vec<Option<AgentInfo>>)
    ensures
        r@ == agent_choices(query@, *options),
{
    let trimmed = string_of(trim_chars(&chars_of(query)).as_slice());
    let q = to_lowercase(trimmed.as_str());
    let mut sorted: Vec<AgentInfo> = Vec::new();
    match options {
        Some(o) => {
            let agents = &o.agents;
            let mut i: usize = 0;
            while i < agents.len()
                invariant
                    i <= agents@.len(),
                    q@ == lowercase(trim(query@)),
                    sorted@ == sort_by(matching_agents(q@, agents@.take(i as int)), agent_order()),
                decreases agents@.len() - i,
            {
                proof {
                    assert(agents@.take(i + 1).drop_last() =~= agents@.take(i as int));
                }
                let ghost m = matching_agents(q@, agents@.take(i as int));
                proof {
                    assert(agents@.take(i + 1).last() == agents@[i as int]);
                    assert(m.push(agents@[i as int]).drop_last() =~= m);
                }
                if agent_matches_query(&q, &agents[i]) {
                    insert_agent(&mut sorted, agents[i].copy_agent());
                }
                i = i + 1;
            }
            proof {
                assert(agents@.take(agents@.len() as int) =~= agents@);
            }
        },
        None => {},
    }
    let mut out: Vec<Option<AgentInfo>> = Vec::new();
    out.push(None);
    let mut k: usize = 0;
    while k < sorted.len()
        invariant
            k <= sorted@.len(),
            out@ == seq![None] + sorted@.take(k as int).map_values(|a: AgentInfo| Some(a)),
        decreases sorted@.len() - k,
    {
        out.push(Some(sorted[k].copy_agent()));
        k = k + 1;
        proof {
            assert(out@ =~= seq![None] + sorted@.take(k as int).map_values(|a: AgentInfo| Some(a)));
        }
    }
    proof {
        assert(sorted@.take(sorted@.len() as int) =~= sorted@);
    }
    out
}

/// The agent mode the config selects, by id.
pub open spec fn current_agent(config: Option<ComposerConfig>) -> Option<Seq<char>> {
    match config {
        Some(c) => opt_text(c.agent_id),
        None => None,
    }
}

/// A picker choice is the current agent mode: the default choice when none
/// is selected, else the mode with the selected id.
pub open spec fn is_current_choice(choice: Option<AgentInfo>, current: Option<Seq<char>>) -> bool {
    match (choice, current) {
        (None, None) => true,
        (Some(a), Some(c)) => a.id@ == c,
        _ => false,
    }
}

/// The first choice from index `i` on that is the current agent mode.
pub open spec fn current_choice_index(choices: Seq<Option<AgentInfo>>, current: Option<Seq<char>>, i: int) -> Option<int>
    decreases choices.len() - i,
{
    if i < 0 || i >= choices.len() {
        None
    } else if is_current_choice(choices[i], current) {
        Some(i)
    } else {
        current_choice_index(choices, current, i + 1)
    }
}

/// Where the picker starts: at the current agent mode, else at the top.
pub fn selected_agent_mode_index(choices: &Vec<Option<AgentInfo>>, config: &Option<ComposerConfig>) -> (r: usize)
    ensures
        r == match current_choice_index(choices@, current_agent(*config), 0) {
            Some(k) => k as usize,
            None => 0,
        },
{
    let current = match config {
        Some(c) => copy_opt(&c.agent_id),
        None => None,
    };
    let mut i: usize = 0;
    while i < choices.len()
        invariant
            i <= choices@.len(),
            opt_text(current) == current_agent(*config),
            current_choice_index(choices@, current_agent(*config), 0) == current_choice_index(
                choices@,
                current_agent(*config),
                i as int,
            ),
        decreases choices@.len() - i,
    {
        let hit = match (&choices[i], &current) {
            (None, None) => true,
            (Some(a), Some(c)) => a.id == *c,
            _ => false,
        };
        if hit {
            return i;
        }
        i = i + 1;
    }
    0
}

/// The first agent mode from index `i` on with id `id`.
pub open spec fn agent_index(agents: Seq<AgentInfo>, id: Seq<char>, i: int) -> Option<int>
    decreases agents.len() - i,
{
    if i < 0 || i >= agents.len() {
        None
    } else if agents[i].id@ == id {
        Some(i)
    } else {
        agent_index(agents, id, i + 1)
    }
}

/// The label of the current agent mode: `default` when none is selected,
/// the mode's label when it is offered, else its id.
pub open spec fn agent_mode_label(config: Option<ComposerConfig>, options: Option<DiscoveredOptions>) -> Seq<char> {
    match current_agent(config) {
        None => "default"@,
        Some(id) => match agent_index(agents_of(options), id, 0) {
            Some(k) => agents_of(options)[k].label@,
            None => id,
        },
    }
}

/// The label of the current agent mode.
pub fn selected_agent_mode_label(config: &Option<ComposerConfig>, options: &Option<DiscoveredOptions>) -> (r: String)
    ensures
        r@ == agent_mode_label(*config, *options),
{
    let selected = match config {
        Some(c) => match &c.agent_id {
            Some(id) => id,
            None => {
                return String::from_str("default");
            },
        },
        None => {
            return String::from_str("default");
        },
    };
    match options {
        Some(o) => {
            let agents = &o.agents;
            let mut i: usize = 0;
            while i < agents.len()
                invariant
                    i <= agents@.len(),
                    current_agent(*config) == Some(selected@),
                    agents@ == agents_of(*options),
                    agent_index(agents@, selected@, 0) == agent_index(agents@, selected@, i as int),
                decreases agents@.len() - i,
            {
                if agents[i].id == *selected {
                    return agents[i].label.clone();
                }
                i = i + 1;
            }
            selected.clone()
        },
        None => selected.clone(),
    }
}

/// The agent-mode picker: what has been typed to filter it, and the
/// highlighted choice.
#[derive(Debug, Clone, PartialEq, Eq)]
pub struct AgentPickerState {
    pub query: String,
    pub selected: usize,
}

/// What a key does to the agent-mode picker beyond its own state.
#[derive(Debug, Clone, Copy, PartialEq, Eq, Structural)]
pub enum PickerKeyOutcome {
    Stay,
    /// Close the picker ("Closed agent mode picker").
    Close,
    /// Apply the highlighted choice.
    Apply,
}

/// A key in the agent-mode picker, with `n` choices: escape closes, enter
/// applies, backspace drops the last char of the query (and goes back to
/// the top), `j`/down and `k`/up move by one, page down and up by eight,
/// home and end to the ends; another char without control, alt or super is
/// typed into the query (and goes back to the top).
pub open spec fn picker_step(p: (Seq<char>, usize), key: KeyEvent, n: usize) -> ((Seq<char>, usize), PickerKeyOutcome) {
    let (q, sel) = p;
    let last = if n > 0 {
        n - 1
    } else {
        0
    };
    let stay = PickerKeyOutcome::Stay;
    match key.code {
        KeyCode::Esc => (p, PickerKeyOutcome::Close),
        KeyCode::Enter => (p, PickerKeyOutcome::Apply),
        KeyCode::Backspace => if q.len() > 0 {
            ((q.drop_last(), 0usize), stay)
        } else {
            (p, stay)
        },
        KeyCode::Char('j') | KeyCode::Down => if n > 0 {
            ((q, (if sel + 1 < last { sel + 1 } else { last }) as usize), stay)
        } else {
            (p, stay)
        },
        KeyCode::Char('k') | KeyCode::Up => ((q, (if sel >= 1 { sel - 1 } else { 0 }) as usize), stay),
        KeyCode::PageDown => if n > 0 {
            ((q, (if sel + 8 < last { sel + 8 } else { last }) as usize), stay)
        } else {
            (p, stay)
        },
        KeyCode::PageUp => ((q, (if sel >= 8 { sel - 8 } else { 0 }) as usize), stay),
        KeyCode::Home => ((q, 0usize), stay),
        KeyCode::End => if n > 0 {
            ((q, last as usize), stay)
        } else {
            (p, stay)
        },
        KeyCode::Char(ch) => if !key.modifiers.control && !key.modifiers.alt && !key.modifiers.super_key {
            ((q.push(ch), 0usize), stay)
        } else {
            (p, stay)
        },
        _ => (p, stay),
    }
}

impl AgentPickerState {
    /// Handles a key, with `n` choices in the picker.
    pub fn handle_agent_picker_key(&mut self, key: KeyEvent, n: usize) -> (r: PickerKeyOutcome)
        ensures
            ((final(self).query@, final(self).selected), r) == picker_step(
                (old(self).query@, old(self).selected),
                key,
                n,
            ),
    {
        let last = if n > 0 {
            n - 1
        } else {
            0
        };
        match key.code {
            KeyCode::Esc => PickerKeyOutcome::Close,
            KeyCode::Enter => PickerKeyOutcome::Apply,
            KeyCode::Backspace => {
                let v = chars_of(self.query.as_str());
                if v.len() > 0 {
                    let kept = crate::text::sub_chars(&v, 0, v.len() - 1);
                    self.query = string_of(kept.as_slice());
                    proof {
                        assert(kept@ =~= old(self).query@.drop_last());
                    }
                    self.selected = 0;
                }
                PickerKeyOutcome::Stay
            },
            KeyCode::Char('j') | KeyCode::Down => {
                if n > 0 {
                    self.selected = if self.selected < last && self.selected + 1 < last {
                        self.selected + 1
                    } else {
                        last
                    };
                }
                PickerKeyOutcome::Stay
            },
            KeyCode::Char('k') | KeyCode::Up => {
                self.selected = if self.selected >= 1 {
                    self.selected - 1
                } else {
                    0
                };
                PickerKeyOutcome::Stay
            },
            KeyCode::PageDown => {
                if n > 0 {
                    self.selected = if self.selected < last && last - self.selected > 8 {
                        self.selected + 8
                    } else {
                        last
                    };
                }
                PickerKeyOutcome::Stay
            },
            KeyCode::PageUp => {
                self.selected = if self.selected >= 8 {
                    self.selected - 8
                } else {
                    0
                };
                PickerKeyOutcome::Stay
            },
            KeyCode::Home => {
                self.selected = 0;
                PickerKeyOutcome::Stay
            },
            KeyCode::End => {
                if n > 0 {
                    self.selected = last;
                }
                PickerKeyOutcome::Stay
            },
            KeyCode::Char(ch) => {
                if !key.modifiers.control && !key.modifiers.alt && !key.modifiers.super_key {
                    push_char(&mut self.query, ch);
                    self.selected = 0;
                }
                PickerKeyOutcome::Stay
            },
            _ => PickerKeyOutcome::Stay,
        }
    }
}

/// What opening the agent-mode picker gives: without agent modes, no
/// picker and "No agent modes available"; else a picker with an empty query
/// at the current mode, and "Select agent mode".
pub open spec fn opened_picker(config: Option<ComposerConfig>, options: Option<DiscoveredOptions>) -> (Option<(Seq<char>, usize)>, Seq<char>) {
    if agents_of(options).len() == 0 {
        (None, "No agent modes available"@)
    } else {
        (
            Some(
                (
                    Seq::empty(),
                    match current_choice_index(agent_choices(Seq::empty(), options), current_agent(config), 0) {
                        Some(k) => k as usize,
                        None => 0usize,
                    },
                ),
            ),
            "Select agent mode"@,
        )
    }
}

/// Opens the agent-mode picker: the picker, if any, and the status text.
pub fn open_agent_picker(config: &Option<ComposerConfig>, options: &Option<DiscoveredOptions>) -> (r: (Option<AgentPickerState>, String))
    ensures
        (match r.0 {
            Some(p) => Some((p.query@, p.selected)),
            None => None,
        }, r.1@) == opened_picker(*config, *options),
{
    let has_agents = match options {
        Some(o) => o.agents.len() > 0,
        None => false,
    };
    if !has_agents {
        return (None, String::from_str("No agent modes available"));
    }
    let query = String::new();
    let choices = filtered_agent_mode_options(query.as_str(), options);
    let selected = selected_agent_mode_index(&choices, config);
    proof {
        assert(query@ =~= Seq::<char>::empty());
    }
    (Some(AgentPickerState { query, selected }), String::from_str("Select agent mode"))
}

/// The choice the picker applies: the highlighted one, kept within the
/// choices.
pub open spec fn applied_choice(choices: Seq<Option<AgentInfo>>, selected: usize) -> Option<AgentInfo> {
    let last = if choices.len() > 0 {
        choices.len() - 1
    } else {
        0
    };
    let k = if selected < last {
        selected as int
    } else {
        last
    };
    if k < choices.len() {
        choices[k]
    } else {
        None
    }
}

/// Applies the picker's choice to the config and says so. Without a
/// config nothing changes and "Composer config is still loading" is shown.
pub fn apply_agent_picker_selection(
    choices: &Vec<Option<AgentInfo>>,
    selected: usize,
    config: &mut Option<ComposerConfig>,
) -> (r: String)
    ensures
        match *old(config) {
            None => *final(config) == *old(config) && r@ == "Composer config is still loading"@,
            Some(c) => match applied_choice(choices@, selected) {
                Some(agent) => {
                    &&& *final(config) == Some(ComposerConfig { agent_id: Some(agent.id), ..c })
                    &&& r@ == "Updated agent mode to "@ + agent.label@
                },
                None => {
                    &&& *final(config) == Some(ComposerConfig { agent_id: None, ..c })
                    &&& r@ == "Updated agent mode to default"@
                },
            },
        },
{
    let last = if choices.len() > 0 {
        choices.len() - 1
    } else {
        0
    };
    let k = if selected < last {
        selected
    } else {
        last
    };
    match config {
        None => String::from_str("Composer config is still loading"),
        Some(c) => {
            let choice = if k < choices.len() {
                match &choices[k] {
                    Some(a) => Some(a.copy_agent()),
                    None => None,
                }
            } else {
                None
            };
            match choice {
                Some(agent) => {
                    c.agent_id = Some(agent.id.clone());
                    let mut status = String::from_str("Updated agent mode to ");
                    push_str(&mut status, agent.label.as_str());
                    status
                },
                None => {
                    c.agent_id = None;
                    String::from_str("Updated agent mode to default")
                },
            }
        },
    }
}

/// The first index from `i` on that holds `x`.
pub open spec fn first_index<T>(s: Seq<T>, x: T, i: int) -> Option<int>
    decreases s.len() - i,
{
    if i < 0 || i >= s.len() {
        None
    } else if s[i] == x {
        Some(i)
    } else {
        first_index(s, x, i + 1)
    }
}

/// The option after `current` in `s`, going round; when `current` is not
/// there, the second option (or the only one).
pub open spec fn cycled<T>(s: Seq<T>, current: T) -> T {
    let k = match first_index(s, current, 0) {
        Some(k) => k,
        None => 0,
    };
    s[(k + 1) % (s.len() as int)]
}

proof fn lemma_first_index_bounds<T>(s: Seq<T>, x: T, i: int)
    ensures
        first_index(s, x, i) matches Some(k) ==> 0 <= i <= k < s.len() && s[k] == x,
    decreases s.len() - i,
{
    if 0 <= i < s.len() && s[i] != x {
        lemma_first_index_bounds(s, x, i + 1);
    }
}

/// The index after `k` among `n`, going round.
fn next_round(k: usize, n: usize) -> (r: usize)
    requires
        k < n,
    ensures
        r == (k + 1) % (n as int),
{
    if k + 1 < n {
        proof {
            vstd::arithmetic::div_mod::lemma_small_mod((k + 1) as nat, n as nat);
        }
        k + 1
    } else {
        proof {
            vstd::arithmetic::div_mod::lemma_mod_self_0(n as int);
        }
        0
    }
}

fn find_text(options: &Vec<String>, current: &String) -> (r: Option<usize>)
    ensures
        match r {
            Some(k) => first_index(texts(options@), current@, 0) == Some(k as int) && k < options@.len(),
            None => first_index(texts(options@), current@, 0) is None,
        },
{
    let ghost ts = texts(options@);
    let mut i: usize = 0;
    while i < options.len()
        invariant
            i <= options@.len() == ts.len(),
            ts == texts(options@),
            first_index(ts, current@, 0) == first_index(ts, current@, i as int),
        decreases options@.len() - i,
    {
        if options[i] == *current {
            assert(ts[i as int] == current@);
            return Some(i);
        }
        i = i + 1;
    }
    None
}

fn cycle_text(options: &Vec<String>, current: &String) -> (r: String)
    requires
        options@.len() > 0,
    ensures
        r@ == cycled(texts(options@), current@),
{
    let k = match find_text(options, current) {
        Some(k) => k,
        None => 0,
    };
    proof {
        lemma_first_index_bounds(texts(options@), current@, 0);
    }
    let next = next_round(k, options.len());
    proof {
        assert(texts(options@)[next as int] == options@[next as int]@);
    }
    options[next].clone()
}

fn find_policy(options: &Vec<PermissionPolicy>, current: PermissionPolicy) -> (r: Option<usize>)
    ensures
        match r {
            Some(k) => first_index(options@, current, 0) == Some(k as int) && k < options@.len(),
            None => first_index(options@, current, 0) is None,
        },
{
    let mut i: usize = 0;
    while i < options.len()
        invariant
            i <= options@.len(),
            first_index(options@, current, 0) == first_index(options@, current, i as int),
        decreases options@.len() - i,
    {
        if options[i] == current {
            return Some(i);
        }
        i = i + 1;
    }
    None
}

fn cycle_policy(options: &Vec<PermissionPolicy>, current: PermissionPolicy) -> (r: PermissionPolicy)
    requires
        options@.len() > 0,
    ensures
        r == cycled(options@, current),
{
    let k = match find_policy(options, current) {
        Some(k) => k,
        None => 0,
    };
    proof {
        lemma_first_index_bounds(options@, current, 0);
    }
    options[next_round(k, options.len())]
}

/// What cycling the executor leads to.
#[derive(Debug, Clone, PartialEq, Eq)]
pub enum ExecutorCycle {
    /// A session exists: "Executor cannot be changed for an existing
    /// session".
    Locked,
    /// No profiles yet: "Executor profiles are still loading".
    Loading,
    /// Load the preset of `executor` with `variant` ("Updated composer
    /// executor").
    Switch { executor: String, variant: Option<String> },
}

/// A variant name as the backend takes it: `DEFAULT` means none.
pub open spec fn variant_choice(name: Seq<char>) -> Option<Seq<char>> {
    if name == default_variant() {
        None
    } else {
        Some(name)
    }
}

/// The executor switched to: the one after the current (the config's, else
/// the default profile's, else the first offered) by name, with its first
/// variant.
pub open spec fn next_executor(
    profiles: Seq<ExecutorProfile>,
    config: Option<ComposerConfig>,
    default_executor: Option<Seq<char>>,
) -> (Seq<char>, Option<Seq<char>>) {
    let opts = sort_by(executor_names(profiles), name_order());
    let current = match config {
        Some(c) => c.executor@,
        None => match default_executor {
            Some(d) => d,
            None => opts[0],
        },
    };
    let next = cycled(opts, current);
    (next, variant_choice(variant_list(profiles, next)[0]))
}

/// Cycles the executor of a new session. An existing session keeps its
/// executor (when not starting a new session, and a session is selected).
pub fn cycle_executor(
    creating_new_session: bool,
    has_session: bool,
    profiles: &Vec<ExecutorProfile>,
    config: &Option<ComposerConfig>,
    default_executor: &Option<String>,
) -> (r: ExecutorCycle)
    ensures
        !creating_new_session && has_session ==> r == ExecutorCycle::Locked,
        !(!creating_new_session && has_session) && profiles@.len() == 0 ==> r == ExecutorCycle::Loading,
        !(!creating_new_session && has_session) && profiles@.len() > 0 ==> (r matches ExecutorCycle::Switch { executor, variant }
            && (executor@, opt_text(variant)) == next_executor(profiles@, *config, opt_text(*default_executor))),
{
    if !creating_new_session && has_session {
        return ExecutorCycle::Locked;
    }
    let opts = executor_options(profiles);
    proof {
        lemma_sort_by_len(executor_names(profiles@), name_order());
    }
    if opts.len() == 0 {
        return ExecutorCycle::Loading;
    }
    let current = match config {
        Some(c) => c.executor.clone(),
        None => match default_executor {
            Some(d) => d.clone(),
            None => opts[0].clone(),
        },
    };
    proof {
        assert(texts(opts@)[0] == opts@[0]@);
    }
    let next = cycle_text(&opts, &current);
    let variants = variant_options(profiles, &next);
    proof {
        assert(variant_list(profiles@, next@).len() > 0);
        assert(texts(variants@)[0] == variants@[0]@);
    }
    let variant = default_variant_to_none(variants[0].clone());
    proof {
        reveal_strlit("DEFAULT");
        assert(default_variant_name() =~= default_variant());
    }
    ExecutorCycle::Switch { executor: next, variant }
}

/// What cycling the variant leads to.
#[derive(Debug, Clone, PartialEq, Eq)]
pub enum VariantCycle {
    /// No config yet: "Composer config is still loading".
    Loading,
    /// Load the preset of `executor` with `variant` ("Updated composer
    /// variant").
    Switch { executor: String, variant: Option<String> },
}

/// The variant switched to: the one after the current (`DEFAULT` when none
/// is set) among the executor's variants.
pub open spec fn next_variant(profiles: Seq<ExecutorProfile>, c: ComposerConfig) -> Option<Seq<char>> {
    let current = match c.variant {
        Some(v) => v@,
        None => default_variant(),
    };
    variant_choice(cycled(variant_list(profiles, c.executor@), current))
}

/// Cycles the variant of the config's executor.
pub fn cycle_variant(config: &Option<ComposerConfig>, profiles: &Vec<ExecutorProfile>) -> (r: VariantCycle)
    ensures
        match *config {
            None => r == VariantCycle::Loading,
            Some(c) => r matches VariantCycle::Switch { executor, variant } && executor@ == c.executor@
                && opt_text(variant) == next_variant(profiles@, c),
        },
{
    let c = match config {
        None => {
            return VariantCycle::Loading;
        },
        Some(c) => c,
    };
    let opts = variant_options(profiles, &c.executor);
    let current = match &c.variant {
        Some(v) => v.clone(),
        None => String::from_str("DEFAULT"),
    };
    proof {
        reveal_strlit("DEFAULT");
    }
    let next = cycle_text(&opts, &current);
    let variant = default_variant_to_none(next);
    proof {
        assert(default_variant_name() =~= default_variant());
    }
    VariantCycle::Switch { executor: c.executor.clone(), variant }
}

/// The models offered.
pub open spec fn models_of(options: Option<DiscoveredOptions>) -> Seq<ModelInfo> {
    match options {
        Some(o) => o.models@,
        None => Seq::empty(),
    }
}

/// The keys of models.
pub open spec fn model_keys(models: Seq<ModelInfo>) -> Seq<Seq<char>> {
    models.map_values(|m: ModelInfo| key_of(m))
}

/// The model cycling moves to: the one after the selected model (or after
/// the first, with none selected) among the offered models' keys.
pub open spec fn next_model(config: Option<ComposerConfig>, options: Option<DiscoveredOptions>) -> Seq<char> {
    let keys = model_keys(models_of(options));
    let current = match selected_model(config, options) {
        Some(m) => m,
        None => keys[0],
    };
    cycled(keys, current)
}

/// Cycles the model: with models offered and a config, the config moves to
/// the next model and drops its reasoning choice. The result is the status
/// text, if any.
pub fn cycle_model(config: &mut Option<ComposerConfig>, options: &Option<DiscoveredOptions>) -> (r: Option<String>)
    ensures
        models_of(*options).len() == 0 ==> *final(config) == *old(config) && opt_text(r) == Some(
            "No model options available"@,
        ),
        models_of(*options).len() > 0 ==> match *old(config) {
            None => *final(config) == *old(config) && r is None,
            Some(c) => *final(config) matches Some(n) && n == ComposerConfig {
                model_id: n.model_id,
                reasoning_id: None,
                ..c
            } && opt_text(n.model_id) == Some(next_model(*old(config), *options)) && opt_text(r)
                == Some("Updated model to "@ + next_model(*old(config), *options)),
        },
{
    let mut keys: Vec<String> = Vec::new();
    match options {
        Some(o) => {
            let models = &o.models;
            let mut i: usize = 0;
            while i < models.len()
                invariant
                    i <= models@.len(),
                    texts(keys@) == model_keys(models@).take(i as int),
                decreases models@.len() - i,
            {
                let ghost before = keys@;
                keys.push(model_key(&models[i]));
                proof {
                    assert(texts(keys@) =~= texts(before).push(key_of(models@[i as int])));
                    assert(model_keys(models@).take(i + 1) =~= model_keys(models@).take(i as int).push(
                        key_of(models@[i as int]),
                    ));
                }
                i = i + 1;
            }
            proof {
                assert(model_keys(models@).take(models@.len() as int) =~= model_keys(models@));
            }
        },
        None => {
            proof {
                assert(texts(keys@) =~= model_keys(models_of(*options)));
            }
        },
    }
    if keys.len() == 0 {
        return Some(String::from_str("No model options available"));
    }
    let current = match selected_model_value(config, options) {
        Some(m) => m,
        None => keys[0].clone(),
    };
    proof {
        assert(texts(keys@)[0] == keys@[0]@);
    }
    let next = cycle_text(&keys, &current);
    match config {
        Some(c) => {
            let mut status = String::from_str("Updated model to ");
            push_str(&mut status, next.as_str());
            c.model_id = Some(next);
            c.reasoning_id = None;
            Some(status)
        },
        None => None,
    }
}

/// The reasoning effort cycling moves to: the one after the selected effort
/// (or after the first) among those offered.
pub open spec fn next_reasoning(config: Option<ComposerConfig>, options: Option<DiscoveredOptions>) -> Seq<char> {
    let opts = reasoning_list(config, options);
    let current = match selected_reasoning(config, options) {
        Some(m) => m,
        None => opts[0],
    };
    cycled(opts, current)
}

/// Cycles the reasoning effort. The result is the status text, if any.
pub fn cycle_reasoning(config: &mut Option<ComposerConfig>, options: &Option<DiscoveredOptions>) -> (r: Option<String>)
    ensures
        reasoning_list(*old(config), *options).len() == 0 ==> *final(config) == *old(config)
            && opt_text(r) == Some("No reasoning options available"@),
        reasoning_list(*old(config), *options).len() > 0 ==> match *old(config) {
            None => *final(config) == *old(config) && r is None,
            Some(c) => *final(config) matches Some(n) && n == ComposerConfig {
                reasoning_id: n.reasoning_id,
                ..c
            } && opt_text(n.reasoning_id) == Some(next_reasoning(*old(config), *options))
                && opt_text(r) == Some("Updated reasoning to "@ + next_reasoning(*old(config), *options)),
        },
{
    let opts = reasoning_options(config, options);
    if opts.len() == 0 {
        return Some(String::from_str("No reasoning options available"));
    }
    let current = match selected_reasoning_label(config, options) {
        Some(m) => m,
        None => opts[0].clone(),
    };
    proof {
        assert(texts(opts@)[0] == opts@[0]@);
    }
    let next = cycle_text(&opts, &current);
    match config {
        Some(c) => {
            let mut status = String::from_str("Updated reasoning to ");
            push_str(&mut status, next.as_str());
            c.reasoning_id = Some(next);
            Some(status)
        },
        None => None,
    }
}

/// The permission modes offered.
pub open spec fn permissions_of(options: Option<DiscoveredOptions>) -> Seq<PermissionPolicy> {
    match options {
        Some(o) => o.permissions@,
        None => Seq::empty(),
    }
}

/// The permission mode cycling moves to: the one after the config's (or
/// after the first) among those offered.
pub open spec fn next_permission(config: Option<ComposerConfig>, options: Option<DiscoveredOptions>) -> PermissionPolicy {
    let opts = permissions_of(options);
    let current = match config {
        Some(c) => match c.permission_policy {
            Some(p) => p,
            None => opts[0],
        },
        None => opts[0],
    };
    cycled(opts, current)
}

/// Cycles the permission mode. The result is the status text, if any.
pub fn cycle_permission_mode(config: &mut Option<ComposerConfig>, options: &Option<DiscoveredOptions>) -> (r: Option<String>)
    ensures
        permissions_of(*options).len() == 0 ==> *final(config) == *old(config) && opt_text(r) == Some(
            "No permission modes available"@,
        ),
        permissions_of(*options).len() > 0 ==> match *old(config) {
            None => *final(config) == *old(config) && r is None,
            Some(c) => *final(config) == Some(
                ComposerConfig { permission_policy: Some(next_permission(*old(config), *options)), ..c },
            ) && opt_text(r) == Some(
                "Updated permission mode to "@ + permission_label(Some(next_permission(*old(config), *options))),
            ),
        },
{
    let opts = match options {
        Some(o) => &o.permissions,
        None => {
            return Some(String::from_str("No permission modes available"));
        },
    };
    if opts.len() == 0 {
        return Some(String::from_str("No permission modes available"));
    }
    let current = match config {
        Some(c) => match c.permission_policy {
            Some(p) => p,
            None => opts[0],
        },
        None => opts[0],
    };
    let next = cycle_policy(opts, current);
    match config {
        Some(c) => {
            c.permission_policy = Some(next);
            let mut status = String::from_str("Updated permission mode to ");
            push_str(&mut status, display_permission(Some(&next)));
            Some(status)
        },
        None => None,
    }
}

/// Where the composer reads the executor's discovered options from: none
/// while a new session is being started, else the selected session.
pub fn current_discovery_session_id(creating_new_session: bool, selected_session_id: Option<u128>) -> (r: Option<u128>)
    ensures
        r == if creating_new_session {
            None
        } else {
            selected_session_id
        },
{
    if creating_new_session {
        None
    } else {
        selected_session_id
    }
}

/// What following the selected session's executor does.
#[derive(Debug, Clone, Copy, PartialEq, Eq, Structural)]
pub enum ExecutorSync {
    /// Nothing: a new session is being started, the composer holds text or
    /// edits, a follow-up is queued, or the session names no executor.
    Keep,
    /// The config already uses the session's executor: only follow its
    /// discovered options again.
    Rebind,
    /// The config is replaced by a fresh one for the session's executor,
    /// its discovered options are dropped, and they are followed again.
    Reset,
}

/// Makes the composer use the selected session's executor (`session_executor`:
/// the executor the session names, when it is one the program knows),
/// unless the user has a prompt in progress.
pub fn sync_composer_executor_with_session(
    creating_new_session: bool,
    composer_dirty: bool,
    composer_empty: bool,
    queue_present: bool,
    session_executor: Option<String>,
    config: &mut Option<ComposerConfig>,
    options: &mut Option<DiscoveredOptions>,
) -> (r: ExecutorSync)
    ensures
        creating_new_session || composer_dirty || !composer_empty || queue_present
            || session_executor is None ==> r == ExecutorSync::Keep && *final(config) == *old(config)
            && *final(options) == *old(options),
        !(creating_new_session || composer_dirty || !composer_empty || queue_present
            || session_executor is None) ==> match *old(config) {
            Some(c) if c.executor@ == session_executor->0@ => r == ExecutorSync::Rebind && *final(config)
                == *old(config) && *final(options) == *old(options),
            _ => r == ExecutorSync::Reset && *final(config) == Some(
                ComposerConfig {
                    executor: session_executor->0,
                    variant: None,
                    model_id: None,
                    agent_id: None,
                    reasoning_id: None,
                    permission_policy: None,
                },
            ) && *final(options) is None,
        },
{
    if creating_new_session || composer_dirty || !composer_empty || queue_present {
        return ExecutorSync::Keep;
    }
    let executor = match session_executor {
        None => {
            return ExecutorSync::Keep;
        },
        Some(e) => e,
    };
    let same = match config {
        Some(c) => c.executor == executor,
        None => false,
    };
    if same {
        return ExecutorSync::Rebind;
    }
    *config = Some(
        ComposerConfig {
            executor,
            variant: None,
            model_id: None,
            agent_id: None,
            reasoning_id: None,
            permission_policy: None,
        },
    );
    *options = None;
    ExecutorSync::Reset
}

proof fn lemma_variant_order_total()
    ensures
        total_preorder(variant_order()),
{
    let le = variant_order();
    assert forall|a: Seq<char>, b: Seq<char>| #[trigger] le(a, b) || le(b, a) by {
        lemma_text_le_total(a, b, 0);
    }
    assert forall|a: Seq<char>, b: Seq<char>, c: Seq<char>| #[trigger] le(a, b) && #[trigger] le(b, c) implies le(a, c) by {
        if text_le(a, b) && text_le(b, c) {
            lemma_text_le_trans(a, b, c, 0);
        }
    }
}

proof fn lemma_agent_order_total()
    ensures
        total_preorder(agent_order()),
{
    let le = agent_order();
    assert forall|a: AgentInfo, b: AgentInfo| #[trigger] le(a, b) || le(b, a) by {
        lemma_text_le_total(a.label@, b.label@, 0);
        lemma_text_le_total(a.id@, b.id@, 0);
    }
    assert forall|a: AgentInfo, b: AgentInfo, c: AgentInfo| #[trigger] le(a, b) && #[trigger] le(b, c) implies le(a, c) by {
        if a.is_default == b.is_default && b.is_default == c.is_default {
            if text_le(a.label@, b.label@) && text_le(b.label@, c.label@) {
                lemma_text_le_trans(a.label@, b.label@, c.label@, 0);
            }
            if text_le(a.id@, b.id@) && text_le(b.id@, c.id@) {
                lemma_text_le_trans(a.id@, b.id@, c.id@, 0);
            }
            if a.label@ != b.label@ && b.label@ != c.label@ && a.label@ == c.label@ {
                lemma_text_le_antisymmetric(a.label@, b.label@, 0);
                assert(a.label@ =~= b.label@);
            }
        }
    }
}

/// Executors are offered sorted by name, each once for each profile.
pub proof fn lemma_executor_options_sorted(profiles: Seq<ExecutorProfile>)
    ensures
        sorted_by(sort_by(executor_names(profiles), name_order()), name_order()),
        sort_by(executor_names(profiles), name_order()).to_multiset() == executor_names(profiles).to_multiset(),
{
    lemma_text_order();
    lemma_sort_by_sorted(executor_names(profiles), name_order());
}

/// Variants are offered in the variant order, so `DEFAULT`, when the
/// executor has it, comes first; and at least one is always offered.
pub proof fn lemma_variant_options_sorted(profiles: Seq<ExecutorProfile>, executor: Seq<char>)
    ensures
        sorted_by(variant_list(profiles, executor), variant_order()),
        variant_list(profiles, executor).len() > 0,
        variant_list(profiles, executor).contains(default_variant()) ==> variant_list(profiles, executor)[0]
            == default_variant(),
{
    lemma_variant_order_total();
    match profile_index(profiles, executor, 0) {
        None => {},
        Some(k) => {
            lemma_sort_by_sorted(variant_names(texts(profiles[k].configurations@)), variant_order());
        },
    }
    let l = variant_list(profiles, executor);
    if l.contains(default_variant()) {
        let j = choose|j: int| 0 <= j < l.len() && l[j] == default_variant();
        if j > 0 {
            assert((variant_order())(l[0], l[j]));
        }
    }
}

/// The picker's agent modes come default modes first, then by label
/// and id, and are exactly the matching ones.
pub proof fn lemma_agent_choices_sorted(query: Seq<char>, options: Option<DiscoveredOptions>)
    ensures
        sorted_by(sort_by(matching_agents(lowercase(trim(query)), agents_of(options)), agent_order()), agent_order()),
        sort_by(matching_agents(lowercase(trim(query)), agents_of(options)), agent_order()).to_multiset()
            == matching_agents(lowercase(trim(query)), agents_of(options)).to_multiset(),
{
    lemma_agent_order_total();
    lemma_sort_by_sorted(matching_agents(lowercase(trim(query)), agents_of(options)), agent_order());
}

} // verus!
