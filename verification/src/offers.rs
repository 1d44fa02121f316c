//! What the backend offers: models, providers, files, extensions, settings.

use vstd::prelude::*;

use crate::harness::ModelInfo;
use crate::harness::RewindCheckpoint;
use crate::harness::RuntimeCommand;
use crate::harness::RuntimeExtension;
use crate::harness::RuntimeSettings;
use crate::sessions;
use crate::text;

verus! {

broadcast use vstd::string::group_string_axioms;

/// What the backend offers.
#[derive(Clone, Debug)]
pub struct Offers {
    pub available_models: Vec<ModelInfo>,
    pub available_auth_providers: Vec<ModelInfo>,
    pub available_files: Vec<String>,
    pub runtime_commands: Vec<RuntimeCommand>,
    pub context_files: Vec<String>,
    pub runtime_extensions: Vec<RuntimeExtension>,
    pub runtime_settings: RuntimeSettings,
    pub rewind_checkpoints: Vec<RewindCheckpoint>,
}

/// Nothing on offer, and the default settings.
pub open spec fn fresh(o: Offers) -> bool {
    &&& o.available_models@.len() == 0
    &&& o.available_auth_providers@.len() == 0
    &&& o.available_files@.len() == 0
    &&& o.runtime_commands@.len() == 0
    &&& o.context_files@.len() == 0
    &&& o.runtime_extensions@.len() == 0
    &&& o.runtime_settings.steering_mode@ == "one-at-a-time"@
    &&& o.runtime_settings.follow_up_mode@ == "one-at-a-time"@
    &&& o.runtime_settings.auto_compaction
    &&& o.runtime_settings.default_project_trust@ == "ask"@
    &&& o.runtime_settings.enabled_models@.len() == 0
    &&& !o.runtime_settings.project_trusted
    &&& o.runtime_settings.compaction_model is None
    &&& o.runtime_settings.subagent_model is None
    &&& o.rewind_checkpoints@.len() == 0
}

impl Default for Offers {
    fn default() -> (r: Self)
        ensures
            fresh(r),
    {
        Offers {
            available_models: Vec::new(),
            available_auth_providers: Vec::new(),
            available_files: Vec::new(),
            runtime_commands: Vec::new(),
            context_files: Vec::new(),
            runtime_extensions: Vec::new(),
            runtime_settings: RuntimeSettings::default(),
            rewind_checkpoints: Vec::new(),
        }
    }
}

/// The places of the texts among the first `n` in which a query occurs.
pub open spec fn matching(query: Seq<char>, names: Seq<Seq<char>>, n: int) -> Seq<usize>
    decreases n,
{
    if n <= 0 {
        Seq::empty()
    } else if sessions::found(query, names[n - 1]) {
        matching(query, names, n - 1).push((n - 1) as usize)
    } else {
        matching(query, names, n - 1)
    }
}

/// The places of all texts in which a query occurs, in their order.
pub open spec fn matches_of(query: Seq<char>, names: Seq<Seq<char>>) -> Seq<usize> {
    matching(query, names, names.len() as int)
}

/// Every place listed is the place of a text in which the query occurs.
pub proof fn matches_are_found(query: Seq<char>, names: Seq<Seq<char>>, n: int, k: int)
    requires
        0 <= n <= names.len(),
        n <= usize::MAX,
        0 <= k < matching(query, names, n).len(),
    ensures
        matching(query, names, n)[k] < n,
        sessions::found(query, names[matching(query, names, n)[k] as int]),
    decreases n,
{
    if n > 0 {
        if k < matching(query, names, n - 1).len() {
            matches_are_found(query, names, n - 1, k);
        }
    }
}

/// The places of the texts in which a query occurs.
pub fn find_matches(query: &str, names: &Vec<String>) -> (r: Vec<usize>)
    ensures
        r@ == matches_of(query@, text::views(names@)),
{
    let mut places: Vec<usize> = Vec::new();
    let mut i: usize = 0;
    while i < names.len()
        invariant
            i <= names@.len(),
            places@ == matching(query@, text::views(names@), i as int),
        decreases names@.len() - i,
    {
        if sessions::finds(query, names[i].as_str()) {
            places.push(i);
        }
        i += 1;
    }
    places
}

/// The provider of a model: the part of its identifier in front of the first
/// slash.
pub open spec fn provider(id: Seq<char>) -> Option<Seq<char>> {
    let at = first_slash(id, 0);
    if at < id.len() {
        Some(id.take(at))
    } else {
        None
    }
}

/// The first slash at or behind a position, or the length of the text.
pub open spec fn first_slash(id: Seq<char>, from: int) -> int
    decreases id.len() - from,
{
    if from >= id.len() {
        id.len() as int
    } else if id[from] == '/' {
        from
    } else {
        first_slash(id, from + 1)
    }
}

/// The provider of a model.
pub fn provider_of(id: &str) -> (r: Option<String>)
    ensures
        match r {
            Some(name) => provider(id@) == Some(name@),
            None => provider(id@) is None,
        },
{
    let chars: Vec<char> = text::chars_of(id);
    let mut at: usize = 0;
    while at < chars.len() && chars[at] != '/'
        invariant
            at <= chars@.len(),
            first_slash(chars@, at as int) == first_slash(chars@, 0),
        decreases chars@.len() - at,
    {
        at += 1;
    }
    if at < chars.len() {
        assert(chars@.subrange(0, at as int) =~= chars@.take(at as int));
        Some(text::string_between(&chars, 0, at))
    } else {
        None
    }
}

/// A text stands in front of another in the order of their characters.
pub open spec fn precedes(a: Seq<char>, b: Seq<char>) -> bool
    decreases a.len(),
{
    if b.len() == 0 {
        false
    } else if a.len() == 0 {
        true
    } else if a[0] != b[0] {
        (a[0] as int) < (b[0] as int)
    } else {
        precedes(a.skip(1), b.skip(1))
    }
}

fn char_precedes(a: char, b: char) -> (r: bool)
    ensures
        r == ((a as int) < (b as int)),
{
    (a as u32) < (b as u32)
}

/// Whether a text stands in front of another.
fn text_precedes(a: &str, b: &str) -> (r: bool)
    ensures
        r == precedes(a@, b@),
{
    let x: Vec<char> = text::chars_of(a);
    let y: Vec<char> = text::chars_of(b);
    let mut i: usize = 0;
    assert(x@.skip(0) =~= x@);
    assert(y@.skip(0) =~= y@);
    while i < x.len() && i < y.len()
        invariant
            i <= x@.len(),
            i <= y@.len(),
            x@ == a@,
            y@ == b@,
            precedes(x@.skip(i as int), y@.skip(i as int)) == precedes(x@, y@),
        decreases x@.len() - i,
    {
        assert(x@.skip(i as int)[0] == x@[i as int]);
        assert(y@.skip(i as int)[0] == y@[i as int]);
        assert(x@.skip(i as int).skip(1) =~= x@.skip(i + 1));
        assert(y@.skip(i as int).skip(1) =~= y@.skip(i + 1));
        if x[i] != y[i] {
            return char_precedes(x[i], y[i]);
        }
        i += 1;
    }
    i < y.len()
}

proof fn order_is_total(a: Seq<char>, b: Seq<char>)
    ensures
        precedes(a, b) || precedes(b, a) || a == b,
        !(precedes(a, b) && precedes(b, a)),
        !precedes(a, a),
    decreases a.len(),
{
    if a.len() > 0 && b.len() > 0 {
        order_is_total(a.skip(1), b.skip(1));
        order_is_total(a.skip(1), a.skip(1));
        if a[0] == b[0] && a.skip(1) == b.skip(1) {
            assert(a =~= seq![a[0]] + a.skip(1));
            assert(b =~= seq![b[0]] + b.skip(1));
        }
    } else if a.len() > 0 {
        order_is_total(a.skip(1), a.skip(1));
    } else if b.len() == 0 {
        assert(a =~= b);
    }
}

proof fn order_is_transitive(a: Seq<char>, b: Seq<char>, c: Seq<char>)
    requires
        !precedes(b, a),
        !precedes(c, b),
    ensures
        !precedes(c, a),
    decreases a.len(),
{
    if a.len() > 0 && b.len() > 0 && c.len() > 0 {
        if a[0] == b[0] && b[0] == c[0] {
            order_is_transitive(a.skip(1), b.skip(1), c.skip(1));
        }
    }
}

/// The name of a model's provider in a list.
pub open spec fn provider_name(model: ModelInfo) -> Seq<char> {
    match provider(model.id@) {
        Some(name) => name,
        None => "unknown"@,
    }
}

/// The name of a model's provider in a list.
pub fn provider_label(model: &ModelInfo) -> (r: String)
    ensures
        r@ == provider_name(*model),
{
    match provider_of(model.id.as_str()) {
        Some(name) => name,
        None => "unknown".to_owned(),
    }
}

/// A model is listed: the query occurs in its name or its identifier.
pub open spec fn model_listed(models: Seq<ModelInfo>, query: Seq<char>, i: int) -> bool {
    &&& 0 <= i < models.len()
    &&& sessions::found(query, models[i].display_name@) || sessions::found(query, models[i].id@)
}

/// A model stands in front of another one: in the order of their providers
/// if the list is grouped, and otherwise as they come.
pub open spec fn model_ahead(models: Seq<ModelInfo>, grouped: bool, i: int, j: int) -> bool {
    if grouped && provider_name(models[i]) != provider_name(models[j]) {
        precedes(provider_name(models[i]), provider_name(models[j]))
    } else {
        i < j
    }
}

/// The places of the models listed, in the order of the list.
pub open spec fn model_listing(
    models: Seq<ModelInfo>,
    query: Seq<char>,
    grouped: bool,
    places: Seq<usize>,
) -> bool {
    &&& forall|k: int|
        0 <= k < places.len() ==> model_listed(models, query, #[trigger] places[k] as int)
    &&& forall|i: int| #[trigger]
        model_listed(models, query, i) ==> exists|k: int| 0 <= k < places.len() && places[k] == i
    &&& forall|a: int, b: int|
        0 <= a < b < places.len() ==> model_ahead(
            models,
            grouped,
            #[trigger] places[a] as int,
            #[trigger] places[b] as int,
        )
}

proof fn inserted_in_order(
    models: Seq<ModelInfo>,
    before: Seq<usize>,
    at: int,
    i: usize,
    a: int,
)
    requires
        0 <= a < at <= before.len(),
        i < models.len(),
        forall|k: int| 0 <= k < before.len() ==> #[trigger] before[k] < i,
        forall|x: int, y: int|
            0 <= x < y < before.len() ==> model_ahead(
                models,
                true,
                #[trigger] before[x] as int,
                #[trigger] before[y] as int,
            ),
        !precedes(provider_name(models[i as int]), provider_name(models[before[at - 1] as int])),
    ensures
        model_ahead(models, true, before[a] as int, i as int),
{
    let here = provider_name(models[i as int]);
    let near = provider_name(models[before[at - 1] as int]);
    let far = provider_name(models[before[a] as int]);
    if a < at - 1 {
        assert(model_ahead(models, true, before[a] as int, before[at - 1] as int));
    }
    order_is_total(far, near);
    order_is_transitive(far, near, here);
    order_is_total(far, here);
}

impl Offers {
    /// The models that a query lists, in the order of the list.
    pub fn filtered_models(&self, query: &str, grouped: bool) -> (r: Vec<usize>)
        ensures
            model_listing(self.available_models@, query@, grouped, r@),
    {
        let models: &Vec<ModelInfo> = &self.available_models;
        let mut places: Vec<usize> = Vec::new();
        let mut i: usize = 0;
        while i < models.len()
            invariant
                models@ == self.available_models@,
                i <= models@.len(),
                forall|k: int|
                    0 <= k < places@.len() ==> model_listed(
                        models@,
                        query@,
                        #[trigger] places@[k] as int,
                    ) && places@[k] < i,
                forall|j: int|
                    0 <= j < i && #[trigger] model_listed(models@, query@, j) ==> exists|k: int|
                        0 <= k < places@.len() && places@[k] == j,
                forall|a: int, b: int|
                    0 <= a < b < places@.len() ==> model_ahead(
                        models@,
                        grouped,
                        #[trigger] places@[a] as int,
                        #[trigger] places@[b] as int,
                    ),
            decreases models@.len() - i,
        {
            if sessions::finds(query, models[i].display_name.as_str()) || sessions::finds(
                query,
                models[i].id.as_str(),
            ) {
                let mut at: usize = places.len();
                if grouped {
                    let here: String = provider_label(&models[i]);
                    while at > 0 && text_precedes(
                        here.as_str(),
                        provider_label(&models[places[at - 1]]).as_str(),
                    )
                        invariant
                            i < models@.len(),
                            at <= places@.len(),
                            here@ == provider_name(models@[i as int]),
                            forall|k: int| 0 <= k < places@.len() ==> #[trigger] places@[k] < i,
                            forall|k: int|
                                at <= k < places@.len() ==> precedes(
                                    here@,
                                    provider_name(models@[#[trigger] places@[k] as int]),
                                ),
                        decreases at,
                    {
                        at -= 1;
                    }
                }
                let ghost before = places@;
                places.insert(at, i);
                proof {
                    assert forall|k: int| 0 <= k < places@.len() implies model_listed(
                        models@,
                        query@,
                        #[trigger] places@[k] as int,
                    ) && places@[k] < i + 1 by {
                        if k < at {
                            assert(places@[k] == before[k]);
                        } else if k > at {
                            assert(places@[k] == before[k - 1]);
                        }
                    }
                    assert forall|j: int|
                        0 <= j < i + 1 && #[trigger] model_listed(
                            models@,
                            query@,
                            j,
                        ) implies exists|k: int| 0 <= k < places@.len() && places@[k] == j by {
                        if j == i {
                            assert(places@[at as int] == j);
                        } else {
                            let k = choose|k: int| 0 <= k < before.len() && before[k] == j;
                            if k < at {
                                assert(places@[k] == j);
                            } else {
                                assert(places@[k + 1] == j);
                            }
                        }
                    }
                    assert forall|a: int, b: int| 0 <= a < b < places@.len() implies model_ahead(
                        models@,
                        grouped,
                        #[trigger] places@[a] as int,
                        #[trigger] places@[b] as int,
                    ) by {
                        let x = if a < at {
                            a
                        } else {
                            a - 1
                        };
                        let y = if b < at {
                            b
                        } else {
                            b - 1
                        };
                        if a == at {
                            assert(places@[b] == before[y]);
                            order_is_total(
                                provider_name(models@[i as int]),
                                provider_name(models@[before[y] as int]),
                            );
                        } else if b == at {
                            assert(places@[a] == before[a]);
                            if grouped {
                                inserted_in_order(models@, before, at as int, i, a);
                            }
                        } else {
                            assert(places@[a] == before[x]);
                            assert(places@[b] == before[y]);
                        }
                    }
                }
            }
            i += 1;
        }
        proof {
            assert forall|j: int| #[trigger] model_listed(
                models@,
                query@,
                j,
            ) implies exists|k: int| 0 <= k < places@.len() && places@[k] == j by {}
        }
        places
    }
}

/// Every text in which the query occurs is listed.
pub proof fn found_texts_are_listed(query: Seq<char>, names: Seq<Seq<char>>, n: int, i: int)
    requires
        0 <= i < n <= names.len(),
        n <= usize::MAX,
        sessions::found(query, names[i]),
    ensures
        matching(query, names, n).contains(i as usize),
    decreases n,
{
    let before = matching(query, names, n - 1);
    let all = matching(query, names, n);
    if i == n - 1 {
        assert(all[before.len() as int] == i as usize);
    } else {
        found_texts_are_listed(query, names, n - 1, i);
        let k = choose|k: int| 0 <= k < before.len() && before[k] == i as usize;
        assert(all[k] == i as usize);
    }
}

/// The places of the texts come in their order.
pub proof fn listed_texts_keep_their_order(
    query: Seq<char>,
    names: Seq<Seq<char>>,
    n: int,
    a: int,
    b: int,
)
    requires
        0 <= n <= names.len(),
        n <= usize::MAX,
        0 <= a < b < matching(query, names, n).len(),
    ensures
        matching(query, names, n)[a] < matching(query, names, n)[b],
    decreases n,
{
    if n > 0 {
        let before = matching(query, names, n - 1);
        if b < before.len() {
            listed_texts_keep_their_order(query, names, n - 1, a, b);
        } else {
            matches_are_found(query, names, n - 1, a);
        }
    }
}

/// The provider of a model is what stands in front of the first slash of its identifier.
pub proof fn providers_stand_before_the_slash(name: Seq<char>, rest: Seq<char>)
    requires
        !name.contains('/'),
    ensures
        provider(name + seq!['/'] + rest) == Some(name),
        provider(name) is None,
{
    let id = name + seq!['/'] + rest;
    slash_is_found(name, rest, 0);
    no_slash_is_found(name, 0);
    assert(id.take(name.len() as int) =~= name);
}

proof fn slash_is_found(name: Seq<char>, rest: Seq<char>, from: int)
    requires
        !name.contains('/'),
        0 <= from <= name.len(),
    ensures
        first_slash(name + seq!['/'] + rest, from) == name.len(),
    decreases name.len() - from,
{
    let id = name + seq!['/'] + rest;
    if from < name.len() {
        assert(id[from] == name[from]);
        slash_is_found(name, rest, from + 1);
    }
}

proof fn no_slash_is_found(name: Seq<char>, from: int)
    requires
        !name.contains('/'),
        0 <= from <= name.len(),
    ensures
        first_slash(name, from) == name.len(),
    decreases name.len() - from,
{
    if from < name.len() {
        no_slash_is_found(name, from + 1);
    }
}

/// Of two different texts, one stands in front of the other, and never both of each other.
pub proof fn texts_have_one_order(a: Seq<char>, b: Seq<char>)
    ensures
        !precedes(a, a),
        !(precedes(a, b) && precedes(b, a)),
        a != b ==> precedes(a, b) || precedes(b, a),
    decreases a.len(),
{
    if a.len() > 0 {
        texts_have_one_order(a.skip(1), a.skip(1));
    }
    if a.len() > 0 && b.len() > 0 && a[0] == b[0] {
        texts_have_one_order(a.skip(1), b.skip(1));
        if a.skip(1) == b.skip(1) {
            assert(a =~= seq![a[0]] + a.skip(1));
            assert(b =~= seq![b[0]] + b.skip(1));
        }
    } else if a.len() == 0 && b.len() == 0 {
        assert(a =~= b);
    }
}

/// In a grouped list, the models of a provider stand together, in the order in which they
/// came, and the providers in the order of their names.
pub proof fn grouped_models_stand_together(
    models: Seq<ModelInfo>,
    query: Seq<char>,
    places: Seq<usize>,
    a: int,
    b: int,
)
    requires
        model_listing(models, query, true, places),
        0 <= a < b < places.len(),
    ensures
        ({
            let first = provider_name(models[places[a] as int]);
            let second = provider_name(models[places[b] as int]);
            &&& first == second ==> places[a] < places[b]
            &&& first != second ==> precedes(first, second)
        }),
{
    assert(model_ahead(models, true, places[a] as int, places[b] as int));
}

/// With nothing looked for, every model is listed once.
pub proof fn all_models_are_listed(
    models: Seq<ModelInfo>,
    grouped: bool,
    places: Seq<usize>,
    i: int,
) -> (k: int)
    requires
        model_listing(models, Seq::empty(), grouped, places),
        0 <= i < models.len(),
    ensures
        0 <= k < places.len(),
        places[k] == i,
{
    sessions::queries_are_found(Seq::empty(), models[i].id@, Seq::empty());
    assert(model_listed(models, Seq::empty(), i));
    choose|k: int| 0 <= k < places.len() && places[k] == i
}

} // verus!
