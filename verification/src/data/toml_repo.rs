use vstd::prelude::*;

use crate::data::models::{Model, Provider, ProviderModelMapping, TomlFileStructure};
use crate::data::traits::{DataError, DataRepository};

verus! {

broadcast use vstd::string::group_string_axioms;

/// Whether some mapping row links the provider `provider_id` to the model `model_id`.
pub open spec fn is_linked(
    mappings: Seq<ProviderModelMapping>,
    provider_id: Seq<char>,
    model_id: Seq<char>,
) -> bool {
    exists|k: int|
        0 <= k < mappings.len() && (#[trigger] mappings[k]).provider_id@ == provider_id
            && mappings[k].model_id@ == model_id
}

/// The models, in stored order, that some mapping row links to `provider_id`.
pub open spec fn models_linked_to(
    models: Seq<Model>,
    mappings: Seq<ProviderModelMapping>,
    provider_id: Seq<char>,
) -> Seq<Model>
    decreases models.len(),
{
    if models.len() == 0 {
        Seq::empty()
    } else {
        let rest = models_linked_to(models.drop_last(), mappings, provider_id);
        if is_linked(mappings, provider_id, models.last().id@) {
            rest.push(models.last())
        } else {
            rest
        }
    }
}

/// The providers, in stored order, that some mapping row links to `model_id`.
pub open spec fn providers_linked_to(
    providers: Seq<Provider>,
    mappings: Seq<ProviderModelMapping>,
    model_id: Seq<char>,
) -> Seq<Provider>
    decreases providers.len(),
{
    if providers.len() == 0 {
        Seq::empty()
    } else {
        let rest = providers_linked_to(providers.drop_last(), mappings, model_id);
        if is_linked(mappings, providers.last().id@, model_id) {
            rest.push(providers.last())
        } else {
            rest
        }
    }
}

/// The first stored provider whose id is `id`, if any.
pub open spec fn first_provider_with_id(providers: Seq<Provider>, id: Seq<char>) -> Option<Provider>
    decreases providers.len(),
{
    if providers.len() == 0 {
        None
    } else if providers[0].id@ == id {
        Some(providers[0])
    } else {
        first_provider_with_id(providers.drop_first(), id)
    }
}

/// The first stored model whose id is `id`, if any.
pub open spec fn first_model_with_id(models: Seq<Model>, id: Seq<char>) -> Option<Model>
    decreases models.len(),
{
    if models.len() == 0 {
        None
    } else if models[0].id@ == id {
        Some(models[0])
    } else {
        first_model_with_id(models.drop_first(), id)
    }
}

/// A repository answered from the contents of a TOML file, held in memory.
pub struct TomlRepository {
    cache: TomlFileStructure,
}

impl TomlRepository {
    pub closed spec fn providers(&self) -> Seq<Provider> {
        self.cache.providers@
    }

    pub closed spec fn models(&self) -> Seq<Model> {
        self.cache.models@
    }

    pub closed spec fn mappings(&self) -> Seq<ProviderModelMapping> {
        self.cache.provider_models@
    }

    /// Builds the repository from the parsed file contents.
    pub fn from_cache(cache: TomlFileStructure) -> (r: Self)
        ensures
            r.providers() == cache.providers@,
            r.models() == cache.models@,
            r.mappings() == cache.provider_models@,
    {
        TomlRepository { cache }
    }
}

/// Whether `id` occurs among `ids`.
fn contains_id(ids: &Vec<&String>, id: &String) -> (r: bool)
    ensures
        r == exists|j: int| 0 <= j < ids@.len() && (#[trigger] ids@[j])@ == id@,
{
    let mut i: usize = 0;
    while i < ids.len()
        invariant
            i <= ids@.len(),
            forall|j: int| 0 <= j < i ==> (#[trigger] ids@[j])@ != id@,
        decreases ids@.len() - i,
    {
        if *ids[i] == *id {
            return true;
        }
        i += 1;
    }
    false
}

impl TomlRepository {
    fn find_provider(&self, id: &str) -> (r: Option<Provider>)
        ensures
            r == first_provider_with_id(self.providers(), id@),
    {
        let key = id.to_string();
        let providers = &self.cache.providers;
        let mut i: usize = 0;
        assert(providers@.subrange(0, providers@.len() as int) =~= providers@);
        while i < providers.len()
            invariant
                i <= providers@.len(),
                key@ == id@,
                providers@ == self.providers(),
                first_provider_with_id(providers@, id@) == first_provider_with_id(
                    providers@.subrange(i as int, providers@.len() as int),
                    id@,
                ),
            decreases providers@.len() - i,
        {
            let ghost rest = providers@.subrange(i as int, providers@.len() as int);
            assert(rest.drop_first() =~= providers@.subrange(i + 1, providers@.len() as int));
            assert(rest[0] == providers@[i as int]);
            if providers[i].id == key {
                return Some(providers[i].clone());
            }
            i += 1;
        }
        assert(providers@.subrange(i as int, providers@.len() as int) =~= Seq::<Provider>::empty());
        None
    }

    fn find_model(&self, id: &str) -> (r: Option<Model>)
        ensures
            r == first_model_with_id(self.models(), id@),
    {
        let key = id.to_string();
        let models = &self.cache.models;
        let mut i: usize = 0;
        assert(models@.subrange(0, models@.len() as int) =~= models@);
        while i < models.len()
            invariant
                i <= models@.len(),
                key@ == id@,
                models@ == self.models(),
                first_model_with_id(models@, id@) == first_model_with_id(
                    models@.subrange(i as int, models@.len() as int),
                    id@,
                ),
            decreases models@.len() - i,
        {
            let ghost rest = models@.subrange(i as int, models@.len() as int);
            assert(rest.drop_first() =~= models@.subrange(i + 1, models@.len() as int));
            assert(rest[0] == models@[i as int]);
            if models[i].id == key {
                return Some(models[i].clone());
            }
            i += 1;
        }
        assert(models@.subrange(i as int, models@.len() as int) =~= Seq::<Model>::empty());
        None
    }

    fn linked_models(&self, provider_id: &str) -> (r: Vec<Model>)
        ensures
            r@ == models_linked_to(self.models(), self.mappings(), provider_id@),
    {
        let key = provider_id.to_string();
        let mappings = &self.cache.provider_models;
        let models = &self.cache.models;
        let mut model_ids: Vec<&String> = Vec::new();
        let mut i: usize = 0;
        while i < mappings.len()
            invariant
                i <= mappings@.len(),
                key@ == provider_id@,
                forall|j: int|
                    0 <= j < model_ids@.len() ==> is_linked(
                        mappings@,
                        provider_id@,
                        (#[trigger] model_ids@[j])@,
                    ),
                forall|k: int|
                    0 <= k < i && (#[trigger] mappings@[k]).provider_id@ == provider_id@ ==> exists|
                        j: int,
                    |
                        0 <= j < model_ids@.len() && (#[trigger] model_ids@[j])@
                            == mappings@[k].model_id@,
            decreases mappings@.len() - i,
        {
            if mappings[i].provider_id == key {
                let ghost before = model_ids@;
                model_ids.push(&mappings[i].model_id);
                assert(model_ids@[model_ids@.len() - 1]@ == mappings@[i as int].model_id@);
                assert forall|k: int|
                    0 <= k < i + 1 && (#[trigger] mappings@[k]).provider_id@
                        == provider_id@ implies exists|j: int|
                    0 <= j < model_ids@.len() && (#[trigger] model_ids@[j])@
                        == mappings@[k].model_id@ by {
                    if k < i {
                        let j = choose|j: int|
                            0 <= j < before.len() && (#[trigger] before[j])@
                                == mappings@[k].model_id@;
                        assert(model_ids@[j] == before[j]);
                    } else {
                        assert(model_ids@[model_ids@.len() - 1]@ == mappings@[k].model_id@);
                    }
                }
            }
            i += 1;
        }
        let mut result: Vec<Model> = Vec::new();
        let mut m: usize = 0;
        while m < models.len()
            invariant
                m <= models@.len(),
                key@ == provider_id@,
                forall|j: int|
                    0 <= j < model_ids@.len() ==> is_linked(
                        mappings@,
                        provider_id@,
                        (#[trigger] model_ids@[j])@,
                    ),
                forall|k: int|
                    0 <= k < mappings@.len() && (#[trigger] mappings@[k]).provider_id@
                        == provider_id@ ==> exists|j: int|
                        0 <= j < model_ids@.len() && (#[trigger] model_ids@[j])@
                            == mappings@[k].model_id@,
                result@ == models_linked_to(models@.take(m as int), mappings@, provider_id@),
            decreases models@.len() - m,
        {
            let linked = contains_id(&model_ids, &models[m].id);
            proof {
                let x = models@[m as int].id@;
                if is_linked(mappings@, provider_id@, x) {
                    let k = choose|k: int|
                        0 <= k < mappings@.len() && (#[trigger] mappings@[k]).provider_id@
                            == provider_id@ && mappings@[k].model_id@ == x;
                    assert(mappings@[k].provider_id@ == provider_id@);
                }
                assert(models@.take(m + 1).drop_last() =~= models@.take(m as int));
            }
            if linked {
                result.push(models[m].clone());
            }
            m += 1;
        }
        assert(models@.take(models@.len() as int) =~= models@);
        result
    }

    fn linked_providers(&self, model_id: &str) -> (r: Vec<Provider>)
        ensures
            r@ == providers_linked_to(self.providers(), self.mappings(), model_id@),
    {
        let key = model_id.to_string();
        let mappings = &self.cache.provider_models;
        let providers = &self.cache.providers;
        let mut provider_ids: Vec<&String> = Vec::new();
        let mut i: usize = 0;
        while i < mappings.len()
            invariant
                i <= mappings@.len(),
                key@ == model_id@,
                forall|j: int|
                    0 <= j < provider_ids@.len() ==> is_linked(
                        mappings@,
                        (#[trigger] provider_ids@[j])@,
                        model_id@,
                    ),
                forall|k: int|
                    0 <= k < i && (#[trigger] mappings@[k]).model_id@ == model_id@ ==> exists|
                        j: int,
                    |
                        0 <= j < provider_ids@.len() && (#[trigger] provider_ids@[j])@
                            == mappings@[k].provider_id@,
            decreases mappings@.len() - i,
        {
            if mappings[i].model_id == key {
                let ghost before = provider_ids@;
                provider_ids.push(&mappings[i].provider_id);
                assert(provider_ids@[provider_ids@.len() - 1]@ == mappings@[i as int].provider_id@);
                assert forall|k: int|
                    0 <= k < i + 1 && (#[trigger] mappings@[k]).model_id@
                        == model_id@ implies exists|j: int|
                    0 <= j < provider_ids@.len() && (#[trigger] provider_ids@[j])@
                        == mappings@[k].provider_id@ by {
                    if k < i {
                        let j = choose|j: int|
                            0 <= j < before.len() && (#[trigger] before[j])@
                                == mappings@[k].provider_id@;
                        assert(provider_ids@[j] == before[j]);
                    } else {
                        assert(provider_ids@[provider_ids@.len() - 1]@
                            == mappings@[k].provider_id@);
                    }
                }
            }
            i += 1;
        }
        let mut result: Vec<Provider> = Vec::new();
        let mut p: usize = 0;
        while p < providers.len()
            invariant
                p <= providers@.len(),
                key@ == model_id@,
                forall|j: int|
                    0 <= j < provider_ids@.len() ==> is_linked(
                        mappings@,
                        (#[trigger] provider_ids@[j])@,
                        model_id@,
                    ),
                forall|k: int|
                    0 <= k < mappings@.len() && (#[trigger] mappings@[k]).model_id@ == model_id@
                        ==> exists|j: int|
                        0 <= j < provider_ids@.len() && (#[trigger] provider_ids@[j])@
                            == mappings@[k].provider_id@,
                result@ == providers_linked_to(providers@.take(p as int), mappings@, model_id@),
            decreases providers@.len() - p,
        {
            let linked = contains_id(&provider_ids, &providers[p].id);
            proof {
                let x = providers@[p as int].id@;
                if is_linked(mappings@, x, model_id@) {
                    let k = choose|k: int|
                        0 <= k < mappings@.len() && (#[trigger] mappings@[k]).provider_id@ == x
                            && mappings@[k].model_id@ == model_id@;
                    assert(mappings@[k].model_id@ == model_id@);
                }
                assert(providers@.take(p + 1).drop_last() =~= providers@.take(p as int));
            }
            if linked {
                result.push(providers[p].clone());
            }
            p += 1;
        }
        assert(providers@.take(providers@.len() as int) =~= providers@);
        result
    }
}

impl DataRepository for TomlRepository {
    open spec fn spec_answers(&self) -> bool {
        true
    }

    open spec fn spec_provider(&self, id: Seq<char>) -> Option<Provider> {
        first_provider_with_id(self.providers(), id)
    }

    open spec fn spec_model(&self, id: Seq<char>) -> Option<Model> {
        first_model_with_id(self.models(), id)
    }

    open spec fn spec_models_for_provider(&self, provider_id: Seq<char>) -> Seq<Model> {
        models_linked_to(self.models(), self.mappings(), provider_id)
    }

    open spec fn spec_providers_for_model(&self, model_id: Seq<char>) -> Seq<Provider> {
        providers_linked_to(self.providers(), self.mappings(), model_id)
    }

    /// Never fails: answers the first stored provider with id `id`.
    fn get_provider(&self, id: &str) -> (r: Result<Option<Provider>, DataError>)
        ensures
            r is Ok,
    {
        Ok(self.find_provider(id))
    }

    /// Never fails: answers the first stored model with id `id`.
    fn get_model(&self, id: &str) -> (r: Result<Option<Model>, DataError>)
        ensures
            r is Ok,
    {
        Ok(self.find_model(id))
    }

    /// Never fails: answers the stored models, in stored order, that some
    /// mapping row links to `provider_id`.
    fn get_models_for_provider(&self, provider_id: &str) -> (r: Result<Vec<Model>, DataError>)
        ensures
            r is Ok,
    {
        Ok(self.linked_models(provider_id))
    }

    /// Never fails: answers the stored providers, in stored order, that some
    /// mapping row links to `model_id`.
    fn get_providers_for_model(&self, model_id: &str) -> (r: Result<Vec<Provider>, DataError>)
        ensures
            r is Ok,
    {
        Ok(self.linked_providers(model_id))
    }
}

} // verus!

verus! {

/// A model is listed for `provider_id` exactly when it is stored and some
/// mapping row links it to that provider.
pub proof fn lemma_models_linked_to_contains(
    models: Seq<Model>,
    mappings: Seq<ProviderModelMapping>,
    provider_id: Seq<char>,
    model: Model,
)
    ensures
        models_linked_to(models, mappings, provider_id).contains(model) <==> (models.contains(
            model,
        ) && is_linked(mappings, provider_id, model.id@)),
    decreases models.len(),
{
    if models.len() > 0 {
        let init = models.drop_last();
        let rest = models_linked_to(init, mappings, provider_id);
        lemma_models_linked_to_contains(init, mappings, provider_id, model);
        assert(models =~= init.push(models.last()));
        if models.contains(model) && !init.contains(model) {
            let i = choose|i: int| 0 <= i < models.len() && models[i] == model;
            if i < init.len() {
                assert(init[i] == model);
            }
        }
        if init.contains(model) {
            let i = choose|i: int| 0 <= i < init.len() && init[i] == model;
            assert(models[i] == model);
        }
        if is_linked(mappings, provider_id, models.last().id@) {
            let out = rest.push(models.last());
            if rest.contains(model) {
                let i = choose|i: int| 0 <= i < rest.len() && rest[i] == model;
                assert(out[i] == model);
            }
            if out.contains(model) && !rest.contains(model) {
                let i = choose|i: int| 0 <= i < out.len() && out[i] == model;
                if i < rest.len() {
                    assert(rest[i] == model);
                }
            }
            if models.last() == model {
                assert(out[rest.len() as int] == model);
            }
        }
    }
}

/// A provider is listed for `model_id` exactly when it is stored and some
/// mapping row links it to that model.
pub proof fn lemma_providers_linked_to_contains(
    providers: Seq<Provider>,
    mappings: Seq<ProviderModelMapping>,
    model_id: Seq<char>,
    provider: Provider,
)
    ensures
        providers_linked_to(providers, mappings, model_id).contains(provider) <==> (
        providers.contains(provider) && is_linked(mappings, provider.id@, model_id)),
    decreases providers.len(),
{
    if providers.len() > 0 {
        let init = providers.drop_last();
        let rest = providers_linked_to(init, mappings, model_id);
        lemma_providers_linked_to_contains(init, mappings, model_id, provider);
        assert(providers =~= init.push(providers.last()));
        if providers.contains(provider) && !init.contains(provider) {
            let i = choose|i: int| 0 <= i < providers.len() && providers[i] == provider;
            if i < init.len() {
                assert(init[i] == provider);
            }
        }
        if init.contains(provider) {
            let i = choose|i: int| 0 <= i < init.len() && init[i] == provider;
            assert(providers[i] == provider);
        }
        if is_linked(mappings, providers.last().id@, model_id) {
            let out = rest.push(providers.last());
            if rest.contains(provider) {
                let i = choose|i: int| 0 <= i < rest.len() && rest[i] == provider;
                assert(out[i] == provider);
            }
            if out.contains(provider) && !rest.contains(provider) {
                let i = choose|i: int| 0 <= i < out.len() && out[i] == provider;
                if i < rest.len() {
                    assert(rest[i] == provider);
                }
            }
            if providers.last() == provider {
                assert(out[rest.len() as int] == provider);
            }
        }
    }
}

/// Law: for a stored provider and a stored model, the model is among the
/// models of the provider exactly when the provider is among the providers of
/// the model.
pub proof fn law_links_are_symmetric(repo: &TomlRepository, provider: Provider, model: Model)
    requires
        repo.providers().contains(provider),
        repo.models().contains(model),
    ensures
        models_linked_to(repo.models(), repo.mappings(), provider.id@).contains(model)
            <==> providers_linked_to(repo.providers(), repo.mappings(), model.id@).contains(
            provider,
        ),
{
    lemma_models_linked_to_contains(repo.models(), repo.mappings(), provider.id@, model);
    lemma_providers_linked_to_contains(repo.providers(), repo.mappings(), model.id@, provider);
}

/// Law: a provider lookup by id answers a stored provider that has that id,
/// and answers nothing only when no stored provider has it.
pub proof fn law_provider_lookup(providers: Seq<Provider>, id: Seq<char>)
    ensures
        first_provider_with_id(providers, id) matches Some(p) ==> providers.contains(p) && p.id@
            == id,
        first_provider_with_id(providers, id) is None <==> forall|i: int|
            0 <= i < providers.len() ==> (#[trigger] providers[i]).id@ != id,
    decreases providers.len(),
{
    if providers.len() > 0 {
        let tail = providers.drop_first();
        law_provider_lookup(tail, id);
        if providers[0].id@ != id {
            if let Some(p) = first_provider_with_id(tail, id) {
                let i = choose|i: int| 0 <= i < tail.len() && tail[i] == p;
                assert(providers[i + 1] == p);
            }
            assert forall|i: int| 0 < i < providers.len() implies (#[trigger] providers[i]) == tail[i
                - 1] by {}
        }
    }
}

/// Law: a model lookup by id answers a stored model that has that id, and
/// answers nothing only when no stored model has it.
pub proof fn law_model_lookup(models: Seq<Model>, id: Seq<char>)
    ensures
        first_model_with_id(models, id) matches Some(m) ==> models.contains(m) && m.id@ == id,
        first_model_with_id(models, id) is None <==> forall|i: int|
            0 <= i < models.len() ==> (#[trigger] models[i]).id@ != id,
    decreases models.len(),
{
    if models.len() > 0 {
        let tail = models.drop_first();
        law_model_lookup(tail, id);
        if models[0].id@ != id {
            if let Some(m) = first_model_with_id(tail, id) {
                let i = choose|i: int| 0 <= i < tail.len() && tail[i] == m;
                assert(models[i + 1] == m);
            }
            assert forall|i: int| 0 < i < models.len() implies (#[trigger] models[i]) == tail[i
                - 1] by {}
        }
    }
}

} // verus!

verus! {

proof fn lemma_first_provider_index(providers: Seq<Provider>, id: Seq<char>)
    ensures
        first_provider_with_id(providers, id) matches Some(p) ==> exists|i: int|
            0 <= i < providers.len() && providers[i] == p && p.id@ == id && forall|j: int|
                0 <= j < i ==> (#[trigger] providers[j]).id@ != id,
        first_provider_with_id(providers, id) is None <==> forall|i: int|
            0 <= i < providers.len() ==> (#[trigger] providers[i]).id@ != id,
    decreases providers.len(),
{
    law_provider_lookup(providers, id);
    if providers.len() > 0 && providers[0].id@ != id {
        let tail = providers.drop_first();
        lemma_first_provider_index(tail, id);
        if let Some(p) = first_provider_with_id(tail, id) {
            let i = choose|i: int|
                0 <= i < tail.len() && tail[i] == p && p.id@ == id && forall|j: int|
                    0 <= j < i ==> (#[trigger] tail[j]).id@ != id;
            assert(providers[i + 1] == p);
            assert forall|j: int| 0 <= j < i + 1 implies (#[trigger] providers[j]).id@ != id by {
                if j > 0 {
                    assert(providers[j] == tail[j - 1]);
                }
            }
        }
    }
}

proof fn lemma_first_model_index(models: Seq<Model>, id: Seq<char>)
    ensures
        first_model_with_id(models, id) matches Some(m) ==> exists|i: int|
            0 <= i < models.len() && models[i] == m && m.id@ == id && forall|j: int|
                0 <= j < i ==> (#[trigger] models[j]).id@ != id,
        first_model_with_id(models, id) is None <==> forall|i: int|
            0 <= i < models.len() ==> (#[trigger] models[i]).id@ != id,
    decreases models.len(),
{
    law_model_lookup(models, id);
    if models.len() > 0 && models[0].id@ != id {
        let tail = models.drop_first();
        lemma_first_model_index(tail, id);
        if let Some(m) = first_model_with_id(tail, id) {
            let i = choose|i: int|
                0 <= i < tail.len() && tail[i] == m && m.id@ == id && forall|j: int|
                    0 <= j < i ==> (#[trigger] tail[j]).id@ != id;
            assert(models[i + 1] == m);
            assert forall|j: int| 0 <= j < i + 1 implies (#[trigger] models[j]).id@ != id by {
                if j > 0 {
                    assert(models[j] == tail[j - 1]);
                }
            }
        }
    }
}

/// Law: the TOML repository answers a provider lookup with the first stored
/// provider that has the id asked for, and with nothing only where no stored
/// provider has it.
pub proof fn law_toml_get_provider(repo: &TomlRepository, id: Seq<char>)
    ensures
        repo.spec_provider(id) matches Some(p) ==> exists|i: int|
            0 <= i < repo.providers().len() && repo.providers()[i] == p && p.id@ == id
                && forall|j: int| 0 <= j < i ==> (#[trigger] repo.providers()[j]).id@ != id,
        repo.spec_provider(id) is None <==> forall|i: int|
            0 <= i < repo.providers().len() ==> (#[trigger] repo.providers()[i]).id@ != id,
{
    lemma_first_provider_index(repo.providers(), id);
}

/// Law: the TOML repository answers a model lookup with the first stored
/// model that has the id asked for, and with nothing only where no stored
/// model has it.
pub proof fn law_toml_get_model(repo: &TomlRepository, id: Seq<char>)
    ensures
        repo.spec_model(id) matches Some(m) ==> exists|i: int|
            0 <= i < repo.models().len() && repo.models()[i] == m && m.id@ == id && forall|j: int|
                0 <= j < i ==> (#[trigger] repo.models()[j]).id@ != id,
        repo.spec_model(id) is None <==> forall|i: int|
            0 <= i < repo.models().len() ==> (#[trigger] repo.models()[i]).id@ != id,
{
    lemma_first_model_index(repo.models(), id);
}

/// Law: the TOML repository lists a model for a provider exactly when the
/// model is stored and some mapping row, anywhere in the table, links the two.
pub proof fn law_toml_models_for_provider(
    repo: &TomlRepository,
    provider_id: Seq<char>,
    model: Model,
)
    ensures
        repo.spec_models_for_provider(provider_id).contains(model) <==> (repo.models().contains(
            model,
        ) && exists|k: int|
            0 <= k < repo.mappings().len() && (#[trigger] repo.mappings()[k]).provider_id@
                == provider_id && repo.mappings()[k].model_id@ == model.id@),
{
    lemma_models_linked_to_contains(repo.models(), repo.mappings(), provider_id, model);
}

/// Law: the TOML repository lists a provider for a model exactly when the
/// provider is stored and some mapping row, anywhere in the table, links the
/// two.
pub proof fn law_toml_providers_for_model(
    repo: &TomlRepository,
    model_id: Seq<char>,
    provider: Provider,
)
    ensures
        repo.spec_providers_for_model(model_id).contains(provider) <==> (
        repo.providers().contains(provider) && exists|k: int|
            0 <= k < repo.mappings().len() && (#[trigger] repo.mappings()[k]).provider_id@
                == provider.id@ && repo.mappings()[k].model_id@ == model_id),
{
    lemma_providers_linked_to_contains(repo.providers(), repo.mappings(), model_id, provider);
}

} // verus!
