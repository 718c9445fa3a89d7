use ai_api_gateway::data::models::{Model, Provider, ProviderModelMapping, TomlFileStructure};
use ai_api_gateway::data::toml_repo::TomlRepository;
use ai_api_gateway::data::traits::DataRepository;
use ai_api_gateway::secrets_loaders::types::ProviderAuthMethod;

fn provider(id: &str, name: &str) -> Provider {
    Provider {
        id: id.to_string(),
        name: name.to_string(),
        url: format!("https://{id}.example"),
        auth_method: ProviderAuthMethod::NoAuth,
    }
}

fn model(id: &str, name: &str) -> Model {
    Model { id: id.to_string(), name: name.to_string() }
}

fn link(provider_id: &str, model_id: &str) -> ProviderModelMapping {
    ProviderModelMapping { provider_id: provider_id.to_string(), model_id: model_id.to_string() }
}

fn sample() -> TomlRepository {
    TomlRepository::from_cache(TomlFileStructure {
        providers: vec![provider("openai", "OpenAI"), provider("azure", "Azure"), provider("local", "Local")],
        models: vec![model("gpt-4o", "GPT-4o"), model("gpt-4o-mini", "GPT-4o mini"), model("llama", "Llama")],
        provider_models: vec![
            link("openai", "gpt-4o"),
            link("openai", "gpt-4o-mini"),
            link("azure", "gpt-4o"),
            link("azure", "gpt-4o"),
            link("local", "llama"),
        ],
    })
}

fn ids_of_models(models: &[Model]) -> Vec<&str> {
    models.iter().map(|m| m.id.as_str()).collect()
}

fn ids_of_providers(providers: &[Provider]) -> Vec<&str> {
    providers.iter().map(|p| p.id.as_str()).collect()
}

#[test]
fn get_provider_finds_stored_provider() {
    let repo = sample();
    let found = repo.get_provider("azure").unwrap().unwrap();
    assert_eq!(found.id, "azure");
    assert_eq!(found.name, "Azure");
    assert_eq!(found.url, "https://azure.example");
}

#[test]
fn get_provider_unknown_id_is_none() {
    let repo = sample();
    assert!(repo.get_provider("anthropic").unwrap().is_none());
    assert!(repo.get_provider("").unwrap().is_none());
}

#[test]
fn get_provider_answers_first_of_duplicates() {
    let repo = TomlRepository::from_cache(TomlFileStructure {
        providers: vec![provider("dup", "First"), provider("dup", "Second")],
        models: vec![],
        provider_models: vec![],
    });
    assert_eq!(repo.get_provider("dup").unwrap().unwrap().name, "First");
}

#[test]
fn get_model_finds_stored_model() {
    let repo = sample();
    assert_eq!(repo.get_model("llama").unwrap().unwrap().name, "Llama");
    assert!(repo.get_model("mistral").unwrap().is_none());
}

#[test]
fn models_for_provider_follow_mappings_in_stored_order() {
    let repo = sample();
    let models = repo.get_models_for_provider("openai").unwrap();
    assert_eq!(ids_of_models(&models), vec!["gpt-4o", "gpt-4o-mini"]);
    let models = repo.get_models_for_provider("local").unwrap();
    assert_eq!(ids_of_models(&models), vec!["llama"]);
}

#[test]
fn models_for_unknown_provider_are_empty() {
    let repo = sample();
    assert!(repo.get_models_for_provider("nobody").unwrap().is_empty());
}

#[test]
fn providers_for_model_follow_mappings_without_repeats() {
    let repo = sample();
    let providers = repo.get_providers_for_model("gpt-4o").unwrap();
    assert_eq!(ids_of_providers(&providers), vec!["openai", "azure"]);
    let providers = repo.get_providers_for_model("gpt-4o-mini").unwrap();
    assert_eq!(ids_of_providers(&providers), vec!["openai"]);
    assert!(repo.get_providers_for_model("unknown").unwrap().is_empty());
}

#[test]
fn mapping_to_missing_model_lists_only_the_provider_side() {
    let repo = TomlRepository::from_cache(TomlFileStructure {
        providers: vec![provider("p", "P")],
        models: vec![model("m", "M")],
        provider_models: vec![link("p", "ghost")],
    });
    assert!(repo.get_models_for_provider("p").unwrap().is_empty());
    let providers = repo.get_providers_for_model("ghost").unwrap();
    assert_eq!(ids_of_providers(&providers), vec!["p"]);
}

#[test]
fn links_are_symmetric_on_sample() {
    let repo = sample();
    for p in ["openai", "azure", "local"] {
        for m in ["gpt-4o", "gpt-4o-mini", "llama"] {
            let model_listed = repo
                .get_models_for_provider(p)
                .unwrap()
                .iter()
                .any(|x| x.id == m);
            let provider_listed = repo
                .get_providers_for_model(m)
                .unwrap()
                .iter()
                .any(|x| x.id == p);
            assert_eq!(model_listed, provider_listed, "provider {p} model {m}");
        }
    }
}

#[test]
fn clones_keep_every_field() {
    let p = provider("a", "A");
    let q = p.clone();
    assert!(matches!(q.auth_method, ProviderAuthMethod::NoAuth));
    assert_eq!((q.id, q.name, q.url), (p.id, p.name, p.url));
    let m = model("x", "X").clone();
    assert_eq!((m.id.as_str(), m.name.as_str()), ("x", "X"));
    let l = link("a", "x").clone();
    assert_eq!((l.provider_id.as_str(), l.model_id.as_str()), ("a", "x"));
}
