use ai_api_gateway::config::toml_loader::TomlConfigLoader;
use ai_api_gateway::data::models::{Model, Provider, ProviderModelMapping, TomlFileStructure};
use ai_api_gateway::data::toml_repo::TomlRepository;
use ai_api_gateway::data::traits::DataError;
use ai_api_gateway::gateway::forward::{
    candidate_providers, extract_requested_model, lookup_outcome, pick_provider, prepare_upstream_headers,
    prepare_upstream_headers_within_capacity, route_request,
    status_class, upstream_url, ForwardError,
};
use ai_api_gateway::gateway::startup::{
    repository_source, settings_from_lookups, settings_report, system_settings, RepositorySource,
};
use ai_api_gateway::gateway::terminal::{scramble_finished, scramble_frame};
use ai_api_gateway::model_extractors::openai_json_extractor::{ModelField, OpenAiJsonExtractor};
use ai_api_gateway::model_extractors::traits::ModelExtractor;
use ai_api_gateway::model_extractors::types::ModelExtractionError;
use ai_api_gateway::requests::request_context::RequestContext;
use ai_api_gateway::secrets_loaders::env_secret_loader::EnvSecretLoader;
use ai_api_gateway::secrets_loaders::types::{ProviderAuthMethod, SecretFetch, SecretRef};
use axum::body::Bytes;
use axum::http::{HeaderMap, HeaderValue, Method};

fn provider(id: &str) -> Provider {
    Provider {
        id: id.to_string(),
        name: id.to_uppercase(),
        url: format!("https://{id}.example/"),
        auth_method: ProviderAuthMethod::NoAuth,
    }
}

fn json_error() -> serde_json::Error {
    serde_json::from_str::<serde_json::Value>("{not json").unwrap_err()
}

fn repo() -> TomlRepository {
    TomlRepository::from_cache(TomlFileStructure {
        providers: vec![provider("openai"), provider("azure")],
        models: vec![
            Model { id: "gpt".to_string(), name: "GPT".to_string() },
            Model { id: "embed".to_string(), name: "Embed".to_string() },
        ],
        provider_models: vec![
            ProviderModelMapping { provider_id: "openai".to_string(), model_id: "gpt".to_string() },
            ProviderModelMapping { provider_id: "openai".to_string(), model_id: "embed".to_string() },
            ProviderModelMapping { provider_id: "azure".to_string(), model_id: "gpt".to_string() },
        ],
    })
}

#[test]
fn status_class_labels() {
    assert_eq!(status_class(100), "1xx");
    assert_eq!(status_class(199), "1xx");
    assert_eq!(status_class(200), "2xx");
    assert_eq!(status_class(302), "3xx");
    assert_eq!(status_class(404), "4xx");
    assert_eq!(status_class(599), "5xx");
    assert_eq!(status_class(99), "unknown");
    assert_eq!(status_class(600), "unknown");
    assert_eq!(status_class(0), "unknown");
}

#[test]
fn forward_error_status_codes() {
    assert_eq!(ForwardError::BadRequest(ModelExtractionError::MissingModel).status_code(), 400);
    assert_eq!(ForwardError::InternalServerError.status_code(), 500);
    assert_eq!(ForwardError::BadGateway.status_code(), 502);
}

#[test]
fn openai_extractor_reads_model_field() {
    let got = OpenAiJsonExtractor.extract(Ok(ModelField { model: Some("gpt-4o".to_string()) }));
    assert_eq!(got.unwrap(), Some("gpt-4o".to_string()));
    let got = OpenAiJsonExtractor.extract(Ok(ModelField { model: None }));
    assert_eq!(got.unwrap(), None);
}

#[test]
fn openai_extractor_invalid_json() {
    let got = OpenAiJsonExtractor.extract(Err(json_error()));
    assert!(matches!(got, Err(ModelExtractionError::InvalidJson(_))));
}

#[test]
fn extraction_error_messages() {
    assert_eq!(
        ModelExtractionError::MissingModel.message(),
        "request body does not contain a top-level 'model' field"
    );
    assert_eq!(
        ModelExtractionError::UnsupportedContentType.message(),
        "request content type is not supported for model extraction"
    );
    let err = json_error();
    let detail = err.to_string();
    assert_eq!(
        ModelExtractionError::InvalidJson(err).message(),
        format!("request body is not valid JSON: {detail}")
    );
    assert!(matches!(ModelExtractionError::from(json_error()), ModelExtractionError::InvalidJson(_)));
}

#[test]
fn requested_model_or_bad_request() {
    assert_eq!(
        extract_requested_model(Ok(ModelField { model: Some("m".to_string()) })).unwrap(),
        Some("m".to_string())
    );
    assert_eq!(extract_requested_model(Ok(ModelField { model: None })).unwrap(), None);
    match extract_requested_model(Err(json_error())) {
        Err(e @ ForwardError::BadRequest(ModelExtractionError::InvalidJson(_))) => {
            assert_eq!(e.status_code(), 400)
        }
        other => panic!("unexpected {other:?}"),
    }
}

#[test]
fn candidate_providers_from_repository() {
    let r = repo();
    let got = candidate_providers(&r, &Some("gpt".to_string())).unwrap();
    let ids: Vec<&str> = got.iter().map(|p| p.id.as_str()).collect();
    assert_eq!(ids, vec!["openai", "azure"]);
    assert!(candidate_providers(&r, &None).unwrap().is_empty());
    assert!(candidate_providers(&r, &Some("none".to_string())).unwrap().is_empty());
}

#[test]
fn lookup_failure_is_internal_error() {
    let failed: Result<Vec<Provider>, DataError> = Err(DataError { message: "down".to_string() });
    assert!(matches!(lookup_outcome(failed), Err(ForwardError::InternalServerError)));
    let ok: Result<Vec<Provider>, DataError> = Ok(vec![provider("a")]);
    assert_eq!(lookup_outcome(ok).unwrap().len(), 1);
}

#[test]
fn pick_provider_from_empty_is_bad_gateway() {
    let none: Vec<Provider> = vec![];
    assert!(matches!(pick_provider(&none), Err(ForwardError::BadGateway)));
}

#[test]
fn pick_provider_answers_a_member() {
    let one = vec![provider("only")];
    assert_eq!(pick_provider(&one).unwrap().id, "only");
    let many = vec![provider("a"), provider("b"), provider("c")];
    for _ in 0..50 {
        let p = pick_provider(&many).unwrap();
        assert!(["a", "b", "c"].contains(&p.id.as_str()));
    }
}

#[test]
fn upstream_url_joins_with_one_slash() {
    assert_eq!(upstream_url("https://api.openai.com/", "/v1/chat/completions"), "https://api.openai.com/v1/chat/completions");
    assert_eq!(upstream_url("https://api.openai.com", "v1/models"), "https://api.openai.com/v1/models");
    assert_eq!(upstream_url("https://h.example///", "///x//y/"), "https://h.example/x//y/");
    assert_eq!(upstream_url("", ""), "/");
    assert_eq!(upstream_url("///", "///"), "/");
    assert_eq!(upstream_url("https://ü.example/", "/ä"), "https://ü.example/ä");
}

#[test]
fn upstream_headers_get_auth_and_lose_host() {
    let mut h = HeaderMap::new();
    h.insert("host", HeaderValue::from_static("gateway.local"));
    h.insert("accept", HeaderValue::from_static("*/*"));
    let auth = ProviderAuthMethod::Header {
        name: "Authorization".to_string(),
        value: SecretRef::Env { name: "KEY".to_string() },
    };
    let r = prepare_upstream_headers(&mut h, &auth, &EnvSecretLoader, Some(SecretFetch::EnvVar(Some("Bearer x".to_string()))));
    assert!(r.is_ok());
    assert!(h.get("host").is_none());
    assert_eq!(h.get("authorization").unwrap(), "Bearer x");
    assert_eq!(h.get("accept").unwrap(), "*/*");
}

#[test]
fn upstream_headers_without_auth_only_lose_host() {
    let mut h = HeaderMap::new();
    h.insert("host", HeaderValue::from_static("gateway.local"));
    let r = prepare_upstream_headers(&mut h, &ProviderAuthMethod::NoAuth, &EnvSecretLoader, None);
    assert!(r.is_ok());
    assert!(h.is_empty());
}

#[test]
fn upstream_headers_auth_failure_keeps_host() {
    let mut h = HeaderMap::new();
    h.insert("host", HeaderValue::from_static("gateway.local"));
    let auth = ProviderAuthMethod::Header {
        name: "x-key".to_string(),
        value: SecretRef::Env { name: "KEY".to_string() },
    };
    let r = prepare_upstream_headers(&mut h, &auth, &EnvSecretLoader, Some(SecretFetch::EnvVar(None)));
    assert!(matches!(r, Err(ForwardError::InternalServerError)));
    assert_eq!(h.get("host").unwrap(), "gateway.local");
}

#[test]
fn settings_report_lines() {
    let p = Some(provider("openai"));
    let models = vec![
        Model { id: "gpt".to_string(), name: "GPT".to_string() },
        Model { id: "e".to_string(), name: "Embed".to_string() },
    ];
    assert_eq!(
        settings_report(&p, &models),
        vec!["Found Provider: OPENAI", "  -> Supports Model: GPT", "  -> Supports Model: Embed"]
    );
    assert!(settings_report(&None, &models).is_empty());
    assert_eq!(settings_report(&p, &vec![]), vec!["Found Provider: OPENAI"]);
}

#[test]
fn system_settings_of_repository() {
    let lines = system_settings(&repo()).unwrap();
    assert_eq!(lines, vec!["Found Provider: OPENAI", "  -> Supports Model: GPT", "  -> Supports Model: Embed"]);
    let empty = TomlRepository::from_cache(TomlFileStructure { providers: vec![], models: vec![], provider_models: vec![] });
    assert!(system_settings(&empty).unwrap().is_empty());
}

#[test]
fn repository_source_prefers_database() {
    assert_eq!(
        repository_source(true, Some("postgres://db".to_string())),
        RepositorySource::Database { url: "postgres://db".to_string() }
    );
    assert_eq!(repository_source(true, None), RepositorySource::TomlFile { path: "config.toml".to_string() });
}

#[test]
fn repository_source_without_database_support_reads_file() {
    assert_eq!(
        repository_source(false, Some("postgres://db".to_string())),
        RepositorySource::TomlFile { path: "config.toml".to_string() }
    );
    assert_eq!(repository_source(false, None), RepositorySource::TomlFile { path: "config.toml".to_string() });
}

const TARGET: &str = "I am sooo\n healthy!";
const ALPHABET: &str = "ABCDEFGHIJKLMNOPQRSTUVWXYZabcdefghijklmnopqrstuvwxyz0123456789!@#$%^&*()_+-=";
const CLEAR: &str = "\x1B[2J\x1B[H";

#[test]
fn last_frame_shows_target() {
    let frame = scramble_frame(35, &vec![false; 19]);
    assert_eq!(frame, format!("{CLEAR}{TARGET}\n"));
}

#[test]
fn frames_after_last_show_target_without_newline() {
    let frame = scramble_frame(36, &vec![false; 19]);
    assert_eq!(frame, format!("{CLEAR}{TARGET}"));
}

#[test]
fn first_frame_scrambles_every_letter_but_line_break() {
    let frame = scramble_frame(0, &vec![true; 19]);
    assert!(frame.starts_with(CLEAR));
    let body: Vec<char> = frame[CLEAR.len()..].chars().collect();
    assert_eq!(body.len(), 19);
    for (i, c) in body.iter().enumerate() {
        if i == 9 {
            assert_eq!(*c, '\n');
        } else {
            assert!(ALPHABET.contains(*c));
        }
    }
}

#[test]
fn middle_frame_shows_rolled_letters_whose_turn_came() {
    // Frame 10: letters with 35 * i / 19 < 10, that is i <= 5, may show.
    let rolls: Vec<bool> = (0..19).map(|i| i % 2 == 0).collect();
    let frame = scramble_frame(10, &rolls);
    let body: Vec<char> = frame[CLEAR.len()..].chars().collect();
    let target: Vec<char> = TARGET.chars().collect();
    for i in [0usize, 2, 4] {
        assert_eq!(body[i], target[i]);
    }
    assert_eq!(body[9], '\n');
    for (i, c) in body.iter().enumerate() {
        assert!(*c == target[i] || ALPHABET.contains(*c));
    }
}

#[test]
fn toml_config_loader_keeps_path() {
    let loader = TomlConfigLoader::new("config/app.toml");
    assert_eq!(loader.file_path(), "config/app.toml");
}

#[test]
fn request_context_keeps_parts() {
    let mut headers = HeaderMap::new();
    headers.insert("x", HeaderValue::from_static("1"));
    let ctx = RequestContext::new(Method::POST, "v1/chat".to_string(), headers, Bytes::from_static(b"{}"));
    assert_eq!(ctx.method, Method::POST);
    assert_eq!(ctx.path, "v1/chat");
    assert_eq!(ctx.headers.get("x").unwrap(), "1");
    assert_eq!(&ctx.body[..], b"{}");
}

#[test]
fn upstream_headers_within_capacity() {
    let mut h = HeaderMap::new();
    h.insert("host", HeaderValue::from_static("gateway.local"));
    let r = prepare_upstream_headers_within_capacity(&mut h, &ProviderAuthMethod::NoAuth, &EnvSecretLoader, None);
    assert!(matches!(r, Some(Ok(()))));
    assert!(h.get("host").is_none());
}

fn data_error(msg: &str) -> DataError {
    DataError { message: msg.to_string() }
}

#[test]
fn settings_from_lookups_passes_errors_through() {
    match settings_from_lookups(Err(data_error("provider query failed")), None) {
        Err(e) => assert_eq!(e.message, "provider query failed"),
        other => panic!("unexpected {other:?}"),
    }
    match settings_from_lookups(Ok(Some(provider("openai"))), Some(Err(data_error("models query failed")))) {
        Err(e) => assert_eq!(e.message, "models query failed"),
        other => panic!("unexpected {other:?}"),
    }
}

#[test]
fn settings_from_lookups_reports() {
    assert!(settings_from_lookups(Ok(None), None).unwrap().is_empty());
    let models = vec![Model { id: "gpt".to_string(), name: "GPT".to_string() }];
    assert_eq!(
        settings_from_lookups(Ok(Some(provider("openai"))), Some(Ok(models))).unwrap(),
        vec!["Found Provider: OPENAI", "  -> Supports Model: GPT"]
    );
}

#[test]
fn route_request_picks_served_provider_and_url() {
    let r = repo();
    let route = route_request(&r, &Some("embed".to_string()), "/v1/embeddings").unwrap();
    assert_eq!(route.provider.id, "openai");
    assert_eq!(route.url, "https://openai.example/v1/embeddings");
    for _ in 0..20 {
        let route = route_request(&r, &Some("gpt".to_string()), "chat").unwrap();
        assert!(route.provider.id == "openai" || route.provider.id == "azure");
        assert_eq!(route.url, format!("https://{}.example/chat", route.provider.id));
    }
}

#[test]
fn route_request_without_provider_is_bad_gateway() {
    let r = repo();
    assert!(matches!(route_request(&r, &None, "x"), Err(ForwardError::BadGateway)));
    assert!(matches!(route_request(&r, &Some("unknown".to_string()), "x"), Err(ForwardError::BadGateway)));
}

#[test]
fn scramble_ends_after_last_frame() {
    assert!(!scramble_finished(0));
    assert!(!scramble_finished(35));
    assert!(scramble_finished(36));
}
