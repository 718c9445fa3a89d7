use ai_api_gateway::secrets_loaders::composite_secret_loader::CompositeSecretLoader;
use ai_api_gateway::secrets_loaders::env_secret_loader::EnvSecretLoader;
use ai_api_gateway::secrets_loaders::file_secret_loader::{trim_end_line_breaks, FileSecretLoader};
use ai_api_gateway::secrets_loaders::traits::SecretLoader;
use ai_api_gateway::secrets_loaders::types::{SecretFetch, SecretLoadError, SecretRef};

fn env_ref(name: &str) -> SecretRef {
    SecretRef::Env { name: name.to_string() }
}

fn file_ref(path: &str) -> SecretRef {
    SecretRef::File { path: path.to_string() }
}

fn io_error() -> std::io::Error {
    std::io::Error::new(std::io::ErrorKind::NotFound, "no such file")
}

#[test]
fn env_loader_supports_only_env() {
    assert!(EnvSecretLoader.supports(&env_ref("KEY")));
    assert!(!EnvSecretLoader.supports(&file_ref("/run/key")));
}

#[test]
fn env_loader_returns_value() {
    let got = EnvSecretLoader.load(&env_ref("KEY"), SecretFetch::EnvVar(Some("s3cr3t".to_string())));
    assert_eq!(got.unwrap(), "s3cr3t");
}

#[test]
fn env_loader_keeps_line_breaks() {
    let got = EnvSecretLoader.load(&env_ref("KEY"), SecretFetch::EnvVar(Some("v\n".to_string())));
    assert_eq!(got.unwrap(), "v\n");
}

#[test]
fn env_loader_missing_variable() {
    match EnvSecretLoader.load(&env_ref("KEY"), SecretFetch::EnvVar(None)) {
        Err(SecretLoadError::MissingEnvVar(name)) => assert_eq!(name, "KEY"),
        other => panic!("unexpected {other:?}"),
    }
}

#[test]
fn env_loader_rejects_file_reference() {
    let got = EnvSecretLoader.load(&file_ref("/k"), SecretFetch::FileContents(Ok("x".to_string())));
    assert!(matches!(got, Err(SecretLoadError::UnsupportedSecretSource)));
}

#[test]
fn file_loader_supports_only_files() {
    assert!(FileSecretLoader.supports(&file_ref("/k")));
    assert!(!FileSecretLoader.supports(&env_ref("K")));
}

#[test]
fn file_loader_trims_trailing_line_breaks() {
    let got = FileSecretLoader.load(&file_ref("/k"), SecretFetch::FileContents(Ok("token\r\n\n".to_string())));
    assert_eq!(got.unwrap(), "token");
}

#[test]
fn file_loader_keeps_inner_line_breaks_and_spaces() {
    let got = FileSecretLoader.load(&file_ref("/k"), SecretFetch::FileContents(Ok(" a\nb \n".to_string())));
    assert_eq!(got.unwrap(), " a\nb ");
}

#[test]
fn file_loader_read_error() {
    match FileSecretLoader.load(&file_ref("/run/key"), SecretFetch::FileContents(Err(io_error()))) {
        Err(SecretLoadError::ReadFile { path, source }) => {
            assert_eq!(path, "/run/key");
            assert_eq!(source.kind(), std::io::ErrorKind::NotFound);
        }
        other => panic!("unexpected {other:?}"),
    }
}

#[test]
fn file_loader_rejects_env_reference() {
    let got = FileSecretLoader.load(&env_ref("K"), SecretFetch::EnvVar(Some("x".to_string())));
    assert!(matches!(got, Err(SecretLoadError::UnsupportedSecretSource)));
}

#[test]
fn trim_examples() {
    assert_eq!(trim_end_line_breaks("abc"), "abc");
    assert_eq!(trim_end_line_breaks("abc\n"), "abc");
    assert_eq!(trim_end_line_breaks("abc\r\n\r\n"), "abc");
    assert_eq!(trim_end_line_breaks("\n\r\n"), "");
    assert_eq!(trim_end_line_breaks(""), "");
    assert_eq!(trim_end_line_breaks("a\nb"), "a\nb");
    assert_eq!(trim_end_line_breaks("ünï\n"), "ünï");
}

#[test]
fn trim_is_idempotent() {
    for s in ["x\r\n", "\n", "abc", "a\n\nb\r"] {
        let once = trim_end_line_breaks(s);
        assert_eq!(trim_end_line_breaks(&once), once);
    }
}

#[test]
fn composite_supports_when_any_loader_does() {
    let both = CompositeSecretLoader::new(vec![Box::new(EnvSecretLoader), Box::new(FileSecretLoader)]);
    assert!(both.supports(&env_ref("K")));
    assert!(both.supports(&file_ref("/k")));
    let env_only = CompositeSecretLoader::new(vec![Box::new(EnvSecretLoader)]);
    assert!(!env_only.supports(&file_ref("/k")));
    let empty = CompositeSecretLoader::new(vec![]);
    assert!(!empty.supports(&env_ref("K")));
}

#[test]
fn composite_delegates_to_supporting_loader() {
    let both = CompositeSecretLoader::new(vec![Box::new(EnvSecretLoader), Box::new(FileSecretLoader)]);
    let from_env = both.load(&env_ref("K"), SecretFetch::EnvVar(Some("e".to_string())));
    assert_eq!(from_env.unwrap(), "e");
    let from_file = both.load(&file_ref("/k"), SecretFetch::FileContents(Ok("f\n".to_string())));
    assert_eq!(from_file.unwrap(), "f");
}

#[test]
fn composite_without_supporting_loader_is_unsupported() {
    let env_only = CompositeSecretLoader::new(vec![Box::new(EnvSecretLoader)]);
    let got = env_only.load(&file_ref("/k"), SecretFetch::FileContents(Ok("f".to_string())));
    assert!(matches!(got, Err(SecretLoadError::UnsupportedSecretSource)));
    let empty = CompositeSecretLoader::new(vec![]);
    let got = empty.load(&env_ref("K"), SecretFetch::EnvVar(Some("e".to_string())));
    assert!(matches!(got, Err(SecretLoadError::UnsupportedSecretSource)));
}

#[test]
fn nested_composite_delegates() {
    let inner = CompositeSecretLoader::new(vec![Box::new(FileSecretLoader)]);
    let outer = CompositeSecretLoader::new(vec![Box::new(EnvSecretLoader), Box::new(inner)]);
    let got = outer.load(&file_ref("/k"), SecretFetch::FileContents(Ok("nested\r\n".to_string())));
    assert_eq!(got.unwrap(), "nested");
}

#[test]
fn secret_ref_clone_keeps_contents() {
    match env_ref("A").clone() {
        SecretRef::Env { name } => assert_eq!(name, "A"),
        other => panic!("unexpected {other:?}"),
    }
    match file_ref("/p").clone() {
        SecretRef::File { path } => assert_eq!(path, "/p"),
        other => panic!("unexpected {other:?}"),
    }
}
