//! What the gateway decides and reports when it starts.
use vstd::prelude::*;

use crate::data::models::{Model, Provider};
use crate::data::traits::{DataError, DataRepository};

verus! {

broadcast use vstd::string::group_string_axioms;

/// Where the gateway's repository lives.
#[derive(Debug, PartialEq, Eq)]
pub enum RepositorySource {
    /// A PostgreSQL database at this connection URL.
    Database { url: String },
    /// A TOML file at this path.
    TomlFile { path: String },
}

/// The path of the TOML file that holds the repository when no database is
/// configured.
pub open spec fn default_repository_path() -> Seq<char> {
    "config.toml"@
}

/// Where the repository lives. A build with database support uses the
/// database at the configured URL where one is set; otherwise, and in a build
/// without database support whatever is configured, the file `config.toml`.
pub fn repository_source(database_support: bool, database_url: Option<String>) -> (r:
    RepositorySource)
    ensures
        match database_url {
            Some(url) if database_support => r == RepositorySource::Database { url },
            _ => r matches RepositorySource::TomlFile { path } && path@
                == default_repository_path(),
        },
{
    match database_url {
        Some(url) if database_support => RepositorySource::Database { url },
        _ => RepositorySource::TomlFile { path: "config.toml".to_string() },
    }
}

/// Whether `lines` describe `provider` and the models it serves: its name,
/// then one line per model in order.
pub open spec fn is_settings_report(lines: Seq<String>, provider: Provider, models: Seq<Model>) -> bool {
    &&& lines.len() == models.len() + 1
    &&& lines[0]@ == "Found Provider: "@ + provider.name@
    &&& forall|i: int|
        0 <= i < models.len() ==> (#[trigger] lines[i + 1])@ == "  -> Supports Model: "@
            + models[i].name@
}

/// The lines that describe the provider the gateway reports at startup:
/// nothing where it is absent, else its name followed by one line per model.
pub fn settings_report(provider: &Option<Provider>, models: &Vec<Model>) -> (r: Vec<String>)
    ensures
        match *provider {
            None => r@.len() == 0,
            Some(p) => is_settings_report(r@, p, models@),
        },
{
    let mut lines: Vec<String> = Vec::new();
    match provider {
        None => {},
        Some(p) => {
            let mut first = "Found Provider: ".to_string();
            first.append(p.name.as_str());
            lines.push(first);
            let mut i: usize = 0;
            while i < models.len()
                invariant
                    i <= models@.len(),
                    lines@.len() == i + 1,
                    lines@[0]@ == "Found Provider: "@ + p.name@,
                    forall|j: int|
                        0 <= j < i ==> (#[trigger] lines@[j + 1])@ == "  -> Supports Model: "@
                            + models@[j].name@,
                decreases models@.len() - i,
            {
                let mut line = "  -> Supports Model: ".to_string();
                line.append(models[i].name.as_str());
                lines.push(line);
                i += 1;
            }
        },
    }
    lines
}

/// The id of the provider that the gateway reports at startup.
pub open spec fn reported_provider_id() -> Seq<char> {
    "openai"@
}

/// The startup report, given what the two repository queries answered: the
/// lookup of the provider `openai`, and, where it was found, the lookup of the
/// models it serves. A failed query's error is the answer, unchanged; no
/// provider gives no lines; else the lines of `settings_report`.
pub fn settings_from_lookups(
    provider: Result<Option<Provider>, DataError>,
    models: Option<Result<Vec<Model>, DataError>>,
) -> (r: Result<Vec<String>, DataError>)
    requires
        provider matches Ok(Some(_)) ==> models is Some,
    ensures
        match provider {
            Err(e) => r == Err::<Vec<String>, DataError>(e),
            Ok(None) => r matches Ok(lines) && lines@.len() == 0,
            Ok(Some(p)) => match models->Some_0 {
                Err(e) => r == Err::<Vec<String>, DataError>(e),
                Ok(found) => r matches Ok(lines) && is_settings_report(lines@, p, found@),
            },
        },
{
    match provider {
        Err(e) => Err(e),
        Ok(None) => Ok(Vec::new()),
        Ok(Some(p)) => match models.unwrap() {
            Err(e) => Err(e),
            Ok(found) => {
                let provider = Some(p);
                Ok(settings_report(&provider, &found))
            },
        },
    }
}

/// The startup report of `repo`: the lines of `settings_report` for the
/// provider with id `openai` and the models it serves. It fails only where a
/// query of the repository fails, so never on a repository that answers
/// every query.
pub fn system_settings<R: DataRepository>(repo: &R) -> (r: Result<Vec<String>, DataError>)
    ensures
        repo.spec_answers() ==> r is Ok,
        r matches Ok(lines) ==> match repo.spec_provider(reported_provider_id()) {
            None => lines@.len() == 0,
            Some(p) => is_settings_report(lines@, p, repo.spec_models_for_provider(p.id@)),
        },
{
    let provider = repo.get_provider("openai");
    let models = match &provider {
        Ok(Some(p)) => Some(repo.get_models_for_provider(p.id.as_str())),
        _ => None,
    };
    settings_from_lookups(provider, models)
}

} // verus!
