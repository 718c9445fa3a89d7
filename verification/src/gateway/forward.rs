//! The decisions of forwarding a request: which model it asks for, which
//! providers may serve it, where it goes, which headers go with it, and how
//! its outcome is labelled.
use vstd::prelude::*;
use vstd::string::StrSliceExecFns;

use axum::http::{HeaderMap, HeaderValue};

use crate::data::models::Provider;
use crate::data::traits::{DataError, DataRepository};
use crate::headers::{header_entries, header_map_remove, header_name_for, insert_capacity};
use crate::model_extractors::openai_json_extractor::{ModelField, OpenAiJsonExtractor};
use crate::model_extractors::traits::ModelExtractor;
use crate::model_extractors::types::ModelExtractionError;
use crate::random::{choose_provider, thread_rng};
use crate::secrets_loaders::apply::{
    apply_auth_within_capacity, auth_applies, auth_fetch_fits, auth_inserts, authenticated_entries,
};
use crate::secrets_loaders::traits::SecretLoader;
use crate::secrets_loaders::types::{ProviderAuthMethod, SecretFetch};

verus! {

broadcast use vstd::string::group_string_axioms;

/// Why a request could not be forwarded; each answers the client with an
/// HTTP status.
#[derive(Debug)]
pub enum ForwardError {
    /// The body named no model in a way that could be read, for this reason.
    BadRequest(ModelExtractionError),
    /// The repository or the authentication failed.
    InternalServerError,
    /// No provider serves the model, or the provider could not be reached.
    BadGateway,
}

/// The HTTP status code that answers `e`.
pub open spec fn forward_status(e: ForwardError) -> u16 {
    match e {
        ForwardError::BadRequest(_) => 400,
        ForwardError::InternalServerError => 500,
        ForwardError::BadGateway => 502,
    }
}

impl ForwardError {
    pub fn status_code(&self) -> (r: u16)
        ensures
            r == forward_status(*self),
    {
        match self {
            ForwardError::BadRequest(_) => 400,
            ForwardError::InternalServerError => 500,
            ForwardError::BadGateway => 502,
        }
    }
}

/// The class of an HTTP status code, as metrics label it.
pub open spec fn status_class_label(code: u16) -> Seq<char> {
    if 100 <= code <= 199 {
        "1xx"@
    } else if 200 <= code <= 299 {
        "2xx"@
    } else if 300 <= code <= 399 {
        "3xx"@
    } else if 400 <= code <= 499 {
        "4xx"@
    } else if 500 <= code <= 599 {
        "5xx"@
    } else {
        "unknown"@
    }
}

/// Labels a status code by its class: `1xx` to `5xx`, else `unknown`.
pub fn status_class(code: u16) -> (r: &'static str)
    ensures
        r@ == status_class_label(code),
{
    if 100 <= code && code <= 199 {
        "1xx"
    } else if 200 <= code && code <= 299 {
        "2xx"
    } else if 300 <= code && code <= 399 {
        "3xx"
    } else if 400 <= code && code <= 499 {
        "4xx"
    } else if 500 <= code && code <= 599 {
        "5xx"
    } else {
        "unknown"
    }
}

/// The model that a request asks for, given what decoding its body gave: the
/// body's `model` field, or `BadRequest` with the extraction error where the
/// body could not be decoded.
pub fn extract_requested_model(parsed: Result<ModelField, serde_json::Error>) -> (r: Result<
    Option<String>,
    ForwardError,
>)
    ensures
        match parsed {
            Ok(field) => r == Ok::<Option<String>, ForwardError>(field.model),
            Err(err) => r == Err::<Option<String>, ForwardError>(
                ForwardError::BadRequest(ModelExtractionError::InvalidJson(err)),
            ),
        },
{
    let extractor = OpenAiJsonExtractor;
    match extractor.extract(parsed) {
        Ok(model) => Ok(model),
        Err(e) => Err(ForwardError::BadRequest(e)),
    }
}

/// The providers that a repository lookup gave, or `InternalServerError`
/// where the lookup failed.
pub fn lookup_outcome(found: Result<Vec<Provider>, DataError>) -> (r: Result<
    Vec<Provider>,
    ForwardError,
>)
    ensures
        match found {
            Ok(providers) => r == Ok::<Vec<Provider>, ForwardError>(providers),
            Err(_) => r == Err::<Vec<Provider>, ForwardError>(ForwardError::InternalServerError),
        },
{
    match found {
        Ok(providers) => Ok(providers),
        Err(_) => Err(ForwardError::InternalServerError),
    }
}

/// The providers that may serve `model`: those the repository lists for it,
/// none where the request names no model, and `InternalServerError` where the
/// repository fails, which a repository that answers every query never does.
pub fn candidate_providers<R: DataRepository>(repo: &R, model: &Option<String>) -> (r: Result<
    Vec<Provider>,
    ForwardError,
>)
    ensures
        repo.spec_answers() ==> r is Ok,
        match *model {
            Some(m) => match r {
                Ok(providers) => providers@ == repo.spec_providers_for_model(m@),
                Err(e) => e == ForwardError::InternalServerError,
            },
            None => r matches Ok(providers) && providers@.len() == 0,
        },
{
    match model {
        Some(m) => lookup_outcome(repo.get_providers_for_model(m.as_str())),
        None => Ok(Vec::new()),
    }
}

/// The provider that a request goes to: one of `providers` at random, or
/// `BadGateway` where there is none.
pub fn pick_provider(providers: &Vec<Provider>) -> (r: Result<&Provider, ForwardError>)
    ensures
        providers@.len() == 0 <==> r is Err,
        r matches Err(e) ==> e == ForwardError::BadGateway,
        r matches Ok(p) ==> providers@.contains(*p),
{
    let mut rng = thread_rng();
    match choose_provider(providers.as_slice(), &mut rng) {
        Some(p) => Ok(p),
        None => Err(ForwardError::BadGateway),
    }
}

/// `s` without the slashes at its end.
pub open spec fn trim_end_slashes(s: Seq<char>) -> Seq<char>
    decreases s.len(),
{
    if s.len() > 0 && s.last() == '/' {
        trim_end_slashes(s.drop_last())
    } else {
        s
    }
}

/// `s` without the slashes at its start.
pub open spec fn trim_start_slashes(s: Seq<char>) -> Seq<char>
    decreases s.len(),
{
    if s.len() > 0 && s[0] == '/' {
        trim_start_slashes(s.drop_first())
    } else {
        s
    }
}

/// The upstream URL for a request to `path` at a provider based at `base`:
/// the two joined by exactly the one slash between them.
pub open spec fn upstream_url_for(base: Seq<char>, path: Seq<char>) -> Seq<char> {
    trim_end_slashes(base) + seq!['/'] + trim_start_slashes(path)
}

/// Builds the upstream URL for a request to `path` at a provider based at `base`.
pub fn upstream_url(base: &str, path: &str) -> (r: String)
    ensures
        r@ == upstream_url_for(base@, path@),
{
    let base_len = base.unicode_len();
    let mut end = base_len;
    assert(base@.take(base_len as int) =~= base@);
    while end > 0 && base.get_char(end - 1) == '/'
        invariant
            end <= base_len,
            base_len == base@.len(),
            trim_end_slashes(base@) == trim_end_slashes(base@.take(end as int)),
        decreases end,
    {
        assert(base@.take(end as int).drop_last() =~= base@.take(end - 1));
        end -= 1;
    }
    let path_len = path.unicode_len();
    let mut start: usize = 0;
    assert(path@.subrange(0, path_len as int) =~= path@);
    while start < path_len && path.get_char(start) == '/'
        invariant
            start <= path_len,
            path_len == path@.len(),
            trim_start_slashes(path@) == trim_start_slashes(
                path@.subrange(start as int, path_len as int),
            ),
        decreases path_len - start,
    {
        assert(path@.subrange(start as int, path_len as int).drop_first() =~= path@.subrange(
            start + 1,
            path_len as int,
        ));
        start += 1;
    }
    let mut url = base.substring_char(0, end).to_string();
    url.append("/");
    url.append(path.substring_char(start, path_len));
    proof {
        reveal_strlit("/");
        assert(base@.subrange(0, end as int) =~= base@.take(end as int));
    }
    url
}

/// Where a request goes: the provider picked for it and the upstream URL.
#[derive(Debug)]
pub struct Route {
    pub provider: Provider,
    pub url: String,
}

/// Routes a request for `model` to `path`: picks one of the providers that
/// the repository lists for the model at random and builds the upstream URL at
/// it. A request that names no model, or a model that no provider serves,
/// gives `BadGateway`; a failed repository query gives `InternalServerError`.
pub fn route_request<R: DataRepository>(repo: &R, model: &Option<String>, path: &str) -> (r: Result<
    Route,
    ForwardError,
>)
    ensures
        match *model {
            None => r matches Err(e) && e == ForwardError::BadGateway,
            Some(m) => {
                let served = repo.spec_providers_for_model(m@);
                &&& r matches Ok(route) ==> served.contains(route.provider) && route.url@
                    == upstream_url_for(route.provider.url@, path@)
                &&& r matches Err(e) ==> e == ForwardError::InternalServerError || (e
                    == ForwardError::BadGateway && served.len() == 0)
                &&& repo.spec_answers() ==> (r is Ok <==> served.len() > 0)
                &&& repo.spec_answers() ==> (r matches Err(e) ==> e == ForwardError::BadGateway)
            },
        },
{
    let providers = candidate_providers(repo, model)?;
    let provider = pick_provider(&providers)?;
    let url = upstream_url(provider.url.as_str(), path);
    Ok(Route { provider: provider.clone(), url })
}

/// Makes the headers of the upstream request from those of the incoming one,
/// where the header map has room for the authentication: adds the provider's
/// authentication, then drops `host`. Where the authentication cannot be added
/// the headers stay as they were and the answer is `InternalServerError`. The
/// answer is `None`, with the headers unchanged, only where a header would be
/// set but the map holds so many names that adding one could outgrow it.
pub fn prepare_upstream_headers_within_capacity<L: SecretLoader + ?Sized>(
    headers: &mut HeaderMap<HeaderValue>,
    auth: &ProviderAuthMethod,
    secret_loader: &L,
    fetched: Option<SecretFetch>,
) -> (r: Option<Result<(), ForwardError>>)
    requires
        auth_fetch_fits(*auth, fetched),
    ensures
        r is None <==> auth_inserts(*auth, secret_loader, fetched) && header_entries(
            *old(headers),
        ).dom().len() > insert_capacity(),
        r is None ==> *final(headers) == *old(headers),
        r matches Some(res) ==> {
            &&& res is Ok <==> auth_applies(*auth, secret_loader, fetched)
            &&& res matches Err(e) ==> e == ForwardError::InternalServerError && *final(headers)
                == *old(headers)
            &&& res is Ok ==> header_entries(*final(headers)) == authenticated_entries(
                header_entries(*old(headers)),
                *auth,
                secret_loader,
                fetched,
            ).remove("host"@)
            &&& res is Ok ==> !header_entries(*final(headers)).dom().contains("host"@)
        },
{
    match apply_auth_within_capacity(headers, auth, secret_loader, fetched) {
        None => {
            return None;
        },
        Some(Ok(())) => {},
        Some(Err(_)) => {
            return Some(Err(ForwardError::InternalServerError));
        },
    }
    proof {
        reveal_strlit("host");
        assert(header_name_for("host"@) =~= "host"@);
    }
    header_map_remove(headers, "host");
    Some(Ok(()))
}

/// Makes the headers of the upstream request from those of the incoming one:
/// adds the provider's authentication, then drops `host`. Where the
/// authentication cannot be added the headers stay as they were and the answer
/// is `InternalServerError`. Setting a header into a map that has no room for
/// one more name would panic, which `requires` rules out.
pub fn prepare_upstream_headers<L: SecretLoader + ?Sized>(
    headers: &mut HeaderMap<HeaderValue>,
    auth: &ProviderAuthMethod,
    secret_loader: &L,
    fetched: Option<SecretFetch>,
) -> (r: Result<(), ForwardError>)
    requires
        auth_fetch_fits(*auth, fetched),
        auth_inserts(*auth, secret_loader, fetched) ==> header_entries(*old(headers)).dom().len()
            <= insert_capacity(),
    ensures
        r is Ok <==> auth_applies(*auth, secret_loader, fetched),
        r matches Err(e) ==> e == ForwardError::InternalServerError && *final(headers)
            == *old(headers),
        r is Ok ==> header_entries(*final(headers)) == authenticated_entries(
            header_entries(*old(headers)),
            *auth,
            secret_loader,
            fetched,
        ).remove("host"@),
        r is Ok ==> !header_entries(*final(headers)).dom().contains("host"@),
{
    prepare_upstream_headers_within_capacity(headers, auth, secret_loader, fetched).unwrap()
}

} // verus!


verus! {

proof fn lemma_trim_end_slashes(s: Seq<char>)
    ensures
        ({
            let t = trim_end_slashes(s);
            &&& t.len() <= s.len()
            &&& t == s.take(t.len() as int)
            &&& t.len() > 0 ==> t.last() != '/'
            &&& forall|i: int| t.len() <= i < s.len() ==> #[trigger] s[i] == '/'
        }),
    decreases s.len(),
{
    if s.len() > 0 && s.last() == '/' {
        let init = s.drop_last();
        lemma_trim_end_slashes(init);
        let t = trim_end_slashes(init);
        assert(t =~= s.take(t.len() as int));
        assert forall|i: int| t.len() <= i < s.len() implies #[trigger] s[i] == '/' by {
            if i < init.len() {
                assert(init[i] == s[i]);
            }
        }
    } else {
        assert(s =~= s.take(s.len() as int));
    }
}

proof fn lemma_trim_start_slashes(s: Seq<char>)
    ensures
        ({
            let t = trim_start_slashes(s);
            &&& t.len() <= s.len()
            &&& t == s.skip(s.len() - t.len())
            &&& t.len() > 0 ==> t[0] != '/'
            &&& forall|i: int| 0 <= i < s.len() - t.len() ==> #[trigger] s[i] == '/'
        }),
    decreases s.len(),
{
    if s.len() > 0 && s[0] == '/' {
        let tail = s.drop_first();
        lemma_trim_start_slashes(tail);
        let t = trim_start_slashes(tail);
        assert(t =~= s.skip(s.len() - t.len()));
        assert forall|i: int| 0 <= i < s.len() - t.len() implies #[trigger] s[i] == '/' by {
            if i > 0 {
                assert(tail[i - 1] == s[i]);
            }
        }
    } else {
        assert(s =~= s.skip(0));
    }
}

/// Law: the upstream URL joins the base and the path with exactly one slash:
/// it is the base without its trailing slashes, a slash, and the path without
/// its leading slashes, and only slashes were cut.
pub proof fn law_upstream_url_one_slash(base: Seq<char>, path: Seq<char>)
    ensures
        ({
            let b = trim_end_slashes(base);
            let p = trim_start_slashes(path);
            &&& upstream_url_for(base, path) == b + seq!['/'] + p
            &&& b == base.take(b.len() as int)
            &&& p == path.skip(path.len() - p.len())
            &&& b.len() > 0 ==> b.last() != '/'
            &&& p.len() > 0 ==> p[0] != '/'
            &&& forall|i: int| b.len() <= i < base.len() ==> #[trigger] base[i] == '/'
            &&& forall|i: int| 0 <= i < path.len() - p.len() ==> #[trigger] path[i] == '/'
        }),
{
    lemma_trim_end_slashes(base);
    lemma_trim_start_slashes(path);
}

} // verus!
