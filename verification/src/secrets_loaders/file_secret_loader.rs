use vstd::prelude::*;
use vstd::string::StrSliceExecFns;

use crate::secrets_loaders::traits::SecretLoader;
use crate::secrets_loaders::types::{SecretFetch, SecretLoadError, SecretRef};

verus! {

broadcast use vstd::string::group_string_axioms;

/// Whether `c` ends a line: a carriage return or a line feed.
pub open spec fn is_line_break(c: char) -> bool {
    c == '\r' || c == '\n'
}

/// `s` without the carriage returns and line feeds at its end.
pub open spec fn trim_line_breaks_end(s: Seq<char>) -> Seq<char>
    decreases s.len(),
{
    if s.len() > 0 && is_line_break(s.last()) {
        trim_line_breaks_end(s.drop_last())
    } else {
        s
    }
}

/// Removes every carriage return and line feed from the end of `s`.
pub fn trim_end_line_breaks(s: &str) -> (r: String)
    ensures
        r@ == trim_line_breaks_end(s@),
{
    let n = s.unicode_len();
    let mut end = n;
    assert(s@.take(n as int) =~= s@);
    while end > 0 && is_line_break_char(s.get_char(end - 1))
        invariant
            end <= n,
            n == s@.len(),
            trim_line_breaks_end(s@) == trim_line_breaks_end(s@.take(end as int)),
        decreases end,
    {
        assert(s@.take(end as int).drop_last() =~= s@.take(end - 1));
        end -= 1;
    }
    assert(s@.subrange(0, end as int) =~= s@.take(end as int));
    s.substring_char(0, end).to_string()
}

fn is_line_break_char(c: char) -> (r: bool)
    ensures
        r == is_line_break(c),
{
    c == '\r' || c == '\n'
}

/// Loads secrets kept in files: the file's contents without the line breaks
/// at its end.
pub struct FileSecretLoader;

impl SecretLoader for FileSecretLoader {
    open spec fn spec_supports(&self, secret: SecretRef) -> bool {
        secret is File
    }

    open spec fn spec_load(&self, secret: SecretRef, fetched: SecretFetch) -> Result<
        Seq<char>,
        SecretLoadError,
    > {
        match secret {
            SecretRef::File { path } => match fetched {
                SecretFetch::FileContents(Ok(contents)) => Ok(trim_line_breaks_end(contents@)),
                SecretFetch::FileContents(Err(source)) => Err(
                    SecretLoadError::ReadFile { path, source },
                ),
                _ => Err(SecretLoadError::UnsupportedSecretSource),
            },
            _ => Err(SecretLoadError::UnsupportedSecretSource),
        }
    }

    fn supports(&self, secret: &SecretRef) -> (r: bool) {
        matches!(secret, SecretRef::File { .. })
    }

    fn load(&self, secret: &SecretRef, fetched: SecretFetch) -> (r: Result<String, SecretLoadError>) {
        match secret {
            SecretRef::File { path } => match fetched {
                SecretFetch::FileContents(Ok(contents)) => Ok(
                    trim_end_line_breaks(contents.as_str()),
                ),
                SecretFetch::FileContents(Err(source)) => Err(
                    SecretLoadError::ReadFile { path: path.clone(), source },
                ),
                _ => Err(SecretLoadError::UnsupportedSecretSource),
            },
            _ => Err(SecretLoadError::UnsupportedSecretSource),
        }
    }
}

} // verus!

verus! {

/// Law: trimming leaves no line break at the end, keeps a prefix of the text,
/// and cuts off nothing but line breaks.
pub proof fn law_trim_line_breaks_end(s: Seq<char>)
    ensures
        ({
            let t = trim_line_breaks_end(s);
            &&& t.len() <= s.len()
            &&& t == s.take(t.len() as int)
            &&& t.len() > 0 ==> !is_line_break(t.last())
            &&& forall|i: int| t.len() <= i < s.len() ==> is_line_break(#[trigger] s[i])
        }),
    decreases s.len(),
{
    if s.len() > 0 && is_line_break(s.last()) {
        let init = s.drop_last();
        law_trim_line_breaks_end(init);
        let t = trim_line_breaks_end(init);
        assert(t =~= s.take(t.len() as int));
        assert forall|i: int| t.len() <= i < s.len() implies is_line_break(#[trigger] s[i]) by {
            if i < init.len() {
                assert(init[i] == s[i]);
            }
        }
    } else {
        assert(s =~= s.take(s.len() as int));
    }
}

/// Law: trimming twice is trimming once.
pub proof fn law_trim_line_breaks_end_idempotent(s: Seq<char>)
    ensures
        trim_line_breaks_end(trim_line_breaks_end(s)) == trim_line_breaks_end(s),
{
    law_trim_line_breaks_end(s);
}

} // verus!

verus! {

/// Law: the file loader handles exactly `File` references, and answers
/// `UnsupportedSecretSource` for any other.
pub proof fn law_file_loader_scope(secret: SecretRef, fetched: SecretFetch)
    ensures
        FileSecretLoader.spec_supports(secret) <==> secret is File,
        !FileSecretLoader.spec_supports(secret) ==> FileSecretLoader.spec_load(secret, fetched)
            == Err::<Seq<char>, SecretLoadError>(SecretLoadError::UnsupportedSecretSource),
{
}

} // verus!

verus! {

/// Law: the file loader hands back the file's contents up to its trailing line
/// breaks: a prefix of the contents that does not end in a line break, after
/// which the contents hold only line breaks. Contents that do not end in a
/// line break come back unchanged.
pub proof fn law_file_loader_contents(path: String, contents: String)
    ensures
        FileSecretLoader.spec_load(
            SecretRef::File { path },
            SecretFetch::FileContents(Ok(contents)),
        ) matches Ok(t) && t.len() <= contents@.len() && t == contents@.take(t.len() as int) && (
        t.len() > 0 ==> !is_line_break(t.last())) && (forall|i: int|
            t.len() <= i < contents@.len() ==> is_line_break(#[trigger] contents@[i])),
        contents@.len() == 0 || !is_line_break(contents@.last()) ==> FileSecretLoader.spec_load(
            SecretRef::File { path },
            SecretFetch::FileContents(Ok(contents)),
        ) == Ok::<Seq<char>, SecretLoadError>(contents@),
{
    law_trim_line_breaks_end(contents@);
}

} // verus!
