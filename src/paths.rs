//! Paths given by the user: made absolute against an explicit working
//! directory, and checked for the shape of a trash location.
use vstd::prelude::*;
use vstd::string::*;
use path_absolutize::Absolutize;
use crate::error::{AppError, ErrorKind};

verus! {

/// What `path_absolutize` makes of `path` against the working directory `cwd`.
pub uninterp spec fn absolutized(path: Seq<char>, cwd: Seq<char>) -> Seq<char>;

/// The text of the leftmost-first match of `pattern` in `text`, by the rules
/// of the `regex` crate.
pub uninterp spec fn regex_first_match(pattern: Seq<char>, text: Seq<char>) -> Option<Seq<char>>;

/// Whether a path is absolute: it begins with `/`.
pub open spec fn is_absolute(p: Seq<char>) -> bool {
    p.len() > 0 && p[0] == '/'
}

/// The error of `regex::Regex::new`, carried through unopened.
#[verifier::external_type_specification]
#[verifier::external_body]
pub struct ExRegexError(regex::Error);

/// Relies on `path_absolutize::Absolutize::absolutize_from` for `Path`: it
/// joins a relative path to `cwd` and removes `.` and `..` components, from
/// the two paths alone. With an absolute `cwd` it never fails, every piece of
/// its result comes from the two UTF-8 arguments, and the result begins with
/// the root.
#[verifier::external_body]
fn absolutize_from(path: &str, cwd: &str) -> (r: Option<String>)
    requires
        is_absolute(cwd@),
    ensures
        r is Some,
        r matches Some(s) ==> s@ == absolutized(path@, cwd@),
        r matches Some(s) ==> is_absolute(s@),
{
    match std::path::Path::new(path).absolutize_from(cwd) {
        Ok(p) => p.to_str().map(|s| s.to_string()),
        Err(_) => None,
    }
}

/// Relies on `regex::Regex::new` and `regex::Regex::find`: compiles
/// `pattern`, failing on a pattern that is invalid or too large, and gives
/// the text of the first match in `text`.
#[verifier::external_body]
fn regex_find(pattern: &str, text: &str) -> (r: Result<Option<String>, regex::Error>)
    ensures
        r matches Ok(m) ==> match m {
            Some(s) => regex_first_match(pattern@, text@) == Some(s@),
            None => regex_first_match(pattern@, text@) is None,
        },
{
    let re = match regex::Regex::new(pattern) {
        Ok(re) => re,
        Err(e) => return Err(e),
    };
    Ok(re.find(text).map(|m| m.as_str().to_string()))
}

/// The absolute form of each of `src`, against the absolute working
/// directory `cwd`, in order.
pub fn conv_to_abs(src: Vec<&str>, cwd: &str) -> (r: Vec<String>)
    requires
        is_absolute(cwd@),
    ensures
        r@.len() == src@.len(),
        forall|i: int|
            0 <= i < r@.len() ==> #[trigger] r@[i]@ == absolutized(src@[i]@, cwd@) && is_absolute(
                r@[i]@,
            ),
{
    let mut abs: Vec<String> = Vec::new();
    let mut i: usize = 0;
    while i < src.len()
        invariant
            is_absolute(cwd@),
            i <= src@.len(),
            abs@.len() == i,
            forall|k: int|
                0 <= k < i ==> #[trigger] abs@[k]@ == absolutized(src@[k]@, cwd@) && is_absolute(
                    abs@[k]@,
                ),
        decreases src.len() - i,
    {
        match absolutize_from(src[i], cwd) {
            Some(t) => abs.push(t),
            None => {},
        }
        i = i + 1;
    }
    abs
}

/// The shape of a trash location: a `/`, then path characters, ending with
/// a word character.
pub open spec fn location_pattern() -> Seq<char> {
    "^/[/?\\.?\\w]+\\w$"@
}

/// Whether `p` has the shape of a trash location: the whole of it matches
/// [`location_pattern`]. Fails with `Pattern` if the pattern does not compile.
pub fn is_valid_path(p: &str) -> (r: Result<bool, AppError>)
    ensures
        r matches Ok(b) ==> b == (regex_first_match(location_pattern(), p@) == Some(p@)),
        r matches Err(e) ==> e.kind == ErrorKind::Pattern,
{
    match regex_find("^/[/?\\.?\\w]+\\w$", p) {
        Ok(Some(m)) => Ok(m == String::from_str(p)),
        Ok(None) => Ok(false),
        Err(_) => Err(AppError::new(ErrorKind::Pattern, String::from_str("invalid location pattern"))),
    }
}

/// The trash location for a first run: what the user typed, if it has the
/// shape of a location, else `.rtrash` in the home directory.
pub fn choose_location(input: &str, home: &str) -> (r: Result<String, AppError>)
    ensures
        r matches Ok(s) ==> (if regex_first_match(location_pattern(), input@) == Some(input@) {
            s@ == input@
        } else {
            s@ == home@ + "/.rtrash"@
        }),
        r matches Err(e) ==> e.kind == ErrorKind::Pattern,
{
    match is_valid_path(input) {
        Ok(true) => Ok(String::from_str(input)),
        Ok(false) => Ok(String::from_str(home).concat("/.rtrash")),
        Err(e) => Err(e),
    }
}

} // verus!
