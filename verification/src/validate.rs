use vstd::prelude::*;
use vstd::string::StrSliceExecFns;

use crate::errors::ImageProcessorValidationError;

verus! {

/// Whether a string matches the URL shape `scheme://[www.]host[.tld]/path?query`
/// that the pipeline accepts for remote sources. The exact language is given by
/// the regular expression in `matches_url_pattern`; it depends on the
/// characters of the string alone.
pub uninterp spec fn url_shaped(s: Seq<char>) -> bool;

/// Relies on regex::Regex::new and regex::Regex::is_match: the fixed pattern
/// below always compiles, and whether a string contains a match of it is a
/// function of the string's characters alone.
#[verifier::external_body]
fn matches_url_pattern(v: &String) -> (r: bool)
    ensures
        r == url_shaped(v@),
{
    let pattern = r"https?://(www\.)?[-a-zA-Z0-9@:%._\+~#=]{2,256}(\.[a-z]{2,4})?\b([-a-zA-Z0-9@:%_\+.~#?&//=]*)";
    match regex::Regex::new(pattern) {
        Ok(re) => re.is_match(v.as_str()),
        Err(_) => false,
    }
}

/// Validate that a string has the URL shape a remote source must have.
pub fn is_url(v: &String) -> (r: bool)
    ensures
        r == url_shaped(v@),
{
    matches_url_pattern(v)
}

/// Relies on std::path::Path::is_file: queries the filesystem, so nothing is
/// promised of the outcome.
#[verifier::external_body]
pub fn is_path(path_: &String) -> bool {
    std::path::Path::new(path_.as_str()).is_file()
}

/// Relies on std::path::Path::parent: the parent of a path is a function of
/// the path's characters alone; `parent_path_of` names it.
#[verifier::external_body]
fn parent_of(path_: &String) -> (r: Option<String>)
    ensures
        (match r {
            Some(d) => parent_path_of(path_@) == Some(d@),
            None => parent_path_of(path_@) is None,
        }),
{
    std::path::Path::new(path_.as_str())
        .parent()
        .map(|d| d.to_string_lossy().into_owned())
}

/// The parent component of a path string, `None` where the path has no parent
/// (a bare root). What it is on given characters is platform path syntax,
/// which only `parent_of` decides.
pub uninterp spec fn parent_path_of(s: Seq<char>) -> Option<Seq<char>>;

/// Relies on std::path::Path::is_dir: queries the filesystem, so nothing is
/// promised of the outcome.
#[verifier::external_body]
fn dir_exists(path_: &String) -> bool {
    std::path::Path::new(path_.as_str()).is_dir()
}

/// A validated source: either an existing local file or a URL-shaped remote
/// address. Resolved once per invocation; a string that is both URL-shaped
/// and a local file resolves to the remote variant.
#[derive(Debug, PartialEq, Eq)]
pub enum SourceLocator {
    LocalPath(String),
    RemoteUrl(String),
}

/// A validated quality percentage. `value` is always in [1, 100]; 100 means
/// the image is passed through unchanged.
#[derive(Clone, Copy, Debug, PartialEq, Eq, Structural)]
pub struct QualityLevel {
    pub value: u8,
}

impl QualityLevel {
    pub open spec fn wf(self) -> bool {
        1 <= self.value <= 100
    }
}

/// Whether a requested quality percentage is acceptable.
pub open spec fn quality_in_range(q: u8) -> bool {
    1 <= q <= 100
}

/// Validate an optional quality request: an absent quality means no
/// compression, a present one must lie in [1, 100].
pub fn check_quality(q: Option<u8>) -> (r: Result<QualityLevel, ImageProcessorValidationError>)
    ensures
        q is None ==> r == Ok::<QualityLevel, ImageProcessorValidationError>((QualityLevel { value: 100 })),
        q matches Some(v) ==> (quality_in_range(v) ==> r == Ok::<QualityLevel, ImageProcessorValidationError>((QualityLevel { value: v }))),
        q matches Some(v) ==> (!quality_in_range(v) ==> r == Err::<QualityLevel, ImageProcessorValidationError>(ImageProcessorValidationError::InvalidQuality)),
        r matches Ok(lvl) ==> lvl.wf(),
{
    match q {
        None => Ok(QualityLevel { value: 100 }),
        Some(v) => {
            if 1 <= v && v <= 100 {
                Ok(QualityLevel { value: v })
            } else {
                Err(ImageProcessorValidationError::InvalidQuality)
            }
        },
    }
}

/// The classification rule on the two independent checks: a URL-shaped string
/// is a remote source whether or not it also names a local file, a remaining
/// existing file is a local source, anything else is rejected.
pub fn classify_source(input: String, url_like: bool, file_exists: bool) -> (r: Result<
    SourceLocator,
    ImageProcessorValidationError,
>)
    ensures
        url_like ==> r == Ok::<SourceLocator, ImageProcessorValidationError>(
            SourceLocator::RemoteUrl(input),
        ),
        !url_like && file_exists ==> r == Ok::<SourceLocator, ImageProcessorValidationError>(
            SourceLocator::LocalPath(input),
        ),
        !url_like && !file_exists ==> r == Err::<SourceLocator, ImageProcessorValidationError>(
            ImageProcessorValidationError::InvalidSource,
        ),
{
    if url_like {
        Ok(SourceLocator::RemoteUrl(input))
    } else if file_exists {
        Ok(SourceLocator::LocalPath(input))
    } else {
        Err(ImageProcessorValidationError::InvalidSource)
    }
}

/// Classify an input string as a remote URL or a local path, with URL shape
/// taking precedence; rejected as `InvalidSource` when it is neither.
pub fn classify(input: String) -> (r: Result<SourceLocator, ImageProcessorValidationError>)
    ensures
        url_shaped(input@) ==> r == Ok::<SourceLocator, ImageProcessorValidationError>(
            SourceLocator::RemoteUrl(input),
        ),
        r matches Ok(loc) ==> (loc is RemoteUrl <==> url_shaped(input@)),
        r matches Ok(loc) ==> (loc matches SourceLocator::RemoteUrl(s) ==> s == input) && (
        loc matches SourceLocator::LocalPath(s) ==> s == input),
        r matches Err(e) ==> e == ImageProcessorValidationError::InvalidSource && !url_shaped(
            input@,
        ),
{
    let url_like = is_url(&input);
    let file_exists = is_path(&input);
    classify_source(input, url_like, file_exists)
}

/// The output-path rule on the two checks the caller cannot decide from the
/// string alone: an empty path is missing, a path whose parent directory is
/// absent is unusable, anything else is accepted.
pub fn output_path_verdict(is_empty: bool, parent_ok: bool) -> (r: Result<
    (),
    ImageProcessorValidationError,
>)
    ensures
        is_empty ==> r == Err::<(), ImageProcessorValidationError>(
            ImageProcessorValidationError::MissingOutputPath,
        ),
        !is_empty && !parent_ok ==> r == Err::<(), ImageProcessorValidationError>(
            ImageProcessorValidationError::InvalidOutputPath,
        ),
        !is_empty && parent_ok ==> r == Ok::<(), ImageProcessorValidationError>(()),
{
    if is_empty {
        Err(ImageProcessorValidationError::MissingOutputPath)
    } else if !parent_ok {
        Err(ImageProcessorValidationError::InvalidOutputPath)
    } else {
        Ok(())
    }
}

/// Validate a destination path: empty paths are `MissingOutputPath`; a path
/// whose parent directory does not exist is `InvalidOutputPath`. A path whose
/// parent component is empty names the working directory and is accepted.
pub fn check_output_path(path_: &String) -> (r: Result<(), ImageProcessorValidationError>)
    ensures
        path_@.len() == 0 <==> r == Err::<(), ImageProcessorValidationError>(
            ImageProcessorValidationError::MissingOutputPath,
        ),
        r matches Err(e) ==> (e == ImageProcessorValidationError::MissingOutputPath || e
            == ImageProcessorValidationError::InvalidOutputPath),
        path_@.len() > 0 && parent_path_of(path_@) is None ==> r == Err::<
            (),
            ImageProcessorValidationError,
        >(ImageProcessorValidationError::InvalidOutputPath),
        parent_path_of(path_@) matches Some(d) && path_@.len() > 0 && d.len() == 0 ==> r == Ok::<
            (),
            ImageProcessorValidationError,
        >(()),
{
    let is_empty = path_.as_str().unicode_len() == 0;
    if is_empty {
        return Err(ImageProcessorValidationError::MissingOutputPath);
    }
    let parent_ok = match parent_of(path_) {
        None => false,
        Some(dir) => dir.as_str().unicode_len() == 0 || dir_exists(&dir),
    };
    output_path_verdict(is_empty, parent_ok)
}

} // verus!
