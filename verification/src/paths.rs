//! Path arithmetic on paths held as text.
//!
//! The splitting and joining is done by `std::path`, which works on the text
//! of a path alone and looks at nothing on disk. The contracts here give each
//! of its answers a name, so that callers can say exactly which answer they
//! build on. Which characters part the components of a path is settled by the
//! platform that the library is built for.

use vstd::prelude::*;

verus! {

/// What `std::path::Path::file_stem` finds in `path`: the final component
/// without its extension, if there is a final component.
pub uninterp spec fn path_file_stem(path: Seq<char>) -> Option<Seq<char>>;

/// What `std::path::Path::extension` finds in `path`: the part of the final
/// component behind its last dot, if there is one.
pub uninterp spec fn path_extension(path: Seq<char>) -> Option<Seq<char>>;

/// What `std::path::Path::with_file_name` makes of `path` and `name`: `path`
/// with its final component replaced by `name`.
pub uninterp spec fn path_with_file_name(path: Seq<char>, name: Seq<char>) -> Seq<char>;

/// Calls `std::path::Path::file_stem`.
///
/// Trusted: the answer is the one named [`path_file_stem`]. The stem of a
/// path given as text is text again, so nothing is lost in handing it back as
/// a `String`.
#[verifier::external_body]
pub(crate) fn file_stem(path: &str) -> (stem: Option<String>)
    ensures
        stem.deep_view() == path_file_stem(path@),
{
    match std::path::Path::new(path).file_stem() {
        Some(stem) => Some(stem.to_string_lossy().into_owned()),
        None => None,
    }
}

/// Calls `std::path::Path::extension`.
///
/// Trusted: the answer is the one named [`path_extension`]. The extension of
/// a path given as text is text again.
#[verifier::external_body]
pub(crate) fn extension(path: &str) -> (ext: Option<String>)
    ensures
        ext.deep_view() == path_extension(path@),
{
    match std::path::Path::new(path).extension() {
        Some(ext) => Some(ext.to_string_lossy().into_owned()),
        None => None,
    }
}

/// Calls `std::path::Path::with_file_name`.
///
/// Trusted: the answer is the one named [`path_with_file_name`].
#[verifier::external_body]
pub(crate) fn with_file_name(path: &str, name: &str) -> (sibling: String)
    ensures
        sibling@ == path_with_file_name(path@, name@),
{
    std::path::Path::new(path).with_file_name(name).to_string_lossy().into_owned()
}

/// The file name of the reversed copy of a file with the given stem and
/// extension: the stem, then `-rev`, then the extension behind a dot. An empty
/// extension is left off together with its dot.
pub open spec fn spec_reversed_name(stem: Seq<char>, extension: Seq<char>) -> Seq<char> {
    if extension.len() == 0 {
        stem + "-rev"@
    } else {
        stem + "-rev"@ + "."@ + extension
    }
}

/// Builds the file name of the reversed copy from the stem and the extension
/// of the input.
pub fn reversed_name(stem: &str, extension: &str) -> (name: String)
    ensures
        name@ == spec_reversed_name(stem@, extension@),
{
    let mut name = stem.to_owned();
    name.append("-rev");
    if !extension.is_empty() {
        name.append(".");
        name.append(extension);
    }
    name
}

/// Whether an extension, as found in a path, is exactly `mp4`. Letter case
/// counts: `MP4` is not `mp4`.
pub open spec fn spec_is_mp4(extension: Option<Seq<char>>) -> bool {
    extension == Some("mp4"@)
}

/// Tells whether an extension, as found in a path, is exactly `mp4`.
pub fn is_mp4(extension: &Option<String>) -> (yes: bool)
    ensures
        yes == spec_is_mp4(extension.deep_view()),
{
    match extension {
        Some(found) => {
            let wanted = "mp4".to_owned();
            *found == wanted
        },
        None => false,
    }
}

/// The text that an optional part of a path stands for: a part that is not
/// there counts as empty.
pub open spec fn or_empty(part: Option<Seq<char>>) -> Seq<char> {
    match part {
        Some(text) => text,
        None => Seq::empty(),
    }
}

/// Where the reversed copy of `input` is written: beside `input`, under the
/// stem of `input` followed by `-rev` and by the extension of `input`.
pub open spec fn output_path(input: Seq<char>) -> Seq<char> {
    path_with_file_name(
        input,
        spec_reversed_name(or_empty(path_file_stem(input)), or_empty(path_extension(input))),
    )
}

} // verus!
