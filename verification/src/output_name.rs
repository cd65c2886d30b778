//! The default output file name, made up when the caller gave none.

use vstd::prelude::*;
use vstd::string::*;
use crate::text::{join, joined, lemma_joined_one, lemma_joined_two};

verus! {

/// The final component of a path, as the standard library's
/// `Path::file_name` reports it for the platform the library is built for:
/// the name of the file or directory that the path leads to, or `None` where
/// the path names none, as the empty path, a bare root and a path that ends
/// in `..` do.
pub uninterp spec fn file_name(path: Seq<char>) -> Option<Seq<char>>;

/// The index of the last `.` in `name`, or -1 where it holds none.
pub open spec fn last_dot(name: Seq<char>) -> int
    decreases name.len(),
{
    if name.len() == 0 {
        -1
    } else if name.last() == '.' {
        name.len() - 1
    } else {
        last_dot(name.drop_last())
    }
}

/// A file name without its extension: what stands before its last `.`. A name
/// that holds no `.`, and a name whose only `.` is its first character, is
/// its own stem.
pub open spec fn stem_of_name(name: Seq<char>) -> Seq<char> {
    if last_dot(name) <= 0 {
        name
    } else {
        name.subrange(0, last_dot(name))
    }
}

/// The file stem of a path: the stem of its final component, or `None` where
/// it has no final component.
pub open spec fn file_stem(path: Seq<char>) -> Option<Seq<char>> {
    match file_name(path) {
        Some(name) => Some(stem_of_name(name)),
        None => None,
    }
}

/// Asks `std::path::Path::file_stem` for the stem of `path` and hands it back
/// as an owned string.
///
/// The contract rests on the documentation of `file_stem`, which gives the
/// stem in terms of `Path::file_name`: none without a file name; the whole
/// file name where it holds no `.` or only a leading one; else what stands
/// before the final `.`. What the file name of a given path is, is left to
/// the standard library and only named here, as [`file_name`]. The path comes
/// from a string, so its stem is valid Unicode and converts back to one.
#[verifier::external_body]
fn path_file_stem(path: &str) -> (stem: Option<String>)
    ensures
        stem.deep_view() == (match file_name(path@) {
            Some(name) => Some(stem_of_name(name)),
            None => None,
        }),
{
    let stem = std::path::Path::new(path).file_stem()?;
    Some(stem.to_str()?.to_owned())
}

/// The stem that the input path contributes to a default output name: none
/// without an input path.
pub open spec fn input_stem(input_path: Option<Seq<char>>) -> Option<Seq<char>> {
    match input_path {
        Some(p) => file_stem(p),
        None => None,
    }
}

/// The default output name: the stem, where there is one, then a hyphen, then
/// the output format, then the suffix with nothing in front of it. Without a
/// stem the name is the output format followed by the suffix.
pub open spec fn synthesized_name(
    stem: Option<Seq<char>>,
    output_format: Seq<char>,
    output_suffix: Seq<char>,
) -> Seq<char> {
    match stem {
        Some(s) => s + "-"@ + output_format + output_suffix,
        None => output_format + output_suffix,
    }
}

/// The name parts that are joined with hyphens: the stem, where there is one,
/// and the output format.
pub open spec fn name_parts(stem: Option<Seq<char>>, output_format: Seq<char>) -> Seq<Seq<char>> {
    match stem {
        Some(s) => seq![s, output_format],
        None => seq![output_format],
    }
}

/// The default output name is the name parts joined with hyphens, followed
/// by the suffix.
pub proof fn lemma_synthesized_name_joins_parts(
    stem: Option<Seq<char>>,
    output_format: Seq<char>,
    output_suffix: Seq<char>,
)
    ensures
        synthesized_name(stem, output_format, output_suffix) == joined(
            name_parts(stem, output_format),
            "-"@,
        ) + output_suffix,
{
    match stem {
        Some(s) => lemma_joined_two(s, output_format, "-"@),
        None => lemma_joined_one(output_format, "-"@),
    }
}

/// Builds the default output name from a stem already taken from the input
/// path, the output format and the suffix.
pub fn default_output_name(stem: Option<String>, output_format: &str, output_suffix: &str) -> (name:
    String)
    ensures
        name@ == synthesized_name(stem.deep_view(), output_format@, output_suffix@),
{
    let ghost stem_view = stem.deep_view();
    let mut parts: Vec<String> = Vec::new();
    match stem {
        Some(s) => {
            parts.push(s);
        },
        None => {},
    }
    parts.push(output_format.to_owned());
    proof {
        assert(parts.deep_view() =~= name_parts(stem_view, output_format@));
        lemma_synthesized_name_joins_parts(stem_view, output_format@, output_suffix@);
    }
    let mut name = join(&parts, "-");
    name.append(output_suffix);
    name
}

/// Builds the default output name for an input path: takes the stem of the
/// path, where there is a path, and names the output after it.
pub fn synthesize_output_name(
    input_path: &Option<String>,
    output_format: &str,
    output_suffix: &str,
) -> (name: String)
    ensures
        name@ == synthesized_name(
            input_stem(input_path.deep_view()),
            output_format@,
            output_suffix@,
        ),
{
    let stem = match input_path {
        Some(p) => path_file_stem(p.as_str()),
        None => None,
    };
    default_output_name(stem, output_format, output_suffix)
}

} // verus!
