//! Derivation of the downloadable companion files from the shareable URL.
//!
//! The recording itself lives at the shareable URL; its companions (the
//! annotation video, the coordinate table, the action log) live beside it,
//! at the URL with its trailing `.rrd` extension removed and a fixed suffix
//! appended.

use vstd::prelude::*;
use vstd::string::*;

verus! {

/// A downloadable artifact offered by the modal: where it lives and how it
/// is presented.
#[derive(Clone, Debug, PartialEq, Eq)]
pub struct DownloadableFile {
    pub name: String,
    pub url: String,
    pub file_type: String,
    pub description: String,
}

/// The recognized extension of a recording file.
pub open spec fn rrd_suffix() -> Seq<char> {
    seq!['.', 'r', 'r', 'd']
}

/// The base that companion-file URLs are built on: the URL with a trailing
/// `.rrd` removed, or the URL itself when it carries no such extension.
pub open spec fn spec_annotation_base(url: Seq<char>) -> Seq<char> {
    if url.len() >= 4 && url.subrange(url.len() - 4, url.len() as int) == rrd_suffix() {
        url.subrange(0, url.len() - 4)
    } else {
        url
    }
}

pub open spec fn spec_video_url(base: Seq<char>) -> Seq<char> {
    base + "_annotations.mp4"@
}

pub open spec fn spec_coordinates_url(base: Seq<char>) -> Seq<char> {
    base + "_coordinates.csv"@
}

pub open spec fn spec_actions_url(base: Seq<char>) -> Seq<char> {
    base + "_actions.json"@
}

/// The three companion files that a shareable URL gives rise to, in the
/// order the modal offers them.
pub open spec fn spec_annotation_files(files: Seq<DownloadableFile>, url: Seq<char>) -> bool {
    let base = spec_annotation_base(url);
    &&& files.len() == 3
    &&& files[0].name@ == "annotations.mp4"@
    &&& files[0].url@ == spec_video_url(base)
    &&& files[0].file_type@ == "mp4"@
    &&& files[0].description@ == "Annotation video file"@
    &&& files[1].name@ == "coordinates.csv"@
    &&& files[1].url@ == spec_coordinates_url(base)
    &&& files[1].file_type@ == "csv"@
    &&& files[1].description@ == "Annotation coordinates data"@
    &&& files[2].name@ == "actions.json"@
    &&& files[2].url@ == spec_actions_url(base)
    &&& files[2].file_type@ == "json"@
    &&& files[2].description@ == "Annotation actions metadata"@
}

/// Extracts the base URL that the companion files of `url_string` are named
/// after, by stripping a trailing `.rrd` extension when there is one.
pub fn get_annotation_base_url(url_string: &str) -> (r: Option<String>)
    ensures
        r matches Some(base) && base@ == spec_annotation_base(url_string@),
{
    let n = url_string.unicode_len();
    if n >= 4 {
        let c1 = url_string.get_char(n - 4);
        let c2 = url_string.get_char(n - 3);
        let c3 = url_string.get_char(n - 2);
        let c4 = url_string.get_char(n - 1);
        if c1 == '.' && c2 == 'r' && c3 == 'r' && c4 == 'd' {
            proof {
                assert(url_string@.subrange(n - 4, n as int) =~= rrd_suffix());
            }
            let base = url_string.substring_char(0, n - 4);
            return Some(String::from_str(base));
        }
        proof {
            if url_string@.subrange(n - 4, n as int) == rrd_suffix() {
                assert(url_string@.subrange(n - 4, n as int)[0] == c1);
                assert(url_string@.subrange(n - 4, n as int)[1] == c2);
                assert(url_string@.subrange(n - 4, n as int)[2] == c3);
                assert(url_string@.subrange(n - 4, n as int)[3] == c4);
            }
        }
    }
    Some(url_string.to_owned())
}

/// Builds the list of the three companion files of `url_string`, in the
/// order the modal offers them.
pub fn annotation_files(url_string: &str) -> (files: Vec<DownloadableFile>)
    ensures
        spec_annotation_files(files@, url_string@),
{
    let base = match get_annotation_base_url(url_string) {
        Some(base) => base,
        None => String::new(),
    };
    let mut files: Vec<DownloadableFile> = Vec::new();
    files.push(
        DownloadableFile {
            name: String::from_str("annotations.mp4"),
            url: base.clone().concat("_annotations.mp4"),
            file_type: String::from_str("mp4"),
            description: String::from_str("Annotation video file"),
        },
    );
    files.push(
        DownloadableFile {
            name: String::from_str("coordinates.csv"),
            url: base.clone().concat("_coordinates.csv"),
            file_type: String::from_str("csv"),
            description: String::from_str("Annotation coordinates data"),
        },
    );
    files.push(
        DownloadableFile {
            name: String::from_str("actions.json"),
            url: base.concat("_actions.json"),
            file_type: String::from_str("json"),
            description: String::from_str("Annotation actions metadata"),
        },
    );
    files
}

} // verus!
