//! Directory entries and Drive folders as the listing routes see them.
use crate::structs::{File, FileView};
use vstd::prelude::*;

verus! {

/// The time format of the listing: `Tue, 05 Mar 2024 14:03:01 UTC`.
pub open spec fn listing_time_format() -> Seq<char> {
    "%a, %d %b %Y %T %Z"@
}

/// The timestamps that `chrono` can represent as a `DateTime<Utc>`: the
/// seconds from 1970 to the first second of its first day (year -262143)
/// and to the last second of its last day (year 262142).
pub open spec fn time_in_range(secs: i64) -> bool {
    -8334601228800 <= secs <= 8210266876799
}

/// Whether a timestamp is one that `chrono` can represent.
pub fn listable_time(secs: i64) -> (r: bool)
    ensures
        r == time_in_range(secs),
{
    -8334601228800 <= secs && secs <= 8210266876799
}

/// What `chrono` writes for the UTC time `secs` seconds after 1970 with the
/// given `strftime` format.
pub uninterp spec fn utc_time_text(secs: i64, format: Seq<char>) -> Seq<char>;

/// Calls `DateTime::<Utc>::from_timestamp` of `chrono` and writes the time
/// with `DateTime::format`. `from_timestamp` returns `None` exactly outside
/// `time_in_range`, as its source computes; writing panics on a malformed
/// format, so the contract admits only the listing's format. The text is
/// named, not restated.
#[verifier::external_body]
fn format_utc_time(secs: i64, format: &str) -> (r: Option<String>)
    requires
        format@ == listing_time_format(),
    ensures
        r is Some <==> time_in_range(secs),
        r matches Some(t) ==> t@ == utc_time_text(secs, format@),
{
    match chrono::DateTime::<chrono::Utc>::from_timestamp(secs, 0) {
        Some(t) => Some(t.format(format).to_string()),
        None => None,
    }
}

/// The directory entry for a file named `name`, a directory when `is_dir`,
/// last modified `modified_secs` seconds after 1970 (UTC), of `size` bytes.
pub open spec fn entry(name: Seq<char>, is_dir: bool, modified_secs: i64, size: u64) -> FileView {
    FileView {
        file_type: Some(
            if is_dir {
                "directory"@
            } else {
                "file"@
            },
        ),
        name: Some(name),
        mtime: Some(utc_time_text(modified_secs, listing_time_format())),
        size: Some(size),
    }
}

/// Every entry built for a file on disk carries the byte length it was given,
/// directory or not, and its own name; it is typed a directory exactly when
/// it is one, and a plain file otherwise.
pub proof fn lemma_entry_fields(name: Seq<char>, is_dir: bool, modified_secs: i64, size: u64)
    ensures
        entry(name, is_dir, modified_secs, size).size == Some(size),
        entry(name, is_dir, modified_secs, size).name == Some(name),
        entry(name, is_dir, modified_secs, size).file_type == Some("directory"@) <==> is_dir,
        entry(name, is_dir, modified_secs, size).file_type == Some("file"@) <==> !is_dir,
{
    reveal_strlit("directory");
    reveal_strlit("file");
    assert("directory"@.len() != "file"@.len());
}

/// Builds the directory entry of one file on disk.
pub fn file_entry(name: String, is_dir: bool, modified_secs: i64, size: u64) -> (r: File)
    requires
        time_in_range(modified_secs),
    ensures
        r@ == entry(name@, is_dir, modified_secs, size),
        r.size == Some(size),
        r.name is Some && r.name.unwrap()@ == name@,
        r.file_type is Some && (r.file_type.unwrap()@ == "directory"@ <==> is_dir),
        r.file_type is Some && (r.file_type.unwrap()@ == "file"@ <==> !is_dir),
{
    proof {
        lemma_entry_fields(name@, is_dir, modified_secs, size);
    }
    let mtime = format_utc_time(modified_secs, "%a, %d %b %Y %T %Z");
    let file_type = if is_dir {
        String::from_str("directory")
    } else {
        String::from_str("file")
    };
    File { file_type: Some(file_type), name: Some(name), mtime, size: Some(size) }
}

/// The Drive folder a request path names: its last segment, or `root` for
/// an empty path.
pub open spec fn folder_id(segments: Seq<Seq<char>>) -> Seq<char> {
    if segments.len() == 0 {
        "root"@
    } else {
        segments.last()
    }
}

/// An empty path lists the `root` folder; otherwise the last segment names
/// the folder, whatever comes before it.
pub proof fn lemma_folder_id_last_segment(segments: Seq<Seq<char>>, last: Seq<char>)
    ensures
        folder_id(Seq::empty()) == "root"@,
        folder_id(segments.push(last)) == last,
{
}

/// The Drive folder to list for the segments of a request path.
pub fn drive_folder_id(segments: Vec<String>) -> (r: String)
    ensures
        r@ == folder_id(segments@.map_values(|s: String| s@)),
{
    let mut segments = segments;
    match segments.pop() {
        Some(last) => last,
        None => String::from_str("root"),
    }
}

} // verus!
