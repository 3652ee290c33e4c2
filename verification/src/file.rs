//! The decisions of fetching a dump and of unpacking it: under which name
//! a download is kept, whether the copy at hand will do, and what becomes
//! of each member of an archive.

use crate::probe::{message_date, parse_message_date};
use crate::text::{chars_of, parse_u64, signed_value, slice_of, text_of};
use crate::timestamp::Timestamp;
use vstd::prelude::*;

verus! {

/// The file name in an address: a run of word characters behind a slash,
/// with at most one dot in it; the last such run names the file.
pub const NAME_IN_URL: &'static str = "/(\\w+\\.?\\w*)";

/// The file name that a reply suggests for its content.
pub const NAME_IN_DISPOSITION: &'static str = "filename=\"([\\w\\.]+)\"";

/// Why a download cannot be planned.
#[derive(Clone, Copy, Debug, PartialEq, Eq, Structural)]
pub enum FileError {
    /// The reply does not say how long its content is.
    NoLength,
    /// Neither the caller nor the reply nor the address names the file.
    NoName,
}

/// The group of a pattern that holds the file name.
pub const NAME_GROUP: usize = 1;

/// For each match of `pattern` in `text`, in order, the text of the group
/// of index `group`, or nothing where that group took no part in the match:
/// what `regex::Captures::get` gives for each item that
/// `regex::Regex::captures_iter` yields, for the regex that
/// `regex::Regex::new` compiles. `None` where `new` refuses the pattern.
pub uninterp spec fn captured(pattern: Seq<char>, text: Seq<char>, group: usize) -> Option<
    Seq<Option<Seq<char>>>,
>;

/// What was found in the matches of a pattern, each text as its characters.
pub open spec fn found_texts(found: Seq<Option<String>>) -> Seq<Option<Seq<char>>> {
    Seq::new(found.len(), |i: int| text_of(found[i]))
}

/// Searches `text` with `regex::Regex::captures_iter` and hands on, for
/// each match, what `regex::Captures::get` gives for the group. The answer
/// is the list for all matches in order, or the engine's error where
/// `regex::Regex::new` refuses the pattern; it depends on the two texts and
/// the index alone.
#[verifier::external_body]
fn capture_groups(pattern: &str, text: &str, group: usize) -> (r: Result<
    Vec<Option<String>>,
    regex::Error,
>)
    ensures
        r is Ok <==> captured(pattern@, text@, group) is Some,
        r is Ok ==> captured(pattern@, text@, group) == Some(found_texts(r->Ok_0@)),
{
    match regex::Regex::new(pattern) {
        Ok(re) => {
            let mut found: Vec<Option<String>> = Vec::new();
            for item in re.captures_iter(text) {
                found.push(item.get(group).map(|m| m.as_str().to_string()));
            }
            Ok(found)
        },
        Err(e) => Err(e),
    }
}

/// What the first match holds, where there is a match.
pub open spec fn first_of(found: Seq<Option<Seq<char>>>) -> Option<Seq<char>> {
    if found.len() > 0 {
        found[0]
    } else {
        None
    }
}

/// What the last match holds, where there is a match.
pub open spec fn last_of(found: Seq<Option<Seq<char>>>) -> Option<Seq<char>> {
    if found.len() > 0 {
        found.last()
    } else {
        None
    }
}

/// The name in the first match of `pattern` in `text`; nothing where the
/// pattern is refused, where nothing matches and where the group of the
/// name took no part in the match.
pub open spec fn first_capture(pattern: Seq<char>, text: Seq<char>) -> Option<Seq<char>> {
    match captured(pattern, text, NAME_GROUP) {
        Some(found) => first_of(found),
        None => None,
    }
}

/// The name in the last match of `pattern` in `text`; nothing where the
/// pattern is refused, where nothing matches and where the group of the
/// name took no part in the match.
pub open spec fn last_capture(pattern: Seq<char>, text: Seq<char>) -> Option<Seq<char>> {
    match captured(pattern, text, NAME_GROUP) {
        Some(found) => last_of(found),
        None => None,
    }
}

/// What the first match holds, where there is a match.
pub fn first_found(found: &Vec<Option<String>>) -> (r: Option<String>)
    ensures
        text_of(r) == first_of(found_texts(found@)),
{
    if found.len() == 0 {
        None
    } else {
        match &found[0] {
            Some(name) => Some(name.clone()),
            None => None,
        }
    }
}

/// What the last match holds, where there is a match.
pub fn last_found(found: &Vec<Option<String>>) -> (r: Option<String>)
    ensures
        text_of(r) == last_of(found_texts(found@)),
{
    if found.len() == 0 {
        None
    } else {
        match &found[found.len() - 1] {
            Some(name) => Some(name.clone()),
            None => None,
        }
    }
}

/// The name in the first match of `pattern` in `text`.
fn capture_first(pattern: &str, text: &str) -> (r: Option<String>)
    ensures
        text_of(r) == first_capture(pattern@, text@),
{
    match capture_groups(pattern, text, NAME_GROUP) {
        Ok(found) => first_found(&found),
        Err(_) => None,
    }
}

/// The name in the last match of `pattern` in `text`.
fn capture_last(pattern: &str, text: &str) -> (r: Option<String>)
    ensures
        text_of(r) == last_capture(pattern@, text@),
{
    match capture_groups(pattern, text, NAME_GROUP) {
        Ok(found) => last_found(&found),
        Err(_) => None,
    }
}

/// The name under which a download is kept: the name that the caller
/// gives; else the name that the reply suggests; else the name in the
/// address.
pub open spec fn chosen_name(
    given: Option<Seq<char>>,
    suggested: Option<Seq<char>>,
    in_url: Option<Seq<char>>,
) -> Option<Seq<char>> {
    if given is Some {
        given
    } else if suggested is Some {
        suggested
    } else {
        in_url
    }
}

/// The name that the reply suggests, given its disposition header.
pub open spec fn suggested_name(content_disposition: Option<Seq<char>>) -> Option<Seq<char>> {
    match content_disposition {
        Some(header) => first_capture(NAME_IN_DISPOSITION@, header),
        None => None,
    }
}

/// The name under which the content of `url` is kept.
pub open spec fn output_name(
    url: Seq<char>,
    file_name: Option<Seq<char>>,
    content_disposition: Option<Seq<char>>,
) -> Option<Seq<char>> {
    chosen_name(file_name, suggested_name(content_disposition), last_capture(NAME_IN_URL@, url))
}

/// The name under which a download is kept, given the three names that
/// may be had for it.
pub fn choose_file_name(given: Option<&str>, suggested: Option<String>, in_url: Option<String>) -> (r:
    Option<String>)
    ensures
        text_of(r) == chosen_name(slice_of(given), text_of(suggested), text_of(in_url)),
{
    match given {
        Some(name) => Some(name.to_owned()),
        None => match suggested {
            Some(name) => Some(name),
            None => in_url,
        },
    }
}

/// The name under which the content of `url` is kept.
pub fn output_file_name(url: &str, file_name: Option<&str>, content_disposition: Option<&str>) -> (r:
    Option<String>)
    ensures
        text_of(r) == output_name(url@, slice_of(file_name), slice_of(content_disposition)),
{
    let suggested = match content_disposition {
        Some(header) => capture_first(NAME_IN_DISPOSITION, header),
        None => None,
    };
    let in_url = capture_last(NAME_IN_URL, url);
    choose_file_name(file_name, suggested, in_url)
}

/// What a download is to fetch and where it is kept.
#[derive(Clone, Debug, PartialEq, Eq)]
pub struct Download {
    /// The name of the local file.
    pub file_name: String,
    /// The length of the content in bytes, as the reply states it.
    pub length: u64,
    /// When the source last modified the content, in whole seconds, as far
    /// as the reply says.
    pub last_modified: Option<i64>,
}

/// The length that a reply states: the decimal number in its length
/// header, as far as it fits 64 bits.
pub open spec fn stated_length(content_length: Option<Seq<char>>) -> Option<int> {
    match content_length {
        Some(text) => match signed_value(text, 10, false) {
            Some(n) if n <= u64::MAX => Some(n),
            _ => None,
        },
        None => None,
    }
}

/// The second of the source's last change that a reply states.
pub open spec fn stated_change(last_modified: Option<Seq<char>>) -> Option<i64> {
    match last_modified {
        Some(text) => match message_date(text) {
            Some(time) => Some(time.secs),
            None => None,
        },
        None => None,
    }
}

/// Plans the download of `url` from the headers of its reply: the length
/// of the content, the time of its last change and the name of the local
/// file. A reply without a readable length and a download without a name
/// are refused.
pub fn download_file(
    url: &str,
    file_name: Option<&str>,
    content_length: Option<&str>,
    last_modified: Option<&str>,
    content_disposition: Option<&str>,
) -> (r: Result<Download, FileError>)
    ensures
        match r {
            Ok(d) => stated_length(slice_of(content_length)) == Some(d.length as int)
                && d.last_modified == stated_change(slice_of(last_modified)) && output_name(
                url@,
                slice_of(file_name),
                slice_of(content_disposition),
            ) == Some(d.file_name@),
            Err(e) => if stated_length(slice_of(content_length)) is None {
                e == FileError::NoLength
            } else {
                e == FileError::NoName && output_name(
                    url@,
                    slice_of(file_name),
                    slice_of(content_disposition),
                ) is None
            },
        },
{
    let length = match content_length {
        Some(text) => match parse_u64(text) {
            Some(n) => n,
            None => {
                return Err(FileError::NoLength);
            },
        },
        None => {
            return Err(FileError::NoLength);
        },
    };
    let changed = match last_modified {
        Some(text) => match parse_message_date(text) {
            Some(time) => Some(time.secs),
            None => None,
        },
        None => None,
    };
    match output_file_name(url, file_name, content_disposition) {
        Some(name) => Ok(Download { file_name: name, length, last_modified: changed }),
        None => Err(FileError::NoName),
    }
}

/// What a local copy of a download is worth.
#[derive(Clone, Copy, Debug, PartialEq, Eq, Structural)]
pub enum LocalCopy {
    /// As long as the content and not older than it: it is used as it is.
    Current,
    /// Not older than the content, but of another length: fetched again.
    Incomplete,
    /// Older than the content: fetched again.
    OutOfDate,
}

/// What a local copy of `modified` seconds and `length` bytes is worth
/// against content of `remote_length` bytes last changed at
/// `last_modified`. Content that states no time counts as changed at
/// second 1.
pub fn local_copy(modified: i64, length: u64, last_modified: Option<i64>, remote_length: u64) -> (r:
    LocalCopy)
    ensures
        r == if modified < (match last_modified {
            Some(t) => t,
            None => 1,
        }) {
            LocalCopy::OutOfDate
        } else if length == remote_length {
            LocalCopy::Current
        } else {
            LocalCopy::Incomplete
        },
{
    let changed = match last_modified {
        Some(t) => t,
        None => 1,
    };
    if modified < changed {
        LocalCopy::OutOfDate
    } else if length == remote_length {
        LocalCopy::Current
    } else {
        LocalCopy::Incomplete
    }
}

/// How many bytes are read at a time when content of `length` bytes is
/// fetched: a ninety-ninth of the length, and at least one.
pub fn read_size(length: u64) -> (n: u64)
    ensures
        n == if length / 99 == 0 {
            1
        } else {
            length / 99
        },
{
    let n = length / 99;
    if n == 0 {
        1
    } else {
        n
    }
}

/// The time at which a file was last modified, from the whole seconds that
/// the file system keeps; none for a time before 1970.
pub fn modified_at(seconds: i64) -> (r: Option<Timestamp>)
    ensures
        r == if seconds < 0 {
            None
        } else {
            Some(Timestamp { secs: seconds, nanos: 0 })
        },
{
    if seconds < 0 {
        None
    } else {
        Some(Timestamp::from_secs(seconds))
    }
}

/// A member of an archive, as far as unpacking looks at it.
#[derive(Clone, Debug, PartialEq, Eq)]
pub struct Member {
    /// The name of the member as the archive writes it.
    pub name: String,
    /// Whether the name stays inside the directory that is unpacked into.
    pub enclosed: bool,
}

/// What becomes of a member of an archive.
#[derive(Clone, Copy, Debug, PartialEq, Eq, Structural)]
pub enum Extraction {
    /// The member is left out.
    Skip,
    /// A directory of the member's name is made.
    Directory,
    /// The member's directory is made where it is missing, and its
    /// content written.
    File,
}

/// What becomes of a member of the name `name`.
pub open spec fn extraction(name: Seq<char>, enclosed: bool) -> Extraction {
    if !enclosed {
        Extraction::Skip
    } else if name.len() > 0 && name.last() == '/' {
        Extraction::Directory
    } else {
        Extraction::File
    }
}

/// What becomes of each member of an archive.
pub open spec fn extractions(members: Seq<Member>) -> Seq<Extraction> {
    Seq::new(members.len(), |i: int| extraction(members[i].name@, members[i].enclosed))
}

/// Plans the unpacking of an archive: a member whose name leads out of the
/// directory is left out, a name that ends in a slash is a directory, and
/// every other member is a file.
pub fn unzip_file(members: &Vec<Member>) -> (plan: Vec<Extraction>)
    ensures
        plan@ == extractions(members@),
{
    let mut plan: Vec<Extraction> = Vec::new();
    let mut i: usize = 0;
    while i < members.len()
        invariant
            i <= members.len(),
            plan@ == extractions(members@).take(i as int),
        decreases members.len() - i,
    {
        let member = &members[i];
        let chars = chars_of(member.name.as_str());
        let step = if !member.enclosed {
            Extraction::Skip
        } else if chars.len() > 0 && chars[chars.len() - 1] == '/' {
            Extraction::Directory
        } else {
            Extraction::File
        };
        plan.push(step);
        i += 1;
        proof {
            assert(plan@ =~= extractions(members@).take(i as int));
        }
    }
    proof {
        assert(plan@ =~= extractions(members@));
    }
    plan
}

} // verus!
