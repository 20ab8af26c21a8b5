//! Taking release names apart: which files are parsed, what the parser's
//! elements become, and which MyAnimeList id a title maps to.
use crate::structs::{
    anime_views, copy_opt_string, AnimeInfo, AnimeInfoView, File, FileView, GoogleFile, GoogleFileView,
    ParsedFile, ParsedFileView,
};
use crate::text::{contains, contains_char, has_substring};
use anitomy::{Anitomy, ElementCategory};
use vstd::prelude::*;

verus! {

/// What the Anitomy parser (default options, fresh instance) finds in a
/// filename: the first anime title, release group and episode number
/// elements, each absent when the parser found none.
pub uninterp spec fn anitomy_elements(filename: Seq<char>) -> (
    Option<Seq<char>>,
    Option<Seq<char>>,
    Option<Seq<char>>,
);

/// Calls `Anitomy::parse` of the `anitomy` crate on a new parser and reads
/// `Elements::get` for the anime title, the release group and the episode
/// number, from the elements of either outcome. The crate turns the name
/// into a C string and panics on a NUL character, hence the `requires`. The
/// contract names the elements; the parser's rules are not restated.
#[verifier::external_body]
fn parse_release_name(filename: &str) -> (r: (Option<String>, Option<String>, Option<String>))
    requires
        !filename@.contains('\0'),
    ensures
        (r.0.deep_view(), r.1.deep_view(), r.2.deep_view()) == anitomy_elements(filename@),
{
    let elements = match Anitomy::new().parse(filename) {
        Ok(e) => e,
        Err(e) => e,
    };
    (
        elements.get(ElementCategory::AnimeTitle).map(String::from),
        elements.get(ElementCategory::ReleaseGroup).map(String::from),
        elements.get(ElementCategory::EpisodeNumber).map(String::from),
    )
}

/// The name carries a video extension the library plays (`.mkv`, `.mp4`).
pub open spec fn is_video_name(name: Seq<char>) -> bool {
    has_substring(name, ".mkv"@) || has_substring(name, ".mp4"@)
}

/// A plain file that is no video is listed as it is, without parsing.
pub open spec fn skips_parsing(file_type: Seq<char>, name: Seq<char>) -> bool {
    file_type == "file"@ && !is_video_name(name)
}

/// Every entry of the anime map has a title.
pub open spec fn anime_names_present(anime: Seq<AnimeInfoView>) -> bool {
    forall|i: int| 0 <= i < anime.len() ==> (#[trigger] anime[i]).name is Some
}

/// An optional string, with the empty string for an absent one.
pub open spec fn or_empty(o: Option<Seq<char>>) -> Seq<char> {
    match o {
        Some(s) => s,
        None => Seq::empty(),
    }
}

/// The MyAnimeList id of the first entry from index `i` on whose title is
/// `title`; `Some(0)` when no entry has that title.
pub open spec fn mal_id_from(anime: Seq<AnimeInfoView>, title: Seq<char>, i: int) -> Option<u32>
    decreases anime.len() - i,
{
    if i < 0 || i >= anime.len() {
        Some(0u32)
    } else if anime[i].name == Some(title) {
        anime[i].mal
    } else {
        mal_id_from(anime, title, i + 1)
    }
}

/// The MyAnimeList id the anime map gives a title.
pub open spec fn mal_id_for(anime: Seq<AnimeInfoView>, title: Seq<char>) -> Option<u32> {
    mal_id_from(anime, title, 0)
}

/// The listing entry for a file with display name `display`, release name
/// `source` and type `file_type`: a plain file that is no video keeps its
/// name as the anime and has empty group and episode; any other entry gets
/// the parser's title, group and episode, and the id the map gives the title.
pub open spec fn describe(
    display: Option<Seq<char>>,
    source: Seq<char>,
    file_type: Seq<char>,
    mtime: Option<Seq<char>>,
    size: Option<u64>,
    anime: Seq<AnimeInfoView>,
) -> ParsedFileView {
    if skips_parsing(file_type, source) {
        ParsedFileView {
            name: display,
            anime: Some(source),
            group: Some(Seq::empty()),
            episode: Some(Seq::empty()),
            file_type: Some(file_type),
            mtime,
            size,
            mal_id: Some(0u32),
        }
    } else {
        let elements = anitomy_elements(source);
        let title = or_empty(elements.0);
        ParsedFileView {
            name: display,
            anime: Some(title),
            group: Some(or_empty(elements.1)),
            episode: Some(or_empty(elements.2)),
            file_type: Some(file_type),
            mtime,
            size,
            mal_id: mal_id_for(anime, title),
        }
    }
}

/// What `describe` needs so that nothing on its way panics: a release name
/// the parser accepts and titles throughout the map, where the parser runs.
pub open spec fn describable(file_type: Seq<char>, source: Seq<char>, anime: Seq<AnimeInfoView>) -> bool {
    !skips_parsing(file_type, source) ==> (!source.contains('\0') && anime_names_present(anime))
}

/// The string, or the empty string.
fn unwrap_or_empty(o: Option<String>) -> (r: String)
    ensures
        r@ == or_empty(o.deep_view()),
{
    match o {
        Some(s) => s,
        None => String::new(),
    }
}

/// Whether a name carries a video extension.
pub fn is_video(name: &str) -> (r: bool)
    ensures
        r == is_video_name(name@),
{
    contains(name, ".mkv") || contains(name, ".mp4")
}

/// The MyAnimeList id the anime map gives a title: the id of the first entry
/// with that title, `Some(0)` when there is none.
pub fn lookup_mal_id(anime_info: &Vec<AnimeInfo>, title: &String) -> (r: Option<u32>)
    requires
        anime_names_present(anime_views(anime_info@)),
    ensures
        r == mal_id_for(anime_views(anime_info@), title@),
{
    let ghost av = anime_views(anime_info@);
    let n = anime_info.len();
    let mut i: usize = 0;
    while i < n
        invariant
            n == anime_info@.len(),
            av == anime_views(anime_info@),
            anime_names_present(av),
            i <= n,
            mal_id_for(av, title@) == mal_id_from(av, title@, i as int),
        decreases n - i,
    {
        assert(av[i as int] == anime_info@[i as int]@);
        match &anime_info[i].name {
            Some(name) => {
                if *name == *title {
                    return anime_info[i].mal;
                }
            },
            None => {},
        }
        i = i + 1;
    }
    Some(0u32)
}

/// Builds the listing entry, as `describe` says.
fn describe_entry(
    display: Option<String>,
    source: String,
    file_type: String,
    mtime: Option<String>,
    size: Option<u64>,
    anime_info: &Vec<AnimeInfo>,
) -> (r: ParsedFile)
    requires
        describable(file_type@, source@, anime_views(anime_info@)),
    ensures
        r@ == describe(
            display.deep_view(),
            source@,
            file_type@,
            mtime.deep_view(),
            size,
            anime_views(anime_info@),
        ),
{
    let plain = String::from_str("file");
    if file_type == plain && !is_video(source.as_str()) {
        ParsedFile {
            name: display,
            anime: Some(source),
            group: Some(String::new()),
            episode: Some(String::new()),
            file_type: Some(file_type),
            mtime,
            size,
            mal_id: Some(0),
        }
    } else {
        let (title, group, episode) = parse_release_name(source.as_str());
        let title = unwrap_or_empty(title);
        let mal_id = lookup_mal_id(anime_info, &title);
        ParsedFile {
            name: display,
            anime: Some(title),
            group: Some(unwrap_or_empty(group)),
            episode: Some(unwrap_or_empty(episode)),
            file_type: Some(file_type),
            mtime,
            size,
            mal_id,
        }
    }
}

/// Whether every entry of the anime map has a title.
pub fn anime_names_all_present(anime_info: &Vec<AnimeInfo>) -> (r: bool)
    ensures
        r == anime_names_present(anime_views(anime_info@)),
{
    let ghost av = anime_views(anime_info@);
    let n = anime_info.len();
    let mut i: usize = 0;
    while i < n
        invariant
            n == anime_info@.len(),
            av == anime_views(anime_info@),
            i <= n,
            forall|k: int| 0 <= k < i ==> (#[trigger] av[k]).name is Some,
        decreases n - i,
    {
        if anime_info[i].name.is_none() {
            assert(av[i as int].name is None);
            return false;
        }
        i = i + 1;
    }
    true
}

/// Whether an entry of type `file_type` and release name `source` can be
/// described.
fn can_describe(file_type: &str, source: &str, anime_info: &Vec<AnimeInfo>) -> (r: bool)
    ensures
        r == describable(file_type@, source@, anime_views(anime_info@)),
{
    let plain = String::from_str(file_type) == String::from_str("file");
    if plain && !is_video(source) {
        true
    } else {
        !contains_char(source, '\0') && anime_names_all_present(anime_info)
    }
}

/// A directory entry can be described without a panic on the way.
pub open spec fn parse_file_ok(f: FileView, anime: Seq<AnimeInfoView>) -> bool {
    &&& f.file_type is Some
    &&& f.name is Some
    &&& describable(f.file_type.unwrap(), f.name.unwrap(), anime)
}

/// The listing entry of a directory entry: it keeps its name as the display
/// name and is parsed under that name.
pub open spec fn parsed_file(f: FileView, anime: Seq<AnimeInfoView>) -> ParsedFileView {
    describe(f.name, f.name.unwrap(), f.file_type.unwrap(), f.mtime, f.size, anime)
}

/// Whether `parse_file` accepts a directory entry with this anime map.
pub fn can_parse_file(file: &File, anime_info: &Vec<AnimeInfo>) -> (r: bool)
    ensures
        r == parse_file_ok(file@, anime_views(anime_info@)),
{
    match (&file.file_type, &file.name) {
        (Some(t), Some(n)) => can_describe(t.as_str(), n.as_str(), anime_info),
        _ => false,
    }
}

/// Describes one directory entry. A plain file whose name holds neither
/// `.mkv` nor `.mp4` keeps its name as the anime; any other entry is parsed.
pub fn parse_file(file: File, anime_info: &Vec<AnimeInfo>) -> (r: ParsedFile)
    requires
        parse_file_ok(file@, anime_views(anime_info@)),
    ensures
        r@ == parsed_file(file@, anime_views(anime_info@)),
{
    let display = copy_opt_string(&file.name);
    let source = file.name.unwrap();
    let file_type = file.file_type.unwrap();
    describe_entry(display, source, file_type, file.mtime, file.size, anime_info)
}

/// Describes each directory entry, in order.
pub fn parse_files(files: Vec<File>, anime_info: &Vec<AnimeInfo>) -> (r: Vec<ParsedFile>)
    requires
        forall|i: int|
            0 <= i < files@.len() ==> parse_file_ok(#[trigger] files@[i]@, anime_views(anime_info@)),
    ensures
        r@.len() == files@.len(),
        forall|i: int|
            0 <= i < files@.len() ==> (#[trigger] r@[i])@ == parsed_file(
                files@[i]@,
                anime_views(anime_info@),
            ),
{
    let ghost fs = files@;
    let mut parsed_files: Vec<ParsedFile> = Vec::new();
    for file in it: files.into_iter()
        invariant
            it.seq() == fs,
            forall|i: int|
                0 <= i < fs.len() ==> parse_file_ok(#[trigger] fs[i]@, anime_views(anime_info@)),
            parsed_files@.len() == it.index(),
            forall|i: int|
                0 <= i < it.index() ==> (#[trigger] parsed_files@[i])@ == parsed_file(
                    fs[i]@,
                    anime_views(anime_info@),
                ),
    {
        parsed_files.push(parse_file(file, anime_info));
    }
    parsed_files
}

/// A Drive file is a folder when its MIME type mentions `folder`; a file
/// without a MIME type counts as `"file"`, which does not.
pub open spec fn is_folder_mime(mime: Option<Seq<char>>) -> bool {
    has_substring(
        match mime {
            Some(m) => m,
            None => "file"@,
        },
        "folder"@,
    )
}

/// The listing type of a Drive file.
pub open spec fn google_type(g: GoogleFileView) -> Seq<char> {
    if is_folder_mime(g.mime_type) {
        "directory"@
    } else {
        "file"@
    }
}

/// Where a Drive entry leads: the folder's id for a folder, else the
/// file's direct link.
pub open spec fn google_url(g: GoogleFileView, link: Option<Seq<char>>) -> Seq<char> {
    if is_folder_mime(g.mime_type) {
        g.id.unwrap()
    } else {
        link.unwrap()
    }
}

/// A Drive entry can be described without a panic on the way: it has a
/// name, a folder has an id and a file has its link.
pub open spec fn google_file_ok(
    g: GoogleFileView,
    link: Option<Seq<char>>,
    anime: Seq<AnimeInfoView>,
) -> bool {
    &&& g.name is Some
    &&& is_folder_mime(g.mime_type) ==> g.id is Some
    &&& !is_folder_mime(g.mime_type) ==> link is Some
    &&& describable(google_type(g), g.name.unwrap(), anime)
}

/// The listing entry of a Drive file: its url is the display name, it is
/// parsed under its own name, and it has no time or size.
pub open spec fn parsed_google_file(
    g: GoogleFileView,
    link: Option<Seq<char>>,
    anime: Seq<AnimeInfoView>,
) -> ParsedFileView {
    describe(Some(google_url(g, link)), g.name.unwrap(), google_type(g), None, None, anime)
}

/// Whether a Drive file is a folder, from its MIME type.
pub fn is_google_folder(file: &GoogleFile) -> (r: bool)
    ensures
        r == is_folder_mime(file@.mime_type),
{
    match &file.mime_type {
        Some(m) => contains(m.as_str(), "folder"),
        None => contains("file", "folder"),
    }
}

/// Whether `parse_google_file` accepts a Drive file with this link and
/// anime map.
pub fn can_parse_google_file(file: &GoogleFile, link: &Option<String>, anime_info: &Vec<AnimeInfo>) -> (r:
    bool)
    ensures
        r == google_file_ok(file@, link.deep_view(), anime_views(anime_info@)),
{
    let folder = is_google_folder(file);
    match &file.name {
        None => false,
        Some(n) => {
            if folder && file.id.is_none() {
                false
            } else if !folder && link.is_none() {
                false
            } else if folder {
                can_describe("directory", n.as_str(), anime_info)
            } else {
                can_describe("file", n.as_str(), anime_info)
            }
        },
    }
}

/// Describes one Drive file; `link` is its direct link, which only a file
/// (not a folder) needs.
pub fn parse_google_file(file: GoogleFile, link: Option<String>, anime_info: &Vec<AnimeInfo>) -> (r:
    ParsedFile)
    requires
        google_file_ok(file@, link.deep_view(), anime_views(anime_info@)),
    ensures
        r@ == parsed_google_file(file@, link.deep_view(), anime_views(anime_info@)),
{
    let folder = is_google_folder(&file);
    let (url, file_type) = if folder {
        (file.id.unwrap(), String::from_str("directory"))
    } else {
        (link.unwrap(), String::from_str("file"))
    };
    describe_entry(Some(url), file.name.unwrap(), file_type, None, None, anime_info)
}

/// Describes each Drive file with the link at the same position, in order.
pub fn parse_google_files(
    files: Vec<GoogleFile>,
    links: Vec<Option<String>>,
    anime_info: &Vec<AnimeInfo>,
) -> (r: Vec<ParsedFile>)
    requires
        links@.len() == files@.len(),
        forall|i: int|
            0 <= i < files@.len() ==> google_file_ok(
                #[trigger] files@[i]@,
                links@[i].deep_view(),
                anime_views(anime_info@),
            ),
    ensures
        r@.len() == files@.len(),
        forall|i: int|
            0 <= i < files@.len() ==> (#[trigger] r@[i])@ == parsed_google_file(
                files@[i]@,
                links@[i].deep_view(),
                anime_views(anime_info@),
            ),
{
    let ghost fs = files@;
    let mut parsed_files: Vec<ParsedFile> = Vec::new();
    for file in it: files.into_iter()
        invariant
            it.seq() == fs,
            links@.len() == fs.len(),
            forall|i: int|
                0 <= i < fs.len() ==> google_file_ok(
                    #[trigger] fs[i]@,
                    links@[i].deep_view(),
                    anime_views(anime_info@),
                ),
            parsed_files@.len() == it.index(),
            forall|i: int|
                0 <= i < it.index() ==> (#[trigger] parsed_files@[i])@ == parsed_google_file(
                    fs[i]@,
                    links@[i].deep_view(),
                    anime_views(anime_info@),
                ),
    {
        let i = parsed_files.len();
        let link = copy_opt_string(&links[i]);
        parsed_files.push(parse_google_file(file, link, anime_info));
    }
    parsed_files
}

/// Describing a directory entry keeps its name, type, time and size.
pub proof fn lemma_parsed_file_keeps_metadata(f: FileView, anime: Seq<AnimeInfoView>)
    requires
        parse_file_ok(f, anime),
    ensures
        parsed_file(f, anime).name == f.name,
        parsed_file(f, anime).file_type == f.file_type,
        parsed_file(f, anime).mtime == f.mtime,
        parsed_file(f, anime).size == f.size,
{
}

/// A plain file whose name holds no video extension is listed under its own
/// name, with empty group and episode and id 0, whatever the map holds.
pub proof fn lemma_plain_file_listed_as_is(f: FileView, anime: Seq<AnimeInfoView>)
    requires
        f.file_type == Some("file"@),
        f.name is Some,
        !is_video_name(f.name.unwrap()),
    ensures
        parsed_file(f, anime).anime == f.name,
        parsed_file(f, anime).group == Some(Seq::<char>::empty()),
        parsed_file(f, anime).episode == Some(Seq::<char>::empty()),
        parsed_file(f, anime).mal_id == Some(0u32),
{
}

/// A directory or a video is listed with the parser's elements, and the id
/// is the one the map gives the parsed title.
pub proof fn lemma_parsed_entry_uses_parser(f: FileView, anime: Seq<AnimeInfoView>)
    requires
        parse_file_ok(f, anime),
        !skips_parsing(f.file_type.unwrap(), f.name.unwrap()),
    ensures
        parsed_file(f, anime).anime == Some(or_empty(anitomy_elements(f.name.unwrap()).0)),
        parsed_file(f, anime).group == Some(or_empty(anitomy_elements(f.name.unwrap()).1)),
        parsed_file(f, anime).episode == Some(or_empty(anitomy_elements(f.name.unwrap()).2)),
        parsed_file(f, anime).mal_id == mal_id_for(
            anime,
            or_empty(anitomy_elements(f.name.unwrap()).0),
        ),
{
}

/// A Drive entry is listed under its url, with its type and without time or
/// size.
pub proof fn lemma_google_entry_shape(
    g: GoogleFileView,
    link: Option<Seq<char>>,
    anime: Seq<AnimeInfoView>,
)
    requires
        google_file_ok(g, link, anime),
    ensures
        parsed_google_file(g, link, anime).name == Some(google_url(g, link)),
        parsed_google_file(g, link, anime).file_type == Some(google_type(g)),
        parsed_google_file(g, link, anime).mtime is None,
        parsed_google_file(g, link, anime).size is None,
{
}

/// A plain file whose name holds `.mkv` or `.mp4` goes through the parser,
/// and so does every entry that is not a plain file, whatever its name.
pub proof fn lemma_videos_and_directories_are_parsed(f: FileView, anime: Seq<AnimeInfoView>)
    requires
        parse_file_ok(f, anime),
        f.file_type != Some("file"@) || has_substring(f.name.unwrap(), ".mkv"@) || has_substring(
            f.name.unwrap(),
            ".mp4"@,
        ),
    ensures
        parsed_file(f, anime).anime == Some(or_empty(anitomy_elements(f.name.unwrap()).0)),
        parsed_file(f, anime).group == Some(or_empty(anitomy_elements(f.name.unwrap()).1)),
        parsed_file(f, anime).episode == Some(or_empty(anitomy_elements(f.name.unwrap()).2)),
{
}

/// The id is taken from the first entry whose title matches: an entry with
/// the title and none before it decides the id.
pub proof fn lemma_mal_id_first_match(anime: Seq<AnimeInfoView>, title: Seq<char>, i: int)
    requires
        0 <= i < anime.len(),
        anime[i].name == Some(title),
        forall|j: int| 0 <= j < i ==> (#[trigger] anime[j]).name != Some(title),
    ensures
        mal_id_for(anime, title) == anime[i].mal,
{
    lemma_mal_id_first_match_from(anime, title, i, 0);
}

proof fn lemma_mal_id_first_match_from(anime: Seq<AnimeInfoView>, title: Seq<char>, i: int, k: int)
    requires
        0 <= k <= i < anime.len(),
        anime[i].name == Some(title),
        forall|j: int| 0 <= j < i ==> (#[trigger] anime[j]).name != Some(title),
    ensures
        mal_id_from(anime, title, k) == anime[i].mal,
    decreases i - k,
{
    if k < i {
        assert(anime[k].name != Some(title));
        lemma_mal_id_first_match_from(anime, title, i, k + 1);
    }
}

/// A Drive folder is listed under its id as a directory; any other Drive
/// file is listed under its link as a plain file. A file without a MIME type
/// is no folder.
pub proof fn lemma_google_folder_or_file(
    g: GoogleFileView,
    link: Option<Seq<char>>,
    anime: Seq<AnimeInfoView>,
)
    requires
        google_file_ok(g, link, anime),
    ensures
        is_folder_mime(g.mime_type) ==> parsed_google_file(g, link, anime).name == g.id
            && parsed_google_file(g, link, anime).file_type == Some("directory"@),
        !is_folder_mime(g.mime_type) ==> parsed_google_file(g, link, anime).name == link
            && parsed_google_file(g, link, anime).file_type == Some("file"@),
        !is_folder_mime(None),
{
    reveal_strlit("file");
    reveal_strlit("folder");
    if g.id is Some && is_folder_mime(g.mime_type) {
        assert(Some(g.id.unwrap()) == g.id);
    }
    if link is Some && !is_folder_mime(g.mime_type) {
        assert(Some(link.unwrap()) == link);
    }
    assert forall|i: int| 0 <= i && i + "folder"@.len() <= "file"@.len() implies #[trigger] "file"@.subrange(
        i,
        i + "folder"@.len(),
    ) != "folder"@ by {}
}

/// An id found for a title belongs to an entry with that title; a title no
/// entry has gets id 0.
pub proof fn lemma_mal_id_source(anime: Seq<AnimeInfoView>, title: Seq<char>, i: int)
    requires
        0 <= i,
    ensures
        (exists|j: int| i <= j < anime.len() && (#[trigger] anime[j]).name == Some(title))
            ==> exists|j: int|
            i <= j < anime.len() && (#[trigger] anime[j]).name == Some(title) && anime[j].mal
                == mal_id_from(anime, title, i),
        (forall|j: int| i <= j < anime.len() ==> (#[trigger] anime[j]).name != Some(title))
            ==> mal_id_from(anime, title, i) == Some(0u32),
    decreases anime.len() - i,
{
    if i < anime.len() {
        lemma_mal_id_source(anime, title, i + 1);
        if anime[i].name != Some(title) {
            if exists|j: int| i <= j < anime.len() && (#[trigger] anime[j]).name == Some(title) {
                let j = choose|j: int| i <= j < anime.len() && (#[trigger] anime[j]).name == Some(title);
                assert(j != i);
                assert(i + 1 <= j);
            }
        }
    }
}

} // verus!
