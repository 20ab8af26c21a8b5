use animu_server::config::{flag_enabled, CORS};
use animu_server::json::{get_anime_map, structs_to_json, vector_to_json_array};
use animu_server::listing::{drive_folder_id, file_entry};
use animu_server::naming::{is_google_folder, parse_file, parse_files, parse_google_file, parse_google_files};
use animu_server::order::{compare_strings, file_sort};
use animu_server::structs::{AnimeInfo, File, GoogleFile, ParsedFile};
use animu_server::text::{contains, decimal_string};
use std::cmp::Ordering;

const TORADORA: &str =
    "[TaigaSubs]_Toradora!_(2008)_-_01v2_-_Tiger_and_Dragon_[1280x720_H.264_FLAC][1234ABCD].mkv";

fn s(x: &str) -> Option<String> {
    Some(x.to_string())
}

fn anime_map() -> Vec<AnimeInfo> {
    vec![
        AnimeInfo { name: s("Black Bullet"), mal: Some(20787), episode_offset: None },
        AnimeInfo { name: s("Toradora!"), mal: Some(4224), episode_offset: Some(0) },
        AnimeInfo { name: s("Toradora!"), mal: Some(1), episode_offset: None },
    ]
}

fn disk_file(kind: &str, name: &str) -> File {
    File { file_type: s(kind), name: s(name), mtime: s("Thu, 01 Jan 1970 00:00:00 UTC"), size: Some(42) }
}

fn parsed(kind: &str, anime: Option<&str>, episode: Option<&str>) -> ParsedFile {
    ParsedFile {
        name: s("x"),
        anime: anime.map(|a| a.to_string()),
        group: s(""),
        episode: episode.map(|e| e.to_string()),
        file_type: s(kind),
        mtime: None,
        size: None,
        mal_id: Some(0),
    }
}

#[test]
fn empty_array_is_brackets() {
    assert_eq!(vector_to_json_array(vec![]), "[]");
}

#[test]
fn array_items_are_separated_by_comma_space() {
    let items = vec!["1".to_string(), "{}".to_string(), "\"a\"".to_string()];
    assert_eq!(vector_to_json_array(items), "[1, {}, \"a\"]");
}

#[test]
fn anime_info_renders_as_serde_record() {
    let out = structs_to_json(vec![AnimeInfo { name: s("Toradora!"), mal: Some(4224), episode_offset: None }]);
    assert_eq!(out, vec!["{\"name\":\"Toradora!\",\"mal\":4224,\"episode_offset\":null}".to_string()]);
}

#[test]
fn strings_are_escaped_in_json() {
    let out = structs_to_json(vec![AnimeInfo { name: s("a\"b\\c\nd\u{1}é"), mal: None, episode_offset: Some(0) }]);
    assert_eq!(out[0], "{\"name\":\"a\\\"b\\\\c\\nd\\u0001é\",\"mal\":null,\"episode_offset\":0}");
}

#[test]
fn parsed_file_renders_type_key() {
    let p = ParsedFile {
        name: s("notes.txt"),
        anime: s("notes.txt"),
        group: s(""),
        episode: s(""),
        file_type: s("file"),
        mtime: None,
        size: Some(18446744073709551615),
        mal_id: Some(0),
    };
    assert_eq!(
        structs_to_json(vec![p])[0],
        "{\"name\":\"notes.txt\",\"anime\":\"notes.txt\",\"group\":\"\",\"episode\":\"\",\"type\":\"file\",\"mtime\":null,\"size\":18446744073709551615,\"mal_id\":0}"
    );
}

#[test]
fn anime_map_is_array_of_entries() {
    let map = vec![
        AnimeInfo { name: s("A"), mal: Some(1), episode_offset: Some(2) },
        AnimeInfo { name: None, mal: None, episode_offset: None },
    ];
    assert_eq!(
        get_anime_map(map),
        "[{\"name\":\"A\",\"mal\":1,\"episode_offset\":2}, {\"name\":null,\"mal\":null,\"episode_offset\":null}]"
    );
}

#[test]
fn plain_file_is_listed_as_is() {
    let p = parse_file(disk_file("file", "notes.txt"), &anime_map());
    assert_eq!(p.name, s("notes.txt"));
    assert_eq!(p.anime, s("notes.txt"));
    assert_eq!(p.group, s(""));
    assert_eq!(p.episode, s(""));
    assert_eq!(p.file_type, s("file"));
    assert_eq!(p.mtime, s("Thu, 01 Jan 1970 00:00:00 UTC"));
    assert_eq!(p.size, Some(42));
    assert_eq!(p.mal_id, Some(0));
}

#[test]
fn video_file_is_parsed_and_mapped() {
    let p = parse_file(disk_file("file", TORADORA), &anime_map());
    assert_eq!(p.name, s(TORADORA));
    assert_eq!(p.anime, s("Toradora!"));
    assert_eq!(p.group, s("TaigaSubs"));
    assert_eq!(p.episode, s("01"));
    assert_eq!(p.mal_id, Some(4224));
    assert_eq!(p.size, Some(42));
}

#[test]
fn unknown_title_gets_id_zero() {
    let p = parse_file(disk_file("file", "[Grp] Some Show - 03.mp4"), &anime_map());
    assert_eq!(p.anime, s("Some Show"));
    assert_eq!(p.episode, s("03"));
    assert_eq!(p.mal_id, Some(0));
}

#[test]
fn directory_is_parsed() {
    let p = parse_file(disk_file("directory", "Black Bullet"), &anime_map());
    assert_eq!(p.anime, s("Black Bullet"));
    assert_eq!(p.mal_id, Some(20787));
    assert_eq!(p.file_type, s("directory"));
}

#[test]
fn parse_files_keeps_order() {
    let files = vec![disk_file("file", "b.txt"), disk_file("file", "a.txt")];
    let out = parse_files(files, &anime_map());
    assert_eq!(out.len(), 2);
    assert_eq!(out[0].anime, s("b.txt"));
    assert_eq!(out[1].anime, s("a.txt"));
}

#[test]
fn drive_folder_uses_its_id() {
    let g = GoogleFile { id: s("abc123"), name: s("Toradora!"), mime_type: s("application/vnd.google-apps.folder") };
    assert!(is_google_folder(&g));
    let p = parse_google_file(g, None, &anime_map());
    assert_eq!(p.name, s("abc123"));
    assert_eq!(p.file_type, s("directory"));
    assert_eq!(p.anime, s("Toradora!"));
    assert_eq!(p.mal_id, Some(4224));
    assert_eq!(p.mtime, None);
    assert_eq!(p.size, None);
}

#[test]
fn drive_file_uses_its_link() {
    let g = GoogleFile { id: s("id9"), name: s("readme.txt"), mime_type: None };
    assert!(!is_google_folder(&g));
    let p = parse_google_file(g, s("https://example.org/readme"), &anime_map());
    assert_eq!(p.name, s("https://example.org/readme"));
    assert_eq!(p.anime, s("readme.txt"));
    assert_eq!(p.file_type, s("file"));
}

#[test]
fn drive_files_pair_with_links() {
    let files = vec![
        GoogleFile { id: s("f1"), name: s("Black Bullet"), mime_type: s("application/vnd.google-apps.folder") },
        GoogleFile { id: s("f2"), name: s("x.txt"), mime_type: s("text/plain") },
    ];
    let out = parse_google_files(files, vec![None, s("link2")], &anime_map());
    assert_eq!(out[0].name, s("f1"));
    assert_eq!(out[1].name, s("link2"));
}

#[test]
fn episodes_of_one_anime_order_by_episode() {
    let a = parsed("file", Some("Show"), Some("10"));
    let b = parsed("file", Some("Show"), Some("02"));
    assert_eq!(file_sort(&a, &b), Ordering::Greater);
    assert_eq!(file_sort(&b, &a), Ordering::Less);
}

#[test]
fn other_entries_order_by_title_ignoring_case() {
    let a = parsed("directory", Some("beta"), None);
    let b = parsed("file", Some("Alpha"), Some("01"));
    assert_eq!(file_sort(&a, &b), Ordering::Greater);
    let c = parsed("directory", Some("ALPHA"), None);
    assert_eq!(file_sort(&b, &c), Ordering::Equal);
}

#[test]
fn missing_values_sort_as_tildes() {
    let a = parsed("directory", None, None);
    let b = parsed("directory", Some("zzz"), None);
    assert_eq!(file_sort(&a, &b), Ordering::Greater);
    assert_eq!(file_sort(&a, &a), Ordering::Equal);
}

#[test]
fn same_anime_differs_by_case_goes_by_title() {
    let a = parsed("file", Some("Show"), Some("2"));
    let b = parsed("file", Some("show"), Some("1"));
    assert_eq!(file_sort(&a, &b), Ordering::Equal);
}

#[test]
fn string_order_is_lexicographic() {
    assert_eq!(compare_strings("abc", "abd"), Ordering::Less);
    assert_eq!(compare_strings("ab", "abc"), Ordering::Less);
    assert_eq!(compare_strings("b", "abc"), Ordering::Greater);
    assert_eq!(compare_strings("é", "z"), "é".cmp("z"));
    assert_eq!(compare_strings("", ""), Ordering::Equal);
}

#[test]
fn substring_search() {
    assert!(contains("a.mkv.b", ".mkv"));
    assert!(!contains("a.mk", ".mkv"));
    assert!(contains("abc", ""));
    assert!(!contains("", "a"));
}

#[test]
fn decimal_digits() {
    assert_eq!(decimal_string(0), "0");
    assert_eq!(decimal_string(4224), "4224");
    assert_eq!(decimal_string(u64::MAX), u64::MAX.to_string());
}

#[test]
fn file_entry_formats_time() {
    let f = file_entry("Show".to_string(), true, 0, 4096);
    assert_eq!(f.file_type, s("directory"));
    assert_eq!(f.name, s("Show"));
    assert_eq!(f.mtime, s("Thu, 01 Jan 1970 00:00:00 UTC"));
    assert_eq!(f.size, Some(4096));
    let g = file_entry("a.mkv".to_string(), false, 1709647381, 1);
    assert_eq!(g.file_type, s("file"));
    assert_eq!(g.mtime, s("Tue, 05 Mar 2024 14:03:01 UTC"));
}

#[test]
fn drive_folder_from_path() {
    assert_eq!(drive_folder_id(vec![]), "root");
    assert_eq!(drive_folder_id(vec!["a".to_string(), "b1".to_string()]), "b1");
}

#[test]
fn switches_read_true_or_yes() {
    assert!(flag_enabled("TRUE"));
    assert!(flag_enabled("Yes"));
    assert!(!flag_enabled("no"));
    assert!(!flag_enabled("1"));
}

#[test]
fn cors_headers_are_fixed() {
    let c = CORS;
    assert_eq!(c.name(), "Add CORS headers to requests");
    let h = c.headers();
    assert_eq!(h.len(), 4);
    assert_eq!(h[0], ("Access-Control-Allow-Origin".to_string(), "*".to_string()));
    assert_eq!(h[1], ("Access-Control-Allow-Methods".to_string(), "POST, GET, PATCH, OPTIONS".to_string()));
    assert_eq!(h[3], ("Access-Control-Allow-Credentials".to_string(), "true".to_string()));
}
