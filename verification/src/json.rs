//! JSON rendering of the records: field values through `serde_json`, the
//! objects and arrays framed here.
use crate::structs::{AnimeInfo, AnimeInfoView, ParsedFile, ParsedFileView};
use crate::text::{decimal, join, push_str};
use vstd::prelude::*;

verus! {

/// A hexadecimal digit in lowercase, for `d < 16`.
pub open spec fn hex_digit(d: nat) -> char {
    if d < 10 {
        (48 + d) as char
    } else {
        (87 + d) as char
    }
}

/// How `serde_json` writes one character inside a string literal: quote and
/// backslash escaped, the control characters below U+0020 as `\b \t \n \f
/// \r` or `\u00XX`, every other character as it is.
pub open spec fn json_escape_char(c: char) -> Seq<char> {
    if c == '"' {
        seq!['\\', '"']
    } else if c == '\\' {
        seq!['\\', '\\']
    } else if c == '\u{8}' {
        seq!['\\', 'b']
    } else if c == '\t' {
        seq!['\\', 't']
    } else if c == '\n' {
        seq!['\\', 'n']
    } else if c == '\u{c}' {
        seq!['\\', 'f']
    } else if c == '\r' {
        seq!['\\', 'r']
    } else if (c as nat) < 32 {
        seq!['\\', 'u', '0', '0', hex_digit((c as nat) / 16), hex_digit((c as nat) % 16)]
    } else {
        seq![c]
    }
}

/// The escaped characters of a string.
pub open spec fn json_escape(s: Seq<char>) -> Seq<char>
    decreases s.len(),
{
    if s.len() == 0 {
        Seq::empty()
    } else {
        json_escape(s.drop_last()) + json_escape_char(s.last())
    }
}

/// A JSON string literal.
pub open spec fn json_string(s: Seq<char>) -> Seq<char> {
    seq!['"'] + json_escape(s) + seq!['"']
}

/// A character that JSON writes as it is.
pub open spec fn plain_json_char(c: char) -> bool {
    c != '"' && c != '\\' && (c as nat) >= 32
}

proof fn lemma_json_escape_plain(s: Seq<char>)
    requires
        forall|i: int| 0 <= i < s.len() ==> plain_json_char(#[trigger] s[i]),
    ensures
        json_escape(s) == s,
    decreases s.len(),
{
    if s.len() > 0 {
        let t = s.drop_last();
        assert forall|i: int| 0 <= i < t.len() implies plain_json_char(#[trigger] t[i]) by {
            assert(t[i] == s[i]);
        }
        lemma_json_escape_plain(t);
        assert(plain_json_char(s[s.len() - 1]));
        assert(json_escape_char(s.last()) == seq![s.last()]);
        assert(json_escape(s) =~= s);
    } else {
        assert(json_escape(s) =~= s);
    }
}

/// A string with no quote, no backslash and no control character below
/// U+0020 is written between quotes exactly as it is.
pub proof fn lemma_json_string_plain(s: Seq<char>)
    requires
        forall|i: int| 0 <= i < s.len() ==> plain_json_char(#[trigger] s[i]),
    ensures
        json_string(s) == seq!['"'] + s + seq!['"'],
{
    lemma_json_escape_plain(s);
}

/// An optional string in JSON: `null` or a string literal.
pub open spec fn json_opt_text(o: Option<Seq<char>>) -> Seq<char> {
    match o {
        Some(s) => json_string(s),
        None => "null"@,
    }
}

/// An optional number in JSON: `null` or its decimal digits.
pub open spec fn json_opt_number(o: Option<u64>) -> Seq<char> {
    match o {
        Some(n) => decimal(n as nat),
        None => "null"@,
    }
}

/// A `u32` field widened to `u64`.
pub open spec fn widen(o: Option<u32>) -> Option<u64> {
    match o {
        Some(n) => Some(n as u64),
        None => None,
    }
}

/// Calls `serde_json::to_string` on an optional string. The crate writes
/// `None` as `null` and a string through its escape table; serialising a
/// string into a vector has no error path in its source.
#[verifier::external_body]
fn json_of_opt_string(v: &Option<String>) -> (r: String)
    ensures
        r@ == json_opt_text(v.deep_view()),
{
    serde_json::to_string(v).unwrap_or_default()
}

/// Calls `serde_json::to_string` on an optional `u64`. The crate writes
/// `None` as `null` and a number as its decimal digits; serialising a
/// number into a vector has no error path in its source.
#[verifier::external_body]
fn json_of_opt_u64(v: Option<u64>) -> (r: String)
    ensures
        r@ == json_opt_number(v),
{
    serde_json::to_string(&v).unwrap_or_default()
}

/// An optional `u32` in JSON.
fn json_of_opt_u32(v: Option<u32>) -> (r: String)
    ensures
        r@ == json_opt_number(widen(v)),
{
    match v {
        Some(n) => json_of_opt_u64(Some(n as u64)),
        None => json_of_opt_u64(None),
    }
}

/// An anime map entry as `serde_json` writes the derived form of the record:
/// `{"name":…,"mal":…,"episode_offset":…}`.
pub open spec fn anime_info_json(a: AnimeInfoView) -> Seq<char> {
    "{\"name\":"@ + json_opt_text(a.name) + ",\"mal\":"@ + json_opt_number(widen(a.mal))
        + ",\"episode_offset\":"@ + json_opt_number(widen(a.episode_offset)) + "}"@
}

/// A listing entry as `serde_json` writes the derived form of the record,
/// with the type under the key `type`.
pub open spec fn parsed_file_json(p: ParsedFileView) -> Seq<char> {
    "{\"name\":"@ + json_opt_text(p.name) + ",\"anime\":"@ + json_opt_text(p.anime)
        + ",\"group\":"@ + json_opt_text(p.group) + ",\"episode\":"@ + json_opt_text(p.episode)
        + ",\"type\":"@ + json_opt_text(p.file_type) + ",\"mtime\":"@ + json_opt_text(p.mtime)
        + ",\"size\":"@ + json_opt_number(p.size) + ",\"mal_id\":"@ + json_opt_number(
        widen(p.mal_id),
    ) + "}"@
}

/// One member of a JSON object: the key as a string literal, a colon and
/// the rendered value.
pub open spec fn json_member(key: Seq<char>, value: Seq<char>) -> Seq<char> {
    json_string(key) + seq![':'] + value
}

/// A JSON object with the given members in order, without whitespace.
pub open spec fn json_object(members: Seq<Seq<char>>) -> Seq<char> {
    seq!['{'] + join(members, seq![',']) + seq!['}']
}

proof fn lemma_listing_keys_a()
    ensures
        "{\"name\":"@ == seq!['{'] + json_string("name"@) + seq![':'],
        ",\"anime\":"@ == seq![','] + json_string("anime"@) + seq![':'],
        ",\"group\":"@ == seq![','] + json_string("group"@) + seq![':'],
        ",\"episode\":"@ == seq![','] + json_string("episode"@) + seq![':'],
{
    reveal_strlit("name");
    reveal_strlit("anime");
    reveal_strlit("group");
    reveal_strlit("episode");
    reveal_strlit("{\"name\":");
    reveal_strlit(",\"anime\":");
    reveal_strlit(",\"group\":");
    reveal_strlit(",\"episode\":");
    reveal_with_fuel(json_escape, 8);
    assert("{\"name\":"@ =~= seq!['{'] + json_string("name"@) + seq![':']);
    assert(",\"anime\":"@ =~= seq![','] + json_string("anime"@) + seq![':']);
    assert(",\"group\":"@ =~= seq![','] + json_string("group"@) + seq![':']);
    assert(",\"episode\":"@ =~= seq![','] + json_string("episode"@) + seq![':']);
}

proof fn lemma_listing_keys_b()
    ensures
        ",\"type\":"@ == seq![','] + json_string("type"@) + seq![':'],
        ",\"mtime\":"@ == seq![','] + json_string("mtime"@) + seq![':'],
        ",\"size\":"@ == seq![','] + json_string("size"@) + seq![':'],
        ",\"mal_id\":"@ == seq![','] + json_string("mal_id"@) + seq![':'],
        "}"@ == seq!['}'],
{
    reveal_strlit("type");
    reveal_strlit("mtime");
    reveal_strlit("size");
    reveal_strlit("mal_id");
    reveal_strlit(",\"type\":");
    reveal_strlit(",\"mtime\":");
    reveal_strlit(",\"size\":");
    reveal_strlit(",\"mal_id\":");
    reveal_strlit("}");
    reveal_with_fuel(json_escape, 7);
    assert(",\"type\":"@ =~= seq![','] + json_string("type"@) + seq![':']);
    assert(",\"mtime\":"@ =~= seq![','] + json_string("mtime"@) + seq![':']);
    assert(",\"size\":"@ =~= seq![','] + json_string("size"@) + seq![':']);
    assert(",\"mal_id\":"@ =~= seq![','] + json_string("mal_id"@) + seq![':']);
    assert("}"@ =~= seq!['}']);
}

proof fn lemma_regroup(
    open: Seq<char>,
    j: Seq<char>,
    comma: Seq<char>,
    k: Seq<char>,
    colon: Seq<char>,
    v: Seq<char>,
)
    ensures
        (open + j) + ((comma + k) + colon) + v == open + ((j + comma) + ((k + colon) + v)),
{
    assert((open + j) + ((comma + k) + colon) + v =~= open + ((j + comma) + ((k + colon) + v)));
}

/// A listing entry renders as the JSON object whose members are its fields
/// in declaration order, each under its own name (the type under `type`),
/// with the serialisation of that field as the value.
pub proof fn lemma_parsed_file_json_members(p: ParsedFileView)
    ensures
        parsed_file_json(p) == json_object(
            seq![
                json_member("name"@, json_opt_text(p.name)),
                json_member("anime"@, json_opt_text(p.anime)),
                json_member("group"@, json_opt_text(p.group)),
                json_member("episode"@, json_opt_text(p.episode)),
                json_member("type"@, json_opt_text(p.file_type)),
                json_member("mtime"@, json_opt_text(p.mtime)),
                json_member("size"@, json_opt_number(p.size)),
                json_member("mal_id"@, json_opt_number(widen(p.mal_id))),
            ],
        ),
{
    let keys = seq!["name"@, "anime"@, "group"@, "episode"@, "type"@, "mtime"@, "size"@, "mal_id"@];
    let vals = seq![
        json_opt_text(p.name),
        json_opt_text(p.anime),
        json_opt_text(p.group),
        json_opt_text(p.episode),
        json_opt_text(p.file_type),
        json_opt_text(p.mtime),
        json_opt_number(p.size),
        json_opt_number(widen(p.mal_id)),
    ];
    let members = seq![
        json_member("name"@, json_opt_text(p.name)),
        json_member("anime"@, json_opt_text(p.anime)),
        json_member("group"@, json_opt_text(p.group)),
        json_member("episode"@, json_opt_text(p.episode)),
        json_member("type"@, json_opt_text(p.file_type)),
        json_member("mtime"@, json_opt_text(p.mtime)),
        json_member("size"@, json_opt_number(p.size)),
        json_member("mal_id"@, json_opt_number(widen(p.mal_id))),
    ];
    let comma = seq![','];
    let colon = seq![':'];
    let open = seq!['{'];
    lemma_listing_keys_a();
    lemma_listing_keys_b();
    let p0 = "{\"name\":"@ + vals[0];
    let p1 = p0 + ",\"anime\":"@ + vals[1];
    let p2 = p1 + ",\"group\":"@ + vals[2];
    let p3 = p2 + ",\"episode\":"@ + vals[3];
    let p4 = p3 + ",\"type\":"@ + vals[4];
    let p5 = p4 + ",\"mtime\":"@ + vals[5];
    let p6 = p5 + ",\"size\":"@ + vals[6];
    let p7 = p6 + ",\"mal_id\":"@ + vals[7];
    assert(parsed_file_json(p) == p7 + "}"@);
    assert(members.take(1) =~= seq![members[0]]);
    assert(join(members.take(1), comma) == members[0]);
    assert(p0 == open + join(members.take(1), comma)) by {
        assert(p0 =~= open + members[0]);
    }
    lemma_join_step(members, comma, 1);
    lemma_regroup(open, join(members.take(1), comma), comma, json_string(keys[1]), colon, vals[1]);
    assert(p1 == open + join(members.take(2), comma));
    lemma_join_step(members, comma, 2);
    lemma_regroup(open, join(members.take(2), comma), comma, json_string(keys[2]), colon, vals[2]);
    assert(p2 == open + join(members.take(3), comma));
    lemma_join_step(members, comma, 3);
    lemma_regroup(open, join(members.take(3), comma), comma, json_string(keys[3]), colon, vals[3]);
    assert(p3 == open + join(members.take(4), comma));
    lemma_join_step(members, comma, 4);
    lemma_regroup(open, join(members.take(4), comma), comma, json_string(keys[4]), colon, vals[4]);
    assert(p4 == open + join(members.take(5), comma));
    lemma_join_step(members, comma, 5);
    lemma_regroup(open, join(members.take(5), comma), comma, json_string(keys[5]), colon, vals[5]);
    assert(p5 == open + join(members.take(6), comma));
    lemma_join_step(members, comma, 6);
    lemma_regroup(open, join(members.take(6), comma), comma, json_string(keys[6]), colon, vals[6]);
    assert(p6 == open + join(members.take(7), comma));
    lemma_join_step(members, comma, 7);
    lemma_regroup(open, join(members.take(7), comma), comma, json_string(keys[7]), colon, vals[7]);
    assert(p7 == open + join(members.take(8), comma));
    assert(members.take(8) =~= members);
}

proof fn lemma_anime_info_keys()
    ensures
        "{\"name\":"@ == seq!['{'] + json_string("name"@) + seq![':'],
        ",\"mal\":"@ == seq![','] + json_string("mal"@) + seq![':'],
        ",\"episode_offset\":"@ == seq![','] + json_string("episode_offset"@) + seq![':'],
        "}"@ == seq!['}'],
{
    reveal_strlit("name");
    reveal_strlit("mal");
    reveal_strlit("episode_offset");
    reveal_strlit("{\"name\":");
    reveal_strlit(",\"mal\":");
    reveal_strlit(",\"episode_offset\":");
    reveal_strlit("}");
    reveal_with_fuel(json_escape, 15);
    assert("{\"name\":"@ =~= seq!['{'] + json_string("name"@) + seq![':']);
    assert(",\"mal\":"@ =~= seq![','] + json_string("mal"@) + seq![':']);
    assert(",\"episode_offset\":"@ =~= seq![','] + json_string("episode_offset"@) + seq![':']);
    assert("}"@ =~= seq!['}']);
}

/// An anime map entry renders as the JSON object of its three fields in
/// declaration order, each under its own name.
pub proof fn lemma_anime_info_json_members(a: AnimeInfoView)
    ensures
        anime_info_json(a) == json_object(
            seq![
                json_member("name"@, json_opt_text(a.name)),
                json_member("mal"@, json_opt_number(widen(a.mal))),
                json_member("episode_offset"@, json_opt_number(widen(a.episode_offset))),
            ],
        ),
{
    let members = seq![
        json_member("name"@, json_opt_text(a.name)),
        json_member("mal"@, json_opt_number(widen(a.mal))),
        json_member("episode_offset"@, json_opt_number(widen(a.episode_offset))),
    ];
    let comma = seq![','];
    let colon = seq![':'];
    let open = seq!['{'];
    lemma_anime_info_keys();
    let v0 = json_opt_text(a.name);
    let v1 = json_opt_number(widen(a.mal));
    let v2 = json_opt_number(widen(a.episode_offset));
    let p0 = "{\"name\":"@ + v0;
    let p1 = p0 + ",\"mal\":"@ + v1;
    let p2 = p1 + ",\"episode_offset\":"@ + v2;
    assert(anime_info_json(a) == p2 + "}"@);
    assert(members.take(1) =~= seq![members[0]]);
    assert(join(members.take(1), comma) == members[0]);
    assert(p0 == open + join(members.take(1), comma)) by {
        assert(p0 =~= open + members[0]);
    }
    lemma_join_step(members, comma, 1);
    lemma_regroup(open, join(members.take(1), comma), comma, json_string("mal"@), colon, v1);
    assert(p1 == open + join(members.take(2), comma));
    lemma_join_step(members, comma, 2);
    lemma_regroup(
        open,
        join(members.take(2), comma),
        comma,
        json_string("episode_offset"@),
        colon,
        v2,
    );
    assert(p2 == open + join(members.take(3), comma));
    assert(members.take(3) =~= members);
}

/// A JSON array of already rendered items, written as the listing writes
/// it: items separated by a comma and a space.
pub open spec fn json_array(items: Seq<Seq<char>>) -> Seq<char> {
    "["@ + join(items, ", "@) + "]"@
}

/// A record that renders itself as one JSON object.
pub trait JsonObject {
    spec fn json(&self) -> Seq<char>;

    fn to_json(&self) -> (r: String)
        ensures
            r@ == self.json(),
    ;
}

impl JsonObject for AnimeInfo {
    open spec fn json(&self) -> Seq<char> {
        anime_info_json(self@)
    }

    fn to_json(&self) -> (r: String) {
        let mut r = String::from_str("{\"name\":");
        push_str(&mut r, json_of_opt_string(&self.name).as_str());
        push_str(&mut r, ",\"mal\":");
        push_str(&mut r, json_of_opt_u32(self.mal).as_str());
        push_str(&mut r, ",\"episode_offset\":");
        push_str(&mut r, json_of_opt_u32(self.episode_offset).as_str());
        push_str(&mut r, "}");
        r
    }
}

impl JsonObject for ParsedFile {
    open spec fn json(&self) -> Seq<char> {
        parsed_file_json(self@)
    }

    fn to_json(&self) -> (r: String) {
        let mut r = String::from_str("{\"name\":");
        push_str(&mut r, json_of_opt_string(&self.name).as_str());
        push_str(&mut r, ",\"anime\":");
        push_str(&mut r, json_of_opt_string(&self.anime).as_str());
        push_str(&mut r, ",\"group\":");
        push_str(&mut r, json_of_opt_string(&self.group).as_str());
        push_str(&mut r, ",\"episode\":");
        push_str(&mut r, json_of_opt_string(&self.episode).as_str());
        push_str(&mut r, ",\"type\":");
        push_str(&mut r, json_of_opt_string(&self.file_type).as_str());
        push_str(&mut r, ",\"mtime\":");
        push_str(&mut r, json_of_opt_string(&self.mtime).as_str());
        push_str(&mut r, ",\"size\":");
        push_str(&mut r, json_of_opt_u64(self.size).as_str());
        push_str(&mut r, ",\"mal_id\":");
        push_str(&mut r, json_of_opt_u32(self.mal_id).as_str());
        push_str(&mut r, "}");
        r
    }
}

/// Renders each record as a JSON object, in order.
pub fn structs_to_json<T: JsonObject>(data: Vec<T>) -> (r: Vec<String>)
    ensures
        r@.len() == data@.len(),
        forall|i: int| 0 <= i < data@.len() ==> (#[trigger] r@[i])@ == data@[i].json(),
{
    let mut items: Vec<String> = Vec::new();
    let n = data.len();
    let mut i: usize = 0;
    while i < n
        invariant
            n == data@.len(),
            i <= n,
            items@.len() == i,
            forall|k: int| 0 <= k < i ==> (#[trigger] items@[k])@ == data@[k].json(),
        decreases n - i,
    {
        items.push(data[i].to_json());
        i = i + 1;
    }
    items
}

/// The views of a list of strings.
pub open spec fn string_views(v: Seq<String>) -> Seq<Seq<char>> {
    v.map_values(|s: String| s@)
}

proof fn lemma_join_step(items: Seq<Seq<char>>, sep: Seq<char>, i: int)
    requires
        0 <= i < items.len(),
    ensures
        join(items.take(i + 1), sep) == if i == 0 {
            items[0]
        } else {
            join(items.take(i), sep) + sep + items[i]
        },
{
    assert(items.take(i + 1).drop_last() =~= items.take(i));
}

/// An empty list renders as `[]`, one item as the item in brackets, and
/// appending an item to a non-empty list puts `, ` and the item before the
/// closing bracket.
pub proof fn lemma_json_array_shape(items: Seq<Seq<char>>, x: Seq<char>)
    ensures
        json_array(Seq::empty()) == "["@ + "]"@,
        json_array(seq![x]) == "["@ + x + "]"@,
        items.len() > 0 ==> json_array(items.push(x)) == "["@ + join(items, ", "@) + ", "@ + x
            + "]"@,
{
    assert(seq![x].len() == 1);
    assert(items.push(x).drop_last() =~= items);
    assert("["@ + Seq::<char>::empty() + "]"@ =~= "["@ + "]"@);
}

/// Joins rendered items into a JSON array: `[` and `]` around the items,
/// separated by `, `.
pub fn vector_to_json_array(vec: Vec<String>) -> (r: String)
    ensures
        r@ == json_array(string_views(vec@)),
{
    let ghost items = string_views(vec@);
    let mut r = String::from_str("[");
    let n = vec.len();
    let mut i: usize = 0;
    while i < n
        invariant
            n == vec@.len(),
            items == string_views(vec@),
            i <= n,
            r@ == "["@ + join(items.take(i as int), ", "@),
        decreases n - i,
    {
        proof {
            lemma_join_step(items, ", "@, i as int);
        }
        if i > 0 {
            push_str(&mut r, ", ");
        }
        push_str(&mut r, vec[i].as_str());
        i = i + 1;
    }
    assert(items.take(n as int) =~= items);
    push_str(&mut r, "]");
    r
}

/// The anime map as a JSON array of its entries.
pub fn get_anime_map(anime: Vec<AnimeInfo>) -> (r: String)
    ensures
        r@ == json_array(anime@.map_values(|a: AnimeInfo| anime_info_json(a@))),
{
    let ghost entries = anime@;
    let items = structs_to_json(anime);
    let r = vector_to_json_array(items);
    assert(string_views(items@) =~= entries.map_values(|a: AnimeInfo| anime_info_json(a@)));
    r
}

} // verus!
