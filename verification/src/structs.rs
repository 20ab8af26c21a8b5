//! The records the server exchanges, and their mathematical views.
use vstd::prelude::*;

verus! {

/// Settings of the MyAnimeList connection, taken from the environment.
#[derive(Debug, Clone)]
pub struct Config {
    pub mal_secret: Option<String>,
    pub mal_client_id: Option<String>,
}

/// One entry of the anime map: a title and its MyAnimeList id.
#[derive(Debug, Clone)]
pub struct AnimeInfo {
    pub name: Option<String>,
    pub mal: Option<u32>,
    pub episode_offset: Option<u32>,
}

/// A directory entry as read from disk. `file_type` is `"file"` or
/// `"directory"`.
#[derive(Debug, Clone)]
pub struct File {
    pub file_type: Option<String>,
    pub name: Option<String>,
    pub mtime: Option<String>,
    pub size: Option<u64>,
}

/// A listing entry after the release name has been taken apart.
#[derive(Debug, Clone)]
pub struct ParsedFile {
    pub name: Option<String>,
    pub anime: Option<String>,
    pub group: Option<String>,
    pub episode: Option<String>,
    pub file_type: Option<String>,
    pub mtime: Option<String>,
    pub size: Option<u64>,
    pub mal_id: Option<u32>,
}

/// The fields of a Google Drive file that the listing reads.
#[derive(Debug, Clone)]
pub struct GoogleFile {
    pub id: Option<String>,
    pub name: Option<String>,
    pub mime_type: Option<String>,
}

/// The OAuth2 reply that the MyAnimeList login page sends back.
#[derive(Debug, Clone)]
pub struct MALReply {
    pub code: String,
    pub state: String,
}

/// A MyAnimeList user and the token to act for them.
#[derive(Debug, Clone)]
pub struct MALUser {
    pub user: String,
    pub token: String,
}

/// A MyAnimeList anime id and the token to read it with.
#[derive(Debug, Clone)]
pub struct MALAnime {
    pub anime_id: u32,
    pub token: String,
}

/// A change to the user's list status of one anime.
#[derive(Debug, Clone)]
pub struct MALAnimeUpdate {
    pub anime_id: u32,
    pub token: String,
    pub status: String,
    pub num_watched_episodes: u32,
}

pub struct AnimeInfoView {
    pub name: Option<Seq<char>>,
    pub mal: Option<u32>,
    pub episode_offset: Option<u32>,
}

pub struct FileView {
    pub file_type: Option<Seq<char>>,
    pub name: Option<Seq<char>>,
    pub mtime: Option<Seq<char>>,
    pub size: Option<u64>,
}

pub struct ParsedFileView {
    pub name: Option<Seq<char>>,
    pub anime: Option<Seq<char>>,
    pub group: Option<Seq<char>>,
    pub episode: Option<Seq<char>>,
    pub file_type: Option<Seq<char>>,
    pub mtime: Option<Seq<char>>,
    pub size: Option<u64>,
    pub mal_id: Option<u32>,
}

pub struct GoogleFileView {
    pub id: Option<Seq<char>>,
    pub name: Option<Seq<char>>,
    pub mime_type: Option<Seq<char>>,
}

impl View for AnimeInfo {
    type V = AnimeInfoView;

    open spec fn view(&self) -> AnimeInfoView {
        AnimeInfoView {
            name: self.name.deep_view(),
            mal: self.mal,
            episode_offset: self.episode_offset,
        }
    }
}

impl View for File {
    type V = FileView;

    open spec fn view(&self) -> FileView {
        FileView {
            file_type: self.file_type.deep_view(),
            name: self.name.deep_view(),
            mtime: self.mtime.deep_view(),
            size: self.size,
        }
    }
}

impl View for ParsedFile {
    type V = ParsedFileView;

    open spec fn view(&self) -> ParsedFileView {
        ParsedFileView {
            name: self.name.deep_view(),
            anime: self.anime.deep_view(),
            group: self.group.deep_view(),
            episode: self.episode.deep_view(),
            file_type: self.file_type.deep_view(),
            mtime: self.mtime.deep_view(),
            size: self.size,
            mal_id: self.mal_id,
        }
    }
}

impl View for GoogleFile {
    type V = GoogleFileView;

    open spec fn view(&self) -> GoogleFileView {
        GoogleFileView {
            id: self.id.deep_view(),
            name: self.name.deep_view(),
            mime_type: self.mime_type.deep_view(),
        }
    }
}

/// The views of a list of anime map entries.
pub open spec fn anime_views(v: Seq<AnimeInfo>) -> Seq<AnimeInfoView> {
    v.map_values(|a: AnimeInfo| a@)
}

/// A copy of an optional string.
pub fn copy_opt_string(o: &Option<String>) -> (r: Option<String>)
    ensures
        r.deep_view() == o.deep_view(),
{
    match o {
        Some(s) => Some(s.clone()),
        None => None,
    }
}

} // verus!
