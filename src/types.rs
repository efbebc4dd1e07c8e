//! The catalogue's data model: releases, their seasons and episodes, and the
//! enumerated filter values the API understands.
use vstd::prelude::*;

use crate::query::WireValue;

verus! {

/// The kind of a release.
#[derive(Clone, Copy, Debug, PartialEq, Eq)]
pub enum ReleaseType {
    ForeignMovie,
    SovietCartoon,
    ForeignCartoon,
    RussianCartoon,
    Anime,
    RussianMovie,
    CartoonSerial,
    DocumentarySerial,
    RussianSerial,
    ForeignSerial,
    AnimeSerial,
    MultiPartFilm,
}

impl WireValue for ReleaseType {
    open spec fn wire_text(&self) -> Seq<char> {
        match self {
            ReleaseType::ForeignMovie => "foreign-movie"@,
            ReleaseType::SovietCartoon => "soviet-cartoon"@,
            ReleaseType::ForeignCartoon => "foreign-cartoon"@,
            ReleaseType::RussianCartoon => "russian-cartoon"@,
            ReleaseType::Anime => "anime"@,
            ReleaseType::RussianMovie => "russian-movie"@,
            ReleaseType::CartoonSerial => "cartoon-serial"@,
            ReleaseType::DocumentarySerial => "documentary-serial"@,
            ReleaseType::RussianSerial => "russian-serial"@,
            ReleaseType::ForeignSerial => "foreign-serial"@,
            ReleaseType::AnimeSerial => "anime-serial"@,
            ReleaseType::MultiPartFilm => "multi-part-film"@,
        }
    }

    fn to_wire(&self) -> (r: String) {
        match self {
            ReleaseType::ForeignMovie => "foreign-movie".to_owned(),
            ReleaseType::SovietCartoon => "soviet-cartoon".to_owned(),
            ReleaseType::ForeignCartoon => "foreign-cartoon".to_owned(),
            ReleaseType::RussianCartoon => "russian-cartoon".to_owned(),
            ReleaseType::Anime => "anime".to_owned(),
            ReleaseType::RussianMovie => "russian-movie".to_owned(),
            ReleaseType::CartoonSerial => "cartoon-serial".to_owned(),
            ReleaseType::DocumentarySerial => "documentary-serial".to_owned(),
            ReleaseType::RussianSerial => "russian-serial".to_owned(),
            ReleaseType::ForeignSerial => "foreign-serial".to_owned(),
            ReleaseType::AnimeSerial => "anime-serial".to_owned(),
            ReleaseType::MultiPartFilm => "multi-part-film".to_owned(),
        }
    }
}

/// The video quality of a release; `Unknown` stands for any name the API adds later.
#[derive(Clone, Copy, Debug, PartialEq, Eq)]
pub enum ReleaseQuality {
    BdRip,
    BdRip1080p,
    BdRip720p,
    CamRip,
    DVhs,
    DvbRip,
    DvbRip720p,
    DvdRip,
    DvdSrc,
    HddvdRip,
    HddvdRip1080p,
    HddvdRip720p,
    HdRip,
    HdRip1080p,
    HdRip720p,
    HdtvRip,
    HdtvRip1080p,
    HdtvRip720p,
    IptvRip,
    LaserdiscRip,
    SatRip,
    SuperTs,
    Ts,
    Ts720p,
    TvRip,
    TvRip720p,
    VhsRip,
    WebDlRip,
    WebDlRip1080p,
    WebDlRip720p,
    WorkprintAvc,
    Unknown,
}

/// Whether a translation is a voice-over or subtitles.
#[derive(Clone, Copy, Debug, PartialEq, Eq)]
pub enum TranslationType {
    Subtitles,
    Voice,
}

impl WireValue for TranslationType {
    open spec fn wire_text(&self) -> Seq<char> {
        match self {
            TranslationType::Subtitles => "subtitles"@,
            TranslationType::Voice => "voice"@,
        }
    }

    fn to_wire(&self) -> (r: String) {
        match self {
            TranslationType::Subtitles => "subtitles".to_owned(),
            TranslationType::Voice => "voice".to_owned(),
        }
    }
}

/// The kind of an anime release.
#[derive(Clone, Copy, Debug, PartialEq, Eq)]
pub enum AnimeKind {
    Tv,
    Movie,
    Ova,
    Ona,
    Special,
    Music,
    Tv13,
    Tv24,
    Tv48,
}

impl WireValue for AnimeKind {
    open spec fn wire_text(&self) -> Seq<char> {
        match self {
            AnimeKind::Tv => "tv"@,
            AnimeKind::Movie => "movie"@,
            AnimeKind::Ova => "ova"@,
            AnimeKind::Ona => "ona"@,
            AnimeKind::Special => "special"@,
            AnimeKind::Music => "music"@,
            AnimeKind::Tv13 => "tv_13"@,
            AnimeKind::Tv24 => "tv_24"@,
            AnimeKind::Tv48 => "tv_48"@,
        }
    }

    fn to_wire(&self) -> (r: String) {
        match self {
            AnimeKind::Tv => "tv".to_owned(),
            AnimeKind::Movie => "movie".to_owned(),
            AnimeKind::Ova => "ova".to_owned(),
            AnimeKind::Ona => "ona".to_owned(),
            AnimeKind::Special => "special".to_owned(),
            AnimeKind::Music => "music".to_owned(),
            AnimeKind::Tv13 => "tv_13".to_owned(),
            AnimeKind::Tv24 => "tv_24".to_owned(),
            AnimeKind::Tv48 => "tv_48".to_owned(),
        }
    }
}

/// The airing status of a release of any kind.
#[derive(Clone, Copy, Debug, PartialEq, Eq)]
pub enum AllStatus {
    Anons,
    Ongoing,
    Released,
}

impl WireValue for AllStatus {
    open spec fn wire_text(&self) -> Seq<char> {
        match self {
            AllStatus::Anons => "anons"@,
            AllStatus::Ongoing => "ongoing"@,
            AllStatus::Released => "released"@,
        }
    }

    fn to_wire(&self) -> (r: String) {
        match self {
            AllStatus::Anons => "anons".to_owned(),
            AllStatus::Ongoing => "ongoing".to_owned(),
            AllStatus::Released => "released".to_owned(),
        }
    }
}

/// The airing status of an anime.
#[derive(Clone, Copy, Debug, PartialEq, Eq)]
pub enum AnimeStatus {
    Anons,
    Ongoing,
    Released,
}

impl WireValue for AnimeStatus {
    open spec fn wire_text(&self) -> Seq<char> {
        match self {
            AnimeStatus::Anons => "anons"@,
            AnimeStatus::Ongoing => "ongoing"@,
            AnimeStatus::Released => "released"@,
        }
    }

    fn to_wire(&self) -> (r: String) {
        match self {
            AnimeStatus::Anons => "anons".to_owned(),
            AnimeStatus::Ongoing => "ongoing".to_owned(),
            AnimeStatus::Released => "released".to_owned(),
        }
    }
}

/// The airing status of a drama.
#[derive(Clone, Copy, Debug, PartialEq, Eq)]
pub enum DramaStatus {
    Anons,
    Ongoing,
    Released,
}

impl WireValue for DramaStatus {
    open spec fn wire_text(&self) -> Seq<char> {
        match self {
            DramaStatus::Anons => "anons"@,
            DramaStatus::Ongoing => "ongoing"@,
            DramaStatus::Released => "released"@,
        }
    }

    fn to_wire(&self) -> (r: String) {
        match self {
            DramaStatus::Anons => "anons".to_owned(),
            DramaStatus::Ongoing => "ongoing".to_owned(),
            DramaStatus::Released => "released".to_owned(),
        }
    }
}

/// An MPAA rating.
#[derive(Clone, Copy, Debug, PartialEq, Eq)]
pub enum MppaRating {
    G,
    Pg,
    Pg13,
    R,
    RPlus,
    Rx,
}

impl WireValue for MppaRating {
    open spec fn wire_text(&self) -> Seq<char> {
        match self {
            MppaRating::G => "G"@,
            MppaRating::Pg => "PG"@,
            MppaRating::Pg13 => "PG-13"@,
            MppaRating::R => "R"@,
            MppaRating::RPlus => "R+"@,
            MppaRating::Rx => "Rx"@,
        }
    }

    fn to_wire(&self) -> (r: String) {
        match self {
            MppaRating::G => "G".to_owned(),
            MppaRating::Pg => "PG".to_owned(),
            MppaRating::Pg13 => "PG-13".to_owned(),
            MppaRating::R => "R".to_owned(),
            MppaRating::RPlus => "R+".to_owned(),
            MppaRating::Rx => "Rx".to_owned(),
        }
    }
}

/// A cross-reference field whose presence a query can require.
#[derive(Clone, Copy, Debug, PartialEq, Eq)]
pub enum MaterialDataField {
    KinopoiskId,
    ImdbId,
    MdlId,
    WorldartAnimationId,
    WorldartCinemaId,
    WorldartLink,
    ShikimoriId,
}

impl WireValue for MaterialDataField {
    open spec fn wire_text(&self) -> Seq<char> {
        match self {
            MaterialDataField::KinopoiskId => "kinopoisk_id"@,
            MaterialDataField::ImdbId => "imdb_id"@,
            MaterialDataField::MdlId => "mdl_id"@,
            MaterialDataField::WorldartAnimationId => "worldart_animation_id"@,
            MaterialDataField::WorldartCinemaId => "worldart_cinema_id"@,
            MaterialDataField::WorldartLink => "worldart_link"@,
            MaterialDataField::ShikimoriId => "shikimori_id"@,
        }
    }

    fn to_wire(&self) -> (r: String) {
        match self {
            MaterialDataField::KinopoiskId => "kinopoisk_id".to_owned(),
            MaterialDataField::ImdbId => "imdb_id".to_owned(),
            MaterialDataField::MdlId => "mdl_id".to_owned(),
            MaterialDataField::WorldartAnimationId => "worldart_animation_id".to_owned(),
            MaterialDataField::WorldartCinemaId => "worldart_cinema_id".to_owned(),
            MaterialDataField::WorldartLink => "worldart_link".to_owned(),
            MaterialDataField::ShikimoriId => "shikimori_id".to_owned(),
        }
    }
}

/// No key stands twice among the entries of a keyed list.
pub open spec fn keys_unique<V>(entries: Seq<(String, V)>) -> bool {
    forall|i: int, j: int|
        #![trigger entries[i], entries[j]]
        0 <= i < j < entries.len() ==> entries[i].0@ != entries[j].0@
}

/// A catalogue entry: a movie, a series or a group of episodes.
#[derive(Clone, Debug, PartialEq)]
pub struct Release {
    pub id: String,
    pub title: String,
    pub title_orig: String,
    pub other_title: Option<String>,
    /// The player link of the release as a whole.
    pub link: String,
    pub year: i32,
    pub kinopoisk_id: Option<String>,
    pub imdb_id: Option<String>,
    pub mdl_id: Option<String>,
    pub worldart_link: Option<String>,
    pub shikimori_id: Option<String>,
    pub release_type: ReleaseType,
    pub quality: ReleaseQuality,
    pub camrip: bool,
    pub lgbt: bool,
    pub translation: Translation,
    pub created_at: String,
    pub updated_at: String,
    /// Blocked seasons, keyed by season number, each key at most once.
    pub blocked_seasons: Option<Vec<(String, BlockedSeason)>>,
    /// The seasons, keyed by season number, each key at most once.
    pub seasons: Option<Vec<(String, Season)>>,
    pub last_season: Option<i32>,
    pub last_episode: Option<i32>,
    pub episodes_count: Option<i32>,
    pub blocked_countries: Vec<String>,
    pub material_data: Option<MaterialData>,
    pub screenshots: Vec<String>,
}

impl Release {
    /// Its keyed lists are maps: each season number, and each episode number
    /// within a season, stands at most once.
    pub open spec fn well_formed(&self) -> bool {
        &&& self.blocked_seasons is Some ==> keys_unique(self.blocked_seasons->Some_0@)
        &&& self.seasons is Some ==> {
            &&& keys_unique(self.seasons->Some_0@)
            &&& forall|i: int|
                0 <= i < self.seasons->Some_0@.len() ==> keys_unique(
                    (#[trigger] self.seasons->Some_0@[i]).1.episodes@,
                )
        }
    }
}

/// What of a season is blocked.
#[derive(Clone, Debug, PartialEq)]
pub enum BlockedSeason {
    All,
    Episodes(Vec<String>),
}

/// A season of a release.
#[derive(Clone, Debug, PartialEq)]
pub struct Season {
    pub title: Option<String>,
    pub link: String,
    /// The episodes, keyed by episode number, each key at most once.
    pub episodes: Vec<(String, EpisodeUnion)>,
}

/// An episode as the API sends it: either a bare link or a full record.
#[derive(Clone, Debug, PartialEq)]
pub enum EpisodeUnion {
    Link(String),
    Episode(Episode),
}

/// A full episode record.
#[derive(Clone, Debug, PartialEq)]
pub struct Episode {
    pub title: Option<String>,
    pub link: String,
    pub screenshots: Vec<String>,
}

/// The team that made a voice-over or subtitle track.
#[derive(Clone, Debug, PartialEq)]
pub struct Translation {
    pub id: i32,
    pub title: String,
    pub translation_type: TranslationType,
}

/// Enrichment merged from several metadata providers. Ratings are kept as the
/// decimal text the API sent.
#[derive(Clone, Debug, PartialEq)]
pub struct MaterialData {
    pub title: Option<String>,
    pub anime_title: Option<String>,
    pub title_en: Option<String>,
    pub other_titles: Option<Vec<String>>,
    pub other_titles_en: Option<Vec<String>>,
    pub other_titles_jp: Option<Vec<String>>,
    pub anime_license_name: Option<String>,
    pub anime_licensed_by: Option<Vec<String>>,
    pub anime_kind: Option<AnimeKind>,
    pub all_status: Option<AllStatus>,
    pub anime_status: Option<AnimeStatus>,
    pub drama_status: Option<DramaStatus>,
    pub year: Option<i32>,
    pub tagline: Option<String>,
    pub description: Option<String>,
    pub anime_description: Option<String>,
    pub poster_url: Option<String>,
    pub screenshots: Option<Vec<String>>,
    pub duration: Option<i32>,
    pub countries: Option<Vec<String>>,
    pub all_genres: Option<Vec<String>>,
    pub genres: Option<Vec<String>>,
    pub anime_genres: Option<Vec<String>>,
    pub drama_genres: Option<Vec<String>>,
    pub anime_studios: Option<Vec<String>>,
    pub kinopoisk_rating: Option<String>,
    pub kinopoisk_votes: Option<i32>,
    pub imdb_rating: Option<String>,
    pub imdb_votes: Option<i32>,
    pub shikimori_rating: Option<String>,
    pub shikimori_votes: Option<i32>,
    pub mydramalist_rating: Option<String>,
    pub mydramalist_votes: Option<i32>,
    pub premiere_ru: Option<String>,
    pub premiere_world: Option<String>,
    pub aired_at: Option<String>,
    pub released_at: Option<String>,
    pub next_episode_at: Option<String>,
    pub rating_mpaa: Option<MppaRating>,
    pub minimal_age: Option<i32>,
    pub episodes_total: Option<i32>,
    pub episodes_aired: Option<i32>,
    pub actors: Option<Vec<String>>,
    pub directors: Option<Vec<String>>,
    pub producers: Option<Vec<String>>,
    pub writers: Option<Vec<String>>,
    pub composers: Option<Vec<String>>,
    pub editors: Option<Vec<String>>,
    pub designers: Option<Vec<String>>,
    pub operators: Option<Vec<String>>,
}

} // verus!
