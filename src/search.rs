//! Searching the catalogue by title, by identifier or by filters.
use vstd::prelude::*;

use crate::client::{request_url, Client, PostRequest};
use crate::error::ApiError;
use crate::query::{
    comma_join, set_count, lemma_list_param_len, lemma_value_param_len, list_texts,
    encode_form, form_encoding, list_param, opt_seq, pairs_view, push_list, push_value, value_param,
};
use crate::types::{
    AllStatus, AnimeKind, AnimeStatus, DramaStatus, MppaRating, Release, ReleaseType,
    TranslationType,
};

verus! {

/// The releases found and the paging information of the search.
#[derive(Clone, Debug, PartialEq)]
pub struct SearchResponse {
    pub time: String,
    pub total: i32,
    pub prev_page: Option<String>,
    pub next_page: Option<String>,
    pub results: Vec<Release>,
}


/// The filters of one query; every field left `None` is left out of the request.
#[derive(Clone, Debug)]
pub struct SearchQuery<'a> {
    /// The name of the movie. It is not necessary to specify it explicitly, you can use a variant written by the user or a variant containing extra words. If you specify one of these parameters, the search will be performed on several fields at once: `title`, `title_orig`, `other_title`
    pub title: Option<&'a str>,
    /// Title in the language of release. When this option is used, only the title_orig will be searched. It is not necessary to specify it explicitly, you can use a variant written by the user or a variant containing extra words
    pub title_orig: Option<&'a str>,
    /// If title or title_orig parameter was specified, this parameter defines the severity of checking if the title of the material corresponds to the search query. If true, the search results will show only those materials in which the word order is exactly the same as in the search query (but extra words in the search query are still allowed)
    pub strict: Option<bool>,
    /// If title or title_orig parameter was specified, this parameter defines the severity of checking if the title of the material corresponds to the search query. If true, the search results will only show content where the title completely matches the search query (no extra words, word order and presence of characters are also completely identical). The only thing the title may differ from the query is the case. When used in conjunction with the title, full consistency with at least one of the titles of the material is checked
    pub full_match: Option<bool>,
    /// Search by Kodik ID
    pub id: Option<&'a str>,
    /// Search for any link to the player
    pub player_link: Option<&'a str>,
    /// Search by kinopoisk ID
    pub kinopoisk_id: Option<&'a str>,
    /// Search by IMDb ID
    pub imdb_id: Option<&'a str>,
    /// Search by MyDramaList ID
    pub mdl_id: Option<&'a str>,
    /// Search for World Art IDs in the anime section (World Art has different content sections, each with their own independent IDs)
    pub worldart_animation_id: Option<&'a str>,
    /// Search for World Art IDs in the Movies section
    pub worldart_cinema_id: Option<&'a str>,
    /// Search the full World Art link
    pub worldart_link: Option<&'a str>,
    /// Search by Shikimori ID
    pub shikimori_id: Option<&'a str>,
    /// Maximum number of outputs
    pub limit: Option<u32>,
    /// Maximum number of outputs
    pub types: Option<&'a [ReleaseType]>,
    ///Filter materials by year If you set this parameter, only materials of the corresponding year will be displayed
    pub year: Option<&'a [u32]>,
    /// Filtering materials by translation ID
    pub translation_id: Option<&'a [u32]>,
    /// Filter content by translation type. Allows you to output only voice translation or only subtitles
    pub translation_type: Option<&'a [TranslationType]>,
    /// Increases the priority of certain voices. The IDs are listed in commas. The "leftmost" ID, the higher its priority. IDs of all voices can be received through API resource /translations or on the page of list of voices. Standard priority of dubbed and prof. Multivoiced". To deactivate standard priority you need to pass value 0. You can also specify the translation type (subtitles/voice) instead of the ID
    pub prioritize_translations: Option<&'a [&'a str]>,
    /// Decreases the priority of certain voices. The IDs are listed in commas. The "leftmost" ID, the lower its priority. IDs of all voices can be received through API resource /translations or on page of voices list. Standard priority of soundtracks "Ukrainian", "English" and all subtitles are lowered. To deactivate standard priority you need to pass value 0. You can also specify the translation type (subtitles/voice) instead of the ID
    pub unprioritize_translations: Option<&'a [&'a str]>,
    /// Increases the priority of a certain type of translation. If you specify voice, voiceovers will be output first. If subtitles, subtitles will be output
    pub prioritize_translation_type: Option<&'a [TranslationType]>,
    /// Deletes certain voices from the search results. IDs are listed separated by commas
    pub block_translations: Option<&'a [u32]>,
    /// Filtering materials by camrip parameter. If you specify false, only materials with a quality picture will be output. If you don't specify this parameter, all materials will be displayed
    pub camrip: Option<bool>,
    /// Filters materials by the lgbt parameter. If you specify false, only materials that do not contain LGBT scenes will be output. If you don't specify this parameter, all materials will be displayed
    pub lgbt: Option<bool>,
    /// If you specify true, the seasons of the series will also be listed in the seasons field. This and the following parameter are made to avoid overloading the output with a huge amount of information about seasons and episodes, if this information is not needed for parsing
    pub with_seasons: Option<bool>,
    /// With this option you can specify which season you are interested in. This way, only shows that have that season will appear in the search results. Passing this parameter also automatically enables the with_seasons parameter
    pub season: Option<&'a [u32]>,
    /// If you specify true, the seasons field will be added to each series (even if with_seasons is not specified or specified as false) and the episodes field with the episodes of that season will be added to each season. If the with_episodes parameter is used, the series numbers will correspond to the normal series references. If you use the with_episodes_data parameter, episode objects will be assigned to the episode numbers, where the link will be available via the link parameter, the episode name (if any) via the title parameter, and the frames via screenshots
    pub with_episodes: Option<bool>,
    /// If you specify true, the seasons field will be added to each series (even if with_seasons is not specified or specified as false) and the episodes field with the episodes of that season will be added to each season. If the with_episodes parameter is used, the series numbers will correspond to the normal series references. If you use the with_episodes_data parameter, episode objects will be assigned to the episode numbers, where the link will be available via the link parameter, the episode name (if any) via the title parameter, and the frames via screenshots
    pub with_episodes_data: Option<bool>,
    /// With this option, you can specify which episode of a particular season you are interested in. Thus, only shows with that episode will appear in the search results. If you use this parameter, you must also pass the season parameter. Passing this parameter also automatically includes the with_episodes parameter
    pub episode: Option<&'a [u32]>,
    /// If you specify true, all links to players will be replaced by special links to pages with players (suitable for cases when you don't have your own site). You can customize appearance of these pages in settings in the base. If parameter with_seasons or with_episodes / with_episodes_data is specified together with this parameter, links in seasons and episodes will also be replaced
    pub with_page_links: Option<bool>,
    /// Filters materials by country in which they should not be blocked. The country codes are specified separated by commas
    pub not_blocked_in: Option<&'a [&'a str]>,
    /// A simpler analog of the previous parameter. Our server itself checks which country the current request comes from and doesn't display those materials that are blocked for that country. This parameter can be useful if the API is called on your site
    pub not_blocked_for_me: Option<&'a [&'a str]>,
    /// If you specify true, the material_data field will be added to each movie/series with information from Kinopoisk and Shikimori
    pub with_material_data: Option<bool>,
    /// Filtering materials by country. You can specify a single value or multiple values, separated by commas (then materials with at least one of the listed countries will be displayed). The parameter is case sensitive
    pub countries: Option<&'a [&'a str]>,
    /// Filtering by genre. You can specify either one value or several values separated by commas (then materials that have at least one of the specified genres will be displayed). You can search by Kinopoisk, Shikimori, MyDramaList or by all genres at once. The parameter is not case sensitive
    pub genres: Option<&'a [&'a str]>,
    /// Filtering by genre. You can specify either one value or several values separated by commas (then materials that have at least one of the specified genres will be displayed). You can search by Kinopoisk, Shikimori, MyDramaList or by all genres at once. The parameter is not case sensitive
    pub anime_genres: Option<&'a [&'a str]>,
    /// Filtering by genre. You can specify either one value or several values separated by commas (then materials that have at least one of the specified genres will be displayed). You can search by Kinopoisk, Shikimori, MyDramaList or by all genres at once. The parameter is not case sensitive
    pub drama_genres: Option<&'a [&'a str]>,
    /// Filtering by genre. You can specify either one value or several values separated by commas (then materials that have at least one of the specified genres will be displayed). You can search by Kinopoisk, Shikimori, MyDramaList or by all genres at once. The parameter is not case sensitive
    pub all_genres: Option<&'a [&'a str]>,
    /// Filtering by duration (in minutes). You can specify either a single value to search for the exact duration, or an interval.
    pub duration: Option<&'a [&'a str]>,
    /// Filtering by Kinopoisk, IMDb, Shikimori, or MyDramaList ratings. You can specify either a single value to search for the exact rating, or an interval
    pub kinopoisk_rating: Option<&'a [&'a str]>,
    /// Filtering by Kinopoisk, IMDb, Shikimori, or MyDramaList ratings. You can specify either a single value to search for the exact rating, or an interval
    pub imdb_rating: Option<&'a [&'a str]>,
    /// Filtering by Kinopoisk, IMDb, Shikimori, or MyDramaList ratings. You can specify either a single value to search for the exact rating, or an interval
    pub shikimori_rating: Option<&'a [&'a str]>,
    /// Filtering by Kinopoisk, IMDb, Shikimori, or MyDramaList ratings. You can specify either a single value to search for the exact rating, or an interval
    pub mydramalist_rating: Option<&'a [&'a str]>,
    /// Filtering materials by personas. You can specify a single value or multiple values, separated by commas (then materials that have at least one of the specified personas will be displayed). This parameter is case-independent. You can specify filters for several professions at once
    pub actors: Option<&'a [&'a str]>,
    /// Filtering materials by personas. You can specify a single value or multiple values, separated by commas (then materials that have at least one of the specified personas will be displayed). This parameter is case-independent. You can specify filters for several professions at once
    pub directors: Option<&'a [&'a str]>,
    /// Filtering materials by personas. You can specify a single value or multiple values, separated by commas (then materials that have at least one of the specified personas will be displayed). This parameter is case-independent. You can specify filters for several professions at once
    pub producers: Option<&'a [&'a str]>,
    /// Filtering materials by personas. You can specify a single value or multiple values, separated by commas (then materials that have at least one of the specified personas will be displayed). This parameter is case-independent. You can specify filters for several professions at once
    pub writers: Option<&'a [&'a str]>,
    /// Filtering materials by personas. You can specify a single value or multiple values, separated by commas (then materials that have at least one of the specified personas will be displayed). This parameter is case-independent. You can specify filters for several professions at once
    pub composers: Option<&'a [&'a str]>,
    /// Filtering materials by personas. You can specify a single value or multiple values, separated by commas (then materials that have at least one of the specified personas will be displayed). This parameter is case-independent. You can specify filters for several professions at once
    pub editors: Option<&'a [&'a str]>,
    /// Filtering materials by personas. You can specify a single value or multiple values, separated by commas (then materials that have at least one of the specified personas will be displayed). This parameter is case-independent. You can specify filters for several professions at once
    pub designers: Option<&'a [&'a str]>,
    /// Filtering materials by personas. You can specify a single value or multiple values, separated by commas (then materials that have at least one of the specified personas will be displayed). This parameter is case-independent. You can specify filters for several professions at once
    pub operators: Option<&'a [&'a str]>,
    /// Filtering materials by age rating. You can specify a single value or multiple values, separated by commas. The parameter is case-insensitive
    pub mpaa_rating: Option<&'a [MppaRating]>,
    /// Filter content by the minimum age from which it can be viewed. You can specify either a single value or a range of values
    pub minimal_age: Option<&'a [&'a str]>,
    /// Filtering materials by anime type. You can specify one value or several values separated by commas (then materials with at least one of these types will be displayed)
    pub anime_kind: Option<&'a [AnimeKind]>,
    /// Filters materials by MyDramaList tags. You can specify one value or several values separated by commas (then materials with at least one of these types will be displayed)
    pub mydramalist_tags: Option<&'a [&'a str]>,
    /// Filter materials by Shikimori status, MyDramaList, or by all statuses. You can specify a single value or several values separated by commas (then materials that have at least one of the listed statuses will be displayed)
    pub anime_status: Option<&'a [AnimeStatus]>,
    /// Filter materials by Shikimori status, MyDramaList, or by all statuses. You can specify a single value or several values separated by commas (then materials that have at least one of the listed statuses will be displayed)
    pub drama_status: Option<&'a [DramaStatus]>,
    /// Filter materials by Shikimori status, MyDramaList, or by all statuses. You can specify a single value or several values separated by commas (then materials that have at least one of the listed statuses will be displayed)
    pub all_status: Option<&'a [AllStatus]>,
    /// Filtering materials by anime studio. You can specify either one value or several values separated by commas (then materials with at least one of the listed studios will be displayed)
    pub anime_studios: Option<&'a [&'a str]>,
    /// Filtering materials by license owner. You can specify a single value or several values separated by commas (then materials that have at least one of the listed owners will be displayed)
    pub anime_licensed_by: Option<&'a [&'a str]>,
}

impl<'a> SearchQuery<'a> {
    /// The query with every filter unset.
    pub open spec fn unset() -> SearchQuery<'a> {
        SearchQuery {
            title: None,
            title_orig: None,
            strict: None,
            full_match: None,
            id: None,
            player_link: None,
            kinopoisk_id: None,
            imdb_id: None,
            mdl_id: None,
            worldart_animation_id: None,
            worldart_cinema_id: None,
            worldart_link: None,
            shikimori_id: None,
            limit: None,
            types: None,
            year: None,
            translation_id: None,
            translation_type: None,
            prioritize_translations: None,
            unprioritize_translations: None,
            prioritize_translation_type: None,
            block_translations: None,
            camrip: None,
            lgbt: None,
            with_seasons: None,
            season: None,
            with_episodes: None,
            with_episodes_data: None,
            episode: None,
            with_page_links: None,
            not_blocked_in: None,
            not_blocked_for_me: None,
            with_material_data: None,
            countries: None,
            genres: None,
            anime_genres: None,
            drama_genres: None,
            all_genres: None,
            duration: None,
            kinopoisk_rating: None,
            imdb_rating: None,
            shikimori_rating: None,
            mydramalist_rating: None,
            actors: None,
            directors: None,
            producers: None,
            writers: None,
            composers: None,
            editors: None,
            designers: None,
            operators: None,
            mpaa_rating: None,
            minimal_age: None,
            anime_kind: None,
            mydramalist_tags: None,
            anime_status: None,
            drama_status: None,
            all_status: None,
            anime_studios: None,
            anime_licensed_by: None,
        }
    }

    /// The query-string pairs of this query, in field order.
    pub open spec fn spec_parts(&self) -> Seq<(Seq<char>, Seq<char>)> {
        value_param("title"@, self.title)
            + value_param("title_orig"@, self.title_orig)
            + value_param("strict"@, self.strict)
            + value_param("full_match"@, self.full_match)
            + value_param("id"@, self.id)
            + value_param("player_link"@, self.player_link)
            + value_param("kinopoisk_id"@, self.kinopoisk_id)
            + value_param("imdb_id"@, self.imdb_id)
            + value_param("mdl_id"@, self.mdl_id)
            + value_param("worldart_animation_id"@, self.worldart_animation_id)
            + value_param("worldart_cinema_id"@, self.worldart_cinema_id)
            + value_param("worldart_link"@, self.worldart_link)
            + value_param("shikimori_id"@, self.shikimori_id)
            + value_param("limit"@, self.limit)
            + list_param("types"@, opt_seq(self.types))
            + list_param("year"@, opt_seq(self.year))
            + list_param("translation_id"@, opt_seq(self.translation_id))
            + list_param("translation_type"@, opt_seq(self.translation_type))
            + list_param("prioritize_translations"@, opt_seq(self.prioritize_translations))
            + list_param("unprioritize_translations"@, opt_seq(self.unprioritize_translations))
            + list_param("prioritize_translation_type"@, opt_seq(self.prioritize_translation_type))
            + list_param("block_translations"@, opt_seq(self.block_translations))
            + value_param("camrip"@, self.camrip)
            + value_param("lgbt"@, self.lgbt)
            + value_param("with_seasons"@, self.with_seasons)
            + list_param("season"@, opt_seq(self.season))
            + value_param("with_episodes"@, self.with_episodes)
            + value_param("with_episodes_data"@, self.with_episodes_data)
            + list_param("episode"@, opt_seq(self.episode))
            + value_param("with_page_links"@, self.with_page_links)
            + list_param("not_blocked_in"@, opt_seq(self.not_blocked_in))
            + list_param("not_blocked_for_me"@, opt_seq(self.not_blocked_for_me))
            + value_param("with_material_data"@, self.with_material_data)
            + list_param("countries"@, opt_seq(self.countries))
            + list_param("genres"@, opt_seq(self.genres))
            + list_param("anime_genres"@, opt_seq(self.anime_genres))
            + list_param("drama_genres"@, opt_seq(self.drama_genres))
            + list_param("all_genres"@, opt_seq(self.all_genres))
            + list_param("duration"@, opt_seq(self.duration))
            + list_param("kinopoisk_rating"@, opt_seq(self.kinopoisk_rating))
            + list_param("imdb_rating"@, opt_seq(self.imdb_rating))
            + list_param("shikimori_rating"@, opt_seq(self.shikimori_rating))
            + list_param("mydramalist_rating"@, opt_seq(self.mydramalist_rating))
            + list_param("actors"@, opt_seq(self.actors))
            + list_param("directors"@, opt_seq(self.directors))
            + list_param("producers"@, opt_seq(self.producers))
            + list_param("writers"@, opt_seq(self.writers))
            + list_param("composers"@, opt_seq(self.composers))
            + list_param("editors"@, opt_seq(self.editors))
            + list_param("designers"@, opt_seq(self.designers))
            + list_param("operators"@, opt_seq(self.operators))
            + list_param("mpaa_rating"@, opt_seq(self.mpaa_rating))
            + list_param("minimal_age"@, opt_seq(self.minimal_age))
            + list_param("anime_kind"@, opt_seq(self.anime_kind))
            + list_param("mydramalist_tags"@, opt_seq(self.mydramalist_tags))
            + list_param("anime_status"@, opt_seq(self.anime_status))
            + list_param("drama_status"@, opt_seq(self.drama_status))
            + list_param("all_status"@, opt_seq(self.all_status))
            + list_param("anime_studios"@, opt_seq(self.anime_studios))
            + list_param("anime_licensed_by"@, opt_seq(self.anime_licensed_by))
    }

    /// How many fields are set.
    pub open spec fn set_field_count(&self) -> nat {
        set_count(self.title)
            + set_count(self.title_orig)
            + set_count(self.strict)
            + set_count(self.full_match)
            + set_count(self.id)
            + set_count(self.player_link)
            + set_count(self.kinopoisk_id)
            + set_count(self.imdb_id)
            + set_count(self.mdl_id)
            + set_count(self.worldart_animation_id)
            + set_count(self.worldart_cinema_id)
            + set_count(self.worldart_link)
            + set_count(self.shikimori_id)
            + set_count(self.limit)
            + set_count(opt_seq(self.types))
            + set_count(opt_seq(self.year))
            + set_count(opt_seq(self.translation_id))
            + set_count(opt_seq(self.translation_type))
            + set_count(opt_seq(self.prioritize_translations))
            + set_count(opt_seq(self.unprioritize_translations))
            + set_count(opt_seq(self.prioritize_translation_type))
            + set_count(opt_seq(self.block_translations))
            + set_count(self.camrip)
            + set_count(self.lgbt)
            + set_count(self.with_seasons)
            + set_count(opt_seq(self.season))
            + set_count(self.with_episodes)
            + set_count(self.with_episodes_data)
            + set_count(opt_seq(self.episode))
            + set_count(self.with_page_links)
            + set_count(opt_seq(self.not_blocked_in))
            + set_count(opt_seq(self.not_blocked_for_me))
            + set_count(self.with_material_data)
            + set_count(opt_seq(self.countries))
            + set_count(opt_seq(self.genres))
            + set_count(opt_seq(self.anime_genres))
            + set_count(opt_seq(self.drama_genres))
            + set_count(opt_seq(self.all_genres))
            + set_count(opt_seq(self.duration))
            + set_count(opt_seq(self.kinopoisk_rating))
            + set_count(opt_seq(self.imdb_rating))
            + set_count(opt_seq(self.shikimori_rating))
            + set_count(opt_seq(self.mydramalist_rating))
            + set_count(opt_seq(self.actors))
            + set_count(opt_seq(self.directors))
            + set_count(opt_seq(self.producers))
            + set_count(opt_seq(self.writers))
            + set_count(opt_seq(self.composers))
            + set_count(opt_seq(self.editors))
            + set_count(opt_seq(self.designers))
            + set_count(opt_seq(self.operators))
            + set_count(opt_seq(self.mpaa_rating))
            + set_count(opt_seq(self.minimal_age))
            + set_count(opt_seq(self.anime_kind))
            + set_count(opt_seq(self.mydramalist_tags))
            + set_count(opt_seq(self.anime_status))
            + set_count(opt_seq(self.drama_status))
            + set_count(opt_seq(self.all_status))
            + set_count(opt_seq(self.anime_studios))
            + set_count(opt_seq(self.anime_licensed_by))
    }

    /// The wire texts of the list filter named `key`, if this query has a list
    /// filter of that name and it is set.
    pub open spec fn list_filter(&self, key: Seq<char>) -> Option<Seq<Seq<char>>> {
        if key == "types"@ {
            list_texts(opt_seq(self.types))
        } else if key == "year"@ {
            list_texts(opt_seq(self.year))
        } else if key == "translation_id"@ {
            list_texts(opt_seq(self.translation_id))
        } else if key == "translation_type"@ {
            list_texts(opt_seq(self.translation_type))
        } else if key == "prioritize_translations"@ {
            list_texts(opt_seq(self.prioritize_translations))
        } else if key == "unprioritize_translations"@ {
            list_texts(opt_seq(self.unprioritize_translations))
        } else if key == "prioritize_translation_type"@ {
            list_texts(opt_seq(self.prioritize_translation_type))
        } else if key == "block_translations"@ {
            list_texts(opt_seq(self.block_translations))
        } else if key == "season"@ {
            list_texts(opt_seq(self.season))
        } else if key == "episode"@ {
            list_texts(opt_seq(self.episode))
        } else if key == "not_blocked_in"@ {
            list_texts(opt_seq(self.not_blocked_in))
        } else if key == "not_blocked_for_me"@ {
            list_texts(opt_seq(self.not_blocked_for_me))
        } else if key == "countries"@ {
            list_texts(opt_seq(self.countries))
        } else if key == "genres"@ {
            list_texts(opt_seq(self.genres))
        } else if key == "anime_genres"@ {
            list_texts(opt_seq(self.anime_genres))
        } else if key == "drama_genres"@ {
            list_texts(opt_seq(self.drama_genres))
        } else if key == "all_genres"@ {
            list_texts(opt_seq(self.all_genres))
        } else if key == "duration"@ {
            list_texts(opt_seq(self.duration))
        } else if key == "kinopoisk_rating"@ {
            list_texts(opt_seq(self.kinopoisk_rating))
        } else if key == "imdb_rating"@ {
            list_texts(opt_seq(self.imdb_rating))
        } else if key == "shikimori_rating"@ {
            list_texts(opt_seq(self.shikimori_rating))
        } else if key == "mydramalist_rating"@ {
            list_texts(opt_seq(self.mydramalist_rating))
        } else if key == "actors"@ {
            list_texts(opt_seq(self.actors))
        } else if key == "directors"@ {
            list_texts(opt_seq(self.directors))
        } else if key == "producers"@ {
            list_texts(opt_seq(self.producers))
        } else if key == "writers"@ {
            list_texts(opt_seq(self.writers))
        } else if key == "composers"@ {
            list_texts(opt_seq(self.composers))
        } else if key == "editors"@ {
            list_texts(opt_seq(self.editors))
        } else if key == "designers"@ {
            list_texts(opt_seq(self.designers))
        } else if key == "operators"@ {
            list_texts(opt_seq(self.operators))
        } else if key == "mpaa_rating"@ {
            list_texts(opt_seq(self.mpaa_rating))
        } else if key == "minimal_age"@ {
            list_texts(opt_seq(self.minimal_age))
        } else if key == "anime_kind"@ {
            list_texts(opt_seq(self.anime_kind))
        } else if key == "mydramalist_tags"@ {
            list_texts(opt_seq(self.mydramalist_tags))
        } else if key == "anime_status"@ {
            list_texts(opt_seq(self.anime_status))
        } else if key == "drama_status"@ {
            list_texts(opt_seq(self.drama_status))
        } else if key == "all_status"@ {
            list_texts(opt_seq(self.all_status))
        } else if key == "anime_studios"@ {
            list_texts(opt_seq(self.anime_studios))
        } else if key == "anime_licensed_by"@ {
            list_texts(opt_seq(self.anime_licensed_by))
        } else {
            None
        }
    }

    /// A query with every filter unset.
    pub fn new() -> (r: SearchQuery<'a>)
        ensures
            r == SearchQuery::<'a>::unset(),
    {
        SearchQuery {
            title: None,
            title_orig: None,
            strict: None,
            full_match: None,
            id: None,
            player_link: None,
            kinopoisk_id: None,
            imdb_id: None,
            mdl_id: None,
            worldart_animation_id: None,
            worldart_cinema_id: None,
            worldart_link: None,
            shikimori_id: None,
            limit: None,
            types: None,
            year: None,
            translation_id: None,
            translation_type: None,
            prioritize_translations: None,
            unprioritize_translations: None,
            prioritize_translation_type: None,
            block_translations: None,
            camrip: None,
            lgbt: None,
            with_seasons: None,
            season: None,
            with_episodes: None,
            with_episodes_data: None,
            episode: None,
            with_page_links: None,
            not_blocked_in: None,
            not_blocked_for_me: None,
            with_material_data: None,
            countries: None,
            genres: None,
            anime_genres: None,
            drama_genres: None,
            all_genres: None,
            duration: None,
            kinopoisk_rating: None,
            imdb_rating: None,
            shikimori_rating: None,
            mydramalist_rating: None,
            actors: None,
            directors: None,
            producers: None,
            writers: None,
            composers: None,
            editors: None,
            designers: None,
            operators: None,
            mpaa_rating: None,
            minimal_age: None,
            anime_kind: None,
            mydramalist_tags: None,
            anime_status: None,
            drama_status: None,
            all_status: None,
            anime_studios: None,
            anime_licensed_by: None,
        }
    }

    /// The name of the movie. It is not necessary to specify it explicitly, you can use a variant written by the user or a variant containing extra words. If you specify one of these parameters, the search will be performed on several fields at once: `title`, `title_orig`, `other_title`
    pub fn with_title<'b>(&'b mut self, title: &'a str) -> (r: &'b mut SearchQuery<'a>)
        ensures
            *r == (SearchQuery { title: Some(title), ..*old(self) }),
            *final(self) == *final(r),
    {
        self.title = Some(title);
        self
    }

    /// Title in the language of release. When this option is used, only the title_orig will be searched. It is not necessary to specify it explicitly, you can use a variant written by the user or a variant containing extra words
    pub fn with_title_orig<'b>(&'b mut self, title_orig: &'a str) -> (r: &'b mut SearchQuery<'a>)
        ensures
            *r == (SearchQuery { title_orig: Some(title_orig), ..*old(self) }),
            *final(self) == *final(r),
    {
        self.title_orig = Some(title_orig);
        self
    }

    /// If title or title_orig parameter was specified, this parameter defines the severity of checking if the title of the material corresponds to the search query. If true, the search results will show only those materials in which the word order is exactly the same as in the search query (but extra words in the search query are still allowed)
    pub fn with_strict<'b>(&'b mut self, strict: bool) -> (r: &'b mut SearchQuery<'a>)
        ensures
            *r == (SearchQuery { strict: Some(strict), ..*old(self) }),
            *final(self) == *final(r),
    {
        self.strict = Some(strict);
        self
    }

    /// If title or title_orig parameter was specified, this parameter defines the severity of checking if the title of the material corresponds to the search query. If true, the search results will only show content where the title completely matches the search query (no extra words, word order and presence of characters are also completely identical). The only thing the title may differ from the query is the case. When used in conjunction with the title, full consistency with at least one of the titles of the material is checked
    pub fn with_full_match<'b>(&'b mut self, full_match: bool) -> (r: &'b mut SearchQuery<'a>)
        ensures
            *r == (SearchQuery { full_match: Some(full_match), ..*old(self) }),
            *final(self) == *final(r),
    {
        self.full_match = Some(full_match);
        self
    }

    /// Search by Kodik ID
    pub fn with_id<'b>(&'b mut self, id: &'a str) -> (r: &'b mut SearchQuery<'a>)
        ensures
            *r == (SearchQuery { id: Some(id), ..*old(self) }),
            *final(self) == *final(r),
    {
        self.id = Some(id);
        self
    }

    /// Search for any link to the player
    pub fn with_player_link<'b>(&'b mut self, player_link: &'a str) -> (r: &'b mut SearchQuery<'a>)
        ensures
            *r == (SearchQuery { player_link: Some(player_link), ..*old(self) }),
            *final(self) == *final(r),
    {
        self.player_link = Some(player_link);
        self
    }

    /// Search by kinopoisk ID
    pub fn with_kinopoisk_id<'b>(&'b mut self, kinopoisk_id: &'a str) -> (r: &'b mut SearchQuery<'a>)
        ensures
            *r == (SearchQuery { kinopoisk_id: Some(kinopoisk_id), ..*old(self) }),
            *final(self) == *final(r),
    {
        self.kinopoisk_id = Some(kinopoisk_id);
        self
    }

    /// Search by IMDb ID
    pub fn with_imdb_id<'b>(&'b mut self, imdb_id: &'a str) -> (r: &'b mut SearchQuery<'a>)
        ensures
            *r == (SearchQuery { imdb_id: Some(imdb_id), ..*old(self) }),
            *final(self) == *final(r),
    {
        self.imdb_id = Some(imdb_id);
        self
    }

    /// Search by MyDramaList ID
    pub fn with_mdl_id<'b>(&'b mut self, mdl_id: &'a str) -> (r: &'b mut SearchQuery<'a>)
        ensures
            *r == (SearchQuery { mdl_id: Some(mdl_id), ..*old(self) }),
            *final(self) == *final(r),
    {
        self.mdl_id = Some(mdl_id);
        self
    }

    /// Search for World Art IDs in the anime section (World Art has different content sections, each with their own independent IDs)
    pub fn with_worldart_animation_id<'b>(&'b mut self, worldart_animation_id: &'a str) -> (r: &'b mut SearchQuery<'a>)
        ensures
            *r == (SearchQuery { worldart_animation_id: Some(worldart_animation_id), ..*old(self) }),
            *final(self) == *final(r),
    {
        self.worldart_animation_id = Some(worldart_animation_id);
        self
    }

    /// Search for World Art IDs in the Movies section
    pub fn with_worldart_cinema_id<'b>(&'b mut self, worldart_cinema_id: &'a str) -> (r: &'b mut SearchQuery<'a>)
        ensures
            *r == (SearchQuery { worldart_cinema_id: Some(worldart_cinema_id), ..*old(self) }),
            *final(self) == *final(r),
    {
        self.worldart_cinema_id = Some(worldart_cinema_id);
        self
    }

    /// Search the full World Art link
    pub fn with_worldart_link<'b>(&'b mut self, worldart_link: &'a str) -> (r: &'b mut SearchQuery<'a>)
        ensures
            *r == (SearchQuery { worldart_link: Some(worldart_link), ..*old(self) }),
            *final(self) == *final(r),
    {
        self.worldart_link = Some(worldart_link);
        self
    }

    /// Search by Shikimori ID
    pub fn with_shikimori_id<'b>(&'b mut self, shikimori_id: &'a str) -> (r: &'b mut SearchQuery<'a>)
        ensures
            *r == (SearchQuery { shikimori_id: Some(shikimori_id), ..*old(self) }),
            *final(self) == *final(r),
    {
        self.shikimori_id = Some(shikimori_id);
        self
    }

    /// Maximum number of outputs
    pub fn with_limit<'b>(&'b mut self, limit: u32) -> (r: &'b mut SearchQuery<'a>)
        ensures
            *r == (SearchQuery { limit: Some(limit), ..*old(self) }),
            *final(self) == *final(r),
    {
        self.limit = Some(limit);
        self
    }

    /// Maximum number of outputs
    pub fn with_types<'b>(&'b mut self, types: &'a [ReleaseType]) -> (r: &'b mut SearchQuery<'a>)
        ensures
            *r == (SearchQuery { types: Some(types), ..*old(self) }),
            *final(self) == *final(r),
    {
        self.types = Some(types);
        self
    }

    pub fn with_year<'b>(&'b mut self, year: &'a [u32]) -> (r: &'b mut SearchQuery<'a>)
        ensures
            *r == (SearchQuery { year: Some(year), ..*old(self) }),
            *final(self) == *final(r),
    {
        self.year = Some(year);
        self
    }

    /// Filtering materials by translation ID
    pub fn with_translation_id<'b>(&'b mut self, translation_id: &'a [u32]) -> (r: &'b mut SearchQuery<'a>)
        ensures
            *r == (SearchQuery { translation_id: Some(translation_id), ..*old(self) }),
            *final(self) == *final(r),
    {
        self.translation_id = Some(translation_id);
        self
    }

    /// Filter content by translation type. Allows you to output only voice translation or only subtitles
    pub fn with_translation_type<'b>(&'b mut self, translation_type: &'a [TranslationType]) -> (r: &'b mut SearchQuery<'a>)
        ensures
            *r == (SearchQuery { translation_type: Some(translation_type), ..*old(self) }),
            *final(self) == *final(r),
    {
        self.translation_type = Some(translation_type);
        self
    }

    pub fn with_prioritize_translations<'b>(&'b mut self, prioritize_translations: &'a [&'a str]) -> (r: &'b mut SearchQuery<'a>)
        ensures
            *r == (SearchQuery { prioritize_translations: Some(prioritize_translations), ..*old(self) }),
            *final(self) == *final(r),
    {
        self.prioritize_translations = Some(prioritize_translations);
        self
    }

    pub fn with_unprioritize_translations<'b>(&'b mut self, unprioritize_translations: &'a [&'a str]) -> (r: &'b mut SearchQuery<'a>)
        ensures
            *r == (SearchQuery { unprioritize_translations: Some(unprioritize_translations), ..*old(self) }),
            *final(self) == *final(r),
    {
        self.unprioritize_translations = Some(unprioritize_translations);
        self
    }

    /// Increases the priority of a certain type of translation. If you specify voice, voiceovers will be output first. If subtitles, subtitles will be output
    pub fn with_prioritize_translation_type<'b>(&'b mut self, prioritize_translation_type: &'a [TranslationType]) -> (r: &'b mut SearchQuery<'a>)
        ensures
            *r == (SearchQuery { prioritize_translation_type: Some(prioritize_translation_type), ..*old(self) }),
            *final(self) == *final(r),
    {
        self.prioritize_translation_type = Some(prioritize_translation_type);
        self
    }

    /// Deletes certain voices from the search results. IDs are listed separated by commas
    pub fn with_block_translations<'b>(&'b mut self, block_translations: &'a [u32]) -> (r: &'b mut SearchQuery<'a>)
        ensures
            *r == (SearchQuery { block_translations: Some(block_translations), ..*old(self) }),
            *final(self) == *final(r),
    {
        self.block_translations = Some(block_translations);
        self
    }

    /// Filtering materials by camrip parameter. If you specify false, only materials with a quality picture will be output. If you don't specify this parameter, all materials will be displayed
    pub fn with_camrip<'b>(&'b mut self, camrip: bool) -> (r: &'b mut SearchQuery<'a>)
        ensures
            *r == (SearchQuery { camrip: Some(camrip), ..*old(self) }),
            *final(self) == *final(r),
    {
        self.camrip = Some(camrip);
        self
    }

    /// Filters materials by the lgbt parameter. If you specify false, only materials that do not contain LGBT scenes will be output. If you don't specify this parameter, all materials will be displayed
    pub fn with_lgbt<'b>(&'b mut self, lgbt: bool) -> (r: &'b mut SearchQuery<'a>)
        ensures
            *r == (SearchQuery { lgbt: Some(lgbt), ..*old(self) }),
            *final(self) == *final(r),
    {
        self.lgbt = Some(lgbt);
        self
    }

    /// If you specify true, the seasons of the series will also be listed in the seasons field. This and the following parameter are made to avoid overloading the output with a huge amount of information about seasons and episodes, if this information is not needed for parsing
    pub fn with_with_seasons<'b>(&'b mut self, with_seasons: bool) -> (r: &'b mut SearchQuery<'a>)
        ensures
            *r == (SearchQuery { with_seasons: Some(with_seasons), ..*old(self) }),
            *final(self) == *final(r),
    {
        self.with_seasons = Some(with_seasons);
        self
    }

    /// With this option you can specify which season you are interested in. This way, only shows that have that season will appear in the search results. Passing this parameter also automatically enables the with_seasons parameter
    pub fn with_season<'b>(&'b mut self, season: &'a [u32]) -> (r: &'b mut SearchQuery<'a>)
        ensures
            *r == (SearchQuery { season: Some(season), ..*old(self) }),
            *final(self) == *final(r),
    {
        self.season = Some(season);
        self
    }

    /// If you specify true, the seasons field will be added to each series (even if with_seasons is not specified or specified as false) and the episodes field with the episodes of that season will be added to each season. If the with_episodes parameter is used, the series numbers will correspond to the normal series references. If you use the with_episodes_data parameter, episode objects will be assigned to the episode numbers, where the link will be available via the link parameter, the episode name (if any) via the title parameter, and the frames via screenshots
    pub fn with_with_episodes<'b>(&'b mut self, with_episodes: bool) -> (r: &'b mut SearchQuery<'a>)
        ensures
            *r == (SearchQuery { with_episodes: Some(with_episodes), ..*old(self) }),
            *final(self) == *final(r),
    {
        self.with_episodes = Some(with_episodes);
        self
    }

    /// If you specify true, the seasons field will be added to each series (even if with_seasons is not specified or specified as false) and the episodes field with the episodes of that season will be added to each season. If the with_episodes parameter is used, the series numbers will correspond to the normal series references. If you use the with_episodes_data parameter, episode objects will be assigned to the episode numbers, where the link will be available via the link parameter, the episode name (if any) via the title parameter, and the frames via screenshots
    pub fn with_with_episodes_data<'b>(&'b mut self, with_episodes_data: bool) -> (r: &'b mut SearchQuery<'a>)
        ensures
            *r == (SearchQuery { with_episodes_data: Some(with_episodes_data), ..*old(self) }),
            *final(self) == *final(r),
    {
        self.with_episodes_data = Some(with_episodes_data);
        self
    }

    /// With this option, you can specify which episode of a particular season you are interested in. Thus, only shows with that episode will appear in the search results. If you use this parameter, you must also pass the season parameter. Passing this parameter also automatically includes the with_episodes parameter
    pub fn with_episode<'b>(&'b mut self, episode: &'a [u32]) -> (r: &'b mut SearchQuery<'a>)
        ensures
            *r == (SearchQuery { episode: Some(episode), ..*old(self) }),
            *final(self) == *final(r),
    {
        self.episode = Some(episode);
        self
    }

    /// If you specify true, all links to players will be replaced by special links to pages with players (suitable for cases when you don't have your own site). You can customize appearance of these pages in settings in the base. If parameter with_seasons or with_episodes / with_episodes_data is specified together with this parameter, links in seasons and episodes will also be replaced
    pub fn with_with_page_links<'b>(&'b mut self, with_page_links: bool) -> (r: &'b mut SearchQuery<'a>)
        ensures
            *r == (SearchQuery { with_page_links: Some(with_page_links), ..*old(self) }),
            *final(self) == *final(r),
    {
        self.with_page_links = Some(with_page_links);
        self
    }

    /// Filters materials by country in which they should not be blocked. The country codes are specified separated by commas
    pub fn with_not_blocked_in<'b>(&'b mut self, not_blocked_in: &'a [&'a str]) -> (r: &'b mut SearchQuery<'a>)
        ensures
            *r == (SearchQuery { not_blocked_in: Some(not_blocked_in), ..*old(self) }),
            *final(self) == *final(r),
    {
        self.not_blocked_in = Some(not_blocked_in);
        self
    }

    /// A simpler analog of the previous parameter. Our server itself checks which country the current request comes from and doesn't display those materials that are blocked for that country. This parameter can be useful if the API is called on your site
    pub fn with_not_blocked_for_me<'b>(&'b mut self, not_blocked_for_me: &'a [&'a str]) -> (r: &'b mut SearchQuery<'a>)
        ensures
            *r == (SearchQuery { not_blocked_for_me: Some(not_blocked_for_me), ..*old(self) }),
            *final(self) == *final(r),
    {
        self.not_blocked_for_me = Some(not_blocked_for_me);
        self
    }

    /// If you specify true, the material_data field will be added to each movie/series with information from Kinopoisk and Shikimori
    pub fn with_with_material_data<'b>(&'b mut self, with_material_data: bool) -> (r: &'b mut SearchQuery<'a>)
        ensures
            *r == (SearchQuery { with_material_data: Some(with_material_data), ..*old(self) }),
            *final(self) == *final(r),
    {
        self.with_material_data = Some(with_material_data);
        self
    }

    /// Filtering materials by country. You can specify a single value or multiple values, separated by commas (then materials with at least one of the listed countries will be displayed). The parameter is case sensitive
    pub fn with_countries<'b>(&'b mut self, countries: &'a [&'a str]) -> (r: &'b mut SearchQuery<'a>)
        ensures
            *r == (SearchQuery { countries: Some(countries), ..*old(self) }),
            *final(self) == *final(r),
    {
        self.countries = Some(countries);
        self
    }

    /// Filtering by genre. You can specify either one value or several values separated by commas (then materials that have at least one of the specified genres will be displayed). You can search by Kinopoisk, Shikimori, MyDramaList or by all genres at once. The parameter is not case sensitive
    pub fn with_genres<'b>(&'b mut self, genres: &'a [&'a str]) -> (r: &'b mut SearchQuery<'a>)
        ensures
            *r == (SearchQuery { genres: Some(genres), ..*old(self) }),
            *final(self) == *final(r),
    {
        self.genres = Some(genres);
        self
    }

    /// Filtering by genre. You can specify either one value or several values separated by commas (then materials that have at least one of the specified genres will be displayed). You can search by Kinopoisk, Shikimori, MyDramaList or by all genres at once. The parameter is not case sensitive
    pub fn with_anime_genres<'b>(&'b mut self, anime_genres: &'a [&'a str]) -> (r: &'b mut SearchQuery<'a>)
        ensures
            *r == (SearchQuery { anime_genres: Some(anime_genres), ..*old(self) }),
            *final(self) == *final(r),
    {
        self.anime_genres = Some(anime_genres);
        self
    }

    /// Filtering by genre. You can specify either one value or several values separated by commas (then materials that have at least one of the specified genres will be displayed). You can search by Kinopoisk, Shikimori, MyDramaList or by all genres at once. The parameter is not case sensitive
    pub fn with_drama_genres<'b>(&'b mut self, drama_genres: &'a [&'a str]) -> (r: &'b mut SearchQuery<'a>)
        ensures
            *r == (SearchQuery { drama_genres: Some(drama_genres), ..*old(self) }),
            *final(self) == *final(r),
    {
        self.drama_genres = Some(drama_genres);
        self
    }

    /// Filtering by genre. You can specify either one value or several values separated by commas (then materials that have at least one of the specified genres will be displayed). You can search by Kinopoisk, Shikimori, MyDramaList or by all genres at once. The parameter is not case sensitive
    pub fn with_all_genres<'b>(&'b mut self, all_genres: &'a [&'a str]) -> (r: &'b mut SearchQuery<'a>)
        ensures
            *r == (SearchQuery { all_genres: Some(all_genres), ..*old(self) }),
            *final(self) == *final(r),
    {
        self.all_genres = Some(all_genres);
        self
    }

    /// Filtering by duration (in minutes). You can specify either a single value to search for the exact duration, or an interval.
    pub fn with_duration<'b>(&'b mut self, duration: &'a [&'a str]) -> (r: &'b mut SearchQuery<'a>)
        ensures
            *r == (SearchQuery { duration: Some(duration), ..*old(self) }),
            *final(self) == *final(r),
    {
        self.duration = Some(duration);
        self
    }

    /// Filtering by Kinopoisk, IMDb, Shikimori, or MyDramaList ratings. You can specify either a single value to search for the exact rating, or an interval
    pub fn with_kinopoisk_rating<'b>(&'b mut self, kinopoisk_rating: &'a [&'a str]) -> (r: &'b mut SearchQuery<'a>)
        ensures
            *r == (SearchQuery { kinopoisk_rating: Some(kinopoisk_rating), ..*old(self) }),
            *final(self) == *final(r),
    {
        self.kinopoisk_rating = Some(kinopoisk_rating);
        self
    }

    /// Filtering by Kinopoisk, IMDb, Shikimori, or MyDramaList ratings. You can specify either a single value to search for the exact rating, or an interval
    pub fn with_imdb_rating<'b>(&'b mut self, imdb_rating: &'a [&'a str]) -> (r: &'b mut SearchQuery<'a>)
        ensures
            *r == (SearchQuery { imdb_rating: Some(imdb_rating), ..*old(self) }),
            *final(self) == *final(r),
    {
        self.imdb_rating = Some(imdb_rating);
        self
    }

    /// Filtering by Kinopoisk, IMDb, Shikimori, or MyDramaList ratings. You can specify either a single value to search for the exact rating, or an interval
    pub fn with_shikimori_rating<'b>(&'b mut self, shikimori_rating: &'a [&'a str]) -> (r: &'b mut SearchQuery<'a>)
        ensures
            *r == (SearchQuery { shikimori_rating: Some(shikimori_rating), ..*old(self) }),
            *final(self) == *final(r),
    {
        self.shikimori_rating = Some(shikimori_rating);
        self
    }

    /// Filtering by Kinopoisk, IMDb, Shikimori, or MyDramaList ratings. You can specify either a single value to search for the exact rating, or an interval
    pub fn with_mydramalist_rating<'b>(&'b mut self, mydramalist_rating: &'a [&'a str]) -> (r: &'b mut SearchQuery<'a>)
        ensures
            *r == (SearchQuery { mydramalist_rating: Some(mydramalist_rating), ..*old(self) }),
            *final(self) == *final(r),
    {
        self.mydramalist_rating = Some(mydramalist_rating);
        self
    }

    /// Filtering materials by personas. You can specify a single value or multiple values, separated by commas (then materials that have at least one of the specified personas will be displayed). This parameter is case-independent. You can specify filters for several professions at once
    pub fn with_actors<'b>(&'b mut self, actors: &'a [&'a str]) -> (r: &'b mut SearchQuery<'a>)
        ensures
            *r == (SearchQuery { actors: Some(actors), ..*old(self) }),
            *final(self) == *final(r),
    {
        self.actors = Some(actors);
        self
    }

    /// Filtering materials by personas. You can specify a single value or multiple values, separated by commas (then materials that have at least one of the specified personas will be displayed). This parameter is case-independent. You can specify filters for several professions at once
    pub fn with_directors<'b>(&'b mut self, directors: &'a [&'a str]) -> (r: &'b mut SearchQuery<'a>)
        ensures
            *r == (SearchQuery { directors: Some(directors), ..*old(self) }),
            *final(self) == *final(r),
    {
        self.directors = Some(directors);
        self
    }

    /// Filtering materials by personas. You can specify a single value or multiple values, separated by commas (then materials that have at least one of the specified personas will be displayed). This parameter is case-independent. You can specify filters for several professions at once
    pub fn with_producers<'b>(&'b mut self, producers: &'a [&'a str]) -> (r: &'b mut SearchQuery<'a>)
        ensures
            *r == (SearchQuery { producers: Some(producers), ..*old(self) }),
            *final(self) == *final(r),
    {
        self.producers = Some(producers);
        self
    }

    /// Filtering materials by personas. You can specify a single value or multiple values, separated by commas (then materials that have at least one of the specified personas will be displayed). This parameter is case-independent. You can specify filters for several professions at once
    pub fn with_writers<'b>(&'b mut self, writers: &'a [&'a str]) -> (r: &'b mut SearchQuery<'a>)
        ensures
            *r == (SearchQuery { writers: Some(writers), ..*old(self) }),
            *final(self) == *final(r),
    {
        self.writers = Some(writers);
        self
    }

    /// Filtering materials by personas. You can specify a single value or multiple values, separated by commas (then materials that have at least one of the specified personas will be displayed). This parameter is case-independent. You can specify filters for several professions at once
    pub fn with_composers<'b>(&'b mut self, composers: &'a [&'a str]) -> (r: &'b mut SearchQuery<'a>)
        ensures
            *r == (SearchQuery { composers: Some(composers), ..*old(self) }),
            *final(self) == *final(r),
    {
        self.composers = Some(composers);
        self
    }

    /// Filtering materials by personas. You can specify a single value or multiple values, separated by commas (then materials that have at least one of the specified personas will be displayed). This parameter is case-independent. You can specify filters for several professions at once
    pub fn with_editors<'b>(&'b mut self, editors: &'a [&'a str]) -> (r: &'b mut SearchQuery<'a>)
        ensures
            *r == (SearchQuery { editors: Some(editors), ..*old(self) }),
            *final(self) == *final(r),
    {
        self.editors = Some(editors);
        self
    }

    /// Filtering materials by personas. You can specify a single value or multiple values, separated by commas (then materials that have at least one of the specified personas will be displayed). This parameter is case-independent. You can specify filters for several professions at once
    pub fn with_designers<'b>(&'b mut self, designers: &'a [&'a str]) -> (r: &'b mut SearchQuery<'a>)
        ensures
            *r == (SearchQuery { designers: Some(designers), ..*old(self) }),
            *final(self) == *final(r),
    {
        self.designers = Some(designers);
        self
    }

    /// Filtering materials by personas. You can specify a single value or multiple values, separated by commas (then materials that have at least one of the specified personas will be displayed). This parameter is case-independent. You can specify filters for several professions at once
    pub fn with_operators<'b>(&'b mut self, operators: &'a [&'a str]) -> (r: &'b mut SearchQuery<'a>)
        ensures
            *r == (SearchQuery { operators: Some(operators), ..*old(self) }),
            *final(self) == *final(r),
    {
        self.operators = Some(operators);
        self
    }

    /// Filtering materials by age rating. You can specify a single value or multiple values, separated by commas. The parameter is case-insensitive
    pub fn with_mpaa_rating<'b>(&'b mut self, mpaa_rating: &'a [MppaRating]) -> (r: &'b mut SearchQuery<'a>)
        ensures
            *r == (SearchQuery { mpaa_rating: Some(mpaa_rating), ..*old(self) }),
            *final(self) == *final(r),
    {
        self.mpaa_rating = Some(mpaa_rating);
        self
    }

    /// Filter content by the minimum age from which it can be viewed. You can specify either a single value or a range of values
    pub fn with_minimal_age<'b>(&'b mut self, minimal_age: &'a [&'a str]) -> (r: &'b mut SearchQuery<'a>)
        ensures
            *r == (SearchQuery { minimal_age: Some(minimal_age), ..*old(self) }),
            *final(self) == *final(r),
    {
        self.minimal_age = Some(minimal_age);
        self
    }

    /// Filtering materials by anime type. You can specify one value or several values separated by commas (then materials with at least one of these types will be displayed)
    pub fn with_anime_kind<'b>(&'b mut self, anime_kind: &'a [AnimeKind]) -> (r: &'b mut SearchQuery<'a>)
        ensures
            *r == (SearchQuery { anime_kind: Some(anime_kind), ..*old(self) }),
            *final(self) == *final(r),
    {
        self.anime_kind = Some(anime_kind);
        self
    }

    /// Filters materials by MyDramaList tags. You can specify one value or several values separated by commas (then materials with at least one of these types will be displayed)
    pub fn with_mydramalist_tags<'b>(&'b mut self, mydramalist_tags: &'a [&'a str]) -> (r: &'b mut SearchQuery<'a>)
        ensures
            *r == (SearchQuery { mydramalist_tags: Some(mydramalist_tags), ..*old(self) }),
            *final(self) == *final(r),
    {
        self.mydramalist_tags = Some(mydramalist_tags);
        self
    }

    /// Filter materials by Shikimori status, MyDramaList, or by all statuses. You can specify a single value or several values separated by commas (then materials that have at least one of the listed statuses will be displayed)
    pub fn with_anime_status<'b>(&'b mut self, anime_status: &'a [AnimeStatus]) -> (r: &'b mut SearchQuery<'a>)
        ensures
            *r == (SearchQuery { anime_status: Some(anime_status), ..*old(self) }),
            *final(self) == *final(r),
    {
        self.anime_status = Some(anime_status);
        self
    }

    /// Filter materials by Shikimori status, MyDramaList, or by all statuses. You can specify a single value or several values separated by commas (then materials that have at least one of the listed statuses will be displayed)
    pub fn with_drama_status<'b>(&'b mut self, drama_status: &'a [DramaStatus]) -> (r: &'b mut SearchQuery<'a>)
        ensures
            *r == (SearchQuery { drama_status: Some(drama_status), ..*old(self) }),
            *final(self) == *final(r),
    {
        self.drama_status = Some(drama_status);
        self
    }

    /// Filter materials by Shikimori status, MyDramaList, or by all statuses. You can specify a single value or several values separated by commas (then materials that have at least one of the listed statuses will be displayed)
    pub fn with_all_status<'b>(&'b mut self, all_status: &'a [AllStatus]) -> (r: &'b mut SearchQuery<'a>)
        ensures
            *r == (SearchQuery { all_status: Some(all_status), ..*old(self) }),
            *final(self) == *final(r),
    {
        self.all_status = Some(all_status);
        self
    }

    /// Filtering materials by anime studio. You can specify either one value or several values separated by commas (then materials with at least one of the listed studios will be displayed)
    pub fn with_anime_studios<'b>(&'b mut self, anime_studios: &'a [&'a str]) -> (r: &'b mut SearchQuery<'a>)
        ensures
            *r == (SearchQuery { anime_studios: Some(anime_studios), ..*old(self) }),
            *final(self) == *final(r),
    {
        self.anime_studios = Some(anime_studios);
        self
    }

    /// Filtering materials by license owner. You can specify a single value or several values separated by commas (then materials that have at least one of the listed owners will be displayed)
    pub fn with_anime_licensed_by<'b>(&'b mut self, anime_licensed_by: &'a [&'a str]) -> (r: &'b mut SearchQuery<'a>)
        ensures
            *r == (SearchQuery { anime_licensed_by: Some(anime_licensed_by), ..*old(self) }),
            *final(self) == *final(r),
    {
        self.anime_licensed_by = Some(anime_licensed_by);
        self
    }

    /// The query-string pairs of this query: unset filters are left out, a
    /// list filter is one pair whose value is the comma-joined list.
    pub fn to_query_parts(&self) -> (r: Vec<(String, String)>)
        ensures
            pairs_view(r@) == self.spec_parts(),
    {
        let mut parts: Vec<(String, String)> = Vec::new();
        push_value(&mut parts, "title", self.title);
        proof {
            assert(pairs_view(parts@) =~= value_param("title"@, self.title));
        }
        push_value(&mut parts, "title_orig", self.title_orig);
        push_value(&mut parts, "strict", self.strict);
        push_value(&mut parts, "full_match", self.full_match);
        push_value(&mut parts, "id", self.id);
        push_value(&mut parts, "player_link", self.player_link);
        push_value(&mut parts, "kinopoisk_id", self.kinopoisk_id);
        push_value(&mut parts, "imdb_id", self.imdb_id);
        push_value(&mut parts, "mdl_id", self.mdl_id);
        push_value(&mut parts, "worldart_animation_id", self.worldart_animation_id);
        push_value(&mut parts, "worldart_cinema_id", self.worldart_cinema_id);
        push_value(&mut parts, "worldart_link", self.worldart_link);
        push_value(&mut parts, "shikimori_id", self.shikimori_id);
        push_value(&mut parts, "limit", self.limit);
        push_list(&mut parts, "types", self.types);
        push_list(&mut parts, "year", self.year);
        push_list(&mut parts, "translation_id", self.translation_id);
        push_list(&mut parts, "translation_type", self.translation_type);
        push_list(&mut parts, "prioritize_translations", self.prioritize_translations);
        push_list(&mut parts, "unprioritize_translations", self.unprioritize_translations);
        push_list(&mut parts, "prioritize_translation_type", self.prioritize_translation_type);
        push_list(&mut parts, "block_translations", self.block_translations);
        push_value(&mut parts, "camrip", self.camrip);
        push_value(&mut parts, "lgbt", self.lgbt);
        push_value(&mut parts, "with_seasons", self.with_seasons);
        push_list(&mut parts, "season", self.season);
        push_value(&mut parts, "with_episodes", self.with_episodes);
        push_value(&mut parts, "with_episodes_data", self.with_episodes_data);
        push_list(&mut parts, "episode", self.episode);
        push_value(&mut parts, "with_page_links", self.with_page_links);
        push_list(&mut parts, "not_blocked_in", self.not_blocked_in);
        push_list(&mut parts, "not_blocked_for_me", self.not_blocked_for_me);
        push_value(&mut parts, "with_material_data", self.with_material_data);
        push_list(&mut parts, "countries", self.countries);
        push_list(&mut parts, "genres", self.genres);
        push_list(&mut parts, "anime_genres", self.anime_genres);
        push_list(&mut parts, "drama_genres", self.drama_genres);
        push_list(&mut parts, "all_genres", self.all_genres);
        push_list(&mut parts, "duration", self.duration);
        push_list(&mut parts, "kinopoisk_rating", self.kinopoisk_rating);
        push_list(&mut parts, "imdb_rating", self.imdb_rating);
        push_list(&mut parts, "shikimori_rating", self.shikimori_rating);
        push_list(&mut parts, "mydramalist_rating", self.mydramalist_rating);
        push_list(&mut parts, "actors", self.actors);
        push_list(&mut parts, "directors", self.directors);
        push_list(&mut parts, "producers", self.producers);
        push_list(&mut parts, "writers", self.writers);
        push_list(&mut parts, "composers", self.composers);
        push_list(&mut parts, "editors", self.editors);
        push_list(&mut parts, "designers", self.designers);
        push_list(&mut parts, "operators", self.operators);
        push_list(&mut parts, "mpaa_rating", self.mpaa_rating);
        push_list(&mut parts, "minimal_age", self.minimal_age);
        push_list(&mut parts, "anime_kind", self.anime_kind);
        push_list(&mut parts, "mydramalist_tags", self.mydramalist_tags);
        push_list(&mut parts, "anime_status", self.anime_status);
        push_list(&mut parts, "drama_status", self.drama_status);
        push_list(&mut parts, "all_status", self.all_status);
        push_list(&mut parts, "anime_studios", self.anime_studios);
        push_list(&mut parts, "anime_licensed_by", self.anime_licensed_by);
        parts
    }

    /// The request that runs this query: a POST to `/search` with the token,
    /// whose form body holds this query's pairs. It always succeeds; the
    /// `Result` carries the encoder's error type.
    pub fn request(&self, client: &Client) -> (r: Result<PostRequest, ApiError>)
        ensures
            r is Ok,
            r->Ok_0.url@ == request_url(client.spec_api_url(), "/search"@),
            pairs_view(r->Ok_0.query@) == seq![("token"@, client.spec_api_key())],
            r->Ok_0.body is Some,
            r->Ok_0.body->Some_0@ == form_encoding(self.spec_parts()),
    {
        let parts = self.to_query_parts();
        match encode_form(&parts) {
            Ok(body) => Ok(client.init_post_request("/search").body(body)),
            Err(e) => Err(e),
        }
    }
}

impl<'a> Default for SearchQuery<'a> {
    fn default() -> (r: SearchQuery<'a>)
        ensures
            r == SearchQuery::<'a>::unset(),
    {
        SearchQuery::new()
    }
}

/// A query with no filter set is sent with no parameter at all.
pub proof fn lemma_unset_query_sends_nothing<'a>()
    ensures
        SearchQuery::<'a>::unset().spec_parts() == Seq::<(Seq<char>, Seq<char>)>::empty(),
{
    reveal(value_param);
    reveal(list_param);
    assert(SearchQuery::<'a>::unset().spec_parts() =~= Seq::<(Seq<char>, Seq<char>)>::empty());
}

/// A query sends one pair per set field.
pub proof fn lemma_one_pair_per_set_field<'a>(q: SearchQuery<'a>)
    ensures
        q.spec_parts().len() == q.set_field_count(),
{
    lemma_value_param_len("title"@, q.title);
    let ghost parts = value_param("title"@, q.title);
    let ghost count = set_count(q.title);
    assert(parts.len() == count);
    lemma_value_param_len("title_orig"@, q.title_orig);
    let ghost parts = parts + value_param("title_orig"@, q.title_orig);
    let ghost count = count + set_count(q.title_orig);
    assert(parts.len() == count);
    lemma_value_param_len("strict"@, q.strict);
    let ghost parts = parts + value_param("strict"@, q.strict);
    let ghost count = count + set_count(q.strict);
    assert(parts.len() == count);
    lemma_value_param_len("full_match"@, q.full_match);
    let ghost parts = parts + value_param("full_match"@, q.full_match);
    let ghost count = count + set_count(q.full_match);
    assert(parts.len() == count);
    lemma_value_param_len("id"@, q.id);
    let ghost parts = parts + value_param("id"@, q.id);
    let ghost count = count + set_count(q.id);
    assert(parts.len() == count);
    lemma_value_param_len("player_link"@, q.player_link);
    let ghost parts = parts + value_param("player_link"@, q.player_link);
    let ghost count = count + set_count(q.player_link);
    assert(parts.len() == count);
    lemma_value_param_len("kinopoisk_id"@, q.kinopoisk_id);
    let ghost parts = parts + value_param("kinopoisk_id"@, q.kinopoisk_id);
    let ghost count = count + set_count(q.kinopoisk_id);
    assert(parts.len() == count);
    lemma_value_param_len("imdb_id"@, q.imdb_id);
    let ghost parts = parts + value_param("imdb_id"@, q.imdb_id);
    let ghost count = count + set_count(q.imdb_id);
    assert(parts.len() == count);
    lemma_value_param_len("mdl_id"@, q.mdl_id);
    let ghost parts = parts + value_param("mdl_id"@, q.mdl_id);
    let ghost count = count + set_count(q.mdl_id);
    assert(parts.len() == count);
    lemma_value_param_len("worldart_animation_id"@, q.worldart_animation_id);
    let ghost parts = parts + value_param("worldart_animation_id"@, q.worldart_animation_id);
    let ghost count = count + set_count(q.worldart_animation_id);
    assert(parts.len() == count);
    lemma_value_param_len("worldart_cinema_id"@, q.worldart_cinema_id);
    let ghost parts = parts + value_param("worldart_cinema_id"@, q.worldart_cinema_id);
    let ghost count = count + set_count(q.worldart_cinema_id);
    assert(parts.len() == count);
    lemma_value_param_len("worldart_link"@, q.worldart_link);
    let ghost parts = parts + value_param("worldart_link"@, q.worldart_link);
    let ghost count = count + set_count(q.worldart_link);
    assert(parts.len() == count);
    lemma_value_param_len("shikimori_id"@, q.shikimori_id);
    let ghost parts = parts + value_param("shikimori_id"@, q.shikimori_id);
    let ghost count = count + set_count(q.shikimori_id);
    assert(parts.len() == count);
    lemma_value_param_len("limit"@, q.limit);
    let ghost parts = parts + value_param("limit"@, q.limit);
    let ghost count = count + set_count(q.limit);
    assert(parts.len() == count);
    lemma_list_param_len("types"@, opt_seq(q.types));
    let ghost parts = parts + list_param("types"@, opt_seq(q.types));
    let ghost count = count + set_count(opt_seq(q.types));
    assert(parts.len() == count);
    lemma_list_param_len("year"@, opt_seq(q.year));
    let ghost parts = parts + list_param("year"@, opt_seq(q.year));
    let ghost count = count + set_count(opt_seq(q.year));
    assert(parts.len() == count);
    lemma_list_param_len("translation_id"@, opt_seq(q.translation_id));
    let ghost parts = parts + list_param("translation_id"@, opt_seq(q.translation_id));
    let ghost count = count + set_count(opt_seq(q.translation_id));
    assert(parts.len() == count);
    lemma_list_param_len("translation_type"@, opt_seq(q.translation_type));
    let ghost parts = parts + list_param("translation_type"@, opt_seq(q.translation_type));
    let ghost count = count + set_count(opt_seq(q.translation_type));
    assert(parts.len() == count);
    lemma_list_param_len("prioritize_translations"@, opt_seq(q.prioritize_translations));
    let ghost parts = parts + list_param("prioritize_translations"@, opt_seq(q.prioritize_translations));
    let ghost count = count + set_count(opt_seq(q.prioritize_translations));
    assert(parts.len() == count);
    lemma_list_param_len("unprioritize_translations"@, opt_seq(q.unprioritize_translations));
    let ghost parts = parts + list_param("unprioritize_translations"@, opt_seq(q.unprioritize_translations));
    let ghost count = count + set_count(opt_seq(q.unprioritize_translations));
    assert(parts.len() == count);
    lemma_list_param_len("prioritize_translation_type"@, opt_seq(q.prioritize_translation_type));
    let ghost parts = parts + list_param("prioritize_translation_type"@, opt_seq(q.prioritize_translation_type));
    let ghost count = count + set_count(opt_seq(q.prioritize_translation_type));
    assert(parts.len() == count);
    lemma_list_param_len("block_translations"@, opt_seq(q.block_translations));
    let ghost parts = parts + list_param("block_translations"@, opt_seq(q.block_translations));
    let ghost count = count + set_count(opt_seq(q.block_translations));
    assert(parts.len() == count);
    lemma_value_param_len("camrip"@, q.camrip);
    let ghost parts = parts + value_param("camrip"@, q.camrip);
    let ghost count = count + set_count(q.camrip);
    assert(parts.len() == count);
    lemma_value_param_len("lgbt"@, q.lgbt);
    let ghost parts = parts + value_param("lgbt"@, q.lgbt);
    let ghost count = count + set_count(q.lgbt);
    assert(parts.len() == count);
    lemma_value_param_len("with_seasons"@, q.with_seasons);
    let ghost parts = parts + value_param("with_seasons"@, q.with_seasons);
    let ghost count = count + set_count(q.with_seasons);
    assert(parts.len() == count);
    lemma_list_param_len("season"@, opt_seq(q.season));
    let ghost parts = parts + list_param("season"@, opt_seq(q.season));
    let ghost count = count + set_count(opt_seq(q.season));
    assert(parts.len() == count);
    lemma_value_param_len("with_episodes"@, q.with_episodes);
    let ghost parts = parts + value_param("with_episodes"@, q.with_episodes);
    let ghost count = count + set_count(q.with_episodes);
    assert(parts.len() == count);
    lemma_value_param_len("with_episodes_data"@, q.with_episodes_data);
    let ghost parts = parts + value_param("with_episodes_data"@, q.with_episodes_data);
    let ghost count = count + set_count(q.with_episodes_data);
    assert(parts.len() == count);
    lemma_list_param_len("episode"@, opt_seq(q.episode));
    let ghost parts = parts + list_param("episode"@, opt_seq(q.episode));
    let ghost count = count + set_count(opt_seq(q.episode));
    assert(parts.len() == count);
    lemma_value_param_len("with_page_links"@, q.with_page_links);
    let ghost parts = parts + value_param("with_page_links"@, q.with_page_links);
    let ghost count = count + set_count(q.with_page_links);
    assert(parts.len() == count);
    lemma_list_param_len("not_blocked_in"@, opt_seq(q.not_blocked_in));
    let ghost parts = parts + list_param("not_blocked_in"@, opt_seq(q.not_blocked_in));
    let ghost count = count + set_count(opt_seq(q.not_blocked_in));
    assert(parts.len() == count);
    lemma_list_param_len("not_blocked_for_me"@, opt_seq(q.not_blocked_for_me));
    let ghost parts = parts + list_param("not_blocked_for_me"@, opt_seq(q.not_blocked_for_me));
    let ghost count = count + set_count(opt_seq(q.not_blocked_for_me));
    assert(parts.len() == count);
    lemma_value_param_len("with_material_data"@, q.with_material_data);
    let ghost parts = parts + value_param("with_material_data"@, q.with_material_data);
    let ghost count = count + set_count(q.with_material_data);
    assert(parts.len() == count);
    lemma_list_param_len("countries"@, opt_seq(q.countries));
    let ghost parts = parts + list_param("countries"@, opt_seq(q.countries));
    let ghost count = count + set_count(opt_seq(q.countries));
    assert(parts.len() == count);
    lemma_list_param_len("genres"@, opt_seq(q.genres));
    let ghost parts = parts + list_param("genres"@, opt_seq(q.genres));
    let ghost count = count + set_count(opt_seq(q.genres));
    assert(parts.len() == count);
    lemma_list_param_len("anime_genres"@, opt_seq(q.anime_genres));
    let ghost parts = parts + list_param("anime_genres"@, opt_seq(q.anime_genres));
    let ghost count = count + set_count(opt_seq(q.anime_genres));
    assert(parts.len() == count);
    lemma_list_param_len("drama_genres"@, opt_seq(q.drama_genres));
    let ghost parts = parts + list_param("drama_genres"@, opt_seq(q.drama_genres));
    let ghost count = count + set_count(opt_seq(q.drama_genres));
    assert(parts.len() == count);
    lemma_list_param_len("all_genres"@, opt_seq(q.all_genres));
    let ghost parts = parts + list_param("all_genres"@, opt_seq(q.all_genres));
    let ghost count = count + set_count(opt_seq(q.all_genres));
    assert(parts.len() == count);
    lemma_list_param_len("duration"@, opt_seq(q.duration));
    let ghost parts = parts + list_param("duration"@, opt_seq(q.duration));
    let ghost count = count + set_count(opt_seq(q.duration));
    assert(parts.len() == count);
    lemma_list_param_len("kinopoisk_rating"@, opt_seq(q.kinopoisk_rating));
    let ghost parts = parts + list_param("kinopoisk_rating"@, opt_seq(q.kinopoisk_rating));
    let ghost count = count + set_count(opt_seq(q.kinopoisk_rating));
    assert(parts.len() == count);
    lemma_list_param_len("imdb_rating"@, opt_seq(q.imdb_rating));
    let ghost parts = parts + list_param("imdb_rating"@, opt_seq(q.imdb_rating));
    let ghost count = count + set_count(opt_seq(q.imdb_rating));
    assert(parts.len() == count);
    lemma_list_param_len("shikimori_rating"@, opt_seq(q.shikimori_rating));
    let ghost parts = parts + list_param("shikimori_rating"@, opt_seq(q.shikimori_rating));
    let ghost count = count + set_count(opt_seq(q.shikimori_rating));
    assert(parts.len() == count);
    lemma_list_param_len("mydramalist_rating"@, opt_seq(q.mydramalist_rating));
    let ghost parts = parts + list_param("mydramalist_rating"@, opt_seq(q.mydramalist_rating));
    let ghost count = count + set_count(opt_seq(q.mydramalist_rating));
    assert(parts.len() == count);
    lemma_list_param_len("actors"@, opt_seq(q.actors));
    let ghost parts = parts + list_param("actors"@, opt_seq(q.actors));
    let ghost count = count + set_count(opt_seq(q.actors));
    assert(parts.len() == count);
    lemma_list_param_len("directors"@, opt_seq(q.directors));
    let ghost parts = parts + list_param("directors"@, opt_seq(q.directors));
    let ghost count = count + set_count(opt_seq(q.directors));
    assert(parts.len() == count);
    lemma_list_param_len("producers"@, opt_seq(q.producers));
    let ghost parts = parts + list_param("producers"@, opt_seq(q.producers));
    let ghost count = count + set_count(opt_seq(q.producers));
    assert(parts.len() == count);
    lemma_list_param_len("writers"@, opt_seq(q.writers));
    let ghost parts = parts + list_param("writers"@, opt_seq(q.writers));
    let ghost count = count + set_count(opt_seq(q.writers));
    assert(parts.len() == count);
    lemma_list_param_len("composers"@, opt_seq(q.composers));
    let ghost parts = parts + list_param("composers"@, opt_seq(q.composers));
    let ghost count = count + set_count(opt_seq(q.composers));
    assert(parts.len() == count);
    lemma_list_param_len("editors"@, opt_seq(q.editors));
    let ghost parts = parts + list_param("editors"@, opt_seq(q.editors));
    let ghost count = count + set_count(opt_seq(q.editors));
    assert(parts.len() == count);
    lemma_list_param_len("designers"@, opt_seq(q.designers));
    let ghost parts = parts + list_param("designers"@, opt_seq(q.designers));
    let ghost count = count + set_count(opt_seq(q.designers));
    assert(parts.len() == count);
    lemma_list_param_len("operators"@, opt_seq(q.operators));
    let ghost parts = parts + list_param("operators"@, opt_seq(q.operators));
    let ghost count = count + set_count(opt_seq(q.operators));
    assert(parts.len() == count);
    lemma_list_param_len("mpaa_rating"@, opt_seq(q.mpaa_rating));
    let ghost parts = parts + list_param("mpaa_rating"@, opt_seq(q.mpaa_rating));
    let ghost count = count + set_count(opt_seq(q.mpaa_rating));
    assert(parts.len() == count);
    lemma_list_param_len("minimal_age"@, opt_seq(q.minimal_age));
    let ghost parts = parts + list_param("minimal_age"@, opt_seq(q.minimal_age));
    let ghost count = count + set_count(opt_seq(q.minimal_age));
    assert(parts.len() == count);
    lemma_list_param_len("anime_kind"@, opt_seq(q.anime_kind));
    let ghost parts = parts + list_param("anime_kind"@, opt_seq(q.anime_kind));
    let ghost count = count + set_count(opt_seq(q.anime_kind));
    assert(parts.len() == count);
    lemma_list_param_len("mydramalist_tags"@, opt_seq(q.mydramalist_tags));
    let ghost parts = parts + list_param("mydramalist_tags"@, opt_seq(q.mydramalist_tags));
    let ghost count = count + set_count(opt_seq(q.mydramalist_tags));
    assert(parts.len() == count);
    lemma_list_param_len("anime_status"@, opt_seq(q.anime_status));
    let ghost parts = parts + list_param("anime_status"@, opt_seq(q.anime_status));
    let ghost count = count + set_count(opt_seq(q.anime_status));
    assert(parts.len() == count);
    lemma_list_param_len("drama_status"@, opt_seq(q.drama_status));
    let ghost parts = parts + list_param("drama_status"@, opt_seq(q.drama_status));
    let ghost count = count + set_count(opt_seq(q.drama_status));
    assert(parts.len() == count);
    lemma_list_param_len("all_status"@, opt_seq(q.all_status));
    let ghost parts = parts + list_param("all_status"@, opt_seq(q.all_status));
    let ghost count = count + set_count(opt_seq(q.all_status));
    assert(parts.len() == count);
    lemma_list_param_len("anime_studios"@, opt_seq(q.anime_studios));
    let ghost parts = parts + list_param("anime_studios"@, opt_seq(q.anime_studios));
    let ghost count = count + set_count(opt_seq(q.anime_studios));
    assert(parts.len() == count);
    lemma_list_param_len("anime_licensed_by"@, opt_seq(q.anime_licensed_by));
    let ghost parts = parts + list_param("anime_licensed_by"@, opt_seq(q.anime_licensed_by));
    let ghost count = count + set_count(opt_seq(q.anime_licensed_by));
    assert(parts.len() == count);
    assert(parts == q.spec_parts());
}

/// A query whose only set field is a list filter sends exactly one pair: the
/// filter's name with the comma-joined list, never one pair per value.
pub proof fn lemma_lone_list_filter_is_one_pair<'a>(q: SearchQuery<'a>, key: Seq<char>)
    requires
        q.list_filter(key) is Some,
        q.set_field_count() == 1,
    ensures
        q.spec_parts() == seq![(key, comma_join(q.list_filter(key)->Some_0))],
{
    lemma_one_pair_per_set_field(q);
    reveal(set_count);
    reveal(value_param);
    reveal(list_param);
    assert(q.spec_parts() =~= seq![(key, comma_join(q.list_filter(key)->Some_0))]);
}


} // verus!
