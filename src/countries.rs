//! Listing the countries of the catalogue, with how many releases each has.
use vstd::prelude::*;

use crate::client::{request_url, Client, PostRequest};
use crate::query::{
    comma_join, set_count, lemma_list_param_len, lemma_value_param_len, list_texts,list_param, opt_seq, pairs_view, push_list, push_value, value_param, WireValue};
use crate::types::{
    AllStatus, AnimeKind, AnimeStatus, DramaStatus, MaterialDataField, MppaRating, ReleaseType,
    TranslationType,
};

verus! {

/// A country and how many releases it has.
#[derive(Clone, Debug, PartialEq)]
pub struct CountryResult {
    /// The name of the country.
    pub title: String,
    pub count: i32,
}

/// One page of countries.
#[derive(Clone, Debug, PartialEq)]
pub struct CountryResponse {
    pub time: String,
    pub total: i32,
    pub prev_page: Option<String>,
    pub next_page: Option<String>,
    pub results: Vec<CountryResult>,
}

/// What countries can be sorted by.
#[derive(Clone, Copy, Debug, PartialEq, Eq)]
pub enum CountrySort {
    Title,
    Count,
}

impl WireValue for CountrySort {
    open spec fn wire_text(&self) -> Seq<char> {
        match self {
            CountrySort::Title => "title"@,
            CountrySort::Count => "count"@,
        }
    }

    fn to_wire(&self) -> (r: String) {
        match self {
            CountrySort::Title => "title".to_owned(),
            CountrySort::Count => "count".to_owned(),
        }
    }
}

/// The filters of one query; every field left `None` is left out of the request.
#[derive(Clone, Debug)]
pub struct CountryQuery<'a> {
    /// What field to sort materials by
    pub sort: Option<CountrySort>,
    /// Maximum number of outputs
    pub types: Option<&'a [ReleaseType]>,
    ///Filter materials by year If you set this parameter, only materials of the corresponding year will be displayed
    pub year: Option<&'a [u32]>,
    /// Filtering materials by translation ID
    pub translation_id: Option<&'a [u32]>,
    /// Filter content by translation type. Allows you to output only voice translation or only subtitles
    pub translation_type: Option<&'a [TranslationType]>,
    /// Filtering materials based on the presence of a specific field. Materials that have at least one of the listed fields are shown. In order to show only materials that have all the listed fields
    pub has_field: Option<&'a [MaterialDataField]>,
    /// Filtering materials based on the presence of a specific field. Materials that have all the listed fields are shown
    pub has_field_and: Option<&'a [MaterialDataField]>,
    /// Filtering materials by country. You can specify a single value or multiple values, separated by commas (then materials with at least one of the listed countries will be displayed). The parameter is case sensitive
    pub countries: Option<&'a [&'a str]>,
    /// Filtering by genre. You can specify either one value or several values separated by commas (then materials that have at least one of the specified genres will be displayed). You can search by Kinopoisk, Shikimori, MyDramaList or by all genres at once. The parameter is not case sensitive
    pub genres: Option<&'a [&'a str]>,
    /// Filtering by genre. You can specify either one value or several values separated by commas (then materials that have at least one of the specified genres will be displayed). You can search by Kinopoisk, Shikimori, MyDramaList or by all genres at once. The parameter is not case sensitive
    pub anime_genres: Option<&'a [&'a str]>,
    /// Filtering by genre. You can specify either one value or several values separated by commas (then materials that have at least one of the specified genres will be displayed). You can search by Kinopoisk, Shikimori, MyDramaList or by all genres at once. The parameter is not case sensitive
    pub drama_genres: Option<&'a [&'a str]>,
    /// Filtering by genre. You can specify either one value or several values separated by commas (then materials that have at least one of the specified genres will be displayed). You can search by Kinopoisk, Shikimori, MyDramaList or by all genres at once. The parameter is not case sensitive
    pub all_genres: Option<&'a [&'a str]>,
    /// Filtering by duration (in minutes). You can specify either a single value to search for the exact duration, or an interval.
    pub duration: Option<&'a [&'a str]>,
    /// Filtering by Kinopoisk, IMDb, Shikimori, or MyDramaList ratings. You can specify either a single value to search for the exact rating, or an interval
    pub kinopoisk_rating: Option<&'a [&'a str]>,
    /// Filtering by Kinopoisk, IMDb, Shikimori, or MyDramaList ratings. You can specify either a single value to search for the exact rating, or an interval
    pub imdb_rating: Option<&'a [&'a str]>,
    /// Filtering by Kinopoisk, IMDb, Shikimori, or MyDramaList ratings. You can specify either a single value to search for the exact rating, or an interval
    pub shikimori_rating: Option<&'a [&'a str]>,
    /// Filtering by Kinopoisk, IMDb, Shikimori, or MyDramaList ratings. You can specify either a single value to search for the exact rating, or an interval
    pub mydramalist_rating: Option<&'a [&'a str]>,
    /// Filtering materials by personas. You can specify a single value or multiple values, separated by commas (then materials that have at least one of the specified personas will be displayed). This parameter is case-independent. You can specify filters for several professions at once
    pub actors: Option<&'a [&'a str]>,
    /// Filtering materials by personas. You can specify a single value or multiple values, separated by commas (then materials that have at least one of the specified personas will be displayed). This parameter is case-independent. You can specify filters for several professions at once
    pub directors: Option<&'a [&'a str]>,
    /// Filtering materials by personas. You can specify a single value or multiple values, separated by commas (then materials that have at least one of the specified personas will be displayed). This parameter is case-independent. You can specify filters for several professions at once
    pub producers: Option<&'a [&'a str]>,
    /// Filtering materials by personas. You can specify a single value or multiple values, separated by commas (then materials that have at least one of the specified personas will be displayed). This parameter is case-independent. You can specify filters for several professions at once
    pub writers: Option<&'a [&'a str]>,
    /// Filtering materials by personas. You can specify a single value or multiple values, separated by commas (then materials that have at least one of the specified personas will be displayed). This parameter is case-independent. You can specify filters for several professions at once
    pub composers: Option<&'a [&'a str]>,
    /// Filtering materials by personas. You can specify a single value or multiple values, separated by commas (then materials that have at least one of the specified personas will be displayed). This parameter is case-independent. You can specify filters for several professions at once
    pub editors: Option<&'a [&'a str]>,
    /// Filtering materials by personas. You can specify a single value or multiple values, separated by commas (then materials that have at least one of the specified personas will be displayed). This parameter is case-independent. You can specify filters for several professions at once
    pub designers: Option<&'a [&'a str]>,
    /// Filtering materials by personas. You can specify a single value or multiple values, separated by commas (then materials that have at least one of the specified personas will be displayed). This parameter is case-independent. You can specify filters for several professions at once
    pub operators: Option<&'a [&'a str]>,
    /// Filtering materials by age rating. You can specify a single value or multiple values, separated by commas. The parameter is case-insensitive
    pub rating_mpaa: Option<&'a [MppaRating]>,
    /// Filter content by the minimum age from which it can be viewed. You can specify either a single value or a range of values
    pub minimal_age: Option<&'a [&'a str]>,
    /// Filtering materials by anime type. You can specify one value or several values separated by commas (then materials with at least one of these types will be displayed)
    pub anime_kind: Option<&'a [AnimeKind]>,
    /// Filters materials by MyDramaList tags. You can specify one value or several values separated by commas (then materials with at least one of these types will be displayed)
    pub mydramalist_tags: Option<&'a [&'a str]>,
    /// Filter materials by Shikimori status, MyDramaList, or by all statuses. You can specify a single value or several values separated by commas (then materials that have at least one of the listed statuses will be displayed)
    pub anime_status: Option<&'a [AnimeStatus]>,
    /// Filter materials by Shikimori status, MyDramaList, or by all statuses. You can specify a single value or several values separated by commas (then materials that have at least one of the listed statuses will be displayed)
    pub drama_status: Option<&'a [DramaStatus]>,
    /// Filter materials by Shikimori status, MyDramaList, or by all statuses. You can specify a single value or several values separated by commas (then materials that have at least one of the listed statuses will be displayed)
    pub all_status: Option<&'a [AllStatus]>,
    /// Filtering materials by anime studio. You can specify either one value or several values separated by commas (then materials with at least one of the listed studios will be displayed)
    pub anime_studios: Option<&'a [&'a str]>,
    /// Filtering materials by license owner. You can specify a single value or several values separated by commas (then materials that have at least one of the listed owners will be displayed)
    pub anime_licensed_by: Option<&'a [&'a str]>,
}

impl<'a> CountryQuery<'a> {
    /// The query with every filter unset.
    pub open spec fn unset() -> CountryQuery<'a> {
        CountryQuery {
            sort: None,
            types: None,
            year: None,
            translation_id: None,
            translation_type: None,
            has_field: None,
            has_field_and: None,
            countries: None,
            genres: None,
            anime_genres: None,
            drama_genres: None,
            all_genres: None,
            duration: None,
            kinopoisk_rating: None,
            imdb_rating: None,
            shikimori_rating: None,
            mydramalist_rating: None,
            actors: None,
            directors: None,
            producers: None,
            writers: None,
            composers: None,
            editors: None,
            designers: None,
            operators: None,
            rating_mpaa: None,
            minimal_age: None,
            anime_kind: None,
            mydramalist_tags: None,
            anime_status: None,
            drama_status: None,
            all_status: None,
            anime_studios: None,
            anime_licensed_by: None,
        }
    }

    /// The query-string pairs of this query, in field order.
    pub open spec fn spec_parts(&self) -> Seq<(Seq<char>, Seq<char>)> {
        value_param("sort"@, self.sort)
            + list_param("types"@, opt_seq(self.types))
            + list_param("year"@, opt_seq(self.year))
            + list_param("translation_id"@, opt_seq(self.translation_id))
            + list_param("translation_type"@, opt_seq(self.translation_type))
            + list_param("has_field"@, opt_seq(self.has_field))
            + list_param("has_field_and"@, opt_seq(self.has_field_and))
            + list_param("countries"@, opt_seq(self.countries))
            + list_param("genres"@, opt_seq(self.genres))
            + list_param("anime_genres"@, opt_seq(self.anime_genres))
            + list_param("drama_genres"@, opt_seq(self.drama_genres))
            + list_param("all_genres"@, opt_seq(self.all_genres))
            + list_param("duration"@, opt_seq(self.duration))
            + list_param("kinopoisk_rating"@, opt_seq(self.kinopoisk_rating))
            + list_param("imdb_rating"@, opt_seq(self.imdb_rating))
            + list_param("shikimori_rating"@, opt_seq(self.shikimori_rating))
            + list_param("mydramalist_rating"@, opt_seq(self.mydramalist_rating))
            + list_param("actors"@, opt_seq(self.actors))
            + list_param("directors"@, opt_seq(self.directors))
            + list_param("producers"@, opt_seq(self.producers))
            + list_param("writers"@, opt_seq(self.writers))
            + list_param("composers"@, opt_seq(self.composers))
            + list_param("editors"@, opt_seq(self.editors))
            + list_param("designers"@, opt_seq(self.designers))
            + list_param("operators"@, opt_seq(self.operators))
            + list_param("rating_mpaa"@, opt_seq(self.rating_mpaa))
            + list_param("minimal_age"@, opt_seq(self.minimal_age))
            + list_param("anime_kind"@, opt_seq(self.anime_kind))
            + list_param("mydramalist_tags"@, opt_seq(self.mydramalist_tags))
            + list_param("anime_status"@, opt_seq(self.anime_status))
            + list_param("drama_status"@, opt_seq(self.drama_status))
            + list_param("all_status"@, opt_seq(self.all_status))
            + list_param("anime_studios"@, opt_seq(self.anime_studios))
            + list_param("anime_licensed_by"@, opt_seq(self.anime_licensed_by))
    }

    /// How many fields are set.
    pub open spec fn set_field_count(&self) -> nat {
        set_count(self.sort)
            + set_count(opt_seq(self.types))
            + set_count(opt_seq(self.year))
            + set_count(opt_seq(self.translation_id))
            + set_count(opt_seq(self.translation_type))
            + set_count(opt_seq(self.has_field))
            + set_count(opt_seq(self.has_field_and))
            + set_count(opt_seq(self.countries))
            + set_count(opt_seq(self.genres))
            + set_count(opt_seq(self.anime_genres))
            + set_count(opt_seq(self.drama_genres))
            + set_count(opt_seq(self.all_genres))
            + set_count(opt_seq(self.duration))
            + set_count(opt_seq(self.kinopoisk_rating))
            + set_count(opt_seq(self.imdb_rating))
            + set_count(opt_seq(self.shikimori_rating))
            + set_count(opt_seq(self.mydramalist_rating))
            + set_count(opt_seq(self.actors))
            + set_count(opt_seq(self.directors))
            + set_count(opt_seq(self.producers))
            + set_count(opt_seq(self.writers))
            + set_count(opt_seq(self.composers))
            + set_count(opt_seq(self.editors))
            + set_count(opt_seq(self.designers))
            + set_count(opt_seq(self.operators))
            + set_count(opt_seq(self.rating_mpaa))
            + set_count(opt_seq(self.minimal_age))
            + set_count(opt_seq(self.anime_kind))
            + set_count(opt_seq(self.mydramalist_tags))
            + set_count(opt_seq(self.anime_status))
            + set_count(opt_seq(self.drama_status))
            + set_count(opt_seq(self.all_status))
            + set_count(opt_seq(self.anime_studios))
            + set_count(opt_seq(self.anime_licensed_by))
    }

    /// The wire texts of the list filter named `key`, if this query has a list
    /// filter of that name and it is set.
    pub open spec fn list_filter(&self, key: Seq<char>) -> Option<Seq<Seq<char>>> {
        if key == "types"@ {
            list_texts(opt_seq(self.types))
        } else if key == "year"@ {
            list_texts(opt_seq(self.year))
        } else if key == "translation_id"@ {
            list_texts(opt_seq(self.translation_id))
        } else if key == "translation_type"@ {
            list_texts(opt_seq(self.translation_type))
        } else if key == "has_field"@ {
            list_texts(opt_seq(self.has_field))
        } else if key == "has_field_and"@ {
            list_texts(opt_seq(self.has_field_and))
        } else if key == "countries"@ {
            list_texts(opt_seq(self.countries))
        } else if key == "genres"@ {
            list_texts(opt_seq(self.genres))
        } else if key == "anime_genres"@ {
            list_texts(opt_seq(self.anime_genres))
        } else if key == "drama_genres"@ {
            list_texts(opt_seq(self.drama_genres))
        } else if key == "all_genres"@ {
            list_texts(opt_seq(self.all_genres))
        } else if key == "duration"@ {
            list_texts(opt_seq(self.duration))
        } else if key == "kinopoisk_rating"@ {
            list_texts(opt_seq(self.kinopoisk_rating))
        } else if key == "imdb_rating"@ {
            list_texts(opt_seq(self.imdb_rating))
        } else if key == "shikimori_rating"@ {
            list_texts(opt_seq(self.shikimori_rating))
        } else if key == "mydramalist_rating"@ {
            list_texts(opt_seq(self.mydramalist_rating))
        } else if key == "actors"@ {
            list_texts(opt_seq(self.actors))
        } else if key == "directors"@ {
            list_texts(opt_seq(self.directors))
        } else if key == "producers"@ {
            list_texts(opt_seq(self.producers))
        } else if key == "writers"@ {
            list_texts(opt_seq(self.writers))
        } else if key == "composers"@ {
            list_texts(opt_seq(self.composers))
        } else if key == "editors"@ {
            list_texts(opt_seq(self.editors))
        } else if key == "designers"@ {
            list_texts(opt_seq(self.designers))
        } else if key == "operators"@ {
            list_texts(opt_seq(self.operators))
        } else if key == "rating_mpaa"@ {
            list_texts(opt_seq(self.rating_mpaa))
        } else if key == "minimal_age"@ {
            list_texts(opt_seq(self.minimal_age))
        } else if key == "anime_kind"@ {
            list_texts(opt_seq(self.anime_kind))
        } else if key == "mydramalist_tags"@ {
            list_texts(opt_seq(self.mydramalist_tags))
        } else if key == "anime_status"@ {
            list_texts(opt_seq(self.anime_status))
        } else if key == "drama_status"@ {
            list_texts(opt_seq(self.drama_status))
        } else if key == "all_status"@ {
            list_texts(opt_seq(self.all_status))
        } else if key == "anime_studios"@ {
            list_texts(opt_seq(self.anime_studios))
        } else if key == "anime_licensed_by"@ {
            list_texts(opt_seq(self.anime_licensed_by))
        } else {
            None
        }
    }

    /// A query with every filter unset.
    pub fn new() -> (r: CountryQuery<'a>)
        ensures
            r == CountryQuery::<'a>::unset(),
    {
        CountryQuery {
            sort: None,
            types: None,
            year: None,
            translation_id: None,
            translation_type: None,
            has_field: None,
            has_field_and: None,
            countries: None,
            genres: None,
            anime_genres: None,
            drama_genres: None,
            all_genres: None,
            duration: None,
            kinopoisk_rating: None,
            imdb_rating: None,
            shikimori_rating: None,
            mydramalist_rating: None,
            actors: None,
            directors: None,
            producers: None,
            writers: None,
            composers: None,
            editors: None,
            designers: None,
            operators: None,
            rating_mpaa: None,
            minimal_age: None,
            anime_kind: None,
            mydramalist_tags: None,
            anime_status: None,
            drama_status: None,
            all_status: None,
            anime_studios: None,
            anime_licensed_by: None,
        }
    }

    /// Maximum number of outputs
    pub fn with_types<'b>(&'b mut self, types: &'a [ReleaseType]) -> (r: &'b mut CountryQuery<'a>)
        ensures
            *r == (CountryQuery { types: Some(types), ..*old(self) }),
            *final(self) == *final(r),
    {
        self.types = Some(types);
        self
    }

    ///Filter materials by year If you set this parameter, only materials of the corresponding year will be displayed
    pub fn with_year<'b>(&'b mut self, year: &'a [u32]) -> (r: &'b mut CountryQuery<'a>)
        ensures
            *r == (CountryQuery { year: Some(year), ..*old(self) }),
            *final(self) == *final(r),
    {
        self.year = Some(year);
        self
    }

    /// Filtering materials by translation ID
    pub fn with_translation_id<'b>(&'b mut self, translation_id: &'a [u32]) -> (r: &'b mut CountryQuery<'a>)
        ensures
            *r == (CountryQuery { translation_id: Some(translation_id), ..*old(self) }),
            *final(self) == *final(r),
    {
        self.translation_id = Some(translation_id);
        self
    }

    /// Filter content by translation type. Allows you to output only voice translation or only subtitles
    pub fn with_translation_type<'b>(&'b mut self, translation_type: &'a [TranslationType]) -> (r: &'b mut CountryQuery<'a>)
        ensures
            *r == (CountryQuery { translation_type: Some(translation_type), ..*old(self) }),
            *final(self) == *final(r),
    {
        self.translation_type = Some(translation_type);
        self
    }

    /// Filtering materials based on the presence of a specific field. Materials that have at least one of the listed fields are shown. In order to show only materials that have all the listed fields
    pub fn with_has_field<'b>(&'b mut self, has_field: &'a [MaterialDataField]) -> (r: &'b mut CountryQuery<'a>)
        ensures
            *r == (CountryQuery { has_field: Some(has_field), ..*old(self) }),
            *final(self) == *final(r),
    {
        self.has_field = Some(has_field);
        self
    }

    /// Filtering materials based on the presence of a specific field. Materials that have all the listed fields are shown
    pub fn with_has_field_and<'b>(&'b mut self, has_field: &'a [MaterialDataField]) -> (r: &'b mut CountryQuery<'a>)
        ensures
            *r == (CountryQuery { has_field_and: Some(has_field), ..*old(self) }),
            *final(self) == *final(r),
    {
        self.has_field_and = Some(has_field);
        self
    }

    /// Filtering materials by country. You can specify a single value or multiple values, separated by commas (then materials with at least one of the listed countries will be displayed). The parameter is case sensitive
    pub fn with_countries<'b>(&'b mut self, countries: &'a [&'a str]) -> (r: &'b mut CountryQuery<'a>)
        ensures
            *r == (CountryQuery { countries: Some(countries), ..*old(self) }),
            *final(self) == *final(r),
    {
        self.countries = Some(countries);
        self
    }

    /// Filtering by genre. You can specify either one value or several values separated by commas (then materials that have at least one of the specified genres will be displayed). You can search by Kinopoisk, Shikimori, MyDramaList or by all genres at once. The parameter is not case sensitive
    pub fn with_genres<'b>(&'b mut self, genres: &'a [&'a str]) -> (r: &'b mut CountryQuery<'a>)
        ensures
            *r == (CountryQuery { genres: Some(genres), ..*old(self) }),
            *final(self) == *final(r),
    {
        self.genres = Some(genres);
        self
    }

    /// Filtering by genre. You can specify either one value or several values separated by commas (then materials that have at least one of the specified genres will be displayed). You can search by Kinopoisk, Shikimori, MyDramaList or by all genres at once. The parameter is not case sensitive
    pub fn with_anime_genres<'b>(&'b mut self, anime_genres: &'a [&'a str]) -> (r: &'b mut CountryQuery<'a>)
        ensures
            *r == (CountryQuery { anime_genres: Some(anime_genres), ..*old(self) }),
            *final(self) == *final(r),
    {
        self.anime_genres = Some(anime_genres);
        self
    }

    /// Filtering by genre. You can specify either one value or several values separated by commas (then materials that have at least one of the specified genres will be displayed). You can search by Kinopoisk, Shikimori, MyDramaList or by all genres at once. The parameter is not case sensitive
    pub fn with_drama_genres<'b>(&'b mut self, drama_genres: &'a [&'a str]) -> (r: &'b mut CountryQuery<'a>)
        ensures
            *r == (CountryQuery { drama_genres: Some(drama_genres), ..*old(self) }),
            *final(self) == *final(r),
    {
        self.drama_genres = Some(drama_genres);
        self
    }

    /// Filtering by genre. You can specify either one value or several values separated by commas (then materials that have at least one of the specified genres will be displayed). You can search by Kinopoisk, Shikimori, MyDramaList or by all genres at once. The parameter is not case sensitive
    pub fn with_all_genres<'b>(&'b mut self, all_genres: &'a [&'a str]) -> (r: &'b mut CountryQuery<'a>)
        ensures
            *r == (CountryQuery { all_genres: Some(all_genres), ..*old(self) }),
            *final(self) == *final(r),
    {
        self.all_genres = Some(all_genres);
        self
    }

    /// Filtering by duration (in minutes). You can specify either a single value to search for the exact duration, or an interval.
    pub fn with_duration<'b>(&'b mut self, duration: &'a [&'a str]) -> (r: &'b mut CountryQuery<'a>)
        ensures
            *r == (CountryQuery { duration: Some(duration), ..*old(self) }),
            *final(self) == *final(r),
    {
        self.duration = Some(duration);
        self
    }

    /// Filtering by Kinopoisk, IMDb, Shikimori, or MyDramaList ratings. You can specify either a single value to search for the exact rating, or an interval
    pub fn with_kinopoisk_rating<'b>(&'b mut self, kinopoisk_rating: &'a [&'a str]) -> (r: &'b mut CountryQuery<'a>)
        ensures
            *r == (CountryQuery { kinopoisk_rating: Some(kinopoisk_rating), ..*old(self) }),
            *final(self) == *final(r),
    {
        self.kinopoisk_rating = Some(kinopoisk_rating);
        self
    }

    /// Filtering by Kinopoisk, IMDb, Shikimori, or MyDramaList ratings. You can specify either a single value to search for the exact rating, or an interval
    pub fn with_imdb_rating<'b>(&'b mut self, imdb_rating: &'a [&'a str]) -> (r: &'b mut CountryQuery<'a>)
        ensures
            *r == (CountryQuery { imdb_rating: Some(imdb_rating), ..*old(self) }),
            *final(self) == *final(r),
    {
        self.imdb_rating = Some(imdb_rating);
        self
    }

    /// Filtering by Kinopoisk, IMDb, Shikimori, or MyDramaList ratings. You can specify either a single value to search for the exact rating, or an interval
    pub fn with_shikimori_rating<'b>(&'b mut self, shikimori_rating: &'a [&'a str]) -> (r: &'b mut CountryQuery<'a>)
        ensures
            *r == (CountryQuery { shikimori_rating: Some(shikimori_rating), ..*old(self) }),
            *final(self) == *final(r),
    {
        self.shikimori_rating = Some(shikimori_rating);
        self
    }

    /// Filtering by Kinopoisk, IMDb, Shikimori, or MyDramaList ratings. You can specify either a single value to search for the exact rating, or an interval
    pub fn with_mydramalist_rating<'b>(&'b mut self, mydramalist_rating: &'a [&'a str]) -> (r: &'b mut CountryQuery<'a>)
        ensures
            *r == (CountryQuery { mydramalist_rating: Some(mydramalist_rating), ..*old(self) }),
            *final(self) == *final(r),
    {
        self.mydramalist_rating = Some(mydramalist_rating);
        self
    }

    /// Filtering materials by personas. You can specify a single value or multiple values, separated by commas (then materials that have at least one of the specified personas will be displayed). This parameter is case-independent. You can specify filters for several professions at once
    pub fn with_actors<'b>(&'b mut self, actors: &'a [&'a str]) -> (r: &'b mut CountryQuery<'a>)
        ensures
            *r == (CountryQuery { actors: Some(actors), ..*old(self) }),
            *final(self) == *final(r),
    {
        self.actors = Some(actors);
        self
    }

    /// Filtering materials by personas. You can specify a single value or multiple values, separated by commas (then materials that have at least one of the specified personas will be displayed). This parameter is case-independent. You can specify filters for several professions at once
    pub fn with_directors<'b>(&'b mut self, directors: &'a [&'a str]) -> (r: &'b mut CountryQuery<'a>)
        ensures
            *r == (CountryQuery { directors: Some(directors), ..*old(self) }),
            *final(self) == *final(r),
    {
        self.directors = Some(directors);
        self
    }

    /// Filtering materials by personas. You can specify a single value or multiple values, separated by commas (then materials that have at least one of the specified personas will be displayed). This parameter is case-independent. You can specify filters for several professions at once
    pub fn with_producers<'b>(&'b mut self, producers: &'a [&'a str]) -> (r: &'b mut CountryQuery<'a>)
        ensures
            *r == (CountryQuery { producers: Some(producers), ..*old(self) }),
            *final(self) == *final(r),
    {
        self.producers = Some(producers);
        self
    }

    /// Filtering materials by personas. You can specify a single value or multiple values, separated by commas (then materials that have at least one of the specified personas will be displayed). This parameter is case-independent. You can specify filters for several professions at once
    pub fn with_writers<'b>(&'b mut self, writers: &'a [&'a str]) -> (r: &'b mut CountryQuery<'a>)
        ensures
            *r == (CountryQuery { writers: Some(writers), ..*old(self) }),
            *final(self) == *final(r),
    {
        self.writers = Some(writers);
        self
    }

    /// Filtering materials by personas. You can specify a single value or multiple values, separated by commas (then materials that have at least one of the specified personas will be displayed). This parameter is case-independent. You can specify filters for several professions at once
    pub fn with_composers<'b>(&'b mut self, composers: &'a [&'a str]) -> (r: &'b mut CountryQuery<'a>)
        ensures
            *r == (CountryQuery { composers: Some(composers), ..*old(self) }),
            *final(self) == *final(r),
    {
        self.composers = Some(composers);
        self
    }

    /// Filtering materials by personas. You can specify a single value or multiple values, separated by commas (then materials that have at least one of the specified personas will be displayed). This parameter is case-independent. You can specify filters for several professions at once
    pub fn with_editors<'b>(&'b mut self, editors: &'a [&'a str]) -> (r: &'b mut CountryQuery<'a>)
        ensures
            *r == (CountryQuery { editors: Some(editors), ..*old(self) }),
            *final(self) == *final(r),
    {
        self.editors = Some(editors);
        self
    }

    /// Filtering materials by personas. You can specify a single value or multiple values, separated by commas (then materials that have at least one of the specified personas will be displayed). This parameter is case-independent. You can specify filters for several professions at once
    pub fn with_designers<'b>(&'b mut self, designers: &'a [&'a str]) -> (r: &'b mut CountryQuery<'a>)
        ensures
            *r == (CountryQuery { designers: Some(designers), ..*old(self) }),
            *final(self) == *final(r),
    {
        self.designers = Some(designers);
        self
    }

    /// Filtering materials by personas. You can specify a single value or multiple values, separated by commas (then materials that have at least one of the specified personas will be displayed). This parameter is case-independent. You can specify filters for several professions at once
    pub fn with_operators<'b>(&'b mut self, operators: &'a [&'a str]) -> (r: &'b mut CountryQuery<'a>)
        ensures
            *r == (CountryQuery { operators: Some(operators), ..*old(self) }),
            *final(self) == *final(r),
    {
        self.operators = Some(operators);
        self
    }

    /// Filtering materials by age rating. You can specify a single value or multiple values, separated by commas. The parameter is case-insensitive
    pub fn with_rating_mpaa<'b>(&'b mut self, rating_mpaa: &'a [MppaRating]) -> (r: &'b mut CountryQuery<'a>)
        ensures
            *r == (CountryQuery { rating_mpaa: Some(rating_mpaa), ..*old(self) }),
            *final(self) == *final(r),
    {
        self.rating_mpaa = Some(rating_mpaa);
        self
    }

    /// Filter content by the minimum age from which it can be viewed. You can specify either a single value or a range of values
    pub fn with_minimal_age<'b>(&'b mut self, minimal_age: &'a [&'a str]) -> (r: &'b mut CountryQuery<'a>)
        ensures
            *r == (CountryQuery { minimal_age: Some(minimal_age), ..*old(self) }),
            *final(self) == *final(r),
    {
        self.minimal_age = Some(minimal_age);
        self
    }

    /// Filtering materials by anime type. You can specify one value or several values separated by commas (then materials with at least one of these types will be displayed)
    pub fn with_anime_kind<'b>(&'b mut self, anime_kind: &'a [AnimeKind]) -> (r: &'b mut CountryQuery<'a>)
        ensures
            *r == (CountryQuery { anime_kind: Some(anime_kind), ..*old(self) }),
            *final(self) == *final(r),
    {
        self.anime_kind = Some(anime_kind);
        self
    }

    /// Filters materials by MyDramaList tags. You can specify one value or several values separated by commas (then materials with at least one of these types will be displayed)
    pub fn with_mydramalist_tags<'b>(&'b mut self, mydramalist_tags: &'a [&'a str]) -> (r: &'b mut CountryQuery<'a>)
        ensures
            *r == (CountryQuery { mydramalist_tags: Some(mydramalist_tags), ..*old(self) }),
            *final(self) == *final(r),
    {
        self.mydramalist_tags = Some(mydramalist_tags);
        self
    }

    /// Filter materials by Shikimori status, MyDramaList, or by all statuses. You can specify a single value or several values separated by commas (then materials that have at least one of the listed statuses will be displayed)
    pub fn with_anime_status<'b>(&'b mut self, anime_status: &'a [AnimeStatus]) -> (r: &'b mut CountryQuery<'a>)
        ensures
            *r == (CountryQuery { anime_status: Some(anime_status), ..*old(self) }),
            *final(self) == *final(r),
    {
        self.anime_status = Some(anime_status);
        self
    }

    /// Filter materials by Shikimori status, MyDramaList, or by all statuses. You can specify a single value or several values separated by commas (then materials that have at least one of the listed statuses will be displayed)
    pub fn with_drama_status<'b>(&'b mut self, drama_status: &'a [DramaStatus]) -> (r: &'b mut CountryQuery<'a>)
        ensures
            *r == (CountryQuery { drama_status: Some(drama_status), ..*old(self) }),
            *final(self) == *final(r),
    {
        self.drama_status = Some(drama_status);
        self
    }

    /// Filter materials by Shikimori status, MyDramaList, or by all statuses. You can specify a single value or several values separated by commas (then materials that have at least one of the listed statuses will be displayed)
    pub fn with_all_status<'b>(&'b mut self, all_status: &'a [AllStatus]) -> (r: &'b mut CountryQuery<'a>)
        ensures
            *r == (CountryQuery { all_status: Some(all_status), ..*old(self) }),
            *final(self) == *final(r),
    {
        self.all_status = Some(all_status);
        self
    }

    /// Filtering materials by anime studio. You can specify either one value or several values separated by commas (then materials with at least one of the listed studios will be displayed)
    pub fn with_anime_studios<'b>(&'b mut self, anime_studios: &'a [&'a str]) -> (r: &'b mut CountryQuery<'a>)
        ensures
            *r == (CountryQuery { anime_studios: Some(anime_studios), ..*old(self) }),
            *final(self) == *final(r),
    {
        self.anime_studios = Some(anime_studios);
        self
    }

    /// Filtering materials by license owner. You can specify a single value or several values separated by commas (then materials that have at least one of the listed owners will be displayed)
    pub fn with_anime_licensed_by<'b>(&'b mut self, anime_licensed_by: &'a [&'a str]) -> (r: &'b mut CountryQuery<'a>)
        ensures
            *r == (CountryQuery { anime_licensed_by: Some(anime_licensed_by), ..*old(self) }),
            *final(self) == *final(r),
    {
        self.anime_licensed_by = Some(anime_licensed_by);
        self
    }

    /// The query-string pairs of this query: unset filters are left out, a
    /// list filter is one pair whose value is the comma-joined list.
    pub fn to_query_parts(&self) -> (r: Vec<(String, String)>)
        ensures
            pairs_view(r@) == self.spec_parts(),
    {
        let mut parts: Vec<(String, String)> = Vec::new();
        push_value(&mut parts, "sort", self.sort);
        proof {
            assert(pairs_view(parts@) =~= value_param("sort"@, self.sort));
        }
        push_list(&mut parts, "types", self.types);
        push_list(&mut parts, "year", self.year);
        push_list(&mut parts, "translation_id", self.translation_id);
        push_list(&mut parts, "translation_type", self.translation_type);
        push_list(&mut parts, "has_field", self.has_field);
        push_list(&mut parts, "has_field_and", self.has_field_and);
        push_list(&mut parts, "countries", self.countries);
        push_list(&mut parts, "genres", self.genres);
        push_list(&mut parts, "anime_genres", self.anime_genres);
        push_list(&mut parts, "drama_genres", self.drama_genres);
        push_list(&mut parts, "all_genres", self.all_genres);
        push_list(&mut parts, "duration", self.duration);
        push_list(&mut parts, "kinopoisk_rating", self.kinopoisk_rating);
        push_list(&mut parts, "imdb_rating", self.imdb_rating);
        push_list(&mut parts, "shikimori_rating", self.shikimori_rating);
        push_list(&mut parts, "mydramalist_rating", self.mydramalist_rating);
        push_list(&mut parts, "actors", self.actors);
        push_list(&mut parts, "directors", self.directors);
        push_list(&mut parts, "producers", self.producers);
        push_list(&mut parts, "writers", self.writers);
        push_list(&mut parts, "composers", self.composers);
        push_list(&mut parts, "editors", self.editors);
        push_list(&mut parts, "designers", self.designers);
        push_list(&mut parts, "operators", self.operators);
        push_list(&mut parts, "rating_mpaa", self.rating_mpaa);
        push_list(&mut parts, "minimal_age", self.minimal_age);
        push_list(&mut parts, "anime_kind", self.anime_kind);
        push_list(&mut parts, "mydramalist_tags", self.mydramalist_tags);
        push_list(&mut parts, "anime_status", self.anime_status);
        push_list(&mut parts, "drama_status", self.drama_status);
        push_list(&mut parts, "all_status", self.all_status);
        push_list(&mut parts, "anime_studios", self.anime_studios);
        push_list(&mut parts, "anime_licensed_by", self.anime_licensed_by);
        parts
    }

    /// The request that runs this query: a POST to `/countries` with the
    /// token and this query's pairs.
    pub fn request(&self, client: &Client) -> (r: PostRequest)
        ensures
            r.url@ == request_url(client.spec_api_url(), "/countries"@),
            pairs_view(r.query@) == seq![("token"@, client.spec_api_key())] + self.spec_parts(),
            r.body is None,
    {
        client.init_post_request("/countries").query(self.to_query_parts())
    }
}

impl<'a> Default for CountryQuery<'a> {
    fn default() -> (r: CountryQuery<'a>)
        ensures
            r == CountryQuery::<'a>::unset(),
    {
        CountryQuery::new()
    }
}

/// A query with no filter set is sent with no parameter at all.
pub proof fn lemma_unset_query_sends_nothing<'a>()
    ensures
        CountryQuery::<'a>::unset().spec_parts() == Seq::<(Seq<char>, Seq<char>)>::empty(),
{
    reveal(value_param);
    reveal(list_param);
    assert(CountryQuery::<'a>::unset().spec_parts() =~= Seq::<(Seq<char>, Seq<char>)>::empty());
}

/// A query sends one pair per set field.
pub proof fn lemma_one_pair_per_set_field<'a>(q: CountryQuery<'a>)
    ensures
        q.spec_parts().len() == q.set_field_count(),
{
    lemma_value_param_len("sort"@, q.sort);
    let ghost parts = value_param("sort"@, q.sort);
    let ghost count = set_count(q.sort);
    assert(parts.len() == count);
    lemma_list_param_len("types"@, opt_seq(q.types));
    let ghost parts = parts + list_param("types"@, opt_seq(q.types));
    let ghost count = count + set_count(opt_seq(q.types));
    assert(parts.len() == count);
    lemma_list_param_len("year"@, opt_seq(q.year));
    let ghost parts = parts + list_param("year"@, opt_seq(q.year));
    let ghost count = count + set_count(opt_seq(q.year));
    assert(parts.len() == count);
    lemma_list_param_len("translation_id"@, opt_seq(q.translation_id));
    let ghost parts = parts + list_param("translation_id"@, opt_seq(q.translation_id));
    let ghost count = count + set_count(opt_seq(q.translation_id));
    assert(parts.len() == count);
    lemma_list_param_len("translation_type"@, opt_seq(q.translation_type));
    let ghost parts = parts + list_param("translation_type"@, opt_seq(q.translation_type));
    let ghost count = count + set_count(opt_seq(q.translation_type));
    assert(parts.len() == count);
    lemma_list_param_len("has_field"@, opt_seq(q.has_field));
    let ghost parts = parts + list_param("has_field"@, opt_seq(q.has_field));
    let ghost count = count + set_count(opt_seq(q.has_field));
    assert(parts.len() == count);
    lemma_list_param_len("has_field_and"@, opt_seq(q.has_field_and));
    let ghost parts = parts + list_param("has_field_and"@, opt_seq(q.has_field_and));
    let ghost count = count + set_count(opt_seq(q.has_field_and));
    assert(parts.len() == count);
    lemma_list_param_len("countries"@, opt_seq(q.countries));
    let ghost parts = parts + list_param("countries"@, opt_seq(q.countries));
    let ghost count = count + set_count(opt_seq(q.countries));
    assert(parts.len() == count);
    lemma_list_param_len("genres"@, opt_seq(q.genres));
    let ghost parts = parts + list_param("genres"@, opt_seq(q.genres));
    let ghost count = count + set_count(opt_seq(q.genres));
    assert(parts.len() == count);
    lemma_list_param_len("anime_genres"@, opt_seq(q.anime_genres));
    let ghost parts = parts + list_param("anime_genres"@, opt_seq(q.anime_genres));
    let ghost count = count + set_count(opt_seq(q.anime_genres));
    assert(parts.len() == count);
    lemma_list_param_len("drama_genres"@, opt_seq(q.drama_genres));
    let ghost parts = parts + list_param("drama_genres"@, opt_seq(q.drama_genres));
    let ghost count = count + set_count(opt_seq(q.drama_genres));
    assert(parts.len() == count);
    lemma_list_param_len("all_genres"@, opt_seq(q.all_genres));
    let ghost parts = parts + list_param("all_genres"@, opt_seq(q.all_genres));
    let ghost count = count + set_count(opt_seq(q.all_genres));
    assert(parts.len() == count);
    lemma_list_param_len("duration"@, opt_seq(q.duration));
    let ghost parts = parts + list_param("duration"@, opt_seq(q.duration));
    let ghost count = count + set_count(opt_seq(q.duration));
    assert(parts.len() == count);
    lemma_list_param_len("kinopoisk_rating"@, opt_seq(q.kinopoisk_rating));
    let ghost parts = parts + list_param("kinopoisk_rating"@, opt_seq(q.kinopoisk_rating));
    let ghost count = count + set_count(opt_seq(q.kinopoisk_rating));
    assert(parts.len() == count);
    lemma_list_param_len("imdb_rating"@, opt_seq(q.imdb_rating));
    let ghost parts = parts + list_param("imdb_rating"@, opt_seq(q.imdb_rating));
    let ghost count = count + set_count(opt_seq(q.imdb_rating));
    assert(parts.len() == count);
    lemma_list_param_len("shikimori_rating"@, opt_seq(q.shikimori_rating));
    let ghost parts = parts + list_param("shikimori_rating"@, opt_seq(q.shikimori_rating));
    let ghost count = count + set_count(opt_seq(q.shikimori_rating));
    assert(parts.len() == count);
    lemma_list_param_len("mydramalist_rating"@, opt_seq(q.mydramalist_rating));
    let ghost parts = parts + list_param("mydramalist_rating"@, opt_seq(q.mydramalist_rating));
    let ghost count = count + set_count(opt_seq(q.mydramalist_rating));
    assert(parts.len() == count);
    lemma_list_param_len("actors"@, opt_seq(q.actors));
    let ghost parts = parts + list_param("actors"@, opt_seq(q.actors));
    let ghost count = count + set_count(opt_seq(q.actors));
    assert(parts.len() == count);
    lemma_list_param_len("directors"@, opt_seq(q.directors));
    let ghost parts = parts + list_param("directors"@, opt_seq(q.directors));
    let ghost count = count + set_count(opt_seq(q.directors));
    assert(parts.len() == count);
    lemma_list_param_len("producers"@, opt_seq(q.producers));
    let ghost parts = parts + list_param("producers"@, opt_seq(q.producers));
    let ghost count = count + set_count(opt_seq(q.producers));
    assert(parts.len() == count);
    lemma_list_param_len("writers"@, opt_seq(q.writers));
    let ghost parts = parts + list_param("writers"@, opt_seq(q.writers));
    let ghost count = count + set_count(opt_seq(q.writers));
    assert(parts.len() == count);
    lemma_list_param_len("composers"@, opt_seq(q.composers));
    let ghost parts = parts + list_param("composers"@, opt_seq(q.composers));
    let ghost count = count + set_count(opt_seq(q.composers));
    assert(parts.len() == count);
    lemma_list_param_len("editors"@, opt_seq(q.editors));
    let ghost parts = parts + list_param("editors"@, opt_seq(q.editors));
    let ghost count = count + set_count(opt_seq(q.editors));
    assert(parts.len() == count);
    lemma_list_param_len("designers"@, opt_seq(q.designers));
    let ghost parts = parts + list_param("designers"@, opt_seq(q.designers));
    let ghost count = count + set_count(opt_seq(q.designers));
    assert(parts.len() == count);
    lemma_list_param_len("operators"@, opt_seq(q.operators));
    let ghost parts = parts + list_param("operators"@, opt_seq(q.operators));
    let ghost count = count + set_count(opt_seq(q.operators));
    assert(parts.len() == count);
    lemma_list_param_len("rating_mpaa"@, opt_seq(q.rating_mpaa));
    let ghost parts = parts + list_param("rating_mpaa"@, opt_seq(q.rating_mpaa));
    let ghost count = count + set_count(opt_seq(q.rating_mpaa));
    assert(parts.len() == count);
    lemma_list_param_len("minimal_age"@, opt_seq(q.minimal_age));
    let ghost parts = parts + list_param("minimal_age"@, opt_seq(q.minimal_age));
    let ghost count = count + set_count(opt_seq(q.minimal_age));
    assert(parts.len() == count);
    lemma_list_param_len("anime_kind"@, opt_seq(q.anime_kind));
    let ghost parts = parts + list_param("anime_kind"@, opt_seq(q.anime_kind));
    let ghost count = count + set_count(opt_seq(q.anime_kind));
    assert(parts.len() == count);
    lemma_list_param_len("mydramalist_tags"@, opt_seq(q.mydramalist_tags));
    let ghost parts = parts + list_param("mydramalist_tags"@, opt_seq(q.mydramalist_tags));
    let ghost count = count + set_count(opt_seq(q.mydramalist_tags));
    assert(parts.len() == count);
    lemma_list_param_len("anime_status"@, opt_seq(q.anime_status));
    let ghost parts = parts + list_param("anime_status"@, opt_seq(q.anime_status));
    let ghost count = count + set_count(opt_seq(q.anime_status));
    assert(parts.len() == count);
    lemma_list_param_len("drama_status"@, opt_seq(q.drama_status));
    let ghost parts = parts + list_param("drama_status"@, opt_seq(q.drama_status));
    let ghost count = count + set_count(opt_seq(q.drama_status));
    assert(parts.len() == count);
    lemma_list_param_len("all_status"@, opt_seq(q.all_status));
    let ghost parts = parts + list_param("all_status"@, opt_seq(q.all_status));
    let ghost count = count + set_count(opt_seq(q.all_status));
    assert(parts.len() == count);
    lemma_list_param_len("anime_studios"@, opt_seq(q.anime_studios));
    let ghost parts = parts + list_param("anime_studios"@, opt_seq(q.anime_studios));
    let ghost count = count + set_count(opt_seq(q.anime_studios));
    assert(parts.len() == count);
    lemma_list_param_len("anime_licensed_by"@, opt_seq(q.anime_licensed_by));
    let ghost parts = parts + list_param("anime_licensed_by"@, opt_seq(q.anime_licensed_by));
    let ghost count = count + set_count(opt_seq(q.anime_licensed_by));
    assert(parts.len() == count);
    assert(parts == q.spec_parts());
}

/// A query whose only set field is a list filter sends exactly one pair: the
/// filter's name with the comma-joined list, never one pair per value.
pub proof fn lemma_lone_list_filter_is_one_pair<'a>(q: CountryQuery<'a>, key: Seq<char>)
    requires
        q.list_filter(key) is Some,
        q.set_field_count() == 1,
    ensures
        q.spec_parts() == seq![(key, comma_join(q.list_filter(key)->Some_0))],
{
    lemma_one_pair_per_set_field(q);
    reveal(set_count);
    reveal(value_param);
    reveal(list_param);
    assert(q.spec_parts() =~= seq![(key, comma_join(q.list_filter(key)->Some_0))]);
}


} // verus!
