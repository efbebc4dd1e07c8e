use kodik_api::countries::{CountryQuery, CountrySort};
use kodik_api::list::{ListOrder, ListQuery, ListSort};
use kodik_api::qualities::QualityQuery;
use kodik_api::query::{join_values, WireValue};
use kodik_api::search::SearchQuery;
use kodik_api::types::{AnimeKind, MaterialDataField, MppaRating, ReleaseType, TranslationType};

fn pair(k: &str, v: &str) -> (String, String) {
    (k.to_owned(), v.to_owned())
}

#[test]
fn unset_queries_serialize_to_nothing() {
    assert!(ListQuery::new().to_query_parts().is_empty());
    assert!(SearchQuery::new().to_query_parts().is_empty());
    assert!(CountryQuery::new().to_query_parts().is_empty());
    assert!(QualityQuery::new().to_query_parts().is_empty());
    assert!(ListQuery::default().to_query_parts().is_empty());
}

#[test]
fn list_filter_is_one_comma_joined_pair() {
    let types = [ReleaseType::Anime, ReleaseType::AnimeSerial, ReleaseType::ForeignMovie];
    let mut query = ListQuery::new();
    query.with_types(&types);
    assert_eq!(
        query.to_query_parts(),
        vec![pair("types", "anime,anime-serial,foreign-movie")]
    );
}

#[test]
fn string_list_filter_is_one_comma_joined_pair() {
    let genres = ["A", "B", "C"];
    let mut query = CountryQuery::new();
    query.with_genres(&genres);
    let parts = query.to_query_parts();
    assert_eq!(parts.iter().filter(|(k, _)| k == "genres").count(), 1);
    assert_eq!(parts, vec![pair("genres", "A,B,C")]);
}

#[test]
fn empty_list_filter_is_sent_empty() {
    let years: [u32; 0] = [];
    let mut query = ListQuery::new();
    query.with_year(&years);
    assert_eq!(query.to_query_parts(), vec![pair("year", "")]);
}

#[test]
fn fields_come_in_declaration_order() {
    let years = [2020u32, 2021, 7];
    let kinds = [AnimeKind::Tv13, AnimeKind::Ova];
    let mut query = ListQuery::new();
    query
        .with_anime_kind(&kinds)
        .with_year(&years)
        .with_order(ListOrder::Desc)
        .with_sort(ListSort::ShikimoriRating)
        .with_limit(100)
        .with_camrip(false);
    assert_eq!(
        query.to_query_parts(),
        vec![
            pair("limit", "100"),
            pair("sort", "shikimori_rating"),
            pair("order", "desc"),
            pair("year", "2020,2021,7"),
            pair("camrip", "false"),
            pair("anime_kind", "tv_13,ova"),
        ]
    );
}

#[test]
fn search_scalars_and_lists() {
    let ratings = [MppaRating::Pg13, MppaRating::RPlus];
    let kinds = [TranslationType::Voice];
    let mut query = SearchQuery::new();
    query
        .with_title("Cyberpunk: Edgerunners")
        .with_limit(1)
        .with_strict(true)
        .with_mpaa_rating(&ratings)
        .with_prioritize_translation_type(&kinds);
    assert_eq!(
        query.to_query_parts(),
        vec![
            pair("title", "Cyberpunk: Edgerunners"),
            pair("strict", "true"),
            pair("limit", "1"),
            pair("prioritize_translation_type", "voice"),
            pair("mpaa_rating", "PG-13,R+"),
        ]
    );
}

#[test]
fn country_sort_and_fields() {
    let fields = [MaterialDataField::ShikimoriId, MaterialDataField::ImdbId];
    let mut query = CountryQuery::new();
    query.sort = Some(CountrySort::Count);
    query.with_has_field_and(&fields);
    assert_eq!(
        query.to_query_parts(),
        vec![pair("sort", "count"), pair("has_field_and", "shikimori_id,imdb_id")]
    );
}

#[test]
fn setting_a_filter_twice_keeps_the_last() {
    let mut query = QualityQuery::new();
    query.with_lgbt(true).with_lgbt(false);
    assert_eq!(query.to_query_parts(), vec![pair("lgbt", "false")]);
}

#[test]
fn decimal_text_of_integers() {
    assert_eq!(0u32.to_wire(), "0");
    assert_eq!(7u32.to_wire(), "7");
    assert_eq!(10u32.to_wire(), "10");
    assert_eq!(2022u32.to_wire(), "2022");
    assert_eq!(u32::MAX.to_wire(), "4294967295");
}

#[test]
fn join_of_values() {
    assert_eq!(join_values::<u32>(&[]), "");
    assert_eq!(join_values(&[5u32]), "5");
    assert_eq!(join_values(&["x", "", "y"]), "x,,y");
    assert_eq!(join_values(&[true, false]), "true,false");
}
