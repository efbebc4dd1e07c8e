use kodik_api::types::{
    Episode, EpisodeUnion, Release, ReleaseQuality, ReleaseType, Season, Translation,
    TranslationType,
};
use kodik_api::unify_seasons::{unify_seasons, UnifiedEpisode, UnifiedSeason};

fn get_default_kodik_release() -> Release {
    Release {
        id: "serial-45534".to_owned(),
        title: "Киберпанк: Бегущие по краю".to_owned(),
        title_orig: "Cyberpunk: Edgerunners".to_owned(),
        other_title: Some("サイバーパンク エッジランナーズ".to_owned()),
        link: "//kodik.info/serial/45534/d8619e900d122ea8eff8b55891b09bac/720p".to_owned(),
        year: 2022,
        kinopoisk_id: Some("2000102".to_owned()),
        imdb_id: Some("tt12590266".to_owned()),
        mdl_id: None,
        worldart_link: Some("http://www.world-art.ru/animation/animation.php?id=10534".to_owned()),
        shikimori_id: Some("42310".to_owned()),
        release_type: ReleaseType::AnimeSerial,
        quality: ReleaseQuality::WebDlRip720p,
        camrip: false,
        lgbt: false,
        translation: Translation {
            id: 610,
            title: "AniLibria.TV".to_owned(),
            translation_type: TranslationType::Voice,
        },
        created_at: "2022-09-14T10:54:34Z".to_owned(),
        updated_at: "2022-09-23T22:31:33Z".to_owned(),
        blocked_seasons: Some(vec![]),
        seasons: None,
        last_season: Some(1),
        last_episode: Some(10),
        episodes_count: Some(10),
        blocked_countries: vec![],
        material_data: None,
        screenshots: vec!["https://i.kodik.biz/screenshots/seria/104981222/1.jpg".to_owned()],
    }
}

#[test]
fn test_unify_kodik_without_seasons() {
    let kodik_release = get_default_kodik_release();

    let unified_season = unify_seasons(&kodik_release);

    assert_eq!(
        unified_season,
        vec![(
            "1".to_owned(),
            UnifiedSeason {
                title: None,
                link: kodik_release.link.clone(),
                episodes: vec![(
                    "1".to_owned(),
                    UnifiedEpisode {
                        title: None,
                        link: kodik_release.link.clone(),
                        screenshots: kodik_release.screenshots,
                    }
                )],
            }
        )]
    )
}

#[test]
fn test_unify_kodik_with_seasons() {
    let mut kodik_release = get_default_kodik_release();

    let seasons = vec![(
        "1".to_owned(),
        Season {
            link: kodik_release.link.clone(),
            title: None,
            episodes: vec![
                (
                    "1".to_owned(),
                    EpisodeUnion::Link(
                        "//kodik.info/serial/45534/d8619e900d122ea8eff8b55891b09bac/720p/1"
                            .to_owned(),
                    ),
                ),
                (
                    "2".to_owned(),
                    EpisodeUnion::Episode(Episode {
                        title: None,
                        link: "//kodik.info/serial/45534/d8619e900d122ea8eff8b55891b09bac/720p/2"
                            .to_owned(),
                        screenshots: kodik_release.screenshots.clone(),
                    }),
                ),
                (
                    "3".to_owned(),
                    EpisodeUnion::Link(
                        "//kodik.info/serial/45534/d8619e900d122ea8eff8b55891b09bac/720p/3"
                            .to_owned(),
                    ),
                ),
            ],
        },
    )];

    kodik_release.seasons = Some(seasons);

    let unified_season = unify_seasons(&kodik_release);

    assert_eq!(
        unified_season,
        vec![(
            "1".to_owned(),
            UnifiedSeason {
                title: None,
                link: kodik_release.link.clone(),
                episodes: vec![
                    (
                        "1".to_owned(),
                        UnifiedEpisode {
                            title: None,
                            link: "//kodik.info/serial/45534/d8619e900d122ea8eff8b55891b09bac/720p/1"
                                .to_owned(),
                            screenshots: kodik_release.screenshots.clone(),
                        }
                    ),
                    (
                        "2".to_owned(),
                        UnifiedEpisode {
                            title: None,
                            link: "//kodik.info/serial/45534/d8619e900d122ea8eff8b55891b09bac/720p/2"
                                .to_owned(),
                            screenshots: kodik_release.screenshots.clone(),
                        }
                    ),
                    (
                        "3".to_owned(),
                        UnifiedEpisode {
                            title: None,
                            link: "//kodik.info/serial/45534/d8619e900d122ea8eff8b55891b09bac/720p/3"
                                .to_owned(),
                            screenshots: kodik_release.screenshots,
                        }
                    ),
                ],
            }
        )]
    )
}

#[test]
fn full_episode_record_keeps_its_own_title_and_screenshots() {
    let mut release = get_default_kodik_release();
    release.seasons = Some(vec![
        (
            "1".to_owned(),
            Season { title: None, link: "//s1".to_owned(), episodes: vec![] },
        ),
        (
            "2".to_owned(),
            Season {
                title: Some("recap".to_owned()),
                link: "//s2".to_owned(),
                episodes: vec![(
                    "5".to_owned(),
                    EpisodeUnion::Episode(Episode {
                        title: Some("special".to_owned()),
                        link: "//s2/e5".to_owned(),
                        screenshots: vec!["a.jpg".to_owned(), "b.jpg".to_owned()],
                    }),
                )],
            },
        ),
    ]);

    let unified = unify_seasons(&release);

    assert_eq!(unified.len(), 2);
    assert_eq!(unified[0].0, "1");
    assert!(unified[0].1.episodes.is_empty());
    assert_eq!(unified[1].0, "2");
    assert_eq!(unified[1].1.title, Some("recap".to_owned()));
    assert_eq!(unified[1].1.link, "//s2");
    assert_eq!(
        unified[1].1.episodes,
        vec![(
            "5".to_owned(),
            UnifiedEpisode {
                title: Some("special".to_owned()),
                link: "//s2/e5".to_owned(),
                screenshots: vec!["a.jpg".to_owned(), "b.jpg".to_owned()],
            }
        )]
    );
}
