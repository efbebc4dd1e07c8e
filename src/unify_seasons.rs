//! Seasons and episodes in one shape, whatever shape the API sent them in.
//!
//! A release may come with no seasons at all (a movie), and an episode may come
//! as a bare link or as a full record. Unified, every release has at least one
//! season and every episode is a full record.
use vstd::prelude::*;

use crate::types::{keys_unique, EpisodeUnion, Release, Season};

verus! {

/// An episode in the unified shape.
#[derive(Clone, Debug, PartialEq)]
pub struct UnifiedEpisode {
    /// For example, it can be marked as special.
    pub title: Option<String>,
    pub link: String,
    pub screenshots: Vec<String>,
}

/// A season in the unified shape.
#[derive(Clone, Debug, PartialEq)]
pub struct UnifiedSeason {
    /// For example, it can be marked as a recap or a special.
    pub title: Option<String>,
    pub link: String,
    /// The episodes, keyed by episode number, in the order the season had them.
    pub episodes: Vec<(String, UnifiedEpisode)>,
}

/// `u` is the unified form of episode `e` of a release whose own screenshots
/// are `shots`: a bare link takes the release's screenshots and no title.
pub open spec fn episode_unified(e: EpisodeUnion, u: UnifiedEpisode, shots: Seq<String>) -> bool {
    match e {
        EpisodeUnion::Link(link) => {
            &&& u.title is None
            &&& u.link@ == link@
            &&& u.screenshots@ == shots
        },
        EpisodeUnion::Episode(ep) => {
            &&& u.title == ep.title
            &&& u.link@ == ep.link@
            &&& u.screenshots@ == ep.screenshots@
        },
    }
}

/// `u` is the unified form of season `s`: same title and link, and each
/// episode, under the same key and in the same order, unified.
pub open spec fn season_unified(s: Season, u: UnifiedSeason, shots: Seq<String>) -> bool {
    &&& u.title == s.title
    &&& u.link@ == s.link@
    &&& u.episodes@.len() == s.episodes@.len()
    &&& forall|j: int|
        0 <= j < s.episodes@.len() ==> {
            &&& (#[trigger] u.episodes@[j]).0@ == s.episodes@[j].0@
            &&& episode_unified(s.episodes@[j].1, u.episodes@[j].1, shots)
        }
}

/// `r` is the synthetic single season of a release without seasons: season
/// "1" with the release's link, holding episode "1" with the release's link
/// and screenshots.
pub open spec fn single_season(release: Release, r: Seq<(String, UnifiedSeason)>) -> bool {
    &&& r.len() == 1
    &&& r[0].0@ == "1"@
    &&& r[0].1.title is None
    &&& r[0].1.link@ == release.link@
    &&& r[0].1.episodes@.len() == 1
    &&& r[0].1.episodes@[0].0@ == "1"@
    &&& r[0].1.episodes@[0].1.title is None
    &&& r[0].1.episodes@[0].1.link@ == release.link@
    &&& r[0].1.episodes@[0].1.screenshots@ == release.screenshots@
}

fn clone_strings(v: &Vec<String>) -> (r: Vec<String>)
    ensures
        r@ == v@,
{
    let mut out: Vec<String> = Vec::new();
    let mut i: usize = 0;
    while i < v.len()
        invariant
            i <= v@.len(),
            out@ == v@.subrange(0, i as int),
        decreases v@.len() - i,
    {
        out.push(v[i].clone());
        proof {
            assert(out@ =~= v@.subrange(0, i + 1));
        }
        i = i + 1;
    }
    proof {
        assert(v@.subrange(0, v@.len() as int) =~= v@);
    }
    out
}

fn clone_title(t: &Option<String>) -> (r: Option<String>)
    ensures
        r == *t,
{
    match t {
        Some(s) => Some(s.clone()),
        None => None,
    }
}

fn unify_episode(e: &EpisodeUnion, shots: &Vec<String>) -> (r: UnifiedEpisode)
    ensures
        episode_unified(*e, r, shots@),
{
    match e {
        EpisodeUnion::Episode(ep) => UnifiedEpisode {
            title: clone_title(&ep.title),
            link: ep.link.clone(),
            screenshots: clone_strings(&ep.screenshots),
        },
        EpisodeUnion::Link(link) => UnifiedEpisode {
            title: None,
            link: link.clone(),
            screenshots: clone_strings(shots),
        },
    }
}

fn unify_season(s: &Season, shots: &Vec<String>) -> (r: UnifiedSeason)
    ensures
        season_unified(*s, r, shots@),
        keys_unique(s.episodes@) ==> keys_unique(r.episodes@),
{
    let mut episodes: Vec<(String, UnifiedEpisode)> = Vec::new();
    let mut j: usize = 0;
    while j < s.episodes.len()
        invariant
            j <= s.episodes@.len(),
            episodes@.len() == j,
            forall|k: int|
                0 <= k < j ==> {
                    &&& (#[trigger] episodes@[k]).0@ == s.episodes@[k].0@
                    &&& episode_unified(s.episodes@[k].1, episodes@[k].1, shots@)
                },
        decreases s.episodes@.len() - j,
    {
        let key = s.episodes[j].0.clone();
        let ep = unify_episode(&s.episodes[j].1, shots);
        episodes.push((key, ep));
        j = j + 1;
    }
    let r = UnifiedSeason { title: clone_title(&s.title), link: s.link.clone(), episodes };
    proof {
        if keys_unique(s.episodes@) {
            assert forall|a: int, b: int|
                #![trigger r.episodes@[a], r.episodes@[b]]
                0 <= a < b < r.episodes@.len() implies r.episodes@[a].0@ != r.episodes@[b].0@ by {
                assert(s.episodes@[a].0@ != s.episodes@[b].0@);
            }
        }
    }
    r
}

/// The release's seasons in the unified shape. Without seasons, the release is
/// one season "1" holding one episode "1", both with the release's own link,
/// the episode with the release's screenshots. With seasons, each keeps its key
/// and its place.
pub fn unify_seasons(release: &Release) -> (r: Vec<(String, UnifiedSeason)>)
    requires
        release.well_formed(),
    ensures
        keys_unique(r@),
        forall|i: int| 0 <= i < r@.len() ==> keys_unique((#[trigger] r@[i]).1.episodes@),
        release.seasons is None ==> single_season(*release, r@),
        release.seasons is Some ==> {
            let seasons = release.seasons->Some_0@;
            &&& r@.len() == seasons.len()
            &&& forall|i: int|
                0 <= i < seasons.len() ==> {
                    &&& (#[trigger] r@[i]).0@ == seasons[i].0@
                    &&& season_unified(seasons[i].1, r@[i].1, release.screenshots@)
                }
        },
{
    match &release.seasons {
        None => {
            let mut episodes: Vec<(String, UnifiedEpisode)> = Vec::new();
            episodes.push(
                (
                    "1".to_owned(),
                    UnifiedEpisode {
                        title: None,
                        link: release.link.clone(),
                        screenshots: clone_strings(&release.screenshots),
                    },
                ),
            );
            let mut seasons: Vec<(String, UnifiedSeason)> = Vec::new();
            seasons.push(
                ("1".to_owned(), UnifiedSeason { title: None, link: release.link.clone(), episodes }),
            );
            seasons
        },
        Some(kodik_seasons) => {
            let mut seasons: Vec<(String, UnifiedSeason)> = Vec::new();
            let mut i: usize = 0;
            while i < kodik_seasons.len()
                invariant
                    release.well_formed(),
                    release.seasons == Some(*kodik_seasons),
                    i <= kodik_seasons@.len(),
                    seasons@.len() == i,
                    forall|k: int|
                        0 <= k < i ==> keys_unique((#[trigger] seasons@[k]).1.episodes@),
                    forall|k: int|
                        0 <= k < i ==> {
                            &&& (#[trigger] seasons@[k]).0@ == kodik_seasons@[k].0@
                            &&& season_unified(
                                kodik_seasons@[k].1,
                                seasons@[k].1,
                                release.screenshots@,
                            )
                        },
                decreases kodik_seasons@.len() - i,
            {
                let key = kodik_seasons[i].0.clone();
                let season = unify_season(&kodik_seasons[i].1, &release.screenshots);
                proof {
                    assert(release.seasons->Some_0@[i as int] == kodik_seasons@[i as int]);
                    assert(keys_unique(kodik_seasons@[i as int].1.episodes@));
                }
                seasons.push((key, season));
                i = i + 1;
            }
            proof {
                assert forall|a: int, b: int|
                    #![trigger seasons@[a], seasons@[b]]
                    0 <= a < b < seasons@.len() implies seasons@[a].0@ != seasons@[b].0@ by {
                    assert(kodik_seasons@[a].0@ != kodik_seasons@[b].0@);
                }
            }
            seasons
        },
    }
}

} // verus!
