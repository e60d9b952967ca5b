use beatstv::tmdb::{
    cache_movie_details, cached_to_details, first_result_id, get_api_key, get_image_url,
    is_fresh, movie_details_url, search_and_get_details, search_movie_url, CastMember, Credits,
    CrewMember, Genre, Lookup, TmdbCachedMovie, TmdbError, TmdbMovieDetails, TmdbSearchResult,
    Video, Videos, IMG_BACKDROP_LARGE, IMG_POSTER_MEDIUM,
};

const DAY: i64 = 24 * 60 * 60;

fn video(key: &str, site: &str, kind: &str, official: Option<bool>) -> Video {
    Video {
        id: format!("id-{}", key),
        key: key.to_string(),
        name: format!("video {}", key),
        video_type: kind.to_string(),
        site: site.to_string(),
        official,
    }
}

fn cast(n: usize) -> Vec<CastMember> {
    (0..n)
        .map(|i| CastMember {
            id: i as i64,
            name: format!("Actor {}", i),
            character: Some(format!("Role {}", i)),
            profile_path: None,
            order: Some(i as i32),
        })
        .collect()
}

fn details(videos: Vec<Video>, cast_size: usize) -> TmdbMovieDetails {
    TmdbMovieDetails {
        id: 27205,
        title: "Inception".to_string(),
        original_title: Some("Inception".to_string()),
        tagline: Some("Your mind is the scene of the crime.".to_string()),
        overview: Some("A thief.".to_string()),
        release_date: Some("2010-07-15".to_string()),
        runtime: Some(148),
        vote_average_bits: Some(8.4f32.to_bits()),
        vote_count: Some(35000),
        popularity_bits: Some(90.5f32.to_bits()),
        poster_path: Some("/p.jpg".to_string()),
        backdrop_path: None,
        genres: Some(vec![
            Genre { id: 28, name: "Action".to_string() },
            Genre { id: 878, name: "Science Fiction".to_string() },
        ]),
        imdb_id: Some("tt1375666".to_string()),
        status: Some("Released".to_string()),
        budget: Some(160000000),
        revenue: Some(825532764),
        credits: Some(Credits {
            cast: Some(cast(cast_size)),
            crew: Some(vec![
                CrewMember {
                    id: 1,
                    name: "Someone Else".to_string(),
                    job: "Producer".to_string(),
                    department: None,
                    profile_path: None,
                },
                CrewMember {
                    id: 2,
                    name: "Christopher Nolan".to_string(),
                    job: "Director".to_string(),
                    department: Some("Directing".to_string()),
                    profile_path: None,
                },
            ]),
        }),
        videos: Some(Videos { results: Some(videos) }),
    }
}

#[test]
fn api_key_must_be_set_and_non_empty() {
    assert_eq!(get_api_key(Some("k".to_string())), Ok("k".to_string()));
    assert_eq!(get_api_key(Some(String::new())), Err(TmdbError::MissingApiKey));
    assert_eq!(get_api_key(None), Err(TmdbError::MissingApiKey));
    assert!(TmdbError::MissingApiKey.message().contains("Settings"));
}

#[test]
fn image_url_joins_base_size_and_path() {
    assert_eq!(
        get_image_url(&Some("/abc.jpg".to_string()), "w500"),
        Some("https://image.tmdb.org/t/p/w500/abc.jpg".to_string())
    );
    assert_eq!(get_image_url(&None, "w500"), None);
    assert_eq!(
        get_image_url(&Some("/b.jpg".to_string()), IMG_BACKDROP_LARGE),
        Some("https://image.tmdb.org/t/p/w1280/b.jpg".to_string())
    );
    assert_eq!(IMG_POSTER_MEDIUM, "w342");
}

#[test]
fn search_url_encodes_title_and_adds_year() {
    assert_eq!(
        search_movie_url("KEY", "The Matrix & Co", Some(1999)),
        "https://api.themoviedb.org/3/search/movie?api_key=KEY&query=The%20Matrix%20%26%20Co&include_adult=false&language=en-US&year=1999"
    );
    assert_eq!(
        search_movie_url("KEY", "Up", None),
        "https://api.themoviedb.org/3/search/movie?api_key=KEY&query=Up&include_adult=false&language=en-US"
    );
    assert!(search_movie_url("K", "x", Some(-5)).ends_with("&year=-5"));
}

#[test]
fn details_url_appends_credits_and_videos() {
    assert_eq!(
        movie_details_url("KEY", 27205),
        "https://api.themoviedb.org/3/movie/27205?api_key=KEY&append_to_response=credits,videos&language=en-US"
    );
    assert!(movie_details_url("K", i64::MIN).contains("/movie/-9223372036854775808?"));
    assert!(movie_details_url("K", 0).contains("/movie/0?"));
}

#[test]
fn freshness_window_is_thirty_days() {
    let now = 1_700_000_000;
    assert!(is_fresh(now - 29 * DAY, now));
    assert!(is_fresh(now - 30 * DAY + 1, now));
    assert!(!is_fresh(now - 30 * DAY, now));
    assert!(!is_fresh(now - 31 * DAY, now));
    assert!(!is_fresh(i64::MIN, i64::MAX));
}

#[test]
fn first_result_is_most_relevant() {
    let r = |id: i64| TmdbSearchResult {
        id,
        title: "t".to_string(),
        original_title: None,
        overview: None,
        release_date: None,
        vote_average_bits: None,
        vote_count: None,
        popularity_bits: None,
        poster_path: None,
        backdrop_path: None,
        genre_ids: None,
        adult: Some(false),
    };
    assert_eq!(first_result_id(&vec![r(7), r(9)]), Some(7));
    assert_eq!(first_result_id(&Vec::new()), None);
}

#[test]
fn cache_round_trip_keeps_projected_fields() {
    let d = details(
        vec![
            video("teaser", "YouTube", "Teaser", Some(true)),
            video("t1", "YouTube", "Trailer", Some(false)),
            video("t2", "YouTube", "Trailer", Some(true)),
            video("t3", "YouTube", "Trailer", Some(true)),
        ],
        14,
    );
    let row = cache_movie_details(&d, 1000);
    assert_eq!(row.fetched_at, 1000);
    assert_eq!(row.director, Some("Christopher Nolan".to_string()));
    assert_eq!(row.trailer_key, Some("t2".to_string()));
    assert_eq!(row.cast.as_ref().unwrap().len(), 10);
    let back = cached_to_details(row);
    assert_eq!(back.id, 27205);
    assert_eq!(back.title, "Inception");
    assert_eq!(back.release_date, Some("2010-07-15".to_string()));
    let genres: Vec<(i32, String)> = back.genres.unwrap().into_iter().map(|g| (g.id, g.name)).collect();
    assert_eq!(genres, vec![(28, "Action".to_string()), (878, "Science Fiction".to_string())]);
    let credits = back.credits.unwrap();
    let names: Vec<String> = credits.cast.unwrap().into_iter().map(|c| c.name).collect();
    let expected: Vec<String> = (0..10).map(|i| format!("Actor {}", i)).collect();
    assert_eq!(names, expected);
    let crew = credits.crew.unwrap();
    assert_eq!(crew.len(), 1);
    assert_eq!(crew[0].name, "Christopher Nolan");
    assert_eq!(crew[0].job, "Director");
    assert_eq!(crew[0].department, Some("Directing".to_string()));
    let vids = back.videos.unwrap().results.unwrap();
    assert_eq!(vids.len(), 1);
    assert_eq!(vids[0].key, "t2");
    assert_eq!(vids[0].site, "YouTube");
    assert_eq!(back.vote_average_bits, Some(8.4f32.to_bits()));
    assert_eq!(back.status, None);
    assert_eq!(back.budget, None);
    assert_eq!(back.revenue, None);
}

#[test]
fn trailer_falls_back_to_any_youtube_video() {
    let d = details(
        vec![
            video("v0", "Vimeo", "Trailer", Some(true)),
            video("v1", "YouTube", "Trailer", Some(false)),
            video("v2", "YouTube", "Clip", None),
        ],
        3,
    );
    let row = cache_movie_details(&d, 0);
    assert_eq!(row.trailer_key, Some("v1".to_string()));
    assert_eq!(row.trailer_site, Some("YouTube".to_string()));
    let none = cache_movie_details(&details(vec![video("v0", "Vimeo", "Trailer", Some(true))], 0), 0);
    assert_eq!(none.trailer_key, None);
    assert_eq!(none.trailer_site, None);
    assert_eq!(none.cast.map(|c| c.len()), Some(0));
}

fn cached_row(fetched_at: i64) -> TmdbCachedMovie {
    TmdbCachedMovie {
        tmdb_id: 27205,
        imdb_id: None,
        title: "Inception".to_string(),
        original_title: None,
        tagline: None,
        overview: None,
        release_date: Some("2010-07-15".to_string()),
        runtime: None,
        vote_average_bits: None,
        vote_count: None,
        popularity_bits: None,
        poster_path: None,
        backdrop_path: None,
        genres: None,
        cast: None,
        director: None,
        trailer_key: Some("k".to_string()),
        trailer_site: None,
        fetched_at,
    }
}

#[test]
fn bare_row_rebuilds_without_credits() {
    let back = cached_to_details(cached_row(0));
    assert!(back.credits.is_none());
    let v = back.videos.unwrap().results.unwrap();
    assert_eq!(v[0].site, "YouTube");
    assert_eq!(v[0].id, "cached");
    assert_eq!(v[0].official, Some(true));
}

#[test]
fn fresh_cache_row_needs_no_search() {
    let now = 1_700_000_000;
    let r = search_and_get_details("Inception", None, Some(cached_row(now - DAY)), now, None);
    match r {
        Ok(Lookup::Cached(d)) => assert_eq!(d.title, "Inception"),
        _ => panic!("expected the cached record"),
    }
}

#[test]
fn stale_or_absent_row_needs_a_search() {
    let now = 1_700_000_000;
    let expected = search_movie_url("KEY", "Inception", Some(2010));
    for cached in [Some(cached_row(now - 31 * DAY)), None] {
        match search_and_get_details("Inception", Some(2010), cached, now, Some("KEY".to_string())) {
            Ok(Lookup::Search(url)) => assert_eq!(url, expected),
            _ => panic!("expected a search"),
        }
    }
    assert!(matches!(
        search_and_get_details("Inception", None, Some(cached_row(now - 31 * DAY)), now, None),
        Err(TmdbError::MissingApiKey)
    ));
}
