//! Movie metadata from the remote movie database: the records it returns,
//! the request addresses, the cache-first lookup and the cached projection.

use vstd::prelude::*;
use crate::text::{opt_view, str_eq};

verus! {

/// Size preset of a small poster image.
pub const IMG_POSTER_SMALL: &'static str = "w185";

/// Size preset of a medium poster image.
pub const IMG_POSTER_MEDIUM: &'static str = "w342";

/// Size preset of a large poster image.
pub const IMG_POSTER_LARGE: &'static str = "w500";

/// Size preset of a small backdrop image.
pub const IMG_BACKDROP_SMALL: &'static str = "w780";

/// Size preset of a large backdrop image.
pub const IMG_BACKDROP_LARGE: &'static str = "w1280";

/// Size preset of a small profile image.
pub const IMG_PROFILE_SMALL: &'static str = "w185";

/// Search result of the movie database. Scores are carried as the bit
/// patterns of `f32` values.
#[derive(Debug, Clone)]
pub struct TmdbSearchResult {
    pub id: i64,
    pub title: String,
    pub original_title: Option<String>,
    pub overview: Option<String>,
    pub release_date: Option<String>,
    pub vote_average_bits: Option<u32>,
    pub vote_count: Option<i32>,
    pub popularity_bits: Option<u32>,
    pub poster_path: Option<String>,
    pub backdrop_path: Option<String>,
    pub genre_ids: Option<Vec<i32>>,
    pub adult: Option<bool>,
}

/// Full movie details with credits and videos. Scores are carried as the bit
/// patterns of `f32` values.
#[derive(Debug, Clone)]
pub struct TmdbMovieDetails {
    pub id: i64,
    pub title: String,
    pub original_title: Option<String>,
    pub tagline: Option<String>,
    pub overview: Option<String>,
    pub release_date: Option<String>,
    pub runtime: Option<i32>,
    pub vote_average_bits: Option<u32>,
    pub vote_count: Option<i32>,
    pub popularity_bits: Option<u32>,
    pub poster_path: Option<String>,
    pub backdrop_path: Option<String>,
    pub genres: Option<Vec<Genre>>,
    pub imdb_id: Option<String>,
    pub status: Option<String>,
    pub budget: Option<i64>,
    pub revenue: Option<i64>,
    pub credits: Option<Credits>,
    pub videos: Option<Videos>,
}

#[derive(Debug, Clone)]
pub struct Genre {
    pub id: i32,
    pub name: String,
}

#[derive(Debug, Clone)]
pub struct Credits {
    pub cast: Option<Vec<CastMember>>,
    pub crew: Option<Vec<CrewMember>>,
}

#[derive(Debug, Clone)]
pub struct CastMember {
    pub id: i64,
    pub name: String,
    pub character: Option<String>,
    pub profile_path: Option<String>,
    pub order: Option<i32>,
}

#[derive(Debug, Clone)]
pub struct CrewMember {
    pub id: i64,
    pub name: String,
    pub job: String,
    pub department: Option<String>,
    pub profile_path: Option<String>,
}

#[derive(Debug, Clone)]
pub struct Videos {
    pub results: Option<Vec<Video>>,
}

#[derive(Debug, Clone)]
pub struct Video {
    pub id: String,
    pub key: String,
    pub name: String,
    pub video_type: String,
    pub site: String,
    pub official: Option<bool>,
}

/// The cached projection of a movie's details: genres and the top of the
/// cast are kept as lists (the store encodes them), the director and the
/// trailer are reduced to a few strings, and the time of fetching is kept.
#[derive(Debug, Clone)]
pub struct TmdbCachedMovie {
    pub tmdb_id: i64,
    pub imdb_id: Option<String>,
    pub title: String,
    pub original_title: Option<String>,
    pub tagline: Option<String>,
    pub overview: Option<String>,
    pub release_date: Option<String>,
    pub runtime: Option<i32>,
    pub vote_average_bits: Option<u32>,
    pub vote_count: Option<i32>,
    pub popularity_bits: Option<u32>,
    pub poster_path: Option<String>,
    pub backdrop_path: Option<String>,
    pub genres: Option<Vec<Genre>>,
    pub cast: Option<Vec<CastMember>>,
    pub director: Option<String>,
    pub trailer_key: Option<String>,
    pub trailer_site: Option<String>,
    pub fetched_at: i64,
}

/// Why a metadata request cannot be made.
#[derive(Debug, Clone, Copy, PartialEq, Eq)]
pub enum TmdbError {
    /// No API key is configured.
    MissingApiKey,
}

impl TmdbError {
    /// The user-facing text of the error.
    pub fn message(&self) -> (r: String)
        ensures
            r@ == "TMDB API key not configured. Please add your API key in Settings."@,
    {
        String::from_str("TMDB API key not configured. Please add your API key in Settings.")
    }
}

/// The configured API key, where one is set and non-empty.
pub fn get_api_key(configured: Option<String>) -> (r: Result<String, TmdbError>)
    ensures
        match configured {
            Some(k) => if k@.len() > 0 {
                r == Ok::<String, TmdbError>(k)
            } else {
                r == Err::<String, TmdbError>(TmdbError::MissingApiKey)
            },
            None => r == Err::<String, TmdbError>(TmdbError::MissingApiKey),
        },
{
    match configured {
        Some(k) => if k.as_str().unicode_len() > 0 {
            Ok(k)
        } else {
            Err(TmdbError::MissingApiKey)
        },
        None => Err(TmdbError::MissingApiKey),
    }
}

pub open spec fn image_base() -> Seq<char> {
    "https://image.tmdb.org/t/p"@
}

pub open spec fn api_base() -> Seq<char> {
    "https://api.themoviedb.org/3"@
}

/// The full address of an image at `path` in the given size preset.
pub fn get_image_url(path: &Option<String>, size: &str) -> (r: Option<String>)
    ensures
        opt_view(r) == match *path {
            Some(p) => Some(image_base() + "/"@ + size@ + p@),
            None => None,
        },
{
    match path {
        Some(p) => {
            let mut u = String::from_str("https://image.tmdb.org/t/p");
            u.append("/");
            u.append(size);
            u.append(p.as_str());
            Some(u)
        },
        None => None,
    }
}

/// The character of decimal digit `d`.
pub open spec fn digit_char(d: int) -> char {
    "0123456789"@[d]
}

/// The decimal digits of `n`.
pub open spec fn digits(n: nat) -> Seq<char>
    decreases n,
{
    if n < 10 {
        seq![digit_char(n as int)]
    } else {
        digits(n / 10) + seq![digit_char((n % 10) as int)]
    }
}

/// `n` in decimal, with a leading `-` when negative.
pub open spec fn decimal(n: int) -> Seq<char> {
    if n < 0 {
        "-"@ + digits((-n) as nat)
    } else {
        digits(n as nat)
    }
}

fn append_digits(out: &mut String, m: u64)
    ensures
        final(out)@ == old(out)@ + digits(m as nat),
    decreases m,
{
    proof {
        reveal_strlit("0123456789");
    }
    if m >= 10 {
        append_digits(out, m / 10);
    }
    let d = (m % 10) as usize;
    let c = "0123456789".substring_char(d, d + 1);
    assert(c@ =~= seq![digit_char(d as int)]);
    out.append(c);
}

/// Append `n` in decimal to `out`.
fn append_decimal(out: &mut String, n: i64)
    ensures
        final(out)@ == old(out)@ + decimal(n as int),
{
    if n < 0 {
        proof {
            reveal_strlit("-");
        }
        out.append("-");
        let m: u64 = (-(n as i128)) as u64;
        append_digits(out, m);
        assert(final(out)@ =~= old(out)@ + decimal(n as int));
    } else {
        append_digits(out, n as u64);
    }
}

/// An ASCII letter or digit, or one of `-`, `_`, `.`, `~`.
pub open spec fn is_unreserved(c: char) -> bool {
    ('a' <= c && c <= 'z') || ('A' <= c && c <= 'Z') || ('0' <= c && c <= '9') || c == '-' || c
        == '_' || c == '.' || c == '~'
}

/// The percent-encoding of the UTF-8 bytes of `s`.
pub uninterp spec fn url_encoded(s: Seq<char>) -> Seq<char>;

/// Relies on `urlencoding::encode`: it percent-encodes every UTF-8 byte of
/// the text except ASCII letters, digits and `-`, `_`, `.`, `~`, so text made
/// only of those comes back unchanged.
#[verifier::external_body]
fn url_encode(s: &str) -> (r: String)
    ensures
        r@ == url_encoded(s@),
        (forall|i: int| 0 <= i < s@.len() ==> is_unreserved(#[trigger] s@[i])) ==> r@ == s@,
{
    urlencoding::encode(s).into_owned()
}

/// The address of a title search, narrowed by year where one is given.
pub open spec fn search_url(api_key: Seq<char>, title: Seq<char>, year: Option<i32>) -> Seq<char> {
    let base = api_base() + "/search/movie?api_key="@ + api_key + "&query="@ + url_encoded(title)
        + "&include_adult=false&language=en-US"@;
    match year {
        Some(y) => base + "&year="@ + decimal(y as int),
        None => base,
    }
}

/// The address of a title search, narrowed by year where one is given;
/// adult titles are excluded and English is asked for.
pub fn search_movie_url(api_key: &str, title: &str, year: Option<i32>) -> (r: String)
    ensures
        r@ == search_url(api_key@, title@, year),
{
    let mut u = String::from_str("https://api.themoviedb.org/3");
    u.append("/search/movie?api_key=");
    u.append(api_key);
    u.append("&query=");
    let q = url_encode(title);
    u.append(q.as_str());
    u.append("&include_adult=false&language=en-US");
    if let Some(y) = year {
        u.append("&year=");
        append_decimal(&mut u, y as i64);
    }
    u
}

/// The address of one movie's details, with its credits and videos.
pub open spec fn details_url(api_key: Seq<char>, id: i64) -> Seq<char> {
    api_base() + "/movie/"@ + decimal(id as int) + "?api_key="@ + api_key
        + "&append_to_response=credits,videos&language=en-US"@
}

/// The address of one movie's details; credits and videos come in the same
/// response.
pub fn movie_details_url(api_key: &str, id: i64) -> (r: String)
    ensures
        r@ == details_url(api_key@, id),
{
    let mut u = String::from_str("https://api.themoviedb.org/3");
    u.append("/movie/");
    append_decimal(&mut u, id);
    u.append("?api_key=");
    u.append(api_key);
    u.append("&append_to_response=credits,videos&language=en-US");
    u
}

/// How long a cached record stays fresh, in seconds: 30 days.
pub const CACHE_TTL_SECS: i64 = 2592000;

/// A record fetched at `fetched_at` is still fresh at `now` (both in seconds).
pub open spec fn fresh(fetched_at: i64, now: i64) -> bool {
    (now as int - fetched_at as int) < 30 * 24 * 60 * 60
}

pub fn is_fresh(fetched_at: i64, now: i64) -> (r: bool)
    ensures
        r == fresh(fetched_at, now),
{
    (now as i128) - (fetched_at as i128) < CACHE_TTL_SECS as i128
}

/// The id of the first (most relevant) search result.
pub fn first_result_id(results: &Vec<TmdbSearchResult>) -> (r: Option<i64>)
    ensures
        r == if results@.len() > 0 {
            Some(results@[0].id)
        } else {
            None
        },
{
    if results.len() > 0 {
        Some(results[0].id)
    } else {
        None
    }
}

} // verus!

verus! {

/// The contents of an optional list.
pub open spec fn opt_seq<T>(o: Option<Vec<T>>) -> Option<Seq<T>> {
    match o {
        Some(v) => Some(v@),
        None => None,
    }
}

/// Index of the first crew member at or after `i` whose job is exactly "Director".
pub open spec fn first_director(crew: Seq<CrewMember>, i: int) -> Option<int>
    decreases crew.len() - i,
{
    if i < 0 || i >= crew.len() {
        None
    } else if crew[i].job@ == "Director"@ {
        Some(i)
    } else {
        first_director(crew, i + 1)
    }
}

/// The name of the movie's director: the first crew member whose job is "Director".
pub open spec fn director_of(d: TmdbMovieDetails) -> Option<Seq<char>> {
    match d.credits {
        Some(c) => match c.crew {
            Some(crew) => match first_director(crew@, 0) {
                Some(i) => Some(crew@[i].name@),
                None => None,
            },
            None => None,
        },
        None => None,
    }
}

/// The movie's cast, in the database's order.
pub open spec fn cast_of(d: TmdbMovieDetails) -> Option<Seq<CastMember>> {
    match d.credits {
        Some(c) => opt_seq(c.cast),
        None => None,
    }
}

/// The first ten members of a cast.
pub open spec fn top_ten(s: Seq<CastMember>) -> Seq<CastMember> {
    if s.len() > 10 {
        s.subrange(0, 10)
    } else {
        s
    }
}

/// The first ten members of the movie's cast.
pub open spec fn top_cast(d: TmdbMovieDetails) -> Option<Seq<CastMember>> {
    match cast_of(d) {
        Some(s) => Some(top_ten(s)),
        None => None,
    }
}

pub open spec fn is_youtube(v: Video) -> bool {
    v.site@ == "YouTube"@
}

/// A YouTube video typed "Trailer" and flagged official.
pub open spec fn is_official_trailer(v: Video) -> bool {
    is_youtube(v) && v.video_type@ == "Trailer"@ && v.official == Some(true)
}

/// Index of the first video at or after `i` that is an official YouTube
/// trailer, or with `official_only` false, any YouTube video.
pub open spec fn first_video(s: Seq<Video>, official_only: bool, i: int) -> Option<int>
    decreases s.len() - i,
{
    if i < 0 || i >= s.len() {
        None
    } else if (if official_only {
        is_official_trailer(s[i])
    } else {
        is_youtube(s[i])
    }) {
        Some(i)
    } else {
        first_video(s, official_only, i + 1)
    }
}

/// Index of the trailer chosen among `s`: the first official YouTube
/// trailer, else the first YouTube video.
pub open spec fn trailer_index(s: Seq<Video>) -> Option<int> {
    match first_video(s, true, 0) {
        Some(i) => Some(i),
        None => first_video(s, false, 0),
    }
}

/// The movie's chosen trailer.
pub open spec fn trailer_of(d: TmdbMovieDetails) -> Option<Video> {
    match d.videos {
        Some(vs) => match vs.results {
            Some(r) => match trailer_index(r@) {
                Some(i) => Some(r@[i]),
                None => None,
            },
            None => None,
        },
        None => None,
    }
}

/// The key of the movie's chosen trailer.
pub open spec fn trailer_key_of(d: TmdbMovieDetails) -> Option<Seq<char>> {
    match trailer_of(d) {
        Some(v) => Some(v.key@),
        None => None,
    }
}

/// `row` is the cached projection of `d` fetched at `now`.
pub open spec fn caches(d: TmdbMovieDetails, now: i64, row: TmdbCachedMovie) -> bool {
    &&& row.tmdb_id == d.id
    &&& row.imdb_id == d.imdb_id
    &&& row.title == d.title
    &&& row.original_title == d.original_title
    &&& row.tagline == d.tagline
    &&& row.overview == d.overview
    &&& row.release_date == d.release_date
    &&& row.runtime == d.runtime
    &&& row.vote_average_bits == d.vote_average_bits
    &&& row.vote_count == d.vote_count
    &&& row.popularity_bits == d.popularity_bits
    &&& row.poster_path == d.poster_path
    &&& row.backdrop_path == d.backdrop_path
    &&& opt_seq(row.genres) == opt_seq(d.genres)
    &&& opt_seq(row.cast) == top_cast(d)
    &&& opt_view(row.director) == director_of(d)
    &&& match trailer_of(d) {
        Some(v) => row.trailer_key == Some(v.key) && row.trailer_site == Some(v.site),
        None => row.trailer_key is None && row.trailer_site is None,
    }
    &&& row.fetched_at == now
}

/// `crew` is the single synthetic director entry for `director`, if any.
pub open spec fn director_crew(crew: Option<Vec<CrewMember>>, director: Option<String>) -> bool {
    match director {
        Some(n) => crew is Some && crew->Some_0@.len() == 1 && crew->Some_0@[0].id == 0
            && crew->Some_0@[0].name == n && crew->Some_0@[0].job@ == "Director"@ && opt_view(
            crew->Some_0@[0].department,
        ) == Some("Directing"@) && crew->Some_0@[0].profile_path is None,
        None => crew is None,
    }
}

/// `videos` is the single synthetic trailer entry for `key` and `site`, if any.
pub open spec fn trailer_videos(videos: Option<Videos>, key: Option<String>, site: Option<String>) -> bool {
    match key {
        Some(k) => videos is Some && videos->Some_0.results is Some
            && videos->Some_0.results->Some_0@.len() == 1 && {
            let v = videos->Some_0.results->Some_0@[0];
            &&& v.key == k
            &&& v.site@ == match site {
                Some(s) => s@,
                None => "YouTube"@,
            }
            &&& v.id@ == "cached"@
            &&& v.name@ == "Trailer"@
            &&& v.video_type@ == "Trailer"@
            &&& v.official == Some(true)
        },
        None => videos is None,
    }
}

/// `d` is the details rebuilt from cached row `row`. Status, budget and
/// revenue are not cached and come back unknown.
pub open spec fn restores(row: TmdbCachedMovie, d: TmdbMovieDetails) -> bool {
    &&& d.id == row.tmdb_id
    &&& d.imdb_id == row.imdb_id
    &&& d.title == row.title
    &&& d.original_title == row.original_title
    &&& d.tagline == row.tagline
    &&& d.overview == row.overview
    &&& d.release_date == row.release_date
    &&& d.runtime == row.runtime
    &&& d.vote_average_bits == row.vote_average_bits
    &&& d.vote_count == row.vote_count
    &&& d.popularity_bits == row.popularity_bits
    &&& d.poster_path == row.poster_path
    &&& d.backdrop_path == row.backdrop_path
    &&& opt_seq(d.genres) == opt_seq(row.genres)
    &&& d.status is None
    &&& d.budget is None
    &&& d.revenue is None
    &&& if row.cast is None && row.director is None {
        d.credits is None
    } else {
        d.credits is Some && opt_seq(d.credits->Some_0.cast) == opt_seq(row.cast) && director_crew(
            d.credits->Some_0.crew,
            row.director,
        )
    }
    &&& trailer_videos(d.videos, row.trailer_key, row.trailer_site)
}

/// Rebuild movie details from a cached row: the cast and genre lists come
/// back as stored, the director as a single crew entry, the trailer as a
/// single video entry; status, budget and revenue are unknown.
pub fn cached_to_details(cached: TmdbCachedMovie) -> (r: TmdbMovieDetails)
    ensures
        restores(cached, r),
{
    let TmdbCachedMovie {
        tmdb_id,
        imdb_id,
        title,
        original_title,
        tagline,
        overview,
        release_date,
        runtime,
        vote_average_bits,
        vote_count,
        popularity_bits,
        poster_path,
        backdrop_path,
        genres,
        cast,
        director,
        trailer_key,
        trailer_site,
        fetched_at: _,
    } = cached;
    let credits = if cast.is_some() || director.is_some() {
        let crew = match director {
            Some(d) => Some(
                vec![
                    CrewMember {
                        id: 0,
                        name: d,
                        job: String::from_str("Director"),
                        department: Some(String::from_str("Directing")),
                        profile_path: None,
                    },
                ],
            ),
            None => None,
        };
        Some(Credits { cast, crew })
    } else {
        None
    };
    let videos = match trailer_key {
        Some(key) => {
            let site = match trailer_site {
                Some(s) => s,
                None => String::from_str("YouTube"),
            };
            Some(
                Videos {
                    results: Some(
                        vec![
                            Video {
                                id: String::from_str("cached"),
                                key,
                                name: String::from_str("Trailer"),
                                video_type: String::from_str("Trailer"),
                                site,
                                official: Some(true),
                            },
                        ],
                    ),
                },
            )
        },
        None => None,
    };
    TmdbMovieDetails {
        id: tmdb_id,
        title,
        original_title,
        tagline,
        overview,
        release_date,
        runtime,
        vote_average_bits,
        vote_count,
        popularity_bits,
        poster_path,
        backdrop_path,
        genres,
        imdb_id,
        status: None,
        budget: None,
        revenue: None,
        credits,
        videos,
    }
}

} // verus!

verus! {

fn copy_opt_string(o: &Option<String>) -> (r: Option<String>)
    ensures
        r == *o,
{
    match o {
        Some(s) => Some(s.clone()),
        None => None,
    }
}

fn copy_genres(v: &Vec<Genre>) -> (r: Vec<Genre>)
    ensures
        r@ == v@,
{
    let mut r: Vec<Genre> = Vec::new();
    let mut i: usize = 0;
    while i < v.len()
        invariant
            i <= v@.len(),
            r@ == v@.subrange(0, i as int),
        decreases v@.len() - i,
    {
        r.push(Genre { id: v[i].id, name: v[i].name.clone() });
        assert(r@ =~= v@.subrange(0, i + 1));
        i = i + 1;
    }
    assert(v@.subrange(0, v@.len() as int) =~= v@);
    r
}

fn copy_top_cast(v: &Vec<CastMember>) -> (r: Vec<CastMember>)
    ensures
        r@ == top_ten(v@),
{
    let n: usize = if v.len() > 10 {
        10
    } else {
        v.len()
    };
    let mut r: Vec<CastMember> = Vec::new();
    let mut i: usize = 0;
    while i < n
        invariant
            n <= v@.len(),
            n == if v@.len() > 10 {
                10
            } else {
                v@.len()
            },
            i <= n,
            r@ == v@.subrange(0, i as int),
        decreases n - i,
    {
        let c = &v[i];
        r.push(
            CastMember {
                id: c.id,
                name: c.name.clone(),
                character: copy_opt_string(&c.character),
                profile_path: copy_opt_string(&c.profile_path),
                order: c.order,
            },
        );
        assert(r@ =~= v@.subrange(0, i + 1));
        i = i + 1;
    }
    assert(v@.subrange(0, v@.len() as int) =~= v@);
    r
}

fn find_director(details: &TmdbMovieDetails) -> (r: Option<String>)
    ensures
        opt_view(r) == director_of(*details),
{
    match &details.credits {
        Some(c) => match &c.crew {
            Some(crew) => {
                let mut i: usize = 0;
                while i < crew.len()
                    invariant
                        details.credits == Some(*c),
                        c.crew == Some(*crew),
                        i <= crew@.len(),
                        first_director(crew@, 0) == first_director(crew@, i as int),
                    decreases crew@.len() - i,
                {
                    if str_eq(crew[i].job.as_str(), "Director") {
                        return Some(crew[i].name.clone());
                    }
                    i = i + 1;
                }
                None
            },
            None => None,
        },
        None => None,
    }
}

fn first_video_exec(s: &Vec<Video>, official_only: bool) -> (r: Option<usize>)
    ensures
        match r {
            Some(i) => first_video(s@, official_only, 0) == Some(i as int) && i < s@.len(),
            None => first_video(s@, official_only, 0) is None,
        },
{
    let mut i: usize = 0;
    while i < s.len()
        invariant
            i <= s@.len(),
            first_video(s@, official_only, 0) == first_video(s@, official_only, i as int),
        decreases s@.len() - i,
    {
        let v = &s[i];
        let youtube = str_eq(v.site.as_str(), "YouTube");
        let hit = if official_only {
            youtube && str_eq(v.video_type.as_str(), "Trailer") && match v.official {
                Some(b) => b,
                None => false,
            }
        } else {
            youtube
        };
        if hit {
            return Some(i);
        }
        i = i + 1;
    }
    None
}

fn find_trailer(details: &TmdbMovieDetails) -> (r: Option<(String, String)>)
    ensures
        match trailer_of(*details) {
            Some(v) => r == Some((v.key, v.site)),
            None => r is None,
        },
{
    match &details.videos {
        Some(vs) => match &vs.results {
            Some(res) => {
                let i = match first_video_exec(res, true) {
                    Some(i) => Some(i),
                    None => first_video_exec(res, false),
                };
                match i {
                    Some(i) => Some((res[i].key.clone(), res[i].site.clone())),
                    None => None,
                }
            },
            None => None,
        },
        None => None,
    }
}

/// The cached projection of `details`, fetched at `now` (seconds): the
/// director is the first crew member whose job is exactly "Director", at
/// most the first ten cast members are kept, and the trailer is the first
/// official YouTube trailer, else the first YouTube video.
pub fn cache_movie_details(details: &TmdbMovieDetails, now: i64) -> (r: TmdbCachedMovie)
    ensures
        caches(*details, now, r),
{
    let director = find_director(details);
    let cast = match &details.credits {
        Some(c) => match &c.cast {
            Some(v) => Some(copy_top_cast(v)),
            None => None,
        },
        None => None,
    };
    let genres = match &details.genres {
        Some(g) => Some(copy_genres(g)),
        None => None,
    };
    let (trailer_key, trailer_site) = match find_trailer(details) {
        Some((k, s)) => (Some(k), Some(s)),
        None => (None, None),
    };
    TmdbCachedMovie {
        tmdb_id: details.id,
        imdb_id: copy_opt_string(&details.imdb_id),
        title: details.title.clone(),
        original_title: copy_opt_string(&details.original_title),
        tagline: copy_opt_string(&details.tagline),
        overview: copy_opt_string(&details.overview),
        release_date: copy_opt_string(&details.release_date),
        runtime: details.runtime,
        vote_average_bits: details.vote_average_bits,
        vote_count: details.vote_count,
        popularity_bits: details.popularity_bits,
        poster_path: copy_opt_string(&details.poster_path),
        backdrop_path: copy_opt_string(&details.backdrop_path),
        genres,
        cast,
        director,
        trailer_key,
        trailer_site,
        fetched_at: now,
    }
}

proof fn lemma_first_video_hit(s: Seq<Video>, official_only: bool, i: int)
    ensures
        match first_video(s, official_only, i) {
            Some(j) => 0 <= j < s.len() && is_youtube(s[j]) && (official_only ==> is_official_trailer(s[j])),
            None => true,
        },
    decreases s.len() - i,
{
    if 0 <= i < s.len() && !(if official_only {
        is_official_trailer(s[i])
    } else {
        is_youtube(s[i])
    }) {
        lemma_first_video_hit(s, official_only, i + 1);
    }
}

/// Caching details and rebuilding them from the row gives back the title,
/// release date, genres, the first ten cast members, the director and the
/// trailer key; status, budget and revenue come back unknown.
pub proof fn lemma_cache_round_trip(d: TmdbMovieDetails, now: i64, row: TmdbCachedMovie, back: TmdbMovieDetails)
    requires
        caches(d, now, row),
        restores(row, back),
    ensures
        back.id == d.id,
        back.title == d.title,
        back.release_date == d.release_date,
        opt_seq(back.genres) == opt_seq(d.genres),
        cast_of(back) == top_cast(d),
        director_of(back) == director_of(d),
        trailer_key_of(back) == trailer_key_of(d),
        back.status is None,
        back.budget is None,
        back.revenue is None,
{
    if row.director is Some {
        let crew = back.credits->Some_0.crew->Some_0@;
        reveal_strlit("Director");
        assert(first_director(crew, 0) == Some(0int));
    }
    if row.trailer_key is Some {
        let vs = back.videos->Some_0.results->Some_0@;
        let dv = d.videos->Some_0.results->Some_0@;
        lemma_first_video_hit(dv, true, 0);
        lemma_first_video_hit(dv, false, 0);
        reveal_strlit("YouTube");
        reveal_strlit("Trailer");
        assert(first_video(vs, true, 0) == Some(0int));
    }
}

/// The next step of a cache-first lookup.
#[derive(Debug, Clone)]
pub enum Lookup {
    /// A fresh cached record answers the lookup; no request is needed.
    Cached(TmdbMovieDetails),
    /// The title must be searched at this address.
    Search(String),
}

/// The first step of looking up `title`: a fresh cached row for the exact
/// title is rebuilt and returned without any request; otherwise a search is
/// due, which needs a configured API key.
pub fn search_and_get_details(
    title: &str,
    year: Option<i32>,
    cached: Option<TmdbCachedMovie>,
    now: i64,
    api_key: Option<String>,
) -> (r: Result<Lookup, TmdbError>)
    ensures
        (cached is Some && fresh(cached->Some_0.fetched_at, now)) ==> (r is Ok && r->Ok_0 is Cached
            && restores(cached->Some_0, r->Ok_0->Cached_0)),
        !(cached is Some && fresh(cached->Some_0.fetched_at, now)) ==> if api_key is Some
            && api_key->Some_0@.len() > 0 {
            r is Ok && r->Ok_0 is Search && r->Ok_0->Search_0@ == search_url(
                api_key->Some_0@,
                title@,
                year,
            )
        } else {
            r is Err
        },
{
    if let Some(c) = cached {
        if is_fresh(c.fetched_at, now) {
            return Ok(Lookup::Cached(cached_to_details(c)));
        }
    }
    match get_api_key(api_key) {
        Ok(k) => Ok(Lookup::Search(search_movie_url(k.as_str(), title, year))),
        Err(e) => Err(e),
    }
}

} // verus!
