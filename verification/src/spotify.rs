//! Spotify search: what kind of search a command asks for, the text made
//! from the results, and when a failed search is tried again.

use vstd::prelude::*;
use vstd::string::*;

verus! {

broadcast use vstd::string::group_string_axioms;

/// What a search looks for.
#[derive(Debug, Clone, Copy, PartialEq, Eq, Structural)]
pub enum QueryType {
    Playlist,
    Song,
}

/// The text of a search's results and what was searched for.
#[derive(Debug)]
pub struct QueryResult {
    pub result: String,
    pub tp: QueryType,
}

/// One result line: the name, then ` by ` and the author when known.
pub open spec fn result_line(name: Seq<char>, by: Option<Seq<char>>) -> Seq<char> {
    match by {
        Some(b) => name + " by "@ + b + seq!['\n'],
        None => name + seq!['\n'],
    }
}

/// The lines of all playlists found, in order.
pub open spec fn playlist_lines(items: Seq<(String, Option<String>)>) -> Seq<char>
    decreases items.len(),
{
    if items.len() == 0 {
        Seq::empty()
    } else {
        let last = items.last();
        playlist_lines(items.drop_last()) + result_line(
            last.0@,
            match last.1 {
                Some(o) => Some(o@),
                None => None,
            },
        )
    }
}

/// The lines of all songs found, each with its first artist, in order.
pub open spec fn song_lines(items: Seq<(String, Vec<String>)>) -> Seq<char>
    decreases items.len(),
{
    if items.len() == 0 {
        Seq::empty()
    } else {
        let last = items.last();
        song_lines(items.drop_last()) + result_line(last.0@, Some(last.1@[0]@))
    }
}

/// The reply to a playlist search: for each playlist found, its name and,
/// when the owner has a display name, ` by ` and that name.
pub fn playlist_result(items: &Vec<(String, Option<String>)>) -> (res: QueryResult)
    ensures
        res.tp is Playlist,
        res.result@ == playlist_lines(items@),
{
    let mut result = String::new();
    let mut i: usize = 0;
    while i < items.len()
        invariant
            i <= items@.len(),
            result@ == playlist_lines(items@.take(i as int)),
        decreases items@.len() - i,
    {
        proof {
            assert(items@.take(i + 1).drop_last() =~= items@.take(i as int));
            assert(items@.take(i + 1).last() == items@[i as int]);
        }
        let item = &items[i];
        result.append(item.0.as_str());
        match &item.1 {
            Some(owner) => {
                result.append(" by ");
                result.append(owner.as_str());
            },
            None => {},
        }
        result.push('\n');
        proof {
            let t = items@.take(i + 1);
            assert(result@ =~= playlist_lines(t.drop_last()) + result_line(
                t.last().0@,
                match t.last().1 {
                    Some(o) => Some(o@),
                    None => None,
                },
            ));
        }
        i = i + 1;
    }
    assert(items@.take(items@.len() as int) =~= items@);
    QueryResult { result, tp: QueryType::Playlist }
}

/// The reply to a song search: for each song found, its name, ` by ` and
/// its first artist. Every song must list an artist.
pub fn song_result(items: &Vec<(String, Vec<String>)>) -> (res: QueryResult)
    requires
        forall|i: int| 0 <= i < items@.len() ==> (#[trigger] items@[i]).1@.len() > 0,
    ensures
        res.tp is Song,
        res.result@ == song_lines(items@),
{
    let mut result = String::new();
    let mut i: usize = 0;
    while i < items.len()
        invariant
            i <= items@.len(),
            forall|k: int| 0 <= k < items@.len() ==> (#[trigger] items@[k]).1@.len() > 0,
            result@ == song_lines(items@.take(i as int)),
        decreases items@.len() - i,
    {
        proof {
            assert(items@.take(i + 1).drop_last() =~= items@.take(i as int));
            assert(items@.take(i + 1).last() == items@[i as int]);
        }
        let item = &items[i];
        assert(item.1@.len() > 0);
        result.append(item.0.as_str());
        result.append(" by ");
        result.append(item.1[0].as_str());
        result.push('\n');
        proof {
            let t = items@.take(i + 1);
            assert(result@ =~= song_lines(t.drop_last()) + result_line(t.last().0@, Some(t.last().1@[0]@)));
        }
        i = i + 1;
    }
    assert(items@.take(items@.len() as int) =~= items@);
    QueryResult { result, tp: QueryType::Song }
}

/// The message of a search that found nothing usable.
pub open spec fn no_results_text(tp: QueryType, query: Seq<char>) -> Seq<char> {
    match tp {
        QueryType::Playlist => "No playlists found: "@ + query,
        QueryType::Song => "No Song found: "@ + query,
    }
}

/// The message of a search that found nothing usable.
pub fn no_results_message(tp: &QueryType, query: &str) -> (res: String)
    ensures
        res@ == no_results_text(*tp, query@),
{
    let mut res = match tp {
        QueryType::Playlist => "No playlists found: ".to_owned(),
        QueryType::Song => "No Song found: ".to_owned(),
    };
    res.append(query);
    res
}

/// The message of a search whose expired token could not be renewed.
pub fn refresh_failed_message(query: &str) -> (res: String)
    ensures
        res@ == "Failed to refresh token: "@ + query@,
{
    let mut res = "Failed to refresh token: ".to_owned();
    res.append(query);
    res
}

/// HTTP status of a request whose token has expired.
pub const UNAUTHORIZED: u16 = 401;

/// Whether a failed search renews the token and searches once more: only
/// on its first attempt, and only when Spotify answered with status 401.
pub fn should_refresh_token(attempt: bool, status: Option<u16>) -> (res: bool)
    ensures
        res == (attempt && status == Some(UNAUTHORIZED)),
{
    attempt && match status {
        Some(code) => code == UNAUTHORIZED,
        None => false,
    }
}

/// A type word asking for a playlist: `p` or `playlist`.
pub open spec fn playlist_word(w: Seq<char>) -> bool {
    w == seq!['p'] || w == seq!['p', 'l', 'a', 'y', 'l', 'i', 's', 't']
}

/// A type word asking for a song: `s` or `song`.
pub open spec fn song_word(w: Seq<char>) -> bool {
    w == seq!['s'] || w == seq!['s', 'o', 'n', 'g']
}

/// What a search command's type word asks for, as its usage
/// `p(laylist) | s(ong)` writes it: `p` or `playlist` a playlist, `s` or
/// `song` a song; anything else is refused with a message naming it.
pub fn parse_query_type(tp: &str) -> (res: Result<QueryType, String>)
    ensures
        playlist_word(tp@) ==> res matches Ok(QueryType::Playlist),
        song_word(tp@) ==> res matches Ok(QueryType::Song),
        !playlist_word(tp@) && !song_word(tp@) ==> (res matches Err(e) && e@ == "Invalid query type: "@ + tp@),
{
    proof {
        reveal_strlit("p");
        reveal_strlit("playlist");
        reveal_strlit("s");
        reveal_strlit("song");
        assert("p"@ =~= seq!['p']);
        assert("playlist"@ =~= seq!['p', 'l', 'a', 'y', 'l', 'i', 's', 't']);
        assert("s"@ =~= seq!['s']);
        assert("song"@ =~= seq!['s', 'o', 'n', 'g']);
        if playlist_word(tp@) {
            assert(tp@[0] == 'p');
            assert(!song_word(tp@)) by {
                if song_word(tp@) {
                    assert(tp@[0] == 's');
                }
            }
        }
    }
    let t = tp.to_owned();
    if t == "p".to_owned() || t == "playlist".to_owned() {
        Ok(QueryType::Playlist)
    } else if t == "s".to_owned() || t == "song".to_owned() {
        Ok(QueryType::Song)
    } else {
        let mut e = "Invalid query type: ".to_owned();
        e.append(tp);
        Err(e)
    }
}

/// The title of the reply listing what a search found.
pub fn results_title(tp: &QueryType, query: &str) -> (res: String)
    ensures
        res@ == match *tp {
            QueryType::Playlist => "Playlists for \""@ + query@ + "\" found: "@,
            QueryType::Song => "Songs for \""@ + query@ + "\" found: "@,
        },
{
    let mut res = match tp {
        QueryType::Playlist => "Playlists for \"".to_owned(),
        QueryType::Song => "Songs for \"".to_owned(),
    };
    res.append(query);
    res.append("\" found: ");
    res
}

/// The title of the reply to a failed search.
pub fn error_title(err: &str) -> (res: String)
    ensures
        res@ == "Error: "@ + err@,
{
    let mut res = "Error: ".to_owned();
    res.append(err);
    res
}

/// What a Spotify search request came back with.
#[derive(Debug, Clone, Copy, PartialEq, Eq, Structural)]
pub enum SearchOutcome {
    /// Results of the kind asked for.
    Found,
    /// Results of another kind.
    OtherKind,
    /// The request failed, with the HTTP status when the failure carried one.
    Failed(Option<u16>),
}

/// What a search does next with what its request came back with.
#[derive(Debug)]
pub enum SearchStep {
    /// Turn the results into the reply.
    Report,
    /// Renew the token, then search once more.
    RefreshToken,
    /// Give up with this message.
    Fail(String),
}

/// What a search of kind `tp` for `query` does with its request's outcome:
/// results of the kind asked for are reported; a failure with status 401 on
/// the first attempt renews the token; anything else gives up with the
/// no-results message.
pub fn search_step(tp: &QueryType, query: &str, outcome: &SearchOutcome, attempt: bool) -> (res: SearchStep)
    ensures
        *outcome is Found ==> res is Report,
        needs_refresh(*outcome, attempt) ==> res is RefreshToken,
        !(*outcome is Found) && !needs_refresh(*outcome, attempt) ==> (res matches SearchStep::Fail(m)
            && m@ == no_results_text(*tp, query@)),
{
    match outcome {
        SearchOutcome::Found => SearchStep::Report,
        SearchOutcome::OtherKind => SearchStep::Fail(no_results_message(tp, query)),
        SearchOutcome::Failed(status) => {
            if should_refresh_token(attempt, *status) {
                SearchStep::RefreshToken
            } else {
                SearchStep::Fail(no_results_message(tp, query))
            }
        },
    }
}

/// The search to run again once the token is renewed.
#[derive(Debug)]
pub struct SearchRetry {
    pub query: String,
    pub attempt: bool,
}

/// A search asks for a renewed token on this outcome and attempt.
pub open spec fn needs_refresh(outcome: SearchOutcome, attempt: bool) -> bool {
    outcome matches SearchOutcome::Failed(status) && attempt && status == Some(UNAUTHORIZED)
}

/// What a search does once it has tried to renew its token: when renewed,
/// search again for the same query as its last attempt; else give up
/// naming the query.
pub fn after_refresh(query: &str, renewed: bool) -> (res: Result<SearchRetry, String>)
    ensures
        renewed ==> (res matches Ok(r) && r.query@ == query@ && !r.attempt),
        !renewed ==> (res matches Err(m) && m@ == "Failed to refresh token: "@ + query@),
{
    if renewed {
        Ok(SearchRetry { query: query.to_owned(), attempt: false })
    } else {
        Err(refresh_failed_message(query))
    }
}

/// A search runs at most twice: its retry is a last attempt, and a last
/// attempt never asks for a renewed token whatever it comes back with.
pub proof fn law_search_runs_at_most_twice(outcome: SearchOutcome)
    ensures
        !needs_refresh(outcome, false),
{
}

/// The reply to a song search lists the songs one line each, in the order
/// found: the lines for two runs of results are the lines of the first run
/// followed by those of the second, and a single song gives the one line
/// `name by first-artist` and a newline.
pub proof fn law_song_lines_one_per_song(
    a: Seq<(String, Vec<String>)>,
    b: Seq<(String, Vec<String>)>,
    x: (String, Vec<String>),
)
    ensures
        song_lines(a + b) == song_lines(a) + song_lines(b),
        x.1@.len() > 0 ==> song_lines(seq![x]) == x.0@ + " by "@ + x.1@[0]@ + seq!['\n'],
    decreases b.len(),
{
    if b.len() == 0 {
        assert(a + b =~= a);
        assert(song_lines(a) + song_lines(b) =~= song_lines(a));
    } else {
        law_song_lines_one_per_song(a, b.drop_last(), x);
        assert((a + b).drop_last() =~= a + b.drop_last());
        assert((a + b).last() == b.last());
        let l = result_line(b.last().0@, Some(b.last().1@[0]@));
        assert(song_lines(a) + song_lines(b.drop_last()) + l =~= song_lines(a) + (song_lines(b.drop_last()) + l));
    }
    assert(seq![x].drop_last() =~= Seq::<(String, Vec<String>)>::empty());
    assert(song_lines(Seq::<(String, Vec<String>)>::empty()) == Seq::<char>::empty());
    assert(song_lines(seq![x]) =~= x.0@ + " by "@ + x.1@[0]@ + seq!['\n']);
}

/// The reply to a playlist search lists the playlists one line each, in
/// the order found: lines of two runs concatenate, and a single playlist
/// gives its name, ` by ` and the owner when known, and a newline.
pub proof fn law_playlist_lines_one_per_playlist(
    a: Seq<(String, Option<String>)>,
    b: Seq<(String, Option<String>)>,
    x: (String, Option<String>),
)
    ensures
        playlist_lines(a + b) == playlist_lines(a) + playlist_lines(b),
        x.1 is None ==> playlist_lines(seq![x]) == x.0@ + seq!['\n'],
        x.1 matches Some(o) ==> playlist_lines(seq![x]) == x.0@ + " by "@ + o@ + seq!['\n'],
    decreases b.len(),
{
    if b.len() == 0 {
        assert(a + b =~= a);
        assert(playlist_lines(a) + playlist_lines(b) =~= playlist_lines(a));
    } else {
        law_playlist_lines_one_per_playlist(a, b.drop_last(), x);
        assert((a + b).drop_last() =~= a + b.drop_last());
        assert((a + b).last() == b.last());
        let l = result_line(b.last().0@, match b.last().1 { Some(o) => Some(o@), None => None });
        assert(playlist_lines(a) + playlist_lines(b.drop_last()) + l =~= playlist_lines(a) + (playlist_lines(b.drop_last()) + l));
    }
    assert(seq![x].drop_last() =~= Seq::<(String, Option<String>)>::empty());
    assert(playlist_lines(Seq::<(String, Option<String>)>::empty()) == Seq::<char>::empty());
    assert(playlist_lines(seq![x]) =~= result_line(x.0@, match x.1 { Some(o) => Some(o@), None => None }));
    match x.1 {
        Some(o) => assert(playlist_lines(seq![x]) =~= x.0@ + " by "@ + o@ + seq!['\n']),
        None => assert(playlist_lines(seq![x]) =~= x.0@ + seq!['\n']),
    }
}

} // verus!
