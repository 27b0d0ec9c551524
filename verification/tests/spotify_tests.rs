use steve::spotify::{
    after_refresh, search_step, SearchOutcome, SearchStep,
    error_title, no_results_message, parse_query_type, playlist_result, refresh_failed_message,
    results_title, should_refresh_token, song_result, QueryType,
};

#[test]
fn playlist_result_lists_names_and_owners() {
    let items = vec![("Chill".to_string(), Some("Ann".to_string())), ("Rock".to_string(), None)];
    let r = playlist_result(&items);
    assert_eq!(r.tp, QueryType::Playlist);
    assert_eq!(r.result, "Chill by Ann\nRock\n");
    assert_eq!(playlist_result(&vec![]).result, "");
}

#[test]
fn song_result_names_first_artist() {
    let items = vec![("Song".to_string(), vec!["Art".to_string(), "Other".to_string()])];
    let r = song_result(&items);
    assert_eq!(r.tp, QueryType::Song);
    assert_eq!(r.result, "Song by Art\n");
}

#[test]
fn messages() {
    assert_eq!(no_results_message(&QueryType::Playlist, "q"), "No playlists found: q");
    assert_eq!(no_results_message(&QueryType::Song, "q"), "No Song found: q");
    assert_eq!(refresh_failed_message("q"), "Failed to refresh token: q");
    assert_eq!(results_title(&QueryType::Playlist, "q"), "Playlists for \"q\" found: ");
    assert_eq!(results_title(&QueryType::Song, "q"), "Songs for \"q\" found: ");
    assert_eq!(error_title("boom"), "Error: boom");
}

#[test]
fn refresh_only_on_first_unauthorized() {
    assert!(should_refresh_token(true, Some(401)));
    assert!(!should_refresh_token(false, Some(401)));
    assert!(!should_refresh_token(true, Some(500)));
    assert!(!should_refresh_token(true, None));
}

#[test]
fn parse_query_type_cases() {
    assert_eq!(parse_query_type("p").ok(), Some(QueryType::Playlist));
    assert_eq!(parse_query_type("s").ok(), Some(QueryType::Song));
    assert_eq!(parse_query_type("x").err(), Some("Invalid query type: x".to_string()));
    assert_eq!(parse_query_type("playlist").ok(), Some(QueryType::Playlist));
    assert_eq!(parse_query_type("song").ok(), Some(QueryType::Song));
    assert_eq!(parse_query_type("pl").err(), Some("Invalid query type: pl".to_string()));
    assert_eq!(parse_query_type("songs").err(), Some("Invalid query type: songs".to_string()));
    assert_eq!(parse_query_type("").err(), Some("Invalid query type: ".to_string()));
}

#[test]
fn search_step_cases() {
    assert!(matches!(search_step(&QueryType::Playlist, "q", &SearchOutcome::Found, true), SearchStep::Report));
    assert!(matches!(
        search_step(&QueryType::Song, "q", &SearchOutcome::Failed(Some(401)), true),
        SearchStep::RefreshToken
    ));
    match search_step(&QueryType::Song, "q", &SearchOutcome::Failed(Some(401)), false) {
        SearchStep::Fail(m) => assert_eq!(m, "No Song found: q"),
        other => panic!("unexpected {:?}", other),
    }
    match search_step(&QueryType::Playlist, "q", &SearchOutcome::OtherKind, true) {
        SearchStep::Fail(m) => assert_eq!(m, "No playlists found: q"),
        other => panic!("unexpected {:?}", other),
    }
    match search_step(&QueryType::Playlist, "q", &SearchOutcome::Failed(None), true) {
        SearchStep::Fail(m) => assert_eq!(m, "No playlists found: q"),
        other => panic!("unexpected {:?}", other),
    }
}

#[test]
fn after_refresh_cases() {
    let retry = after_refresh("q", true).unwrap();
    assert_eq!(retry.query, "q");
    assert!(!retry.attempt);
    assert_eq!(after_refresh("q", false).err(), Some("Failed to refresh token: q".to_string()));
}
