use steve::commands::{PlayFailure, PlayRoute, MAX_QUERY};
use steve::play::{play_start, play_step, PlayAction, PlayEvent, PlayStage};

fn describe(a: &PlayAction) -> String {
    format!("{:?}", a)
}

#[test]
fn no_query_stops_at_once() {
    let s = play_start(PlayRoute::NoQuery, String::new());
    let (s, a) = play_step(s, PlayEvent::Begun);
    assert!(matches!(a, PlayAction::Fail(PlayFailure::NoQuery)));
    assert_eq!(s.stage, PlayStage::Done);
    let (_, a) = play_step(s, PlayEvent::Cleared);
    assert!(matches!(a, PlayAction::Finish));
}

#[test]
fn no_voice_channel_stops_before_join() {
    let s = play_start(PlayRoute::Direct, "https://x".to_string());
    let (s, a) = play_step(s, PlayEvent::Begun);
    assert!(matches!(a, PlayAction::ClearSearch));
    let (s, a) = play_step(s, PlayEvent::Cleared);
    assert!(matches!(a, PlayAction::FindVoice));
    let (s, a) = play_step(s, PlayEvent::VoiceChannel(false));
    assert!(matches!(a, PlayAction::Fail(PlayFailure::NotInVoiceChannel)));
    assert_eq!(s.stage, PlayStage::Done);
}

#[test]
fn direct_link_is_queued_then_reported() {
    let s = play_start(PlayRoute::Direct, "https://x".to_string());
    let (s, _) = play_step(s, PlayEvent::Begun);
    let (s, _) = play_step(s, PlayEvent::Cleared);
    let (s, a) = play_step(s, PlayEvent::VoiceChannel(true));
    assert!(matches!(a, PlayAction::Join));
    let (s, a) = play_step(s, PlayEvent::Handler(true));
    assert_eq!(describe(&a), describe(&PlayAction::Open("https://x".to_string())));
    let (s, a) = play_step(s, PlayEvent::Opened(true));
    assert!(matches!(a, PlayAction::Enqueue));
    let (_, a) = play_step(s, PlayEvent::Queued);
    assert!(matches!(a, PlayAction::Report));
}

#[test]
fn search_offers_then_opens_choice() {
    let s = play_start(PlayRoute::Search, "song".to_string());
    let (s, _) = play_step(s, PlayEvent::Begun);
    let (s, _) = play_step(s, PlayEvent::Cleared);
    let (s, _) = play_step(s, PlayEvent::VoiceChannel(true));
    let (s, a) = play_step(s, PlayEvent::Handler(true));
    match a {
        PlayAction::Search { query, count } => {
            assert_eq!(query, "song");
            assert_eq!(count, MAX_QUERY);
            assert_eq!(count, 5);
        }
        other => panic!("unexpected {:?}", other),
    }
    let (s, a) = play_step(s, PlayEvent::SearchOffered(vec!["u0".to_string(), "u1".to_string()]));
    assert!(matches!(a, PlayAction::ShowChoices));
    let (s2, a) = play_step(s, PlayEvent::Chosen(1));
    assert_eq!(describe(&a), describe(&PlayAction::Open("u1".to_string())));
    let (_, a) = play_step(s2, PlayEvent::Opened(false));
    assert!(matches!(a, PlayAction::Fail(PlayFailure::ChosenSourceFailed)));
}

#[test]
fn search_choice_cancel_and_timeout() {
    let mk = || {
        let s = play_start(PlayRoute::Search, "q".to_string());
        let (s, _) = play_step(s, PlayEvent::Begun);
        let (s, _) = play_step(s, PlayEvent::Cleared);
        let (s, _) = play_step(s, PlayEvent::VoiceChannel(true));
        let (s, _) = play_step(s, PlayEvent::Handler(true));
        let (s, _) = play_step(s, PlayEvent::SearchOffered(vec!["u0".to_string()]));
        s
    };
    let (_, a) = play_step(mk(), PlayEvent::Chosen(1));
    assert!(matches!(a, PlayAction::Cancel));
    let (_, a) = play_step(mk(), PlayEvent::ChoiceTimedOut);
    assert!(matches!(a, PlayAction::Fail(PlayFailure::NoChoice)));
}

#[test]
fn failed_search_goes_on_to_report() {
    let s = play_start(PlayRoute::Search, "q".to_string());
    let (s, _) = play_step(s, PlayEvent::Begun);
    let (s, _) = play_step(s, PlayEvent::Cleared);
    let (s, _) = play_step(s, PlayEvent::VoiceChannel(true));
    let (s, _) = play_step(s, PlayEvent::Handler(true));
    let (s, a) = play_step(s, PlayEvent::SearchFailed);
    assert!(matches!(a, PlayAction::Fail(PlayFailure::SearchFailed)));
    let (_, a) = play_step(s, PlayEvent::Shown);
    assert!(matches!(a, PlayAction::Report));
}

#[test]
fn playlist_entries_are_queued_in_order() {
    let s = play_start(PlayRoute::YoutubePlaylist, "https://youtube/playlist".to_string());
    let (s, _) = play_step(s, PlayEvent::Begun);
    let (s, _) = play_step(s, PlayEvent::Cleared);
    let (s, _) = play_step(s, PlayEvent::VoiceChannel(true));
    let (mut s, a) = play_step(s, PlayEvent::Handler(true));
    assert_eq!(describe(&a), describe(&PlayAction::ListPlaylist("https://youtube/playlist".to_string())));
    let links = vec!["a".to_string(), "b".to_string(), "c".to_string()];
    let (s2, mut a) = play_step(s, PlayEvent::ListedEntries(links.clone()));
    s = s2;
    let mut opened = Vec::new();
    loop {
        match a {
            PlayAction::Open(l) => {
                opened.push(l);
                let (s2, a2) = play_step(s, PlayEvent::Opened(true));
                assert!(matches!(a2, PlayAction::Enqueue));
                let (s3, a3) = play_step(s2, PlayEvent::Queued);
                s = s3;
                a = a3;
            }
            PlayAction::Report => break,
            other => panic!("unexpected {:?}", other),
        }
    }
    assert_eq!(opened, links);
}

#[test]
fn playlist_entry_failure_stops() {
    let s = play_start(PlayRoute::YoutubePlaylist, "p".to_string());
    let (s, _) = play_step(s, PlayEvent::Begun);
    let (s, _) = play_step(s, PlayEvent::Cleared);
    let (s, _) = play_step(s, PlayEvent::VoiceChannel(true));
    let (s, _) = play_step(s, PlayEvent::Handler(true));
    let (s, _) = play_step(s, PlayEvent::ListedEntries(vec!["a".to_string()]));
    let (s, a) = play_step(s, PlayEvent::Opened(false));
    assert!(matches!(a, PlayAction::Fail(PlayFailure::PlaylistEntryFailed)));
    assert_eq!(s.stage, PlayStage::Done);
}
