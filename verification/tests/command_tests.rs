use steve::commands::{
    play_failure_reply, PlayFailure,
    button_labels, check_prefix_arg, collect_search_results, find, format_queue_listing,
    format_search_listing, format_track_status, next_connection_attempt, plan_queue_command,
    plan_voice_command, play_reply, play_route, select_search_result, should_leave_channel,
    valid_prefix_list, voice_step, PlayReply, PlayRoute, QueueCommand, QueuePlan, VoiceCommand,
    VoiceFlags, VoicePlan,
};

#[test]
fn find_looks_for_exact_match() {
    assert!(find("!".to_string(), vec!["~", "!"]));
    assert!(!find("!!".to_string(), vec!["~", "!"]));
    assert!(!find("a".to_string(), vec![]));
}

#[test]
fn valid_prefix_list_has_seventeen() {
    let v = valid_prefix_list();
    assert_eq!(v.len(), 17);
    assert_eq!(v[8], "\\");
}

#[test]
fn check_prefix_arg_defaults_and_refuses() {
    assert_eq!(check_prefix_arg(None), Some("+".to_string()));
    assert_eq!(check_prefix_arg(Some("$".to_string())), Some("$".to_string()));
    assert_eq!(check_prefix_arg(Some("a".to_string())), None);
    assert_eq!(check_prefix_arg(Some("!!".to_string())), None);
}

#[test]
fn play_route_classifies_queries() {
    assert_eq!(play_route(""), PlayRoute::NoQuery);
    assert_eq!(play_route("never gonna give you up"), PlayRoute::Search);
    assert_eq!(play_route("https://www.youtube.com/playlist?list=PL1"), PlayRoute::YoutubePlaylist);
    assert_eq!(play_route("https://www.youtube.com/watch?v=dQw4w9WgXcQ"), PlayRoute::Direct);
    assert_eq!(play_route("http://example.com/playlist"), PlayRoute::Direct);
}

#[test]
fn collect_search_results_stops_at_missing_link() {
    let entries = vec![
        ("A".to_string(), Some("ua".to_string())),
        ("B".to_string(), None),
        ("C".to_string(), Some("uc".to_string())),
    ];
    let (urls, titles) = collect_search_results(&entries);
    assert_eq!(urls, vec!["ua".to_string()]);
    assert_eq!(titles, vec!["A".to_string(), "B".to_string()]);
    let entries = vec![("A".to_string(), Some("ua".to_string()))];
    let (urls, titles) = collect_search_results(&entries);
    assert_eq!(urls.len(), 1);
    assert_eq!(titles.len(), 1);
}

#[test]
fn search_listing_numbers_from_one() {
    let titles = vec!["A".to_string(), "B".to_string()];
    assert_eq!(format_search_listing(&titles), "1: A\n2: B\n");
    assert_eq!(format_search_listing(&vec![]), "");
}

#[test]
fn button_labels_append_dots() {
    let names = vec!["Short".to_string(), "A very long song title indeed".to_string()];
    assert_eq!(button_labels(&names), vec!["Short...".to_string(), "A very long song ......".to_string()]);
}

#[test]
fn select_search_result_cancel_and_pick() {
    let urls = vec!["a".to_string(), "b".to_string()];
    assert_eq!(select_search_result(&urls, 1), Some("b".to_string()));
    assert_eq!(select_search_result(&urls, 2), None);
}

#[test]
fn play_reply_cases() {
    assert_eq!(play_reply(false, false, true), PlayReply::Queued);
    assert_eq!(play_reply(true, false, false), PlayReply::ResumeFailed);
    assert_eq!(play_reply(true, true, false), PlayReply::Playing);
    assert_eq!(play_reply(true, true, true), PlayReply::Silent);
}

#[test]
fn queue_command_plans() {
    assert_eq!(plan_queue_command(&QueueCommand::Pause, false, false), QueuePlan::NotInChannel);
    assert_eq!(plan_queue_command(&QueueCommand::Pause, true, true), QueuePlan::QueueEmpty);
    assert_eq!(plan_queue_command(&QueueCommand::List, true, true), QueuePlan::QueueEmpty);
    assert_eq!(plan_queue_command(&QueueCommand::Stop, true, true), QueuePlan::Proceed);
    assert_eq!(plan_queue_command(&QueueCommand::Skip, true, false), QueuePlan::Proceed);
    assert_eq!(plan_queue_command(&QueueCommand::Resume, true, false), QueuePlan::Proceed);
}

#[test]
fn voice_command_plans() {
    assert_eq!(plan_voice_command(&VoiceCommand::Deafen, false, false), VoicePlan::NotInChannel);
    assert_eq!(plan_voice_command(&VoiceCommand::Deafen, true, true), VoicePlan::AlreadyDone);
    assert_eq!(plan_voice_command(&VoiceCommand::Mute, true, true), VoicePlan::AlreadyDone);
    assert_eq!(plan_voice_command(&VoiceCommand::Mute, true, false), VoicePlan::Apply);
    assert_eq!(plan_voice_command(&VoiceCommand::Undeafen, true, true), VoicePlan::Apply);
    assert_eq!(plan_voice_command(&VoiceCommand::Unmute, true, true), VoicePlan::Apply);
}

#[test]
fn queue_listing_matches_format_widths() {
    let titles: Vec<Option<String>> =
        vec!["One", "Two", "Three", "Four", "Five"].into_iter().map(|t| Some(t.to_string())).collect();
    let mut expected = String::new();
    for (i, t) in ["One", "Two", "Three", "Four"].iter().enumerate() {
        expected = format!("{}{:<2}:{:>100}\n", expected, i + 1, t);
    }
    assert_eq!(format_queue_listing(&titles), expected);
    let long = "x".repeat(120);
    assert_eq!(format_queue_listing(&vec![Some(long.clone()), None]), format!("{:<2}:{:>100}\n{}", 1, long, ""));
}

#[test]
fn queue_listing_stops_at_four_even_if_later_untitled() {
    let titles = vec![Some("a".to_string()), Some("b".to_string()), Some("c".to_string()), Some("d".to_string()), None];
    assert_eq!(format_queue_listing(&titles).lines().count(), 4);
}

#[test]
fn track_status_text() {
    assert_eq!(format_track_status(65, 3605, "Song"), "1:5 min / 60:5 min - Song");
    assert_eq!(format_track_status(0, 59, "x"), "0:0 min / 0:59 min - x");
}

#[test]
fn leave_only_when_alone() {
    assert!(should_leave_channel(&vec![7], 7));
    assert!(!should_leave_channel(&vec![8], 7));
    assert!(!should_leave_channel(&vec![7, 8], 7));
    assert!(!should_leave_channel(&vec![], 7));
}

#[test]
fn connection_retry_limit() {
    assert_eq!(next_connection_attempt(0), Some(1));
    assert_eq!(next_connection_attempt(4), Some(5));
    assert_eq!(next_connection_attempt(5), None);
    let mut tries = 0;
    let mut attempt = 0;
    while let Some(next) = next_connection_attempt(attempt) {
        tries += 1;
        attempt = next;
    }
    assert_eq!(tries, 5);
}

#[test]
fn play_failure_replies() {
    let r = play_failure_reply(PlayFailure::NoQuery);
    assert!(r.ends);
    assert_eq!(r.colour, steve::replies::ReplyColour::Red);
    assert!(r.clears_content && !r.clears_buttons);
    let t = play_failure_reply(PlayFailure::NoChoice);
    assert_eq!(t.colour, steve::replies::ReplyColour::Orange);
    assert!(t.clears_content && t.clears_buttons);
    let p = play_failure_reply(PlayFailure::PlaylistEntryFailed);
    assert!(!p.clears_content && !p.clears_buttons);
    let d = play_failure_reply(PlayFailure::SourceFailed);
    assert!(!d.clears_content && d.clears_buttons);
    assert_eq!(r.title.as_deref(), Some("Error"));
    assert_eq!(r.description.as_deref(), Some("No query provided"));
    let r = play_failure_reply(PlayFailure::NoChoice);
    assert_eq!(r.title.as_deref(), Some("Timeout"));
    assert_eq!(r.description.as_deref(), Some("Took too long"));
    let r = play_failure_reply(PlayFailure::SearchFailed);
    assert!(!r.ends);
    assert!(r.title.is_none() && r.description.is_none());
    let r = play_failure_reply(PlayFailure::NoSearchResults);
    assert!(r.ends && r.title.is_none());
    let r = play_failure_reply(PlayFailure::PlaylistDeadEnd);
    assert!(!r.ends);
    assert_eq!(r.description.as_deref(), Some("Uh oh dead en"));
    assert_eq!(play_failure_reply(PlayFailure::SourceFailed).description.as_deref(), Some("Errer sourcing ffmpeg"));
    assert_eq!(play_failure_reply(PlayFailure::ChosenSourceFailed).description.as_deref(), Some("Error sourcing ffmpeg"));
    assert_eq!(play_failure_reply(PlayFailure::BadChoice).description.as_deref(), Some("Failed parsing custom id"));
    assert_eq!(play_failure_reply(PlayFailure::NotInVoiceChannel).description.as_deref(), Some("Not in a voice channel"));
    assert_eq!(play_failure_reply(PlayFailure::NoHandler).description.as_deref(), Some("Not in a voice channel to play in"));
    assert_eq!(play_failure_reply(PlayFailure::PlaylistEntryFailed).description.as_deref(), Some("Errer not searchable"));
}

#[test]
fn voice_step_sets_and_reports_flags() {
    let quiet = VoiceFlags { deaf: false, mute: false };
    let (plan, set) = voice_step(&VoiceCommand::Deafen, Some(quiet));
    assert_eq!(plan, VoicePlan::Apply);
    let deaf = set.unwrap();
    assert_eq!(deaf, VoiceFlags { deaf: true, mute: false });
    assert_eq!(voice_step(&VoiceCommand::Deafen, Some(deaf)), (VoicePlan::AlreadyDone, None));
    let (plan, set) = voice_step(&VoiceCommand::Undeafen, Some(deaf));
    assert_eq!(plan, VoicePlan::Apply);
    assert_eq!(set, Some(quiet));
    let (_, set) = voice_step(&VoiceCommand::Mute, Some(deaf));
    let both = set.unwrap();
    assert_eq!(both, VoiceFlags { deaf: true, mute: true });
    assert_eq!(voice_step(&VoiceCommand::Mute, Some(both)), (VoicePlan::AlreadyDone, None));
    assert_eq!(voice_step(&VoiceCommand::Unmute, Some(both)).1, Some(deaf));
    assert_eq!(voice_step(&VoiceCommand::Unmute, None), (VoicePlan::NotInChannel, None));
}
