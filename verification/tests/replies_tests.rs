use steve::commands::{QueueCommand, QueuePlan, VoiceCommand, VoicePlan, PlayReply};
use steve::replies::{
    choice_buttons, failed_text, list_reply, play_report, prefix_changed_reply, prefix_refusal_text,
    queue_done, queue_refusal, search_results_reply, spotify_reply, status_failure_text, status_reply,
    unknown_command_reply, voice_reply, PrefixRefusal, ReplyColour, StatusFailure,
};
use steve::spotify::{QueryResult, QueryType};

#[test]
fn queue_refusals() {
    let r = queue_refusal(&QueuePlan::NotInChannel);
    assert_eq!(r.title, "Banana");
    assert_eq!(r.description.as_deref(), Some("Steve not in channel"));
    assert_eq!(r.colour, ReplyColour::Red);
    let r = queue_refusal(&QueuePlan::QueueEmpty);
    assert_eq!(r.title, "Uh oh :)");
    assert_eq!(r.description.as_deref(), Some("Queue is empty"));
}

#[test]
fn queue_done_replies() {
    let r = queue_done(&QueueCommand::Skip);
    assert_eq!((r.title.as_str(), r.description.as_deref()), ("Steve skip :)", Some("Skipped:")));
    assert_eq!(r.colour, ReplyColour::Teal);
    assert!(r.current_track_image);
    assert_eq!(queue_done(&QueueCommand::Pause).title, "Steve pause :)");
    assert_eq!(queue_done(&QueueCommand::Resume).description.as_deref(), Some("Gummybears"));
    assert_eq!(queue_done(&QueueCommand::Stop).title, "Steve is quiet");
}

#[test]
fn list_reply_has_listing() {
    let r = list_reply(&vec![Some("A".to_string())]);
    assert_eq!(r.title, "Steve content");
    assert_eq!(r.description, Some(format!("{:<2}:{:>100}\n", 1, "A")));
    assert!(!r.current_track_image);
}

#[test]
fn voice_replies() {
    let r = voice_reply(&VoiceCommand::Deafen, &VoicePlan::NotInChannel);
    assert_eq!(r.text, "Not in a voice channel");
    assert!(r.to_author);
    assert_eq!(voice_reply(&VoiceCommand::Unmute, &VoicePlan::NotInChannel).text, "Not in a voice channel to unmute in");
    assert_eq!(voice_reply(&VoiceCommand::Undeafen, &VoicePlan::NotInChannel).text, "Not in a voice channel to undeafen in");
    assert_eq!(voice_reply(&VoiceCommand::Deafen, &VoicePlan::AlreadyDone).text, "Already deafened");
    assert_eq!(voice_reply(&VoiceCommand::Mute, &VoicePlan::AlreadyDone).text, "Already muted");
    assert_eq!(voice_reply(&VoiceCommand::Mute, &VoicePlan::Apply).text, "Now muted");
    assert_eq!(voice_reply(&VoiceCommand::Deafen, &VoicePlan::Apply).text, "Deafened");
    assert_eq!(voice_reply(&VoiceCommand::Undeafen, &VoicePlan::Apply).text, "Undeafened");
    assert_eq!(voice_reply(&VoiceCommand::Unmute, &VoicePlan::Apply).text, "Unmuted");
    assert_eq!(failed_text("E"), "Failed: E");
}

#[test]
fn play_reports() {
    let r = play_report(&PlayReply::Queued).unwrap();
    assert_eq!(r.title, "Queued");
    assert_eq!(r.colour, ReplyColour::BlitzBlue);
    let r = play_report(&PlayReply::ResumeFailed).unwrap();
    assert_eq!(r.description.as_deref(), Some("Failed to resume"));
    assert_eq!(r.colour, ReplyColour::Red);
    assert_eq!(play_report(&PlayReply::Playing).unwrap().title, "Playing...");
    assert!(play_report(&PlayReply::Silent).is_none());
}

#[test]
fn search_listing_and_buttons() {
    let titles = vec!["A".to_string(), "A very long song title indeed".to_string()];
    let r = search_results_reply(&titles);
    assert_eq!(r.title, "Search results");
    assert_eq!(r.description.as_deref(), Some("1: A\n2: A very long song title indeed\n"));
    let b = choice_buttons(&titles);
    assert_eq!(b.len(), 2);
    assert_eq!((b[0].id, b[0].label.as_str()), (0, "A..."));
    assert_eq!((b[1].id, b[1].label.as_str()), (1, "A very long song ......"));
}

#[test]
fn spotify_replies() {
    let ok = Ok(QueryResult { result: "x\n".to_string(), tp: QueryType::Playlist });
    let r = spotify_reply(&ok, "q");
    assert_eq!(r.title, "Playlists for \"q\" found: ");
    assert_eq!(r.colour, ReplyColour::MeibePink);
    let ok = Ok(QueryResult { result: "y\n".to_string(), tp: QueryType::Song });
    let r = spotify_reply(&ok, "q");
    assert_eq!(r.title, "Songs for \"q\" found: ");
    assert_eq!(r.colour, ReplyColour::Magenta);
    assert_eq!(r.description.as_deref(), Some("y\n"));
    let r = spotify_reply(&Err("bad".to_string()), "q");
    assert_eq!(r.title, "Error: bad");
    assert_eq!(r.colour, ReplyColour::Red);
    assert!(r.description.is_none());
}

#[test]
fn status_replies() {
    assert_eq!(status_failure_text(StatusFailure::NoHandler), "Could not get handler");
    assert_eq!(status_failure_text(StatusFailure::NoTrackInfo), "Could not get info for track info");
    assert_eq!(status_failure_text(StatusFailure::NoMetadata), "No metadata");
    let r = status_reply(65, 120, "T", "th".to_string());
    assert_eq!(r.title, "1:5 min / 2:0 min - T");
    assert_eq!(r.thumbnail.as_deref(), Some("th"));
    assert_eq!(r.colour, ReplyColour::Magenta);
}

#[test]
fn prefix_and_unknown_replies() {
    assert_eq!(prefix_refusal_text(PrefixRefusal::Invalid), "Invalid prefix");
    assert_eq!(prefix_refusal_text(PrefixRefusal::NotInGuild), "This command can only be used in a guild");
    let r = prefix_changed_reply("$");
    assert_eq!(r.title, "Prefix Changed");
    assert_eq!(r.description.as_deref(), Some("Prefix changed to `$`"));
    assert_eq!(r.colour, ReplyColour::BlitzBlue);
    let r = unknown_command_reply("foo");
    assert_eq!(r.title, "foo, what are you trying to say?");
    assert_eq!(r.colour, ReplyColour::Red);
}
