//! The replies the bot sends: their titles, texts, colours and pictures.

use vstd::prelude::*;
use vstd::string::*;
use crate::models::opt_view;
use crate::commands::{
    format_queue_listing, format_search_listing, queue_listing, listed_titles, search_listing,
    button_label, button_labels, format_track_status, clock, QueueCommand, QueuePlan,
    VoiceCommand, VoicePlan, PlayReply, LIST_LIMIT,
};
use crate::spotify::{results_title, error_title, QueryResult, QueryType};
use crate::text::views;

verus! {

broadcast use vstd::string::group_string_axioms;

/// The colour of an embedded reply.
#[derive(Debug, Clone, Copy, PartialEq, Eq, Structural)]
pub enum ReplyColour {
    Red,
    Orange,
    Teal,
    BlitzBlue,
    MeibePink,
    Magenta,
}

/// An embedded reply: a title, an optional text, a colour, and a picture:
/// the current track's thumbnail as image, or a given thumbnail.
#[derive(Debug)]
pub struct EmbedReply {
    pub title: String,
    pub description: Option<String>,
    pub colour: ReplyColour,
    pub current_track_image: bool,
    pub thumbnail: Option<String>,
}

/// A plain text reply, either addressed to the author or said in the channel.
#[derive(Debug)]
pub struct TextReply {
    pub text: String,
    pub to_author: bool,
}

/// `r` is the embed with this title, text and colour, showing the current
/// track's thumbnail when `image` holds, and no other thumbnail.
pub open spec fn embed_is(
    r: EmbedReply,
    title: Seq<char>,
    description: Option<Seq<char>>,
    colour: ReplyColour,
    image: bool,
) -> bool {
    &&& r.title@ == title
    &&& opt_view(r.description) == description
    &&& r.colour == colour
    &&& r.current_track_image == image
    &&& r.thumbnail is None
}

fn embed(title: &str, description: Option<&str>, colour: ReplyColour, image: bool) -> (r: EmbedReply)
    ensures
        embed_is(r, title@, match description { Some(d) => Some(d@), None => None }, colour, image),
{
    EmbedReply {
        title: title.to_owned(),
        description: match description {
            Some(d) => Some(d.to_owned()),
            None => None,
        },
        colour,
        current_track_image: image,
        thumbnail: None,
    }
}

fn text(t: &str, to_author: bool) -> (r: TextReply)
    ensures
        r.text@ == t@,
        r.to_author == to_author,
{
    TextReply { text: t.to_owned(), to_author }
}

/// The reply of a queue command that does not act: `Banana` when the bot is
/// in no voice channel, `Uh oh :)` when the queue is empty; both red.
pub fn queue_refusal(plan: &QueuePlan) -> (r: EmbedReply)
    requires
        !(*plan is Proceed),
    ensures
        *plan is NotInChannel ==> embed_is(r, "Banana"@, Some("Steve not in channel"@), ReplyColour::Red, false),
        *plan is QueueEmpty ==> embed_is(r, "Uh oh :)"@, Some("Queue is empty"@), ReplyColour::Red, false),
{
    match plan {
        QueuePlan::NotInChannel => embed("Banana", Some("Steve not in channel"), ReplyColour::Red, false),
        _ => embed("Uh oh :)", Some("Queue is empty"), ReplyColour::Red, false),
    }
}

/// The teal reply of a queue command that acted, showing the thumbnail of
/// the track that was current when the command came (for `skip`, the
/// skipped track).
pub fn queue_done(cmd: &QueueCommand) -> (r: EmbedReply)
    requires
        !(*cmd is List),
    ensures
        *cmd is Stop ==> embed_is(r, "Steve is quiet"@, Some("Steve shut up, but here was last song:"@), ReplyColour::Teal, true),
        *cmd is Pause ==> embed_is(r, "Steve pause :)"@, Some("Monkey pausing:"@), ReplyColour::Teal, true),
        *cmd is Skip ==> embed_is(r, "Steve skip :)"@, Some("Skipped:"@), ReplyColour::Teal, true),
        *cmd is Resume ==> embed_is(r, "Steve resume :)"@, Some("Gummybears"@), ReplyColour::Teal, true),
{
    match cmd {
        QueueCommand::Stop => embed("Steve is quiet", Some("Steve shut up, but here was last song:"), ReplyColour::Teal, true),
        QueueCommand::Pause => embed("Steve pause :)", Some("Monkey pausing:"), ReplyColour::Teal, true),
        QueueCommand::Skip => embed("Steve skip :)", Some("Skipped:"), ReplyColour::Teal, true),
        _ => embed("Steve resume :)", Some("Gummybears"), ReplyColour::Teal, true),
    }
}

/// The reply of `list`: `Steve content`, in teal, with the queue listing.
pub fn list_reply(titles: &Vec<Option<String>>) -> (r: EmbedReply)
    requires
        forall|i: int| 0 <= i < titles@.len() && i < LIST_LIMIT ==> (#[trigger] titles@[i]) is Some,
    ensures
        embed_is(r, "Steve content"@, Some(queue_listing(listed_titles(titles@))), ReplyColour::Teal, false),
{
    let listing = format_queue_listing(titles);
    EmbedReply {
        title: "Steve content".to_owned(),
        description: Some(listing),
        colour: ReplyColour::Teal,
        current_track_image: false,
        thumbnail: None,
    }
}

/// The text said when a voice or queue operation fails.
pub fn failed_text(err: &str) -> (r: String)
    ensures
        r@ == "Failed: "@ + err@,
{
    let mut r = "Failed: ".to_owned();
    r.append(err);
    r
}

/// The reply of a voice command: addressed to the author when the bot is in
/// no voice channel and the command deafens or mutes; said in the channel
/// otherwise.
pub fn voice_reply(cmd: &VoiceCommand, plan: &VoicePlan) -> (r: TextReply)
    ensures
        *plan is NotInChannel && (*cmd is Deafen || *cmd is Mute) ==> r.text@ == "Not in a voice channel"@ && r.to_author,
        *plan is NotInChannel && *cmd is Undeafen ==> r.text@ == "Not in a voice channel to undeafen in"@ && !r.to_author,
        *plan is NotInChannel && *cmd is Unmute ==> r.text@ == "Not in a voice channel to unmute in"@ && !r.to_author,
        *plan is AlreadyDone && *cmd is Deafen ==> r.text@ == "Already deafened"@ && !r.to_author,
        *plan is AlreadyDone && !(*cmd is Deafen) ==> r.text@ == "Already muted"@ && !r.to_author,
        *plan is Apply && *cmd is Deafen ==> r.text@ == "Deafened"@ && !r.to_author,
        *plan is Apply && *cmd is Undeafen ==> r.text@ == "Undeafened"@ && !r.to_author,
        *plan is Apply && *cmd is Mute ==> r.text@ == "Now muted"@ && !r.to_author,
        *plan is Apply && *cmd is Unmute ==> r.text@ == "Unmuted"@ && !r.to_author,
{
    match plan {
        VoicePlan::NotInChannel => match cmd {
            VoiceCommand::Undeafen => text("Not in a voice channel to undeafen in", false),
            VoiceCommand::Unmute => text("Not in a voice channel to unmute in", false),
            _ => text("Not in a voice channel", true),
        },
        VoicePlan::AlreadyDone => match cmd {
            VoiceCommand::Deafen => text("Already deafened", false),
            _ => text("Already muted", false),
        },
        VoicePlan::Apply => match cmd {
            VoiceCommand::Deafen => text("Deafened", false),
            VoiceCommand::Undeafen => text("Undeafened", false),
            VoiceCommand::Mute => text("Now muted", false),
            VoiceCommand::Unmute => text("Unmuted", false),
        },
    }
}

/// How `play` reports on its work, when it does: `Queued` and
/// `Playing...` in blitz blue, a failed resume as a red error.
pub fn play_report(r: &PlayReply) -> (res: Option<EmbedReply>)
    ensures
        *r is Queued ==> (res matches Some(e) && embed_is(e, "Queued"@, None, ReplyColour::BlitzBlue, false)),
        *r is ResumeFailed ==> (res matches Some(e) && embed_is(e, "Error"@, Some("Failed to resume"@), ReplyColour::Red, false)),
        *r is Playing ==> (res matches Some(e) && embed_is(e, "Playing..."@, None, ReplyColour::BlitzBlue, false)),
        *r is Silent ==> res is None,
{
    match r {
        PlayReply::Queued => Some(embed("Queued", None, ReplyColour::BlitzBlue, false)),
        PlayReply::ResumeFailed => Some(embed("Error", Some("Failed to resume"), ReplyColour::Red, false)),
        PlayReply::Playing => Some(embed("Playing...", None, ReplyColour::BlitzBlue, false)),
        PlayReply::Silent => None,
    }
}

/// The listing of a search: `Search results`, in blitz blue, with the
/// numbered titles.
pub fn search_results_reply(titles: &Vec<String>) -> (r: EmbedReply)
    ensures
        embed_is(r, "Search results"@, Some(search_listing(views(titles@))), ReplyColour::BlitzBlue, false),
{
    let listing = format_search_listing(titles);
    EmbedReply {
        title: "Search results".to_owned(),
        description: Some(listing),
        colour: ReplyColour::BlitzBlue,
        current_track_image: false,
        thumbnail: None,
    }
}

/// A button offering a search result: its label and the id it reports.
/// Every choice button has the success style.
#[derive(Debug)]
pub struct ChoiceButton {
    pub label: String,
    pub id: usize,
}

/// The buttons offering the search results: one per title, in order,
/// numbered from 0, labelled with the shortened title.
pub fn choice_buttons(names: &Vec<String>) -> (res: Vec<ChoiceButton>)
    ensures
        res@.len() == names@.len(),
        forall|i: int| 0 <= i < names@.len() ==> (#[trigger] res@[i]).id == i && res@[i].label@ == button_label(names@[i]@),
{
    let labels = button_labels(names);
    let mut res: Vec<ChoiceButton> = Vec::new();
    let mut i: usize = 0;
    while i < labels.len()
        invariant
            i <= labels@.len(),
            labels@.len() == names@.len(),
            forall|j: int| 0 <= j < names@.len() ==> (#[trigger] labels@[j])@ == button_label(names@[j]@),
            res@.len() == i,
            forall|j: int| 0 <= j < i ==> (#[trigger] res@[j]).id == j && res@[j].label@ == button_label(names@[j]@),
        decreases labels@.len() - i,
    {
        res.push(ChoiceButton { label: labels[i].clone(), id: i });
        i = i + 1;
    }
    res
}

/// The reply of the `spotify` command: the results, in meibe pink for
/// playlists and magenta for songs, or the error in red.
pub fn spotify_reply(res: &Result<QueryResult, String>, query: &str) -> (r: EmbedReply)
    ensures
        (*res matches Ok(q) && q.tp is Playlist) ==> (res matches Ok(q) && embed_is(
            r,
            "Playlists for \""@ + query@ + "\" found: "@,
            Some(q.result@),
            ReplyColour::MeibePink,
            false,
        )),
        (*res matches Ok(q) && q.tp is Song) ==> (res matches Ok(q) && embed_is(
            r,
            "Songs for \""@ + query@ + "\" found: "@,
            Some(q.result@),
            ReplyColour::Magenta,
            false,
        )),
        (*res matches Err(e)) ==> (res matches Err(e) && embed_is(r, "Error: "@ + e@, None, ReplyColour::Red, false)),
{
    match res {
        Ok(q) => EmbedReply {
            title: results_title(&q.tp, query),
            description: Some(q.result.clone()),
            colour: match q.tp {
                QueryType::Playlist => ReplyColour::MeibePink,
                QueryType::Song => ReplyColour::Magenta,
            },
            current_track_image: false,
            thumbnail: None,
        },
        Err(e) => EmbedReply {
            title: error_title(e.as_str()),
            description: None,
            colour: ReplyColour::Red,
            current_track_image: false,
            thumbnail: None,
        },
    }
}

/// Why `status` could not report.
#[derive(Debug, Clone, Copy, PartialEq, Eq, Structural)]
pub enum StatusFailure {
    NoHandler,
    NoTrackInfo,
    NoMetadata,
}

/// The text `status` says when it cannot report.
pub fn status_failure_text(f: StatusFailure) -> (r: String)
    ensures
        f is NoHandler ==> r@ == "Could not get handler"@,
        f is NoTrackInfo ==> r@ == "Could not get info for track info"@,
        f is NoMetadata ==> r@ == "No metadata"@,
{
    match f {
        StatusFailure::NoHandler => "Could not get handler".to_owned(),
        StatusFailure::NoTrackInfo => "Could not get info for track info".to_owned(),
        StatusFailure::NoMetadata => "No metadata".to_owned(),
    }
}

/// The reply of `status`: the track's position, length and title as its
/// title, its thumbnail, in magenta.
pub fn status_reply(position_secs: u64, duration_secs: u64, title: &str, thumbnail: String) -> (r: EmbedReply)
    ensures
        r.title@ == clock(position_secs as nat) + " min / "@ + clock(duration_secs as nat) + " min - "@ + title@,
        r.description is None,
        r.colour == ReplyColour::Magenta,
        !r.current_track_image,
        r.thumbnail == Some(thumbnail),
{
    EmbedReply {
        title: format_track_status(position_secs, duration_secs, title),
        description: None,
        colour: ReplyColour::Magenta,
        current_track_image: false,
        thumbnail: Some(thumbnail),
    }
}

/// Why a `prefix` command changed nothing.
#[derive(Debug, Clone, Copy, PartialEq, Eq, Structural)]
pub enum PrefixRefusal {
    /// The word asked for is no valid prefix.
    Invalid,
    /// The command came from outside a guild, or the guild has no record.
    NotInGuild,
}

/// The answer, addressed to the author, to a refused `prefix` command.
pub fn prefix_refusal_text(r: PrefixRefusal) -> (t: String)
    ensures
        r is Invalid ==> t@ == "Invalid prefix"@,
        r is NotInGuild ==> t@ == "This command can only be used in a guild"@,
{
    match r {
        PrefixRefusal::Invalid => "Invalid prefix".to_owned(),
        PrefixRefusal::NotInGuild => "This command can only be used in a guild".to_owned(),
    }
}

/// The reply to a changed prefix, in blitz blue.
pub fn prefix_changed_reply(prefix: &str) -> (r: EmbedReply)
    ensures
        embed_is(r, "Prefix Changed"@, Some("Prefix changed to `"@ + prefix@ + "`"@), ReplyColour::BlitzBlue, false),
{
    let mut d = "Prefix changed to `".to_owned();
    d.append(prefix);
    d.append("`");
    EmbedReply {
        title: "Prefix Changed".to_owned(),
        description: Some(d),
        colour: ReplyColour::BlitzBlue,
        current_track_image: false,
        thumbnail: None,
    }
}

/// The red reply to a command the bot does not know.
pub fn unknown_command_reply(name: &str) -> (r: EmbedReply)
    ensures
        embed_is(r, name@ + ", what are you trying to say?"@, None, ReplyColour::Red, false),
{
    let mut t = name.to_owned();
    t.append(", what are you trying to say?");
    EmbedReply { title: t, description: None, colour: ReplyColour::Red, current_track_image: false, thumbnail: None }
}

} // verus!
