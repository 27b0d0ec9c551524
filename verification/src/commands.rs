//! The decisions and reply texts of the bot's chat commands and voice
//! events: prefix checks, how `play` treats its query, search listings and
//! button labels, queue listings, track status and when to leave a channel.

use vstd::prelude::*;
use vstd::string::*;
use crate::replies::ReplyColour;
use crate::text::{
    truncated_label, special_truncate, decimal, decimal_string, contains_seq, str_contains,
    str_starts_with, views,
};

verus! {

broadcast use vstd::string::group_string_axioms;

/// The prefixes a guild may choose.
pub open spec fn valid_prefixes() -> Seq<Seq<char>> {
    seq![
        seq!['~'], seq!['+'], seq!['-'], seq!['='], seq!['$'], seq!['#'], seq!['@'], seq!['/'],
        seq!['\\'], seq!['?'], seq!['>'], seq!['*'], seq!['&'], seq!['^'], seq!['%'], seq!['|'],
        seq!['!'],
    ]
}

/// The prefixes a guild may choose, in their usual order.
pub fn valid_prefix_list() -> (v: Vec<&'static str>)
    ensures
        v@.map_values(|s: &str| s@) == valid_prefixes(),
{
    let v = vec![
        "~", "+", "-", "=", "$", "#", "@", "/", "\\", "?", ">", "*", "&", "^", "%", "|", "!",
    ];
    proof {
        reveal_strlit("~");
        reveal_strlit("+");
        reveal_strlit("-");
        reveal_strlit("=");
        reveal_strlit("$");
        reveal_strlit("#");
        reveal_strlit("@");
        reveal_strlit("/");
        reveal_strlit("\\");
        reveal_strlit("?");
        reveal_strlit(">");
        reveal_strlit("*");
        reveal_strlit("&");
        reveal_strlit("^");
        reveal_strlit("%");
        reveal_strlit("|");
        reveal_strlit("!");
        assert("~"@ =~= seq!['~']);
        assert("+"@ =~= seq!['+']);
        assert("-"@ =~= seq!['-']);
        assert("="@ =~= seq!['=']);
        assert("$"@ =~= seq!['$']);
        assert("#"@ =~= seq!['#']);
        assert("@"@ =~= seq!['@']);
        assert("/"@ =~= seq!['/']);
        assert("\\"@ =~= seq!['\\']);
        assert("?"@ =~= seq!['?']);
        assert(">"@ =~= seq!['>']);
        assert("*"@ =~= seq!['*']);
        assert("&"@ =~= seq!['&']);
        assert("^"@ =~= seq!['^']);
        assert("%"@ =~= seq!['%']);
        assert("|"@ =~= seq!['|']);
        assert("!"@ =~= seq!['!']);
    }
    assert(v@.map_values(|s: &str| s@) =~= valid_prefixes());
    v
}

/// Whether `tar` is one of the strings of `src`.
pub fn find(tar: String, src: Vec<&str>) -> (res: bool)
    ensures
        res == exists|i: int| 0 <= i < src@.len() && (#[trigger] src@[i])@ == tar@,
{
    let mut i: usize = 0;
    while i < src.len()
        invariant
            i <= src@.len(),
            forall|k: int| 0 <= k < i ==> (#[trigger] src@[k])@ != tar@,
        decreases src@.len() - i,
    {
        if src[i].to_owned() == tar {
            return true;
        }
        i = i + 1;
    }
    false
}

/// The prefix a `prefix` command asks for, when it may be used: the given
/// word, or `+` when none was given; none when that is not a valid prefix.
pub fn check_prefix_arg(arg: Option<String>) -> (res: Option<String>)
    ensures
        ({
            let wanted = match arg {
                Some(a) => a@,
                None => seq!['+'],
            };
            &&& valid_prefixes().contains(wanted) ==> (res matches Some(p) && p@ == wanted)
            &&& !valid_prefixes().contains(wanted) ==> res is None
        }),
{
    let pfx = match arg {
        Some(a) => a,
        None => {
            proof {
                reveal_strlit("+");
            }
            let p = "+".to_owned();
            assert(p@ =~= seq!['+']);
            p
        },
    };
    let list = valid_prefix_list();
    let ghost lv = list@;
    let ok = find(pfx.clone(), list);
    proof {
        if valid_prefixes().contains(pfx@) {
            let k = choose|k: int| 0 <= k < valid_prefixes().len() && valid_prefixes()[k] == pfx@;
            assert(lv.map_values(|s: &str| s@)[k] == pfx@);
        }
        if ok {
            let k = choose|k: int| 0 <= k < lv.len() && (#[trigger] lv[k])@ == pfx@;
            assert(lv.map_values(|s: &str| s@)[k] == pfx@);
        }
    }
    if ok {
        Some(pfx)
    } else {
        None
    }
}


/// How many results a `play` search asks YouTube for.
pub const MAX_QUERY: usize = 5;

/// How `play` treats its query.
#[derive(Debug, Clone, Copy, PartialEq, Eq, Structural)]
pub enum PlayRoute {
    /// Nothing was given.
    NoQuery,
    /// Not a link: search YouTube for it.
    Search,
    /// A link to a YouTube playlist: queue every entry.
    YoutubePlaylist,
    /// Any other link: queue it as it is.
    Direct,
}

/// How `play` treats the query `url`: an empty query is refused; one not
/// starting with `http` is searched for; a link holding both `youtube` and
/// `playlist` is a playlist; any other link is played directly.
pub fn play_route(url: &str) -> (res: PlayRoute)
    ensures
        url@.len() == 0 ==> res is NoQuery,
        url@.len() > 0 && !"http"@.is_prefix_of(url@) ==> res is Search,
        url@.len() > 0 && "http"@.is_prefix_of(url@) && contains_seq(url@, "youtube"@) && contains_seq(
            url@,
            "playlist"@,
        ) ==> res is YoutubePlaylist,
        url@.len() > 0 && "http"@.is_prefix_of(url@) && !(contains_seq(url@, "youtube"@)
            && contains_seq(url@, "playlist"@)) ==> res is Direct,
{
    if url.is_empty() {
        PlayRoute::NoQuery
    } else if !str_starts_with(url, "http") {
        PlayRoute::Search
    } else if str_contains(url, "youtube") && str_contains(url, "playlist") {
        PlayRoute::YoutubePlaylist
    } else {
        PlayRoute::Direct
    }
}

/// Splits search entries (title, link) into the links and titles offered
/// for choice. Entries are taken in order; at the first entry without a
/// link its title is still taken, and the rest are dropped.
pub fn collect_search_results(entries: &Vec<(String, Option<String>)>) -> (res: (Vec<String>, Vec<String>))
    ensures
        ({
            let (urls, titles) = res;
            let n = entries@.len();
            let k = urls@.len();
            &&& k <= n
            &&& forall|i: int| 0 <= i < k ==> (#[trigger] entries@[i]).1 == Some(urls@[i])
            &&& k < n ==> entries@[k as int].1 is None
            &&& titles@.len() == if k < n { k + 1 } else { k }
            &&& forall|i: int| 0 <= i < titles@.len() ==> titles@[i] == (#[trigger] entries@[i]).0
        }),
{
    let mut urls: Vec<String> = Vec::new();
    let mut titles: Vec<String> = Vec::new();
    let mut i: usize = 0;
    while i < entries.len()
        invariant
            i <= entries@.len(),
            urls@.len() == i,
            titles@.len() == i,
            forall|j: int| 0 <= j < i ==> (#[trigger] entries@[j]).1 == Some(urls@[j]),
            forall|j: int| 0 <= j < i ==> titles@[j] == (#[trigger] entries@[j]).0,
        decreases entries@.len() - i,
    {
        titles.push(entries[i].0.clone());
        match &entries[i].1 {
            None => {
                return (urls, titles);
            },
            Some(u) => {
                urls.push(u.clone());
            },
        }
        i = i + 1;
    }
    (urls, titles)
}

/// The search listing: each title on its own line, numbered from 1.
pub open spec fn search_listing(titles: Seq<Seq<char>>) -> Seq<char>
    decreases titles.len(),
{
    if titles.len() == 0 {
        Seq::empty()
    } else {
        search_listing(titles.drop_last()) + decimal(titles.len()) + ": "@ + titles.last() + seq!['\n']
    }
}

/// Numbers the titles of a search, one per line.
pub fn format_search_listing(titles: &Vec<String>) -> (res: String)
    ensures
        res@ == search_listing(views(titles@)),
{
    let mut res = String::new();
    let mut i: usize = 0;
    while i < titles.len()
        invariant
            i <= titles@.len(),
            res@ == search_listing(views(titles@).take(i as int)),
        decreases titles@.len() - i,
    {
        let num = decimal_string((i + 1) as u64);
        res.append(num.as_str());
        res.append(": ");
        res.append(titles[i].as_str());
        res.push('\n');
        proof {
            let t = views(titles@).take(i + 1);
            assert(t.drop_last() =~= views(titles@).take(i as int));
            assert(t.last() == titles@[i as int]@);
            assert(res@ =~= search_listing(t.drop_last()) + decimal(t.len()) + ": "@ + t.last() + seq!['\n']);
        }
        i = i + 1;
    }
    assert(views(titles@).take(titles@.len() as int) =~= views(titles@));
    res
}

/// The label of a choice button: the shortened name followed by `...`.
pub open spec fn button_label(name: Seq<char>) -> Seq<char> {
    truncated_label(name) + "..."@
}

/// The labels of the choice buttons, one per name, in order.
pub fn button_labels(names: &Vec<String>) -> (res: Vec<String>)
    ensures
        res@.len() == names@.len(),
        forall|i: int| 0 <= i < names@.len() ==> (#[trigger] res@[i])@ == button_label(names@[i]@),
{
    let mut res: Vec<String> = Vec::new();
    let mut i: usize = 0;
    while i < names.len()
        invariant
            i <= names@.len(),
            res@.len() == i,
            forall|j: int| 0 <= j < i ==> (#[trigger] res@[j])@ == button_label(names@[j]@),
        decreases names@.len() - i,
    {
        let mut label = special_truncate(names[i].as_str());
        label.append("...");
        res.push(label);
        i = i + 1;
    }
    res
}

/// The link picked by pressing button `choice`; none when the choice is
/// the one just past the last link, which cancels.
pub fn select_search_result(urls: &Vec<String>, choice: usize) -> (res: Option<String>)
    requires
        choice <= urls@.len(),
    ensures
        choice == urls@.len() ==> res is None,
        choice < urls@.len() ==> res == Some(urls@[choice as int]),
{
    if choice == urls.len() {
        None
    } else {
        Some(urls[choice].clone())
    }
}

/// How `play` reports on its work once the tracks are queued.
#[derive(Debug, Clone, Copy, PartialEq, Eq, Structural)]
pub enum PlayReply {
    Queued,
    ResumeFailed,
    Playing,
    Silent,
}

/// The report of `play`: `Queued` when the queue holds tracks; else the
/// outcome of resuming it, with a successful resume of a search reported
/// by nothing.
pub fn play_reply(queue_empty: bool, resumed: bool, searched: bool) -> (res: PlayReply)
    ensures
        !queue_empty ==> res is Queued,
        queue_empty && !resumed ==> res is ResumeFailed,
        queue_empty && resumed && !searched ==> res is Playing,
        queue_empty && resumed && searched ==> res is Silent,
{
    if !queue_empty {
        PlayReply::Queued
    } else if !resumed {
        PlayReply::ResumeFailed
    } else if !searched {
        PlayReply::Playing
    } else {
        PlayReply::Silent
    }
}

/// A step of `play` that did not go through.
#[derive(Debug, Clone, Copy, PartialEq, Eq, Structural)]
pub enum PlayFailure {
    /// No query was given.
    NoQuery,
    /// The caller is in no voice channel.
    NotInVoiceChannel,
    /// No voice connection came up after joining.
    NoHandler,
    /// The search could not be run.
    SearchFailed,
    /// The search gave no list of results.
    NoSearchResults,
    /// No button was pressed in time.
    NoChoice,
    /// The pressed button's id is not a number.
    BadChoice,
    /// The chosen search result could not be opened.
    ChosenSourceFailed,
    /// An entry of a YouTube playlist could not be opened.
    PlaylistEntryFailed,
    /// A YouTube playlist link gave a single video.
    PlaylistDeadEnd,
    /// A direct link could not be opened.
    SourceFailed,
}

/// How `play` answers a failed step: whether it stops there; the title,
/// text and colour of the embed its message then shows, if any; and whether
/// that edit also blanks the message's text and removes its buttons.
#[derive(Debug)]
pub struct PlayFailureReply {
    pub ends: bool,
    pub title: Option<String>,
    pub description: Option<String>,
    pub colour: ReplyColour,
    pub clears_content: bool,
    pub clears_buttons: bool,
}

/// The colour of a failure's embed: orange for a choice not made in time,
/// red otherwise.
pub open spec fn failure_colour(f: PlayFailure) -> ReplyColour {
    if f is NoChoice { ReplyColour::Orange } else { ReplyColour::Red }
}

/// Whether a failure's edit blanks the message's text (`Loading...`): all
/// but the failures while queueing a YouTube playlist or a direct link.
pub open spec fn failure_clears_content(f: PlayFailure) -> bool {
    !(f is PlaylistEntryFailed || f is PlaylistDeadEnd || f is SourceFailed)
}

/// Whether a failure's edit removes the buttons: the failures once the
/// search results were offered, and a direct link that cannot be opened.
pub open spec fn failure_clears_buttons(f: PlayFailure) -> bool {
    f is NoChoice || f is BadChoice || f is ChosenSourceFailed || f is SourceFailed
}

/// The reply shown for a failure: none, or its title and text.
pub open spec fn failure_text(f: PlayFailure) -> Option<(Seq<char>, Seq<char>)> {
    match f {
        PlayFailure::NoQuery => Some(("Error"@, "No query provided"@)),
        PlayFailure::NotInVoiceChannel => Some(("Error"@, "Not in a voice channel"@)),
        PlayFailure::NoHandler => Some(("Error"@, "Not in a voice channel to play in"@)),
        PlayFailure::SearchFailed => None,
        PlayFailure::NoSearchResults => None,
        PlayFailure::NoChoice => Some(("Timeout"@, "Took too long"@)),
        PlayFailure::BadChoice => Some(("Error"@, "Failed parsing custom id"@)),
        PlayFailure::ChosenSourceFailed => Some(("Error"@, "Error sourcing ffmpeg"@)),
        PlayFailure::PlaylistEntryFailed => Some(("Error"@, "Errer not searchable"@)),
        PlayFailure::PlaylistDeadEnd => Some(("Error"@, "Uh oh dead en"@)),
        PlayFailure::SourceFailed => Some(("Error"@, "Errer sourcing ffmpeg"@)),
    }
}

/// Whether `play` goes on after a failure: only after a search that could
/// not be run and after a playlist link that gave a single video, both of
/// which go on to report on the queue.
pub open spec fn failure_goes_on(f: PlayFailure) -> bool {
    f is SearchFailed || f is PlaylistDeadEnd
}

fn text_pair(title: &str, description: &str) -> (res: (Option<String>, Option<String>))
    ensures
        res.0 matches Some(t) && t@ == title@,
        res.1 matches Some(d) && d@ == description@,
{
    (Some(title.to_owned()), Some(description.to_owned()))
}

/// How `play` answers a failed step.
pub fn play_failure_reply(f: PlayFailure) -> (res: PlayFailureReply)
    ensures
        res.ends == !failure_goes_on(f),
        res.colour == failure_colour(f),
        res.clears_content == failure_clears_content(f),
        res.clears_buttons == failure_clears_buttons(f),
        failure_text(f) is None ==> res.title is None && res.description is None,
        failure_text(f) matches Some(p) ==> (res.title matches Some(t) && t@ == p.0),
        failure_text(f) matches Some(p) ==> (res.description matches Some(d) && d@ == p.1),
{
    let (title, description) = match f {
        PlayFailure::NoQuery => text_pair("Error", "No query provided"),
        PlayFailure::NotInVoiceChannel => text_pair("Error", "Not in a voice channel"),
        PlayFailure::NoHandler => text_pair("Error", "Not in a voice channel to play in"),
        PlayFailure::SearchFailed => (None, None),
        PlayFailure::NoSearchResults => (None, None),
        PlayFailure::NoChoice => text_pair("Timeout", "Took too long"),
        PlayFailure::BadChoice => text_pair("Error", "Failed parsing custom id"),
        PlayFailure::ChosenSourceFailed => text_pair("Error", "Error sourcing ffmpeg"),
        PlayFailure::PlaylistEntryFailed => text_pair("Error", "Errer not searchable"),
        PlayFailure::PlaylistDeadEnd => text_pair("Error", "Uh oh dead en"),
        PlayFailure::SourceFailed => text_pair("Error", "Errer sourcing ffmpeg"),
    };
    let ends = !(matches!(f, PlayFailure::SearchFailed) || matches!(f, PlayFailure::PlaylistDeadEnd));
    let colour = if matches!(f, PlayFailure::NoChoice) { ReplyColour::Orange } else { ReplyColour::Red };
    let clears_content = !(matches!(f, PlayFailure::PlaylistEntryFailed) || matches!(f, PlayFailure::PlaylistDeadEnd)
        || matches!(f, PlayFailure::SourceFailed));
    let clears_buttons = matches!(f, PlayFailure::NoChoice) || matches!(f, PlayFailure::BadChoice)
        || matches!(f, PlayFailure::ChosenSourceFailed) || matches!(f, PlayFailure::SourceFailed);
    PlayFailureReply { ends, title, description, colour, clears_content, clears_buttons }
}

/// A command that works on the track queue.
#[derive(Debug, Clone, Copy, PartialEq, Eq, Structural)]
pub enum QueueCommand {
    Stop,
    Pause,
    Skip,
    Resume,
    List,
}

/// What a queue command does.
#[derive(Debug, Clone, Copy, PartialEq, Eq, Structural)]
pub enum QueuePlan {
    /// The bot is in no voice channel of the guild.
    NotInChannel,
    /// There is nothing to work on.
    QueueEmpty,
    /// Go ahead.
    Proceed,
}

/// What a queue command does: nothing without a voice connection; on an
/// empty queue nothing either, except `stop`, which goes ahead.
pub fn plan_queue_command(cmd: &QueueCommand, has_handler: bool, queue_empty: bool) -> (res: QueuePlan)
    ensures
        !has_handler ==> res is NotInChannel,
        has_handler && queue_empty && !(cmd is Stop) ==> res is QueueEmpty,
        has_handler && (!queue_empty || cmd is Stop) ==> res is Proceed,
{
    if !has_handler {
        QueuePlan::NotInChannel
    } else if queue_empty && !matches!(cmd, QueueCommand::Stop) {
        QueuePlan::QueueEmpty
    } else {
        QueuePlan::Proceed
    }
}

/// A command that changes how the bot sits in a voice channel.
#[derive(Debug, Clone, Copy, PartialEq, Eq, Structural)]
pub enum VoiceCommand {
    Deafen,
    Undeafen,
    Mute,
    Unmute,
}

/// What a voice command does.
#[derive(Debug, Clone, Copy, PartialEq, Eq, Structural)]
pub enum VoicePlan {
    NotInChannel,
    /// Deafening or muting what already is.
    AlreadyDone,
    Apply,
}

/// What a voice command does: nothing without a voice connection;
/// deafening a deaf bot or muting a mute one is reported as already done;
/// undeafening and unmuting always go ahead.
pub fn plan_voice_command(cmd: &VoiceCommand, has_handler: bool, already: bool) -> (res: VoicePlan)
    ensures
        !has_handler ==> res is NotInChannel,
        has_handler && already && (cmd is Deafen || cmd is Mute) ==> res is AlreadyDone,
        has_handler && !(already && (cmd is Deafen || cmd is Mute)) ==> res is Apply,
{
    if !has_handler {
        VoicePlan::NotInChannel
    } else if already && (matches!(cmd, VoiceCommand::Deafen) || matches!(cmd, VoiceCommand::Mute)) {
        VoicePlan::AlreadyDone
    } else {
        VoicePlan::Apply
    }
}

/// How the bot sits in its voice channel.
#[derive(Debug, Clone, Copy, PartialEq, Eq, Structural)]
pub struct VoiceFlags {
    pub deaf: bool,
    pub mute: bool,
}

/// Whether a deafen or mute command finds its flag already set.
pub open spec fn already_set(cmd: VoiceCommand, f: VoiceFlags) -> bool {
    match cmd {
        VoiceCommand::Deafen => f.deaf,
        VoiceCommand::Mute => f.mute,
        _ => false,
    }
}

/// The flags after a voice command has been applied: deafen and undeafen
/// set and clear `deaf`, mute and unmute set and clear `mute`.
pub open spec fn flags_after(cmd: VoiceCommand, f: VoiceFlags) -> VoiceFlags {
    match cmd {
        VoiceCommand::Deafen => VoiceFlags { deaf: true, mute: f.mute },
        VoiceCommand::Undeafen => VoiceFlags { deaf: false, mute: f.mute },
        VoiceCommand::Mute => VoiceFlags { deaf: f.deaf, mute: true },
        VoiceCommand::Unmute => VoiceFlags { deaf: f.deaf, mute: false },
    }
}

/// The plan of a voice command on a connection with the given flags, or on
/// none (`None`).
pub open spec fn voice_plan_of(cmd: VoiceCommand, flags: Option<VoiceFlags>) -> VoicePlan {
    match flags {
        None => VoicePlan::NotInChannel,
        Some(f) => if already_set(cmd, f) { VoicePlan::AlreadyDone } else { VoicePlan::Apply },
    }
}

/// The flags after a voice command: changed only where it is applied.
pub open spec fn voice_next(cmd: VoiceCommand, flags: Option<VoiceFlags>) -> Option<VoiceFlags> {
    match flags {
        Some(f) => if voice_plan_of(cmd, flags) is Apply { Some(flags_after(cmd, f)) } else { flags },
        None => None,
    }
}

/// A voice command on the connection's flags (`None` without a
/// connection): its plan, and the flags to set where it is applied.
pub fn voice_step(cmd: &VoiceCommand, flags: Option<VoiceFlags>) -> (res: (VoicePlan, Option<VoiceFlags>))
    ensures
        res.0 == voice_plan_of(*cmd, flags),
        res.0 is Apply ==> res.1 == Some(flags_after(*cmd, flags.unwrap())),
        !(res.0 is Apply) ==> res.1 is None,
{
    let (has_handler, already) = match flags {
        Some(f) => (true, match cmd {
            VoiceCommand::Deafen => f.deaf,
            VoiceCommand::Mute => f.mute,
            _ => false,
        }),
        None => (false, false),
    };
    let plan = plan_voice_command(cmd, has_handler, already);
    match (plan, flags) {
        (VoicePlan::Apply, Some(f)) => {
            let next = match cmd {
                VoiceCommand::Deafen => VoiceFlags { deaf: true, mute: f.mute },
                VoiceCommand::Undeafen => VoiceFlags { deaf: false, mute: f.mute },
                VoiceCommand::Mute => VoiceFlags { deaf: f.deaf, mute: true },
                VoiceCommand::Unmute => VoiceFlags { deaf: f.deaf, mute: false },
            };
            (plan, Some(next))
        },
        _ => (plan, None),
    }
}

/// Deafening twice: the second deafen finds the bot deaf and says so.
/// Likewise muting twice.
pub proof fn law_deafen_or_mute_twice(cmd: VoiceCommand, f: VoiceFlags)
    requires
        cmd is Deafen || cmd is Mute,
    ensures
        voice_plan_of(cmd, voice_next(cmd, Some(f))) is AlreadyDone,
        voice_next(cmd, voice_next(cmd, Some(f))) == voice_next(cmd, Some(f)),
{
}

/// Undeafening after deafening leaves the bot hearing, and unmuting after
/// muting leaves it speaking; the other flag is as it was.
pub proof fn law_undo_deafen_and_mute(f: VoiceFlags)
    ensures
        voice_next(VoiceCommand::Undeafen, voice_next(VoiceCommand::Deafen, Some(f)))
            == Some(VoiceFlags { deaf: false, mute: f.mute }),
        voice_next(VoiceCommand::Unmute, voice_next(VoiceCommand::Mute, Some(f)))
            == Some(VoiceFlags { deaf: f.deaf, mute: false }),
{
}

/// Without a voice connection no voice command changes anything.
pub proof fn law_voice_needs_connection(cmd: VoiceCommand)
    ensures
        voice_plan_of(cmd, None) is NotInChannel,
        voice_next(cmd, None) is None,
{
}


/// `n` spaces.
pub open spec fn spaces(n: nat) -> Seq<char> {
    Seq::new(n, |i: int| ' ')
}

/// `s` followed by spaces up to `width` characters (`{:<width}`).
pub open spec fn pad_right(s: Seq<char>, width: nat) -> Seq<char> {
    if s.len() < width { s + spaces((width - s.len()) as nat) } else { s }
}

/// `s` after spaces up to `width` characters (`{:>width}`).
pub open spec fn pad_left(s: Seq<char>, width: nat) -> Seq<char> {
    if s.len() < width { spaces((width - s.len()) as nat) + s } else { s }
}

/// Most tracks a queue listing shows.
pub const LIST_LIMIT: usize = 4;

/// Width of the title column of a queue listing.
pub const TITLE_WIDTH: usize = 100;

/// One line of a queue listing: the position left-aligned in two columns,
/// a colon, and the title right-aligned in `TITLE_WIDTH` columns.
pub open spec fn queue_line(pos: nat, title: Seq<char>) -> Seq<char> {
    pad_right(decimal(pos), 2) + seq![':'] + pad_left(title, TITLE_WIDTH as nat) + seq!['\n']
}

/// The queue listing of the first `n` titles.
pub open spec fn queue_listing(titles: Seq<Seq<char>>) -> Seq<char>
    decreases titles.len(),
{
    if titles.len() == 0 {
        Seq::empty()
    } else {
        queue_listing(titles.drop_last()) + queue_line(titles.len(), titles.last())
    }
}

/// The titles a listing shows: the first `LIST_LIMIT` ones.
pub open spec fn listed_titles(titles: Seq<Option<String>>) -> Seq<Seq<char>> {
    let n = if titles.len() < LIST_LIMIT { titles.len() } else { LIST_LIMIT as nat };
    Seq::new(n, |i: int| titles[i].unwrap()@)
}

fn push_spaces(s: &mut String, n: usize)
    ensures
        final(s)@ == old(s)@ + spaces(n as nat),
{
    let mut i: usize = 0;
    while i < n
        invariant
            i <= n,
            s@ == old(s)@ + spaces(i as nat),
        decreases n - i,
    {
        s.push(' ');
        assert(s@ =~= old(s)@ + spaces((i + 1) as nat));
        i = i + 1;
    }
}

/// The listing of the queued tracks: the first four titles, one per line,
/// numbered from 1. Each listed track must have a title.
pub fn format_queue_listing(titles: &Vec<Option<String>>) -> (res: String)
    requires
        forall|i: int| 0 <= i < titles@.len() && i < LIST_LIMIT ==> (#[trigger] titles@[i]) is Some,
    ensures
        res@ == queue_listing(listed_titles(titles@)),
{
    let mut res = String::new();
    let mut ind: usize = 1;
    let mut i: usize = 0;
    while i < titles.len()
        invariant
            i <= titles@.len(),
            i <= LIST_LIMIT,
            ind == i + 1,
            forall|k: int| 0 <= k < titles@.len() && k < LIST_LIMIT ==> (#[trigger] titles@[k]) is Some,
            res@ == queue_listing(listed_titles(titles@).take(i as int)),
        ensures
            i == listed_titles(titles@).len(),
            res@ == queue_listing(listed_titles(titles@).take(i as int)),
        decreases titles@.len() - i,
    {
        if ind >= 5 {
            break;
        }
        let title = match &titles[i] {
            Some(t) => t,
            None => {
                assert(false);
                break;
            },
        };
        let num = decimal_string(ind as u64);
        res.append(num.as_str());
        if num.unicode_len() < 2 {
            push_spaces(&mut res, 2 - num.unicode_len());
        }
        res.push(':');
        let tlen = title.as_str().unicode_len();
        if tlen < TITLE_WIDTH {
            push_spaces(&mut res, TITLE_WIDTH - tlen);
        }
        res.append(title.as_str());
        res.push('\n');
        proof {
            let lt = listed_titles(titles@);
            let t = lt.take(i + 1);
            assert(t.drop_last() =~= lt.take(i as int));
            assert(t.last() == title@);
            assert(res@ =~= queue_listing(t.drop_last()) + queue_line((i + 1) as nat, t.last()));
        }
        ind = ind + 1;
        i = i + 1;
    }
    proof {
        let lt = listed_titles(titles@);
        assert(lt.take(lt.len() as int) =~= lt);
    }
    res
}


/// `secs` as minutes and seconds: `m:s`, with neither padded.
pub open spec fn clock(secs: nat) -> Seq<char> {
    decimal(secs / 60) + seq![':'] + decimal(secs % 60)
}

fn clock_string(secs: u64) -> (res: String)
    ensures
        res@ == clock(secs as nat),
{
    let mut res = decimal_string(secs / 60);
    res.push(':');
    let rest = decimal_string(secs % 60);
    res.append(rest.as_str());
    res
}

/// The status line of the current track: its position and length, each as
/// minutes and seconds, then its title.
pub fn format_track_status(position_secs: u64, duration_secs: u64, title: &str) -> (res: String)
    ensures
        res@ == clock(position_secs as nat) + " min / "@ + clock(duration_secs as nat) + " min - "@ + title@,
{
    let mut res = clock_string(position_secs);
    res.append(" min / ");
    let d = clock_string(duration_secs);
    res.append(d.as_str());
    res.append(" min - ");
    res.append(title);
    res
}

/// Whether the bot leaves a voice channel after someone left it: exactly
/// when the bot is the only one still in it.
pub fn should_leave_channel(member_ids: &Vec<u64>, bot_id: u64) -> (res: bool)
    ensures
        res == (member_ids@.len() == 1 && member_ids@[0] == bot_id),
{
    if member_ids.len() == 0 {
        return false;
    }
    if member_ids[0] != bot_id {
        return false;
    }
    member_ids.len() == 1
}

/// Connection attempts made before the bot gives up on the database.
pub const MAX_ATTEMPTS: u32 = 5;

/// The attempt that follows `attempts` failed ones: the next number while
/// under the limit, none once the limit is reached.
pub open spec fn next_attempt(attempts: nat) -> Option<nat> {
    if attempts < MAX_ATTEMPTS { Some(attempts + 1) } else { None }
}

/// The next attempt after `attempts` failed attempts to reach the
/// database: the following number while under the limit, none after it.
pub fn next_connection_attempt(attempts: u32) -> (res: Option<u32>)
    ensures
        match res {
            Some(n) => next_attempt(attempts as nat) == Some(n as nat),
            None => next_attempt(attempts as nat) is None,
        },
{
    if attempts < MAX_ATTEMPTS {
        Some(attempts + 1)
    } else {
        None
    }
}

/// How many connection attempts are made at most, starting at attempt
/// number `attempts` and following `next_attempt` after each failure.
pub open spec fn attempts_made(attempts: nat) -> nat
    decreases MAX_ATTEMPTS - attempts,
{
    if attempts < MAX_ATTEMPTS {
        1 + attempts_made(attempts + 1)
    } else {
        0
    }
}

/// The bot tries the database at most `MAX_ATTEMPTS` times in all: from
/// attempt number `attempts` on, `MAX_ATTEMPTS - attempts` more at most.
pub proof fn law_connection_attempts_bounded(attempts: nat)
    requires
        attempts <= MAX_ATTEMPTS,
    ensures
        attempts_made(attempts) == MAX_ATTEMPTS - attempts,
    decreases MAX_ATTEMPTS - attempts,
{
    if attempts < MAX_ATTEMPTS {
        law_connection_attempts_bounded(attempts + 1);
    }
}

} // verus!
