//! The course of the `play` command as a state machine: each step takes
//! what the last action came back with and says what to do next. The app
//! performs the actions (Discord, voice, YouTube) and reports back.

use vstd::prelude::*;
use vstd::string::*;
use crate::commands::{PlayRoute, PlayFailure, MAX_QUERY};
use crate::text::views;

verus! {

broadcast use vstd::string::group_string_axioms;

/// Where `play` stands.
#[derive(Debug, Clone, Copy, PartialEq, Eq, Structural)]
pub enum PlayStage {
    /// `Loading...` is shown.
    Start,
    /// The guild's stored search is being cleared.
    Clearing,
    /// Looking for the caller's voice channel.
    FindingVoice,
    /// Joining that channel.
    Joining,
    /// Searching YouTube for the query.
    Searching,
    /// The search results are offered; waiting for a button.
    Choosing,
    /// Opening the chosen result.
    OpeningChoice,
    /// Listing the entries of a YouTube playlist.
    Listing,
    /// Opening the playlist entry at `next_entry`.
    OpeningEntry,
    /// Opening a direct link.
    OpeningLink,
    /// A track was opened; it is being queued.
    Queueing,
    /// A failure that does not stop `play` was shown.
    AfterFailure,
    /// Reporting on the queue.
    Reporting,
    /// Nothing more to do.
    Done,
}

/// What `play` knows: its stage, how it treats the query, the query, the
/// links on offer (search results or playlist entries) and the next entry.
#[derive(Debug)]
pub struct PlayState {
    pub stage: PlayStage,
    pub route: PlayRoute,
    pub query: String,
    pub links: Vec<String>,
    pub next_entry: usize,
}

/// What the last action came back with.
#[derive(Debug)]
pub enum PlayEvent {
    /// `Loading...` was shown.
    Begun,
    /// The guild's stored search was cleared.
    Cleared,
    /// Whether the caller is in a voice channel.
    VoiceChannel(bool),
    /// Whether a voice connection came up after joining.
    Handler(bool),
    /// The search could not be run.
    SearchFailed,
    /// The search gave no list of results.
    SearchNotAList,
    /// The search offered these links.
    SearchOffered(Vec<String>),
    /// No button was pressed in time.
    ChoiceTimedOut,
    /// The pressed button's id is not a number.
    ChoiceUnreadable,
    /// The button with this id was pressed.
    Chosen(usize),
    /// Whether the track could be opened.
    Opened(bool),
    /// The playlist could not be listed.
    ListingFailed,
    /// The playlist link gave a single video.
    ListedSingleVideo,
    /// The playlist has entries with these links.
    ListedEntries(Vec<String>),
    /// The opened track was queued.
    Queued,
    /// A failure that does not stop `play` was shown.
    Shown,
}

/// What to do next.
#[derive(Debug)]
pub enum PlayAction {
    ClearSearch,
    FindVoice,
    Join,
    /// Search YouTube for `query`, asking for `count` results.
    Search { query: String, count: usize },
    ShowChoices,
    /// Delete the message: the choice offered was to cancel.
    Cancel,
    /// Open this link as a track.
    Open(String),
    /// List the entries of the YouTube playlist at this link.
    ListPlaylist(String),
    /// Queue the opened track.
    Enqueue,
    /// Show this failure.
    Fail(PlayFailure),
    /// Report on the queue.
    Report,
    /// Stop.
    Finish,
}

/// A [`PlayState`] with its strings taken as character sequences.
pub struct PlayStateView {
    pub stage: PlayStage,
    pub route: PlayRoute,
    pub query: Seq<char>,
    pub links: Seq<Seq<char>>,
    pub next_entry: nat,
}

/// A [`PlayEvent`] with its links taken as character sequences.
pub enum PlayEventView {
    Begun,
    Cleared,
    VoiceChannel(bool),
    Handler(bool),
    SearchFailed,
    SearchNotAList,
    SearchOffered(Seq<Seq<char>>),
    ChoiceTimedOut,
    ChoiceUnreadable,
    Chosen(nat),
    Opened(bool),
    ListingFailed,
    ListedSingleVideo,
    ListedEntries(Seq<Seq<char>>),
    Queued,
    Shown,
}

/// A [`PlayAction`] with its strings taken as character sequences.
pub enum PlayActionView {
    ClearSearch,
    FindVoice,
    Join,
    Search { query: Seq<char>, count: nat },
    ShowChoices,
    Cancel,
    Open(Seq<char>),
    ListPlaylist(Seq<char>),
    Enqueue,
    Fail(PlayFailure),
    Report,
    Finish,
}

impl View for PlayState {
    type V = PlayStateView;

    open spec fn view(&self) -> PlayStateView {
        PlayStateView {
            stage: self.stage,
            route: self.route,
            query: self.query@,
            links: views(self.links@),
            next_entry: self.next_entry as nat,
        }
    }
}

impl View for PlayEvent {
    type V = PlayEventView;

    open spec fn view(&self) -> PlayEventView {
        match self {
            PlayEvent::Begun => PlayEventView::Begun,
            PlayEvent::Cleared => PlayEventView::Cleared,
            PlayEvent::VoiceChannel(b) => PlayEventView::VoiceChannel(*b),
            PlayEvent::Handler(b) => PlayEventView::Handler(*b),
            PlayEvent::SearchFailed => PlayEventView::SearchFailed,
            PlayEvent::SearchNotAList => PlayEventView::SearchNotAList,
            PlayEvent::SearchOffered(v) => PlayEventView::SearchOffered(views(v@)),
            PlayEvent::ChoiceTimedOut => PlayEventView::ChoiceTimedOut,
            PlayEvent::ChoiceUnreadable => PlayEventView::ChoiceUnreadable,
            PlayEvent::Chosen(i) => PlayEventView::Chosen(*i as nat),
            PlayEvent::Opened(b) => PlayEventView::Opened(*b),
            PlayEvent::ListingFailed => PlayEventView::ListingFailed,
            PlayEvent::ListedSingleVideo => PlayEventView::ListedSingleVideo,
            PlayEvent::ListedEntries(v) => PlayEventView::ListedEntries(views(v@)),
            PlayEvent::Queued => PlayEventView::Queued,
            PlayEvent::Shown => PlayEventView::Shown,
        }
    }
}

impl View for PlayAction {
    type V = PlayActionView;

    open spec fn view(&self) -> PlayActionView {
        match self {
            PlayAction::ClearSearch => PlayActionView::ClearSearch,
            PlayAction::FindVoice => PlayActionView::FindVoice,
            PlayAction::Join => PlayActionView::Join,
            PlayAction::Search { query, count } => PlayActionView::Search { query: query@, count: *count as nat },
            PlayAction::ShowChoices => PlayActionView::ShowChoices,
            PlayAction::Cancel => PlayActionView::Cancel,
            PlayAction::Open(u) => PlayActionView::Open(u@),
            PlayAction::ListPlaylist(u) => PlayActionView::ListPlaylist(u@),
            PlayAction::Enqueue => PlayActionView::Enqueue,
            PlayAction::Fail(f) => PlayActionView::Fail(*f),
            PlayAction::Report => PlayActionView::Report,
            PlayAction::Finish => PlayActionView::Finish,
        }
    }
}

/// `s` moved to `stage`, all else kept.
pub open spec fn at(s: PlayStateView, stage: PlayStage) -> PlayStateView {
    PlayStateView { stage, ..s }
}

/// The step of `play` from state `s` on event `e`: the next state and
/// action. An event that does not belong to the stage finishes.
pub open spec fn play_transition(s: PlayStateView, e: PlayEventView) -> (PlayStateView, PlayActionView) {
    let done = (at(s, PlayStage::Done), PlayActionView::Finish);
    match s.stage {
        PlayStage::Start => match e {
            PlayEventView::Begun => if s.route is NoQuery {
                (at(s, PlayStage::Done), PlayActionView::Fail(PlayFailure::NoQuery))
            } else {
                (at(s, PlayStage::Clearing), PlayActionView::ClearSearch)
            },
            _ => done,
        },
        PlayStage::Clearing => match e {
            PlayEventView::Cleared => (at(s, PlayStage::FindingVoice), PlayActionView::FindVoice),
            _ => done,
        },
        PlayStage::FindingVoice => match e {
            PlayEventView::VoiceChannel(true) => (at(s, PlayStage::Joining), PlayActionView::Join),
            PlayEventView::VoiceChannel(false) => (at(s, PlayStage::Done), PlayActionView::Fail(PlayFailure::NotInVoiceChannel)),
            _ => done,
        },
        PlayStage::Joining => match e {
            PlayEventView::Handler(true) => if s.route is Search {
                (at(s, PlayStage::Searching), PlayActionView::Search { query: s.query, count: MAX_QUERY as nat })
            } else if s.route is YoutubePlaylist {
                (at(s, PlayStage::Listing), PlayActionView::ListPlaylist(s.query))
            } else {
                (at(s, PlayStage::OpeningLink), PlayActionView::Open(s.query))
            },
            PlayEventView::Handler(false) => (at(s, PlayStage::Done), PlayActionView::Fail(PlayFailure::NoHandler)),
            _ => done,
        },
        PlayStage::Searching => match e {
            PlayEventView::SearchFailed => (at(s, PlayStage::AfterFailure), PlayActionView::Fail(PlayFailure::SearchFailed)),
            PlayEventView::SearchNotAList => (at(s, PlayStage::Done), PlayActionView::Fail(PlayFailure::NoSearchResults)),
            PlayEventView::SearchOffered(links) => (
                PlayStateView { stage: PlayStage::Choosing, links, ..s },
                PlayActionView::ShowChoices,
            ),
            _ => done,
        },
        PlayStage::Choosing => match e {
            PlayEventView::ChoiceTimedOut => (at(s, PlayStage::Done), PlayActionView::Fail(PlayFailure::NoChoice)),
            PlayEventView::ChoiceUnreadable => (at(s, PlayStage::Done), PlayActionView::Fail(PlayFailure::BadChoice)),
            PlayEventView::Chosen(i) => if i == s.links.len() {
                (at(s, PlayStage::Done), PlayActionView::Cancel)
            } else {
                (at(s, PlayStage::OpeningChoice), PlayActionView::Open(s.links[i as int]))
            },
            _ => done,
        },
        PlayStage::OpeningChoice => match e {
            PlayEventView::Opened(true) => (at(s, PlayStage::Queueing), PlayActionView::Enqueue),
            PlayEventView::Opened(false) => (at(s, PlayStage::Done), PlayActionView::Fail(PlayFailure::ChosenSourceFailed)),
            _ => done,
        },
        PlayStage::OpeningLink => match e {
            PlayEventView::Opened(true) => (at(s, PlayStage::Queueing), PlayActionView::Enqueue),
            PlayEventView::Opened(false) => (at(s, PlayStage::Done), PlayActionView::Fail(PlayFailure::SourceFailed)),
            _ => done,
        },
        PlayStage::Listing => match e {
            PlayEventView::ListingFailed => (at(s, PlayStage::Reporting), PlayActionView::Report),
            PlayEventView::ListedSingleVideo => (at(s, PlayStage::AfterFailure), PlayActionView::Fail(PlayFailure::PlaylistDeadEnd)),
            PlayEventView::ListedEntries(links) => if links.len() == 0 {
                (PlayStateView { stage: PlayStage::Reporting, links, next_entry: 0, ..s }, PlayActionView::Report)
            } else {
                (PlayStateView { stage: PlayStage::OpeningEntry, links, next_entry: 0, ..s }, PlayActionView::Open(links[0]))
            },
            _ => done,
        },
        PlayStage::OpeningEntry => match e {
            PlayEventView::Opened(true) => (at(s, PlayStage::Queueing), PlayActionView::Enqueue),
            PlayEventView::Opened(false) => (at(s, PlayStage::Done), PlayActionView::Fail(PlayFailure::PlaylistEntryFailed)),
            _ => done,
        },
        PlayStage::Queueing => match e {
            PlayEventView::Queued => if s.route is YoutubePlaylist && s.next_entry + 1 < s.links.len() {
                (
                    PlayStateView { stage: PlayStage::OpeningEntry, next_entry: s.next_entry + 1, ..s },
                    PlayActionView::Open(s.links[s.next_entry + 1int]),
                )
            } else {
                (at(s, PlayStage::Reporting), PlayActionView::Report)
            },
            _ => done,
        },
        PlayStage::AfterFailure => match e {
            PlayEventView::Shown => (at(s, PlayStage::Reporting), PlayActionView::Report),
            _ => done,
        },
        PlayStage::Reporting => done,
        PlayStage::Done => done,
    }
}

/// The state in which `play` begins, with `Loading...` shown.
pub fn play_start(route: PlayRoute, query: String) -> (s: PlayState)
    ensures
        s@ == (PlayStateView { stage: PlayStage::Start, route, query: query@, links: Seq::empty(), next_entry: 0 }),
{
    let s = PlayState { stage: PlayStage::Start, route, query, links: Vec::new(), next_entry: 0 };
    assert(views(s.links@) =~= Seq::<Seq<char>>::empty());
    s
}

fn moved(s: PlayState, stage: PlayStage) -> (r: PlayState)
    ensures
        r@ == at(s@, stage),
{
    PlayState { stage, ..s }
}

/// One step of `play`: the next state and action on event `e`. A chosen
/// button must be one of those offered or the one past them (cancel).
pub fn play_step(s: PlayState, e: PlayEvent) -> (res: (PlayState, PlayAction))
    requires
        s.stage is Choosing ==> (e matches PlayEvent::Chosen(i) ==> i <= s.links@.len()),
    ensures
        res.0@ == play_transition(s@, e@).0,
        res.1@ == play_transition(s@, e@).1,
{
    let stage = s.stage;
    match (stage, e) {
        (PlayStage::Start, PlayEvent::Begun) => {
            if matches!(s.route, PlayRoute::NoQuery) {
                (moved(s, PlayStage::Done), PlayAction::Fail(PlayFailure::NoQuery))
            } else {
                (moved(s, PlayStage::Clearing), PlayAction::ClearSearch)
            }
        },
        (PlayStage::Clearing, PlayEvent::Cleared) => (moved(s, PlayStage::FindingVoice), PlayAction::FindVoice),
        (PlayStage::FindingVoice, PlayEvent::VoiceChannel(found)) => {
            if found {
                (moved(s, PlayStage::Joining), PlayAction::Join)
            } else {
                (moved(s, PlayStage::Done), PlayAction::Fail(PlayFailure::NotInVoiceChannel))
            }
        },
        (PlayStage::Joining, PlayEvent::Handler(ready)) => {
            if !ready {
                (moved(s, PlayStage::Done), PlayAction::Fail(PlayFailure::NoHandler))
            } else if matches!(s.route, PlayRoute::Search) {
                let query = s.query.clone();
                (moved(s, PlayStage::Searching), PlayAction::Search { query, count: MAX_QUERY })
            } else if matches!(s.route, PlayRoute::YoutubePlaylist) {
                let query = s.query.clone();
                (moved(s, PlayStage::Listing), PlayAction::ListPlaylist(query))
            } else {
                let query = s.query.clone();
                (moved(s, PlayStage::OpeningLink), PlayAction::Open(query))
            }
        },
        (PlayStage::Searching, PlayEvent::SearchFailed) =>
            (moved(s, PlayStage::AfterFailure), PlayAction::Fail(PlayFailure::SearchFailed)),
        (PlayStage::Searching, PlayEvent::SearchNotAList) =>
            (moved(s, PlayStage::Done), PlayAction::Fail(PlayFailure::NoSearchResults)),
        (PlayStage::Searching, PlayEvent::SearchOffered(links)) =>
            (PlayState { stage: PlayStage::Choosing, links, ..s }, PlayAction::ShowChoices),
        (PlayStage::Choosing, PlayEvent::ChoiceTimedOut) =>
            (moved(s, PlayStage::Done), PlayAction::Fail(PlayFailure::NoChoice)),
        (PlayStage::Choosing, PlayEvent::ChoiceUnreadable) =>
            (moved(s, PlayStage::Done), PlayAction::Fail(PlayFailure::BadChoice)),
        (PlayStage::Choosing, PlayEvent::Chosen(i)) => {
            if i == s.links.len() {
                (moved(s, PlayStage::Done), PlayAction::Cancel)
            } else {
                let link = s.links[i].clone();
                (moved(s, PlayStage::OpeningChoice), PlayAction::Open(link))
            }
        },
        (PlayStage::OpeningChoice, PlayEvent::Opened(ok)) => {
            if ok {
                (moved(s, PlayStage::Queueing), PlayAction::Enqueue)
            } else {
                (moved(s, PlayStage::Done), PlayAction::Fail(PlayFailure::ChosenSourceFailed))
            }
        },
        (PlayStage::OpeningLink, PlayEvent::Opened(ok)) => {
            if ok {
                (moved(s, PlayStage::Queueing), PlayAction::Enqueue)
            } else {
                (moved(s, PlayStage::Done), PlayAction::Fail(PlayFailure::SourceFailed))
            }
        },
        (PlayStage::Listing, PlayEvent::ListingFailed) => (moved(s, PlayStage::Reporting), PlayAction::Report),
        (PlayStage::Listing, PlayEvent::ListedSingleVideo) =>
            (moved(s, PlayStage::AfterFailure), PlayAction::Fail(PlayFailure::PlaylistDeadEnd)),
        (PlayStage::Listing, PlayEvent::ListedEntries(links)) => {
            if links.len() == 0 {
                (PlayState { stage: PlayStage::Reporting, links, next_entry: 0, ..s }, PlayAction::Report)
            } else {
                let first = links[0].clone();
                (PlayState { stage: PlayStage::OpeningEntry, links, next_entry: 0, ..s }, PlayAction::Open(first))
            }
        },
        (PlayStage::OpeningEntry, PlayEvent::Opened(ok)) => {
            if ok {
                (moved(s, PlayStage::Queueing), PlayAction::Enqueue)
            } else {
                (moved(s, PlayStage::Done), PlayAction::Fail(PlayFailure::PlaylistEntryFailed))
            }
        },
        (PlayStage::Queueing, PlayEvent::Queued) => {
            if matches!(s.route, PlayRoute::YoutubePlaylist) && s.next_entry < s.links.len()
                && s.links.len() - s.next_entry > 1 {
                let next = s.next_entry + 1;
                let link = s.links[next].clone();
                (PlayState { stage: PlayStage::OpeningEntry, next_entry: next, ..s }, PlayAction::Open(link))
            } else {
                (moved(s, PlayStage::Reporting), PlayAction::Report)
            }
        },
        (PlayStage::AfterFailure, PlayEvent::Shown) => (moved(s, PlayStage::Reporting), PlayAction::Report),
        _ => (moved(s, PlayStage::Done), PlayAction::Finish),
    }
}

/// Once `play` is done, nothing more happens whatever comes back.
pub proof fn law_play_done_stays_done(s: PlayStateView, e: PlayEventView)
    requires
        s.stage is Done,
    ensures
        play_transition(s, e).0.stage is Done,
        play_transition(s, e).1 is Finish,
{
}

/// Without a query, `play` shows the missing-query error and stops before
/// touching the guild's records, the voice channel or YouTube.
pub proof fn law_play_no_query_stops_first(s: PlayStateView)
    requires
        s.stage is Start,
        s.route is NoQuery,
    ensures
        play_transition(s, PlayEventView::Begun).0.stage is Done,
        play_transition(s, PlayEventView::Begun).1 == PlayActionView::Fail(PlayFailure::NoQuery),
{
}

/// `play` joins a voice channel only once the caller was found in one, and
/// when the caller is in none it shows that error and stops.
pub proof fn law_play_joins_only_after_voice(s: PlayStateView, e: PlayEventView)
    ensures
        play_transition(s, e).1 is Join ==> s.stage is FindingVoice && e == PlayEventView::VoiceChannel(true),
        s.stage is FindingVoice && e == PlayEventView::VoiceChannel(false) ==> {
            &&& play_transition(s, e).0.stage is Done
            &&& play_transition(s, e).1 == PlayActionView::Fail(PlayFailure::NotInVoiceChannel)
        },
{
}

/// `play` searches YouTube only for a query that is no link, once joined,
/// for the query itself and for `MAX_QUERY` results.
pub proof fn law_play_searches_only_queries(s: PlayStateView, e: PlayEventView)
    ensures
        play_transition(s, e).1 is Search ==> {
            &&& s.route is Search
            &&& s.stage is Joining
            &&& e == PlayEventView::Handler(true)
            &&& play_transition(s, e).1 == PlayActionView::Search { query: s.query, count: MAX_QUERY as nat }
        },
{
}

/// A direct link is opened as it is and, once opened, queued; after that
/// `play` reports.
pub proof fn law_play_direct_link_queues_it(s: PlayStateView)
    requires
        s.route is Direct,
    ensures
        s.stage is Joining ==> play_transition(s, PlayEventView::Handler(true)) == (
            at(s, PlayStage::OpeningLink),
            PlayActionView::Open(s.query),
        ),
        s.stage is OpeningLink ==> play_transition(s, PlayEventView::Opened(true)) == (
            at(s, PlayStage::Queueing),
            PlayActionView::Enqueue,
        ),
        s.stage is Queueing ==> play_transition(s, PlayEventView::Queued) == (
            at(s, PlayStage::Reporting),
            PlayActionView::Report,
        ),
{
}

/// The entries of a YouTube playlist are opened one after the other, in
/// order, each once it was queued; after the last one `play` reports, and
/// the first that cannot be opened stops it with that error.
pub proof fn law_play_playlist_in_order(s: PlayStateView, links: Seq<Seq<char>>)
    requires
        s.route is YoutubePlaylist,
    ensures
        s.stage is Listing && links.len() > 0 ==> play_transition(s, PlayEventView::ListedEntries(links)).1
            == PlayActionView::Open(links[0]),
        s.stage is Listing && links.len() > 0 ==> play_transition(s, PlayEventView::ListedEntries(links)).0.next_entry == 0,
        s.stage is OpeningEntry ==> play_transition(s, PlayEventView::Opened(true)).1 == PlayActionView::Enqueue,
        s.stage is OpeningEntry ==> play_transition(s, PlayEventView::Opened(false)).1 == PlayActionView::Fail(
            PlayFailure::PlaylistEntryFailed,
        ),
        s.stage is Queueing && s.next_entry + 1 < s.links.len() ==> {
            &&& play_transition(s, PlayEventView::Queued).1 == PlayActionView::Open(s.links[s.next_entry + 1int])
            &&& play_transition(s, PlayEventView::Queued).0.next_entry == s.next_entry + 1
            &&& play_transition(s, PlayEventView::Queued).0.links == s.links
        },
        s.stage is Queueing && s.next_entry + 1 >= s.links.len() ==> play_transition(s, PlayEventView::Queued).1
            is Report,
{
}

/// Of the search results offered, the button past the last cancels, and
/// any other opens the link it stands for.
pub proof fn law_play_choice(s: PlayStateView, i: nat)
    requires
        s.stage is Choosing,
        i <= s.links.len(),
    ensures
        i == s.links.len() ==> play_transition(s, PlayEventView::Chosen(i)).1 is Cancel,
        i < s.links.len() ==> play_transition(s, PlayEventView::Chosen(i)).1 == PlayActionView::Open(s.links[i as int]),
        play_transition(s, PlayEventView::ChoiceTimedOut).1 == PlayActionView::Fail(PlayFailure::NoChoice),
{
}

/// The states and actions of `play` over a run of events from state `s`:
/// the last state, and the action of each step in turn.
pub open spec fn play_run(s: PlayStateView, events: Seq<PlayEventView>) -> (PlayStateView, Seq<PlayActionView>)
    decreases events.len(),
{
    if events.len() == 0 {
        (s, Seq::empty())
    } else {
        let (s1, a) = play_transition(s, events[0]);
        let (s2, rest) = play_run(s1, events.drop_first());
        (s2, seq![a] + rest)
    }
}

/// Every track `play` manages to open is queued next: a chosen search
/// result, a direct link or a playlist entry, once opened, is enqueued
/// before anything else happens.
pub proof fn law_play_opened_is_queued(s: PlayStateView)
    requires
        s.stage is OpeningChoice || s.stage is OpeningLink || s.stage is OpeningEntry,
    ensures
        play_transition(s, PlayEventView::Opened(true)).1 is Enqueue,
        play_transition(s, PlayEventView::Opened(true)).0.stage is Queueing,
        play_transition(s, PlayEventView::Opened(true)).0.links == s.links,
        play_transition(s, PlayEventView::Opened(true)).0.next_entry == s.next_entry,
{
}

/// `play` reports only once its work is over: after a track was queued,
/// after a failure was shown, or when a playlist could not be listed or
/// was empty; never straight from choosing or opening a track.
pub proof fn law_play_reports_after_work(s: PlayStateView, e: PlayEventView)
    ensures
        play_transition(s, e).1 is Report ==> (s.stage is Queueing || s.stage is AfterFailure || s.stage is Listing),
{
}

/// A search that the caller answers by picking result `i`: `play` clears
/// the stored results, finds the caller's channel, joins it, searches for
/// the query, shows the results, opens the one picked, queues it and
/// reports, in that order.
pub proof fn law_play_search_run(query: Seq<char>, links: Seq<Seq<char>>, i: nat)
    requires
        i < links.len(),
    ensures
        ({
            let s0 = PlayStateView {
                stage: PlayStage::Start,
                route: PlayRoute::Search,
                query,
                links: Seq::empty(),
                next_entry: 0,
            };
            let events = seq![
                PlayEventView::Begun,
                PlayEventView::Cleared,
                PlayEventView::VoiceChannel(true),
                PlayEventView::Handler(true),
                PlayEventView::SearchOffered(links),
                PlayEventView::Chosen(i),
                PlayEventView::Opened(true),
                PlayEventView::Queued,
            ];
            &&& play_run(s0, events).1 == seq![
                PlayActionView::ClearSearch,
                PlayActionView::FindVoice,
                PlayActionView::Join,
                PlayActionView::Search { query, count: MAX_QUERY as nat },
                PlayActionView::ShowChoices,
                PlayActionView::Open(links[i as int]),
                PlayActionView::Enqueue,
                PlayActionView::Report,
            ]
            &&& play_run(s0, events).0.stage is Reporting
        }),
{
    let s0 = PlayStateView {
        stage: PlayStage::Start,
        route: PlayRoute::Search,
        query,
        links: Seq::empty(),
        next_entry: 0,
    };
    let events = seq![
        PlayEventView::Begun,
        PlayEventView::Cleared,
        PlayEventView::VoiceChannel(true),
        PlayEventView::Handler(true),
        PlayEventView::SearchOffered(links),
        PlayEventView::Chosen(i),
        PlayEventView::Opened(true),
        PlayEventView::Queued,
    ];
    let (s1, a1) = play_transition(s0, events[0]);
    let (s2, a2) = play_transition(s1, events[1]);
    let (s3, a3) = play_transition(s2, events[2]);
    let (s4, a4) = play_transition(s3, events[3]);
    let (s5, a5) = play_transition(s4, events[4]);
    let (s6, a6) = play_transition(s5, events[5]);
    let (s7, a7) = play_transition(s6, events[6]);
    let (s8, a8) = play_transition(s7, events[7]);
    let e8 = events.drop_first().drop_first().drop_first().drop_first().drop_first().drop_first().drop_first().drop_first();
    assert(e8 =~= Seq::<PlayEventView>::empty());
    assert(play_run(s8, e8) == (s8, Seq::<PlayActionView>::empty()));
    let e7 = events.drop_first().drop_first().drop_first().drop_first().drop_first().drop_first().drop_first();
    assert(e7[0] == events[7] && e7.drop_first() == e8);
    assert(play_run(s7, e7).1 =~= seq![a8]);
    let e6 = events.drop_first().drop_first().drop_first().drop_first().drop_first().drop_first();
    assert(e6[0] == events[6] && e6.drop_first() == e7);
    assert(play_run(s6, e6).1 =~= seq![a7, a8]);
    let e5 = events.drop_first().drop_first().drop_first().drop_first().drop_first();
    assert(e5[0] == events[5] && e5.drop_first() == e6);
    assert(play_run(s5, e5).1 =~= seq![a6, a7, a8]);
    let e4 = events.drop_first().drop_first().drop_first().drop_first();
    assert(e4[0] == events[4] && e4.drop_first() == e5);
    assert(play_run(s4, e4).1 =~= seq![a5, a6, a7, a8]);
    let e3 = events.drop_first().drop_first().drop_first();
    assert(e3[0] == events[3] && e3.drop_first() == e4);
    assert(play_run(s3, e3).1 =~= seq![a4, a5, a6, a7, a8]);
    let e2 = events.drop_first().drop_first();
    assert(e2[0] == events[2] && e2.drop_first() == e3);
    assert(play_run(s2, e2).1 =~= seq![a3, a4, a5, a6, a7, a8]);
    let e1 = events.drop_first();
    assert(e1[0] == events[1] && e1.drop_first() == e2);
    assert(play_run(s1, e1).1 =~= seq![a2, a3, a4, a5, a6, a7, a8]);
    assert(play_run(s0, events).1 =~= seq![a1, a2, a3, a4, a5, a6, a7, a8]);
    assert(play_run(s0, events).0 == s8);
    assert(s8.stage is Reporting);
}

} // verus!
