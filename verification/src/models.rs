//! The records the bot keeps for users, guilds and guild memberships, as
//! they are stored in the database and in the in-memory caches.

use vstd::prelude::*;
use vstd::string::*;
use crate::text::{join_lines, split_lines, views, no_newline, join_with_newlines, split_at_newlines, lemma_split_join, lemma_join_split};

verus! {

broadcast use vstd::string::group_string_axioms;

/// The character view of an optional string.
pub open spec fn opt_view(o: Option<String>) -> Option<Seq<char>> {
    match o {
        Some(s) => Some(s@),
        None => None,
    }
}

/// A Discord user known to the bot.
#[derive(Debug)]
pub struct User {
    pub id: i64,
    pub name: Option<String>,
    pub tag: Option<String>,
    pub current_channel_id: Option<String>,
}

/// What a [`User`] holds, with its strings taken as character sequences.
pub struct UserView {
    pub id: i64,
    pub name: Option<Seq<char>>,
    pub tag: Option<Seq<char>>,
    pub current_channel_id: Option<Seq<char>>,
}

impl View for User {
    type V = UserView;

    open spec fn view(&self) -> UserView {
        UserView {
            id: self.id,
            name: opt_view(self.name),
            tag: opt_view(self.tag),
            current_channel_id: opt_view(self.current_channel_id),
        }
    }
}

impl User {
    /// A user record with the given fields.
    pub fn new(
        id: i64,
        name: Option<String>,
        tag: Option<String>,
        current_channel_id: Option<String>,
    ) -> (u: User)
        ensures
            u.id == id,
            u.name == name,
            u.tag == tag,
            u.current_channel_id == current_channel_id,
    {
        User { id, name, tag, current_channel_id }
    }

    /// Records the voice channel the user is in.
    pub fn change_channel(&mut self, channel_id: String) -> (res: &User)
        ensures
            final(self).id == old(self).id,
            final(self).name == old(self).name,
            final(self).tag == old(self).tag,
            final(self).current_channel_id == Some(channel_id),
            *res == *final(self),
    {
        self.current_channel_id = Some(channel_id);
        self
    }
}

} // verus!

verus! {

/// A Discord guild (server) known to the bot. Besides the columns of the
/// guild table it keeps the titles of its last search, newline-joined.
#[derive(Debug)]
pub struct Guild {
    pub id: i64,
    pub name: Option<String>,
    pub prefix: Option<String>,
    pub owner_id: Option<i64>,
    pub cur_vc_id: Option<String>,
    pub query_results: Option<String>,
}

/// What a [`Guild`] holds, with its strings taken as character sequences.
pub struct GuildView {
    pub id: i64,
    pub name: Option<Seq<char>>,
    pub prefix: Option<Seq<char>>,
    pub owner_id: Option<i64>,
    pub cur_vc_id: Option<Seq<char>>,
    pub query_results: Option<Seq<char>>,
}

impl View for Guild {
    type V = GuildView;

    open spec fn view(&self) -> GuildView {
        GuildView {
            id: self.id,
            name: opt_view(self.name),
            prefix: opt_view(self.prefix),
            owner_id: self.owner_id,
            cur_vc_id: opt_view(self.cur_vc_id),
            query_results: opt_view(self.query_results),
        }
    }
}

/// The titles a stored search string stands for: none when nothing is
/// stored, else the pieces between its newlines.
pub open spec fn stored_titles(q: Option<Seq<char>>) -> Option<Seq<Seq<char>>> {
    match q {
        Some(s) => Some(split_lines(s)),
        None => None,
    }
}

impl Guild {
    /// A guild record with the given fields and no stored search.
    pub fn new(
        id: i64,
        name: Option<String>,
        prefix: Option<String>,
        owner_id: Option<i64>,
        cur_vc_id: Option<String>,
    ) -> (g: Guild)
        ensures
            g@ == (GuildView {
                id,
                name: opt_view(name),
                prefix: opt_view(prefix),
                owner_id,
                cur_vc_id: opt_view(cur_vc_id),
                query_results: None,
            }),
    {
        Guild { id, name, prefix, owner_id, cur_vc_id, query_results: None }
    }

    /// Records the voice channel the bot is in for this guild.
    pub fn set_channel(&mut self, channel_id: String) -> (res: &Guild)
        ensures
            final(self)@ == (GuildView { cur_vc_id: Some(channel_id@), ..old(self)@ }),
            *res == *final(self),
    {
        self.cur_vc_id = Some(channel_id);
        self
    }

    /// Renames the guild.
    pub fn set_name(&mut self, name: String) -> (res: &Guild)
        ensures
            final(self)@ == (GuildView { name: Some(name@), ..old(self)@ }),
            *res == *final(self),
    {
        self.name = Some(name);
        self
    }

    /// The guild's name, or the empty string when it has none.
    pub fn get_name(&self) -> (res: &str)
        ensures
            res@ == match self@.name {
                Some(n) => n,
                None => Seq::<char>::empty(),
            },
    {
        match &self.name {
            Some(n) => n.as_str(),
            None => {
                proof {
                    reveal_strlit("");
                }
                ""
            },
        }
    }

    /// The guild with its command prefix replaced.
    pub fn set_prefix(self, prefix: String) -> (g: Guild)
        ensures
            g@ == (GuildView { prefix: Some(prefix@), ..self@ }),
    {
        let mut g = self;
        g.prefix = Some(prefix);
        g
    }

    /// Stores the given search titles, newline-joined, or clears the stored
    /// search when given none.
    pub fn set_query_results(&mut self, query_results: &Option<Vec<String>>) -> (res: &Guild)
        ensures
            final(self)@ == (GuildView {
                query_results: match query_results {
                    Some(q) => Some(join_lines(views(q@))),
                    None => None,
                },
                ..old(self)@
            }),
            *res == *final(self),
    {
        if let Some(q) = query_results {
            self.query_results = Some(join_with_newlines(q));
        } else {
            self.query_results = None;
        }
        self
    }

    /// The stored search titles: the pieces of the stored string between
    /// its newlines, or none when nothing is stored.
    pub fn get_query_results(&self) -> (res: Option<Vec<String>>)
        ensures
            match res {
                Some(v) => stored_titles(self@.query_results) == Some(views(v@)),
                None => stored_titles(self@.query_results) is None,
            },
    {
        match &self.query_results {
            Some(q) => Some(split_at_newlines(q.as_str())),
            None => None,
        }
    }

    /// Forgets the stored search.
    pub fn empty_query_results(&mut self) -> (res: &Guild)
        ensures
            final(self)@ == (GuildView { query_results: None, ..old(self)@ }),
            *res == *final(self),
    {
        self.query_results = None;
        self
    }
}

/// Storing a non-empty list of newline-free titles and reading it back
/// gives the same titles.
pub proof fn law_query_results_round_trip(titles: Seq<Seq<char>>)
    requires
        titles.len() >= 1,
        forall|i: int| 0 <= i < titles.len() ==> no_newline(#[trigger] titles[i]),
    ensures
        stored_titles(Some(join_lines(titles))) == Some(titles),
{
    lemma_split_join(titles);
}

/// Whatever string is stored, storing the titles read from it stores the
/// same string again.
pub proof fn law_query_results_restore(q: Seq<char>)
    ensures
        join_lines(stored_titles(Some(q)).unwrap()) == q,
{
    lemma_join_split(q);
}

/// A user's membership in a guild.
#[derive(Debug, Clone, Copy, PartialEq, Eq, Structural)]
pub struct GuildUser {
    pub user_id: i64,
    pub guild_id: i64,
}

impl GuildUser {
    /// The membership of user `user_id` in guild `guild_id`.
    pub fn new(user_id: i64, guild_id: i64) -> (gu: GuildUser)
        ensures
            gu.user_id == user_id,
            gu.guild_id == guild_id,
    {
        GuildUser { user_id, guild_id }
    }
}


fn copy_opt(o: &Option<String>) -> (res: Option<String>)
    ensures
        res == *o,
{
    match o {
        Some(s) => Some(s.clone()),
        None => None,
    }
}

impl Clone for User {
    fn clone(&self) -> (res: User)
        ensures
            res == *self,
    {
        User {
            id: self.id,
            name: copy_opt(&self.name),
            tag: copy_opt(&self.tag),
            current_channel_id: copy_opt(&self.current_channel_id),
        }
    }
}

impl Clone for Guild {
    fn clone(&self) -> (res: Guild)
        ensures
            res == *self,
    {
        Guild {
            id: self.id,
            name: copy_opt(&self.name),
            prefix: copy_opt(&self.prefix),
            owner_id: self.owner_id,
            cur_vc_id: copy_opt(&self.cur_vc_id),
            query_results: copy_opt(&self.query_results),
        }
    }
}

} // verus!
