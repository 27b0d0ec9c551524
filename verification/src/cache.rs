//! The bot's in-memory caches of users, guilds and memberships, and how
//! each Discord event changes them. Every change that must also reach the
//! database is returned as a list of [`DbAction`]s, in the order in which
//! the database is to be written.

use std::collections::HashMap;
use vstd::prelude::*;
use vstd::string::*;
use crate::models::{User, UserView, Guild, GuildView, GuildUser};
use crate::commands::valid_prefixes;

verus! {

broadcast use {vstd::string::group_string_axioms, vstd::std_specs::hash::group_hash_axioms};

/// A guild member as the gateway reports it.
#[derive(Debug)]
pub struct MemberInfo {
    pub user_id: i64,
    pub name: String,
    pub tag: String,
}

/// A guild as the gateway reports it, with its members in the order in
/// which they were listed.
#[derive(Debug)]
pub struct GuildInfo {
    pub id: i64,
    pub name: String,
    pub owner_id: i64,
    pub members: Vec<MemberInfo>,
}

/// A write that the database must receive.
#[derive(Debug)]
pub enum DbAction {
    InsertUser(User),
    InsertGuild(Guild),
    InsertGuildUser(GuildUser),
    UpdateGuild(Guild),
    DeleteUser(i64),
    DeleteGuild(i64),
}

/// A [`DbAction`] with its records taken by their views.
pub enum DbActionView {
    InsertUser(UserView),
    InsertGuild(GuildView),
    InsertGuildUser(GuildUser),
    UpdateGuild(GuildView),
    DeleteUser(i64),
    DeleteGuild(i64),
}

impl View for DbAction {
    type V = DbActionView;

    open spec fn view(&self) -> DbActionView {
        match self {
            DbAction::InsertUser(u) => DbActionView::InsertUser(u@),
            DbAction::InsertGuild(g) => DbActionView::InsertGuild(g@),
            DbAction::InsertGuildUser(gu) => DbActionView::InsertGuildUser(*gu),
            DbAction::UpdateGuild(g) => DbActionView::UpdateGuild(g@),
            DbAction::DeleteUser(id) => DbActionView::DeleteUser(*id),
            DbAction::DeleteGuild(id) => DbActionView::DeleteGuild(*id),
        }
    }
}

/// The views of a list of database writes.
pub open spec fn action_views(v: Seq<DbAction>) -> Seq<DbActionView> {
    v.map_values(|a: DbAction| a@)
}

/// The caches: users and guilds by id, and the list of memberships.
pub struct Caches {
    pub users: HashMap<i64, User>,
    pub guilds: HashMap<i64, Guild>,
    pub guild_users: Vec<GuildUser>,
}

/// What the caches hold, with each record taken by its view.
#[verifier::ext_equal]
pub struct CachesView {
    pub users: Map<i64, UserView>,
    pub guilds: Map<i64, GuildView>,
    pub guild_users: Seq<GuildUser>,
}

impl View for Caches {
    type V = CachesView;

    open spec fn view(&self) -> CachesView {
        CachesView {
            users: self.users@.map_values(|u: User| u@),
            guilds: self.guilds@.map_values(|g: Guild| g@),
            guild_users: self.guild_users@,
        }
    }
}

impl CachesView {
    /// Every cached user and guild is filed under its own id.
    pub open spec fn wf(self) -> bool {
        &&& forall|k: i64| #[trigger] self.users.contains_key(k) ==> self.users[k].id == k
        &&& forall|k: i64| #[trigger] self.guilds.contains_key(k) ==> self.guilds[k].id == k
    }
}

/// The user record made for a newly seen member.
pub open spec fn member_user(m: MemberInfo) -> UserView {
    UserView {
        id: m.user_id,
        name: Some(m.name@),
        tag: Some(m.tag@),
        current_channel_id: Some(Seq::empty()),
    }
}

/// The guild record made for a newly seen guild.
pub open spec fn new_guild_record(g: GuildInfo) -> GuildView {
    GuildView {
        id: g.id,
        name: Some(g.name@),
        prefix: Some(seq!['!']),
        owner_id: Some(g.owner_id),
        cur_vc_id: Some(Seq::empty()),
        query_results: None,
    }
}

/// No two members share a user id (the gateway keys members by user id).
pub open spec fn distinct_members(ms: Seq<MemberInfo>) -> bool {
    forall|i: int, j: int|
        0 <= i < ms.len() && 0 <= j < ms.len() && i != j ==> ms[i].user_id != ms[j].user_id
}

fn empty_string() -> (s: String)
    ensures
        s@ == Seq::<char>::empty(),
{
    String::new()
}

/// The user record for a member seen for the first time.
pub fn user_for_member(m: &MemberInfo) -> (u: User)
    ensures
        u@ == member_user(*m),
{
    User::new(m.user_id, Some(m.name.clone()), Some(m.tag.clone()), Some(empty_string()))
}

/// The guild record for a guild seen for the first time: its name, the
/// prefix `!`, its owner and an empty voice channel.
pub fn guild_for_info(g: &GuildInfo) -> (res: Guild)
    ensures
        res@ == new_guild_record(*g),
{
    let bang = "!";
    proof {
        reveal_strlit("!");
    }
    let prefix = bang.to_owned();
    assert(prefix@ =~= seq!['!']);
    Guild::new(g.id, Some(g.name.clone()), Some(prefix), Some(g.owner_id), Some(empty_string()))
}

impl Caches {
    /// Empty caches.
    pub fn new() -> (c: Caches)
        ensures
            c@.users == Map::<i64, UserView>::empty(),
            c@.guilds == Map::<i64, GuildView>::empty(),
            c@.guild_users == Seq::<GuildUser>::empty(),
            c@.wf(),
    {
        let c = Caches { users: HashMap::new(), guilds: HashMap::new(), guild_users: Vec::new() };
        assert(c@.users =~= Map::<i64, UserView>::empty());
        assert(c@.guilds =~= Map::<i64, GuildView>::empty());
        c
    }
}


/// The effect of a member of guild `guild_id` joining: a user not yet
/// cached is cached and recorded as a member; a known user changes nothing.
pub open spec fn addition_spec(s: CachesView, guild_id: i64, m: MemberInfo) -> (CachesView, Seq<DbActionView>) {
    if s.users.contains_key(m.user_id) {
        (s, Seq::empty())
    } else {
        let gu = GuildUser { user_id: m.user_id, guild_id };
        (
            CachesView {
                users: s.users.insert(m.user_id, member_user(m)),
                guild_users: s.guild_users.push(gu),
                ..s
            },
            seq![DbActionView::InsertUser(member_user(m)), DbActionView::InsertGuildUser(gu)],
        )
    }
}

impl Caches {
    /// A member joined guild `guild_id`. A user not yet cached is cached
    /// and recorded as a member of the guild; a known user changes nothing.
    pub fn guild_member_addition(&mut self, guild_id: i64, member: &MemberInfo) -> (actions: Vec<DbAction>)
        requires
            old(self)@.wf(),
        ensures
            final(self)@.wf(),
            final(self)@ == addition_spec(old(self)@, guild_id, *member).0,
            action_views(actions@) == addition_spec(old(self)@, guild_id, *member).1,
    {
        let mut actions: Vec<DbAction> = Vec::new();
        let uid = member.user_id;
        let ghost s0 = self@;
        if self.users.contains_key(&uid) {
            assert(action_views(actions@) =~= Seq::<DbActionView>::empty());
            assert(self@ =~= s0);
            return actions;
        }
        let ghost old_users = self.users@;
        self.users.insert(uid, user_for_member(member));
        actions.push(DbAction::InsertUser(user_for_member(member)));
        let gu = GuildUser::new(uid, guild_id);
        self.guild_users.push(GuildUser::new(uid, guild_id));
        actions.push(DbAction::InsertGuildUser(gu));
        assert(self@.users =~= old_users.map_values(|u: User| u@).insert(uid, member_user(*member)));
        assert(action_views(actions@) =~= seq![
            DbActionView::InsertUser(member_user(*member)),
            DbActionView::InsertGuildUser(GuildUser { user_id: uid, guild_id }),
        ]);
        assert(self@ =~= addition_spec(s0, guild_id, *member).0);
        actions
    }
}


/// `gu` records user `user_id` as a member of guild `guild_id`.
pub open spec fn is_link(gu: GuildUser, guild_id: i64, user_id: i64) -> bool {
    gu.guild_id == guild_id && gu.user_id == user_id
}

/// The membership list ends with a record of `user_id` in `guild_id`.
pub open spec fn last_is_link(gus: Seq<GuildUser>, guild_id: i64, user_id: i64) -> bool {
    gus.len() > 0 && is_link(gus.last(), guild_id, user_id)
}

/// No membership record before the last one links `user_id` to
/// `guild_id`: the inputs on which the removal scan stays in bounds.
pub open spec fn removal_allowed(s: CachesView, guild_id: i64, user_id: i64) -> bool {
    forall|i: int|
        0 <= i < s.guild_users.len() - 1 ==> !is_link(#[trigger] s.guild_users[i], guild_id, user_id)
}

/// The effect of user `user_id` leaving guild `guild_id`: when the last
/// membership record is theirs in that guild, it is dropped and so is the
/// user (the database hears of it when the user was cached).
pub open spec fn removal_spec(s: CachesView, guild_id: i64, user_id: i64) -> (CachesView, Seq<DbActionView>) {
    if last_is_link(s.guild_users, guild_id, user_id) {
        (
            CachesView {
                users: s.users.remove(user_id),
                guild_users: s.guild_users.drop_last(),
                ..s
            },
            if s.users.contains_key(user_id) {
                seq![DbActionView::DeleteUser(user_id)]
            } else {
                Seq::empty()
            },
        )
    } else {
        (s, Seq::empty())
    }
}

impl Caches {
    /// A member left guild `guild_id`. The membership list is scanned by
    /// index over its length at entry, and a matching record is removed
    /// where it is found, together with the user. A removal before the last
    /// index makes the scan index past the shortened list, so only a match
    /// in the last place can be handled.
    pub fn guild_member_removal(&mut self, guild_id: i64, user_id: i64) -> (actions: Vec<DbAction>)
        requires
            old(self)@.wf(),
            removal_allowed(old(self)@, guild_id, user_id),
        ensures
            final(self)@.wf(),
            final(self)@ == removal_spec(old(self)@, guild_id, user_id).0,
            action_views(actions@) == removal_spec(old(self)@, guild_id, user_id).1,
    {
        let ghost old_view = self@;
        let ghost hit = last_is_link(old_view.guild_users, guild_id, user_id);
        let mut actions: Vec<DbAction> = Vec::new();
        let n = self.guild_users.len();
        let mut i: usize = 0;
        while i < n
            invariant
                n == old_view.guild_users.len(),
                i <= n,
                self@.guilds == old_view.guilds,
                old_view.wf(),
                forall|k: int|
                    0 <= k < n - 1 ==> !is_link(#[trigger] old_view.guild_users[k], guild_id, user_id),
                hit == last_is_link(old_view.guild_users, guild_id, user_id),
                !(i == n && hit) ==> {
                    &&& self@.guild_users == old_view.guild_users
                    &&& self@.users == old_view.users
                    &&& action_views(actions@) == Seq::<DbActionView>::empty()
                },
                i == n && hit ==> {
                    &&& self@.guild_users == old_view.guild_users.drop_last()
                    &&& self@.users == old_view.users.remove(user_id)
                    &&& action_views(actions@) == if old_view.users.contains_key(user_id) {
                        seq![DbActionView::DeleteUser(user_id)]
                    } else {
                        Seq::<DbActionView>::empty()
                    }
                },
            decreases n - i,
        {
            if self.guild_users[i].guild_id == guild_id && self.guild_users[i].user_id == user_id {
                assert(i == n - 1);
                self.guild_users.remove(i);
                if let Some(u) = self.users.get(&user_id) {
                    assert(old_view.users.contains_key(user_id));
                    assert(old_view.users[user_id] == u@);
                    actions.push(DbAction::DeleteUser(u.id));
                    assert(action_views(actions@) =~= seq![DbActionView::DeleteUser(user_id)]);
                }
                self.users.remove(&user_id);
                assert(self@.users =~= old_view.users.remove(user_id));
                assert(self@.guild_users =~= old_view.guild_users.drop_last());
            }
            i = i + 1;
        }
        assert(self@ =~= removal_spec(old_view, guild_id, user_id).0);
        actions
    }
}


/// The user ids recorded as members of guild `guild_id`, in list order.
pub open spec fn members_of(gus: Seq<GuildUser>, guild_id: i64) -> Seq<i64>
    decreases gus.len(),
{
    if gus.len() == 0 {
        Seq::empty()
    } else {
        let rest = members_of(gus.drop_last(), guild_id);
        if gus.last().guild_id == guild_id {
            rest.push(gus.last().user_id)
        } else {
            rest
        }
    }
}

/// The deletion of each of the given users, in order.
pub open spec fn user_deletions(ids: Seq<i64>) -> Seq<DbActionView> {
    ids.map_values(|id: i64| DbActionView::DeleteUser(id))
}

proof fn lemma_members_of_prefix(gus: Seq<GuildUser>, guild_id: i64, i: int)
    requires
        0 <= i <= gus.len(),
    ensures
        members_of(gus.take(i), guild_id).is_prefix_of(members_of(gus, guild_id)),
    decreases gus.len(),
{
    if i == gus.len() {
        assert(gus.take(i) =~= gus);
    } else {
        lemma_members_of_prefix(gus.drop_last(), guild_id, i);
        assert(gus.drop_last().take(i) =~= gus.take(i));
    }
}

/// The inputs on which removing guild `guild_id` finds every record it
/// looks up: the guild is cached, and the users recorded as its members are
/// cached and recorded once each.
pub open spec fn delete_allowed(s: CachesView, guild_id: i64) -> bool {
    let ids = members_of(s.guild_users, guild_id);
    &&& s.guilds.contains_key(guild_id)
    &&& ids.no_duplicates()
    &&& forall|j: int| 0 <= j < ids.len() ==> s.users.contains_key(#[trigger] ids[j])
}

/// The effect of the bot leaving guild `guild_id`: the users recorded as
/// its members and the guild leave the caches and the database.
pub open spec fn delete_spec(s: CachesView, guild_id: i64) -> (CachesView, Seq<DbActionView>) {
    let ids = members_of(s.guild_users, guild_id);
    (
        CachesView {
            users: s.users.remove_keys(ids.to_set()),
            guilds: s.guilds.remove(guild_id),
            guild_users: s.guild_users,
        },
        user_deletions(ids).push(DbActionView::DeleteGuild(guild_id)),
    )
}

impl Caches {
    /// The bot was removed from guild `guild_id`: every user recorded as a
    /// member of it is dropped from the cache and the database, then the
    /// guild itself. The membership list is left as it was.
    pub fn guild_delete(&mut self, guild_id: i64) -> (actions: Vec<DbAction>)
        requires
            old(self)@.wf(),
            delete_allowed(old(self)@, guild_id),
        ensures
            final(self)@.wf(),
            final(self)@ == delete_spec(old(self)@, guild_id).0,
            action_views(actions@) == delete_spec(old(self)@, guild_id).1,
    {
        let ghost old_view = self@;
        let ghost all = members_of(old_view.guild_users, guild_id);
        let mut actions: Vec<DbAction> = Vec::new();
        let n = self.guild_users.len();
        let mut i: usize = 0;
        while i < n
            invariant
                n == old_view.guild_users.len(),
                i <= n,
                old_view.wf(),
                all == members_of(old_view.guild_users, guild_id),
                all.no_duplicates(),
                forall|j: int| 0 <= j < all.len() ==> old_view.users.contains_key(#[trigger] all[j]),
                self@.guild_users == old_view.guild_users,
                self@.guilds == old_view.guilds,
                self@.users == old_view.users.remove_keys(
                    members_of(old_view.guild_users.take(i as int), guild_id).to_set(),
                ),
                action_views(actions@) == user_deletions(
                    members_of(old_view.guild_users.take(i as int), guild_id),
                ),
            decreases n - i,
        {
            let ghost before = members_of(old_view.guild_users.take(i as int), guild_id);
            proof {
                assert(old_view.guild_users.take(i + 1).drop_last() =~= old_view.guild_users.take(
                    i as int,
                ));
                lemma_members_of_prefix(old_view.guild_users, guild_id, i + 1);
            }
            if self.guild_users[i].guild_id == guild_id {
                let uid = self.guild_users[i].user_id;
                let ghost after = before.push(uid);
                assert(members_of(old_view.guild_users.take(i + 1), guild_id) == after);
                proof {
                    let k = before.len() as int;
                    assert(after.is_prefix_of(all));
                    assert(after[k] == all.subrange(0, after.len() as int)[k]);
                    assert(all[k] == uid);
                    assert(old_view.users.contains_key(uid));
                    assert(!before.contains(uid)) by {
                        if before.contains(uid) {
                            let j = choose|j: int| 0 <= j < before.len() && before[j] == uid;
                            assert(after[j] == all.subrange(0, after.len() as int)[j]);
                            assert(all[j] == uid);
                        }
                    }
                    assert(!before.to_set().contains(uid));
                }
                let ghost acts_before = actions@;
                let ghost mid = self@.users;
                assert(mid.contains_key(uid));
                match self.users.get(&uid) {
                    Some(u) => {
                        assert(self@.users.contains_key(uid));
                        assert(self@.users[uid] == u@);
                        assert(self@.users[uid] == old_view.users[uid]);
                        actions.push(DbAction::DeleteUser(u.id));
                        assert(actions@ == acts_before.push(DbAction::DeleteUser(uid)));
                    },
                    None => {
                        assert(false);
                    },
                }
                self.users.remove(&uid);
                assert(self@.users =~= mid.remove(uid));
                proof {
                    before.lemma_push_to_set_commute(uid);
                }
                assert(after.to_set() =~= before.to_set().insert(uid));
                assert(self@.users =~= old_view.users.remove_keys(after.to_set()));
                assert(action_views(actions@) =~= action_views(acts_before).push(DbActionView::DeleteUser(uid)));
                assert(user_deletions(after) =~= user_deletions(before).push(DbActionView::DeleteUser(uid)));
            } else {
                assert(members_of(old_view.guild_users.take(i + 1), guild_id) == before);
            }
            i = i + 1;
        }
        assert(old_view.guild_users.take(n as int) =~= old_view.guild_users);
        if self.guilds.contains_key(&guild_id) {
            actions.push(DbAction::DeleteGuild(guild_id));
        }
        self.guilds.remove(&guild_id);
        assert(self@.guilds =~= old_view.guilds.remove(guild_id));
        assert(action_views(actions@) =~= user_deletions(all).push(DbActionView::DeleteGuild(guild_id)));
        assert(self@ =~= delete_spec(old_view, guild_id).0);
        actions
    }
}


/// Caches every member not cached yet, in order, logging each insertion.
pub open spec fn register_users(
    users: Map<i64, UserView>,
    log: Seq<DbActionView>,
    ms: Seq<MemberInfo>,
) -> (Map<i64, UserView>, Seq<DbActionView>)
    decreases ms.len(),
{
    if ms.len() == 0 {
        (users, log)
    } else {
        let (u, l) = register_users(users, log, ms.drop_last());
        let m = ms.last();
        if u.contains_key(m.user_id) {
            (u, l)
        } else {
            (u.insert(m.user_id, member_user(m)), l.push(DbActionView::InsertUser(member_user(m))))
        }
    }
}

/// Caches every member not cached yet, in order, and records each of them
/// as a member of guild `guild_id`, logging both insertions.
pub open spec fn admit_members(
    users: Map<i64, UserView>,
    gus: Seq<GuildUser>,
    log: Seq<DbActionView>,
    ms: Seq<MemberInfo>,
    guild_id: i64,
) -> (Map<i64, UserView>, Seq<GuildUser>, Seq<DbActionView>)
    decreases ms.len(),
{
    if ms.len() == 0 {
        (users, gus, log)
    } else {
        let (u, g, l) = admit_members(users, gus, log, ms.drop_last(), guild_id);
        let m = ms.last();
        let link = GuildUser { user_id: m.user_id, guild_id };
        if u.contains_key(m.user_id) {
            (u, g, l)
        } else {
            (
                u.insert(m.user_id, member_user(m)),
                g.push(link),
                l.push(DbActionView::InsertUser(member_user(m))).push(
                    DbActionView::InsertGuildUser(link),
                ),
            )
        }
    }
}

/// The memberships of all of `ms` in guild `guild_id`, in order.
pub open spec fn links_for(ms: Seq<MemberInfo>, guild_id: i64) -> Seq<GuildUser> {
    ms.map_values(|m: MemberInfo| GuildUser { user_id: m.user_id, guild_id })
}

/// The insertion of each of the given memberships, in order.
pub open spec fn link_insertions(gus: Seq<GuildUser>) -> Seq<DbActionView> {
    gus.map_values(|gu: GuildUser| DbActionView::InsertGuildUser(gu))
}

/// The member whose user id is `user_id`, if there is one.
pub open spec fn member_with_id(ms: Seq<MemberInfo>, user_id: i64) -> Option<MemberInfo> {
    if exists|i: int| 0 <= i < ms.len() && #[trigger] ms[i].user_id == user_id {
        Some(ms[choose|i: int| 0 <= i < ms.len() && #[trigger] ms[i].user_id == user_id])
    } else {
        None
    }
}

/// Every cached user is filed under its own id.
pub open spec fn users_wf(users: Map<i64, UserView>) -> bool {
    forall|k: i64| #[trigger] users.contains_key(k) ==> users[k].id == k
}

proof fn lemma_register_users_wf(users: Map<i64, UserView>, log: Seq<DbActionView>, ms: Seq<MemberInfo>)
    requires
        users_wf(users),
    ensures
        users_wf(register_users(users, log, ms).0),
    decreases ms.len(),
{
    if ms.len() > 0 {
        lemma_register_users_wf(users, log, ms.drop_last());
    }
}

proof fn lemma_admit_members_wf(
    users: Map<i64, UserView>,
    gus: Seq<GuildUser>,
    log: Seq<DbActionView>,
    ms: Seq<MemberInfo>,
    guild_id: i64,
)
    requires
        users_wf(users),
    ensures
        users_wf(admit_members(users, gus, log, ms, guild_id).0),
    decreases ms.len(),
{
    if ms.len() > 0 {
        lemma_admit_members_wf(users, gus, log, ms.drop_last(), guild_id);
    }
}

/// Whether some member has user id `user_id`; the first such index.
fn find_member(ms: &Vec<MemberInfo>, user_id: i64) -> (res: Option<usize>)
    ensures
        match res {
            Some(i) => i < ms@.len() && ms@[i as int].user_id == user_id,
            None => forall|i: int| 0 <= i < ms@.len() ==> ms@[i].user_id != user_id,
        },
{
    let mut i: usize = 0;
    while i < ms.len()
        invariant
            i <= ms@.len(),
            forall|k: int| 0 <= k < i ==> ms@[k].user_id != user_id,
        decreases ms@.len() - i,
    {
        if ms[i].user_id == user_id {
            return Some(i);
        }
        i = i + 1;
    }
    None
}

impl Caches {
    fn admit_all(&mut self, ms: &Vec<MemberInfo>, guild_id: i64, actions: &mut Vec<DbAction>)
        requires
            users_wf(old(self)@.users),
        ensures
            final(self)@.guilds == old(self)@.guilds,
            final(self)@.users == admit_members(
                old(self)@.users,
                old(self)@.guild_users,
                action_views(old(actions)@),
                ms@,
                guild_id,
            ).0,
            final(self)@.guild_users == admit_members(
                old(self)@.users,
                old(self)@.guild_users,
                action_views(old(actions)@),
                ms@,
                guild_id,
            ).1,
            action_views(final(actions)@) == admit_members(
                old(self)@.users,
                old(self)@.guild_users,
                action_views(old(actions)@),
                ms@,
                guild_id,
            ).2,
    {
        let ghost s0 = self@;
        let ghost l0 = action_views(actions@);
        let mut i: usize = 0;
        while i < ms.len()
            invariant
                i <= ms@.len(),
                self@.guilds == s0.guilds,
                ({
                    let r = admit_members(s0.users, s0.guild_users, l0, ms@.take(i as int), guild_id);
                    &&& self@.users == r.0
                    &&& self@.guild_users == r.1
                    &&& action_views(actions@) == r.2
                }),
            decreases ms@.len() - i,
        {
            proof {
                assert(ms@.take(i + 1).drop_last() =~= ms@.take(i as int));
                assert(ms@.take(i + 1).last() == ms@[i as int]);
            }
            let m = &ms[i];
            if !self.users.contains_key(&m.user_id) {
                let ghost u0 = self@.users;
                let ghost a0 = action_views(actions@);
                let link = GuildUser::new(m.user_id, guild_id);
                self.users.insert(m.user_id, user_for_member(m));
                self.guild_users.push(GuildUser::new(m.user_id, guild_id));
                actions.push(DbAction::InsertUser(user_for_member(m)));
                actions.push(DbAction::InsertGuildUser(link));
                assert(self@.users =~= u0.insert(m.user_id, member_user(*m)));
                assert(action_views(actions@) =~= a0.push(DbActionView::InsertUser(member_user(*m))).push(
                    DbActionView::InsertGuildUser(link),
                ));
            }
            i = i + 1;
        }
        assert(ms@.take(ms@.len() as int) =~= ms@);
    }

    fn register_all(&mut self, ms: &Vec<MemberInfo>, actions: &mut Vec<DbAction>)
        ensures
            final(self)@.guilds == old(self)@.guilds,
            final(self)@.guild_users == old(self)@.guild_users,
            final(self)@.users == register_users(old(self)@.users, action_views(old(actions)@), ms@).0,
            action_views(final(actions)@) == register_users(
                old(self)@.users,
                action_views(old(actions)@),
                ms@,
            ).1,
    {
        let ghost s0 = self@;
        let ghost l0 = action_views(actions@);
        let mut i: usize = 0;
        while i < ms.len()
            invariant
                i <= ms@.len(),
                self@.guilds == s0.guilds,
                self@.guild_users == s0.guild_users,
                ({
                    let r = register_users(s0.users, l0, ms@.take(i as int));
                    &&& self@.users == r.0
                    &&& action_views(actions@) == r.1
                }),
            decreases ms@.len() - i,
        {
            proof {
                assert(ms@.take(i + 1).drop_last() =~= ms@.take(i as int));
                assert(ms@.take(i + 1).last() == ms@[i as int]);
            }
            let m = &ms[i];
            if !self.users.contains_key(&m.user_id) {
                let ghost u0 = self@.users;
                let ghost a0 = action_views(actions@);
                self.users.insert(m.user_id, user_for_member(m));
                actions.push(DbAction::InsertUser(user_for_member(m)));
                assert(self@.users =~= u0.insert(m.user_id, member_user(*m)));
                assert(action_views(actions@) =~= a0.push(DbActionView::InsertUser(member_user(*m))));
            }
            i = i + 1;
        }
        assert(ms@.take(ms@.len() as int) =~= ms@);
    }
}


/// Caches the owner, when the owner is among the members and not cached yet.
pub open spec fn owner_entry(
    users: Map<i64, UserView>,
    ms: Seq<MemberInfo>,
    owner_id: i64,
) -> (Map<i64, UserView>, Seq<DbActionView>) {
    match member_with_id(ms, owner_id) {
        Some(m) => if users.contains_key(owner_id) {
            (users, Seq::empty())
        } else {
            (users.insert(owner_id, member_user(m)), seq![DbActionView::InsertUser(member_user(m))])
        },
        None => (users, Seq::empty()),
    }
}

/// The effect of a guild seen when the bot connects: members not cached
/// are cached; a guild not cached is cached, and when no membership is
/// cached at all every member is recorded as a member of it.
pub open spec fn ready_spec(s: CachesView, g: GuildInfo) -> (CachesView, Seq<DbActionView>) {
    let (u1, l1) = register_users(s.users, Seq::empty(), g.members@);
    if s.guilds.contains_key(g.id) {
        (CachesView { users: u1, ..s }, l1)
    } else {
        let rec = new_guild_record(g);
        let guilds = s.guilds.insert(g.id, rec);
        if s.guild_users.len() == 0 {
            let links = links_for(g.members@, g.id);
            (
                CachesView { users: u1, guilds, guild_users: links },
                l1.push(DbActionView::InsertGuild(rec)) + link_insertions(links),
            )
        } else {
            (CachesView { users: u1, guilds, ..s }, l1.push(DbActionView::InsertGuild(rec)))
        }
    }
}

/// The effect of the bot joining guild `g`: nothing when the guild is
/// cached; else the owner (when listed and not cached), the guild, then
/// every member not cached yet together with its membership.
pub open spec fn create_spec(s: CachesView, g: GuildInfo) -> (CachesView, Seq<DbActionView>) {
    if s.guilds.contains_key(g.id) {
        (s, Seq::empty())
    } else {
        let (u0, l0) = owner_entry(s.users, g.members@, g.owner_id);
        let rec = new_guild_record(g);
        let r = admit_members(u0, s.guild_users, l0.push(DbActionView::InsertGuild(rec)), g.members@, g.id);
        (CachesView { users: r.0, guilds: s.guilds.insert(g.id, rec), guild_users: r.1 }, r.2)
    }
}

impl Caches {
    /// The bot was added to a guild, or the guild became available. A guild
    /// already cached changes nothing. Otherwise its owner is cached first
    /// (when listed among the members and not cached yet), then the guild
    /// with prefix `!`, then every member not cached yet together with a
    /// record of its membership. The owner, cached first, gets no
    /// membership record from this.
    pub fn guild_create(&mut self, guild: &GuildInfo) -> (actions: Vec<DbAction>)
        requires
            old(self)@.wf(),
            distinct_members(guild.members@),
        ensures
            final(self)@.wf(),
            final(self)@ == create_spec(old(self)@, *guild).0,
            action_views(actions@) == create_spec(old(self)@, *guild).1,
    {
        let mut actions: Vec<DbAction> = Vec::new();
        let ghost s0 = self@;
        if self.guilds.contains_key(&guild.id) {
            assert(action_views(actions@) =~= Seq::<DbActionView>::empty());
            assert(self@ =~= s0);
            return actions;
        }
        let ghost ms = guild.members@;
        let oid = guild.owner_id;
        match find_member(&guild.members, oid) {
            Some(i) => {
                proof {
                    assert(exists|k: int| 0 <= k < ms.len() && #[trigger] ms[k].user_id == oid) by {
                        assert(ms[i as int].user_id == oid);
                    }
                    let c = choose|k: int| 0 <= k < ms.len() && #[trigger] ms[k].user_id == oid;
                    assert(c == i);
                    assert(member_with_id(ms, oid) == Some(ms[i as int]));
                }
                if !self.users.contains_key(&oid) {
                    let owner = &guild.members[i];
                    self.users.insert(oid, user_for_member(owner));
                    actions.push(DbAction::InsertUser(user_for_member(owner)));
                    assert(self@.users =~= s0.users.insert(oid, member_user(ms[i as int])));
                    assert(action_views(actions@) =~= seq![DbActionView::InsertUser(member_user(ms[i as int]))]);
                } else {
                    assert(action_views(actions@) =~= Seq::<DbActionView>::empty());
                }
            },
            None => {
                assert(!exists|k: int| 0 <= k < ms.len() && #[trigger] ms[k].user_id == oid);
                assert(action_views(actions@) =~= Seq::<DbActionView>::empty());
            },
        }
        let ghost l0 = action_views(actions@);
        let ghost g = new_guild_record(*guild);
        self.guilds.insert(guild.id, guild_for_info(guild));
        actions.push(DbAction::InsertGuild(guild_for_info(guild)));
        assert(self@.guilds =~= s0.guilds.insert(guild.id, g));
        assert(action_views(actions@) =~= l0.push(DbActionView::InsertGuild(g)));
        proof {
            assert(users_wf(self@.users));
        }
        self.admit_all(&guild.members, guild.id, &mut actions);
        proof {
            lemma_admit_members_wf(
                owner_entry(s0.users, ms, oid).0,
                s0.guild_users,
                l0.push(DbActionView::InsertGuild(g)),
                ms,
                guild.id,
            );
        }
        assert(self@ =~= create_spec(s0, *guild).0);
        actions
    }

    /// A guild seen when the bot connects: every member not cached yet is
    /// cached. A guild not cached yet is then cached with prefix `!`, and,
    /// when no membership is cached at all, every member is recorded as a
    /// member of it.
    pub fn ready_guild(&mut self, guild: &GuildInfo) -> (actions: Vec<DbAction>)
        requires
            old(self)@.wf(),
        ensures
            final(self)@.wf(),
            final(self)@ == ready_spec(old(self)@, *guild).0,
            action_views(actions@) == ready_spec(old(self)@, *guild).1,
    {
        let ghost s0 = self@;
        let ghost ms = guild.members@;
        let mut actions: Vec<DbAction> = Vec::new();
        assert(action_views(actions@) =~= Seq::<DbActionView>::empty());
        self.register_all(&guild.members, &mut actions);
        proof {
            lemma_register_users_wf(s0.users, Seq::empty(), ms);
        }
        if self.guilds.contains_key(&guild.id) {
            assert(self@ =~= ready_spec(s0, *guild).0);
            return actions;
        }
        let ghost l1 = action_views(actions@);
        let ghost g = new_guild_record(*guild);
        self.guilds.insert(guild.id, guild_for_info(guild));
        actions.push(DbAction::InsertGuild(guild_for_info(guild)));
        assert(self@.guilds =~= s0.guilds.insert(guild.id, g));
        assert(action_views(actions@) =~= l1.push(DbActionView::InsertGuild(g)));
        assert(self@.wf());
        if self.guild_users.len() == 0 {
            let ghost l2 = action_views(actions@);
            let mut i: usize = 0;
            while i < guild.members.len()
                invariant
                    i <= ms.len(),
                    ms == guild.members@,
                    self@.users == register_users(s0.users, Seq::empty(), ms).0,
                    self@.guilds == s0.guilds.insert(guild.id, g),
                    g == new_guild_record(*guild),
                    self@.wf(),
                    self@.guild_users == links_for(ms.take(i as int), guild.id),
                    action_views(actions@) == l2 + link_insertions(links_for(ms.take(i as int), guild.id)),
                decreases ms.len() - i,
            {
                let link = GuildUser::new(guild.members[i].user_id, guild.id);
                let ghost a0 = action_views(actions@);
                self.guild_users.push(GuildUser::new(guild.members[i].user_id, guild.id));
                actions.push(DbAction::InsertGuildUser(link));
                proof {
                    assert(action_views(actions@) =~= a0.push(DbActionView::InsertGuildUser(link)));
                    assert(link_insertions(links_for(ms.take(i + 1), guild.id)) =~= link_insertions(
                        links_for(ms.take(i as int), guild.id),
                    ).push(DbActionView::InsertGuildUser(link)));
                    assert(links_for(ms.take(i + 1), guild.id) =~= links_for(ms.take(i as int), guild.id).push(link));
                    assert(self@.guild_users =~= links_for(ms.take(i + 1), guild.id));
                    assert(action_views(actions@) =~= l2 + link_insertions(links_for(ms.take(i + 1), guild.id)));
                }
                i = i + 1;
            }
            assert(ms.take(ms.len() as int) =~= ms);
        }
        assert(self@ =~= ready_spec(s0, *guild).0);
        actions
    }
}


/// Caches each loaded user whose id is not cached yet, in order.
pub open spec fn load_users_spec(users: Map<i64, UserView>, loaded: Seq<UserView>) -> Map<i64, UserView>
    decreases loaded.len(),
{
    if loaded.len() == 0 {
        users
    } else {
        let u = load_users_spec(users, loaded.drop_last());
        let x = loaded.last();
        if u.contains_key(x.id) {
            u
        } else {
            u.insert(x.id, x)
        }
    }
}

/// Caches each loaded guild whose id is not cached yet, in order.
pub open spec fn load_guilds_spec(guilds: Map<i64, GuildView>, loaded: Seq<GuildView>) -> Map<i64, GuildView>
    decreases loaded.len(),
{
    if loaded.len() == 0 {
        guilds
    } else {
        let g = load_guilds_spec(guilds, loaded.drop_last());
        let x = loaded.last();
        if g.contains_key(x.id) {
            g
        } else {
            g.insert(x.id, x)
        }
    }
}

/// How many entries of `gus` equal `x`.
pub open spec fn occurrences(gus: Seq<GuildUser>, x: GuildUser) -> nat
    decreases gus.len(),
{
    if gus.len() == 0 {
        0
    } else {
        occurrences(gus.drop_last(), x) + if gus.last() == x { 1nat } else { 0nat }
    }
}

/// For each loaded membership in order: one more copy of it for every
/// entry equal to it among those present when its turn comes.
pub open spec fn load_guild_users_spec(gus: Seq<GuildUser>, loaded: Seq<GuildUser>) -> Seq<GuildUser>
    decreases loaded.len(),
{
    if loaded.len() == 0 {
        gus
    } else {
        let g = load_guild_users_spec(gus, loaded.drop_last());
        let x = loaded.last();
        g + Seq::new(occurrences(g, x), |i: int| x)
    }
}

/// The name shown for guild `guild_id`: its cached name, or `None`.
pub open spec fn display_name(guilds: Map<i64, GuildView>, guild_id: i64) -> Seq<char> {
    if guilds.contains_key(guild_id) && guilds[guild_id].name is Some {
        guilds[guild_id].name.unwrap()
    } else {
        seq!['N', 'o', 'n', 'e']
    }
}

/// The user views of a list of users.
pub open spec fn user_views(v: Seq<User>) -> Seq<UserView> {
    v.map_values(|u: User| u@)
}

/// The guild views of a list of guilds.
pub open spec fn guild_views(v: Seq<Guild>) -> Seq<GuildView> {
    v.map_values(|g: Guild| g@)
}

impl Caches {
    /// Caches the users read from the database; a user already cached
    /// keeps its cached record.
    pub fn load_users(&mut self, loaded: &Vec<User>)
        requires
            old(self)@.wf(),
        ensures
            final(self)@.wf(),
            final(self)@.users == load_users_spec(old(self)@.users, user_views(loaded@)),
            final(self)@.guilds == old(self)@.guilds,
            final(self)@.guild_users == old(self)@.guild_users,
    {
        let ghost s0 = self@;
        let ghost lv = user_views(loaded@);
        let mut i: usize = 0;
        while i < loaded.len()
            invariant
                i <= loaded@.len(),
                lv == user_views(loaded@),
                self@.wf(),
                self@.users == load_users_spec(s0.users, lv.take(i as int)),
                self@.guilds == s0.guilds,
                self@.guild_users == s0.guild_users,
            decreases loaded@.len() - i,
        {
            proof {
                assert(lv.take(i + 1).drop_last() =~= lv.take(i as int));
                assert(lv.take(i + 1).last() == loaded@[i as int]@);
            }
            let u = &loaded[i];
            if !self.users.contains_key(&u.id) {
                let ghost u0 = self@.users;
                self.users.insert(u.id, u.clone());
                assert(self@.users =~= u0.insert(u.id, u@));
            }
            i = i + 1;
        }
        assert(lv.take(loaded@.len() as int) =~= lv);
    }

    /// Caches the guilds read from the database; a guild already cached
    /// keeps its cached record.
    pub fn load_guilds(&mut self, loaded: &Vec<Guild>)
        requires
            old(self)@.wf(),
        ensures
            final(self)@.wf(),
            final(self)@.guilds == load_guilds_spec(old(self)@.guilds, guild_views(loaded@)),
            final(self)@.users == old(self)@.users,
            final(self)@.guild_users == old(self)@.guild_users,
    {
        let ghost s0 = self@;
        let ghost lv = guild_views(loaded@);
        let mut i: usize = 0;
        while i < loaded.len()
            invariant
                i <= loaded@.len(),
                lv == guild_views(loaded@),
                self@.wf(),
                self@.guilds == load_guilds_spec(s0.guilds, lv.take(i as int)),
                self@.users == s0.users,
                self@.guild_users == s0.guild_users,
            decreases loaded@.len() - i,
        {
            proof {
                assert(lv.take(i + 1).drop_last() =~= lv.take(i as int));
                assert(lv.take(i + 1).last() == loaded@[i as int]@);
            }
            let g = &loaded[i];
            if !self.guilds.contains_key(&g.id) {
                let ghost g0 = self@.guilds;
                self.guilds.insert(g.id, g.clone());
                assert(self@.guilds =~= g0.insert(g.id, g@));
            }
            i = i + 1;
        }
        assert(lv.take(loaded@.len() as int) =~= lv);
    }

    /// Takes in the memberships read from the database: for each of them,
    /// every entry equal to it among those present (counted once, when its
    /// turn comes) adds one more copy of it to the end of the list.
    ///
    /// A loaded membership is thus only copied when an equal one is already
    /// cached, so into the empty cache of a fresh start nothing is loaded.
    /// That is the bot's startup behaviour; nothing in its documentation
    /// asks for another.
    pub fn load_guild_users(&mut self, loaded: &Vec<GuildUser>)
        requires
            old(self)@.wf(),
        ensures
            final(self)@.wf(),
            final(self)@.guild_users == load_guild_users_spec(old(self)@.guild_users, loaded@),
            final(self)@.users == old(self)@.users,
            final(self)@.guilds == old(self)@.guilds,
    {
        let ghost s0 = self@;
        let mut i: usize = 0;
        while i < loaded.len()
            invariant
                i <= loaded@.len(),
                self@.wf(),
                self@.guild_users == load_guild_users_spec(s0.guild_users, loaded@.take(i as int)),
                self@.users == s0.users,
                self@.guilds == s0.guilds,
            decreases loaded@.len() - i,
        {
            proof {
                assert(loaded@.take(i + 1).drop_last() =~= loaded@.take(i as int));
                assert(loaded@.take(i + 1).last() == loaded@[i as int]);
            }
            let x = loaded[i];
            let ghost g0 = self@.guild_users;
            let n = self.guild_users.len();
            let mut j: usize = 0;
            while j < n
                invariant
                    n == g0.len(),
                    j <= n,
                    self@.guild_users == g0 + Seq::new(occurrences(g0.take(j as int), x), |k: int| x),
                    self@.users == s0.users,
                    self@.guilds == s0.guilds,
                    self@.wf(),
                decreases n - j,
            {
                proof {
                    assert(g0.take(j + 1).drop_last() =~= g0.take(j as int));
                    assert(g0.take(j + 1).last() == g0[j as int]);
                    assert(self@.guild_users[j as int] == g0[j as int]);
                }
                let y = self.guild_users[j];
                if y.user_id == x.user_id && y.guild_id == x.guild_id {
                    self.guild_users.push(x);
                    assert(self@.guild_users =~= g0 + Seq::new(occurrences(g0.take(j + 1), x), |k: int| x));
                } else {
                    assert(y != x);
                    assert(occurrences(g0.take(j + 1), x) == occurrences(g0.take(j as int), x));
                }
                j = j + 1;
            }
            assert(g0.take(n as int) =~= g0);
            i = i + 1;
        }
        assert(loaded@.take(loaded@.len() as int) =~= loaded@);
    }
}

/// The user ids recorded as members of guild `guild_id`, in list order.
pub fn linked_user_ids(gus: &Vec<GuildUser>, guild_id: i64) -> (ids: Vec<i64>)
    ensures
        ids@ == members_of(gus@, guild_id),
{
    let mut ids: Vec<i64> = Vec::new();
    let mut i: usize = 0;
    while i < gus.len()
        invariant
            i <= gus@.len(),
            ids@ == members_of(gus@.take(i as int), guild_id),
        decreases gus@.len() - i,
    {
        proof {
            assert(gus@.take(i + 1).drop_last() =~= gus@.take(i as int));
        }
        if gus[i].guild_id == guild_id {
            ids.push(gus[i].user_id);
        }
        i = i + 1;
    }
    assert(gus@.take(gus@.len() as int) =~= gus@);
    ids
}

impl Caches {
    /// Whether removing guild `guild_id` finds every record it looks up.
    pub fn can_delete_guild(&self, guild_id: i64) -> (res: bool)
        ensures
            res == delete_allowed(self@, guild_id),
    {
        if !self.guilds.contains_key(&guild_id) {
            return false;
        }
        let ids = linked_user_ids(&self.guild_users, guild_id);
        let mut i: usize = 0;
        while i < ids.len()
            invariant
                i <= ids@.len(),
                ids@ == members_of(self@.guild_users, guild_id),
                self@.guilds.contains_key(guild_id),
                forall|a: int, b: int| 0 <= a < i && 0 <= b < ids@.len() && a != b ==> ids@[a] != ids@[b],
                forall|a: int| 0 <= a < i ==> self@.users.contains_key(#[trigger] ids@[a]),
            decreases ids@.len() - i,
        {
            if !self.users.contains_key(&ids[i]) {
                assert(!self@.users.contains_key(ids@[i as int]));
                return false;
            }
            let mut j: usize = 0;
            while j < ids.len()
                invariant
                    i < ids@.len(),
                    j <= ids@.len(),
                    ids@ == members_of(self@.guild_users, guild_id),
                    forall|b: int| 0 <= b < j && b != i ==> ids@[i as int] != ids@[b],
                decreases ids@.len() - j,
            {
                if j != i && ids[j] == ids[i] {
                    assert(!ids@.no_duplicates());
                    return false;
                }
                j = j + 1;
            }
            i = i + 1;
        }
        assert(ids@.no_duplicates());
        true
    }

    /// Whether a member's leaving can be handled: no membership record
    /// before the last one links the user to the guild.
    pub fn can_remove_member(&self, guild_id: i64, user_id: i64) -> (res: bool)
        ensures
            res == removal_allowed(self@, guild_id, user_id),
    {
        let n = self.guild_users.len();
        let mut i: usize = 0;
        while i < n && i + 1 < n
            invariant
                n == self@.guild_users.len(),
                i <= n,
                forall|k: int| 0 <= k < i ==> !is_link(#[trigger] self@.guild_users[k], guild_id, user_id),
            decreases n - i,
        {
            if self.guild_users[i].guild_id == guild_id && self.guild_users[i].user_id == user_id {
                return false;
            }
            i = i + 1;
        }
        true
    }
}

/// The guild views of a guild cache.
pub open spec fn guild_map_view(guilds: HashMap<i64, Guild>) -> Map<i64, GuildView> {
    guilds@.map_values(|g: Guild| g@)
}

/// Every cached guild is filed under its own id.
pub open spec fn guilds_wf(guilds: Map<i64, GuildView>) -> bool {
    forall|k: i64| #[trigger] guilds.contains_key(k) ==> guilds[k].id == k
}

/// The name shown for guild `guild_id` in replies and logs.
pub fn guild_display_name(guilds: &HashMap<i64, Guild>, guild_id: i64) -> (res: String)
    ensures
        res@ == display_name(guild_map_view(*guilds), guild_id),
{
    if let Some(g) = guilds.get(&guild_id) {
        if let Some(n) = &g.name {
            return n.clone();
        }
    }
    let none = "None";
    proof {
        reveal_strlit("None");
    }
    let res = none.to_owned();
    assert(res@ =~= seq!['N', 'o', 'n', 'e']);
    res
}

/// A cached guild `guild_id` has a prefix.
pub open spec fn prefix_known(guilds: Map<i64, GuildView>, guild_id: i64) -> bool {
    guilds.contains_key(guild_id) ==> guilds[guild_id].prefix is Some
}

/// The prefix commands of guild `guild_id` start with: the guild's own
/// when it is cached, else `default`.
pub open spec fn resolved_prefix(guilds: Map<i64, GuildView>, guild_id: i64, default: Seq<char>) -> Seq<char> {
    if guilds.contains_key(guild_id) {
        guilds[guild_id].prefix.unwrap()
    } else {
        default
    }
}

/// The guild cache with the prefix of guild `guild_id`, when cached, set
/// to `prefix`.
pub open spec fn prefix_set(guilds: Map<i64, GuildView>, guild_id: i64, prefix: Seq<char>) -> Map<i64, GuildView> {
    if guilds.contains_key(guild_id) {
        guilds.insert(guild_id, GuildView { prefix: Some(prefix), ..guilds[guild_id] })
    } else {
        guilds
    }
}

/// A prefix change takes effect: sets the prefix of guild `guild_id` in
/// the cache, when the guild is cached.
pub fn set_cached_prefix(guilds: &mut HashMap<i64, Guild>, guild_id: i64, prefix: String)
    ensures
        guild_map_view(*final(guilds)) == prefix_set(guild_map_view(*old(guilds)), guild_id, prefix@),
        guilds_wf(guild_map_view(*old(guilds))) ==> guilds_wf(guild_map_view(*final(guilds))),
{
    let ghost g0 = guild_map_view(*guilds);
    match guilds.get(&guild_id) {
        Some(g) => {
            let ng = g.clone().set_prefix(prefix);
            assert(g0.contains_key(guild_id));
            guilds.insert(guild_id, ng);
            assert(guild_map_view(*guilds) =~= prefix_set(g0, guild_id, prefix@));
        },
        None => {},
    }
}

/// After a guild's prefix is set, its commands start with that prefix.
pub proof fn law_prefix_read_after_set(
    guilds: Map<i64, GuildView>,
    guild_id: i64,
    prefix: Seq<char>,
    default: Seq<char>,
)
    requires
        guilds.contains_key(guild_id),
    ensures
        prefix_known(prefix_set(guilds, guild_id, prefix), guild_id),
        resolved_prefix(prefix_set(guilds, guild_id, prefix), guild_id, default) == prefix,
{
}

/// The command prefix of guild `guild_id`: its own prefix when the guild
/// is cached, else `default`. A cached guild without a prefix has no
/// answer here.
pub fn resolve_prefix(guilds: &HashMap<i64, Guild>, guild_id: i64, default: String) -> (res: String)
    requires
        prefix_known(guild_map_view(*guilds), guild_id),
    ensures
        res@ == resolved_prefix(guild_map_view(*guilds), guild_id, default@),
{
    match guilds.get(&guild_id) {
        None => default,
        Some(g) => {
            match &g.prefix {
                Some(p) => p.clone(),
                None => {
                    assert(false);
                    default
                },
            }
        },
    }
}

/// Forgets the stored search of guild `guild_id`, when it is cached, and
/// writes the guild back to the database.
pub fn clear_search_results(guilds: &mut HashMap<i64, Guild>, guild_id: i64) -> (actions: Vec<DbAction>)
    ensures
        guilds_wf(guild_map_view(*old(guilds))) ==> guilds_wf(guild_map_view(*final(guilds))),
        guild_map_view(*old(guilds)).contains_key(guild_id) ==> {
            let g = GuildView { query_results: None, ..guild_map_view(*old(guilds))[guild_id] };
            &&& guild_map_view(*final(guilds)) == guild_map_view(*old(guilds)).insert(guild_id, g)
            &&& action_views(actions@) == seq![DbActionView::UpdateGuild(g)]
        },
        !guild_map_view(*old(guilds)).contains_key(guild_id) ==> {
            &&& guild_map_view(*final(guilds)) == guild_map_view(*old(guilds))
            &&& action_views(actions@) == Seq::<DbActionView>::empty()
        },
{
    let mut actions: Vec<DbAction> = Vec::new();
    let ghost g0 = guild_map_view(*guilds);
    match guilds.get(&guild_id) {
        Some(g) => {
            let mut ng = g.clone();
            ng.empty_query_results();
            let ghost gv = GuildView { query_results: None, ..g0[guild_id] };
            assert(ng@ == gv);
            assert(g0.contains_key(guild_id));
            guilds.insert(guild_id, ng.clone());
            actions.push(DbAction::UpdateGuild(ng));
            assert(guild_map_view(*guilds) =~= g0.insert(guild_id, gv));
            assert(action_views(actions@) =~= seq![DbActionView::UpdateGuild(gv)]);
        },
        None => {
            assert(action_views(actions@) =~= Seq::<DbActionView>::empty());
        },
    }
    actions
}

/// A user not cached, with no membership record in the guild, who joins the
/// guild and leaves it again leaves the caches as they were; the database
/// is told of the new user and membership, then of the user's deletion.
pub proof fn law_join_then_leave_restores(s: CachesView, guild_id: i64, m: MemberInfo)
    requires
        !s.users.contains_key(m.user_id),
        forall|i: int| 0 <= i < s.guild_users.len() ==> !is_link(#[trigger] s.guild_users[i], guild_id, m.user_id),
    ensures
        removal_allowed(addition_spec(s, guild_id, m).0, guild_id, m.user_id),
        removal_spec(addition_spec(s, guild_id, m).0, guild_id, m.user_id).0 == s,
        removal_spec(addition_spec(s, guild_id, m).0, guild_id, m.user_id).1 == seq![
            DbActionView::DeleteUser(m.user_id),
        ],
{
    let s1 = addition_spec(s, guild_id, m).0;
    assert(s1.guild_users.drop_last() =~= s.guild_users);
    assert(s1.users.remove(m.user_id) =~= s.users);
    assert(removal_spec(s1, guild_id, m.user_id).0 =~= s);
}

/// A member who joins twice is taken in once: the second join changes
/// nothing and writes nothing.
pub proof fn law_join_twice_is_join_once(s: CachesView, guild_id: i64, m: MemberInfo)
    ensures
        addition_spec(addition_spec(s, guild_id, m).0, guild_id, m).0 == addition_spec(s, guild_id, m).0,
        addition_spec(addition_spec(s, guild_id, m).0, guild_id, m).1 == Seq::<DbActionView>::empty(),
{
}

/// A guild announced twice is taken in once: the second announcement
/// changes nothing and writes nothing.
pub proof fn law_guild_create_twice_is_once(s: CachesView, g: GuildInfo)
    ensures
        create_spec(create_spec(s, g).0, g).0 == create_spec(s, g).0,
        create_spec(create_spec(s, g).0, g).1 == Seq::<DbActionView>::empty(),
{
}


/// What admitting members adds: the users it caches are new, cached, and
/// recorded as members once each, after the records already there.
proof fn lemma_admit_members_adds(
    users: Map<i64, UserView>,
    gus: Seq<GuildUser>,
    log: Seq<DbActionView>,
    ms: Seq<MemberInfo>,
    guild_id: i64,
)
    ensures
        ({
            let r = admit_members(users, gus, log, ms, guild_id);
            let base = members_of(gus, guild_id);
            let full = members_of(r.1, guild_id);
            let added = full.subrange(base.len() as int, full.len() as int);
            &&& base.is_prefix_of(full)
            &&& added.no_duplicates()
            &&& forall|k: i64| #[trigger] users.contains_key(k) ==> r.0.contains_key(k) && r.0[k] == users[k]
            &&& forall|j: int| 0 <= j < added.len() ==> r.0.contains_key(#[trigger] added[j]) && !users.contains_key(added[j])
            &&& r.0.remove_keys(added.to_set()) == users
        }),
    decreases ms.len(),
{
    let r = admit_members(users, gus, log, ms, guild_id);
    let base = members_of(gus, guild_id);
    let full = members_of(r.1, guild_id);
    let added = full.subrange(base.len() as int, full.len() as int);
    if ms.len() == 0 {
        assert(base.is_prefix_of(full));
        assert(added =~= Seq::<i64>::empty());
        assert(added.to_set() =~= Set::<i64>::empty());
        assert(r.0.remove_keys(added.to_set()) =~= users);
    } else {
        lemma_admit_members_adds(users, gus, log, ms.drop_last(), guild_id);
        let p = admit_members(users, gus, log, ms.drop_last(), guild_id);
        let pfull = members_of(p.1, guild_id);
        let padded = pfull.subrange(base.len() as int, pfull.len() as int);
        let m = ms.last();
        if p.0.contains_key(m.user_id) {
            assert(r == p);
        } else {
            let link = GuildUser { user_id: m.user_id, guild_id };
            assert(r.1 == p.1.push(link));
            assert(r.1.drop_last() =~= p.1);
            assert(full == pfull.push(m.user_id));
            assert(added =~= padded.push(m.user_id));
            assert(base.is_prefix_of(full)) by {
                assert(base =~= full.subrange(0, base.len() as int));
            }
            assert(!users.contains_key(m.user_id));
            assert(!padded.contains(m.user_id));
            assert forall|a: int, b: int| 0 <= a < added.len() && 0 <= b < added.len() && a != b implies added[a] != added[b] by {
                if a < padded.len() && b < padded.len() {
                    assert(added[a] == padded[a] && added[b] == padded[b]);
                } else if a < padded.len() {
                    assert(added[a] == padded[a]);
                } else if b < padded.len() {
                    assert(added[b] == padded[b]);
                }
            }
            assert forall|j: int| 0 <= j < added.len() implies r.0.contains_key(#[trigger] added[j]) && !users.contains_key(added[j]) by {
                if j < padded.len() {
                    assert(added[j] == padded[j]);
                }
            }
            padded.lemma_push_to_set_commute(m.user_id);
            assert(added.to_set() =~= padded.to_set().insert(m.user_id));
            assert(r.0.remove_keys(added.to_set()) =~= p.0.remove_keys(padded.to_set()));
        }
    }
}

/// A guild not cached, with no membership records, that arrives and is
/// then removed leaves the guild cache as it was; of the users it brought,
/// only its owner (cached ahead of the members, without a membership
/// record) stays cached.
pub proof fn law_create_then_delete(s: CachesView, g: GuildInfo)
    requires
        s.wf(),
        !s.guilds.contains_key(g.id),
        members_of(s.guild_users, g.id) == Seq::<i64>::empty(),
    ensures
        delete_allowed(create_spec(s, g).0, g.id),
        delete_spec(create_spec(s, g).0, g.id).0.guilds == s.guilds,
        delete_spec(create_spec(s, g).0, g.id).0.users == owner_entry(s.users, g.members@, g.owner_id).0,
{
    let (u0, l0) = owner_entry(s.users, g.members@, g.owner_id);
    let rec = new_guild_record(g);
    let log = l0.push(DbActionView::InsertGuild(rec));
    lemma_admit_members_adds(u0, s.guild_users, log, g.members@, g.id);
    let r = admit_members(u0, s.guild_users, log, g.members@, g.id);
    let c = create_spec(s, g).0;
    let full = members_of(r.1, g.id);
    assert(full.subrange(0, full.len() as int) =~= full);
    assert(c.guilds.remove(g.id) =~= s.guilds);
}

/// A guild seen when the bot connects is cached, so announcing it again
/// later changes nothing and writes nothing.
pub proof fn law_ready_then_create_changes_nothing(s: CachesView, g: GuildInfo)
    ensures
        create_spec(ready_spec(s, g).0, g).0 == ready_spec(s, g).0,
        create_spec(ready_spec(s, g).0, g).1 == Seq::<DbActionView>::empty(),
{
}

/// What registering members does: known users are kept as they are, every
/// member ends up cached, each member not known before is written to the
/// log as the record it is cached with, nobody else is added, and the log
/// only grows, by user insertions.
proof fn lemma_register_users_covers(users: Map<i64, UserView>, log: Seq<DbActionView>, ms: Seq<MemberInfo>)
    ensures
        ({
            let (u, l) = register_users(users, log, ms);
            &&& forall|k: i64| #[trigger] users.contains_key(k) ==> u.contains_key(k) && u[k] == users[k]
            &&& forall|i: int| 0 <= i < ms.len() ==> u.contains_key(#[trigger] ms[i].user_id)
            &&& forall|i: int|
                0 <= i < ms.len() && !users.contains_key(#[trigger] ms[i].user_id) ==> l.contains(
                    DbActionView::InsertUser(u[ms[i].user_id]),
                )
            &&& forall|k: i64|
                #[trigger] u.contains_key(k) && !users.contains_key(k) ==> exists|i: int|
                    0 <= i < ms.len() && #[trigger] ms[i].user_id == k
            &&& l.len() >= log.len()
            &&& l.subrange(0, log.len() as int) == log
            &&& forall|i: int| log.len() <= i < l.len() ==> (#[trigger] l[i]) is InsertUser
        }),
    decreases ms.len(),
{
    if ms.len() > 0 {
        let p = ms.drop_last();
        lemma_register_users_covers(users, log, p);
        let (u0, l0) = register_users(users, log, p);
        let m = ms.last();
        let (u, l) = register_users(users, log, ms);
        assert forall|i: int| 0 <= i < ms.len() - 1 implies ms[i] == #[trigger] p[i] by {}
        if u0.contains_key(m.user_id) {
            assert forall|i: int| 0 <= i < ms.len() && !users.contains_key(#[trigger] ms[i].user_id) implies l.contains(
                DbActionView::InsertUser(u[ms[i].user_id]),
            ) by {
                if i < ms.len() - 1 {
                    assert(p[i] == ms[i]);
                } else {
                    let j = choose|j: int| 0 <= j < p.len() && #[trigger] p[j].user_id == m.user_id;
                    assert(p[j].user_id == ms[i].user_id);
                }
            }
            assert forall|k: i64| #[trigger] u.contains_key(k) && !users.contains_key(k) implies exists|i: int|
                0 <= i < ms.len() && #[trigger] ms[i].user_id == k by {
                let j = choose|j: int| 0 <= j < p.len() && #[trigger] p[j].user_id == k;
                assert(ms[j].user_id == k);
            }
            assert forall|i: int| 0 <= i < ms.len() implies u.contains_key(#[trigger] ms[i].user_id) by {
                if i < ms.len() - 1 {
                    assert(p[i] == ms[i]);
                }
            }
        } else {
            let x = DbActionView::InsertUser(member_user(m));
            assert(l == l0.push(x));
            assert(u == u0.insert(m.user_id, member_user(m)));
            assert forall|i: int| 0 <= i < ms.len() && !users.contains_key(#[trigger] ms[i].user_id) implies l.contains(
                DbActionView::InsertUser(u[ms[i].user_id]),
            ) by {
                if i < ms.len() - 1 {
                    assert(p[i] == ms[i]);
                    let y = DbActionView::InsertUser(u0[p[i].user_id]);
                    assert(l0.contains(y));
                    let w = choose|w: int| 0 <= w < l0.len() && l0[w] == y;
                    assert(l[w] == y);
                    assert(u[ms[i].user_id] == u0[p[i].user_id]);
                } else {
                    assert(l[l.len() - 1] == x);
                }
            }
            assert forall|k: i64| #[trigger] u.contains_key(k) && !users.contains_key(k) implies exists|i: int|
                0 <= i < ms.len() && #[trigger] ms[i].user_id == k by {
                if k == m.user_id {
                    assert(ms[ms.len() - 1].user_id == k);
                } else {
                    let j = choose|j: int| 0 <= j < p.len() && #[trigger] p[j].user_id == k;
                    assert(ms[j].user_id == k);
                }
            }
            assert forall|i: int| 0 <= i < ms.len() implies u.contains_key(#[trigger] ms[i].user_id) by {
                if i < ms.len() - 1 {
                    assert(p[i] == ms[i]);
                }
            }
            assert(l.subrange(0, log.len() as int) =~= l0.subrange(0, log.len() as int));
        }
    }
}

/// On connecting, every listed member of a guild is cached, whether or
/// not the guild itself is known already: users known before are kept as
/// they were, each member not known before is written to the database as
/// the record it is cached with, nobody else is added, and all user
/// writes come before the guild's and the memberships' writes.
pub proof fn law_ready_caches_every_member(s: CachesView, g: GuildInfo)
    ensures
        ({
            let (r, acts) = ready_spec(s, g);
            &&& forall|i: int| 0 <= i < g.members@.len() ==> r.users.contains_key(#[trigger] g.members@[i].user_id)
            &&& forall|i: int|
                0 <= i < g.members@.len() && !s.users.contains_key(#[trigger] g.members@[i].user_id)
                    ==> acts.contains(DbActionView::InsertUser(r.users[g.members@[i].user_id]))
            &&& forall|k: i64| #[trigger] s.users.contains_key(k) ==> r.users.contains_key(k) && r.users[k] == s.users[k]
            &&& forall|k: i64|
                #[trigger] r.users.contains_key(k) && !s.users.contains_key(k) ==> exists|i: int|
                    0 <= i < g.members@.len() && #[trigger] g.members@[i].user_id == k
            &&& forall|i: int, j: int|
                0 <= i < j < acts.len() && (#[trigger] acts[j]) is InsertUser ==> (#[trigger] acts[i]) is InsertUser
        }),
{
    let ms = g.members@;
    lemma_register_users_covers(s.users, Seq::empty(), ms);
    let (u1, l1) = register_users(s.users, Seq::empty(), ms);
    let (r, acts) = ready_spec(s, g);
    assert(r.users == u1);
    assert(acts.subrange(0, l1.len() as int) =~= l1);
    assert forall|i: int| 0 <= i < l1.len() implies (#[trigger] acts[i]) is InsertUser by {
        assert(acts[i] == l1[i]);
    }
    assert forall|i: int| l1.len() <= i < acts.len() implies !((#[trigger] acts[i]) is InsertUser) by {}
    assert forall|x: DbActionView| l1.contains(x) implies #[trigger] acts.contains(x) by {
        let w = choose|w: int| 0 <= w < l1.len() && l1[w] == x;
        assert(acts[w] == x);
    }
}

/// A member leaving a guild that no membership record links them to
/// changes neither the caches nor the database, even when the user is
/// cached as a member of other guilds.
pub proof fn law_leaving_unlinked_guild_changes_nothing(s: CachesView, guild_id: i64, user_id: i64)
    requires
        forall|i: int| 0 <= i < s.guild_users.len() ==> !is_link(#[trigger] s.guild_users[i], guild_id, user_id),
    ensures
        removal_spec(s, guild_id, user_id) == (s, Seq::<DbActionView>::empty()),
{
    if s.guild_users.len() > 0 {
        assert(!is_link(s.guild_users[s.guild_users.len() - 1], guild_id, user_id));
    }
}

/// A member leaving touches only that user and the memberships: every
/// other cached user and every guild stay as they were, and the only
/// database write there can be is that user's deletion.
pub proof fn law_leaving_touches_only_the_user(s: CachesView, guild_id: i64, user_id: i64)
    ensures
        ({
            let (r, acts) = removal_spec(s, guild_id, user_id);
            &&& r.guilds == s.guilds
            &&& forall|k: i64| k != user_id ==> (#[trigger] r.users.contains_key(k) <==> s.users.contains_key(k))
            &&& forall|k: i64| k != user_id && s.users.contains_key(k) ==> #[trigger] r.users[k] == s.users[k]
            &&& acts.len() <= 1
            &&& forall|i: int| 0 <= i < acts.len() ==> #[trigger] acts[i] == DbActionView::DeleteUser(user_id)
        }),
{
}

/// Every guild the bot starts caching gets a prefix that a guild may also
/// choose with the `prefix` command, and so does `prefix` without a word.
pub proof fn law_default_prefixes_are_valid(g: GuildInfo)
    ensures
        new_guild_record(g).prefix is Some,
        valid_prefixes().contains(new_guild_record(g).prefix.unwrap()),
        valid_prefixes().contains(seq!['+']),
{
    assert(valid_prefixes()[16] == seq!['!']);
    assert(valid_prefixes()[1] == seq!['+']);
}

} // verus!
