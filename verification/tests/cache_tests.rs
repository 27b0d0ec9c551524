use steve::cache::{set_cached_prefix, clear_search_results, guild_display_name, resolve_prefix, Caches, DbAction, GuildInfo, MemberInfo};
use steve::models::{Guild, GuildUser, User};

fn member(id: i64, name: &str) -> MemberInfo {
    MemberInfo { user_id: id, name: name.to_string(), tag: format!("{}#0001", name) }
}

fn guild_info(id: i64, owner: i64, members: Vec<MemberInfo>) -> GuildInfo {
    GuildInfo { id, name: format!("guild{}", id), owner_id: owner, members }
}

fn describe(a: &DbAction) -> String {
    match a {
        DbAction::InsertUser(u) => format!("insert user {}", u.id),
        DbAction::InsertGuild(g) => format!("insert guild {}", g.id),
        DbAction::InsertGuildUser(gu) => format!("insert link {}@{}", gu.user_id, gu.guild_id),
        DbAction::UpdateGuild(g) => format!("update guild {}", g.id),
        DbAction::DeleteUser(id) => format!("delete user {}", id),
        DbAction::DeleteGuild(id) => format!("delete guild {}", id),
    }
}

fn describe_all(v: &[DbAction]) -> Vec<String> {
    v.iter().map(describe).collect()
}

#[test]
fn member_addition_caches_new_user() {
    let mut c = Caches::new();
    let acts = c.guild_member_addition(10, &member(1, "ann"));
    assert_eq!(describe_all(&acts), vec!["insert user 1", "insert link 1@10"]);
    let u = c.users.get(&1).unwrap();
    assert_eq!(u.name.as_deref(), Some("ann"));
    assert_eq!(u.tag.as_deref(), Some("ann#0001"));
    assert_eq!(u.current_channel_id.as_deref(), Some(""));
    assert_eq!(c.guild_users, vec![GuildUser { user_id: 1, guild_id: 10 }]);
}

#[test]
fn member_addition_of_known_user_changes_nothing() {
    let mut c = Caches::new();
    c.guild_member_addition(10, &member(1, "ann"));
    let acts = c.guild_member_addition(11, &member(1, "ann"));
    assert!(acts.is_empty());
    assert_eq!(c.guild_users.len(), 1);
    assert_eq!(c.users.len(), 1);
}

#[test]
fn join_then_leave_restores_caches() {
    let mut c = Caches::new();
    c.guild_member_addition(10, &member(1, "ann"));
    let before_users = c.users.len();
    let before_links = c.guild_users.clone();
    c.guild_member_addition(10, &member(2, "bob"));
    let acts = c.guild_member_removal(10, 2);
    assert_eq!(describe_all(&acts), vec!["delete user 2"]);
    assert_eq!(c.users.len(), before_users);
    assert!(!c.users.contains_key(&2));
    assert_eq!(c.guild_users, before_links);
}

#[test]
fn member_removal_without_record_changes_nothing() {
    let mut c = Caches::new();
    c.guild_member_addition(10, &member(1, "ann"));
    let acts = c.guild_member_removal(10, 5);
    assert!(acts.is_empty());
    assert_eq!(c.guild_users.len(), 1);
    assert!(c.users.contains_key(&1));
}

#[test]
fn member_removal_of_uncached_user_deletes_only_the_record() {
    let mut c = Caches::new();
    c.guild_users.push(GuildUser { user_id: 4, guild_id: 10 });
    let acts = c.guild_member_removal(10, 4);
    assert!(acts.is_empty());
    assert!(c.guild_users.is_empty());
}

#[test]
fn guild_create_caches_owner_guild_and_members() {
    let mut c = Caches::new();
    let g = guild_info(100, 2, vec![member(1, "ann"), member(2, "own"), member(3, "cat")]);
    let acts = c.guild_create(&g);
    assert_eq!(
        describe_all(&acts),
        vec![
            "insert user 2",
            "insert guild 100",
            "insert user 1",
            "insert link 1@100",
            "insert user 3",
            "insert link 3@100",
        ]
    );
    let cached = c.guilds.get(&100).unwrap();
    assert_eq!(cached.name.as_deref(), Some("guild100"));
    assert_eq!(cached.prefix.as_deref(), Some("!"));
    assert_eq!(cached.owner_id, Some(2));
    assert_eq!(cached.cur_vc_id.as_deref(), Some(""));
    assert_eq!(c.users.len(), 3);
    assert_eq!(
        c.guild_users,
        vec![GuildUser { user_id: 1, guild_id: 100 }, GuildUser { user_id: 3, guild_id: 100 }]
    );
}

#[test]
fn guild_create_twice_is_once() {
    let mut c = Caches::new();
    let g = guild_info(100, 2, vec![member(1, "ann"), member(2, "own")]);
    c.guild_create(&g);
    let users = c.users.len();
    let links = c.guild_users.clone();
    let acts = c.guild_create(&g);
    assert!(acts.is_empty());
    assert_eq!(c.users.len(), users);
    assert_eq!(c.guild_users, links);
}

#[test]
fn guild_create_with_owner_not_listed() {
    let mut c = Caches::new();
    let g = guild_info(100, 9, vec![member(1, "ann")]);
    let acts = c.guild_create(&g);
    assert_eq!(describe_all(&acts), vec!["insert guild 100", "insert user 1", "insert link 1@100"]);
}

#[test]
fn guild_delete_drops_members_and_guild() {
    let mut c = Caches::new();
    let g = guild_info(100, 2, vec![member(1, "ann"), member(2, "own"), member(3, "cat")]);
    c.guild_create(&g);
    let acts = c.guild_delete(100);
    assert_eq!(describe_all(&acts), vec!["delete user 1", "delete user 3", "delete guild 100"]);
    assert!(c.guilds.is_empty());
    // the owner was cached before the members and got no membership record
    assert_eq!(c.users.len(), 1);
    assert!(c.users.contains_key(&2));
    assert_eq!(c.guild_users.len(), 2);
}

#[test]
fn ready_guild_caches_members_and_links_when_no_links() {
    let mut c = Caches::new();
    let g = guild_info(100, 2, vec![member(1, "ann"), member(2, "own")]);
    let acts = c.ready_guild(&g);
    assert_eq!(
        describe_all(&acts),
        vec!["insert user 1", "insert user 2", "insert guild 100", "insert link 1@100", "insert link 2@100"]
    );
    let h = guild_info(200, 1, vec![member(1, "ann"), member(5, "eve")]);
    let acts = c.ready_guild(&h);
    assert_eq!(describe_all(&acts), vec!["insert user 5", "insert guild 200"]);
    assert_eq!(c.guild_users.len(), 2);
    let acts = c.ready_guild(&h);
    assert!(acts.is_empty());
}

#[test]
fn load_users_and_guilds_keep_cached_records() {
    let mut c = Caches::new();
    c.load_users(&vec![
        User::new(1, Some("a".to_string()), None, None),
        User::new(1, Some("b".to_string()), None, None),
        User::new(2, None, None, None),
    ]);
    assert_eq!(c.users.len(), 2);
    assert_eq!(c.users.get(&1).unwrap().name.as_deref(), Some("a"));
    c.load_guilds(&vec![
        Guild::new(7, Some("x".to_string()), None, None, None),
        Guild::new(7, Some("y".to_string()), None, None, None),
    ]);
    assert_eq!(c.guilds.len(), 1);
    assert_eq!(c.guilds.get(&7).unwrap().name.as_deref(), Some("x"));
}

#[test]
fn load_guild_users_into_empty_cache_loads_nothing() {
    let mut c = Caches::new();
    c.load_guild_users(&vec![GuildUser { user_id: 1, guild_id: 2 }]);
    assert!(c.guild_users.is_empty());
}

#[test]
fn load_guild_users_copies_present_records() {
    let mut c = Caches::new();
    let a = GuildUser { user_id: 1, guild_id: 2 };
    let b = GuildUser { user_id: 3, guild_id: 2 };
    c.guild_users = vec![a, b, a];
    c.load_guild_users(&vec![a, GuildUser { user_id: 9, guild_id: 9 }]);
    assert_eq!(c.guild_users, vec![a, b, a, a, a]);
}

#[test]
fn display_name_falls_back_to_none() {
    let mut c = Caches::new();
    assert_eq!(guild_display_name(&c.guilds, 1), "None");
    c.guilds.insert(1, Guild::new(1, None, None, None, None));
    assert_eq!(guild_display_name(&c.guilds, 1), "None");
    c.guilds.insert(2, Guild::new(2, Some("Two".to_string()), None, None, None));
    assert_eq!(guild_display_name(&c.guilds, 2), "Two");
}

#[test]
fn resolve_prefix_prefers_guild_prefix() {
    let mut c = Caches::new();
    assert_eq!(resolve_prefix(&c.guilds, 1, "~".to_string()), "~");
    c.guilds.insert(1, Guild::new(1, None, Some("$".to_string()), None, None));
    assert_eq!(resolve_prefix(&c.guilds, 1, "~".to_string()), "$");
}

#[test]
fn clear_search_results_updates_cached_guild() {
    let mut c = Caches::new();
    let mut g = Guild::new(1, Some("g".to_string()), None, None, None);
    g.set_query_results(&Some(vec!["t".to_string()]));
    c.guilds.insert(1, g);
    let acts = clear_search_results(&mut c.guilds, 1);
    assert_eq!(describe_all(&acts), vec!["update guild 1"]);
    assert_eq!(c.guilds.get(&1).unwrap().get_query_results(), None);
    assert!(clear_search_results(&mut c.guilds, 2).is_empty());
}

#[test]
fn ready_then_create_changes_nothing() {
    let mut c = Caches::new();
    let g = guild_info(100, 2, vec![member(1, "ann"), member(2, "own")]);
    c.ready_guild(&g);
    let users = c.users.len();
    let links = c.guild_users.clone();
    let acts = c.guild_create(&g);
    assert!(acts.is_empty());
    assert_eq!(c.users.len(), users);
    assert_eq!(c.guild_users, links);
    assert_eq!(c.guilds.len(), 1);
}

#[test]
fn can_remove_member_checks_earlier_records() {
    let mut c = Caches::new();
    c.guild_users = vec![GuildUser { user_id: 1, guild_id: 10 }, GuildUser { user_id: 2, guild_id: 10 }];
    assert!(!c.can_remove_member(10, 1));
    assert!(c.can_remove_member(10, 2));
    assert!(c.can_remove_member(10, 3));
    assert!(Caches::new().can_remove_member(1, 1));
}

#[test]
fn can_delete_guild_checks_lookups() {
    let mut c = Caches::new();
    assert!(!c.can_delete_guild(100));
    let g = guild_info(100, 2, vec![member(1, "ann"), member(3, "cat")]);
    c.guild_create(&g);
    assert!(c.can_delete_guild(100));
    c.guild_users.push(GuildUser { user_id: 1, guild_id: 100 });
    assert!(!c.can_delete_guild(100));
    c.guild_users.pop();
    c.users.remove(&3);
    assert!(!c.can_delete_guild(100));
}

#[test]
fn linked_user_ids_in_order() {
    let gus = vec![
        GuildUser { user_id: 1, guild_id: 10 },
        GuildUser { user_id: 2, guild_id: 11 },
        GuildUser { user_id: 3, guild_id: 10 },
    ];
    assert_eq!(steve::cache::linked_user_ids(&gus, 10), vec![1, 3]);
}

#[test]
fn prefix_read_after_set() {
    let mut c = Caches::new();
    c.guilds.insert(1, Guild::new(1, None, Some("!".to_string()), None, None));
    set_cached_prefix(&mut c.guilds, 1, "$".to_string());
    assert_eq!(resolve_prefix(&c.guilds, 1, "~".to_string()), "$");
    set_cached_prefix(&mut c.guilds, 2, "$".to_string());
    assert!(!c.guilds.contains_key(&2));
    assert_eq!(resolve_prefix(&c.guilds, 2, "~".to_string()), "~");
}
