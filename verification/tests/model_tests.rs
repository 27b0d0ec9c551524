use steve::models::{Guild, GuildUser, User};

fn guild() -> Guild {
    Guild::new(7, Some("Guild".to_string()), Some("!".to_string()), Some(3), Some("".to_string()))
}

#[test]
fn user_new_and_change_channel() {
    let mut u = User::new(1, Some("n".to_string()), Some("n#1".to_string()), None);
    assert_eq!(u.id, 1);
    let r = u.change_channel("42".to_string());
    assert_eq!(r.current_channel_id.as_deref(), Some("42"));
    assert_eq!(u.name.as_deref(), Some("n"));
    assert_eq!(u.tag.as_deref(), Some("n#1"));
}

#[test]
fn guild_new_has_no_stored_search() {
    let g = guild();
    assert_eq!(g.id, 7);
    assert_eq!(g.owner_id, Some(3));
    assert_eq!(g.get_query_results(), None);
}

#[test]
fn guild_setters() {
    let mut g = guild();
    g.set_channel("99".to_string());
    assert_eq!(g.cur_vc_id.as_deref(), Some("99"));
    g.set_name("Other".to_string());
    assert_eq!(g.get_name(), "Other");
    let g = g.set_prefix("$".to_string());
    assert_eq!(g.prefix.as_deref(), Some("$"));
    assert_eq!(g.name.as_deref(), Some("Other"));
}

#[test]
fn guild_get_name_without_name_is_empty() {
    let g = Guild::new(1, None, None, None, None);
    assert_eq!(g.get_name(), "");
}

#[test]
fn query_results_round_trip() {
    let mut g = guild();
    let titles = Some(vec!["First".to_string(), "Second".to_string(), "Third".to_string()]);
    g.set_query_results(&titles);
    assert_eq!(g.query_results.as_deref(), Some("First\nSecond\nThird"));
    assert_eq!(g.get_query_results(), titles);
}

#[test]
fn query_results_of_empty_list_read_back_as_one_empty_title() {
    let mut g = guild();
    g.set_query_results(&Some(vec![]));
    assert_eq!(g.get_query_results(), Some(vec!["".to_string()]));
}

#[test]
fn query_results_cleared() {
    let mut g = guild();
    g.set_query_results(&Some(vec!["a".to_string()]));
    g.empty_query_results();
    assert_eq!(g.get_query_results(), None);
    g.set_query_results(&Some(vec!["a".to_string()]));
    g.set_query_results(&None);
    assert_eq!(g.get_query_results(), None);
}

#[test]
fn guild_user_new() {
    let gu = GuildUser::new(5, 6);
    assert_eq!(gu, GuildUser { user_id: 5, guild_id: 6 });
}

#[test]
fn clones_keep_fields() {
    let u = User::new(1, Some("a".to_string()), None, Some("c".to_string()));
    let v = u.clone();
    assert_eq!(v.id, 1);
    assert_eq!(v.name.as_deref(), Some("a"));
    assert_eq!(v.current_channel_id.as_deref(), Some("c"));
    let mut g = guild();
    g.set_query_results(&Some(vec!["x".to_string()]));
    let h = g.clone();
    assert_eq!(h.get_query_results(), Some(vec!["x".to_string()]));
    assert_eq!(h.prefix.as_deref(), Some("!"));
}
