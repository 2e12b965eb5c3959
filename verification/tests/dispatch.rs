use botcore::listeners::{
    Action, Context, Guild, GuildId, Handler, Interaction, Member, Reaction, Ready,
};

#[test]
fn ready_delegates_to_ready_handler_only() {
    let h = Handler::new();
    let ctx = Context { token: 11 };
    let payload = Ready { user_id: 42, guild_count: 3 };
    let a = h.ready(ctx, payload);
    assert_eq!(a, Action::DelegateReady(ctx, payload));
}

#[test]
fn member_addition_delegates_exact_member() {
    let h = Handler::new();
    let ctx = Context { token: 12 };
    let member = Member { user_id: 77, pending: true };
    let a = h.guild_member_addition(ctx, GuildId(500), member);
    assert_eq!(a, Action::DelegateMemberJoin(ctx, GuildId(500), member));
}

#[test]
fn guild_create_delegates_exact_guild_and_flag() {
    let h = Handler::new();
    let ctx = Context { token: 13 };
    let guild = Guild { id: 900, member_count: 250 };
    let a = h.guild_create(ctx, guild, true);
    assert_eq!(a, Action::DelegateGuildCreate(ctx, guild, true));
    let b = h.guild_create(ctx, guild, false);
    assert_eq!(b, Action::DelegateGuildCreate(ctx, guild, false));
}

#[test]
fn interaction_create_delegates_exact_interaction() {
    let h = Handler::new();
    let ctx = Context { token: 14 };
    let interaction = Interaction { id: 8001, application_id: 31 };
    let a = h.interaction_create(ctx, interaction);
    assert_eq!(a, Action::DelegateInteraction(ctx, interaction));
}

#[test]
fn reaction_add_delegates_exact_reaction() {
    let h = Handler::new();
    let ctx = Context { token: 15 };
    let reaction = Reaction { channel_id: 61, message_id: 2002 };
    let a = h.reaction_add(ctx, reaction);
    assert_eq!(a, Action::DelegateReaction(ctx, reaction));
}

#[test]
fn first_cache_ready_starts_loop_later_ones_do_not() {
    let mut h = Handler::new();
    let ctx = Context { token: 16 };
    assert!(!h.is_loop_running);
    let first = h.cache_ready(ctx, vec![GuildId(1), GuildId(2)]);
    assert_eq!(first, Action::StartStatusLoop(ctx));
    assert!(h.is_loop_running);
    let second = h.cache_ready(ctx, vec![GuildId(1)]);
    assert_eq!(second, Action::NoAction);
    assert!(h.is_loop_running);
}

#[test]
fn any_number_of_cache_ready_deliveries_starts_loop_once() {
    for n in 1..20u64 {
        let mut h = Handler::new();
        let mut starts: u32 = 0;
        for k in 0..n {
            let a = h.cache_ready(Context { token: k }, vec![GuildId(k)]);
            if matches!(a, Action::StartStatusLoop(_)) {
                starts += 1;
            }
        }
        assert_eq!(starts, 1);
    }
}

#[test]
fn scenario_double_cache_ready_then_member_then_interaction() {
    let mut h = Handler::new();
    let ctx = Context { token: 21 };

    let a1 = h.cache_ready(ctx, vec![GuildId(5)]);
    let a2 = h.cache_ready(ctx, vec![GuildId(5)]);
    let mut starts: u32 = 0;
    if matches!(a1, Action::StartStatusLoop(_)) {
        starts += 1;
    }
    if matches!(a2, Action::StartStatusLoop(_)) {
        starts += 1;
    }
    assert_eq!(starts, 1);

    let member = Member { user_id: 4242, pending: false };
    let join = h.guild_member_addition(ctx, GuildId(5), member);
    assert_eq!(join, Action::DelegateMemberJoin(ctx, GuildId(5), member));

    let interaction = Interaction { id: 77, application_id: 9 };
    let act = h.interaction_create(ctx, interaction);
    assert_eq!(act, Action::DelegateInteraction(ctx, interaction));
    assert!(!matches!(act, Action::DelegateReady(_, _)));
    assert!(!matches!(act, Action::DelegateMemberJoin(_, _, _)));
    assert!(!matches!(act, Action::DelegateGuildCreate(_, _, _)));
    assert!(!matches!(act, Action::DelegateReaction(_, _)));
    assert!(!matches!(act, Action::StartStatusLoop(_)));
}
