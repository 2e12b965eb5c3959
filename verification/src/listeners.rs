//! The event listener: delegation and the once-only loop start.
//!
//! The framework that owns the process's main loop invokes one listener
//! method per gateway event. Every method forwards its payload, untouched,
//! to the delegate dedicated to that event; the one stateful method is
//! `cache_ready`, which starts the background status loop on its first
//! delivery and does nothing on every later one. The framework's own payload
//! types are opaque handles; each is modeled here by a struct of the plain
//! values the bot reads from it, and the caller converts at the boundary.

use vstd::prelude::*;

verus! {

/// The shared handle the framework gives every callback. The dispatch logic
/// only passes it through, so an identifying token stands for it.
#[derive(Clone, Copy, PartialEq, Eq, Structural, Debug)]
pub struct Context {
    pub token: u64,
}

/// Identifies one guild (one chat server).
#[derive(Clone, Copy, PartialEq, Eq, Structural, Debug)]
pub struct GuildId(pub u64);

/// Payload of the ready event: the identity the gateway confirmed.
#[derive(Clone, Copy, PartialEq, Eq, Structural, Debug)]
pub struct Ready {
    pub user_id: u64,
    pub guild_count: usize,
}

/// Payload of a member-join event.
#[derive(Clone, Copy, PartialEq, Eq, Structural, Debug)]
pub struct Member {
    pub user_id: u64,
    pub pending: bool,
}

/// Payload of a guild-create event.
#[derive(Clone, Copy, PartialEq, Eq, Structural, Debug)]
pub struct Guild {
    pub id: u64,
    pub member_count: u64,
}

/// Payload of an interaction-create event.
#[derive(Clone, Copy, PartialEq, Eq, Structural, Debug)]
pub struct Interaction {
    pub id: u64,
    pub application_id: u64,
}

/// Payload of a reaction-add event.
#[derive(Clone, Copy, PartialEq, Eq, Structural, Debug)]
pub struct Reaction {
    pub channel_id: u64,
    pub message_id: u64,
}

/// What the listener decides for one incoming event: which delegate the
/// caller must now invoke, with which payload, or that the background status
/// loop must be spawned, or that nothing is to be done.
#[derive(Clone, Copy, PartialEq, Eq, Structural, Debug)]
pub enum Action {
    DelegateReady(Context, Ready),
    DelegateMemberJoin(Context, GuildId, Member),
    DelegateGuildCreate(Context, Guild, bool),
    DelegateInteraction(Context, Interaction),
    DelegateReaction(Context, Reaction),
    StartStatusLoop(Context),
    NoAction,
}

/// Whether a single cache-ready delivery starts the status loop, given the
/// flag value it observes: it does exactly when no earlier delivery has.
pub open spec fn delivery_starts_loop(flag_before: bool) -> bool {
    !flag_before
}

/// The flag of a fresh listener after `n` cache-ready deliveries: false
/// until the first delivery, true from then on.
pub open spec fn flag_after_deliveries(n: nat) -> bool {
    n >= 1
}

/// How many of the first `n` cache-ready deliveries to a fresh listener
/// started the loop.
pub open spec fn starts_among_deliveries(n: nat) -> nat
    decreases n,
{
    if n == 0 {
        0
    } else {
        starts_among_deliveries((n - 1) as nat) + (if delivery_starts_loop(
            flag_after_deliveries((n - 1) as nat),
        ) {
            1nat
        } else {
            0nat
        })
    }
}

/// Law: every sequence of one or more cache-ready deliveries starts the
/// background status loop exactly once. Deliveries that arrive together
/// serialize at the flag's read-then-set, which is one atomic step, so every
/// interleaving of concurrent deliveries is such a sequence.
pub proof fn lemma_loop_started_exactly_once(n: nat)
    requires
        1 <= n,
    ensures
        starts_among_deliveries(n) == 1,
    decreases n,
{
    if n == 1 {
        assert(starts_among_deliveries(0) == 0);
        assert(starts_among_deliveries(1) == 1);
    } else {
        lemma_loop_started_exactly_once((n - 1) as nat);
        assert(flag_after_deliveries((n - 1) as nat));
    }
}

/// The event listener. Its only state is the flag that guards the one-time
/// start of the background status loop.
pub struct Handler {
    /// Whether the background status loop has already been started. False at
    /// construction, set on the first cache-ready delivery, never cleared.
    pub is_loop_running: bool,
}

impl Handler {
    /// A fresh listener: the status loop has not been started.
    pub fn new() -> (h: Handler)
        ensures
            !h.is_loop_running,
    {
        Handler { is_loop_running: false }
    }

    /// Ready event: hand exactly this payload to the ready delegate.
    pub fn ready(&self, ctx: Context, payload: Ready) -> (a: Action)
        ensures
            a == Action::DelegateReady(ctx, payload),
    {
        Action::DelegateReady(ctx, payload)
    }

    /// Member-join event: hand exactly this payload to the member-join
    /// delegate.
    pub fn guild_member_addition(&self, ctx: Context, guild_id: GuildId, new_member: Member) -> (a:
        Action)
        ensures
            a == Action::DelegateMemberJoin(ctx, guild_id, new_member),
    {
        Action::DelegateMemberJoin(ctx, guild_id, new_member)
    }

    /// Guild-create event: hand exactly this payload to the guild-create
    /// delegate.
    pub fn guild_create(&self, ctx: Context, guild: Guild, is_new: bool) -> (a: Action)
        ensures
            a == Action::DelegateGuildCreate(ctx, guild, is_new),
    {
        Action::DelegateGuildCreate(ctx, guild, is_new)
    }

    /// Interaction event: hand exactly this payload to the interaction
    /// delegate.
    pub fn interaction_create(&self, ctx: Context, interaction: Interaction) -> (a: Action)
        ensures
            a == Action::DelegateInteraction(ctx, interaction),
    {
        Action::DelegateInteraction(ctx, interaction)
    }

    /// Reaction-add event: hand exactly this payload to the reaction
    /// delegate.
    pub fn reaction_add(&self, ctx: Context, reaction: Reaction) -> (a: Action)
        ensures
            a == Action::DelegateReaction(ctx, reaction),
    {
        Action::DelegateReaction(ctx, reaction)
    }

    /// Cache-ready event, the one stateful operation: the first delivery
    /// asks the caller to spawn the status loop and sets the flag; every
    /// later delivery finds the flag set and asks for nothing. The guild
    /// list plays no part in the decision.
    pub fn cache_ready(&mut self, ctx: Context, _guilds: Vec<GuildId>) -> (a: Action)
        ensures
            final(self).is_loop_running,
            delivery_starts_loop(old(self).is_loop_running) ==> a == Action::StartStatusLoop(ctx),
            !delivery_starts_loop(old(self).is_loop_running) ==> a == Action::NoAction,
    {
        if !self.is_loop_running {
            self.is_loop_running = true;
            Action::StartStatusLoop(ctx)
        } else {
            Action::NoAction
        }
    }
}

} // verus!
