//! The dispatch router: classifies inbound `Dispatch` frames by their event
//! tag and queues them, in arrival order, for the embedding application. The
//! queue is bounded; when it is full the pump must block (backpressure), it
//! never drops, so sequence numbers reach subscribers monotonically.
use vstd::prelude::*;

use crate::codec::chars_eq_str;
use crate::events::GatewayDispatch;

verus! {

/// The event tag named by a dispatch frame's `t` string; tags outside the
/// set classify as `Unknown` rather than failing.
pub open spec fn spec_tag_of(t: Seq<char>) -> GatewayDispatch {
    if t == "READY"@ {
        GatewayDispatch::Ready
    } else if t == "RESUMED"@ {
        GatewayDispatch::Resumed
    } else if t == "CHANNEL_CREATE"@ {
        GatewayDispatch::ChannelCreate
    } else if t == "CHANNEL_UPDATE"@ {
        GatewayDispatch::ChannelUpdate
    } else if t == "CHANNEL_DELETE"@ {
        GatewayDispatch::ChannelDelete
    } else if t == "CHANNEL_PINS_UPDATE"@ {
        GatewayDispatch::ChannelPinsUpdate
    } else if t == "THREAD_CREATE"@ {
        GatewayDispatch::ThreadCreate
    } else if t == "THREAD_UPDATE"@ {
        GatewayDispatch::ThreadUpdate
    } else if t == "THREAD_DELETE"@ {
        GatewayDispatch::ThreadDelete
    } else if t == "THREAD_LIST_SYNC"@ {
        GatewayDispatch::ThreadListSync
    } else if t == "THREAD_MEMBER_UPDATE"@ {
        GatewayDispatch::ThreadMemberUpdate
    } else if t == "THREAD_MEMBERS_UPDATE"@ {
        GatewayDispatch::ThreadMembersUpdate
    } else if t == "GUILD_CREATE"@ {
        GatewayDispatch::GuildCreate
    } else if t == "GUILD_UPDATE"@ {
        GatewayDispatch::GuildUpdate
    } else if t == "GUILD_DELETE"@ {
        GatewayDispatch::GuildDelete
    } else if t == "GUILD_BAN_ADD"@ {
        GatewayDispatch::GuildBanAdd
    } else if t == "GUILD_BAN_REMOVE"@ {
        GatewayDispatch::GuildBanRemove
    } else if t == "GUILD_EMOJIS_UPDATE"@ {
        GatewayDispatch::GuildEmojisUpdate
    } else if t == "GUILD_STICKERS_UPDATE"@ {
        GatewayDispatch::GuildStickersUpdate
    } else if t == "GUILD_INTEGRATIONS_UPDATE"@ {
        GatewayDispatch::GuildIntegrationsUpdate
    } else if t == "GUILD_MEMBER_ADD"@ {
        GatewayDispatch::GuildMemberAdd
    } else if t == "GUILD_MEMBER_REMOVE"@ {
        GatewayDispatch::GuildMemberRemove
    } else if t == "GUILD_MEMBER_UPDATE"@ {
        GatewayDispatch::GuildMemberUpdate
    } else if t == "GUILD_MEMBERS_CHUNK"@ {
        GatewayDispatch::GuildMembersChunk
    } else if t == "GUILD_ROLE_CREATE"@ {
        GatewayDispatch::GuildRoleCreate
    } else if t == "GUILD_ROLE_UPDATE"@ {
        GatewayDispatch::GuildRoleUpdate
    } else if t == "GUILD_ROLE_DELETE"@ {
        GatewayDispatch::GuildRoleDelete
    } else if t == "INTEGRATION_CREATE"@ {
        GatewayDispatch::IntegrationCreate
    } else if t == "INTEGRATION_UPDATE"@ {
        GatewayDispatch::IntegrationUpdate
    } else if t == "INTEGRATION_DELETE"@ {
        GatewayDispatch::IntegrationDelete
    } else if t == "INTERACTION_CREATE"@ {
        GatewayDispatch::InteractionCreate
    } else if t == "INVITE_CREATE"@ {
        GatewayDispatch::InviteCreate
    } else if t == "INVITE_DELETE"@ {
        GatewayDispatch::InviteDelete
    } else if t == "MESSAGE_CREATE"@ {
        GatewayDispatch::MessageCreate
    } else if t == "MESSAGE_UPDATE"@ {
        GatewayDispatch::MessageUpdate
    } else if t == "MESSAGE_DELETE"@ {
        GatewayDispatch::MessageDelete
    } else if t == "MESSAGE_DELETE_BULK"@ {
        GatewayDispatch::MessageDeleteBulk
    } else if t == "MESSAGE_REACTION_ADD"@ {
        GatewayDispatch::MessageReactionAdd
    } else if t == "MESSAGE_REACTION_REMOVE"@ {
        GatewayDispatch::MessageReactionRemove
    } else if t == "MESSAGE_REACTION_REMOVE_ALL"@ {
        GatewayDispatch::MessageReactionRemoveAll
    } else if t == "MESSAGE_REACTION_REMOVE_EMOJI"@ {
        GatewayDispatch::MessageReactionRemoveEmoji
    } else if t == "PRESENCE_UPDATE"@ {
        GatewayDispatch::PresenceUpdate
    } else if t == "STAGE_INSTANCE_CREATE"@ {
        GatewayDispatch::StageInstanceCreate
    } else if t == "STAGE_INSTANCE_DELETE"@ {
        GatewayDispatch::StageInstanceDelete
    } else if t == "STAGE_INSTANCE_UPDATE"@ {
        GatewayDispatch::StageInstanceUpdate
    } else if t == "TYPING_START"@ {
        GatewayDispatch::TypingStart
    } else if t == "USER_UPDATE"@ {
        GatewayDispatch::UserUpdate
    } else if t == "VOICE_STATE_UPDATE"@ {
        GatewayDispatch::VoiceStateUpdate
    } else if t == "VOICE_SERVER_UPDATE"@ {
        GatewayDispatch::VoiceServerUpdate
    } else if t == "WEBHOOKS_UPDATE"@ {
        GatewayDispatch::WebhooksUpdate
    } else {
        GatewayDispatch::Unknown
    }
}

/// The event tag named by a dispatch frame's `t` string.
pub fn tag_of_name(t: &[char]) -> (r: GatewayDispatch)
    ensures
        r == spec_tag_of(t@),
{
    if chars_eq_str(t, "READY") {
        GatewayDispatch::Ready
    } else if chars_eq_str(t, "RESUMED") {
        GatewayDispatch::Resumed
    } else if chars_eq_str(t, "CHANNEL_CREATE") {
        GatewayDispatch::ChannelCreate
    } else if chars_eq_str(t, "CHANNEL_UPDATE") {
        GatewayDispatch::ChannelUpdate
    } else if chars_eq_str(t, "CHANNEL_DELETE") {
        GatewayDispatch::ChannelDelete
    } else if chars_eq_str(t, "CHANNEL_PINS_UPDATE") {
        GatewayDispatch::ChannelPinsUpdate
    } else if chars_eq_str(t, "THREAD_CREATE") {
        GatewayDispatch::ThreadCreate
    } else if chars_eq_str(t, "THREAD_UPDATE") {
        GatewayDispatch::ThreadUpdate
    } else if chars_eq_str(t, "THREAD_DELETE") {
        GatewayDispatch::ThreadDelete
    } else if chars_eq_str(t, "THREAD_LIST_SYNC") {
        GatewayDispatch::ThreadListSync
    } else if chars_eq_str(t, "THREAD_MEMBER_UPDATE") {
        GatewayDispatch::ThreadMemberUpdate
    } else if chars_eq_str(t, "THREAD_MEMBERS_UPDATE") {
        GatewayDispatch::ThreadMembersUpdate
    } else if chars_eq_str(t, "GUILD_CREATE") {
        GatewayDispatch::GuildCreate
    } else if chars_eq_str(t, "GUILD_UPDATE") {
        GatewayDispatch::GuildUpdate
    } else if chars_eq_str(t, "GUILD_DELETE") {
        GatewayDispatch::GuildDelete
    } else if chars_eq_str(t, "GUILD_BAN_ADD") {
        GatewayDispatch::GuildBanAdd
    } else if chars_eq_str(t, "GUILD_BAN_REMOVE") {
        GatewayDispatch::GuildBanRemove
    } else if chars_eq_str(t, "GUILD_EMOJIS_UPDATE") {
        GatewayDispatch::GuildEmojisUpdate
    } else if chars_eq_str(t, "GUILD_STICKERS_UPDATE") {
        GatewayDispatch::GuildStickersUpdate
    } else if chars_eq_str(t, "GUILD_INTEGRATIONS_UPDATE") {
        GatewayDispatch::GuildIntegrationsUpdate
    } else if chars_eq_str(t, "GUILD_MEMBER_ADD") {
        GatewayDispatch::GuildMemberAdd
    } else if chars_eq_str(t, "GUILD_MEMBER_REMOVE") {
        GatewayDispatch::GuildMemberRemove
    } else if chars_eq_str(t, "GUILD_MEMBER_UPDATE") {
        GatewayDispatch::GuildMemberUpdate
    } else if chars_eq_str(t, "GUILD_MEMBERS_CHUNK") {
        GatewayDispatch::GuildMembersChunk
    } else if chars_eq_str(t, "GUILD_ROLE_CREATE") {
        GatewayDispatch::GuildRoleCreate
    } else if chars_eq_str(t, "GUILD_ROLE_UPDATE") {
        GatewayDispatch::GuildRoleUpdate
    } else if chars_eq_str(t, "GUILD_ROLE_DELETE") {
        GatewayDispatch::GuildRoleDelete
    } else if chars_eq_str(t, "INTEGRATION_CREATE") {
        GatewayDispatch::IntegrationCreate
    } else if chars_eq_str(t, "INTEGRATION_UPDATE") {
        GatewayDispatch::IntegrationUpdate
    } else if chars_eq_str(t, "INTEGRATION_DELETE") {
        GatewayDispatch::IntegrationDelete
    } else if chars_eq_str(t, "INTERACTION_CREATE") {
        GatewayDispatch::InteractionCreate
    } else if chars_eq_str(t, "INVITE_CREATE") {
        GatewayDispatch::InviteCreate
    } else if chars_eq_str(t, "INVITE_DELETE") {
        GatewayDispatch::InviteDelete
    } else if chars_eq_str(t, "MESSAGE_CREATE") {
        GatewayDispatch::MessageCreate
    } else if chars_eq_str(t, "MESSAGE_UPDATE") {
        GatewayDispatch::MessageUpdate
    } else if chars_eq_str(t, "MESSAGE_DELETE") {
        GatewayDispatch::MessageDelete
    } else if chars_eq_str(t, "MESSAGE_DELETE_BULK") {
        GatewayDispatch::MessageDeleteBulk
    } else if chars_eq_str(t, "MESSAGE_REACTION_ADD") {
        GatewayDispatch::MessageReactionAdd
    } else if chars_eq_str(t, "MESSAGE_REACTION_REMOVE") {
        GatewayDispatch::MessageReactionRemove
    } else if chars_eq_str(t, "MESSAGE_REACTION_REMOVE_ALL") {
        GatewayDispatch::MessageReactionRemoveAll
    } else if chars_eq_str(t, "MESSAGE_REACTION_REMOVE_EMOJI") {
        GatewayDispatch::MessageReactionRemoveEmoji
    } else if chars_eq_str(t, "PRESENCE_UPDATE") {
        GatewayDispatch::PresenceUpdate
    } else if chars_eq_str(t, "STAGE_INSTANCE_CREATE") {
        GatewayDispatch::StageInstanceCreate
    } else if chars_eq_str(t, "STAGE_INSTANCE_DELETE") {
        GatewayDispatch::StageInstanceDelete
    } else if chars_eq_str(t, "STAGE_INSTANCE_UPDATE") {
        GatewayDispatch::StageInstanceUpdate
    } else if chars_eq_str(t, "TYPING_START") {
        GatewayDispatch::TypingStart
    } else if chars_eq_str(t, "USER_UPDATE") {
        GatewayDispatch::UserUpdate
    } else if chars_eq_str(t, "VOICE_STATE_UPDATE") {
        GatewayDispatch::VoiceStateUpdate
    } else if chars_eq_str(t, "VOICE_SERVER_UPDATE") {
        GatewayDispatch::VoiceServerUpdate
    } else if chars_eq_str(t, "WEBHOOKS_UPDATE") {
        GatewayDispatch::WebhooksUpdate
    } else {
        GatewayDispatch::Unknown
    }
}

/// One routed event: the classified tag, the originating sequence number,
/// and the raw payload text for the subscriber to interpret.
#[derive(Debug)]
pub struct DispatchEvent {
    pub tag: GatewayDispatch,
    pub seq: u64,
    pub payload: Vec<char>,
}

/// Mathematical image of a routed event.
pub struct DispatchEventV {
    pub tag: GatewayDispatch,
    pub seq: u64,
    pub payload: Seq<char>,
}

impl View for DispatchEvent {
    type V = DispatchEventV;

    open spec fn view(&self) -> DispatchEventV {
        DispatchEventV { tag: self.tag, seq: self.seq, payload: self.payload@ }
    }
}

/// A bounded first-in-first-out queue of routed events. `offer` refuses
/// (backpressure) rather than dropping when full, and `take` hands events
/// out in exactly the order they arrived.
pub struct DispatchQueue {
    items: Vec<DispatchEvent>,
    capacity: usize,
}

impl View for DispatchQueue {
    type V = Seq<DispatchEventV>;

    closed spec fn view(&self) -> Seq<DispatchEventV> {
        self.items@.map_values(|e: DispatchEvent| e@)
    }
}

impl DispatchQueue {
    /// The bound the queue was created with.
    pub closed spec fn spec_capacity(&self) -> usize {
        self.capacity
    }

    /// An empty queue holding at most `capacity` undelivered events.
    pub fn new(capacity: usize) -> (r: DispatchQueue)
        requires
            capacity >= 1,
        ensures
            r@ == Seq::<DispatchEventV>::empty(),
            r.spec_capacity() == capacity,
    {
        let q = DispatchQueue { items: Vec::new(), capacity };
        proof {
            assert(q@ =~= Seq::<DispatchEventV>::empty());
        }
        q
    }

    /// How many events wait for delivery.
    pub fn len(&self) -> (r: usize)
        ensures
            r == self@.len(),
    {
        self.items.len()
    }

    /// Append an event, unless the queue is full: then the event comes back
    /// unchanged and the caller must block the pump (never drop).
    pub fn offer(&mut self, e: DispatchEvent) -> (refused: Option<DispatchEvent>)
        ensures
            refused is None <==> old(self)@.len() < old(self).spec_capacity(),
            refused is None ==> final(self)@ == old(self)@.push(e@),
            refused matches Some(back) ==> back@ == e@ && final(self)@ == old(self)@,
            final(self).spec_capacity() == old(self).spec_capacity(),
    {
        if self.items.len() < self.capacity {
            let ghost prior = self.items@;
            self.items.push(e);
            proof {
                assert(self@ =~= prior.map_values(|x: DispatchEvent| x@).push(e@));
            }
            None
        } else {
            Some(e)
        }
    }

    /// Remove and return the oldest event; delivery order is arrival order.
    pub fn take(&mut self) -> (r: Option<DispatchEvent>)
        ensures
            old(self)@.len() == 0 ==> r is None && final(self)@ == old(self)@,
            old(self)@.len() > 0 ==> (r matches Some(e) && e@ == old(self)@[0] && final(self)@
                == old(self)@.drop_first()),
            final(self).spec_capacity() == old(self).spec_capacity(),
    {
        if self.items.len() == 0 {
            None
        } else {
            let ghost prior = self.items@;
            let e = self.items.remove(0);
            proof {
                assert(self@ =~= prior.map_values(|x: DispatchEvent| x@).drop_first());
            }
            Some(e)
        }
    }
}

/// The handler ids subscribed to `tag` among `entries`, in subscription
/// order (the catch-all subscribers come separately).
pub open spec fn spec_recipients(
    entries: Seq<(GatewayDispatch, u64)>,
    tag: GatewayDispatch,
) -> Seq<u64>
    decreases entries.len(),
{
    if entries.len() == 0 {
        Seq::empty()
    } else {
        let rest = spec_recipients(entries.drop_last(), tag);
        if entries.last().0 == tag {
            rest.push(entries.last().1)
        } else {
            rest
        }
    }
}

/// The subscription registry of spec'd delivery: handler ids bound to one
/// event tag each, plus catch-all handlers that hear every tag. Who hears
/// which event is fixed by `spec_recipients`.
pub struct SubscriberTable {
    entries: Vec<(GatewayDispatch, u64)>,
    catch_all: Vec<u64>,
}

impl SubscriberTable {
    /// The per-tag subscriptions, in subscription order.
    pub closed spec fn spec_entries(&self) -> Seq<(GatewayDispatch, u64)> {
        self.entries@
    }

    /// The catch-all subscribers, in subscription order.
    pub closed spec fn spec_catch_all(&self) -> Seq<u64> {
        self.catch_all@
    }

    /// An empty registry.
    pub fn new() -> (r: SubscriberTable)
        ensures
            r.spec_entries() == Seq::<(GatewayDispatch, u64)>::empty(),
            r.spec_catch_all() == Seq::<u64>::empty(),
    {
        SubscriberTable { entries: Vec::new(), catch_all: Vec::new() }
    }

    /// Register a handler for one event tag.
    pub fn subscribe(&mut self, tag: GatewayDispatch, id: u64)
        ensures
            final(self).spec_entries() == old(self).spec_entries().push((tag, id)),
            final(self).spec_catch_all() == old(self).spec_catch_all(),
    {
        self.entries.push((tag, id));
    }

    /// Register a handler for every event tag.
    pub fn subscribe_all(&mut self, id: u64)
        ensures
            final(self).spec_entries() == old(self).spec_entries(),
            final(self).spec_catch_all() == old(self).spec_catch_all().push(id),
    {
        self.catch_all.push(id);
    }

    /// The handlers one event of this tag must reach: its tag's subscribers
    /// in subscription order, then the catch-all subscribers.
    pub fn recipients_of(&self, tag: GatewayDispatch) -> (r: Vec<u64>)
        ensures
            r@ == spec_recipients(self.spec_entries(), tag) + self.spec_catch_all(),
    {
        let mut out: Vec<u64> = Vec::new();
        let mut i: usize = 0;
        while i < self.entries.len()
            invariant
                i <= self.entries@.len(),
                out@ == spec_recipients(self.entries@.subrange(0, i as int), tag),
            decreases self.entries@.len() - i,
        {
            let (t, id) = self.entries[i];
            if t == tag {
                out.push(id);
            }
            i = i + 1;
            proof {
                let pre = self.entries@.subrange(0, i as int);
                assert(pre.drop_last() =~= self.entries@.subrange(0, i - 1));
                assert(pre.last() == self.entries@[i - 1]);
            }
        }
        proof {
            assert(self.entries@.subrange(0, self.entries@.len() as int) =~= self.entries@);
        }
        let mut k: usize = 0;
        while k < self.catch_all.len()
            invariant
                k <= self.catch_all@.len(),
                out@ == spec_recipients(self.entries@, tag) + self.catch_all@.subrange(
                    0,
                    k as int,
                ),
            decreases self.catch_all@.len() - k,
        {
            out.push(self.catch_all[k]);
            k = k + 1;
            proof {
                assert(out@ =~= spec_recipients(self.entries@, tag) + self.catch_all@.subrange(
                    0,
                    k as int,
                ));
            }
        }
        proof {
            assert(self.catch_all@.subrange(0, self.catch_all@.len() as int) =~= self.catch_all@);
        }
        out
    }
}

/// A handler hears exactly the tags it subscribed to: an id is among a
/// tag's recipients precisely when some subscription bound it to that tag.
pub proof fn lemma_recipient_membership(
    entries: Seq<(GatewayDispatch, u64)>,
    tag: GatewayDispatch,
    id: u64,
)
    ensures
        spec_recipients(entries, tag).contains(id) <==> exists|k: int|
            0 <= k < entries.len() && entries[k] == (tag, id),
    decreases entries.len(),
{
    if entries.len() == 0 {
    } else {
        lemma_recipient_membership(entries.drop_last(), tag, id);
        let rest = spec_recipients(entries.drop_last(), tag);
        let full = spec_recipients(entries, tag);
        // Membership in the recursive layer carries a witness each way.
        if entries.last().0 == tag {
            assert(full == rest.push(entries.last().1));
            if rest.contains(id) || entries.last().1 == id {
                if rest.contains(id) {
                    let w = choose|w: int| 0 <= w < rest.len() && rest[w] == id;
                    assert(full[w] == id);
                } else {
                    assert(full[full.len() - 1] == id);
                }
                assert(full.contains(id));
            }
            if full.contains(id) {
                let w = choose|w: int| 0 <= w < full.len() && full[w] == id;
                if w < rest.len() {
                    assert(rest[w] == id);
                    assert(rest.contains(id));
                } else {
                    assert(entries.last().1 == id);
                }
            }
        } else {
            assert(full == rest);
        }
        // A witness below the last entry carries over each way.
        if exists|k: int| 0 <= k < entries.len() && entries[k] == (tag, id) {
            let k = choose|k: int| 0 <= k < entries.len() && entries[k] == (tag, id);
            if k < entries.len() - 1 {
                assert(entries.drop_last()[k] == (tag, id));
            }
        }
        if exists|k: int| 0 <= k < entries.drop_last().len() && entries.drop_last()[k] == (
        tag,
        id,
        ) {
            let k = choose|k: int|
                0 <= k < entries.drop_last().len() && entries.drop_last()[k] == (tag, id);
            assert(entries[k] == (tag, id));
        }
    }
}

} // verus!
