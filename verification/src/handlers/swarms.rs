//! Swarms of agents, as they are shown.

use crate::handlers::cluster;
use crate::http;
use crate::http::Reply;
use crate::json::{Json, JsonView};
use crate::operator_read_models::Moment;
use crate::{json, operator_read_models, text};
use vstd::prelude::*;

verus! {

/// A message between two agents of a swarm.
pub struct SwarmMessageView {
    pub from: String,
    pub to: String,
    pub payload_bytes: usize,
    pub sent_at: Moment,
}

/// A lock that an agent of a swarm holds.
pub struct SwarmLockView {
    pub resource_id: String,
    pub held_by: String,
    pub acquired_at: Moment,
    pub expires_at: Moment,
}

/// What is shown of a swarm.
pub struct SwarmView {
    pub swarm_id: String,
    pub parent_execution_id: String,
    pub member_ids: Vec<String>,
    pub member_count: usize,
    pub status: String,
    pub created_at: Moment,
    pub dissolved_at: Option<Moment>,
    pub lock_count: usize,
    pub recent_message_count: usize,
}

/// A swarm.
pub struct Swarm {
    pub id: String,
    pub parent_execution_id: String,
    pub member_ids: Vec<String>,
    pub status: String,
    pub created_at: Moment,
    pub dissolved_at: Option<Moment>,
}

/// Whether a view shows a swarm that has the given numbers of locks and messages.
pub open spec fn shows(view: SwarmView, swarm: Swarm, locks: usize, messages: usize) -> bool {
    &&& view.swarm_id@ == swarm.id@
    &&& view.parent_execution_id@ == swarm.parent_execution_id@
    &&& text::views(view.member_ids@) == text::views(swarm.member_ids@)
    &&& view.member_count == swarm.member_ids@.len()
    &&& view.status@ == text::lowered(swarm.status@)
    &&& view.created_at == swarm.created_at
    &&& view.dissolved_at == swarm.dissolved_at
    &&& view.lock_count == locks
    &&& view.recent_message_count == messages
}

/// What is shown of a swarm with the given numbers of locks and messages.
pub fn swarm_view(swarm: &Swarm, lock_count: usize, recent_message_count: usize) -> (r: SwarmView)
    ensures
        shows(r, *swarm, lock_count, recent_message_count),
{
    SwarmView {
        swarm_id: swarm.id.clone(),
        parent_execution_id: swarm.parent_execution_id.clone(),
        member_ids: text::copied(&swarm.member_ids),
        member_count: swarm.member_ids.len(),
        status: text::ascii_lower(swarm.status.as_str()),
        created_at: swarm.created_at,
        dissolved_at: swarm.dissolved_at,
        lock_count,
        recent_message_count,
    }
}

/// A message between two agents of a swarm, with what it carries.
pub struct SwarmMessage {
    pub from: String,
    pub to: String,
    pub payload: Vec<u8>,
    pub sent_at: Moment,
}

/// Whether a view shows a message: the size of what it carries, not what it carries.
pub open spec fn shows_message(view: SwarmMessageView, message: SwarmMessage) -> bool {
    &&& view.from@ == message.from@
    &&& view.to@ == message.to@
    &&& view.payload_bytes == message.payload@.len()
    &&& view.sent_at == message.sent_at
}

/// What is shown of a swarm alone, with its locks and messages.
pub struct SwarmDetails {
    pub swarm: SwarmView,
    pub locks: Vec<SwarmLockView>,
    pub recent_messages: Vec<SwarmMessageView>,
}

/// What is shown of a swarm alone; nothing where it is not there.
pub fn get_swarm(
    found: Option<Swarm>,
    locks: Vec<SwarmLockView>,
    messages: &Vec<SwarmMessage>,
) -> (r: Option<SwarmDetails>)
    ensures
        match found {
            None => r is None,
            Some(swarm) => {
                &&& r is Some
                &&& shows(r->Some_0.swarm, swarm, locks.len(), messages.len())
                &&& r->Some_0.locks == locks
                &&& r->Some_0.recent_messages@.len() == messages@.len()
                &&& forall|i: int|
                    0 <= i < messages@.len() ==> shows_message(
                        #[trigger] r->Some_0.recent_messages@[i],
                        messages@[i],
                    )
            },
        },
{
    let swarm = match found {
        Some(s) => s,
        None => {
            return None;
        },
    };
    let mut shown: Vec<SwarmMessageView> = Vec::new();
    let mut i: usize = 0;
    while i < messages.len()
        invariant
            i <= messages@.len(),
            shown@.len() == i,
            forall|k: int| 0 <= k < i ==> shows_message(#[trigger] shown@[k], messages@[k]),
        decreases messages@.len() - i,
    {
        let message = &messages[i];
        shown.push(
            SwarmMessageView {
                from: message.from.clone(),
                to: message.to.clone(),
                payload_bytes: message.payload.len(),
                sent_at: message.sent_at,
            },
        );
        i += 1;
    }
    Some(
        SwarmDetails {
            swarm: swarm_view(&swarm, locks.len(), messages.len()),
            locks,
            recent_messages: shown,
        },
    )
}

/// The swarms that are listed, of all that there are: the first ones, as many as are
/// asked for. Only for those are locks and messages counted.
pub fn swarms_to_list(swarms: Vec<Swarm>, limit: Option<usize>) -> (r: Vec<Swarm>)
    ensures
        r@ == swarms@.take(cluster::listed_len(limit, swarms@.len()) as int),
{
    cluster::listed(swarms, limit)
}

/// What is shown of the swarms of a list, each with the numbers of its locks and
/// messages.
pub fn list_swarms(swarms: &Vec<(Swarm, usize, usize)>) -> (r: Vec<SwarmView>)
    ensures
        r@.len() == swarms@.len(),
        forall|i: int|
            0 <= i < swarms@.len() ==> shows(
                #[trigger] r@[i],
                swarms@[i].0,
                swarms@[i].1,
                swarms@[i].2,
            ),
{
    let mut items: Vec<SwarmView> = Vec::new();
    let mut i: usize = 0;
    while i < swarms.len()
        invariant
            i <= swarms@.len(),
            items@.len() == i,
            forall|k: int|
                0 <= k < i ==> shows(
                    #[trigger] items@[k],
                    swarms@[k].0,
                    swarms@[k].1,
                    swarms@[k].2,
                ),
        decreases swarms@.len() - i,
    {
        items.push(swarm_view(&swarms[i].0, swarms[i].1, swarms[i].2));
        i += 1;
    }
    items
}

/// The answer about a swarm that is not there.
pub fn swarm_not_found_reply() -> (r: Reply)
    ensures
        r@ == http::error_reply(200, "swarm not found"@),
{
    Reply::error(200, "swarm not found")
}

impl SwarmView {
    /// The JSON in which a swarm is shown.
    pub open spec fn rendered(self) -> JsonView {
        JsonView::object().with(
            "swarm_id"@,
            JsonView::Str(self.swarm_id@),
        ).with(
            "parent_execution_id"@,
            JsonView::Str(self.parent_execution_id@),
        ).with(
            "member_ids"@,
            JsonView::texts(text::views(self.member_ids@)),
        ).with(
            "member_count"@,
            JsonView::Int(self.member_count as int),
        ).with(
            "status"@,
            JsonView::Str(self.status@),
        ).with(
            "created_at"@,
            operator_read_models::moment_shown(self.created_at),
        ).with(
            "dissolved_at"@,
            operator_read_models::opt_moment_shown(self.dissolved_at),
        ).with(
            "lock_count"@,
            JsonView::Int(self.lock_count as int),
        ).with(
            "recent_message_count"@,
            JsonView::Int(self.recent_message_count as int),
        )
    }

    /// The JSON in which a swarm is shown.
    pub fn render(&self) -> (r: Json)
        ensures
            r@ == self.rendered(),
    {
        Json::object().with(
            "swarm_id",
            Json::text(self.swarm_id.as_str()),
        ).with(
            "parent_execution_id",
            Json::text(self.parent_execution_id.as_str()),
        ).with(
            "member_ids",
            Json::texts(&self.member_ids),
        ).with(
            "member_count",
            Json::Int(self.member_count as i128),
        ).with(
            "status",
            Json::text(self.status.as_str()),
        ).with(
            "created_at",
            operator_read_models::show_moment(self.created_at),
        ).with(
            "dissolved_at",
            operator_read_models::show_opt_moment(self.dissolved_at),
        ).with(
            "lock_count",
            Json::Int(self.lock_count as i128),
        ).with(
            "recent_message_count",
            Json::Int(self.recent_message_count as i128),
        )
    }
}

impl SwarmLockView {
    /// The JSON in which a lock is shown.
    pub open spec fn rendered(self) -> JsonView {
        JsonView::object().with(
            "resource_id"@,
            JsonView::Str(self.resource_id@),
        ).with(
            "held_by"@,
            JsonView::Str(self.held_by@),
        ).with(
            "acquired_at"@,
            operator_read_models::moment_shown(self.acquired_at),
        ).with(
            "expires_at"@,
            operator_read_models::moment_shown(self.expires_at),
        )
    }

    /// The JSON in which a lock is shown.
    pub fn render(&self) -> (r: Json)
        ensures
            r@ == self.rendered(),
    {
        Json::object().with(
            "resource_id",
            Json::text(self.resource_id.as_str()),
        ).with(
            "held_by",
            Json::text(self.held_by.as_str()),
        ).with(
            "acquired_at",
            operator_read_models::show_moment(self.acquired_at),
        ).with(
            "expires_at",
            operator_read_models::show_moment(self.expires_at),
        )
    }
}

impl SwarmMessageView {
    /// The JSON in which a message is shown.
    pub open spec fn rendered(self) -> JsonView {
        JsonView::object().with(
            "from"@,
            JsonView::Str(self.from@),
        ).with(
            "to"@,
            JsonView::Str(self.to@),
        ).with(
            "payload_bytes"@,
            JsonView::Int(self.payload_bytes as int),
        ).with(
            "sent_at"@,
            operator_read_models::moment_shown(self.sent_at),
        )
    }

    /// The JSON in which a message is shown.
    pub fn render(&self) -> (r: Json)
        ensures
            r@ == self.rendered(),
    {
        Json::object().with(
            "from",
            Json::text(self.from.as_str()),
        ).with(
            "to",
            Json::text(self.to.as_str()),
        ).with(
            "payload_bytes",
            Json::Int(self.payload_bytes as i128),
        ).with(
            "sent_at",
            operator_read_models::show_moment(self.sent_at),
        )
    }
}

impl SwarmDetails {
    /// The JSON in which a swarm is shown alone.
    pub open spec fn rendered(self) -> JsonView {
        JsonView::object().with(
            "swarm"@,
            self.swarm.rendered(),
        ).with(
            "locks"@,
            JsonView::Arr(self.locks@.map_values(|l: SwarmLockView| l.rendered())),
        ).with(
            "recent_messages"@,
            JsonView::Arr(
                self.recent_messages@.map_values(|m: SwarmMessageView| m.rendered()),
            ),
        )
    }

    /// The JSON in which a swarm is shown alone.
    pub fn render(&self) -> (r: Json)
        ensures
            r@ == self.rendered(),
    {
        let mut locks: Vec<Json> = Vec::new();
        for i in 0..self.locks.len()
            invariant
                locks@.len() == i,
                forall|j: int| 0 <= j < i ==> #[trigger] locks@[j]@ == self.locks@[j].rendered(),
        {
            locks.push(self.locks[i].render());
        }
        assert(json::json_views(locks@) =~= self.locks@.map_values(
            |l: SwarmLockView| l.rendered(),
        ));
        let mut messages: Vec<Json> = Vec::new();
        for i in 0..self.recent_messages.len()
            invariant
                messages@.len() == i,
                forall|j: int|
                    0 <= j < i ==> #[trigger] messages@[j]@
                        == self.recent_messages@[j].rendered(),
        {
            messages.push(self.recent_messages[i].render());
        }
        assert(json::json_views(messages@) =~= self.recent_messages@.map_values(
            |m: SwarmMessageView| m.rendered(),
        ));
        Json::object().with(
            "swarm",
            self.swarm.render(),
        ).with(
            "locks",
            Json::array(locks),
        ).with(
            "recent_messages",
            Json::array(messages),
        )
    }
}

/// The JSON in which a swarm is shown: each part is found under its own name, as it is.
pub proof fn law_swarm_view_rendered_holds_its_parts(
    row: SwarmView,
)
    ensures
        row.rendered().get("swarm_id"@) == Some(JsonView::Str(row.swarm_id@)),
        row.rendered().get("parent_execution_id"@) == Some(JsonView::Str(row.parent_execution_id@)),
        row.rendered().get("member_ids"@) == Some(JsonView::texts(text::views(row.member_ids@))),
        row.rendered().get("member_count"@) == Some(JsonView::Int(row.member_count as int)),
        row.rendered().get("status"@) == Some(JsonView::Str(row.status@)),
        row.rendered().get("created_at"@) == Some(operator_read_models::moment_shown(row.created_at)),
        row.rendered().get("dissolved_at"@) == Some(operator_read_models::opt_moment_shown(row.dissolved_at)),
        row.rendered().get("lock_count"@) == Some(JsonView::Int(row.lock_count as int)),
        row.rendered().get("recent_message_count"@) == Some(JsonView::Int(row.recent_message_count as int)),
{
    broadcast use crate::json::lemma_get_with;

    reveal_strlit("swarm_id");
    reveal_strlit("parent_execution_id");
    reveal_strlit("member_ids");
    reveal_strlit("member_count");
    reveal_strlit("status");
    reveal_strlit("created_at");
    reveal_strlit("dissolved_at");
    reveal_strlit("lock_count");
    reveal_strlit("recent_message_count");
    assert("swarm_id"@.len() == 8 && "parent_execution_id"@.len() == 19 && "member_ids"@.len() == 10 && "member_count"@.len() == 12 && "status"@.len() == 6 && "created_at"@.len() == 10 && "dissolved_at"@.len() == 12 && "lock_count"@.len() == 10 && "recent_message_count"@.len() == 20 && "created_at"@[0] == 'c' && "member_ids"@[0] == 'm' && "dissolved_at"@[0] == 'd' && "member_count"@[0] == 'm' && "lock_count"@[0] == 'l');
}

/// The JSON in which a lock is shown: each part is found under its own name, as it is.
pub proof fn law_swarm_lock_view_rendered_holds_its_parts(
    row: SwarmLockView,
)
    ensures
        row.rendered().get("resource_id"@) == Some(JsonView::Str(row.resource_id@)),
        row.rendered().get("held_by"@) == Some(JsonView::Str(row.held_by@)),
        row.rendered().get("acquired_at"@) == Some(operator_read_models::moment_shown(row.acquired_at)),
        row.rendered().get("expires_at"@) == Some(operator_read_models::moment_shown(row.expires_at)),
{
    broadcast use crate::json::lemma_get_with;

    reveal_strlit("resource_id");
    reveal_strlit("held_by");
    reveal_strlit("acquired_at");
    reveal_strlit("expires_at");
    assert("resource_id"@.len() == 11 && "held_by"@.len() == 7 && "acquired_at"@.len() == 11 && "expires_at"@.len() == 10 && "acquired_at"@[0] == 'a' && "resource_id"@[0] == 'r');
}

/// The JSON in which a message is shown: each part is found under its own name, as it
/// is.
pub proof fn law_swarm_message_view_rendered_holds_its_parts(
    row: SwarmMessageView,
)
    ensures
        row.rendered().get("from"@) == Some(JsonView::Str(row.from@)),
        row.rendered().get("to"@) == Some(JsonView::Str(row.to@)),
        row.rendered().get("payload_bytes"@) == Some(JsonView::Int(row.payload_bytes as int)),
        row.rendered().get("sent_at"@) == Some(operator_read_models::moment_shown(row.sent_at)),
{
    broadcast use crate::json::lemma_get_with;

    reveal_strlit("from");
    reveal_strlit("to");
    reveal_strlit("payload_bytes");
    reveal_strlit("sent_at");
    assert("from"@.len() == 4 && "to"@.len() == 2 && "payload_bytes"@.len() == 13 && "sent_at"@.len() == 7);
}

/// The JSON in which a swarm is shown alone: each part is found under its own name, as
/// it is.
pub proof fn law_swarm_details_rendered_holds_its_parts(
    row: SwarmDetails,
)
    ensures
        row.rendered().get("swarm"@) == Some(row.swarm.rendered()),
        row.rendered().get("locks"@) == Some(JsonView::Arr(row.locks@.map_values(|l: SwarmLockView| l.rendered()))),
        row.rendered().get("recent_messages"@) == Some(JsonView::Arr( row.recent_messages@.map_values(|m: SwarmMessageView| m.rendered()), )),
{
    broadcast use crate::json::lemma_get_with;

    reveal_strlit("swarm");
    reveal_strlit("locks");
    reveal_strlit("recent_messages");
    assert("swarm"@.len() == 5 && "locks"@.len() == 5 && "recent_messages"@.len() == 15 && "locks"@[0] == 'l' && "swarm"@[0] == 's');
}

/// A swarm is shown with its own identifiers, every member, its state in small letters, and
/// its counts.
pub proof fn law_a_swarm_is_shown_as_it_is(
    view: SwarmView,
    swarm: Swarm,
    locks: usize,
    messages: usize,
    i: int,
)
    requires
        shows(view, swarm, locks, messages),
        0 <= i < swarm.member_ids@.len(),
    ensures
        view.swarm_id@ == swarm.id@,
        view.parent_execution_id@ == swarm.parent_execution_id@,
        view.member_ids@.len() == swarm.member_ids@.len(),
        view.member_ids@[i]@ == swarm.member_ids@[i]@,
        view.member_count == swarm.member_ids@.len(),
        view.status@ == text::lowered(swarm.status@),
        view.created_at == swarm.created_at,
        view.dissolved_at == swarm.dissolved_at,
        view.lock_count == locks,
        view.recent_message_count == messages,
{
    assert(text::views(view.member_ids@).len() == view.member_ids@.len());
    assert(text::views(view.member_ids@)[i] == text::views(swarm.member_ids@)[i]);
}

/// A message is shown by who sent it to whom and when, and by its size.
pub proof fn law_a_message_is_shown_by_its_size(view: SwarmMessageView, message: SwarmMessage)
    requires
        shows_message(view, message),
    ensures
        view.from@ == message.from@,
        view.to@ == message.to@,
        view.payload_bytes == message.payload@.len(),
        view.sent_at == message.sent_at,
{
}

} // verus!
