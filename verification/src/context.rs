use std::collections::VecDeque;
use vstd::prelude::*;

use crate::text::same_text;

verus! {

/// How many messages a conversation's context keeps.
pub const MAX_CONTEXT_LENGTH: usize = 10;

/// One message of a conversation: who spoke, what was said, and when
/// (seconds since the Unix epoch).
#[derive(Debug, Clone)]
pub struct Message {
    pub role: String,
    pub content: String,
    pub timestamp: i64,
}

/// A message as plain text and a time.
pub struct MessageView {
    pub role: Seq<char>,
    pub content: Seq<char>,
    pub timestamp: i64,
}

impl View for Message {
    type V = MessageView;

    open spec fn view(&self) -> MessageView {
        MessageView { role: self.role@, content: self.content@, timestamp: self.timestamp }
    }
}

/// The views of a sequence of messages.
pub open spec fn message_views(msgs: Seq<Message>) -> Seq<MessageView> {
    msgs.map_values(|m: Message| m@)
}

impl Message {
    /// A message with the given role, content and time.
    pub fn new(role: &str, content: &str, timestamp: i64) -> (r: Message)
        ensures
            r@ == (MessageView { role: role@, content: content@, timestamp }),
    {
        Message { role: role.to_owned(), content: content.to_owned(), timestamp }
    }

    /// A copy of this message.
    pub fn duplicate(&self) -> (r: Message)
        ensures
            r@ == self@,
    {
        Message { role: self.role.clone(), content: self.content.clone(), timestamp: self.timestamp }
    }
}

/// The history that results from adding `m` to `history`: the message goes
/// last, and when the history is already full its oldest message leaves.
pub open spec fn push_bounded(history: Seq<MessageView>, m: MessageView) -> Seq<MessageView> {
    if history.len() >= MAX_CONTEXT_LENGTH {
        history.drop_first().push(m)
    } else {
        history.push(m)
    }
}

/// The history of a fresh context after the messages `msgs` were added in order.
pub open spec fn replay(msgs: Seq<MessageView>) -> Seq<MessageView>
    decreases msgs.len(),
{
    if msgs.len() == 0 {
        Seq::empty()
    } else {
        push_bounded(replay(msgs.drop_last()), msgs.last())
    }
}

/// The last `MAX_CONTEXT_LENGTH` messages of `msgs` (all of them when there are fewer).
pub open spec fn most_recent(msgs: Seq<MessageView>) -> Seq<MessageView> {
    if msgs.len() <= MAX_CONTEXT_LENGTH {
        msgs
    } else {
        msgs.skip(msgs.len() - MAX_CONTEXT_LENGTH)
    }
}

/// A context keeps exactly the most recent messages that were added to it, at
/// most `MAX_CONTEXT_LENGTH` of them, oldest first.
pub proof fn law_context_keeps_most_recent(msgs: Seq<MessageView>)
    ensures
        replay(msgs) == most_recent(msgs),
        replay(msgs).len() <= MAX_CONTEXT_LENGTH,
    decreases msgs.len(),
{
    if msgs.len() > 0 {
        let prev = msgs.drop_last();
        law_context_keeps_most_recent(prev);
        if prev.len() < MAX_CONTEXT_LENGTH {
            assert(prev.push(msgs.last()) =~= msgs);
        } else {
            assert(most_recent(prev).drop_first().push(msgs.last()) =~= most_recent(msgs));
        }
    }
}

/// The recent messages of one conversation.
#[derive(Debug, Clone)]
pub struct ChatContext {
    history: VecDeque<Message>,
}

impl View for ChatContext {
    type V = Seq<MessageView>;

    closed spec fn view(&self) -> Seq<MessageView> {
        message_views(self.history@)
    }
}

/// The time now, in seconds since the Unix epoch.
/// Calls `chrono::Utc::now().timestamp()`. Nothing is claimed of the result:
/// it depends on the clock.
#[verifier::external_body]
fn current_timestamp() -> i64 {
    chrono::Utc::now().timestamp()
}

impl ChatContext {
    /// A context holds no more than `MAX_CONTEXT_LENGTH` messages.
    pub open spec fn wf(&self) -> bool {
        self@.len() <= MAX_CONTEXT_LENGTH
    }

    /// An empty context.
    pub fn new() -> (r: ChatContext)
        ensures
            r.wf(),
            r@ == Seq::<MessageView>::empty(),
    {
        let r = ChatContext { history: VecDeque::with_capacity(MAX_CONTEXT_LENGTH) };
        assert(r@ =~= Seq::<MessageView>::empty());
        r
    }

    /// Adds a message with the given time: it goes last, and the oldest
    /// message leaves when the context is full.
    pub fn add_message_at(&mut self, role: &str, content: &str, timestamp: i64)
        requires
            old(self).wf(),
        ensures
            final(self).wf(),
            final(self)@ == push_bounded(
                old(self)@,
                MessageView { role: role@, content: content@, timestamp },
            ),
    {
        let ghost before = self.history@;
        let message = Message::new(role, content, timestamp);
        if self.history.len() >= MAX_CONTEXT_LENGTH {
            self.history.pop_front();
            assert(message_views(self.history@) =~= message_views(before).drop_first());
        }
        let ghost middle = self.history@;
        self.history.push_back(message);
        assert(message_views(self.history@) =~= message_views(middle).push(message@));
    }

    /// Adds a message stamped with the current time.
    pub fn add_message(&mut self, role: &str, content: &str)
        requires
            old(self).wf(),
        ensures
            final(self).wf(),
            final(self)@ == push_bounded(old(self)@, final(self)@.last()),
            final(self)@.last().role == role@,
            final(self)@.last().content == content@,
    {
        let timestamp = current_timestamp();
        self.add_message_at(role, content, timestamp);
    }

    /// The messages of the context, oldest first.
    pub fn get_history(&self) -> (r: Vec<Message>)
        ensures
            message_views(r@) == self@,
    {
        let n = self.history.len();
        let mut out: Vec<Message> = Vec::new();
        let mut i: usize = 0;
        while i < n
            invariant
                n == self.history@.len(),
                i <= n,
                message_views(out@) == message_views(self.history@).take(i as int),
            decreases n - i,
        {
            let ghost prev = out@;
            let m = self.history[i].duplicate();
            assert(m@ == message_views(self.history@)[i as int]);
            out.push(m);
            assert(message_views(out@) =~= message_views(prev).push(m@));
            assert(message_views(out@) =~= message_views(self.history@).take(i + 1));
            i = i + 1;
        }
        assert(message_views(self.history@).take(n as int) =~= message_views(self.history@));
        out
    }

    /// Forgets every message.
    pub fn clear(&mut self)
        ensures
            final(self).wf(),
            final(self)@ == Seq::<MessageView>::empty(),
    {
        self.history.clear();
        assert(final(self)@ =~= Seq::<MessageView>::empty());
    }

    /// A copy of this context.
    pub fn snapshot(&self) -> (r: ChatContext)
        ensures
            r@ == self@,
    {
        let n = self.history.len();
        let mut copy: VecDeque<Message> = VecDeque::with_capacity(n);
        let mut i: usize = 0;
        while i < n
            invariant
                n == self.history@.len(),
                i <= n,
                message_views(copy@) == message_views(self.history@).take(i as int),
            decreases n - i,
        {
            let ghost prev = copy@;
            let m = self.history[i].duplicate();
            assert(m@ == message_views(self.history@)[i as int]);
            copy.push_back(m);
            assert(message_views(copy@) =~= message_views(prev).push(m@));
            assert(message_views(copy@) =~= message_views(self.history@).take(i + 1));
            i = i + 1;
        }
        assert(message_views(self.history@).take(n as int) =~= message_views(self.history@));
        ChatContext { history: copy }
    }
}


/// No key occurs twice.
pub open spec fn distinct<K>(keys: Seq<K>) -> bool {
    forall|i: int, j: int|
        0 <= i < keys.len() && 0 <= j < keys.len() && i != j ==> #[trigger] keys[i] != #[trigger] keys[j]
}

/// Where `k` stands among `keys`.
pub open spec fn position<K>(keys: Seq<K>, k: K) -> int {
    choose|i: int| 0 <= i < keys.len() && keys[i] == k
}

/// The map from each key to the value at the same place.
pub open spec fn pairs_map<K, V>(keys: Seq<K>, vals: Seq<V>) -> Map<K, V> {
    Map::new(|k: K| keys.contains(k), |k: K| vals[position(keys, k)])
}

/// With distinct keys, the place of a key is the one place that holds it.
pub proof fn lemma_position_unique<K>(keys: Seq<K>, k: K, i: int)
    requires
        distinct(keys),
        0 <= i < keys.len(),
        keys[i] == k,
    ensures
        position(keys, k) == i,
{
    let p = position(keys, k);
    assert(0 <= p < keys.len() && keys[p] == k);
    if p != i {
        assert(keys[p] != keys[i]);
    }
}

/// Changing the value at one place changes the map at that place's key only.
pub proof fn lemma_pairs_map_update<K, V>(keys: Seq<K>, vals: Seq<V>, i: int, v: V)
    requires
        distinct(keys),
        keys.len() == vals.len(),
        0 <= i < keys.len(),
    ensures
        pairs_map(keys, vals.update(i, v)) =~= pairs_map(keys, vals).insert(keys[i], v),
{
    assert forall|k: K| #[trigger] keys.contains(k) implies pairs_map(keys, vals.update(i, v))[k]
        == pairs_map(keys, vals).insert(keys[i], v)[k] by {
        let j = choose|j: int| 0 <= j < keys.len() && keys[j] == k;
        lemma_position_unique(keys, k, j);
        if k == keys[i] {
            lemma_position_unique(keys, k, i);
        }
    }
    assert(keys.contains(keys[i]));
}

/// Adding a fresh key at the end adds it to the map and keeps the rest.
pub proof fn lemma_pairs_map_push<K, V>(keys: Seq<K>, vals: Seq<V>, k: K, v: V)
    requires
        distinct(keys),
        keys.len() == vals.len(),
        !keys.contains(k),
    ensures
        distinct(keys.push(k)),
        pairs_map(keys.push(k), vals.push(v)) =~= pairs_map(keys, vals).insert(k, v),
{
    let nk = keys.push(k);
    assert forall|i: int, j: int|
        0 <= i < nk.len() && 0 <= j < nk.len() && i != j implies #[trigger] nk[i] != #[trigger] nk[j] by {
        if i < keys.len() && j < keys.len() {
            assert(keys[i] != keys[j]);
        } else if i < keys.len() {
            assert(keys.contains(keys[i]));
        } else if j < keys.len() {
            assert(keys.contains(keys[j]));
        }
    }
    assert(nk[keys.len() as int] == k);
    assert(nk.contains(k));
    assert forall|x: K| #[trigger] nk.contains(x) <==> keys.contains(x) || x == k by {
        if keys.contains(x) {
            let j = choose|j: int| 0 <= j < keys.len() && keys[j] == x;
            assert(nk[j] == x);
        }
        if nk.contains(x) && x != k {
            let j = choose|j: int| 0 <= j < nk.len() && nk[j] == x;
            assert(j < keys.len());
            assert(keys[j] == x);
        }
    }
    assert forall|x: K| #[trigger] nk.contains(x) implies pairs_map(nk, vals.push(v))[x]
        == pairs_map(keys, vals).insert(k, v)[x] by {
        if x == k {
            lemma_position_unique(nk, x, keys.len() as int);
        } else {
            let j = choose|j: int| 0 <= j < keys.len() && keys[j] == x;
            lemma_position_unique(keys, x, j);
            assert(nk[j] == x);
            lemma_position_unique(nk, x, j);
        }
    }
}

/// One conversation: its id and its context.
#[derive(Debug)]
struct Conversation {
    id: String,
    context: ChatContext,
}

/// The contexts of all conversations, each found by its id. A manager is
/// not cloned: callers that share one hold it behind a lock.
pub struct ChatManager {
    conversations: Vec<Conversation>,
    log: Ghost<Seq<StoreOp>>,
}

/// `get_or_create_context` on the conversations `m`: an unknown id gets an empty history.
pub open spec fn created(m: Map<Seq<char>, Seq<MessageView>>, id: Seq<char>) -> Map<
    Seq<char>,
    Seq<MessageView>,
> {
    if m.contains_key(id) {
        m
    } else {
        m.insert(id, Seq::empty())
    }
}

/// `update_context` on the conversations `m`: a known id gets the message; an
/// unknown id changes nothing.
pub open spec fn updated(
    m: Map<Seq<char>, Seq<MessageView>>,
    id: Seq<char>,
    msg: MessageView,
) -> Map<Seq<char>, Seq<MessageView>> {
    if m.contains_key(id) {
        m.insert(id, push_bounded(m[id], msg))
    } else {
        m
    }
}

/// `clear_context` on the conversations `m`: a known id loses its messages; an
/// unknown id changes nothing.
pub open spec fn cleared(m: Map<Seq<char>, Seq<MessageView>>, id: Seq<char>) -> Map<
    Seq<char>,
    Seq<MessageView>,
> {
    if m.contains_key(id) {
        m.insert(id, Seq::empty())
    } else {
        m
    }
}

/// Every history in `m` is within the length a context keeps.
pub open spec fn all_bounded(m: Map<Seq<char>, Seq<MessageView>>) -> bool {
    forall|k: Seq<char>| #[trigger] m.contains_key(k) ==> m[k].len() <= MAX_CONTEXT_LENGTH
}

impl View for ChatManager {
    type V = Map<Seq<char>, Seq<MessageView>>;

    closed spec fn view(&self) -> Map<Seq<char>, Seq<MessageView>> {
        pairs_map(self.ids(), self.histories())
    }
}

impl ChatManager {
    closed spec fn ids(&self) -> Seq<Seq<char>> {
        self.conversations@.map_values(|c: Conversation| c.id@)
    }

    closed spec fn histories(&self) -> Seq<Seq<MessageView>> {
        self.conversations@.map_values(|c: Conversation| c.context@)
    }

    /// Ids are distinct and every context is well formed.
    /// The calls that changed this manager since `new`, in order.
    pub closed spec fn calls(&self) -> Seq<StoreOp> {
        self.log@
    }

    /// Ids are distinct, every context is well formed, and the conversations
    /// are what the calls so far made of an empty store.
    pub closed spec fn wf(&self) -> bool {
        &&& self@ == run_ops(self.log@)
        &&& distinct(self.ids())
        &&& forall|i: int|
            0 <= i < self.conversations@.len() ==> (#[trigger] self.conversations@[i]).context.wf()
    }

    /// No conversation of a well-formed manager holds more than
    /// `MAX_CONTEXT_LENGTH` messages.
    pub proof fn law_manager_histories_bounded(&self)
        requires
            self.wf(),
        ensures
            all_bounded(self@),
    {
        assert forall|k: Seq<char>| #[trigger] self@.contains_key(k) implies self@[k].len()
            <= MAX_CONTEXT_LENGTH by {
            let j = choose|j: int| 0 <= j < self.ids().len() && self.ids()[j] == k;
            lemma_position_unique(self.ids(), k, j);
            assert(self.conversations@[j].context.wf());
        }
    }

    /// No conversations yet.
    pub fn new() -> (r: ChatManager)
        ensures
            r.wf(),
            r@ == Map::<Seq<char>, Seq<MessageView>>::empty(),
            r.calls() == Seq::<StoreOp>::empty(),
    {
        let r = ChatManager { conversations: Vec::new(), log: Ghost(Seq::empty()) };
        assert(r@ =~= Map::<Seq<char>, Seq<MessageView>>::empty());
        assert(run_ops(Seq::<StoreOp>::empty()) =~= Map::<Seq<char>, Seq<MessageView>>::empty());
        r
    }

    /// The place of the conversation `id`, if there is one.
    fn find(&self, id: &str) -> (r: Option<usize>)
        ensures
            match r {
                Some(i) => i < self.conversations@.len() && self.ids()[i as int] == id@,
                None => !self.ids().contains(id@),
            },
    {
        let n = self.conversations.len();
        let mut i: usize = 0;
        while i < n
            invariant
                n == self.conversations@.len(),
                i <= n,
                forall|j: int| 0 <= j < i ==> self.ids()[j] != id@,
            decreases n - i,
        {
            if same_text(self.conversations[i].id.as_str(), id) {
                return Some(i);
            }
            i = i + 1;
        }
        None
    }

    /// The context of conversation `id`, made empty first if the id is new.
    pub fn get_or_create_context(&mut self, conversation_id: &str) -> (r: ChatContext)
        requires
            old(self).wf(),
        ensures
            final(self).wf(),
            final(self)@ == created(old(self)@, conversation_id@),
            final(self).calls() == old(self).calls().push(StoreOp::Create(conversation_id@)),
            r@ == final(self)@[conversation_id@],
            r.wf(),
    {
        let ghost op = StoreOp::Create(conversation_id@);
        proof {
            assert(self.log@.push(op).drop_last() =~= self.log@);
        }
        match self.find(conversation_id) {
            Some(i) => {
                proof {
                    lemma_position_unique(self.ids(), conversation_id@, i as int);
                    assert(self.ids().contains(conversation_id@));
                    assert(self.conversations@[i as int].context.wf());
                }
                self.log = Ghost(self.log@.push(op));
                self.conversations[i].context.snapshot()
            },
            None => {
                let ghost old_ids = self.ids();
                let ghost old_histories = self.histories();
                let fresh = ChatContext::new();
                self.conversations.push(
                    Conversation { id: conversation_id.to_owned(), context: ChatContext::new() },
                );
                self.log = Ghost(self.log@.push(op));
                proof {
                    assert(self.ids() =~= old_ids.push(conversation_id@));
                    assert(self.histories() =~= old_histories.push(Seq::<MessageView>::empty()));
                    lemma_pairs_map_push(
                        old_ids,
                        old_histories,
                        conversation_id@,
                        Seq::<MessageView>::empty(),
                    );
                    assert forall|j: int| 0 <= j < self.conversations@.len() implies (
                    #[trigger] self.conversations@[j]).context.wf() by {
                        if j < old_ids.len() {
                            assert(self.conversations@[j] == old(self).conversations@[j]);
                        }
                    }
                }
                fresh
            },
        }
    }

    /// Adds a message with the given time to conversation `id`; an unknown id
    /// is left alone.
    pub fn update_context_at(
        &mut self,
        conversation_id: &str,
        role: &str,
        content: &str,
        timestamp: i64,
    )
        requires
            old(self).wf(),
        ensures
            final(self).wf(),
            final(self)@ == updated(
                old(self)@,
                conversation_id@,
                MessageView { role: role@, content: content@, timestamp },
            ),
            final(self).calls() == old(self).calls().push(
                StoreOp::Update(
                    conversation_id@,
                    MessageView { role: role@, content: content@, timestamp },
                ),
            ),
    {
        let ghost op = StoreOp::Update(
            conversation_id@,
            MessageView { role: role@, content: content@, timestamp },
        );
        proof {
            assert(self.log@.push(op).drop_last() =~= self.log@);
        }
        self.log = Ghost(self.log@.push(op));
        match self.find(conversation_id) {
            Some(i) => {
                let ghost old_ids = self.ids();
                let ghost old_histories = self.histories();
                proof {
                    lemma_position_unique(self.ids(), conversation_id@, i as int);
                    assert(self.ids().contains(conversation_id@));
                    assert(self.conversations@[i as int].context.wf());
                }
                self.conversations[i].context.add_message_at(role, content, timestamp);
                proof {
                    let msg = MessageView { role: role@, content: content@, timestamp };
                    assert(self.ids() =~= old_ids);
                    assert(self.histories() =~= old_histories.update(
                        i as int,
                        push_bounded(old_histories[i as int], msg),
                    ));
                    lemma_pairs_map_update(
                        old_ids,
                        old_histories,
                        i as int,
                        push_bounded(old_histories[i as int], msg),
                    );
                    assert forall|j: int| 0 <= j < self.conversations@.len() implies (
                    #[trigger] self.conversations@[j]).context.wf() by {
                        if j != i {
                            assert(self.conversations@[j] == old(self).conversations@[j]);
                        }
                    }
                }
            },
            None => {},
        }
    }

    /// Adds a message stamped with the current time to conversation `id`; an
    /// unknown id is left alone.
    pub fn update_context(&mut self, conversation_id: &str, role: &str, content: &str)
        requires
            old(self).wf(),
        ensures
            final(self).wf(),
            old(self)@.contains_key(conversation_id@) ==> {
                let last = final(self)@[conversation_id@].last();
                &&& final(self)@ == updated(old(self)@, conversation_id@, last)
                &&& last.role == role@
                &&& last.content == content@
            },
            !old(self)@.contains_key(conversation_id@) ==> final(self)@ == old(self)@,
            final(self).calls() == old(self).calls().push(final(self).calls().last()),
            final(self).calls().last() matches StoreOp::Update(k, msg) && k == conversation_id@
                && msg.role == role@ && msg.content == content@,
    {
        let timestamp = current_timestamp();
        self.update_context_at(conversation_id, role, content, timestamp);
    }

    /// Forgets the messages of conversation `id`; an unknown id is left alone.
    pub fn clear_context(&mut self, conversation_id: &str)
        requires
            old(self).wf(),
        ensures
            final(self).wf(),
            final(self)@ == cleared(old(self)@, conversation_id@),
            final(self).calls() == old(self).calls().push(StoreOp::Clear(conversation_id@)),
    {
        let ghost op = StoreOp::Clear(conversation_id@);
        proof {
            assert(self.log@.push(op).drop_last() =~= self.log@);
        }
        self.log = Ghost(self.log@.push(op));
        match self.find(conversation_id) {
            Some(i) => {
                let ghost old_ids = self.ids();
                let ghost old_histories = self.histories();
                proof {
                    lemma_position_unique(self.ids(), conversation_id@, i as int);
                    assert(self.ids().contains(conversation_id@));
                }
                self.conversations[i].context.clear();
                proof {
                    assert(self.ids() =~= old_ids);
                    assert(self.histories() =~= old_histories.update(
                        i as int,
                        Seq::<MessageView>::empty(),
                    ));
                    lemma_pairs_map_update(
                        old_ids,
                        old_histories,
                        i as int,
                        Seq::<MessageView>::empty(),
                    );
                    assert forall|j: int| 0 <= j < self.conversations@.len() implies (
                    #[trigger] self.conversations@[j]).context.wf() by {
                        if j != i {
                            assert(self.conversations@[j] == old(self).conversations@[j]);
                        }
                    }
                }
            },
            None => {},
        }
    }

    /// The messages of conversation `id`, oldest first; `None` for an unknown id.
    pub fn get_conversation_history(&self, conversation_id: &str) -> (r: Option<Vec<Message>>)
        requires
            self.wf(),
        ensures
            match r {
                Some(v) => self@.contains_key(conversation_id@) && message_views(v@)
                    == self@[conversation_id@],
                None => !self@.contains_key(conversation_id@),
            },
            r is None <==> !was_created(self.calls(), conversation_id@),
    {
        proof {
            law_known_exactly_when_created(self.calls(), conversation_id@);
        }
        match self.find(conversation_id) {
            Some(i) => {
                proof {
                    lemma_position_unique(self.ids(), conversation_id@, i as int);
                    assert(self.ids().contains(conversation_id@));
                }
                Some(self.conversations[i].context.get_history())
            },
            None => None,
        }
    }
}

/// Adding a message to a history within bounds keeps it within bounds and puts
/// the message last.
pub proof fn law_push_bounded(history: Seq<MessageView>, m: MessageView)
    requires
        history.len() <= MAX_CONTEXT_LENGTH,
    ensures
        push_bounded(history, m).len() <= MAX_CONTEXT_LENGTH,
        push_bounded(history, m).len() > 0,
        push_bounded(history, m).last() == m,
{
}

/// Every operation of the manager keeps every history within
/// `MAX_CONTEXT_LENGTH` messages.
pub proof fn law_histories_stay_bounded(
    m: Map<Seq<char>, Seq<MessageView>>,
    id: Seq<char>,
    msg: MessageView,
)
    requires
        all_bounded(m),
    ensures
        all_bounded(created(m, id)),
        all_bounded(updated(m, id, msg)),
        all_bounded(cleared(m, id)),
{
    if m.contains_key(id) {
        law_push_bounded(m[id], msg);
    }
}

/// A message added to a known conversation is read back as its newest
/// message, after the messages it already had; no other conversation changes.
pub proof fn law_update_then_read(
    m: Map<Seq<char>, Seq<MessageView>>,
    id: Seq<char>,
    msg: MessageView,
    other: Seq<char>,
)
    requires
        all_bounded(m),
        m.contains_key(id),
        other != id,
    ensures
        updated(m, id, msg).contains_key(id),
        updated(m, id, msg)[id] == push_bounded(m[id], msg),
        updated(m, id, msg)[id].last() == msg,
        updated(m, id, msg).contains_key(other) == m.contains_key(other),
        m.contains_key(other) ==> updated(m, id, msg)[other] == m[other],
{
    law_push_bounded(m[id], msg);
}

/// A message sent to a conversation that was never created is dropped.
pub proof fn law_update_unknown_is_dropped(
    m: Map<Seq<char>, Seq<MessageView>>,
    id: Seq<char>,
    msg: MessageView,
)
    requires
        !m.contains_key(id),
    ensures
        updated(m, id, msg) == m,
{
}

/// Creating a conversation twice is the same as creating it once, and a new
/// conversation starts empty while a known one keeps its messages.
pub proof fn law_create_is_idempotent(m: Map<Seq<char>, Seq<MessageView>>, id: Seq<char>)
    ensures
        created(created(m, id), id) == created(m, id),
        created(m, id).contains_key(id),
        m.contains_key(id) ==> created(m, id)[id] == m[id],
        !m.contains_key(id) ==> created(m, id)[id] == Seq::<MessageView>::empty(),
{
}

/// Once a conversation has been created, a message added to it is kept.
pub proof fn law_create_then_update(
    m: Map<Seq<char>, Seq<MessageView>>,
    id: Seq<char>,
    msg: MessageView,
)
    requires
        all_bounded(m),
    ensures
        updated(created(m, id), id, msg)[id].last() == msg,
{
    law_histories_stay_bounded(m, id, msg);
    law_push_bounded(created(m, id)[id], msg);
}

/// Clearing a known conversation leaves it known and empty; clearing an
/// unknown one changes nothing.
pub proof fn law_clear_then_read(m: Map<Seq<char>, Seq<MessageView>>, id: Seq<char>)
    ensures
        m.contains_key(id) ==> cleared(m, id).contains_key(id) && cleared(m, id)[id]
            == Seq::<MessageView>::empty(),
        !m.contains_key(id) ==> cleared(m, id) == m,
{
}

/// One call that changes the conversation store.
pub enum StoreOp {
    /// `get_or_create_context` for an id.
    Create(Seq<char>),
    /// `update_context` for an id, with the message it added.
    Update(Seq<char>, MessageView),
    /// `clear_context` for an id.
    Clear(Seq<char>),
}

/// The store after one call.
pub open spec fn apply_op(m: Map<Seq<char>, Seq<MessageView>>, op: StoreOp) -> Map<
    Seq<char>,
    Seq<MessageView>,
> {
    match op {
        StoreOp::Create(id) => created(m, id),
        StoreOp::Update(id, msg) => updated(m, id, msg),
        StoreOp::Clear(id) => cleared(m, id),
    }
}

/// The store of a fresh manager after the calls `ops`, in order.
pub open spec fn run_ops(ops: Seq<StoreOp>) -> Map<Seq<char>, Seq<MessageView>>
    decreases ops.len(),
{
    if ops.len() == 0 {
        Map::empty()
    } else {
        apply_op(run_ops(ops.drop_last()), ops.last())
    }
}

/// Whether `get_or_create_context` was called for `id` among `ops`.
pub open spec fn was_created(ops: Seq<StoreOp>, id: Seq<char>) -> bool {
    exists|i: int| 0 <= i < ops.len() && #[trigger] ops[i] == StoreOp::Create(id)
}

/// Starting from `ChatManager::new`, a conversation is known (and
/// `get_conversation_history` gives `Some` of its messages) exactly when
/// `get_or_create_context` was called for its id; updates and clears never
/// add a conversation, and every history stays within `MAX_CONTEXT_LENGTH`.
pub proof fn law_known_exactly_when_created(ops: Seq<StoreOp>, id: Seq<char>)
    ensures
        run_ops(ops).contains_key(id) <==> was_created(ops, id),
        all_bounded(run_ops(ops)),
    decreases ops.len(),
{
    if ops.len() > 0 {
        let prev = ops.drop_last();
        law_known_exactly_when_created(prev, id);
        let last = ops.last();
        let unused = MessageView { role: Seq::empty(), content: Seq::empty(), timestamp: 0 };
        match last {
            StoreOp::Create(k) => law_histories_stay_bounded(run_ops(prev), k, unused),
            StoreOp::Update(k, msg) => law_histories_stay_bounded(run_ops(prev), k, msg),
            StoreOp::Clear(k) => law_histories_stay_bounded(run_ops(prev), k, unused),
        }
        if was_created(prev, id) {
            let i = choose|i: int| 0 <= i < prev.len() && #[trigger] prev[i] == StoreOp::Create(id);
            assert(ops[i] == prev[i]);
        }
        if was_created(ops, id) && !was_created(prev, id) {
            let i = choose|i: int| 0 <= i < ops.len() && #[trigger] ops[i] == StoreOp::Create(id);
            if i < prev.len() {
                assert(prev[i] == ops[i]);
            }
            assert(i == ops.len() - 1);
        }
        if last == StoreOp::Create(id) {
            assert(ops[ops.len() - 1] == StoreOp::Create(id));
        }
    } else {
        assert(run_ops(ops) =~= Map::<Seq<char>, Seq<MessageView>>::empty());
    }
}

/// Starting or resuming conversation `id` gives `id` its history (the one it
/// had, or an empty one for a new id) and leaves every other conversation,
/// known or not, exactly as it was.
pub proof fn law_create_keeps_others(
    m: Map<Seq<char>, Seq<MessageView>>,
    id: Seq<char>,
    other: Seq<char>,
)
    requires
        other != id,
    ensures
        created(m, id).contains_key(id),
        m.contains_key(id) ==> created(m, id)[id] == m[id],
        !m.contains_key(id) ==> created(m, id)[id] == Seq::<MessageView>::empty(),
        created(m, id).contains_key(other) == m.contains_key(other),
        m.contains_key(other) ==> created(m, id)[other] == m[other],
        created(m, id).dom() == m.dom().insert(id),
{
    assert(created(m, id).dom() =~= m.dom().insert(id));
}

/// Clearing conversation `id` empties that conversation only: every other
/// conversation keeps whether it is known and all of its messages.
pub proof fn law_clear_keeps_others(
    m: Map<Seq<char>, Seq<MessageView>>,
    id: Seq<char>,
    other: Seq<char>,
)
    requires
        other != id,
    ensures
        cleared(m, id).contains_key(other) == m.contains_key(other),
        m.contains_key(other) ==> cleared(m, id)[other] == m[other],
        cleared(m, id).dom() == m.dom(),
{
    assert(cleared(m, id).dom() =~= m.dom());
}

} // verus!
