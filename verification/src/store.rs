//! The in-memory cursor store's state: received messages by cursor and the
//! cursors confirmed so far, in the order they were first confirmed.

use vstd::prelude::*;

use crate::types::{Message, MessageCursor, UserRef};

verus! {

/// `a` and `b` hold the same message (fields compared by value).
pub open spec fn same_message(a: Message, b: Message) -> bool {
    &&& a.recipient == b.recipient
    &&& a.node_id == b.node_id
    &&& a.seq == b.seq
    &&& a.sender == b.sender
    &&& a.body@ == b.body@
    &&& a.created_at_hlc@ == b.created_at_hlc@
}

/// The cursor of a message.
pub open spec fn cursor_of(m: Message) -> MessageCursor {
    MessageCursor { node_id: m.node_id, seq: m.seq }
}

/// A copy of a message.
pub fn copy_message(m: &Message) -> (r: Message)
    ensures
        same_message(r, *m),
{
    let body = m.body.clone();
    assert(body@ =~= m.body@);
    Message {
        recipient: UserRef { node_id: m.recipient.node_id, user_id: m.recipient.user_id },
        node_id: m.node_id,
        seq: m.seq,
        sender: UserRef { node_id: m.sender.node_id, user_id: m.sender.user_id },
        body,
        created_at_hlc: m.created_at_hlc.clone(),
    }
}

/// The placeholder stored for a cursor confirmed without its message: empty
/// body and time, default users.
pub open spec fn placeholder_for(c: MessageCursor, m: Message) -> bool {
    &&& m.recipient == UserRef { node_id: 0, user_id: 0 }
    &&& m.sender == UserRef { node_id: 0, user_id: 0 }
    &&& m.node_id == c.node_id
    &&& m.seq == c.seq
    &&& m.body@.len() == 0
    &&& m.created_at_hlc@.len() == 0
}

/// State of the in-memory cursor store.
pub struct MemoryCursorState {
    messages: Vec<Message>,
    order: Vec<MessageCursor>,
}

impl MemoryCursorState {
    /// The stored messages (each under its own cursor, no cursor twice).
    pub closed spec fn spec_messages(&self) -> Seq<Message> {
        self.messages@
    }

    /// The confirmed cursors in first-confirmation order.
    pub closed spec fn spec_seen(&self) -> Seq<MessageCursor> {
        self.order@
    }

    /// Whether a message is stored under `c`.
    pub open spec fn stores(&self, c: MessageCursor) -> bool {
        exists|i: int| 0 <= i < self.spec_messages().len() && cursor_of(self.spec_messages()[i]) == c
    }

    /// The store's invariant: no cursor twice, among the messages nor among the seen cursors.
    pub closed spec fn wf(&self) -> bool {
        &&& forall|i: int, j: int|
            0 <= i < j < self.messages.len() ==> cursor_of(#[trigger] self.messages@[i])
                != cursor_of(#[trigger] self.messages@[j])
        &&& self.order@.no_duplicates()
    }

    /// An empty store.
    pub fn new() -> (r: Self)
        ensures
            r.wf(),
            r.spec_messages().len() == 0,
            r.spec_seen().len() == 0,
    {
        MemoryCursorState { messages: Vec::new(), order: Vec::new() }
    }

    fn find(&self, c: &MessageCursor) -> (r: Option<usize>)
        requires
            self.wf(),
        ensures
            r is None <==> !self.stores(*c),
            r matches Some(i) ==> i < self.spec_messages().len() && cursor_of(
                self.spec_messages()[i as int],
            ) == *c,
    {
        let mut i: usize = 0;
        while i < self.messages.len()
            invariant
                i <= self.messages.len(),
                forall|j: int| 0 <= j < i ==> cursor_of(#[trigger] self.messages@[j]) != *c,
            decreases self.messages.len() - i,
        {
            let m = &self.messages[i];
            if m.node_id == c.node_id && m.seq == c.seq {
                proof {
                    assert(cursor_of(self.spec_messages()[i as int]) == *c);
                }
                return Some(i);
            }
            i = i + 1;
        }
        None
    }

    /// The confirmed cursors, in the order they were first confirmed, each once.
    pub fn load_seen_messages(&self) -> (r: Vec<MessageCursor>)
        requires
            self.wf(),
        ensures
            r@ == self.spec_seen(),
            r@.no_duplicates(),
    {
        let mut out: Vec<MessageCursor> = Vec::new();
        let mut i: usize = 0;
        while i < self.order.len()
            invariant
                i <= self.order.len(),
                out@ == self.order@.take(i as int),
            decreases self.order.len() - i,
        {
            let c = &self.order[i];
            out.push(MessageCursor { node_id: c.node_id, seq: c.seq });
            assert(out@ =~= self.order@.take(i + 1));
            i = i + 1;
        }
        assert(self.order@.take(self.order.len() as int) =~= self.order@);
        out
    }

    /// Stores `message` under its cursor, replacing what was stored there; the
    /// seen cursors do not change.
    pub fn save_message(&mut self, message: Message)
        requires
            old(self).wf(),
        ensures
            final(self).wf(),
            final(self).spec_seen() == old(self).spec_seen(),
            final(self).stores(cursor_of(message)),
            forall|i: int|
                0 <= i < final(self).spec_messages().len() && cursor_of(
                    #[trigger] final(self).spec_messages()[i],
                ) == cursor_of(message) ==> same_message(final(self).spec_messages()[i], message),
            forall|c: MessageCursor| c != cursor_of(message) ==> (old(self).stores(c) <==> final(self).stores(c)),
            forall|i: int|
                0 <= i < old(self).spec_messages().len() && cursor_of(
                    #[trigger] old(self).spec_messages()[i],
                ) != cursor_of(message) ==> exists|j: int|
                    0 <= j < final(self).spec_messages().len() && final(self).spec_messages()[j]
                        == old(self).spec_messages()[i],
    {
        let c = message.cursor();
        match self.find(&c) {
            Some(i) => {
                let ghost before = self.messages@;
                self.messages.set(i, message);
                proof {
                    assert forall|c2: MessageCursor| c2 != cursor_of(message) implies (old(self).stores(c2)
                        <==> self.stores(c2)) by {
                        if old(self).stores(c2) {
                            let k = choose|k: int| 0 <= k < before.len() && cursor_of(before[k]) == c2;
                            assert(self.messages@[k] == before[k]);
                        }
                        if self.stores(c2) {
                            let k = choose|k: int|
                                0 <= k < self.messages@.len() && cursor_of(self.messages@[k]) == c2;
                            assert(before[k] == self.messages@[k]);
                        }
                    }
                    assert forall|a: int|
                        0 <= a < before.len() && cursor_of(#[trigger] before[a]) != cursor_of(message) implies exists|j: int|
                            0 <= j < self.messages@.len() && self.messages@[j] == before[a] by {
                        assert(self.messages@[a] == before[a]);
                    }
                    assert(self.messages@[i as int] == message);
                }
            },
            None => {
                let ghost before = self.messages@;
                self.messages.push(message);
                proof {
                    assert(self.messages@[before.len() as int] == message);
                    assert forall|c2: MessageCursor| c2 != cursor_of(message) implies (old(self).stores(c2)
                        <==> self.stores(c2)) by {
                        if old(self).stores(c2) {
                            let k = choose|k: int| 0 <= k < before.len() && cursor_of(before[k]) == c2;
                            assert(self.messages@[k] == before[k]);
                        }
                        if self.stores(c2) {
                            let k = choose|k: int|
                                0 <= k < self.messages@.len() && cursor_of(self.messages@[k]) == c2;
                            assert(k < before.len());
                            assert(before[k] == self.messages@[k]);
                        }
                    }
                    assert forall|a: int|
                        0 <= a < before.len() && cursor_of(#[trigger] before[a]) != cursor_of(message) implies exists|j: int|
                            0 <= j < self.messages@.len() && self.messages@[j] == before[a] by {
                        assert(self.messages@[a] == before[a]);
                    }
                }
            },
        }
    }

    /// Confirms `cursor`: stores a placeholder message when none is stored under
    /// it, and appends it to the seen cursors unless it is there already.
    pub fn save_cursor(&mut self, cursor: MessageCursor)
        requires
            old(self).wf(),
        ensures
            final(self).wf(),
            final(self).stores(cursor),
            final(self).spec_seen() == if old(self).spec_seen().contains(cursor) {
                old(self).spec_seen()
            } else {
                old(self).spec_seen().push(cursor)
            },
            old(self).stores(cursor) ==> final(self).spec_messages() == old(self).spec_messages(),
            !old(self).stores(cursor) ==> final(self).spec_messages().len() == old(self).spec_messages().len() + 1
                && final(self).spec_messages().take(old(self).spec_messages().len() as int) == old(self).spec_messages()
                && placeholder_for(cursor, final(self).spec_messages().last()),
    {
        match self.find(&cursor) {
            Some(_) => {},
            None => {
                let placeholder = Message {
                    recipient: UserRef { node_id: 0, user_id: 0 },
                    node_id: cursor.node_id,
                    seq: cursor.seq,
                    sender: UserRef { node_id: 0, user_id: 0 },
                    body: Vec::new(),
                    created_at_hlc: String::new(),
                };
                let ghost before = self.messages@;
                self.messages.push(placeholder);
                proof {
                    assert(self.messages@.last() == placeholder);
                    assert(self.messages@.take(before.len() as int) =~= before);
                    assert(cursor_of(self.messages@[before.len() as int]) == cursor);
                    assert(cursor_of(self.spec_messages()[before.len() as int]) == cursor);
                    assert(self.stores(cursor));
                    assert forall|a: int, b: int|
                        0 <= a < b < self.messages.len() implies cursor_of(#[trigger] self.messages@[a])
                            != cursor_of(#[trigger] self.messages@[b]) by {
                        if b == before.len() {
                            assert(self.messages@[a] == before[a]);
                            if cursor_of(before[a]) == cursor {
                                assert(cursor_of(old(self).spec_messages()[a]) == cursor);
                                assert(old(self).stores(cursor));
                            }
                        } else {
                            assert(self.messages@[a] == before[a]);
                            assert(self.messages@[b] == before[b]);
                        }
                    }
                }
            },
        }
        assert(self.stores(cursor));
        let ghost w = choose|i: int|
            0 <= i < self.spec_messages().len() && cursor_of(self.spec_messages()[i]) == cursor;
        let found = self.seen_contains(&cursor);
        if !found {
            let ghost before = self.order@;
            let ghost msgs = self.messages@;
            self.order.push(MessageCursor { node_id: cursor.node_id, seq: cursor.seq });
            proof {
                assert forall|a: int, b: int|
                    0 <= a < self.order@.len() && 0 <= b < self.order@.len() && a != b implies self.order@[a]
                        != self.order@[b] by {
                    if a < before.len() && b < before.len() {
                        assert(before[a] != before[b]);
                    } else if a == before.len() {
                        assert(before[b] != cursor);
                    } else {
                        assert(before[a] != cursor);
                    }
                }
                assert(self.messages@ == msgs);
                assert(cursor_of(self.spec_messages()[w]) == cursor);
            }
        }
    }

    fn seen_contains(&self, cursor: &MessageCursor) -> (r: bool)
        ensures
            r == self.spec_seen().contains(*cursor),
    {
        let mut i: usize = 0;
        while i < self.order.len()
            invariant
                i <= self.order.len(),
                forall|j: int| 0 <= j < i ==> self.order@[j] != *cursor,
            decreases self.order.len() - i,
        {
            let c = &self.order[i];
            if c.node_id == cursor.node_id && c.seq == cursor.seq {
                proof {
                    assert(self.order@[i as int] == *cursor);
                }
                return true;
            }
            i = i + 1;
        }
        false
    }

    /// Whether a message is stored under `cursor`.
    pub fn has_cursor(&self, cursor: &MessageCursor) -> (r: bool)
        requires
            self.wf(),
        ensures
            r == self.stores(*cursor),
    {
        self.find(cursor).is_some()
    }

    /// The message stored under `cursor`, if any.
    pub fn message(&self, cursor: &MessageCursor) -> (r: Option<Message>)
        requires
            self.wf(),
        ensures
            r is None <==> !self.stores(*cursor),
            r matches Some(m) ==> exists|i: int|
                0 <= i < self.spec_messages().len() && cursor_of(self.spec_messages()[i]) == *cursor
                    && same_message(m, self.spec_messages()[i]),
    {
        match self.find(cursor) {
            Some(i) => Some(copy_message(&self.messages[i])),
            None => None,
        }
    }
}

/// Cursor store: a confirmed cursor is reported once by `load_seen_messages`,
/// at the place of its first confirmation, and stays stored; confirming it
/// again changes nothing in the seen list.
pub proof fn law_seen_cursors_once(before: Seq<MessageCursor>, c: MessageCursor, after: Seq<MessageCursor>)
    requires
        before.no_duplicates(),
        after == if before.contains(c) { before } else { before.push(c) },
    ensures
        after.no_duplicates(),
        after.contains(c),
        after.take(before.len() as int) == before,
        (if after.contains(c) { after } else { after.push(c) }) == after,
{
    if !before.contains(c) {
        assert(after[before.len() as int] == c);
        assert(after.take(before.len() as int) =~= before);
        assert forall|a: int, b: int| 0 <= a < after.len() && 0 <= b < after.len() && a != b implies after[a]
            != after[b] by {
            if a < before.len() && b < before.len() {
                assert(before[a] != before[b]);
            } else if a == before.len() {
                assert(before[b] != c);
            } else {
                assert(before[a] != c);
            }
        }
    } else {
        assert(after.take(before.len() as int) =~= before);
    }
}

/// What a read gives back of a write: once `save_message(m)` has run, every
/// entry stored under `m`'s cursor holds `m`'s fields, so what `message` then
/// returns for that cursor is a copy of `m`.
pub proof fn law_read_after_write(messages: Seq<Message>, m: Message, r: Message)
    requires
        forall|i: int|
            0 <= i < messages.len() && cursor_of(#[trigger] messages[i]) == cursor_of(m) ==> same_message(
                messages[i],
                m,
            ),
        exists|i: int|
            0 <= i < messages.len() && cursor_of(messages[i]) == cursor_of(m) && same_message(r, messages[i]),
    ensures
        same_message(r, m),
{
    let i = choose|i: int|
        0 <= i < messages.len() && cursor_of(messages[i]) == cursor_of(m) && same_message(r, messages[i]);
    assert(same_message(messages[i], m));
}

/// A message's cursor is its node and sequence number; "the same message"
/// compares every field and holds of any message with itself.
pub proof fn law_message_identity(a: Message, b: Message)
    ensures
        cursor_of(a).node_id == a.node_id,
        cursor_of(a).seq == a.seq,
        same_message(a, a),
        same_message(a, b) ==> a.recipient == b.recipient && a.node_id == b.node_id && a.seq == b.seq
            && a.sender == b.sender && a.body@ == b.body@ && a.created_at_hlc@ == b.created_at_hlc@,
        same_message(a, b) ==> cursor_of(a) == cursor_of(b),
{
}

} // verus!
