//! How a request is framed, and what is sent when it ends.

use vstd::prelude::*;
use crate::packet::{flush_packet, strip_newline, text_packet, MAX_DATA_LEN};

verus! {

/// How the bytes of one write call are framed.
#[derive(PartialEq, Eq, Debug, Hash, Ord, PartialOrd, Clone, Copy, Structural)]
pub enum WriteMode {
    /// The bytes go out untouched, as data packets.
    Binary,
    /// Each write call is one line, sent as one packet with a line feed at its end.
    OneLFTerminatedLinePerWriteCall,
}

impl Default for WriteMode {
    fn default() -> (mode: Self)
        ensures
            mode == WriteMode::OneLFTerminatedLinePerWriteCall,
    {
        WriteMode::OneLFTerminatedLinePerWriteCall
    }
}

impl WriteMode {
    /// Whether payload passes through as it is.
    pub open spec fn binary(self) -> bool {
        self == WriteMode::Binary
    }
}

/// A control packet that is sent by itself when a request ends.
#[derive(PartialEq, Eq, Debug, Hash, Ord, PartialOrd, Clone, Copy)]
pub enum MessageKind {
    /// A flush packet.
    Flush,
    /// A packet with fixed text.
    Text(&'static [u8]),
}

impl MessageKind {
    /// Whether the message can be put on the wire: a text needs at least one
    /// byte before its optional line feed, and must fit one packet.
    pub open spec fn emittable(self) -> bool {
        match self {
            MessageKind::Flush => true,
            MessageKind::Text(t) => 0 < strip_newline(t@).len() < MAX_DATA_LEN,
        }
    }

    /// The bytes of the message on the wire.
    pub open spec fn packet(self) -> Seq<u8> {
        match self {
            MessageKind::Flush => flush_packet(),
            MessageKind::Text(t) => text_packet(strip_newline(t@)),
        }
    }

    /// Tells whether the message can be put on the wire.
    pub fn is_emittable(&self) -> (ok: bool)
        ensures
            ok == self.emittable(),
    {
        match self {
            MessageKind::Flush => true,
            MessageKind::Text(t) => {
                let n: usize = t.len();
                if n == 0 {
                    false
                } else if t[n - 1] == 10u8 {
                    assert(strip_newline(t@) == t@.drop_last());
                    1 < n && n - 1 < MAX_DATA_LEN
                } else {
                    assert(strip_newline(t@) == t@);
                    n < MAX_DATA_LEN
                }
            },
        }
    }
}

/// The bytes that a queue of messages puts on the wire, first in, first out.
pub open spec fn teardown_bytes(queue: Seq<MessageKind>) -> Seq<u8>
    decreases queue.len(),
{
    if queue.len() == 0 {
        Seq::empty()
    } else {
        teardown_bytes(queue.drop_last()) + queue.last().packet()
    }
}

/// Whether every message of the queue can be put on the wire.
pub open spec fn all_emittable(queue: Seq<MessageKind>) -> bool {
    forall|i: int| 0 <= i < queue.len() ==> (#[trigger] queue[i]).emittable()
}

/// Tells whether every message of the queue can be put on the wire.
pub fn queue_is_emittable(queue: &[MessageKind]) -> (ok: bool)
    ensures
        ok == all_emittable(queue@),
{
    let mut i: usize = 0;
    while i < queue.len()
        invariant
            i <= queue.len(),
            forall|j: int| 0 <= j < i ==> (#[trigger] queue@[j]).emittable(),
        decreases queue.len() - i,
    {
        if !queue[i].is_emittable() {
            return false;
        }
        i = i + 1;
    }
    true
}

/// A queue that holds one flush message puts one flush packet on the wire,
/// and an empty queue nothing.
pub proof fn lemma_flush_alone()
    ensures
        all_emittable(seq![MessageKind::Flush]),
        teardown_bytes(seq![MessageKind::Flush]) == flush_packet(),
        teardown_bytes(Seq::<MessageKind>::empty()) == Seq::<u8>::empty(),
{
    let q = seq![MessageKind::Flush];
    assert(q.drop_last() =~= Seq::<MessageKind>::empty());
    assert(q.last() == MessageKind::Flush);
    reveal_with_fuel(teardown_bytes, 2);
    assert(teardown_bytes(q) =~= flush_packet());
}

/// A message that joins the queue at its end goes out last, after all that
/// queued before it.
pub proof fn lemma_teardown_in_order(queue: Seq<MessageKind>, last: MessageKind)
    ensures
        teardown_bytes(queue.push(last)) == teardown_bytes(queue) + last.packet(),
        all_emittable(queue.push(last)) == (all_emittable(queue) && last.emittable()),
{
    let longer = queue.push(last);
    assert(longer.drop_last() =~= queue);
    assert(longer.last() == last);
    if all_emittable(longer) {
        assert(longer[queue.len() as int].emittable());
        assert forall|i: int| 0 <= i < queue.len() implies (#[trigger] queue[i]).emittable() by {
            assert(longer[i].emittable());
        }
    }
}

} // verus!
