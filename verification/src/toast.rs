//! The queue of toast messages shown in the corner of the window: each
//! message gets the next id, and a message leaves the queue by its id.

use vstd::prelude::*;

verus! {

/// The kind of a toast message.
#[derive(Debug, Clone, Copy, PartialEq, Eq, Structural)]
pub enum ToastType {
    Info,
    Success,
    Warning,
    Error,
}

/// One toast message.
#[derive(Debug, Clone)]
pub struct ToastMessage {
    pub text: String,
    pub toast_type: ToastType,
    pub id: u64,
}

/// The abstract form of a message: its id, text and kind.
pub open spec fn message_view(m: ToastMessage) -> (u64, Seq<char>, ToastType) {
    (m.id, m.text@, m.toast_type)
}

/// The queue of toast messages, oldest first.
#[derive(Debug)]
pub struct ToastQueue {
    pub messages: Vec<ToastMessage>,
    next_id: u64,
}

/// Ids ascend strictly through the queue and stay below the next id.
pub open spec fn ids_ordered(ms: Seq<(u64, Seq<char>, ToastType)>, next_id: u64) -> bool {
    &&& forall|i: int, j: int| 0 <= i < j < ms.len() ==> #[trigger] ms[i].0 < #[trigger] ms[j].0
    &&& forall|i: int| 0 <= i < ms.len() ==> #[trigger] ms[i].0 < next_id
}

/// The queue without the messages of one id.
pub open spec fn without_id(ms: Seq<(u64, Seq<char>, ToastType)>, id: u64) -> Seq<
    (u64, Seq<char>, ToastType),
> {
    ms.filter(other_than(id))
}

/// Selects the messages whose id is not `id`.
pub open spec fn other_than(id: u64) -> spec_fn((u64, Seq<char>, ToastType)) -> bool {
    |m: (u64, Seq<char>, ToastType)| m.0 != id
}

impl View for ToastQueue {
    type V = Seq<(u64, Seq<char>, ToastType)>;

    closed spec fn view(&self) -> Seq<(u64, Seq<char>, ToastType)> {
        self.messages@.map_values(|m: ToastMessage| message_view(m))
    }
}

impl ToastQueue {
    /// The id the next message gets.
    pub closed spec fn spec_next_id(&self) -> u64 {
        self.next_id
    }

    /// Whether the queue's ids are in order.
    pub open spec fn wf(&self) -> bool {
        ids_ordered(self@, self.spec_next_id())
    }

    /// An empty queue whose first message gets id 0.
    pub fn new() -> (r: Self)
        ensures
            r@ == Seq::<(u64, Seq<char>, ToastType)>::empty(),
            r.spec_next_id() == 0,
            r.wf(),
    {
        let r = ToastQueue { messages: Vec::new(), next_id: 0 };
        assert(r@ =~= Seq::<(u64, Seq<char>, ToastType)>::empty());
        r
    }

    /// The id the next message gets.
    pub fn next_id(&self) -> (r: u64)
        ensures
            r == self.spec_next_id(),
    {
        self.next_id
    }

    /// Appends a message with the next id; the id after it is one higher.
    pub fn push(&mut self, text: String, toast_type: ToastType)
        requires
            old(self).spec_next_id() < u64::MAX,
        ensures
            final(self)@ == old(self)@.push((old(self).spec_next_id(), text@, toast_type)),
            final(self).spec_next_id() == old(self).spec_next_id() + 1,
            old(self).wf() ==> final(self).wf(),
    {
        let ghost before = self@;
        let id = self.next_id;
        self.messages.push(ToastMessage { text, toast_type, id });
        self.next_id = self.next_id + 1;
        assert(self@ =~= before.push((id, text@, toast_type)));
    }

    /// A success message.
    pub fn success(&mut self, text: String)
        requires
            old(self).spec_next_id() < u64::MAX,
        ensures
            final(self)@ == old(self)@.push((old(self).spec_next_id(), text@, ToastType::Success)),
            final(self).spec_next_id() == old(self).spec_next_id() + 1,
            old(self).wf() ==> final(self).wf(),
    {
        self.push(text, ToastType::Success);
    }

    /// An error message.
    pub fn error(&mut self, text: String)
        requires
            old(self).spec_next_id() < u64::MAX,
        ensures
            final(self)@ == old(self)@.push((old(self).spec_next_id(), text@, ToastType::Error)),
            final(self).spec_next_id() == old(self).spec_next_id() + 1,
            old(self).wf() ==> final(self).wf(),
    {
        self.push(text, ToastType::Error);
    }

    /// An information message.
    pub fn info(&mut self, text: String)
        requires
            old(self).spec_next_id() < u64::MAX,
        ensures
            final(self)@ == old(self)@.push((old(self).spec_next_id(), text@, ToastType::Info)),
            final(self).spec_next_id() == old(self).spec_next_id() + 1,
            old(self).wf() ==> final(self).wf(),
    {
        self.push(text, ToastType::Info);
    }

    /// Removes the messages with the given id, keeping the others in order.
    pub fn remove(&mut self, id: u64)
        ensures
            final(self)@ == without_id(old(self)@, id),
            final(self).spec_next_id() == old(self).spec_next_id(),
            old(self).wf() ==> final(self).wf(),
    {
        let ghost before = self@;
        let ghost ord = ids_ordered(before, self.next_id);
        let mut kept: Vec<ToastMessage> = Vec::new();
        let mut i: usize = 0;
        let n = self.messages.len();
        assert(kept@.map_values(|m: ToastMessage| message_view(m)) =~= without_id(
            before.take(0),
            id,
        )) by {
            reveal(Seq::filter);
        }
        while i < n
            invariant
                n == self.messages@.len(),
                i <= n,
                before == self@,
                ord == ids_ordered(before, self.next_id),
                kept@.map_values(|m: ToastMessage| message_view(m)) == without_id(
                    before.take(i as int),
                    id,
                ),
                ord ==> ids_ordered(kept@.map_values(|m: ToastMessage| message_view(m)), self.next_id),
                ord ==> forall|k: int, j: int|
                    0 <= k < kept@.len() && i <= j < n ==> (#[trigger] kept@[k]).id < (
                    #[trigger] before[j]).0,
            decreases n - i,
        {
            let m = &self.messages[i];
            let ghost mv = message_view(*m);
            proof {
                assert(mv == before[i as int]);
                assert(before.take(i + 1) =~= before.take(i as int).push(mv));
                before.take(i as int).lemma_filter_push(mv, other_than(id));
            }
            if m.id != id {
                let ghost k = kept@;
                let ghost kv = k.map_values(|x: ToastMessage| message_view(x));
                kept.push(ToastMessage { text: m.text.clone(), toast_type: m.toast_type, id: m.id });
                let ghost nv = kept@.map_values(|x: ToastMessage| message_view(x));
                assert(nv =~= kv.push(mv));
                proof {
                    if ord {
                        assert forall|a: int, b: int| 0 <= a < b < nv.len() implies #[trigger] nv[a].0
                            < #[trigger] nv[b].0 by {
                            if b == nv.len() - 1 {
                                assert(nv[a] == kv[a]);
                                assert(kv[a].0 == k[a].id);
                            } else {
                                assert(nv[a] == kv[a] && nv[b] == kv[b]);
                            }
                        }
                        assert forall|a: int| 0 <= a < nv.len() implies #[trigger] nv[a].0
                            < self.next_id by {
                            if a < kv.len() {
                                assert(nv[a] == kv[a]);
                            }
                        }
                        assert forall|a: int, j: int|
                            0 <= a < kept@.len() && i + 1 <= j < n implies (
                            #[trigger] kept@[a]).id < (#[trigger] before[j]).0 by {
                            if a < k.len() {
                                assert(kept@[a] == k[a]);
                                assert(k[a].id < before[i as int].0);
                            }
                        }
                    }
                }
            }
            i += 1;
        }
        assert(before.take(n as int) =~= before);
        self.messages = kept;
    }
}

proof fn lemma_filter_keeps_all(ms: Seq<(u64, Seq<char>, ToastType)>, id: u64)
    requires
        forall|i: int| 0 <= i < ms.len() ==> (#[trigger] ms[i]).0 != id,
    ensures
        without_id(ms, id) == ms,
    decreases ms.len(),
{
    if ms.len() == 0 {
        assert(without_id(ms, id) =~= ms) by {
            reveal(Seq::filter);
        }
    } else {
        let init = ms.drop_last();
        assert forall|i: int| 0 <= i < init.len() implies (#[trigger] init[i]).0 != id by {
            assert(init[i] == ms[i]);
        }
        lemma_filter_keeps_all(init, id);
        init.lemma_filter_push(ms.last(), other_than(id));
        assert(init.push(ms.last()) =~= ms);
    }
}

/// Removing a message right after pushing it leaves the queue as it was:
/// the pushed message has an id no earlier message has.
pub proof fn lemma_push_then_remove(
    ms: Seq<(u64, Seq<char>, ToastType)>,
    next_id: u64,
    text: Seq<char>,
    toast_type: ToastType,
)
    requires
        ids_ordered(ms, next_id),
    ensures
        without_id(ms.push((next_id, text, toast_type)), next_id) == ms,
{
    ms.lemma_filter_push((next_id, text, toast_type), other_than(next_id));
    assert forall|i: int| 0 <= i < ms.len() implies (#[trigger] ms[i]).0 != next_id by {
        assert(ms[i].0 < next_id);
    }
    lemma_filter_keeps_all(ms, next_id);
}

} // verus!
