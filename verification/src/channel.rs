use vstd::prelude::*;

verus! {

// The hand-off ring between interrupt context (producer) and the application
// loop (consumer). It is backed by heapless's single-producer single-consumer
// queue; a `Queue` with a backing array of `N` slots holds at most `N - 1`
// items (one slot stays free to tell a full ring from an empty one), so a
// backing array of 9 gives the 8 usable slots the channel is specified to have.

#[verifier::external_type_specification]
#[verifier::external_body]
#[verifier::reject_recursive_types(T)]
pub struct ExQueue<T, const N: usize>(heapless::spsc::Queue<T, N>);

/// What the ring holds, oldest first, each reply as its character sequence.
pub uninterp spec fn queue_replies(q: heapless::spsc::Queue<String, 9>) -> Seq<Seq<char>>;

/// Relies on heapless::spsc::Queue::new: creates an empty queue.
#[verifier::external_body]
fn queue_new() -> (q: heapless::spsc::Queue<String, 9>)
    ensures
        queue_replies(q) == Seq::<Seq<char>>::empty(),
{
    heapless::spsc::Queue::new()
}

/// Relies on heapless::spsc::Queue::enqueue: adds the item at the back of the
/// queue, or returns it unchanged when the queue already holds 8 items.
#[verifier::external_body]
fn queue_enqueue(q: &mut heapless::spsc::Queue<String, 9>, val: String) -> (r: Result<(), String>)
    ensures
        r is Ok <==> queue_replies(*old(q)).len() < 8,
        r is Ok ==> queue_replies(*final(q)) == queue_replies(*old(q)).push(val@),
        r is Err ==> queue_replies(*final(q)) == queue_replies(*old(q)),
        r matches Err(v) ==> v@ == val@,
{
    q.enqueue(val)
}

/// Relies on heapless::spsc::Queue::dequeue: removes and returns the front
/// item, or returns None when the queue is empty.
#[verifier::external_body]
fn queue_dequeue(q: &mut heapless::spsc::Queue<String, 9>) -> (r: Option<String>)
    ensures
        queue_replies(*old(q)).len() == 0 ==> r is None,
        queue_replies(*old(q)).len() > 0 ==> r is Some && queue_replies(*final(q))
            == queue_replies(*old(q)).drop_first(),
        r matches Some(v) ==> queue_replies(*old(q)).len() > 0 && v@ == queue_replies(
            *old(q),
        )[0],
        r is None ==> queue_replies(*final(q)) == queue_replies(*old(q)),
{
    q.dequeue()
}

/// Relies on heapless::spsc::Queue::len: the number of items held.
#[verifier::external_body]
fn queue_len(q: &heapless::spsc::Queue<String, 9>) -> (n: usize)
    ensures
        n == queue_replies(*q).len(),
{
    q.len()
}

/// A fixed-depth first-in first-out channel of completed replies, filled from
/// interrupt context and drained by the application loop.
pub struct ResponseChannel {
    ring: heapless::spsc::Queue<String, 9>,
}

impl ResponseChannel {
    /// The replies waiting to be consumed, oldest first.
    pub closed spec fn replies(&self) -> Seq<Seq<char>> {
        queue_replies(self.ring)
    }

    /// The channel never holds more than 8 replies.
    pub open spec fn wf(&self) -> bool {
        self.replies().len() <= 8
    }

    pub fn new() -> (c: ResponseChannel)
        ensures
            c.replies() == Seq::<Seq<char>>::empty(),
            c.wf(),
    {
        ResponseChannel { ring: queue_new() }
    }

    /// Enqueue a completed reply. A full channel is a defined failure: the
    /// reply comes back unchanged and the channel keeps what it held.
    pub fn produce(&mut self, reply: String) -> (r: Result<(), String>)
        requires
            old(self).wf(),
        ensures
            final(self).wf(),
            r is Ok <==> old(self).replies().len() < 8,
            r is Ok ==> final(self).replies() == old(self).replies().push(reply@),
            r is Err ==> final(self).replies() == old(self).replies(),
            r matches Err(v) ==> v@ == reply@,
    {
        queue_enqueue(&mut self.ring, reply)
    }

    /// Dequeue the oldest reply, if any.
    pub fn consume(&mut self) -> (r: Option<String>)
        requires
            old(self).wf(),
        ensures
            final(self).wf(),
            r is Some <==> old(self).replies().len() > 0,
            r matches Some(v) ==> v@ == old(self).replies()[0] && final(self).replies()
                == old(self).replies().drop_first(),
            r is None ==> final(self).replies() == old(self).replies(),
    {
        queue_dequeue(&mut self.ring)
    }

    /// How many replies are waiting.
    pub fn len(&self) -> (n: usize)
        ensures
            n == self.replies().len(),
    {
        queue_len(&self.ring)
    }
}

/// The channel's contents after a run of produces that all succeed: the
/// shape `produce` gives the channel one accepted reply at a time.
pub open spec fn channel_after_produce(s: Seq<Seq<char>>, vs: Seq<Seq<char>>) -> Seq<Seq<char>>
    decreases vs.len(),
{
    if vs.len() == 0 {
        s
    } else {
        channel_after_produce(s.push(vs[0]), vs.drop_first())
    }
}

/// Law: the channel is first-in first-out. Producing a run of replies that
/// fits the free slots (`produce` accepts exactly while fewer than 8 are
/// held) leaves the channel holding the old contents followed by the new
/// ones in production order, and the reply in front after i consumes is the
/// i-th of that sequence - so consuming yields them back in the same order.
pub proof fn lemma_channel_fifo(s: Seq<Seq<char>>, vs: Seq<Seq<char>>)
    requires
        s.len() + vs.len() <= 8,
    ensures
        channel_after_produce(s, vs) == s + vs,
        channel_after_produce(s, vs).len() <= 8,
        forall|i: int|
            0 <= i < s.len() + vs.len() ==> #[trigger] channel_after_produce(s, vs).skip(i)[0] == (
            s + vs)[i],
    decreases vs.len(),
{
    if vs.len() == 0 {
        assert(channel_after_produce(s, vs) =~= s + vs);
    } else {
        lemma_channel_fifo(s.push(vs[0]), vs.drop_first());
        assert(s.push(vs[0]) + vs.drop_first() =~= s + vs);
    }
    assert forall|i: int| 0 <= i < s.len() + vs.len() implies #[trigger] channel_after_produce(
        s,
        vs,
    ).skip(i)[0] == (s + vs)[i] by {
        assert((s + vs).skip(i)[0] == (s + vs)[i]);
    }
}

} // verus!
