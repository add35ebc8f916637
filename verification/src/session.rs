//! The UI session: one widget-tree instance per UI entity, together with the
//! bounded command queue that delivers asynchronous messages to it.
//!
//! Background work sends commands into a bounded queue; the session drains
//! them without blocking once per frame and applies them, in arrival order,
//! before that frame's input events. The session also tracks the last applied
//! window size, so that a resize is forwarded only on an actual change, and a
//! dirty flag: any accepted input, resize, command or stylesheet change marks
//! the session dirty, and drawing clears the flag.

use vstd::prelude::*;

use crate::event::Event;

verus! {

/// Capacity of the command queue: a saturated queue stalls the producer, not
/// the UI thread.
pub const COMMAND_CAPACITY: usize = 100;

/// Outcome of offering a command to the queue.
#[derive(Clone, Copy, Debug, PartialEq, Eq, Structural)]
pub enum SendResult {
    /// The command was accepted and will be drained in FIFO order.
    Sent,
    /// The queue is at capacity; the producer must wait.
    Full,
    /// The consuming session is gone; the producer must stop sending.
    Disconnected,
}

/// A bounded multi-producer single-consumer command queue, drained completely
/// and non-blockingly once per frame.
pub struct CommandQueue<C> {
    items: Vec<C>,
    capacity: usize,
    open: bool,
}

impl<C> View for CommandQueue<C> {
    type V = Seq<C>;

    /// The pending commands, oldest first.
    closed spec fn view(&self) -> Seq<C> {
        self.items@
    }
}

impl<C> CommandQueue<C> {
    /// The number of commands the queue can hold at once.
    pub closed spec fn cap(&self) -> nat {
        self.capacity as nat
    }

    /// Whether the consuming side still exists.
    pub closed spec fn is_open(&self) -> bool {
        self.open
    }

    /// The queue never holds more than its capacity.
    pub open spec fn wf(&self) -> bool {
        self@.len() <= self.cap()
    }

    /// An empty open queue with the given capacity.
    pub fn with_capacity(capacity: usize) -> (q: Self)
        ensures
            q@ == Seq::<C>::empty(),
            q.cap() == capacity,
            q.is_open(),
            q.wf(),
    {
        CommandQueue { items: Vec::new(), capacity, open: true }
    }

    /// An empty open queue with the bounded default capacity.
    pub fn new() -> (q: Self)
        ensures
            q@ == Seq::<C>::empty(),
            q.cap() == COMMAND_CAPACITY,
            q.is_open(),
            q.wf(),
    {
        Self::with_capacity(COMMAND_CAPACITY)
    }

    /// Offers one command. It is appended in FIFO position iff the queue is
    /// open and below capacity; a full queue reports back-pressure and a
    /// closed queue reports that the consumer is gone, each leaving the queue
    /// unchanged.
    pub fn try_send(&mut self, c: C) -> (r: SendResult)
        requires
            old(self).wf(),
        ensures
            final(self).wf(),
            final(self).cap() == old(self).cap(),
            final(self).is_open() == old(self).is_open(),
            r == SendResult::Disconnected <==> !old(self).is_open(),
            r == SendResult::Full <==> old(self).is_open() && old(self)@.len() == old(self).cap(),
            r == SendResult::Sent <==> old(self).is_open() && old(self)@.len() < old(self).cap(),
            r == SendResult::Sent ==> final(self)@ == old(self)@.push(c),
            r != SendResult::Sent ==> final(self)@ == old(self)@,
    {
        if !self.open {
            SendResult::Disconnected
        } else if self.items.len() < self.capacity {
            self.items.push(c);
            SendResult::Sent
        } else {
            SendResult::Full
        }
    }

    /// Takes every currently pending command, oldest first, leaving the queue
    /// empty. Never blocks: a closed or empty queue simply yields nothing.
    pub fn drain(&mut self) -> (r: Vec<C>)
        ensures
            r@ == old(self)@,
            final(self)@ == Seq::<C>::empty(),
            final(self).cap() == old(self).cap(),
            final(self).is_open() == old(self).is_open(),
            final(self).wf(),
    {
        let mut taken: Vec<C> = Vec::new();
        core::mem::swap(&mut taken, &mut self.items);
        taken
    }

    /// Marks the consuming side as gone: future sends fail with
    /// `Disconnected`.
    pub fn close(&mut self)
        ensures
            final(self)@ == old(self)@,
            final(self).cap() == old(self).cap(),
            !final(self).is_open(),
            old(self).wf() ==> final(self).wf(),
    {
        self.open = false;
    }

    /// The number of pending commands.
    pub fn len(&self) -> (r: usize)
        ensures
            r == self@.len(),
    {
        self.items.len()
    }
}

/// One widget-tree session bound to one UI entity. It owns the command queue
/// feeding its model, remembers the last applied window size, and carries the
/// dirty flag that gates draw-list extraction.
pub struct Ui<C> {
    queue: CommandQueue<C>,
    window: Option<(u32, u32)>,
    style: Option<u64>,
    dirty: bool,
}

impl<C> Ui<C> {
    /// The commands received and not yet applied, oldest first.
    pub closed spec fn pending(&self) -> Seq<C> {
        self.queue@
    }

    /// The capacity of the session's command queue.
    pub closed spec fn cap(&self) -> nat {
        self.queue.cap()
    }

    /// Whether producers can still reach the session.
    pub closed spec fn is_open(&self) -> bool {
        self.queue.is_open()
    }

    /// The last applied window size, if any resize was applied yet.
    pub closed spec fn window_size(&self) -> Option<(u32, u32)> {
        self.window
    }

    /// The identifier of the active stylesheet, if one was applied.
    pub closed spec fn style_id(&self) -> Option<u64> {
        self.style
    }

    /// Whether the widget tree changed since the last draw extraction.
    pub closed spec fn is_dirty(&self) -> bool {
        self.dirty
    }

    /// The queue stays within its capacity.
    pub open spec fn wf(&self) -> bool {
        self.pending().len() <= self.cap()
    }

    /// A fresh session: clean, no size or stylesheet applied yet, empty open
    /// queue at the bounded default capacity.
    pub fn new() -> (u: Self)
        ensures
            u.pending() == Seq::<C>::empty(),
            u.cap() == COMMAND_CAPACITY,
            u.is_open(),
            u.window_size() is None,
            u.style_id() is None,
            !u.is_dirty(),
            u.wf(),
    {
        Ui { queue: CommandQueue::new(), window: None, style: None, dirty: false }
    }

    /// Offers one asynchronous command from a producer. Everything but the
    /// queue — in particular the dirty flag — is untouched: the session only
    /// becomes dirty once the command is applied during a frame update.
    pub fn send_command(&mut self, c: C) -> (r: SendResult)
        requires
            old(self).wf(),
        ensures
            final(self).wf(),
            final(self).cap() == old(self).cap(),
            final(self).is_open() == old(self).is_open(),
            final(self).window_size() == old(self).window_size(),
            final(self).style_id() == old(self).style_id(),
            final(self).is_dirty() == old(self).is_dirty(),
            r == SendResult::Disconnected <==> !old(self).is_open(),
            r == SendResult::Full <==> old(self).is_open() && old(self).pending().len()
                == old(self).cap(),
            r == SendResult::Sent <==> old(self).is_open() && old(self).pending().len()
                < old(self).cap(),
            r == SendResult::Sent ==> final(self).pending() == old(self).pending().push(c),
            r != SendResult::Sent ==> final(self).pending() == old(self).pending(),
    {
        self.queue.try_send(c)
    }

    /// Drains the queue without blocking and hands back every pending
    /// command, oldest first, for application to the model in exactly that
    /// order. Applied commands mark the session dirty; a drain that yields
    /// nothing changes nothing.
    pub fn update_commands(&mut self) -> (cmds: Vec<C>)
        ensures
            cmds@ == old(self).pending(),
            final(self).pending() == Seq::<C>::empty(),
            final(self).cap() == old(self).cap(),
            final(self).is_open() == old(self).is_open(),
            final(self).window_size() == old(self).window_size(),
            final(self).style_id() == old(self).style_id(),
            final(self).is_dirty() == (old(self).is_dirty() || old(self).pending().len() > 0),
            old(self).wf() ==> final(self).wf(),
    {
        let cmds = self.queue.drain();
        if cmds.len() > 0 {
            self.dirty = true;
        }
        cmds
    }

    /// Applies a window resize. The size is recorded, and the session is
    /// marked dirty exactly when the size differs from the last applied one:
    /// repeating a size is a no-op for the dirty flag.
    pub fn resize(&mut self, width: u32, height: u32) -> (changed: bool)
        ensures
            changed == resize_triggers(old(self).window_size(), (width, height)),
            final(self).window_size() == Some((width, height)),
            final(self).is_dirty() == (old(self).is_dirty() || changed),
            final(self).pending() == old(self).pending(),
            final(self).cap() == old(self).cap(),
            final(self).is_open() == old(self).is_open(),
            final(self).style_id() == old(self).style_id(),
            old(self).wf() ==> final(self).wf(),
    {
        let changed = match self.window {
            None => true,
            Some((w, h)) => !(w == width && h == height),
        };
        self.window = Some((width, height));
        if changed {
            self.dirty = true;
        }
        changed
    }

    /// Feeds one normalized input event into the widget tree. Accepted input
    /// marks the session dirty.
    pub fn event(&mut self, _event: &Event)
        ensures
            final(self).is_dirty(),
            final(self).pending() == old(self).pending(),
            final(self).cap() == old(self).cap(),
            final(self).is_open() == old(self).is_open(),
            final(self).window_size() == old(self).window_size(),
            final(self).style_id() == old(self).style_id(),
            old(self).wf() ==> final(self).wf(),
    {
        self.dirty = true;
    }

    /// Swaps the active stylesheet, forcing a full restyle: the session is
    /// marked dirty unconditionally.
    pub fn replace_stylesheet(&mut self, style: u64)
        ensures
            final(self).style_id() == Some(style),
            final(self).is_dirty(),
            final(self).pending() == old(self).pending(),
            final(self).cap() == old(self).cap(),
            final(self).is_open() == old(self).is_open(),
            final(self).window_size() == old(self).window_size(),
            old(self).wf() ==> final(self).wf(),
    {
        self.style = Some(style);
        self.dirty = true;
    }

    /// The cheap dirty check callers make before the expensive draw
    /// extraction.
    pub fn needs_redraw(&self) -> (r: bool)
        ensures
            r == self.is_dirty(),
    {
        self.dirty
    }

    /// Records that the draw list was extracted: the session is clean until
    /// the next accepted change. Extracting from a clean session is wasteful
    /// but harmless.
    pub fn mark_drawn(&mut self)
        ensures
            !final(self).is_dirty(),
            final(self).pending() == old(self).pending(),
            final(self).cap() == old(self).cap(),
            final(self).is_open() == old(self).is_open(),
            final(self).window_size() == old(self).window_size(),
            final(self).style_id() == old(self).style_id(),
            old(self).wf() ==> final(self).wf(),
    {
        self.dirty = false;
    }
}

/// Whether applying this size to a session with the given last applied size
/// triggers a redraw.
pub open spec fn resize_triggers(window: Option<(u32, u32)>, size: (u32, u32)) -> bool {
    window != Some(size)
}

/// The last applied size after a sequence of resizes.
pub open spec fn window_after_resizes(
    window: Option<(u32, u32)>,
    sizes: Seq<(u32, u32)>,
) -> Option<(u32, u32)>
    decreases sizes.len(),
{
    if sizes.len() == 0 {
        window
    } else {
        window_after_resizes(Some(sizes[0]), sizes.drop_first())
    }
}

/// How many resizes in the sequence trigger a redraw, starting from the given
/// last applied size.
pub open spec fn resize_trigger_count(window: Option<(u32, u32)>, sizes: Seq<(u32, u32)>) -> nat
    decreases sizes.len(),
{
    if sizes.len() == 0 {
        0
    } else {
        (if resize_triggers(window, sizes[0]) {
            1nat
        } else {
            0nat
        }) + resize_trigger_count(Some(sizes[0]), sizes.drop_first())
    }
}

/// Whether a session ends up dirty after a sequence of resizes, starting
/// from the given dirty flag and last applied size.
pub open spec fn dirty_after_resizes(
    dirty: bool,
    window: Option<(u32, u32)>,
    sizes: Seq<(u32, u32)>,
) -> bool
    decreases sizes.len(),
{
    if sizes.len() == 0 {
        dirty
    } else {
        dirty_after_resizes(
            dirty || resize_triggers(window, sizes[0]),
            Some(sizes[0]),
            sizes.drop_first(),
        )
    }
}

/// Over any sequence of resize events, the session becomes dirty iff it was
/// dirty already or some resize in the sequence carried a size different
/// from the last applied one.
pub proof fn lemma_redraw_iff_some_resize_triggered(
    dirty: bool,
    window: Option<(u32, u32)>,
    sizes: Seq<(u32, u32)>,
)
    ensures
        dirty_after_resizes(dirty, window, sizes) <==> (dirty || resize_trigger_count(
            window,
            sizes,
        ) > 0),
    decreases sizes.len(),
{
    if sizes.len() > 0 {
        lemma_redraw_iff_some_resize_triggered(
            dirty || resize_triggers(window, sizes[0]),
            Some(sizes[0]),
            sizes.drop_first(),
        );
    }
}

/// Resize idempotence: over any sequence of resize events carrying one and
/// the same size, at most the first triggers a redraw — and none does when
/// that size is already the last applied one.
pub proof fn lemma_repeated_resize_triggers_at_most_once(
    window: Option<(u32, u32)>,
    sizes: Seq<(u32, u32)>,
)
    requires
        forall|i: int| 0 <= i < sizes.len() ==> #[trigger] sizes[i] == sizes[0],
    ensures
        resize_trigger_count(window, sizes) <= 1,
        sizes.len() > 0 && window == Some(sizes[0]) ==> resize_trigger_count(window, sizes) == 0,
    decreases sizes.len(),
{
    if sizes.len() > 0 {
        assert(forall|i: int|
            0 <= i < sizes.drop_first().len() ==> #[trigger] sizes.drop_first()[i]
                == sizes.drop_first()[0]);
        lemma_repeated_resize_triggers_at_most_once(Some(sizes[0]), sizes.drop_first());
    }
}

/// The pending contents of a queue after a further sequence of successful
/// sends, oldest first.
pub open spec fn contents_after_sends<C>(pending: Seq<C>, sent: Seq<C>) -> Seq<C>
    decreases sent.len(),
{
    if sent.len() == 0 {
        pending
    } else {
        contents_after_sends(pending.push(sent[0]), sent.drop_first())
    }
}

/// FIFO delivery: sending a sequence of commands appends it, in send order,
/// to what was already pending. Hence one full drain returns every sent
/// command, none lost and none reordered.
pub proof fn lemma_sends_preserve_fifo<C>(pending: Seq<C>, sent: Seq<C>)
    ensures
        contents_after_sends(pending, sent) == pending + sent,
    decreases sent.len(),
{
    if sent.len() == 0 {
        assert(contents_after_sends(pending, sent) =~= pending + sent);
    } else {
        lemma_sends_preserve_fifo(pending.push(sent[0]), sent.drop_first());
        assert(pending.push(sent[0]) + sent.drop_first() =~= pending + sent);
    }
}

} // verus!
