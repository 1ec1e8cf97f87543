use vstd::prelude::*;
use crate::keycode::Keycode;
use crate::windows::GlkWindowID;

verus! {

/// A line input event - either Latin-1 characters, or Unicode codepoints
#[derive(PartialEq, Eq, Debug)]
pub enum LineInput {
    /// Latin-1
    Latin1(Vec<u8>),
    /// Unicode
    Unicode(Vec<u32>),
}

/// Events
#[derive(PartialEq, Eq, Debug)]
pub enum GlkEvent {
    /// Used by glk_select_poll() to indicate that no events are pending
    NoEvent,
    /// A timer event
    Timer,
    /// Character input from a window
    CharInput {
        /// The window generating the key event
        win: GlkWindowID,
        /// the key that was pressed
        key: Keycode,
    },
    /// Line input from a window
    LineInput {
        /// The window generating the line event
        win: GlkWindowID,
        /// The line that was read
        buf: LineInput,
    },
    /// A mouse event from a text grid or graphics window
    Mouse {
        /// The window generating the mouse event
        win: GlkWindowID,
        /// The x-coordinate of the event
        x: u32,
        /// The y-coordinate of the event
        y: u32,
    },
    /// A window (and its children) were rearranged
    Arrange {
        /// The window requesting rearrangement
        win: GlkWindowID,
    },
    /// A window (and its children) need to be redrawn
    Redraw {
        /// The window that needs to be redrawn
        win: GlkWindowID,
    },
    /// A hyperlink was clicked/selected
    Hyperlink {
        /// The window generating the hyperlink event
        win: GlkWindowID,
        /// The user's linkval for the selected link
        linkval: u32,
    },
    /// A sound finished playing
    SoundNotify {
        /// the Sound Resource (from the blorb file) that finished playing
        resource_id: u32,
        /// The user's notification value
        notify: u32,
    },
    /// A volume change was completed
    VolumeNotify {
        /// The user's notification value
        notify: u32,
    },
}

/// A line of input the embedding program still owes the library: it
/// performs the blocking read and posts the resulting `LineInput` event.
pub struct LineRequest {
    /// the window the line is read from
    pub win: GlkWindowID,
    /// the initial contents of the line buffer
    pub buf: LineInput,
    /// how much of the initial buffer already counts as typed input
    pub initlen: usize,
}

/// Merges two event sources into one ordered queue: events the embedding
/// program pushes in as they arrive, and ticks of a self-managed timer.
/// Waiting on the real clock and the real channel is the embedding
/// program's loop; every decision about what fires when is made here, over
/// an explicit notion of the current time in milliseconds.
pub struct EventManager {
    /// already-realized events, oldest first
    pub pending: Vec<GlkEvent>,
    /// milliseconds between timer events; zero disables the timer
    pub timer_interval: u32,
    /// when the timer last fired, or was last rewound
    pub last_timer_ms: u64,
    /// line reads the embedding program still has to perform
    pub line_requests: Vec<LineRequest>,
}

impl EventManager {
    /// The queue holds realized events only: `NoEvent` is the answer "the
    /// queue is empty", never an event in it.
    pub open spec fn wf(self) -> bool {
        forall|i: int|
            0 <= i < self.pending@.len() ==> self.pending@[i] != GlkEvent::NoEvent
    }

    /// When the next timer event is due, on the clock the caller keeps.
    pub open spec fn deadline(self) -> int {
        self.last_timer_ms + self.timer_interval
    }

    /// Whether a timer event is due at `now`.
    pub open spec fn timer_due(self, now: int) -> bool {
        self.timer_interval != 0 && now >= self.deadline()
    }

    /// What a non-blocking poll does: the oldest queued event leaves the
    /// queue; with nothing queued a due timer fires, once; otherwise
    /// nothing happens. Queued events always go out before a timer is
    /// synthesized, so timers never reorder real input.
    pub open spec fn pop_rel(pre: EventManager, post: EventManager, now: int, r: GlkEvent)
        -> bool {
        &&& post.timer_interval == pre.timer_interval
        &&& post.line_requests == pre.line_requests
        &&& if pre.pending@.len() > 0 {
            &&& r == pre.pending@[0]
            &&& post.pending@ == pre.pending@.drop_first()
            &&& post.last_timer_ms == pre.last_timer_ms
        } else if pre.timer_due(now) {
            &&& r == GlkEvent::Timer
            &&& post.pending@ == pre.pending@
            &&& post.last_timer_ms == now
        } else {
            &&& r == GlkEvent::NoEvent
            &&& post.pending@ == pre.pending@
            &&& post.last_timer_ms == pre.last_timer_ms
        }
    }

    /// What the blocking wait decides once the embedding program's wait
    /// ends: a queued event first; else whatever the wait handed over;
    /// else, with a live timer, a timer event. Only a wait that was
    /// started with no timer and got nothing can yield `None`, and such a
    /// wait never ends.
    pub open spec fn select_rel(
        pre: EventManager,
        post: EventManager,
        now: int,
        received: Option<GlkEvent>,
        r: GlkEvent,
    ) -> bool {
        &&& post.timer_interval == pre.timer_interval
        &&& post.line_requests == pre.line_requests
        &&& if pre.pending@.len() > 0 {
            &&& r == pre.pending@[0]
            &&& post.pending@ == pre.pending@.drop_first()
            &&& post.last_timer_ms == pre.last_timer_ms
        } else if received is Some {
            &&& r == received->0
            &&& post.pending@ == pre.pending@
            &&& post.last_timer_ms == pre.last_timer_ms
        } else if pre.timer_interval != 0 {
            &&& r == GlkEvent::Timer
            &&& post.pending@ == pre.pending@
            &&& post.last_timer_ms == now
        } else {
            &&& r == GlkEvent::NoEvent
            &&& post.pending@ == pre.pending@
            &&& post.last_timer_ms == pre.last_timer_ms
        }
    }

    /// A manager with nothing queued and the timer off.
    pub fn new() -> (r: EventManager)
        ensures
            r.wf(),
            r.pending@.len() == 0,
            r.timer_interval == 0,
            r.last_timer_ms == 0,
            r.line_requests@.len() == 0,
    {
        EventManager {
            pending: Vec::new(),
            timer_interval: 0,
            last_timer_ms: 0,
            line_requests: Vec::new(),
        }
    }

    /// Take delivery of an event the embedding program received on its
    /// channel; it queues behind everything already here. Only realized
    /// events travel the channel, so `NoEvent` cannot be delivered.
    pub fn push_event(&mut self, ev: GlkEvent)
        requires
            old(self).wf(),
            ev != GlkEvent::NoEvent,
        ensures
            final(self).wf(),
            final(self).pending@ == old(self).pending@.push(ev),
            final(self).timer_interval == old(self).timer_interval,
            final(self).last_timer_ms == old(self).last_timer_ms,
            final(self).line_requests == old(self).line_requests,
    {
        self.pending.push(ev);
    }

    /// Change the timer interval; zero turns the timer off. The tick clock
    /// restarts at `now_ms`.
    pub fn set_timer(&mut self, ms: u32, now_ms: u64)
        ensures
            final(self).timer_interval == ms,
            final(self).last_timer_ms == now_ms,
            final(self).pending@ == old(self).pending@,
            final(self).line_requests == old(self).line_requests,
    {
        self.timer_interval = ms;
        self.last_timer_ms = now_ms;
    }

    /// Check for an event at `now_ms` and return it, without blocking;
    /// `GlkEvent::NoEvent` when nothing is ready.
    pub fn pop_event(&mut self, now_ms: u64) -> (r: GlkEvent)
        requires
            old(self).wf(),
        ensures
            final(self).wf(),
            Self::pop_rel(*old(self), *final(self), now_ms as int, r),
            r == GlkEvent::NoEvent <==> (old(self).pending@.len() == 0 && !old(
                self,
            ).timer_due(now_ms as int)),
    {
        if self.pending.len() > 0 {
            return self.pending.remove(0);
        }
        if self.timer_interval != 0 && now_ms >= self.last_timer_ms && now_ms
            - self.last_timer_ms >= self.timer_interval as u64 {
            self.last_timer_ms = now_ms;
            return GlkEvent::Timer;
        }
        GlkEvent::NoEvent
    }

    /// Decide what a finished wait delivers: the embedding program waited
    /// on its channel until `received` arrived or the timer deadline
    /// passed, and calls this with the outcome. Never answers `None` when
    /// something was queued, something arrived, or a timer is live.
    pub fn select(&mut self, now_ms: u64, received: Option<GlkEvent>) -> (r: GlkEvent)
        requires
            old(self).wf(),
            received != Some(GlkEvent::NoEvent),
        ensures
            final(self).wf(),
            Self::select_rel(*old(self), *final(self), now_ms as int, received, r),
            r == GlkEvent::NoEvent <==> (old(self).pending@.len() == 0 && received is None
                && old(self).timer_interval == 0),
    {
        if self.pending.len() > 0 {
            return self.pending.remove(0);
        }
        match received {
            Some(ev) => ev,
            None => {
                if self.timer_interval != 0 {
                    self.last_timer_ms = now_ms;
                    GlkEvent::Timer
                } else {
                    GlkEvent::NoEvent
                }
            },
        }
    }

    /// How long a blocking wait may sleep from `now_ms`: until the next
    /// timer deadline, or forever when no timer is live.
    pub fn wait_timeout(&self, now_ms: u64) -> (r: Option<u64>)
        ensures
            self.timer_interval == 0 ==> r is None,
            self.timer_interval != 0 ==> r == Some(
                if now_ms as int >= self.deadline() {
                    0u64
                } else if self.deadline() - now_ms > u64::MAX {
                    u64::MAX
                } else {
                    (self.deadline() - now_ms) as u64
                },
            ),
    {
        if self.timer_interval == 0 {
            None
        } else {
            if now_ms >= self.last_timer_ms && now_ms - self.last_timer_ms
                >= self.timer_interval as u64 {
                Some(0)
            } else {
                if now_ms >= self.last_timer_ms {
                    Some(self.timer_interval as u64 - (now_ms - self.last_timer_ms))
                } else {
                    let gap = self.last_timer_ms - now_ms;
                    if gap > u64::MAX - self.timer_interval as u64 {
                        Some(u64::MAX)
                    } else {
                        Some(self.timer_interval as u64 + gap)
                    }
                }
            }
        }
    }

    /// Record a request for a line of Latin-1 input; the embedding program
    /// performs the read and posts the resulting event.
    pub fn queue_line_input_request(&mut self, win: GlkWindowID, buf: LineInput, initlen: usize)
        ensures
            final(self).line_requests@.len() == old(self).line_requests@.len() + 1,
            final(self).line_requests@.last().win == win,
            final(self).line_requests@.last().buf == buf,
            final(self).line_requests@.last().initlen == initlen,
            final(self).line_requests@.subrange(0, old(self).line_requests@.len() as int)
                == old(self).line_requests@,
            final(self).pending@ == old(self).pending@,
            final(self).timer_interval == old(self).timer_interval,
            final(self).last_timer_ms == old(self).last_timer_ms,
    {
        self.line_requests.push(LineRequest { win, buf, initlen });
        proof {
            assert(self.line_requests@.subrange(0, old(self).line_requests@.len() as int)
                =~= old(self).line_requests@);
        }
    }

    /// Hand the outstanding line requests to the embedding program, which
    /// owes one `LineInput` event for each.
    pub fn take_line_requests(&mut self) -> (r: Vec<LineRequest>)
        ensures
            r@ == old(self).line_requests@,
            final(self).line_requests@.len() == 0,
            final(self).pending@ == old(self).pending@,
            final(self).timer_interval == old(self).timer_interval,
            final(self).last_timer_ms == old(self).last_timer_ms,
    {
        let mut out: Vec<LineRequest> = Vec::new();
        core::mem::swap(&mut out, &mut self.line_requests);
        out
    }

    /// With nothing queued and a timer of `interval` milliseconds live, a
    /// wait that times out at or after the deadline delivers exactly one
    /// timer event, and an immediate poll afterwards, any time before the
    /// next deadline, delivers nothing.
    pub proof fn lemma_timer_ordering(
        m0: EventManager,
        m1: EventManager,
        m2: EventManager,
        now1: int,
        now2: int,
        e1: GlkEvent,
        e2: GlkEvent,
    )
        requires
            m0.pending@.len() == 0,
            m0.timer_interval != 0,
            now1 >= m0.deadline(),
            Self::select_rel(m0, m1, now1, None, e1),
            now2 < now1 + m1.timer_interval,
            Self::pop_rel(m1, m2, now2, e2),
        ensures
            e1 == GlkEvent::Timer,
            e2 == GlkEvent::NoEvent,
    {
    }
}

} // verus!
