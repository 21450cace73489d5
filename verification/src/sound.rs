//! Sound requests raised by editing events.

use vstd::prelude::*;

verus! {

/// The event kinds that have a sound.
#[derive(Clone, Copy, Debug, PartialEq, Eq)]
pub enum Sound {
    Key,
    Space,
    Backspace,
    Return,
    Ding,
    Startup,
    Toggle,
    Feed,
}

/// Most requests that wait for playback at any time.
pub const QUEUE_CAPACITY: usize = 16;

/// What a queue holds after one more request: the request goes to the back,
/// and the oldest one is dropped first when the queue is full.
pub open spec fn enqueue(queue: Seq<Sound>, sound: Sound) -> Seq<Sound> {
    if queue.len() < QUEUE_CAPACITY {
        queue.push(sound)
    } else {
        queue.drop_first().push(sound)
    }
}

/// A fire-and-forget queue of sound requests.
///
/// Editing operations put requests in; whoever owns the audio device takes
/// them out with [`AudioEngine::drain`] and plays them. A request never
/// blocks and never fails: a disabled engine forgets it, and a full queue
/// makes room by dropping its oldest request.
pub struct AudioEngine {
    enabled: bool,
    queue: Vec<Sound>,
}

impl AudioEngine {
    /// Whether requests are kept at all.
    pub closed spec fn enabled(&self) -> bool {
        self.enabled
    }

    /// The requests that wait for playback, oldest first.
    pub closed spec fn pending(&self) -> Seq<Sound> {
        self.queue@
    }

    /// The queue never holds more than its capacity.
    pub closed spec fn wf(&self) -> bool {
        self.queue@.len() <= QUEUE_CAPACITY
    }

    /// What the invariant says of the pending requests.
    pub proof fn lemma_wf(&self)
        ensures
            self.wf() <==> self.pending().len() <= QUEUE_CAPACITY,
    {
    }

    /// An engine with nothing pending.
    pub fn new(enabled: bool) -> (engine: Self)
        ensures
            engine.wf(),
            engine.enabled() == enabled,
            engine.pending() == Seq::<Sound>::empty(),
    {
        AudioEngine { enabled, queue: Vec::new() }
    }

    /// Requests `sound`.
    pub fn trigger(&mut self, sound: Sound)
        requires
            old(self).wf(),
        ensures
            final(self).wf(),
            final(self).enabled() == old(self).enabled(),
            final(self).pending() == if old(self).enabled() {
                enqueue(old(self).pending(), sound)
            } else {
                old(self).pending()
            },
    {
        if self.enabled {
            if self.queue.len() >= QUEUE_CAPACITY {
                self.queue.remove(0);
            }
            self.queue.push(sound);
        }
    }

    /// Whether requests are kept.
    pub fn is_enabled(&self) -> (b: bool)
        ensures
            b == self.enabled(),
    {
        self.enabled
    }

    /// Takes out every pending request, oldest first.
    pub fn drain(&mut self) -> (sounds: Vec<Sound>)
        requires
            old(self).wf(),
        ensures
            final(self).wf(),
            final(self).enabled() == old(self).enabled(),
            sounds@ == old(self).pending(),
            final(self).pending() == Seq::<Sound>::empty(),
    {
        let mut sounds: Vec<Sound> = Vec::new();
        sounds.append(&mut self.queue);
        sounds
    }
}

} // verus!
