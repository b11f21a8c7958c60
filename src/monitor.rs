use vstd::prelude::*;
use crate::queue::{PacketQueue, FLUSH_THRESHOLD};
use crate::segment::AudioPacket;

verus! {

/// How often the health monitor looks at the streams, in milliseconds.
pub const POLL_INTERVAL_MS: u64 = 2000;

/// What is known of a capture device.
#[derive(Clone, Debug)]
pub enum DeviceSeen {
    /// There is no such device.
    Absent,
    /// The device exists but did not report its name.
    Unnamed,
    /// The device and its name.
    Named(String),
}

impl DeviceSeen {
    pub open spec fn is_present(self) -> bool {
        !(self is Absent)
    }
}

/// The current default device differs from the device the stream was last
/// built on: no stream was built on a device yet, or both names are known and
/// differ.
pub open spec fn default_changed(current: DeviceSeen, last: DeviceSeen) -> bool {
    match (current, last) {
        (DeviceSeen::Absent, _) => false,
        (_, DeviceSeen::Absent) => true,
        (DeviceSeen::Named(c), DeviceSeen::Named(l)) => c@ != l@,
        _ => false,
    }
}

/// What the health monitor does to one stream on one poll.
#[derive(Clone, Copy, Debug, PartialEq, Eq, Structural)]
pub enum StreamAction {
    /// Leave the stream as it is.
    Keep,
    /// The stream reported an error: build it again on the current default
    /// device.
    Recover,
    /// The default device changed under a live stream: build the stream on
    /// the new default device.
    Switch,
}

/// The monitor's view of one capture direction: its queue, whether its
/// stream is delivering, and the device its stream was last built on.
pub struct DirectionState<T> {
    pub queue: PacketQueue<T>,
    pub alive: bool,
    pub last_device: DeviceSeen,
}

/// The action for a stream that is `alive` or not, last built on `last`, when
/// the current default device is `current`.
pub open spec fn stream_action(alive: bool, current: DeviceSeen, last: DeviceSeen) -> StreamAction {
    if !alive {
        StreamAction::Recover
    } else if default_changed(current, last) {
        StreamAction::Switch
    } else {
        StreamAction::Keep
    }
}

fn default_changed_exec(current: &DeviceSeen, last: &DeviceSeen) -> (r: bool)
    ensures
        r == default_changed(*current, *last),
{
    match (current, last) {
        (DeviceSeen::Absent, _) => false,
        (_, DeviceSeen::Absent) => true,
        (DeviceSeen::Named(c), DeviceSeen::Named(l)) => !c.eq(l),
        _ => false,
    }
}

impl<T> DirectionState<T> {
    /// The state after a rebuild that ended as `built_on`: on success the
    /// stream is live on that device; on failure nothing changes. The queue
    /// is kept either way.
    pub open spec fn after_rebuild(self, built_on: Option<DeviceSeen>) -> DirectionState<T> {
        match built_on {
            Some(d) => DirectionState { queue: self.queue, alive: true, last_device: d },
            None => self,
        }
    }

    /// A direction whose stream was just built on `device`.
    pub fn new(device: DeviceSeen) -> (r: DirectionState<T>)
        ensures
            r.queue.packets@.len() == 0,
            r.alive,
            r.last_device == device,
    {
        DirectionState { queue: PacketQueue::new(), alive: true, last_device: device }
    }

    /// Decides what to do with the stream on this poll, given the current
    /// default device.
    pub fn plan(&self, current: &DeviceSeen) -> (r: StreamAction)
        ensures
            r == stream_action(self.alive, *current, self.last_device),
    {
        if !self.alive {
            StreamAction::Recover
        } else if default_changed_exec(current, &self.last_device) {
            StreamAction::Switch
        } else {
            StreamAction::Keep
        }
    }

    /// Whether the queue must be flushed on this poll.
    pub fn needs_flush(&self) -> (r: bool)
        ensures
            r == (self.queue.packets@.len() > FLUSH_THRESHOLD),
    {
        self.queue.over_threshold()
    }

    /// Takes the queued packets out for a flush; the stream state is kept.
    pub fn take_for_flush(&mut self) -> (r: Vec<AudioPacket<T>>)
        ensures
            r@ == old(self).queue.packets@,
            final(self).queue.packets@.len() == 0,
            final(self).alive == old(self).alive,
            final(self).last_device == old(self).last_device,
    {
        self.queue.take_all()
    }

    /// Marks the stream as failed, as its error callback does.
    pub fn mark_dead(&mut self)
        ensures
            !final(self).alive,
            final(self).last_device == old(self).last_device,
            final(self).queue.packets@ == old(self).queue.packets@,
    {
        self.alive = false;
    }

    /// Records the outcome of rebuilding the stream: on success the device it
    /// was built on, on failure nothing. The queue is left as it was.
    pub fn apply_rebuild(&mut self, built_on: Option<DeviceSeen>)
        ensures
            *final(self) == old(self).after_rebuild(built_on),
    {
        if let Some(d) = built_on {
            self.alive = true;
            self.last_device = d;
        }
    }
}

/// The recovery law: a stream whose liveness flag is down is planned for
/// recovery on the poll that sees it, so within one polling interval; a
/// rebuild that succeeds raises the flag again and keeps the packets already
/// queued, and one that fails leaves the stream planned for recovery on the
/// next poll.
pub proof fn lemma_recovery<T>(state: DirectionState<T>, current: DeviceSeen, device: DeviceSeen)
    requires
        !state.alive,
    ensures
        stream_action(state.alive, current, state.last_device) == StreamAction::Recover,
        state.after_rebuild(Some(device)).alive,
        state.after_rebuild(Some(device)).last_device == device,
        state.after_rebuild(Some(device)).queue == state.queue,
        stream_action(
            state.after_rebuild(None).alive,
            current,
            state.after_rebuild(None).last_device,
        ) == StreamAction::Recover,
        state.after_rebuild(None).queue == state.queue,
{
}

} // verus!
