//! The one-line message at the bottom of the screen: a permanent text, and
//! a transient one that outlives it for a fixed number of ticks — the way
//! the "auto-locked (idle)" notice is surfaced and withdrawn.

use vstd::prelude::*;

verus! {

/// A permanent message and, over it, a transient one with a tick-driven
/// time to live.
#[derive(Debug)]
pub struct HotMsg {
    temp_msg: Option<String>,
    /// Ticks the transient message has left; it is withdrawn at zero.
    temp_msg_live_countdown: u8,
    always_msg: String,
}

impl HotMsg {
    /// The transient message, while one is alive.
    pub closed spec fn temp_view(&self) -> Option<Seq<char>> {
        match self.temp_msg {
            Some(m) => Some(m@),
            None => None,
        }
    }

    /// Ticks the transient message has left.
    pub closed spec fn countdown_view(&self) -> u8 {
        self.temp_msg_live_countdown
    }

    /// The permanent message.
    pub closed spec fn always_view(&self) -> Seq<char> {
        self.always_msg@
    }

    /// No messages at all.
    pub fn new() -> (r: Self)
        ensures
            r.temp_view() is None,
            r.always_view() == Seq::<char>::empty(),
    {
        HotMsg { temp_msg: None, temp_msg_live_countdown: 0, always_msg: String::new() }
    }

    /// Shows a transient message for `live_countdown` ticks; it hides the
    /// permanent one until it expires.
    pub fn set_temp_msg(&mut self, temp_msg: String, live_countdown: u8)
        ensures
            final(self).temp_view() == Some(temp_msg@),
            final(self).countdown_view() == live_countdown,
            final(self).always_view() == old(self).always_view(),
    {
        self.temp_msg = Some(temp_msg);
        self.temp_msg_live_countdown = live_countdown;
    }

    /// Replaces the permanent message.
    pub fn set_always_msg(&mut self, always_msg: String)
        ensures
            final(self).always_view() == always_msg@,
            final(self).temp_view() == old(self).temp_view(),
            final(self).countdown_view() == old(self).countdown_view(),
    {
        self.always_msg = always_msg;
    }

    /// Withdraws the transient message.
    pub fn clear_temp_msg(&mut self)
        ensures
            final(self).temp_view() is None,
            final(self).always_view() == old(self).always_view(),
    {
        self.temp_msg = None;
    }

    /// Withdraws both messages.
    pub fn clear(&mut self)
        ensures
            final(self).temp_view() is None,
            final(self).always_view() == Seq::<char>::empty(),
    {
        self.temp_msg = None;
        self.always_msg = String::new();
    }

    /// One tick: a live transient message spends one tick of its time and
    /// is withdrawn when none is left; the permanent message never expires.
    pub fn tick(&mut self)
        ensures
            final(self).always_view() == old(self).always_view(),
            old(self).temp_view() is None ==> final(self).temp_view() == old(self).temp_view()
                && final(self).countdown_view() == old(self).countdown_view(),
            (old(self).temp_view() is Some && old(self).countdown_view() > 1) ==> final(self).temp_view() == old(self).temp_view() && final(self).countdown_view() == old(self).countdown_view() - 1,
            (old(self).temp_view() is Some && old(self).countdown_view() <= 1) ==> final(self).temp_view() is None,
    {
        if self.temp_msg.is_some() {
            if self.temp_msg_live_countdown > 1 {
                self.temp_msg_live_countdown = self.temp_msg_live_countdown - 1;
            } else {
                self.temp_msg_live_countdown = 0;
                self.temp_msg = None;
            }
        }
    }

    /// The message to show right now: the transient one wins while it is
    /// alive.
    pub fn msg(&self) -> (r: &str)
        ensures
            self.temp_view() matches Some(m) ==> r@ == m,
            self.temp_view() is None ==> r@ == self.always_view(),
    {
        match &self.temp_msg {
            Some(m) => m.as_str(),
            None => self.always_msg.as_str(),
        }
    }

    /// Whether the shown message is the transient one.
    pub fn is_temp(&self) -> (r: bool)
        ensures
            r == (self.temp_view() is Some),
    {
        self.temp_msg.is_some()
    }
}

} // verus!
