//! Watching the configuration file: which of the changes that the file
//! system reports are passed on.

use vstd::prelude::*;

verus! {

/// What the watcher tells the program.
#[derive(Debug, Clone, Copy, PartialEq, Eq, Structural)]
pub enum UserEvent {
    ConfigChanged,
}

/// The time that has to pass after a change was passed on before the next
/// one is, in milliseconds.
pub const DEBOUNCE_MILLIS: u64 = 100;

/// The watcher of the configuration file. It remembers when it last passed
/// a change on, in milliseconds on a clock that never runs backwards.
#[derive(Debug, PartialEq, Eq)]
pub struct ConfigWatcher {
    last_event: u64,
}

/// Whether a report is passed on: it reports a modification, and more than
/// the debounce time has passed since the last one that was passed on.
pub open spec fn passes(last_event: u64, is_modify: bool, now: u64) -> bool {
    is_modify && now - last_event > DEBOUNCE_MILLIS
}

impl ConfigWatcher {
    /// When the watcher last passed a change on.
    pub closed spec fn last(&self) -> u64 {
        self.last_event
    }

    /// A watcher that starts to watch at the time `now`.
    pub fn new(now: u64) -> (watcher: Self)
        ensures
            watcher.last() == now,
    {
        ConfigWatcher { last_event: now }
    }

    /// Takes a report of the file system at the time `now`. A modification
    /// is passed on where more than the debounce time has passed since the
    /// last one that was; the watcher then remembers `now`. Any other report
    /// is dropped and the watcher stays as it is.
    pub fn on_event(&mut self, is_modify: bool, now: u64) -> (event: Option<UserEvent>)
        ensures
            passes(old(self).last(), is_modify, now) ==> event == Some(UserEvent::ConfigChanged)
                && final(self).last() == now,
            !passes(old(self).last(), is_modify, now) ==> event is None && final(self).last()
                == old(self).last(),
    {
        if is_modify && now > self.last_event && now - self.last_event > DEBOUNCE_MILLIS {
            self.last_event = now;
            Some(UserEvent::ConfigChanged)
        } else {
            None
        }
    }
}

} // verus!
