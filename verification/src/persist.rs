//! The time gate for persistence.
//!
//! The bot saves its state at most once per window: a save is due
//! exactly when more than `SAVE_INTERVAL` seconds have passed since the
//! last one.  After a due save the clock is reset to the current time
//! unconditionally — whether or not the write that follows succeeds —
//! so a failed write is retried only once the next full window has
//! elapsed.

use crate::state::BotState;
use vstd::prelude::*;

verus! {

/// Seconds that must pass beyond the last save before the next one is
/// due.
pub const SAVE_INTERVAL: i64 = 64;

/// Whether a save is due at time `now`, given the time of the last save.
pub open spec fn spec_save_due(last_save: int, now: int) -> bool {
    now > last_save + SAVE_INTERVAL
}

impl BotState {
    /// One persistence pass at time `now`: decide whether a save is due
    /// and, if so, reset the save clock to `now`.  The caller performs
    /// the actual write exactly when `true` comes back; the clock is
    /// reset regardless of whether that write will succeed.
    pub fn persistence_tick(&mut self, now: i64) -> (save: bool)
        ensures
            save == spec_save_due(old(self).last_save as int, now as int),
            final(self).subscribers@ == old(self).subscribers@,
            save ==> final(self).last_save == now,
            !save ==> final(self).last_save == old(self).last_save,
            final(self).last_save >= old(self).last_save,
    {
        let due = (now as i128) > (self.last_save as i128) + (SAVE_INTERVAL as i128);
        if due {
            self.last_save = now;
        }
        due
    }
}

/// Relies on `chrono::Utc::now` and `chrono::DateTime::timestamp`: the
/// current time by the system clock, as whole seconds since the Unix
/// epoch.
#[verifier::external_body]
fn now_timestamp() -> i64 {
    chrono::Utc::now().timestamp()
}

impl BotState {
    /// One persistence pass against the system clock.  Returns the save
    /// decision together with the timestamp it was made at; whatever
    /// time the clock reports, the decision and the clock reset follow
    /// `spec_save_due` exactly.
    pub fn persistence_pass(&mut self) -> (r: (bool, i64))
        ensures
            r.0 == spec_save_due(old(self).last_save as int, r.1 as int),
            final(self).subscribers@ == old(self).subscribers@,
            r.0 ==> final(self).last_save == r.1,
            !r.0 ==> final(self).last_save == old(self).last_save,
            final(self).last_save >= old(self).last_save,
    {
        let now = now_timestamp();
        let save = self.persistence_tick(now);
        (save, now)
    }
}

/// Within one window nothing more is saved: once a save has run at
/// `now1`, a second pass at any `now2` at most `SAVE_INTERVAL` seconds
/// later is not due.
pub proof fn lemma_no_save_within_window(last_save: int, now1: int, now2: int)
    requires
        spec_save_due(last_save, now1),
        now2 <= now1 + SAVE_INTERVAL,
    ensures
        !spec_save_due(now1, now2),
{
}

} // verus!
