//! The HUD's notification pacing: one queued message shows at a time,
//! each for a fixed number of frames, then the oldest is dropped.

use vstd::prelude::*;

use crate::player::Player;

verus! {

/// Frames a notification stays on screen before the next one shows.
pub const NOTIFICATION_FRAMES: u32 = 120;

#[derive(Clone, Copy, PartialEq, Eq, Structural, Debug)]
pub struct HUD {
    pub notification_timer: u32,
}

impl HUD {
    /// The display timer never runs past the expiry point.
    pub open spec fn wf(self) -> bool {
        self.notification_timer < NOTIFICATION_FRAMES - 1
    }

    pub fn new() -> (r: HUD)
        ensures
            r.notification_timer == 0,
            r.wf(),
    {
        HUD { notification_timer: 0 }
    }

    /// While a notification is queued, run its display timer; on
    /// expiry, reset the timer and pop the oldest notification, making
    /// room for the next.
    pub fn update(&mut self, player: &mut Player)
        requires
            old(self).wf(),
        ensures
            ({
                let n = old(player).notifications@.len();
                if n > 0 {
                    if old(self).notification_timer + 1 >= NOTIFICATION_FRAMES - 1 {
                        &&& final(self).notification_timer == 0
                        &&& final(player).notifications@ == old(
                            player,
                        ).notifications@.subrange(1, n as int)
                    } else {
                        &&& final(self).notification_timer == old(self).notification_timer + 1
                        &&& final(player).notifications@ == old(player).notifications@
                    }
                } else {
                    &&& *final(self) == *old(self)
                    &&& final(player).notifications@ == old(player).notifications@
                }
            }),
            *final(player) == (Player {
                notifications: final(player).notifications,
                ..*old(player)
            }),
            final(self).wf(),
    {
        if player.notifications.len() > 0 {
            self.notification_timer = self.notification_timer + 1;
            if self.notification_timer >= NOTIFICATION_FRAMES - 1 {
                self.notification_timer = 0;
                let _ = player.notifications.remove(0);
            }
        }
    }
}

} // verus!
