//! The steady-state session machine. The caller owns the serial link and
//! performs every read, write, and pause; this machine takes the outcome of
//! each read attempt and decides what to log, what to reply, and when the
//! periodic keepalive is due. Per session, the test item is sent at most
//! once: the first time an item-count frame is seen.

use vstd::prelude::*;
use crate::frame::{TEST_ITEM_ID, spec_u16_from_be, u16_from_be, is_get_item_frame, get_item_frame};

verus! {

/// How many read attempts one ping cycle makes before the keepalive is due.
pub const READS_PER_CYCLE: u8 = 5;

/// The outcome of one non-fatal read attempt: either the device had nothing
/// queued, or a whole 16-byte frame arrived.
#[derive(Clone, Copy, Debug)]
pub enum ReadOutcome {
    Nothing,
    Frame([u8; 16]),
}

/// What one read attempt means, per the inbound opcode table. The caller
/// logs it; no variant is fatal.
#[derive(Clone, Copy, Debug)]
pub enum Effect {
    NothingRead,
    Ping,
    FileSelect { player_name: [u8; 8] },
    InGameItemCount { item_count: u16 },
    SendItem { override_key: [u8; 8], item_kind: u16, target_world: u8 },
    ItemReceived,
    Unrecognized { frame: [u8; 16] },
}

/// What the caller must do after one read attempt: log the effect, write
/// the reply frame if there is one, and, when the keepalive is due, write
/// one all-zero frame after the pause.
#[derive(Clone, Copy, Debug)]
pub struct Step {
    pub effect: Effect,
    pub reply: Option<[u8; 16]>,
    pub send_keepalive: bool,
}

/// The effect is the one the opcode table assigns to the read outcome.
pub open spec fn effect_matches(outcome: ReadOutcome, effect: Effect) -> bool {
    match outcome {
        ReadOutcome::Nothing => effect is NothingRead,
        ReadOutcome::Frame(f) => {
            if f@[0] == 0x00u8 {
                effect is Ping
            } else if f@[0] == 0x01u8 {
                effect matches Effect::FileSelect { player_name }
                    && player_name@ == f@.subrange(1, 9)
            } else if f@[0] == 0x02u8 {
                effect matches Effect::InGameItemCount { item_count }
                    && item_count == spec_u16_from_be(f@[1], f@[2])
            } else if f@[0] == 0x03u8 {
                effect matches Effect::SendItem { override_key, item_kind, target_world }
                    && override_key@ == f@.subrange(1, 9)
                    && item_kind == spec_u16_from_be(f@[9], f@[10])
                    && target_world == f@[11]
            } else if f@[0] == 0x04u8 {
                effect is ItemReceived
            } else {
                effect matches Effect::Unrecognized { frame } && frame@ == f@
            }
        },
    }
}

/// The read outcome is an item-count frame: the one opcode that can
/// trigger the one-shot test item.
pub open spec fn is_item_count_outcome(outcome: ReadOutcome) -> bool {
    outcome matches ReadOutcome::Frame(f) && f@[0] == 0x02u8
}

/// One session's progress: whether the test item has been sent, and how
/// many read attempts the current ping cycle has made.
#[derive(Clone, Copy, Debug)]
pub struct Session {
    pub test_item_sent: bool,
    pub attempts: u8,
}

impl Session {
    /// A fresh session: no test item sent, a new ping cycle about to begin.
    pub fn new() -> (s: Session)
        ensures
            !s.test_item_sent,
            s.attempts == 0,
    {
        Session { test_item_sent: false, attempts: 0 }
    }

    /// Takes the outcome of one read attempt and decides what follows: the
    /// effect to log, the reply to write (the one-shot test item, exactly
    /// when an item-count frame arrives and none was sent before), and
    /// whether this attempt completes the cycle, making the keepalive due.
    pub fn on_read(&mut self, outcome: &ReadOutcome) -> (step: Step)
        ensures
            final(self).test_item_sent == (old(self).test_item_sent || is_item_count_outcome(
                *outcome,
            )),
            final(self).attempts == if old(self).attempts + 1 >= READS_PER_CYCLE {
                0u8
            } else {
                (old(self).attempts + 1) as u8
            },
            step.send_keepalive <==> old(self).attempts + 1 >= READS_PER_CYCLE,
            effect_matches(*outcome, step.effect),
            step.reply is Some <==> (is_item_count_outcome(*outcome)
                && !old(self).test_item_sent),
            step.reply matches Some(fr) ==> is_get_item_frame(fr@, TEST_ITEM_ID),
    {
        let send_keepalive = self.attempts >= READS_PER_CYCLE - 1;
        self.attempts = if send_keepalive {
            0
        } else {
            self.attempts + 1
        };
        match outcome {
            ReadOutcome::Nothing => Step { effect: Effect::NothingRead, reply: None, send_keepalive },
            ReadOutcome::Frame(f) => {
                let opcode = f[0];
                if opcode == 0x00 {
                    Step { effect: Effect::Ping, reply: None, send_keepalive }
                } else if opcode == 0x01 {
                    let player_name = [f[1], f[2], f[3], f[4], f[5], f[6], f[7], f[8]];
                    proof {
                        assert(player_name@ =~= f@.subrange(1, 9));
                    }
                    Step { effect: Effect::FileSelect { player_name }, reply: None, send_keepalive }
                } else if opcode == 0x02 {
                    let item_count = u16_from_be(f[1], f[2]);
                    let reply = if self.test_item_sent {
                        None
                    } else {
                        Some(get_item_frame(TEST_ITEM_ID))
                    };
                    self.test_item_sent = true;
                    Step { effect: Effect::InGameItemCount { item_count }, reply, send_keepalive }
                } else if opcode == 0x03 {
                    let override_key = [f[1], f[2], f[3], f[4], f[5], f[6], f[7], f[8]];
                    proof {
                        assert(override_key@ =~= f@.subrange(1, 9));
                    }
                    let item_kind = u16_from_be(f[9], f[10]);
                    let target_world = f[11];
                    Step {
                        effect: Effect::SendItem { override_key, item_kind, target_world },
                        reply: None,
                        send_keepalive,
                    }
                } else if opcode == 0x04 {
                    Step { effect: Effect::ItemReceived, reply: None, send_keepalive }
                } else {
                    Step { effect: Effect::Unrecognized { frame: *f }, reply: None, send_keepalive }
                }
            },
        }
    }
}

} // verus!
