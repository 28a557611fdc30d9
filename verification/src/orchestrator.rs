//! The access-control orchestrator: the single consumer of the event bus
//! and the door state machine.
//!
//! The orchestrator alone owns the door: its state lives in a private
//! field, every transition goes through [`Orchestrator::step`] or
//! [`Orchestrator::dwell_expired`], and door actuation reaches the
//! physical line only through the [`Action`] values those steps hand back.
//! A grant unlocks the door and starts the dwell timer; a grant arriving
//! while the door is already unlocked restarts the dwell (the chosen
//! policy, since at most one timer is ever outstanding). Expiry of the
//! dwell relocks the door. Speech is an independent concurrent effect:
//! speak requests pass through in any door state. A firmware buffer is
//! handed to the external apply collaborator; only a successful apply
//! reboots the process, a failed one leaves every part of the state — the
//! door above all — untouched.

use crate::auth::{contains_token, dec_digits, AuthService};
use crate::bus::EventBus;
use crate::common::SystemMessage;
use vstd::prelude::*;

verus! {

/// Milliseconds the door stays unlocked after a grant before the dwell
/// timer expires and it relocks.
pub const DWELL_TIME_MS: u64 = 5000;

/// The door: locked initially, unlocked only for the dwell interval
/// following a grant.
#[derive(Clone, Copy, PartialEq, Eq, Structural, Debug)]
pub enum DoorState {
    Locked,
    Unlocked,
}

/// One effect for the surrounding tasks to perform, in order.
#[derive(Debug)]
pub enum Action {
    /// Hand the text to the speech service.
    SpeakText(String),
    /// Run the authorization check for the card code.
    Authorize(u32),
    /// Drive the door actuator line to open.
    SetDoorUnlocked,
    /// Drive the door actuator line to closed.
    SetDoorLocked,
    /// (Re)start the dwell timer for [`DWELL_TIME_MS`]; its expiry must
    /// be reported through [`Orchestrator::dwell_expired`].
    StartDwellTimer,
    /// Start the control-surface server.
    StartServer,
    /// Hand the firmware image to the external apply collaborator; its
    /// outcome must be reported through [`Orchestrator::firmware_result`].
    ApplyFirmware(Vec<u8>),
    /// Terminate and restart the whole process.
    Reboot,
}

/// The spoken line for a granted card.
pub open spec fn grant_text(name: Seq<char>) -> Seq<char> {
    "Access granted "@ + name + "."@
}

/// The spoken line for a denied card code.
pub open spec fn denial_text(code: nat) -> Seq<char> {
    "Access denied "@ + crate::auth::dec_digits(code) + "."@
}

/// The consumer state machine over the event bus.
pub struct Orchestrator {
    door: DoorState,
    dwell_pending: bool,
    server_started: bool,
}

/// What one orchestrator step does: how the state after (`post`) follows
/// from the state before (`pre`) and the consumed message, and which
/// effects come back, in order. Only a grant changes the door — to
/// unlocked, with the dwell timer (re)started.
pub open spec fn step_post(
    pre: Orchestrator,
    post: Orchestrator,
    msg: SystemMessage,
    actions: Seq<Action>,
) -> bool {
    &&& post.server_started() == (pre.server_started() || msg is WifiConnected)
    &&& (msg matches SystemMessage::OnAuth(_, _, granted) && granted) ==> {
        &&& post.door() == DoorState::Unlocked
        &&& post.dwell_pending()
    }
    &&& !(msg matches SystemMessage::OnAuth(_, _, granted) && granted) ==> {
        &&& post.door() == pre.door()
        &&& post.dwell_pending() == pre.dwell_pending()
    }
    &&& (msg matches SystemMessage::Speak(text) ==> actions.len() == 1
        && (actions[0] matches Action::SpeakText(t) && t@ == text@))
    &&& (msg is WifiConnected ==> actions.len() == 2
        && (actions[0] is StartServer)
        && (actions[1] matches Action::SpeakText(t) && t@ == "Connected"@))
    &&& (msg matches SystemMessage::OnCard(code) ==> actions.len() == 1
        && (actions[0] matches Action::Authorize(c) && c == code))
    &&& (msg matches SystemMessage::OnAuth(code, name, granted) ==> {
        &&& granted ==> {
            &&& actions.len() == 3
            &&& (actions[0] matches Action::SpeakText(t) && t@ == grant_text(name@))
            &&& actions[1] is SetDoorUnlocked
            &&& actions[2] is StartDwellTimer
        }
        &&& !granted ==> {
            &&& actions.len() == 1
            &&& (actions[0] matches Action::SpeakText(t) && t@ == denial_text(code as nat))
        }
    })
    &&& (msg matches SystemMessage::OnOtaBuffer(bytes) ==> actions.len() == 1
        && (actions[0] matches Action::ApplyFirmware(b) && b@ == bytes@))
}

impl Orchestrator {
    /// The door state, mutated by no one else.
    pub closed spec fn door(&self) -> DoorState {
        self.door
    }

    /// Whether a dwell timer is outstanding.
    pub closed spec fn dwell_pending(&self) -> bool {
        self.dwell_pending
    }

    /// Whether the control-surface server was started.
    pub closed spec fn server_started(&self) -> bool {
        self.server_started
    }

    /// The current door state, for observers; only the orchestrator's own
    /// steps ever change it.
    pub fn door_state(&self) -> (d: DoorState)
        ensures
            d == self.door(),
    {
        self.door
    }

    /// Whether a dwell timer is outstanding, for the timer's host: only
    /// then may its expiry be reported.
    pub fn is_dwell_pending(&self) -> (b: bool)
        ensures
            b == self.dwell_pending(),
    {
        self.dwell_pending
    }

    /// The initial state: door locked, no timer, no server.
    pub fn new() -> (o: Orchestrator)
        ensures
            o.door() == DoorState::Locked,
            !o.dwell_pending(),
            !o.server_started(),
    {
        Orchestrator { door: DoorState::Locked, dwell_pending: false, server_started: false }
    }

    /// Consumes one bus message and yields the effects to perform, in
    /// order. Only a grant changes the door — to unlocked, with the dwell
    /// timer (re)started.
    pub fn step(&mut self, msg: SystemMessage) -> (actions: Vec<Action>)
        ensures
            step_post(*old(self), *final(self), msg, actions@),
    {
        match msg {
            SystemMessage::Speak(text) => {
                let mut actions: Vec<Action> = Vec::new();
                actions.push(Action::SpeakText(text));
                actions
            },
            SystemMessage::WifiConnected => {
                self.server_started = true;
                let mut actions: Vec<Action> = Vec::new();
                actions.push(Action::StartServer);
                actions.push(Action::SpeakText("Connected".to_owned()));
                actions
            },
            SystemMessage::OnCard(code) => {
                let mut actions: Vec<Action> = Vec::new();
                actions.push(Action::Authorize(code));
                actions
            },
            SystemMessage::OnAuth(code, name, granted) => {
                let mut actions: Vec<Action> = Vec::new();
                if granted {
                    let mut line = "Access granted ".to_owned();
                    line.append(name.as_str());
                    line.append(".");
                    actions.push(Action::SpeakText(line));
                    actions.push(Action::SetDoorUnlocked);
                    actions.push(Action::StartDwellTimer);
                    self.door = DoorState::Unlocked;
                    self.dwell_pending = true;
                } else {
                    let code_text = crate::auth::decimal_string(code);
                    let mut line = "Access denied ".to_owned();
                    line.append(code_text.as_str());
                    line.append(".");
                    actions.push(Action::SpeakText(line));
                }
                actions
            },
            SystemMessage::OnOtaBuffer(bytes) => {
                let mut actions: Vec<Action> = Vec::new();
                actions.push(Action::ApplyFirmware(bytes));
                actions
            },
        }
    }

    /// Reports expiry of the outstanding dwell timer: the door relocks.
    pub fn dwell_expired(&mut self) -> (actions: Vec<Action>)
        requires
            old(self).dwell_pending(),
        ensures
            final(self).door() == DoorState::Locked,
            !final(self).dwell_pending(),
            final(self).server_started() == old(self).server_started(),
            actions@.len() == 1 && (actions@[0] is SetDoorLocked),
    {
        self.door = DoorState::Locked;
        self.dwell_pending = false;
        let mut actions: Vec<Action> = Vec::new();
        actions.push(Action::SetDoorLocked);
        actions
    }

    /// Reports the outcome of the external firmware apply: success reboots
    /// the process, failure changes nothing and later events keep being
    /// processed.
    pub fn firmware_result(&mut self, ok: bool) -> (actions: Vec<Action>)
        ensures
            *final(self) == *old(self),
            ok ==> actions@.len() == 1 && (actions@[0] is Reboot),
            !ok ==> actions@.len() == 0,
    {
        let actions: Vec<Action> = if ok {
            let mut v: Vec<Action> = Vec::new();
            v.push(Action::Reboot);
            v
        } else {
            Vec::new()
        };
        actions
    }
}


/// One turn of the consumer loop: takes the oldest bus message, steps the
/// orchestrator, and — when the message is a card scan — runs the local
/// authorization check at once, whose `OnAuth` outcome goes back onto the
/// bus for the next turn. Every other message's effects come back for the
/// surrounding tasks to perform, in order. An idle bus changes nothing.
pub fn process_next(orch: &mut Orchestrator, auth: &AuthService, bus: &mut EventBus) -> (out:
    Vec<Action>)
    requires
        old(bus).wf(),
    ensures
        final(bus).wf(),
        final(bus).capacity() == old(bus).capacity(),
        old(bus).pending().len() == 0 ==> {
            &&& *final(bus) == *old(bus)
            &&& *final(orch) == *old(orch)
            &&& out@.len() == 0
        },
        old(bus).pending().len() > 0 ==> ({
            let msg = old(bus).pending()[0];
            &&& (msg matches SystemMessage::OnCard(code) ==> {
                // The check ran: its outcome is the newest bus message and
                // nothing else changed.
                &&& out@.len() == 0
                &&& final(orch).door() == old(orch).door()
                &&& final(orch).dwell_pending() == old(orch).dwell_pending()
                &&& final(orch).server_started() == old(orch).server_started()
                &&& final(bus).pending().len() == old(bus).pending().len()
                &&& final(bus).pending().take(old(bus).pending().len() - 1) =~= old(
                    bus,
                ).pending().drop_first()
                &&& ({
                    let m = final(bus).pending().last();
                    &&& m matches SystemMessage::OnAuth(c, name, g)
                    &&& c == code
                    &&& g == contains_token(auth.allow_list(), dec_digits(code as nat))
                    &&& g ==> name@ == dec_digits(code as nat)
                    &&& !g ==> name@ == Seq::<char>::empty()
                })
            })
            &&& (!(msg is OnCard) ==> {
                &&& step_post(*old(orch), *final(orch), msg, out@)
                &&& final(bus).pending() =~= old(bus).pending().drop_first()
            })
        }),
{
    let msg = match bus.recv() {
        Some(msg) => msg,
        None => {
            return Vec::new();
        },
    };
    let card = match &msg {
        SystemMessage::OnCard(code) => Some(*code),
        _ => None,
    };
    let actions = orch.step(msg);
    match card {
        Some(code) => {
            // The receive above freed a slot, so the outcome always fits.
            let _ = auth.check_local(code, bus);
            Vec::new()
        },
        None => actions,
    }
}

} // verus!
