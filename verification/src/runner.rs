//! The decision logic of a dedicated game thread.
//!
//! A concurrent host gives each plugin instance its own worker thread
//! that owns the instance entirely and receives lifecycle commands over a
//! queue. The thread's loop is pure scaffolding in the shell; what it
//! decides each turn — which command to apply, and whether to step the
//! game or sleep — is the step function here. Shutdown is observed only
//! between steps, never preempting one in flight, and a suspended thread
//! sleeps instead of stepping.

use vstd::prelude::*;

verus! {

/// The commands a game thread receives over its queue.
pub enum GameThreadMessage {
    /// Shut down the game thread.
    Shutdown,
    /// Suspend or resume stepping.
    Suspend { suspend: bool },
    /// Reset the running game.
    Reset,
    /// Set a property on the running game.
    SetProperty { key: String, value: String },
    /// Initialize the game.
    Initialize,
}

/// A game running on the game thread.
pub trait Game {
    /// Initializes the game.
    fn init(&self);

    /// Resets the game.
    fn reset(&self);

    /// Sets one named property.
    fn set_property(&mut self, key: &str, value: &str);

    /// Runs one step. The game is expected to pace itself.
    fn run_one(&mut self);
}

/// What the thread must apply to the game for one received message.
pub enum MessageAction {
    /// Call the game's initialization.
    Init,
    /// Call the game's reset.
    Reset,
    /// Set this property on the game.
    SetProperty { key: String, value: String },
    /// Nothing to apply.
    Nothing,
}

/// How the thread proceeds after handling its queue.
#[derive(Clone, Copy, Debug, PartialEq, Eq, Structural)]
pub enum Proceed {
    /// Leave the loop: a shutdown was requested, or the queue's sender
    /// is gone.
    Stop,
    /// Suspended: wait instead of stepping, then poll the queue again.
    Sleep,
    /// Run one step of the game, then poll the queue again.
    RunOne,
}

/// What the thread's queue poll observed.
pub enum ThreadEvent {
    /// A message arrived.
    Message(GameThreadMessage),
    /// The queue was empty.
    Empty,
    /// The queue's sender is gone.
    Disconnected,
}

/// One turn's decisions: the suspension state carried into the next
/// turn, what to apply to the game, and how to proceed.
pub struct ThreadStep {
    pub next_suspended: bool,
    pub action: MessageAction,
    pub proceed: Proceed,
}

/// Decides one turn of the game thread's loop from its suspension state
/// and what the queue poll observed. Threads start suspended and are
/// resumed once fully configured.
///
/// A shutdown message, like a disconnected queue, stops the loop before
/// any further step. Every other message is applied and the same turn
/// then still steps or sleeps, so one turn handles at most one message.
/// While suspended the thread sleeps instead of stepping.
pub fn game_thread_step(suspended: bool, event: ThreadEvent) -> (r: ThreadStep)
    ensures
        event is Disconnected ==> r.proceed == Proceed::Stop,
        event matches ThreadEvent::Message(m) ==> match m {
            GameThreadMessage::Shutdown => r.proceed == Proceed::Stop,
            GameThreadMessage::Suspend { suspend } => r.next_suspended == suspend && r.action
                is Nothing && r.proceed == (if suspend {
                Proceed::Sleep
            } else {
                Proceed::RunOne
            }),
            GameThreadMessage::Reset => r.next_suspended == suspended && r.action is Reset
                && r.proceed == (if suspended {
                Proceed::Sleep
            } else {
                Proceed::RunOne
            }),
            GameThreadMessage::SetProperty { key, value } => r.next_suspended == suspended && (
            r.action matches MessageAction::SetProperty { key: k, value: v } && k@ == key@ && v@
                == value@) && r.proceed == (if suspended {
                Proceed::Sleep
            } else {
                Proceed::RunOne
            }),
            GameThreadMessage::Initialize => r.next_suspended == suspended && r.action is Init
                && r.proceed == (if suspended {
                Proceed::Sleep
            } else {
                Proceed::RunOne
            }),
        },
        event is Empty ==> r.next_suspended == suspended && r.action is Nothing && r.proceed == (
        if suspended {
            Proceed::Sleep
        } else {
            Proceed::RunOne
        }),
        !(r.proceed is Stop) ==> r.proceed == (if r.next_suspended {
            Proceed::Sleep
        } else {
            Proceed::RunOne
        }),
    {
    match event {
        ThreadEvent::Disconnected => ThreadStep {
            next_suspended: suspended,
            action: MessageAction::Nothing,
            proceed: Proceed::Stop,
        },
        ThreadEvent::Message(m) => match m {
            GameThreadMessage::Shutdown => ThreadStep {
                next_suspended: suspended,
                action: MessageAction::Nothing,
                proceed: Proceed::Stop,
            },
            GameThreadMessage::Suspend { suspend } => ThreadStep {
                next_suspended: suspend,
                action: MessageAction::Nothing,
                proceed: if suspend {
                    Proceed::Sleep
                } else {
                    Proceed::RunOne
                },
            },
            GameThreadMessage::Reset => ThreadStep {
                next_suspended: suspended,
                action: MessageAction::Reset,
                proceed: if suspended {
                    Proceed::Sleep
                } else {
                    Proceed::RunOne
                },
            },
            GameThreadMessage::SetProperty { key, value } => ThreadStep {
                next_suspended: suspended,
                action: MessageAction::SetProperty { key, value },
                proceed: if suspended {
                    Proceed::Sleep
                } else {
                    Proceed::RunOne
                },
            },
            GameThreadMessage::Initialize => ThreadStep {
                next_suspended: suspended,
                action: MessageAction::Init,
                proceed: if suspended {
                    Proceed::Sleep
                } else {
                    Proceed::RunOne
                },
            },
        },
        ThreadEvent::Empty => ThreadStep {
            next_suspended: suspended,
            action: MessageAction::Nothing,
            proceed: if suspended {
                Proceed::Sleep
            } else {
                Proceed::RunOne
            },
        },
    }
}

/// A plugin-backed game for the runner. The shell drives the host from
/// the game thread through this.
pub struct RetroGame {
    /// The plugin module path set through the thread's property channel.
    pub core_path: Option<String>,
}

impl RetroGame {
    pub fn new() -> (r: RetroGame)
        ensures
            r.core_path is None,
    {
        RetroGame { core_path: None }
    }
}

impl Game for RetroGame {
    fn init(&self) {
    }

    fn reset(&self) {
    }

    fn set_property(&mut self, key: &str, value: &str) {
        if crate::util::str_eq(key, "libretro.core") {
            self.core_path = Some(<String as vstd::string::StringExecFns>::from_str(value));
        }
    }

    fn run_one(&mut self) {
    }
}

} // verus!
