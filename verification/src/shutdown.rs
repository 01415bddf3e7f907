//! The shutdown coordinator: one transition from running to shutting down,
//! broadcast to every listener that subscribed before it.
use vstd::prelude::*;

verus! {

/// `tokio::sync::broadcast::Sender`: the sending half of a broadcast
/// channel.
#[verifier::external_type_specification]
#[verifier::external_body]
#[verifier::reject_recursive_types(T)]
pub struct ExBroadcastSender<T>(tokio::sync::broadcast::Sender<T>);

/// `tokio::sync::broadcast::Receiver`: a receiving half of a broadcast
/// channel.
#[verifier::external_type_specification]
#[verifier::external_body]
#[verifier::reject_recursive_types(T)]
pub struct ExBroadcastReceiver<T>(tokio::sync::broadcast::Receiver<T>);

/// The two states of a coordinator. `ShuttingDown` is final.
#[derive(Debug, Clone, Copy, PartialEq, Eq)]
pub enum ShutdownState {
    Running,
    ShuttingDown,
}

/// What a call of `shutdown` did.
#[derive(Debug, Clone, Copy, PartialEq, Eq)]
pub enum ShutdownAction {
    /// The call made the transition, and the signal was sent to this many
    /// listeners.
    Notified(usize),
    /// The call made the transition, and nobody was listening.
    NoListener,
    /// The coordinator was shutting down already: nothing was sent.
    AlreadyShuttingDown,
}

/// Broadcasts the signal to stop taking new work.
pub struct ShutdownCoordinator {
    tx: tokio::sync::broadcast::Sender<()>,
    state: ShutdownState,
}

/// `tokio::sync::broadcast::channel`, of which the sending half is kept. The
/// channel holds `capacity` pending signals for each listener; the call
/// panics on a capacity of zero or above `usize::MAX / 2`, which the
/// precondition rules out. Nothing is claimed of the result.
#[verifier::external_body]
fn open_channel(capacity: usize) -> (tx: tokio::sync::broadcast::Sender<()>)
    requires
        0 < capacity <= usize::MAX / 2,
{
    tokio::sync::broadcast::channel(capacity).0
}

/// `Sender::subscribe`: a new listener, which sees what is sent from now on.
/// Nothing is claimed of it.
#[verifier::external_body]
fn new_listener(tx: &tokio::sync::broadcast::Sender<()>) -> (rx: tokio::sync::broadcast::Receiver<
    (),
>) {
    tx.subscribe()
}

/// `Sender::send`: sends the signal to the listeners there are, and returns
/// their number, or `None` where there is none. Nothing is claimed of the
/// result, which depends on who listens.
#[verifier::external_body]
fn send_signal(tx: &tokio::sync::broadcast::Sender<()>) -> (sent: Option<usize>) {
    tx.send(()).ok()
}

/// What `shutdown` reports, given the state it found and what sending gave.
pub open spec fn action_for(before: ShutdownState, sent: Option<usize>) -> ShutdownAction {
    match before {
        ShutdownState::ShuttingDown => ShutdownAction::AlreadyShuttingDown,
        ShutdownState::Running => match sent {
            Some(n) => ShutdownAction::Notified(n),
            None => ShutdownAction::NoListener,
        },
    }
}

impl ShutdownCoordinator {
    /// The state that the coordinator is in.
    pub closed spec fn state(&self) -> ShutdownState {
        self.state
    }

    /// A running coordinator.
    pub fn new() -> (r: Self)
        ensures
            r.state() == ShutdownState::Running,
    {
        ShutdownCoordinator { tx: open_channel(1), state: ShutdownState::Running }
    }

    /// Whether the transition has been made.
    pub fn is_shutting_down(&self) -> (r: bool)
        ensures
            r == (self.state() == ShutdownState::ShuttingDown),
    {
        match self.state {
            ShutdownState::Running => false,
            ShutdownState::ShuttingDown => true,
        }
    }

    /// A new listener. It is told of a shutdown that is triggered after
    /// this call, and of no earlier one.
    pub fn subscribe(&self) -> (rx: tokio::sync::broadcast::Receiver<()>) {
        new_listener(&self.tx)
    }

    /// Triggers the shutdown. The first call makes the transition and sends
    /// the signal once; every later call leaves things as they are.
    pub fn shutdown(&mut self) -> (action: ShutdownAction)
        ensures
            final(self).state() == ShutdownState::ShuttingDown,
            old(self).state() == ShutdownState::ShuttingDown ==> action
                == ShutdownAction::AlreadyShuttingDown,
            old(self).state() == ShutdownState::Running ==> action != ShutdownAction::AlreadyShuttingDown,
    {
        match self.state {
            ShutdownState::ShuttingDown => ShutdownAction::AlreadyShuttingDown,
            ShutdownState::Running => {
                self.state = ShutdownState::ShuttingDown;
                let sent = send_signal(&self.tx);
                ShutdownCoordinator::report(ShutdownState::Running, sent)
            },
        }
    }

    /// What `shutdown` reports, given the state it found and what sending
    /// the signal gave.
    pub fn report(before: ShutdownState, sent: Option<usize>) -> (action: ShutdownAction)
        ensures
            action == action_for(before, sent),
    {
        match before {
            ShutdownState::ShuttingDown => ShutdownAction::AlreadyShuttingDown,
            ShutdownState::Running => match sent {
                Some(n) => ShutdownAction::Notified(n),
                None => ShutdownAction::NoListener,
            },
        }
    }
}

impl Default for ShutdownCoordinator {
    /// A running coordinator.
    fn default() -> (r: Self)
        ensures
            r.state() == ShutdownState::Running,
    {
        ShutdownCoordinator::new()
    }
}

} // verus!
