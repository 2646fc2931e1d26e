//! The lifecycle of an embedded instance.
//!
//! A host that embeds the bridge drives it with three calls: it initializes
//! the instance, starts it and stops it. The instance is in exactly one of
//! three states, and every call either makes the step that its state
//! allows or fails and leaves the state alone. The caller keeps the
//! instance behind one lock.

use crate::addr::SocketAddress;
use crate::util::WhisperError;
use vstd::prelude::*;

verus! {

/// The states of an instance. `R` is what an initialized instance holds
/// ready for the bridge (the session and the TUN device), `S` is the sender
/// of the shutdown signal of a running one.
#[derive(Debug)]
pub enum LifecycleState<R, S> {
    Uninitialized,
    Initialized { resources: R, mtu: u16, remote_addr: SocketAddress },
    Running { remote_addr: SocketAddress, shutdown: S },
}

/// What a successful start hands to the caller, who runs the bridge on it.
#[derive(Debug)]
pub struct Started<R> {
    pub resources: R,
    pub mtu: u16,
}

impl<R, S> LifecycleState<R, S> {
    /// Whether a new initialization may begin: only where there is none.
    pub open spec fn check_init(self) -> Result<(), WhisperError> {
        if self is Uninitialized {
            Ok(())
        } else {
            Err(WhisperError::AlreadyInitialized)
        }
    }

    /// The step of `init`. `connection` is what the negotiation gave: the
    /// resources and the peer's address, or the text of its error. The
    /// instance becomes initialized if it was uninitialized, the negotiation
    /// succeeded and the peer has an address; else the state stays.
    pub open spec fn init(
        self,
        connection: Result<(R, Option<SocketAddress>), String>,
        mtu: u16,
    ) -> (Self, Result<(), WhisperError>) {
        if !(self is Uninitialized) {
            (self, Err(WhisperError::AlreadyInitialized))
        } else {
            match connection {
                Err(text) => (self, Err(WhisperError::Other(text))),
                Ok((_, None)) => (self, Err(WhisperError::NoSocketAddr)),
                Ok((resources, Some(remote_addr))) => (
                    LifecycleState::Initialized { resources, mtu, remote_addr },
                    Ok(()),
                ),
            }
        }
    }

    /// The step of `start`: an initialized instance becomes a running one
    /// and gives up its resources; a running one is already started, an
    /// uninitialized one not initialized.
    pub open spec fn start(self, shutdown: S) -> (Self, Result<Started<R>, WhisperError>) {
        match self {
            LifecycleState::Running { .. } => (self, Err(WhisperError::AlreadyStarted)),
            LifecycleState::Uninitialized => (self, Err(WhisperError::NotInitialized)),
            LifecycleState::Initialized { resources, mtu, remote_addr } => (
                LifecycleState::Running { remote_addr, shutdown },
                Ok(Started { resources, mtu }),
            ),
        }
    }

    /// The step of `stop`: a running instance becomes uninitialized and
    /// gives up the sender of its shutdown signal; any other is not started.
    pub open spec fn stop(self) -> (Self, Result<S, WhisperError>) {
        match self {
            LifecycleState::Running { shutdown, .. } => (
                LifecycleState::Uninitialized,
                Ok(shutdown),
            ),
            _ => (self, Err(WhisperError::NotStarted)),
        }
    }

    /// The address of the peer, which an initialized and a running instance
    /// know.
    pub open spec fn remote_address(self) -> Result<SocketAddress, WhisperError> {
        match self {
            LifecycleState::Initialized { remote_addr, .. } => Ok(remote_addr),
            LifecycleState::Running { remote_addr, .. } => Ok(remote_addr),
            LifecycleState::Uninitialized => Err(WhisperError::NotInitialized),
        }
    }
}

/// One instance of the bridge, as an embedding host sees it.
pub struct Lifecycle<R, S> {
    state: LifecycleState<R, S>,
}

impl<R, S> View for Lifecycle<R, S> {
    type V = LifecycleState<R, S>;

    closed spec fn view(&self) -> LifecycleState<R, S> {
        self.state
    }
}

impl<R, S> Lifecycle<R, S> {
    /// An instance that is not initialized.
    pub fn new() -> (instance: Self)
        ensures
            instance@ is Uninitialized,
    {
        Self { state: LifecycleState::Uninitialized }
    }

    /// Whether the instance is initialized and not started.
    pub fn is_initialized(&self) -> (yes: bool)
        ensures
            yes == (self@ is Initialized),
    {
        match &self.state {
            LifecycleState::Initialized { .. } => true,
            _ => false,
        }
    }

    /// Whether the instance runs.
    pub fn is_running(&self) -> (yes: bool)
        ensures
            yes == (self@ is Running),
    {
        match &self.state {
            LifecycleState::Running { .. } => true,
            _ => false,
        }
    }

    /// Whether a new initialization may begin. The caller asks before it
    /// negotiates, so that an instance that is in use is not connected to a
    /// second time.
    pub fn check_init(&self) -> (res: Result<(), WhisperError>)
        ensures
            res == self@.check_init(),
    {
        match &self.state {
            LifecycleState::Uninitialized => Ok(()),
            _ => Err(WhisperError::AlreadyInitialized),
        }
    }

    /// Initializes the instance with what the negotiation gave.
    pub fn init(
        &mut self,
        connection: Result<(R, Option<SocketAddress>), String>,
        mtu: u16,
    ) -> (res: Result<(), WhisperError>)
        ensures
            (final(self)@, res) == old(self)@.init(connection, mtu),
    {
        match &self.state {
            LifecycleState::Uninitialized => {},
            _ => {
                return Err(WhisperError::AlreadyInitialized);
            },
        }
        match connection {
            Err(text) => Err(WhisperError::Other(text)),
            Ok((_, None)) => Err(WhisperError::NoSocketAddr),
            Ok((resources, Some(remote_addr))) => {
                self.state = LifecycleState::Initialized { resources, mtu, remote_addr };
                Ok(())
            },
        }
    }

    /// Starts the instance. `shutdown` is the sender of the signal that
    /// will stop it; on success the caller gets what it runs the bridge on.
    pub fn start(&mut self, shutdown: S) -> (res: Result<Started<R>, WhisperError>)
        ensures
            (final(self)@, res) == old(self)@.start(shutdown),
    {
        match &self.state {
            LifecycleState::Running { .. } => {
                return Err(WhisperError::AlreadyStarted);
            },
            LifecycleState::Uninitialized => {
                return Err(WhisperError::NotInitialized);
            },
            LifecycleState::Initialized { .. } => {},
        }
        let mut state = LifecycleState::Uninitialized;
        std::mem::swap(&mut self.state, &mut state);
        match state {
            LifecycleState::Initialized { resources, mtu, remote_addr } => {
                self.state = LifecycleState::Running { remote_addr, shutdown };
                Ok(Started { resources, mtu })
            },
            _ => vstd::pervasive::unreached(),
        }
    }

    /// Stops the instance. On success the caller gets the sender on which
    /// it sends the shutdown signal.
    pub fn stop(&mut self) -> (res: Result<S, WhisperError>)
        ensures
            (final(self)@, res) == old(self)@.stop(),
    {
        match &self.state {
            LifecycleState::Running { .. } => {},
            _ => {
                return Err(WhisperError::NotStarted);
            },
        }
        let mut state = LifecycleState::Uninitialized;
        std::mem::swap(&mut self.state, &mut state);
        match state {
            LifecycleState::Running { shutdown, .. } => Ok(shutdown),
            _ => vstd::pervasive::unreached(),
        }
    }

    /// The address of the peer of the session.
    pub fn get_remote_address(&self) -> (res: Result<SocketAddress, WhisperError>)
        ensures
            res == self@.remote_address(),
    {
        match &self.state {
            LifecycleState::Initialized { remote_addr, .. } => Ok(*remote_addr),
            LifecycleState::Running { remote_addr, .. } => Ok(*remote_addr),
            LifecycleState::Uninitialized => Err(WhisperError::NotInitialized),
        }
    }
}

/// The calls of the lifecycle shut each other out. An instance that was
/// never initialized cannot be started. After a successful `init`, and after
/// a start that followed it, another `init` fails as already initialized. An
/// instance that was not started cannot be stopped. And a call that fails
/// leaves the state as it was.
pub proof fn lemma_lifecycle_exclusivity<R, S>(
    state: LifecycleState<R, S>,
    connection: Result<(R, Option<SocketAddress>), String>,
    again: Result<(R, Option<SocketAddress>), String>,
    mtu: u16,
    shutdown: S,
)
    ensures
        state is Uninitialized ==> state.start(shutdown).1 == Err::<Started<R>, WhisperError>(
            WhisperError::NotInitialized,
        ),
        state.init(connection, mtu).1 is Ok ==> {
            let initialized = state.init(connection, mtu).0;
            &&& initialized.check_init() == Err::<(), WhisperError>(
                WhisperError::AlreadyInitialized,
            )
            &&& initialized.init(again, mtu).1 == Err::<(), WhisperError>(
                WhisperError::AlreadyInitialized,
            )
            &&& initialized.start(shutdown).0.init(again, mtu).1 == Err::<(), WhisperError>(
                WhisperError::AlreadyInitialized,
            )
        },
        !(state is Running) ==> state.stop().1 == Err::<S, WhisperError>(
            WhisperError::NotStarted,
        ),
        state.init(connection, mtu).1 is Err ==> state.init(connection, mtu).0 == state,
        state.start(shutdown).1 is Err ==> state.start(shutdown).0 == state,
        state.stop().1 is Err ==> state.stop().0 == state,
{
}

/// The way round the states: an uninitialized instance is initialized,
/// started and stopped, in this order and in no other, and is uninitialized
/// again at the end.
pub proof fn lemma_lifecycle_round<R, S>(
    state: LifecycleState<R, S>,
    resources: R,
    remote_addr: SocketAddress,
    mtu: u16,
    shutdown: S,
)
    requires
        state is Uninitialized,
    ensures
        ({
            let initialized = state.init(Ok((resources, Some(remote_addr))), mtu).0;
            let running = initialized.start(shutdown).0;
            &&& initialized == (LifecycleState::<R, S>::Initialized { resources, mtu, remote_addr })
            &&& initialized.remote_address() == Ok::<SocketAddress, WhisperError>(remote_addr)
            &&& initialized.start(shutdown).1 == Ok::<Started<R>, WhisperError>(
                Started { resources, mtu },
            )
            &&& running == (LifecycleState::<R, S>::Running { remote_addr, shutdown })
            &&& running.remote_address() == Ok::<SocketAddress, WhisperError>(remote_addr)
            &&& running.start(shutdown).1 == Err::<Started<R>, WhisperError>(
                WhisperError::AlreadyStarted,
            )
            &&& running.stop() == (LifecycleState::<R, S>::Uninitialized, Ok::<S, WhisperError>(shutdown))
        }),
{
}

} // verus!
