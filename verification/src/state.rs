//! Symmetrical peer control state machine.
use vstd::prelude::*;

verus! {

/// Symmetrical peer control state
#[derive(Debug, Clone, PartialEq, Eq)]
pub enum SessionState {
    /// Local user is using local peripherals on the local desktop.
    LocalActive,
    /// Local user has moved the pointer beyond the boundary and controls a remote machine.
    ControllingRemote { target_peer_id: String },
    /// This machine receives synthetic inputs from a remote master.
    RemoteControlled { controller_peer_id: String },
}

impl Default for SessionState {
    fn default() -> (r: Self)
        ensures
            r@ == SessionView::LocalActive,
    {
        SessionState::LocalActive
    }
}

/// Action to execute on state transition
#[derive(Debug, Clone, PartialEq, Eq)]
pub enum StateAction {
    /// Nothing to do
    NoAction,
    /// Hide local cursor and start suppressing local input
    TrapAndSuppressLocal,
    /// Unhide local cursor and resume normal local event delivery
    ReleaseAndUnhideLocal,
    /// Send PreemptTakeover packet to controller peer
    NotifyPreempt { peer_id: String },
    /// Send EnterScreen to target peer
    NotifyEnter { peer_id: String },
    /// Send LeaveScreen to target peer
    NotifyLeave { peer_id: String },
}

/// Abstract view of a session state: peer ids are taken as character sequences.
pub enum SessionView {
    LocalActive,
    ControllingRemote(Seq<char>),
    RemoteControlled(Seq<char>),
}

impl View for SessionState {
    type V = SessionView;

    open spec fn view(&self) -> SessionView {
        match self {
            SessionState::LocalActive => SessionView::LocalActive,
            SessionState::ControllingRemote { target_peer_id } => SessionView::ControllingRemote(target_peer_id@),
            SessionState::RemoteControlled { controller_peer_id } => SessionView::RemoteControlled(controller_peer_id@),
        }
    }
}

/// Abstract view of an action.
pub enum ActionView {
    NoAction,
    TrapAndSuppressLocal,
    ReleaseAndUnhideLocal,
    NotifyPreempt(Seq<char>),
    NotifyEnter(Seq<char>),
    NotifyLeave(Seq<char>),
}

impl View for StateAction {
    type V = ActionView;

    open spec fn view(&self) -> ActionView {
        match self {
            StateAction::NoAction => ActionView::NoAction,
            StateAction::TrapAndSuppressLocal => ActionView::TrapAndSuppressLocal,
            StateAction::ReleaseAndUnhideLocal => ActionView::ReleaseAndUnhideLocal,
            StateAction::NotifyPreempt { peer_id } => ActionView::NotifyPreempt(peer_id@),
            StateAction::NotifyEnter { peer_id } => ActionView::NotifyEnter(peer_id@),
            StateAction::NotifyLeave { peer_id } => ActionView::NotifyLeave(peer_id@),
        }
    }
}

/// The state reached by `return_to_local` from `s`, and the action it answers.
pub open spec fn return_to_local_step(s: SessionView) -> (SessionView, ActionView) {
    match s {
        SessionView::ControllingRemote(_) => (SessionView::LocalActive, ActionView::ReleaseAndUnhideLocal),
        SessionView::RemoteControlled(_) => (SessionView::LocalActive, ActionView::NoAction),
        SessionView::LocalActive => (SessionView::LocalActive, ActionView::NoAction),
    }
}

/// The state reached when local physical input is seen in state `s`, and the action it answers.
pub open spec fn physical_input_step(s: SessionView) -> (SessionView, ActionView) {
    match s {
        SessionView::RemoteControlled(peer) => (SessionView::LocalActive, ActionView::NotifyPreempt(peer)),
        _ => (s, ActionView::NoAction),
    }
}

/// Session state coordinator
#[derive(Debug)]
pub struct StateManager {
    current_state: SessionState,
}

impl View for StateManager {
    type V = SessionView;

    closed spec fn view(&self) -> SessionView {
        self.current_state@
    }
}

impl Default for StateManager {
    fn default() -> (r: Self)
        ensures
            r@ == SessionView::LocalActive,
    {
        StateManager { current_state: SessionState::default() }
    }
}

impl StateManager {
    pub fn new() -> (r: Self)
        ensures
            r@ == SessionView::LocalActive,
    {
        StateManager { current_state: SessionState::LocalActive }
    }

    pub fn state(&self) -> (r: &SessionState)
        ensures
            r@ == self@,
    {
        &self.current_state
    }

    pub fn is_local_active(&self) -> (r: bool)
        ensures
            r <==> self@ is LocalActive,
    {
        matches!(self.current_state, SessionState::LocalActive)
    }

    pub fn is_controlling_remote(&self) -> (r: bool)
        ensures
            r <==> self@ is ControllingRemote,
    {
        matches!(self.current_state, SessionState::ControllingRemote { .. })
    }

    pub fn is_remote_controlled(&self) -> (r: bool)
        ensures
            r <==> self@ is RemoteControlled,
    {
        matches!(self.current_state, SessionState::RemoteControlled { .. })
    }

    /// Transition to controlling a remote peer
    pub fn start_controlling_remote(&mut self, target_peer_id: String) -> (r: StateAction)
        ensures
            final(self)@ == SessionView::ControllingRemote(target_peer_id@),
            r@ == ActionView::TrapAndSuppressLocal,
    {
        self.current_state = SessionState::ControllingRemote { target_peer_id: target_peer_id.clone() };
        StateAction::TrapAndSuppressLocal
    }

    /// Return from controlling remote peer back to local control
    pub fn return_to_local(&mut self) -> (r: StateAction)
        ensures
            (final(self)@, r@) == return_to_local_step(old(self)@),
    {
        match &self.current_state {
            SessionState::ControllingRemote { .. } => {
                self.current_state = SessionState::LocalActive;
                StateAction::ReleaseAndUnhideLocal
            },
            SessionState::RemoteControlled { .. } => {
                self.current_state = SessionState::LocalActive;
                StateAction::NoAction
            },
            SessionState::LocalActive => StateAction::NoAction,
        }
    }

    /// Set state to being controlled by a remote peer
    pub fn enter_remote_controlled(&mut self, controller_peer_id: String) -> (r: StateAction)
        ensures
            final(self)@ == SessionView::RemoteControlled(controller_peer_id@),
            r@ == ActionView::NoAction,
    {
        self.current_state = SessionState::RemoteControlled { controller_peer_id };
        StateAction::NoAction
    }

    /// User physically touched mouse/keyboard while being remotely controlled
    pub fn handle_physical_input_detected(&mut self) -> (r: StateAction)
        ensures
            (final(self)@, r@) == physical_input_step(old(self)@),
    {
        if let SessionState::RemoteControlled { controller_peer_id } = &self.current_state {
            let peer = controller_peer_id.clone();
            self.current_state = SessionState::LocalActive;
            StateAction::NotifyPreempt { peer_id: peer }
        } else {
            StateAction::NoAction
        }
    }
}

/// Whatever the state, returning to local control leaves the local user active; leaving
/// control of a peer releases and unhides the local cursor, and nothing else does.
/// Local input seen while a peer controls this machine hands control back to the local
/// user and names that peer to be notified; in any other state it changes nothing.
pub proof fn lemma_session_transitions(s: SessionView)
    ensures
        return_to_local_step(s).0 == SessionView::LocalActive,
        (return_to_local_step(s).1 == ActionView::ReleaseAndUnhideLocal) <==> s is ControllingRemote,
        s matches SessionView::RemoteControlled(p) ==> physical_input_step(s) == (SessionView::LocalActive, ActionView::NotifyPreempt(p)),
        !(s is RemoteControlled) ==> physical_input_step(s) == (s, ActionView::NoAction),
        physical_input_step(physical_input_step(s).0).1 == ActionView::NoAction,
{
}

} // verus!
