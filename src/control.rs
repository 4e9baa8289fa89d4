use vstd::prelude::*;

verus! {

/// The states of the control loop.
#[derive(Debug, Clone, Copy, PartialEq, Eq, Structural)]
pub enum States {
    EstablishConnection,
    ReadClientMessages,
    HandleDeviceInput,
    PruneConnections,
    InitialiseDevice,
}

/// The state that follows `from`, given whether any client is connected and
/// whether the device is still connected.
pub open spec fn transition(from: States, has_clients: bool, device_ok: bool) -> States {
    match from {
        States::InitialiseDevice => States::PruneConnections,
        States::PruneConnections => States::HandleDeviceInput,
        States::HandleDeviceInput => if !device_ok {
            States::InitialiseDevice
        } else if has_clients {
            States::ReadClientMessages
        } else {
            States::EstablishConnection
        },
        States::EstablishConnection => if has_clients {
            States::ReadClientMessages
        } else {
            States::HandleDeviceInput
        },
        States::ReadClientMessages => States::PruneConnections,
    }
}

/// One row of the transition table: from `from`, under the condition on
/// clients and device, the loop goes to `to`.
pub open spec fn table_row(from: States, has_clients: bool, device_ok: bool, to: States) -> bool {
    ||| from == States::InitialiseDevice && to == States::PruneConnections
    ||| from == States::PruneConnections && to == States::HandleDeviceInput
    ||| from == States::HandleDeviceInput && !device_ok && to == States::InitialiseDevice
    ||| from == States::HandleDeviceInput && device_ok && has_clients && to == States::ReadClientMessages
    ||| from == States::HandleDeviceInput && device_ok && !has_clients && to == States::EstablishConnection
    ||| from == States::EstablishConnection && has_clients && to == States::ReadClientMessages
    ||| from == States::EstablishConnection && !has_clients && to == States::HandleDeviceInput
    ||| from == States::ReadClientMessages && to == States::PruneConnections
}

/// The transition table is total and deterministic: for every state and
/// every combination of the two conditions exactly one row applies, and it
/// leads where the state machine goes.
pub proof fn lemma_transition_table_total(from: States, has_clients: bool, device_ok: bool)
    ensures
        table_row(from, has_clients, device_ok, transition(from, has_clients, device_ok)),
        forall|to: States| table_row(from, has_clients, device_ok, to) ==> to == transition(from, has_clients, device_ok),
{
}

/// The control loop's state.
pub struct StateMachine {
    pub current_state: States,
}

impl StateMachine {
    /// A machine in its initial state, which initialises the device.
    pub fn new() -> (r: Self)
        ensures
            r.current_state == States::InitialiseDevice,
    {
        Self { current_state: States::InitialiseDevice }
    }

    /// Moves to the next state given the number of connected clients and
    /// whether the device is still connected.
    pub fn next_state(&mut self, current_connections: u8, device_is_connected: bool)
        ensures
            final(self).current_state == transition(
                old(self).current_state,
                current_connections > 0,
                device_is_connected,
            ),
    {
        match self.current_state {
            States::InitialiseDevice => {
                self.current_state = States::PruneConnections;
            },
            States::EstablishConnection => {
                if current_connections > 0 {
                    self.current_state = States::ReadClientMessages;
                } else {
                    self.current_state = States::HandleDeviceInput;
                }
            },
            States::HandleDeviceInput => {
                if !device_is_connected {
                    self.current_state = States::InitialiseDevice;
                } else if current_connections > 0 {
                    self.current_state = States::ReadClientMessages;
                } else {
                    self.current_state = States::EstablishConnection;
                }
            },
            States::ReadClientMessages => {
                self.current_state = States::PruneConnections;
            },
            States::PruneConnections => {
                self.current_state = States::HandleDeviceInput;
            },
        }
    }

    /// The state the machine is in.
    pub fn current_state(&self) -> (r: States)
        ensures
            r == self.current_state,
    {
        self.current_state
    }
}

} // verus!
