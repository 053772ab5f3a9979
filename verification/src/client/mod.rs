pub mod config;

use vstd::prelude::*;

use self::config::ClientConfig;
use crate::utils::argv::{is_c_compatible, is_c_string};

verus! {

/// Everything a VNC client is created with: the pixel layout asked of
/// libvncclient, and the server host (an address, as text) and port it
/// connects to.
pub struct ClientSetup {
    pub bits_per_sample: i32,
    pub samples_per_pixel: i32,
    pub bytes_per_pixel: i32,
    pub server_host: String,
    pub server_port: i32,
}

impl ClientSetup {
    /// Sets up a client with `config`'s pixel layout, for the server at
    /// `host` and `port`. `None` where `host` holds a NUL character, which no
    /// C string can.
    pub fn new(config: &ClientConfig, host: String, port: u16) -> (r: Option<ClientSetup>)
        ensures
            r is Some <==> is_c_string(host@),
            r matches Some(s) ==> {
                &&& s.bits_per_sample == config.bits_per_sample()
                &&& s.samples_per_pixel == config.samples_per_pixel()
                &&& s.bytes_per_pixel == config.bytes_per_pixel()
                &&& s.server_host@ == host@
                &&& s.server_port == port
            },
    {
        if !is_c_compatible(host.as_str()) {
            return None;
        }
        Some(ClientSetup {
            bits_per_sample: config.bits_per_sample(),
            samples_per_pixel: config.samples_per_pixel(),
            bytes_per_pixel: config.bytes_per_pixel(),
            server_host: host,
            server_port: port as i32,
        })
    }
}

/// How long, in microseconds, a client waits for a server message each time.
pub const WAIT_TIMEOUT_USEC: u32 = 500;

/// What a running client does next.
#[derive(Clone, Copy, Debug, PartialEq, Eq, Structural)]
pub enum ClientAction {
    /// Initialise the client, connecting it to its server.
    InitClient,
    /// Wait up to the given number of microseconds for a server message.
    WaitForMessage(u32),
    /// Read and handle the server message that arrived.
    HandleServerMessage,
    /// The server is gone: release the client; the session is over.
    Cleanup,
    /// Initialisation failed, and libvncclient has released the client
    /// itself: make no further call on it; the session is over.
    Stop,
}

/// What the last action of a running client came to.
#[derive(Clone, Copy, Debug, PartialEq, Eq, Structural)]
pub enum ClientEvent {
    /// Initialisation ended: 0 when it failed, anything else when it
    /// succeeded.
    Initialized(i32),
    /// Waiting ended: negative when the connection failed, 0 when no message
    /// came, positive when one is ready.
    Waited(i32),
    /// Handling ended: 0 when it failed, anything else when it succeeded.
    Handled(i32),
}

/// Where a running client stands.
#[derive(Clone, Copy, Debug, PartialEq, Eq, Structural)]
pub enum ClientPhase {
    /// Its last action was to initialise the client.
    Initializing,
    /// Its last action was a wait.
    Waiting,
    /// Its last action was to handle a message.
    Handling,
    /// The session is over.
    Closed,
}

/// The actions after which a session is over.
pub open spec fn is_final_action(action: ClientAction) -> bool {
    action == ClientAction::Cleanup || action == ClientAction::Stop
}

/// An event fits a phase when it reports the result of the phase's action.
pub open spec fn event_fits(phase: ClientPhase, event: ClientEvent) -> bool {
    match (phase, event) {
        (ClientPhase::Initializing, ClientEvent::Initialized(_)) => true,
        (ClientPhase::Waiting, ClientEvent::Waited(_)) => true,
        (ClientPhase::Handling, ClientEvent::Handled(_)) => true,
        _ => false,
    }
}

/// The phase and action that follow `event` in `phase`: a failed
/// initialisation stops the session with no further call; a successful one
/// leads to the first wait; a failed wait or a failed handling cleans up and
/// closes the session; a wait with no message waits again; a wait with a
/// message handles it; a handled message leads to the next wait.
pub open spec fn next_step(phase: ClientPhase, event: ClientEvent) -> (ClientPhase, ClientAction) {
    match event {
        ClientEvent::Initialized(ok) => if ok == 0 {
            (ClientPhase::Closed, ClientAction::Stop)
        } else {
            (ClientPhase::Waiting, ClientAction::WaitForMessage(WAIT_TIMEOUT_USEC))
        },
        ClientEvent::Waited(msg) => if msg < 0 {
            (ClientPhase::Closed, ClientAction::Cleanup)
        } else if msg == 0 {
            (ClientPhase::Waiting, ClientAction::WaitForMessage(WAIT_TIMEOUT_USEC))
        } else {
            (ClientPhase::Handling, ClientAction::HandleServerMessage)
        },
        ClientEvent::Handled(ok) => if ok == 0 {
            (ClientPhase::Closed, ClientAction::Cleanup)
        } else {
            (ClientPhase::Waiting, ClientAction::WaitForMessage(WAIT_TIMEOUT_USEC))
        },
    }
}

/// The phase a session in `phase` reaches after `events`, and the actions it
/// gives on the way, one per event.
pub open spec fn run_events(phase: ClientPhase, events: Seq<ClientEvent>) -> (ClientPhase, Seq<ClientAction>)
    decreases events.len(),
{
    if events.len() == 0 {
        (phase, Seq::empty())
    } else {
        let (next, action) = next_step(phase, events[0]);
        let (last, rest) = run_events(next, events.drop_first());
        (last, seq![action] + rest)
    }
}

/// Each of `events` reports the result of the action before it, starting
/// from `phase`.
pub open spec fn events_fit(phase: ClientPhase, events: Seq<ClientEvent>) -> bool
    decreases events.len(),
{
    events.len() == 0 || (event_fits(phase, events[0]) && events_fit(
        next_step(phase, events[0]).0,
        events.drop_first(),
    ))
}

/// A session ends at most once, with its very last action: along any run of
/// events that fit, no action but the last is `Cleanup` or `Stop`, the last
/// is one of them exactly when the session ends closed, and a closed session
/// takes no further event. `Stop` answers a failed initialisation and
/// nothing else, so after a failed initialisation no call is made on the
/// client at all, not even a cleanup.
pub proof fn session_ends_once(phase: ClientPhase, events: Seq<ClientEvent>)
    requires
        events_fit(phase, events),
    ensures
        ({
            let (last, actions) = run_events(phase, events);
            &&& actions.len() == events.len()
            &&& forall|i: int| 0 <= i < actions.len() - 1 ==> !is_final_action(#[trigger] actions[i])
            &&& events.len() > 0 ==> (is_final_action(actions.last()) <==> last == ClientPhase::Closed)
            &&& phase == ClientPhase::Closed ==> events.len() == 0
            &&& forall|i: int| #![trigger actions[i]] 0 <= i < actions.len() ==>
                (actions[i] == ClientAction::Stop <==> events[i] == ClientEvent::Initialized(0))
            &&& events.len() > 0 && events[0] == ClientEvent::Initialized(0) ==> events.len() == 1
                && actions == seq![ClientAction::Stop]
        }),
    decreases events.len(),
{
    if events.len() > 0 {
        let (next, action) = next_step(phase, events[0]);
        let rest = events.drop_first();
        session_ends_once(next, rest);
        let tail = run_events(next, rest).1;
        let actions = run_events(phase, events).1;
        assert(actions == seq![action] + tail);
        assert forall|i: int| 0 <= i < actions.len() - 1 implies !is_final_action(#[trigger] actions[i]) by {
            if i > 0 {
                assert(actions[i] == tail[i - 1]);
            } else {
                // A final action closes the session, and a closed session
                // takes no further event.
                assert(rest.len() > 0);
            }
        }
        assert forall|i: int| #![trigger actions[i]] 0 <= i < actions.len() implies (actions[i]
            == ClientAction::Stop <==> events[i] == ClientEvent::Initialized(0)) by {
            if i > 0 {
                assert(actions[i] == tail[i - 1]);
                assert(events[i] == rest[i - 1]);
            }
        }
        if rest.len() > 0 {
            assert(actions.last() == tail.last());
        }
    }
}

/// How a session answers each result: a failed initialisation stops it with
/// no further call; a successful one, a wait that brought no message, and a
/// handled message all lead to another wait of `WAIT_TIMEOUT_USEC`
/// microseconds; a wait that brought a message leads to handling it; and a
/// failed wait or failed handling leads to cleaning up. Only a stop or a
/// cleanup ends the session.
pub proof fn session_reacts_to_results(phase: ClientPhase, event: ClientEvent)
    requires
        event_fits(phase, event),
    ensures
        ({
            let (next, action) = next_step(phase, event);
            &&& (action == ClientAction::Stop) <==> (event == ClientEvent::Initialized(0))
            &&& (action == ClientAction::Cleanup) <==> (event == ClientEvent::Handled(0) || (
            exists|m: i32| m < 0 && event == ClientEvent::Waited(m)))
            &&& (action == ClientAction::HandleServerMessage) <==> (exists|m: i32|
                m > 0 && event == ClientEvent::Waited(m))
            &&& (action == ClientAction::WaitForMessage(500)) <==> (event == ClientEvent::Waited(0)
                || (exists|ok: i32| ok != 0 && event == ClientEvent::Initialized(ok))
                || (exists|ok: i32| ok != 0 && event == ClientEvent::Handled(ok)))
            &&& action != ClientAction::InitClient
            &&& (next == ClientPhase::Closed) <==> (action == ClientAction::Stop || action
                == ClientAction::Cleanup)
            &&& next == ClientPhase::Handling <==> action == ClientAction::HandleServerMessage
        }),
{
    match event {
        ClientEvent::Initialized(ok) => {
            assert(ok != 0 ==> event == ClientEvent::Initialized(ok));
        },
        ClientEvent::Waited(m) => {
            assert(event == ClientEvent::Waited(m));
        },
        ClientEvent::Handled(ok) => {
            assert(event == ClientEvent::Handled(ok));
        },
    }
}

/// The decisions of a client's run: it initialises the client, stopping at
/// once if that fails; then it waits for server messages, handles each that
/// arrives, and cleans up once waiting or handling fails.
pub struct ClientSession {
    phase: ClientPhase,
}

impl ClientSession {
    /// Where the session stands.
    pub closed spec fn phase(&self) -> ClientPhase {
        self.phase
    }

    /// Starts a session: its first action is to initialise the client.
    pub fn start() -> (r: (ClientSession, ClientAction))
        ensures
            r.0.phase() == ClientPhase::Initializing,
            r.1 == ClientAction::InitClient,
    {
        (ClientSession { phase: ClientPhase::Initializing }, ClientAction::InitClient)
    }

    /// Tells whether the session is over.
    pub fn is_closed(&self) -> (r: bool)
        ensures
            r == (self.phase() == ClientPhase::Closed),
    {
        match self.phase {
            ClientPhase::Closed => true,
            _ => false,
        }
    }

    /// Takes the result of the last action and gives the next one.
    pub fn step(&mut self, event: ClientEvent) -> (r: ClientAction)
        requires
            event_fits(old(self).phase(), event),
        ensures
            (final(self).phase(), r) == next_step(old(self).phase(), event),
    {
        let (phase, action) = match event {
            ClientEvent::Initialized(ok) => if ok == 0 {
                (ClientPhase::Closed, ClientAction::Stop)
            } else {
                (ClientPhase::Waiting, ClientAction::WaitForMessage(WAIT_TIMEOUT_USEC))
            },
            ClientEvent::Waited(msg) => if msg < 0 {
                (ClientPhase::Closed, ClientAction::Cleanup)
            } else if msg == 0 {
                (ClientPhase::Waiting, ClientAction::WaitForMessage(WAIT_TIMEOUT_USEC))
            } else {
                (ClientPhase::Handling, ClientAction::HandleServerMessage)
            },
            ClientEvent::Handled(ok) => if ok == 0 {
                (ClientPhase::Closed, ClientAction::Cleanup)
            } else {
                (ClientPhase::Waiting, ClientAction::WaitForMessage(WAIT_TIMEOUT_USEC))
            },
        };
        self.phase = phase;
        action
    }
}

} // verus!
