//! The port actor: the message protocol that accepts one configuration and
//! starts one edge detector.

use vstd::prelude::*;
use crate::config::{Config, ConfigEntry, ConfigError, Configuration, parse_config, spec_parse, lookup, line_id_key};

verus! {

/// Which input source an edge detector reads.
#[derive(Clone, Copy, Debug, PartialEq, Eq, Structural)]
pub enum SourceKind {
    /// The hardware line named by the configuration.
    Hardware,
    /// The simulated line, which never opens hardware.
    Simulated,
}

/// A message from the host's inbox.
#[derive(Clone, Debug)]
pub enum Message {
    Init,
    ConfigUpdated(Config),
    /// Any other kind of message.
    Other,
}

/// What the host side has to do after a message.
#[derive(Clone, Copy, Debug, PartialEq, Eq, Structural)]
pub enum Action {
    /// Nothing beyond an informational notice.
    Nothing,
    /// Open the given source and start the one edge detector with this
    /// configuration.
    StartDetector(Configuration, SourceKind),
    /// The configuration is unusable: abort the actor.
    Abort(ConfigError),
    /// A configuration came after the first: report it and go on.
    RejectReconfiguration,
    /// A message kind this actor does not handle: warn and go on.
    NotImplemented,
}

pub open spec fn spec_source_for(c: Configuration) -> SourceKind {
    if c.simulate {
        SourceKind::Simulated
    } else {
        SourceKind::Hardware
    }
}

/// The input source that a configuration asks for.
pub fn source_for(c: &Configuration) -> (r: SourceKind)
    ensures
        r == spec_source_for(*c),
{
    if c.simulate {
        SourceKind::Simulated
    } else {
        SourceKind::Hardware
    }
}

/// The state (the accepted configuration, if any) and action after
/// message `msg` in state `state`.
pub open spec fn next(state: Option<Configuration>, msg: Message) -> (Option<Configuration>, Action) {
    match msg {
        Message::Init => (state, Action::Nothing),
        Message::Other => (state, Action::NotImplemented),
        Message::ConfigUpdated(c) => if state is Some {
            (state, Action::RejectReconfiguration)
        } else {
            match spec_parse(c) {
                Ok(cfg) => (Some(cfg), Action::StartDetector(cfg, spec_source_for(cfg))),
                Err(e) => (state, Action::Abort(e)),
            }
        },
    }
}

/// The final state and the actions after a sequence of messages.
pub open spec fn run(state: Option<Configuration>, msgs: Seq<Message>) -> (Option<Configuration>, Seq<Action>)
    decreases msgs.len(),
{
    if msgs.len() == 0 {
        (state, seq![])
    } else {
        let (s1, a) = next(state, msgs[0]);
        let (s2, rest) = run(s1, msgs.drop_first());
        (s2, seq![a] + rest)
    }
}

/// How many of `actions` start a detector.
pub open spec fn starts(actions: Seq<Action>) -> nat
    decreases actions.len(),
{
    if actions.len() == 0 {
        0
    } else {
        (if actions[0] is StartDetector { 1nat } else { 0nat }) + starts(actions.drop_first())
    }
}

/// The port actor: idle until its first configuration is accepted, then
/// configured for good.
pub struct PortActor {
    configuration: Option<Configuration>,
}

impl View for PortActor {
    type V = Option<Configuration>;

    closed spec fn view(&self) -> Option<Configuration> {
        self.configuration
    }
}

impl PortActor {
    /// An idle actor.
    pub fn new() -> (r: PortActor)
        ensures
            r@ is None,
    {
        PortActor { configuration: None }
    }

    /// Whether a configuration has been accepted.
    pub fn is_configured(&self) -> (r: bool)
        ensures
            r == self@ is Some,
    {
        self.configuration.is_some()
    }

    /// The accepted configuration, if any.
    pub fn configuration(&self) -> (r: Option<Configuration>)
        ensures
            r == self@,
    {
        self.configuration
    }

    /// Handles one inbox message: the first valid configuration is
    /// accepted and starts the detector; later ones are rejected and change
    /// nothing.
    pub fn handle(&mut self, msg: &Message) -> (r: Action)
        ensures
            (final(self)@, r) == next(old(self)@, *msg),
    {
        match msg {
            Message::Init => Action::Nothing,
            Message::Other => Action::NotImplemented,
            Message::ConfigUpdated(c) => {
                if self.configuration.is_some() {
                    Action::RejectReconfiguration
                } else {
                    match parse_config(c) {
                        Ok(cfg) => {
                            self.configuration = Some(cfg);
                            Action::StartDetector(cfg, source_for(&cfg))
                        },
                        Err(e) => Action::Abort(e),
                    }
                }
            },
        }
    }
}

/// Once configured, no sequence of messages starts another detector or
/// changes the configuration; from the idle state, at most one detector is
/// ever started.
pub proof fn lemma_single_detector(state: Option<Configuration>, msgs: Seq<Message>)
    ensures
        state is Some ==> run(state, msgs).0 == state && starts(run(state, msgs).1) == 0,
        starts(run(state, msgs).1) <= 1,
    decreases msgs.len(),
{
    if msgs.len() > 0 {
        let (s1, a) = next(state, msgs[0]);
        lemma_single_detector(s1, msgs.drop_first());
        let actions = run(state, msgs).1;
        assert(actions.drop_first() =~= run(s1, msgs.drop_first()).1);
        if state is Some {
            assert(s1 == state);
        } else if a is StartDetector {
            assert(s1 is Some);
        } else {
        }
    }
}

/// A detector is started on the simulated source exactly when the accepted
/// configuration asks for simulation, and then never on hardware.
pub proof fn lemma_source_follows_flag(state: Option<Configuration>, msg: Message)
    ensures
        next(state, msg).1 matches Action::StartDetector(cfg, kind) ==> (kind == SourceKind::Simulated
            <==> cfg.simulate),
{
}

/// A configuration without `line_id` aborts the actor without starting a
/// detector, so no input source is opened or read.
pub proof fn lemma_missing_line_id_aborts(v: Vec<ConfigEntry>)
    requires
        lookup(v@, line_id_key()) is None,
    ensures
        next(None, Message::ConfigUpdated(Config::Mapping(v))).1 == Action::Abort(ConfigError::MissingLineId),
        next(None, Message::ConfigUpdated(Config::Mapping(v))).0 is None,
{
}

} // verus!
