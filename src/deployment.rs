//! Deployment of a ledger as a state machine. Each step takes the outcome of
//! the last outside operation (encoding the arguments, creating the
//! canister, installing the code) and decides the next state and the next
//! operation to perform. The caller performs the operations; this module
//! decides their order and what is reported at the end.
use vstd::prelude::*;
use vstd::string::StringExecFns;
use candid::Principal;

verus! {

/// Cycles that fund a new ledger canister: enough for its creation and for
/// installing the ledger code.
pub const CANISTER_CREATION_CYCLES: u128 = 2_000_000_000_000;

/// Where one deployment stands.
#[derive(Debug)]
pub enum DeployState {
    /// The initialization arguments are being encoded.
    Start { factory_id: Principal, owner: Principal },
    /// The arguments are encoded; a canister is being created.
    Normalized { arg: Vec<u8> },
    /// The canister exists; the ledger code is being installed into it.
    UnitAllocated { canister_id: Principal },
    /// The ledger runs in the canister.
    Installed { canister_id: Principal },
    /// The deployment stopped on an error.
    Failed,
}

/// The outcome of an outside operation, handed back to the state machine.
#[derive(Debug)]
pub enum DeployEvent {
    /// The encoded initialization arguments, or why encoding failed.
    Encoded(Result<Vec<u8>, String>),
    /// The new canister, or why creation failed.
    Created(Result<Principal, String>),
    /// Whether installing the ledger code succeeded, or why it failed.
    CodeInstalled(Result<(), String>),
}

/// The next operation to perform.
#[derive(Debug)]
pub enum DeployAction {
    /// Create a canister with these controllers, funded with these cycles.
    CreateCanister { controllers: Vec<Principal>, cycles: u128 },
    /// Install the ledger code into the canister with this argument.
    InstallCode { canister_id: Principal, arg: Vec<u8> },
    /// The deployment is over: the new ledger, or an error message.
    Finish(Result<Principal, String>),
}

/// The model of a [`DeployState`].
pub enum StateModel {
    Start { factory_id: Principal, owner: Principal },
    Normalized { arg: Seq<u8> },
    UnitAllocated { canister_id: Principal },
    Installed { canister_id: Principal },
    Failed,
}

/// The model of a [`DeployEvent`].
pub enum EventModel {
    Encoded(Result<Seq<u8>, Seq<char>>),
    Created(Result<Principal, Seq<char>>),
    CodeInstalled(Result<(), Seq<char>>),
}

/// The model of a [`DeployAction`].
pub enum ActionModel {
    CreateCanister { controllers: Seq<Principal>, cycles: u128 },
    InstallCode { canister_id: Principal, arg: Seq<u8> },
    Finish(Result<Principal, Seq<char>>),
}

impl View for DeployState {
    type V = StateModel;

    open spec fn view(&self) -> StateModel {
        match self {
            DeployState::Start { factory_id, owner } => StateModel::Start {
                factory_id: *factory_id,
                owner: *owner,
            },
            DeployState::Normalized { arg } => StateModel::Normalized { arg: arg@ },
            DeployState::UnitAllocated { canister_id } => StateModel::UnitAllocated {
                canister_id: *canister_id,
            },
            DeployState::Installed { canister_id } => StateModel::Installed {
                canister_id: *canister_id,
            },
            DeployState::Failed => StateModel::Failed,
        }
    }
}

impl View for DeployEvent {
    type V = EventModel;

    open spec fn view(&self) -> EventModel {
        match self {
            DeployEvent::Encoded(Ok(b)) => EventModel::Encoded(Ok(b@)),
            DeployEvent::Encoded(Err(m)) => EventModel::Encoded(Err(m@)),
            DeployEvent::Created(Ok(id)) => EventModel::Created(Ok(*id)),
            DeployEvent::Created(Err(m)) => EventModel::Created(Err(m@)),
            DeployEvent::CodeInstalled(Ok(())) => EventModel::CodeInstalled(Ok(())),
            DeployEvent::CodeInstalled(Err(m)) => EventModel::CodeInstalled(Err(m@)),
        }
    }
}

impl View for DeployAction {
    type V = ActionModel;

    open spec fn view(&self) -> ActionModel {
        match self {
            DeployAction::CreateCanister { controllers, cycles } => ActionModel::CreateCanister {
                controllers: controllers@,
                cycles: *cycles,
            },
            DeployAction::InstallCode { canister_id, arg } => ActionModel::InstallCode {
                canister_id: *canister_id,
                arg: arg@,
            },
            DeployAction::Finish(Ok(id)) => ActionModel::Finish(Ok(*id)),
            DeployAction::Finish(Err(m)) => ActionModel::Finish(Err(m@)),
        }
    }
}

/// Prefix of the message reported when the arguments cannot be encoded.
pub open spec fn encode_error_prefix() -> Seq<char> {
    "Failed to serialize ledger args: "@
}

/// Prefix of the message reported when the canister cannot be created.
pub open spec fn create_error_prefix() -> Seq<char> {
    "Failed to create canister: "@
}

/// Prefix of the message reported when the code cannot be installed.
pub open spec fn install_error_prefix() -> Seq<char> {
    "Failed to install code: "@
}

/// Whether a deployment in state `s` expects the event `e`: each state waits
/// for the outcome of the operation it started, and a finished deployment
/// expects nothing.
pub open spec fn expects(s: StateModel, e: EventModel) -> bool {
    match s {
        StateModel::Start { .. } => e is Encoded,
        StateModel::Normalized { .. } => e is Created,
        StateModel::UnitAllocated { .. } => e is CodeInstalled,
        _ => false,
    }
}

/// The state and the action that follow the event `e` in state `s`, when
/// `s` expects `e`.
pub open spec fn next(s: StateModel, e: EventModel) -> (StateModel, ActionModel) {
    match (s, e) {
        (StateModel::Start { factory_id, owner }, EventModel::Encoded(Ok(arg))) => (
            StateModel::Normalized { arg },
            ActionModel::CreateCanister {
                controllers: seq![factory_id, owner],
                cycles: CANISTER_CREATION_CYCLES,
            },
        ),
        (StateModel::Normalized { arg }, EventModel::Created(Ok(canister_id))) => (
            StateModel::UnitAllocated { canister_id },
            ActionModel::InstallCode { canister_id, arg },
        ),
        (StateModel::UnitAllocated { canister_id }, EventModel::CodeInstalled(Ok(()))) => (
            StateModel::Installed { canister_id },
            ActionModel::Finish(Ok(canister_id)),
        ),
        (_, EventModel::Encoded(Err(m))) => (
            StateModel::Failed,
            ActionModel::Finish(Err(encode_error_prefix() + m)),
        ),
        (_, EventModel::Created(Err(m))) => (
            StateModel::Failed,
            ActionModel::Finish(Err(create_error_prefix() + m)),
        ),
        (_, EventModel::CodeInstalled(Err(m))) => (
            StateModel::Failed,
            ActionModel::Finish(Err(install_error_prefix() + m)),
        ),
        _ => (s, ActionModel::Finish(Err(Seq::empty()))),
    }
}

/// The state reached and the actions issued when a deployment in state `s`
/// takes `events` in order, up to the first event it does not expect.
pub open spec fn run(s: StateModel, events: Seq<EventModel>) -> (StateModel, Seq<ActionModel>)
    decreases events.len(),
{
    if events.len() == 0 || !expects(s, events[0]) {
        (s, Seq::empty())
    } else {
        let (s1, a) = next(s, events[0]);
        let (s2, rest) = run(s1, events.drop_first());
        (s2, seq![a] + rest)
    }
}

/// A finished deployment takes no more events and issues no more actions.
pub proof fn finished_deployment_is_inert(s: StateModel, later: Seq<EventModel>)
    requires
        s is Installed || s is Failed,
    ensures
        run(s, later) == (s, Seq::<ActionModel>::empty()),
{
}

/// One step of `run`: the first event, then the rest from the state it leads to.
proof fn run_first(s: StateModel, e: EventModel, later: Seq<EventModel>)
    requires
        expects(s, e),
    ensures
        run(s, seq![e] + later) == ({
            let (s1, a) = next(s, e);
            let (s2, rest) = run(s1, later);
            (s2, seq![a] + rest)
        }),
{
    assert((seq![e] + later).drop_first() =~= later);
}

/// When the initialization arguments cannot be encoded, the deployment ends
/// at once with the encoding error behind its prefix: no canister is created
/// and nothing that follows is taken.
pub proof fn encoding_failure_touches_nothing(
    factory_id: Principal,
    owner: Principal,
    m: Seq<char>,
    later: Seq<EventModel>,
)
    ensures
        run(StateModel::Start { factory_id, owner }, seq![EventModel::Encoded(Err(m))] + later)
            == (StateModel::Failed, seq![ActionModel::Finish(Err(encode_error_prefix() + m))]),
{
    run_first(StateModel::Start { factory_id, owner }, EventModel::Encoded(Err(m)), later);
    finished_deployment_is_inert(StateModel::Failed, later);
    assert(seq![ActionModel::Finish(Err(encode_error_prefix() + m))] + Seq::<ActionModel>::empty()
        =~= seq![ActionModel::Finish(Err(encode_error_prefix() + m))]);
}

/// When creating the canister fails, whatever follows: the canister was
/// requested once, no code is ever installed, and the caller gets the
/// creation error behind its prefix and no canister.
pub proof fn creation_failure_installs_nothing(
    factory_id: Principal,
    owner: Principal,
    arg: Seq<u8>,
    m: Seq<char>,
    later: Seq<EventModel>,
)
    ensures
        run(
            StateModel::Start { factory_id, owner },
            seq![EventModel::Encoded(Ok(arg)), EventModel::Created(Err(m))] + later,
        ) == (
            StateModel::Failed,
            seq![
                ActionModel::CreateCanister {
                    controllers: seq![factory_id, owner],
                    cycles: CANISTER_CREATION_CYCLES,
                },
                ActionModel::Finish(Err(create_error_prefix() + m)),
            ],
        ),
{
    let s0 = StateModel::Start { factory_id, owner };
    let s1 = StateModel::Normalized { arg };
    let e0 = EventModel::Encoded(Ok(arg));
    let e1 = EventModel::Created(Err(m));
    let create = ActionModel::CreateCanister {
        controllers: seq![factory_id, owner],
        cycles: CANISTER_CREATION_CYCLES,
    };
    let fail = ActionModel::Finish(Err(create_error_prefix() + m));
    assert(seq![e0, e1] + later =~= seq![e0] + (seq![e1] + later));
    run_first(s0, e0, seq![e1] + later);
    run_first(s1, e1, later);
    finished_deployment_is_inert(StateModel::Failed, later);
    assert(seq![create] + (seq![fail] + Seq::<ActionModel>::empty()) =~= seq![create, fail]);
}

/// When installing the code fails after the canister was created, whatever
/// follows: the caller gets the installation error behind its prefix, and
/// the created canister is not reported.
pub proof fn installation_failure_withholds_canister(
    factory_id: Principal,
    owner: Principal,
    arg: Seq<u8>,
    canister_id: Principal,
    m: Seq<char>,
    later: Seq<EventModel>,
)
    ensures
        run(
            StateModel::Start { factory_id, owner },
            seq![
                EventModel::Encoded(Ok(arg)),
                EventModel::Created(Ok(canister_id)),
                EventModel::CodeInstalled(Err(m)),
            ] + later,
        ) == (
            StateModel::Failed,
            seq![
                ActionModel::CreateCanister {
                    controllers: seq![factory_id, owner],
                    cycles: CANISTER_CREATION_CYCLES,
                },
                ActionModel::InstallCode { canister_id, arg },
                ActionModel::Finish(Err(install_error_prefix() + m)),
            ],
        ),
{
    let s0 = StateModel::Start { factory_id, owner };
    let s1 = StateModel::Normalized { arg };
    let s2 = StateModel::UnitAllocated { canister_id };
    let e0 = EventModel::Encoded(Ok(arg));
    let e1 = EventModel::Created(Ok(canister_id));
    let e2 = EventModel::CodeInstalled(Err(m));
    let create = ActionModel::CreateCanister {
        controllers: seq![factory_id, owner],
        cycles: CANISTER_CREATION_CYCLES,
    };
    let install = ActionModel::InstallCode { canister_id, arg };
    let fail = ActionModel::Finish(Err(install_error_prefix() + m));
    assert(seq![e0, e1, e2] + later =~= seq![e0] + (seq![e1] + (seq![e2] + later)));
    run_first(s0, e0, seq![e1] + (seq![e2] + later));
    run_first(s1, e1, seq![e2] + later);
    run_first(s2, e2, later);
    finished_deployment_is_inert(StateModel::Failed, later);
    assert(seq![create] + (seq![install] + (seq![fail] + Seq::<ActionModel>::empty()))
        =~= seq![create, install, fail]);
}

/// When every operation succeeds, the deployment creates the canister,
/// installs the code with the encoded arguments, and reports that canister.
pub proof fn successful_deployment_reports_canister(
    factory_id: Principal,
    owner: Principal,
    arg: Seq<u8>,
    canister_id: Principal,
    later: Seq<EventModel>,
)
    ensures
        run(
            StateModel::Start { factory_id, owner },
            seq![
                EventModel::Encoded(Ok(arg)),
                EventModel::Created(Ok(canister_id)),
                EventModel::CodeInstalled(Ok(())),
            ] + later,
        ) == (
            StateModel::Installed { canister_id },
            seq![
                ActionModel::CreateCanister {
                    controllers: seq![factory_id, owner],
                    cycles: CANISTER_CREATION_CYCLES,
                },
                ActionModel::InstallCode { canister_id, arg },
                ActionModel::Finish(Ok(canister_id)),
            ],
        ),
{
    let s0 = StateModel::Start { factory_id, owner };
    let s1 = StateModel::Normalized { arg };
    let s2 = StateModel::UnitAllocated { canister_id };
    let e0 = EventModel::Encoded(Ok(arg));
    let e1 = EventModel::Created(Ok(canister_id));
    let e2 = EventModel::CodeInstalled(Ok(()));
    let create = ActionModel::CreateCanister {
        controllers: seq![factory_id, owner],
        cycles: CANISTER_CREATION_CYCLES,
    };
    let install = ActionModel::InstallCode { canister_id, arg };
    let done = ActionModel::Finish(Ok(canister_id));
    assert(seq![e0, e1, e2] + later =~= seq![e0] + (seq![e1] + (seq![e2] + later)));
    run_first(s0, e0, seq![e1] + (seq![e2] + later));
    run_first(s1, e1, seq![e2] + later);
    run_first(s2, e2, later);
    finished_deployment_is_inert(StateModel::Installed { canister_id }, later);
    assert(seq![create] + (seq![install] + (seq![done] + Seq::<ActionModel>::empty()))
        =~= seq![create, install, done]);
}

/// `prefix` followed by `detail`, as a new string.
fn prefixed(prefix: &str, detail: String) -> (r: String)
    ensures
        r@ == prefix@ + detail@,
{
    let mut r = String::from_str(prefix);
    r.append(detail.as_str());
    r
}

impl DeployState {
    /// A deployment of a ledger owned by `owner`, made by the canister
    /// `factory_id`; it waits for the encoded initialization arguments.
    pub fn new(factory_id: Principal, owner: Principal) -> (r: DeployState)
        ensures
            r@ == (StateModel::Start { factory_id, owner }),
    {
        DeployState::Start { factory_id, owner }
    }

    /// Whether this state expects `event`.
    pub fn expects(&self, event: &DeployEvent) -> (r: bool)
        ensures
            r == expects(self@, event@),
    {
        match (self, event) {
            (DeployState::Start { .. }, DeployEvent::Encoded(_)) => true,
            (DeployState::Normalized { .. }, DeployEvent::Created(_)) => true,
            (DeployState::UnitAllocated { .. }, DeployEvent::CodeInstalled(_)) => true,
            _ => false,
        }
    }

    /// Whether the deployment is over.
    pub fn is_finished(&self) -> (r: bool)
        ensures
            r == (self@ is Installed || self@ is Failed),
    {
        match self {
            DeployState::Installed { .. } | DeployState::Failed => true,
            _ => false,
        }
    }

    /// Takes the outcome of the last operation and returns the next state
    /// and the next operation. Encoded arguments lead to creating a canister
    /// controlled by the factory and the owner and funded with
    /// [`CANISTER_CREATION_CYCLES`]; a created canister to installing the
    /// ledger code with those arguments; a finished installation to
    /// reporting the canister. Any failure ends the deployment with its
    /// message behind a prefix that names the failed operation; a canister
    /// that was created is then neither removed nor reported.
    pub fn step(self, event: DeployEvent) -> (r: (DeployState, DeployAction))
        requires
            expects(self@, event@),
        ensures
            (r.0@, r.1@) == next(self@, event@),
    {
        match event {
            DeployEvent::Encoded(Ok(arg)) => {
                match self {
                    DeployState::Start { factory_id, owner } => {
                        let mut controllers: Vec<Principal> = Vec::new();
                        controllers.push(factory_id);
                        controllers.push(owner);
                        proof {
                            assert(controllers@ =~= seq![factory_id, owner]);
                        }
                        (
                            DeployState::Normalized { arg },
                            DeployAction::CreateCanister {
                                controllers,
                                cycles: CANISTER_CREATION_CYCLES,
                            },
                        )
                    },
                    _ => (self, DeployAction::Finish(Err(String::new()))),
                }
            },
            DeployEvent::Created(Ok(canister_id)) => {
                match self {
                    DeployState::Normalized { arg } => (
                        DeployState::UnitAllocated { canister_id },
                        DeployAction::InstallCode { canister_id, arg },
                    ),
                    _ => (self, DeployAction::Finish(Err(String::new()))),
                }
            },
            DeployEvent::CodeInstalled(Ok(())) => {
                match self {
                    DeployState::UnitAllocated { canister_id } => (
                        DeployState::Installed { canister_id },
                        DeployAction::Finish(Ok(canister_id)),
                    ),
                    _ => (self, DeployAction::Finish(Err(String::new()))),
                }
            },
            DeployEvent::Encoded(Err(m)) => (
                DeployState::Failed,
                DeployAction::Finish(Err(prefixed("Failed to serialize ledger args: ", m))),
            ),
            DeployEvent::Created(Err(m)) => (
                DeployState::Failed,
                DeployAction::Finish(Err(prefixed("Failed to create canister: ", m))),
            ),
            DeployEvent::CodeInstalled(Err(m)) => (
                DeployState::Failed,
                DeployAction::Finish(Err(prefixed("Failed to install code: ", m))),
            ),
        }
    }
}

} // verus!
