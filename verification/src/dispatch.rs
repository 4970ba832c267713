//! The protocol dispatcher: one request in, exactly one response out.
//!
//! The dispatcher owns the request/response state machine and the error
//! taxonomy. The simulation engine runs outside the crate; the caller
//! performs whatever engine work a request needs and hands the result in
//! as an [`EngineOutcome`], so that dispatching itself is verified for
//! every value the engine can report.

use vstd::prelude::*;

use crate::grid::grid_tags;
use crate::grid::grid_view;
use crate::grid::serialize_grid;
use crate::grid::walk_view;
use crate::messages::AgentModel;
use crate::messages::AgentSnapshot;
use crate::messages::ClientMessage;
use crate::messages::GameStateSnapshot;
use crate::messages::GameStatus;
use crate::messages::MazeInfo;
use crate::messages::ServerMessage;
use crate::messages::SnapshotModel;
use crate::messages::Vec2;
use crate::registry::SessionRegistry;
use crate::session::EngineReport;
use crate::session::GameSession;
use crate::session::SESSION_ID_LEN;
use crate::session::SessionModel;
use crate::session::created_session;
use crate::session::snapshot_of;
use crate::session::stepped_session;

verus! {

/// What the engine did for the request at hand, handed in by the caller:
/// a constructed simulation for a creation request (or its refusal), a
/// fresh report after the requested ticks ran, or nothing, where the
/// request needs no engine work.
pub enum EngineOutcome {
    Created { start: Vec2, exit: Vec2, walkable: Vec<Vec<bool>>, report: EngineReport },
    CreateFailed,
    Stepped { report: EngineReport },
    NotNeeded,
}

/// The outcome a request obliges the caller to hand in: construction for
/// a creation request (with a grid of the configured shape when it
/// succeeds), a fresh report for a step request on a live session, and
/// nothing otherwise.
pub open spec fn outcome_fits(
    msg: ClientMessage,
    registry: Map<Seq<char>, SessionModel>,
    outcome: EngineOutcome,
) -> bool {
    match msg {
        ClientMessage::CreateSession { config } => match outcome {
            EngineOutcome::Created { start, exit, walkable, report } => {
                &&& walkable@.len() == config.maze_height
                &&& forall|y: int|
                    0 <= y < walkable@.len() ==> #[trigger] walkable@[y]@.len()
                        == config.maze_width
            },
            EngineOutcome::CreateFailed => true,
            _ => false,
        },
        ClientMessage::StepSimulation { session_id, steps } => match outcome {
            EngineOutcome::Stepped { report } => registry.contains_key(session_id@),
            EngineOutcome::NotNeeded => !registry.contains_key(session_id@),
            _ => false,
        },
        ClientMessage::GetState { session_id } => outcome is NotNeeded,
        ClientMessage::CloseSession { session_id } => outcome is NotNeeded,
    }
}

/// Whether a response is an error carrying this machine-readable code.
pub open spec fn is_error_with(r: ServerMessage, code: Seq<char>) -> bool {
    match r {
        ServerMessage::Error { message, code: c } => c@ == code,
        _ => false,
    }
}

/// The zeroed snapshot a close acknowledgement carries in place of
/// session state.
pub open spec fn placeholder_snapshot() -> SnapshotModel {
    SnapshotModel {
        step: 0,
        status: GameStatus::Running,
        fugitive: AgentModel::Fugitive {
            position: Vec2 { x: 0, y: 0 },
            velocity: Vec2 { x: 0, y: 0 },
            current_path: Option::None,
            vision_angle: 0,
            vision_range: 0,
        },
        zombies: Seq::empty(),
        maze_info: MazeInfo {
            width: 0,
            height: 0,
            cell_size: 0,
            start_position: Vec2 { x: 0, y: 0 },
            exit_position: Vec2 { x: 0, y: 0 },
        },
    }
}

/// The request/response contract: how the registry moves from `pre` to
/// `post` and which response goes out, for each request and each engine
/// outcome the request admits.
pub open spec fn dispatch_post(
    msg: ClientMessage,
    pre: Map<Seq<char>, SessionModel>,
    post: Map<Seq<char>, SessionModel>,
    outcome: EngineOutcome,
    r: ServerMessage,
) -> bool {
    match msg {
        ClientMessage::CreateSession { config } => match outcome {
            EngineOutcome::Created { start, exit, walkable, report } => match r {
                ServerMessage::SessionCreated { session_id, initial_state, maze_grid } => {
                    &&& session_id@.len() == SESSION_ID_LEN
                    &&& post == pre.insert(
                        session_id@,
                        created_session(session_id@, config, start, exit, report@),
                    )
                    &&& initial_state@ == snapshot_of(
                        created_session(session_id@, config, start, exit, report@),
                    )
                    &&& grid_view(maze_grid@) == grid_tags(walk_view(walkable@))
                },
                _ => false,
            },
            EngineOutcome::CreateFailed => post == pre && is_error_with(r, "invalid_config"@),
            _ => true,
        },
        ClientMessage::StepSimulation { session_id, steps } => if pre.contains_key(session_id@) {
            match outcome {
                EngineOutcome::Stepped { report } => match r {
                    ServerMessage::StateUpdate { session_id: sid, state } => {
                        &&& sid@ == session_id@
                        &&& post == pre.insert(
                            session_id@,
                            stepped_session(pre[session_id@], steps, report@),
                        )
                        &&& state@ == snapshot_of(
                            stepped_session(pre[session_id@], steps, report@),
                        )
                    },
                    _ => false,
                },
                _ => true,
            }
        } else {
            post == pre && is_error_with(r, "session_not_found"@)
        },
        ClientMessage::GetState { session_id } => {
            &&& post == pre
            &&& if pre.contains_key(session_id@) {
                match r {
                    ServerMessage::StateUpdate { session_id: sid, state } => sid@ == session_id@
                        && state@ == snapshot_of(pre[session_id@]),
                    _ => false,
                }
            } else {
                is_error_with(r, "session_not_found"@)
            }
        },
        ClientMessage::CloseSession { session_id } => if pre.contains_key(session_id@) {
            match r {
                ServerMessage::StateUpdate { session_id: sid, state } => {
                    &&& sid@ == session_id@
                    &&& post == pre.remove(session_id@)
                    &&& state@ == placeholder_snapshot()
                },
                _ => false,
            }
        } else {
            post == pre && is_error_with(r, "session_not_found"@)
        },
    }
}

/// Builds an error response from its human-readable message and its
/// stable machine-readable code.
fn error_response(message: &str, code: &str) -> (r: ServerMessage)
    ensures
        is_error_with(r, code@),
        (match r {
            ServerMessage::Error { message: m, code: c } => m@ == message@ && c@ == code@,
            _ => false,
        }),
{
    ServerMessage::Error { message: message.to_owned(), code: code.to_owned() }
}

/// Builds the zeroed snapshot a close acknowledgement carries.
fn placeholder_state() -> (s: GameStateSnapshot)
    ensures
        s@ == placeholder_snapshot(),
{
    let zombies: Vec<AgentSnapshot> = Vec::new();
    proof {
        assert(zombies@.map_values(|a: AgentSnapshot| a@) =~= Seq::<AgentModel>::empty());
    }
    GameStateSnapshot {
        step: 0,
        status: GameStatus::Running,
        fugitive: AgentSnapshot::Fugitive {
            position: Vec2::zero(),
            velocity: Vec2::zero(),
            current_path: Option::None,
            vision_angle: 0,
            vision_range: 0,
        },
        zombies,
        maze_info: MazeInfo {
            width: 0,
            height: 0,
            cell_size: 0,
            start_position: Vec2::zero(),
            exit_position: Vec2::zero(),
        },
    }
}

/// Maps one request and the engine's outcome for it to the response,
/// creating, stepping, reading or removing the addressed session.
/// Exactly one response comes back for every request; an unknown
/// identity yields the `session_not_found` error and a refused
/// configuration the `invalid_config` error, and in both cases the
/// registry is untouched.
pub fn handle_client_message(
    msg: ClientMessage,
    registry: &mut SessionRegistry,
    outcome: EngineOutcome,
) -> (r: ServerMessage)
    requires
        old(registry).wf(),
        outcome_fits(msg, old(registry)@, outcome),
    ensures
        final(registry).wf(),
        dispatch_post(msg, old(registry)@, final(registry)@, outcome, r),
{
    match msg {
        ClientMessage::CreateSession { config } => match outcome {
            EngineOutcome::Created { start, exit, walkable, report } => {
                let session = GameSession::new(config, start, exit, report);
                let session_id = session.id.clone();
                let initial_state = session.get_snapshot();
                let maze_grid = serialize_grid(&walkable);
                registry.insert(session);
                ServerMessage::SessionCreated { session_id, initial_state, maze_grid }
            },
            _ => error_response("the engine rejected the configuration", "invalid_config"),
        },
        ClientMessage::StepSimulation { session_id, steps } => match outcome {
            EngineOutcome::Stepped { report } => {
                match registry.step_session(&session_id, steps, report) {
                    Option::Some(state) => ServerMessage::StateUpdate { session_id, state },
                    Option::None => error_response(
                        "no session carries this identity",
                        "session_not_found",
                    ),
                }
            },
            _ => error_response("no session carries this identity", "session_not_found"),
        },
        ClientMessage::GetState { session_id } => {
            let found = registry.get(&session_id);
            match found {
                Option::Some(sess) => {
                    let state = sess.get_snapshot();
                    ServerMessage::StateUpdate { session_id, state }
                },
                Option::None => error_response(
                    "no session carries this identity",
                    "session_not_found",
                ),
            }
        },
        ClientMessage::CloseSession { session_id } => {
            if registry.remove(&session_id) {
                ServerMessage::StateUpdate { session_id, state: placeholder_state() }
            } else {
                error_response("no session carries this identity", "session_not_found")
            }
        },
    }
}

/// Handles one inbound text frame: a frame whose text did not decode to
/// a request yields the `parse_error` response and leaves every session
/// untouched; a decoded request is dispatched. The connection stays
/// open either way (see the connection state machine).
pub fn handle_text_frame(
    parsed: Option<ClientMessage>,
    registry: &mut SessionRegistry,
    outcome: EngineOutcome,
) -> (r: ServerMessage)
    requires
        old(registry).wf(),
        (match parsed {
            Option::Some(msg) => outcome_fits(msg, old(registry)@, outcome),
            Option::None => outcome is NotNeeded,
        }),
    ensures
        final(registry).wf(),
        (match parsed {
            Option::Some(msg) => dispatch_post(msg, old(registry)@, final(registry)@, outcome, r),
            Option::None => final(registry)@ == old(registry)@ && is_error_with(
                r,
                "parse_error"@,
            ),
        }),
{
    match parsed {
        Option::Some(msg) => handle_client_message(msg, registry, outcome),
        Option::None => error_response("the frame did not decode to a request", "parse_error"),
    }
}

} // verus!
