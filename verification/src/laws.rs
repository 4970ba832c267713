//! Laws the protocol dispatcher obeys, proved from its contract alone.
//!
//! Each law quantifies over all registries, requests and engine
//! outcomes; it holds for every execution of the dispatcher because the
//! dispatcher's own contract forces it.

use vstd::prelude::*;

use crate::dispatch::EngineOutcome;
use crate::dispatch::dispatch_post;
use crate::dispatch::is_error_with;
use crate::dispatch::outcome_fits;
use crate::messages::ClientMessage;
use crate::messages::GameConfig;
use crate::messages::GameStatus;
use crate::messages::ServerMessage;
use crate::session::ReportModel;
use crate::session::SessionModel;
use crate::session::snapshot_of;
use crate::session::stepped_session;

verus! {

/// Creating a session and immediately querying it yields a snapshot at
/// tick zero with status running: a fresh session has never been
/// stepped.
pub proof fn lemma_create_then_get(
    config: GameConfig,
    pre: Map<Seq<char>, SessionModel>,
    mid: Map<Seq<char>, SessionModel>,
    post: Map<Seq<char>, SessionModel>,
    outcome: EngineOutcome,
    r1: ServerMessage,
    sid: String,
    r2: ServerMessage,
)
    requires
        outcome is Created,
        dispatch_post(ClientMessage::CreateSession { config }, pre, mid, outcome, r1),
        (match r1 {
            ServerMessage::SessionCreated { session_id, .. } => session_id@ == sid@,
            _ => false,
        }),
        dispatch_post(
            ClientMessage::GetState { session_id: sid },
            mid,
            post,
            EngineOutcome::NotNeeded,
            r2,
        ),
    ensures
        post == mid,
        (match r2 {
            ServerMessage::StateUpdate { session_id, state } => session_id@ == sid@
                && state.step == 0 && state.status == GameStatus::Running,
            _ => false,
        }),
{
}

/// Stepping by `n` and then by `m` leaves a session exactly as stepping
/// once by `n + m` does, given the engine's report after the last tick
/// is the same: the tick counter is additive and the dynamic state is
/// whatever the final report says.
pub proof fn lemma_step_additivity(
    s: SessionModel,
    n: u32,
    m: u32,
    total: u32,
    mid: ReportModel,
    fin: ReportModel,
)
    requires
        total == n + m,
    ensures
        stepped_session(stepped_session(s, n, mid), m, fin) == stepped_session(s, total, fin),
        snapshot_of(stepped_session(stepped_session(s, n, mid), m, fin)) == snapshot_of(
            stepped_session(s, total, fin),
        ),
{
}

/// A request naming an identity no live session carries is answered
/// with the `session_not_found` error, whichever of the three
/// session-addressing requests it is, and the registry is untouched.
pub proof fn lemma_unknown_session_rejected(
    msg: ClientMessage,
    pre: Map<Seq<char>, SessionModel>,
    post: Map<Seq<char>, SessionModel>,
    outcome: EngineOutcome,
    r: ServerMessage,
)
    requires
        dispatch_post(msg, pre, post, outcome, r),
        (match msg {
            ClientMessage::CreateSession { .. } => false,
            ClientMessage::StepSimulation { session_id, .. } => !pre.contains_key(session_id@),
            ClientMessage::GetState { session_id } => !pre.contains_key(session_id@),
            ClientMessage::CloseSession { session_id } => !pre.contains_key(session_id@),
        }),
    ensures
        is_error_with(r, "session_not_found"@),
        post == pre,
{
}

/// Once a close succeeds, a later query for the same identity is
/// answered with the `session_not_found` error: the close removed the
/// session's entry, and nothing restores it.
pub proof fn lemma_close_then_get(
    sid: String,
    pre: Map<Seq<char>, SessionModel>,
    mid: Map<Seq<char>, SessionModel>,
    post: Map<Seq<char>, SessionModel>,
    r1: ServerMessage,
    r2: ServerMessage,
)
    requires
        pre.contains_key(sid@),
        dispatch_post(
            ClientMessage::CloseSession { session_id: sid },
            pre,
            mid,
            EngineOutcome::NotNeeded,
            r1,
        ),
        dispatch_post(
            ClientMessage::GetState { session_id: sid },
            mid,
            post,
            EngineOutcome::NotNeeded,
            r2,
        ),
    ensures
        is_error_with(r2, "session_not_found"@),
        post == mid,
{
    assert(r1 is StateUpdate);
    assert(mid == pre.remove(sid@));
    assert(!mid.contains_key(sid@));
}

/// The maze grid sent with a creation response has exactly the
/// configured number of rows, each with exactly the configured number
/// of cells.
pub proof fn lemma_created_grid_shape(
    config: GameConfig,
    pre: Map<Seq<char>, SessionModel>,
    post: Map<Seq<char>, SessionModel>,
    outcome: EngineOutcome,
    r: ServerMessage,
)
    requires
        outcome is Created,
        outcome_fits(ClientMessage::CreateSession { config }, pre, outcome),
        dispatch_post(ClientMessage::CreateSession { config }, pre, post, outcome, r),
    ensures
        (match r {
            ServerMessage::SessionCreated { maze_grid, .. } => maze_grid@.len()
                == config.maze_height && forall|y: int|
                0 <= y < maze_grid@.len() ==> #[trigger] maze_grid@[y]@.len()
                    == config.maze_width,
            _ => false,
        }),
{
    match outcome {
        EngineOutcome::Created { start, exit, walkable, report } => {
            match r {
                ServerMessage::SessionCreated { session_id, initial_state, maze_grid } => {
                    let lhs = crate::grid::grid_view(maze_grid@);
                    let rhs = crate::grid::grid_tags(crate::grid::walk_view(walkable@));
                    assert(lhs == rhs);
                    assert(lhs.len() == maze_grid@.len());
                    assert(rhs.len() == walkable@.len());
                    assert forall|y: int| 0 <= y < maze_grid@.len()
                        implies #[trigger] maze_grid@[y]@.len() == config.maze_width by {
                        assert(lhs[y] == maze_grid@[y]@.map_values(|s: String| s@));
                        assert(rhs[y] == walkable@[y]@.map_values(|b: bool| crate::grid::cell_tag(b)));
                        assert(lhs[y].len() == maze_grid@[y]@.len());
                        assert(rhs[y].len() == walkable@[y]@.len());
                    }
                },
                _ => {},
            }
        },
        _ => {},
    }
}

/// The maze grid accompanies only the creation response: no step, query
/// or close request is ever answered with a `SessionCreated` response,
/// so the grid is never resent for a live session.
pub proof fn lemma_grid_only_at_creation(
    msg: ClientMessage,
    pre: Map<Seq<char>, SessionModel>,
    post: Map<Seq<char>, SessionModel>,
    outcome: EngineOutcome,
    r: ServerMessage,
)
    requires
        !(msg is CreateSession),
        outcome_fits(msg, pre, outcome),
        dispatch_post(msg, pre, post, outcome, r),
    ensures
        !(r is SessionCreated),
{
}

/// Requests addressed to one session never touch another: after any
/// step, query or close naming one identity, every other identity's
/// session is exactly what it was.
pub proof fn lemma_session_isolation(
    msg: ClientMessage,
    pre: Map<Seq<char>, SessionModel>,
    post: Map<Seq<char>, SessionModel>,
    outcome: EngineOutcome,
    r: ServerMessage,
    other: Seq<char>,
)
    requires
        dispatch_post(msg, pre, post, outcome, r),
        outcome_fits(msg, pre, outcome),
        pre.contains_key(other),
        (match msg {
            ClientMessage::CreateSession { .. } => false,
            ClientMessage::StepSimulation { session_id, .. } => session_id@ != other,
            ClientMessage::GetState { session_id } => true,
            ClientMessage::CloseSession { session_id } => session_id@ != other,
        }),
    ensures
        post.contains_key(other),
        post[other] == pre[other],
{
}

} // verus!
