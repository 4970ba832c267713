//! Wire-format message types for the session protocol.
//!
//! Every message is a tagged union: requests select a session operation,
//! responses carry either a freshly built state snapshot or an error with a
//! stable machine-readable code. Coordinates travel as the raw bit patterns
//! of the engine's single-precision values; the core never computes on them.

use vstd::prelude::*;

verus! {

/// A 2-D point or vector, stored as the bit patterns of the engine's
/// single-precision coordinates. The core only carries these values.
#[derive(Clone, Copy, PartialEq, Eq, Structural, Debug)]
pub struct Vec2 {
    pub x: u32,
    pub y: u32,
}

impl Vec2 {
    /// The all-zero bit pattern, which encodes the origin.
    pub fn zero() -> (r: Vec2)
        ensures
            r == (Vec2 { x: 0u32, y: 0u32 }),
    {
        Vec2 { x: 0, y: 0 }
    }
}

/// The simulation configuration a client submits when creating a session:
/// grid extents in cells and the world-unit edge length of one cell
/// (as a single-precision bit pattern).
#[derive(Clone, Copy, PartialEq, Eq, Structural, Debug)]
pub struct GameConfig {
    pub maze_width: usize,
    pub maze_height: usize,
    pub cell_size: u32,
}

/// The engine-reported outcome of a simulation: still running, or one of
/// the terminal outcomes.
#[derive(Clone, Copy, PartialEq, Eq, Structural, Debug)]
pub enum GameStatus {
    Running,
    Escaped,
    Caught,
}

/// Requests a client may send, one per inbound frame.
#[derive(Clone, Debug)]
pub enum ClientMessage {
    CreateSession { config: GameConfig },
    StepSimulation { session_id: String, steps: u32 },
    GetState { session_id: String },
    CloseSession { session_id: String },
}

/// Responses the server sends, exactly one per handled frame.
/// The full maze grid accompanies only `SessionCreated`, never a later
/// response: the maze is static for a session's lifetime.
#[derive(Clone, Debug)]
pub enum ServerMessage {
    SessionCreated { session_id: String, initial_state: GameStateSnapshot, maze_grid: Vec<Vec<String>> },
    StateUpdate { session_id: String, state: GameStateSnapshot },
    Error { message: String, code: String },
}

/// Static maze facts sent with every snapshot: cell counts, cell size,
/// and the world-coordinate start and exit positions.
#[derive(Clone, Copy, PartialEq, Eq, Structural, Debug)]
pub struct MazeInfo {
    pub width: usize,
    pub height: usize,
    pub cell_size: u32,
    pub start_position: Vec2,
    pub exit_position: Vec2,
}

/// One agent's dynamic state as rendered for the client, tagged by kind.
/// The zombie variant adds its behavioural state tag and, when present,
/// the last position at which it saw the fugitive.
#[derive(Clone, Debug)]
pub enum AgentSnapshot {
    Fugitive {
        position: Vec2,
        velocity: Vec2,
        current_path: Option<Vec<Vec2>>,
        vision_angle: u32,
        vision_range: u32,
    },
    Zombie {
        position: Vec2,
        velocity: Vec2,
        state: String,
        vision_range: u32,
        vision_angle: u32,
        last_seen_position: Option<Vec2>,
        current_path: Option<Vec<Vec2>>,
    },
}

/// A point-in-time rendering of one session's dynamic state.
#[derive(Clone, Debug)]
pub struct GameStateSnapshot {
    pub step: u64,
    pub status: GameStatus,
    pub fugitive: AgentSnapshot,
    pub zombies: Vec<AgentSnapshot>,
    pub maze_info: MazeInfo,
}

/// Mathematical image of an optional waypoint path.
pub open spec fn path_view(p: Option<Vec<Vec2>>) -> Option<Seq<Vec2>> {
    match p {
        Option::None => Option::None,
        Option::Some(v) => Option::Some(v@),
    }
}

/// Mathematical image of an [`AgentSnapshot`].
pub enum AgentModel {
    Fugitive {
        position: Vec2,
        velocity: Vec2,
        current_path: Option<Seq<Vec2>>,
        vision_angle: u32,
        vision_range: u32,
    },
    Zombie {
        position: Vec2,
        velocity: Vec2,
        state: Seq<char>,
        vision_range: u32,
        vision_angle: u32,
        last_seen_position: Option<Vec2>,
        current_path: Option<Seq<Vec2>>,
    },
}

impl View for AgentSnapshot {
    type V = AgentModel;

    open spec fn view(&self) -> AgentModel {
        match *self {
            AgentSnapshot::Fugitive { position, velocity, current_path, vision_angle, vision_range } => (
                AgentModel::Fugitive {
                    position,
                    velocity,
                    current_path: path_view(current_path),
                    vision_angle,
                    vision_range,
                }
            ),
            AgentSnapshot::Zombie {
                position,
                velocity,
                state,
                vision_range,
                vision_angle,
                last_seen_position,
                current_path,
            } => (
                AgentModel::Zombie {
                    position,
                    velocity,
                    state: state@,
                    vision_range,
                    vision_angle,
                    last_seen_position,
                    current_path: path_view(current_path),
                }
            ),
        }
    }
}

/// Mathematical image of a [`GameStateSnapshot`].
pub struct SnapshotModel {
    pub step: u64,
    pub status: GameStatus,
    pub fugitive: AgentModel,
    pub zombies: Seq<AgentModel>,
    pub maze_info: MazeInfo,
}

impl View for GameStateSnapshot {
    type V = SnapshotModel;

    open spec fn view(&self) -> SnapshotModel {
        SnapshotModel {
            step: self.step,
            status: self.status,
            fugitive: self.fugitive@,
            zombies: self.zombies@.map_values(|a: AgentSnapshot| a@),
            maze_info: self.maze_info,
        }
    }
}

} // verus!
