//! One simulation session: a stable identity plus the session's current
//! state as last reported by the simulation engine.
//!
//! The engine itself runs outside the crate; after it is constructed or
//! advanced, the caller hands the core an [`EngineReport`] of plain
//! values. The session keeps the tick counter itself: it starts at zero
//! and grows by exactly the requested tick count on every step.

use vstd::prelude::*;

use crate::messages::AgentModel;
use crate::messages::AgentSnapshot;
use crate::messages::GameConfig;
use crate::messages::GameStateSnapshot;
use crate::messages::GameStatus;
use crate::messages::MazeInfo;
use crate::messages::SnapshotModel;
use crate::messages::Vec2;
use crate::messages::path_view;

verus! {

/// The fugitive's dynamic state as the engine reports it.
#[derive(Clone, Debug)]
pub struct FugitiveState {
    pub position: Vec2,
    pub velocity: Vec2,
    pub current_path: Option<Vec<Vec2>>,
    pub vision_range: u32,
    pub vision_angle: u32,
}

/// One zombie's dynamic state as the engine reports it.
#[derive(Clone, Debug)]
pub struct ZombieState {
    pub position: Vec2,
    pub velocity: Vec2,
    pub state: String,
    pub vision_range: u32,
    pub vision_angle: u32,
    pub last_seen_position: Option<Vec2>,
    pub current_path: Option<Vec<Vec2>>,
}

/// Everything the engine reports about a simulation after construction
/// or after a run of ticks.
#[derive(Clone, Debug)]
pub struct EngineReport {
    pub status: GameStatus,
    pub fugitive: FugitiveState,
    pub zombies: Vec<ZombieState>,
}

/// Mathematical image of a [`FugitiveState`].
pub struct FugitiveModel {
    pub position: Vec2,
    pub velocity: Vec2,
    pub current_path: Option<Seq<Vec2>>,
    pub vision_range: u32,
    pub vision_angle: u32,
}

impl View for FugitiveState {
    type V = FugitiveModel;

    open spec fn view(&self) -> FugitiveModel {
        FugitiveModel {
            position: self.position,
            velocity: self.velocity,
            current_path: path_view(self.current_path),
            vision_range: self.vision_range,
            vision_angle: self.vision_angle,
        }
    }
}

/// Mathematical image of a [`ZombieState`].
pub struct ZombieModel {
    pub position: Vec2,
    pub velocity: Vec2,
    pub state: Seq<char>,
    pub vision_range: u32,
    pub vision_angle: u32,
    pub last_seen_position: Option<Vec2>,
    pub current_path: Option<Seq<Vec2>>,
}

impl View for ZombieState {
    type V = ZombieModel;

    open spec fn view(&self) -> ZombieModel {
        ZombieModel {
            position: self.position,
            velocity: self.velocity,
            state: self.state@,
            vision_range: self.vision_range,
            vision_angle: self.vision_angle,
            last_seen_position: self.last_seen_position,
            current_path: path_view(self.current_path),
        }
    }
}

/// Mathematical image of an [`EngineReport`].
pub struct ReportModel {
    pub status: GameStatus,
    pub fugitive: FugitiveModel,
    pub zombies: Seq<ZombieModel>,
}

impl View for EngineReport {
    type V = ReportModel;

    open spec fn view(&self) -> ReportModel {
        ReportModel {
            status: self.status,
            fugitive: self.fugitive@,
            zombies: self.zombies@.map_values(|z: ZombieState| z@),
        }
    }
}

/// One steppable simulation instance with its stable identity.
#[derive(Clone, Debug)]
pub struct GameSession {
    pub id: String,
    pub tick: u64,
    pub status: GameStatus,
    pub fugitive: FugitiveState,
    pub zombies: Vec<ZombieState>,
    pub maze_info: MazeInfo,
}

/// Mathematical image of a [`GameSession`].
pub struct SessionModel {
    pub id: Seq<char>,
    pub tick: u64,
    pub status: GameStatus,
    pub fugitive: FugitiveModel,
    pub zombies: Seq<ZombieModel>,
    pub maze_info: MazeInfo,
}

impl View for GameSession {
    type V = SessionModel;

    open spec fn view(&self) -> SessionModel {
        SessionModel {
            id: self.id@,
            tick: self.tick,
            status: self.status,
            fugitive: self.fugitive@,
            zombies: self.zombies@.map_values(|z: ZombieState| z@),
            maze_info: self.maze_info,
        }
    }
}

/// The hyphenated rendering of a version-4 identifier is 36 characters.
pub const SESSION_ID_LEN: usize = 36;

/// Relies on `uuid::Uuid::new_v4` and its `Display` rendering: a freshly
/// drawn random identifier, rendered in the 36-character hyphenated form.
/// The draw is random, so nothing beyond the length is promised.
#[verifier::external_body]
fn new_session_id() -> (r: String)
    ensures
        r@.len() == SESSION_ID_LEN,
{
    uuid::Uuid::new_v4().to_string()
}

/// The session a creation request yields: tick zero, running, dynamic
/// state as the engine first reported it, maze facts from the
/// configuration and the engine's start and exit positions.
pub open spec fn created_session(
    id: Seq<char>,
    config: GameConfig,
    start: Vec2,
    exit: Vec2,
    report: ReportModel,
) -> SessionModel {
    SessionModel {
        id: id,
        tick: 0,
        status: GameStatus::Running,
        fugitive: report.fugitive,
        zombies: report.zombies,
        maze_info: MazeInfo {
            width: config.maze_width,
            height: config.maze_height,
            cell_size: config.cell_size,
            start_position: start,
            exit_position: exit,
        },
    }
}

/// The tick counter after advancing by `steps`: one increment per tick,
/// pinned at the counter's maximum if the sum would not fit.
pub open spec fn advanced_tick(tick: u64, steps: u32) -> u64 {
    if tick + steps <= u64::MAX {
        (tick + steps) as u64
    } else {
        u64::MAX
    }
}

/// The session after stepping by `steps` with the engine reporting
/// `report` once the ticks have run: identity and maze are untouched,
/// the tick counter has advanced, and the dynamic state is the report's.
pub open spec fn stepped_session(s: SessionModel, steps: u32, report: ReportModel) -> SessionModel {
    SessionModel {
        id: s.id,
        tick: advanced_tick(s.tick, steps),
        status: report.status,
        fugitive: report.fugitive,
        zombies: report.zombies,
        maze_info: s.maze_info,
    }
}

/// The snapshot a session renders: its tick count, status, agents in
/// wire form (fugitive first, zombies in engine order), and maze facts.
pub open spec fn snapshot_of(s: SessionModel) -> SnapshotModel {
    SnapshotModel {
        step: s.tick,
        status: s.status,
        fugitive: fugitive_agent(s.fugitive),
        zombies: s.zombies.map_values(|z: ZombieModel| zombie_agent(z)),
        maze_info: s.maze_info,
    }
}

/// The wire form of the fugitive's dynamic state.
pub open spec fn fugitive_agent(f: FugitiveModel) -> AgentModel {
    AgentModel::Fugitive {
        position: f.position,
        velocity: f.velocity,
        current_path: f.current_path,
        vision_angle: f.vision_angle,
        vision_range: f.vision_range,
    }
}

/// The wire form of one zombie's dynamic state.
pub open spec fn zombie_agent(z: ZombieModel) -> AgentModel {
    AgentModel::Zombie {
        position: z.position,
        velocity: z.velocity,
        state: z.state,
        vision_range: z.vision_range,
        vision_angle: z.vision_angle,
        last_seen_position: z.last_seen_position,
        current_path: z.current_path,
    }
}

/// Copies an optional waypoint path.
fn clone_path(p: &Option<Vec<Vec2>>) -> (r: Option<Vec<Vec2>>)
    ensures
        path_view(r) == path_view(*p),
{
    match p {
        Option::None => Option::None,
        Option::Some(v) => {
            let mut out: Vec<Vec2> = Vec::new();
            let mut i: usize = 0;
            while i < v.len()
                invariant
                    i <= v.len(),
                    out@ == v@.take(i as int),
                decreases v.len() - i,
            {
                out.push(v[i]);
                proof {
                    assert(out@ =~= v@.take(i as int + 1));
                }
                i = i + 1;
            }
            proof {
                assert(v@.take(v@.len() as int) =~= v@);
            }
            Option::Some(out)
        },
    }
}

/// Renders the fugitive's dynamic state in wire form.
fn fugitive_to_agent(f: &FugitiveState) -> (a: AgentSnapshot)
    ensures
        a@ == fugitive_agent(f@),
{
    AgentSnapshot::Fugitive {
        position: f.position,
        velocity: f.velocity,
        current_path: clone_path(&f.current_path),
        vision_angle: f.vision_angle,
        vision_range: f.vision_range,
    }
}

/// Renders one zombie's dynamic state in wire form.
fn zombie_to_agent(z: &ZombieState) -> (a: AgentSnapshot)
    ensures
        a@ == zombie_agent(z@),
{
    AgentSnapshot::Zombie {
        position: z.position,
        velocity: z.velocity,
        state: z.state.clone(),
        vision_range: z.vision_range,
        vision_angle: z.vision_angle,
        last_seen_position: z.last_seen_position,
        current_path: clone_path(&z.current_path),
    }
}

impl GameSession {
    /// Builds a fresh session: a newly drawn identity, tick zero, status
    /// running, dynamic state from the engine's first report, and maze
    /// facts from the configuration and the engine's start and exit.
    pub fn new(config: GameConfig, start: Vec2, exit: Vec2, report: EngineReport) -> (s: GameSession)
        ensures
            s@ == created_session(s@.id, config, start, exit, report@),
            s@.id.len() == SESSION_ID_LEN,
    {
        let id = new_session_id();
        GameSession {
            id,
            tick: 0,
            status: GameStatus::Running,
            fugitive: report.fugitive,
            zombies: report.zombies,
            maze_info: MazeInfo {
                width: config.maze_width,
                height: config.maze_height,
                cell_size: config.cell_size,
                start_position: start,
                exit_position: exit,
            },
        }
    }

    /// Advances the session by `steps` ticks: the tick counter grows by
    /// exactly `steps` (pinned at its maximum), and the dynamic state
    /// becomes what the engine reported after those ticks ran.
    pub fn step(&mut self, steps: u32, report: EngineReport)
        ensures
            final(self)@ == stepped_session(old(self)@, steps, report@),
    {
        if self.tick <= u64::MAX - steps as u64 {
            self.tick = self.tick + steps as u64;
        } else {
            self.tick = u64::MAX;
        }
        self.status = report.status;
        self.fugitive = report.fugitive;
        self.zombies = report.zombies;
    }

    /// Renders the session's current state for transmission: the tick
    /// count, status, fugitive and zombies in wire form, and maze facts.
    /// Read-only: the session itself is untouched.
    pub fn get_snapshot(&self) -> (snap: GameStateSnapshot)
        ensures
            snap@ == snapshot_of(self@),
    {
        let fugitive = fugitive_to_agent(&self.fugitive);
        let mut zombies: Vec<AgentSnapshot> = Vec::new();
        let mut i: usize = 0;
        while i < self.zombies.len()
            invariant
                i <= self.zombies.len(),
                zombies@.len() == i,
                forall|j: int|
                    0 <= j < i ==> zombies@[j]@ == zombie_agent(self.zombies@[j]@),
            decreases self.zombies.len() - i,
        {
            zombies.push(zombie_to_agent(&self.zombies[i]));
            i = i + 1;
        }
        proof {
            assert(zombies@.map_values(|a: AgentSnapshot| a@)
                =~= self@.zombies.map_values(|z: ZombieModel| zombie_agent(z)));
        }
        GameStateSnapshot {
            step: self.tick,
            status: self.status,
            fugitive,
            zombies,
            maze_info: self.maze_info,
        }
    }
}

} // verus!
