use pursuit_server::dispatch::EngineOutcome;
use pursuit_server::dispatch::handle_client_message;
use pursuit_server::dispatch::handle_text_frame;
use pursuit_server::grid::serialize_grid;
use pursuit_server::messages::AgentSnapshot;
use pursuit_server::messages::ClientMessage;
use pursuit_server::messages::GameConfig;
use pursuit_server::messages::GameStatus;
use pursuit_server::messages::ServerMessage;
use pursuit_server::messages::Vec2;
use pursuit_server::registry::SessionRegistry;
use pursuit_server::session::EngineReport;
use pursuit_server::session::FugitiveState;
use pursuit_server::session::ZombieState;

const ONE: u32 = 0x3F80_0000; // bit pattern of 1.0
const TWO: u32 = 0x4000_0000; // bit pattern of 2.0

fn sample_report() -> EngineReport {
    EngineReport {
        status: GameStatus::Running,
        fugitive: FugitiveState {
            position: Vec2 { x: ONE, y: TWO },
            velocity: Vec2 { x: 0, y: 0 },
            current_path: None,
            vision_range: TWO,
            vision_angle: ONE,
        },
        zombies: vec![ZombieState {
            position: Vec2 { x: TWO, y: TWO },
            velocity: Vec2 { x: 0, y: 0 },
            state: "wander".to_string(),
            vision_range: TWO,
            vision_angle: ONE,
            last_seen_position: None,
            current_path: None,
        }],
    }
}

fn open_grid(width: usize, height: usize) -> Vec<Vec<bool>> {
    let mut rows = Vec::new();
    for _ in 0..height {
        rows.push(vec![true; width]);
    }
    rows
}

fn create_outcome(width: usize, height: usize) -> EngineOutcome {
    EngineOutcome::Created {
        start: Vec2 { x: ONE, y: ONE },
        exit: Vec2 { x: TWO, y: TWO },
        walkable: open_grid(width, height),
        report: sample_report(),
    }
}

fn create_session(registry: &mut SessionRegistry, width: usize, height: usize) -> String {
    let config = GameConfig { maze_width: width, maze_height: height, cell_size: ONE };
    let response = handle_client_message(
        ClientMessage::CreateSession { config },
        registry,
        create_outcome(width, height),
    );
    match response {
        ServerMessage::SessionCreated { session_id, .. } => session_id,
        other => panic!("expected SessionCreated, got {:?}", other),
    }
}

fn step_session(registry: &mut SessionRegistry, id: &str, steps: u32) -> ServerMessage {
    let msg = ClientMessage::StepSimulation { session_id: id.to_string(), steps };
    let outcome = if registry.contains(&id.to_string()) {
        EngineOutcome::Stepped { report: sample_report() }
    } else {
        EngineOutcome::NotNeeded
    };
    handle_client_message(msg, registry, outcome)
}

fn get_state(registry: &mut SessionRegistry, id: &str) -> ServerMessage {
    handle_client_message(
        ClientMessage::GetState { session_id: id.to_string() },
        registry,
        EngineOutcome::NotNeeded,
    )
}

fn close_session(registry: &mut SessionRegistry, id: &str) -> ServerMessage {
    handle_client_message(
        ClientMessage::CloseSession { session_id: id.to_string() },
        registry,
        EngineOutcome::NotNeeded,
    )
}

#[test]
fn create_then_get_state_starts_at_tick_zero() {
    let mut registry = SessionRegistry::new();
    let id = create_session(&mut registry, 5, 4);
    assert_eq!(id.len(), 36);
    match get_state(&mut registry, &id) {
        ServerMessage::StateUpdate { session_id, state } => {
            assert_eq!(session_id, id);
            assert_eq!(state.step, 0);
            assert_eq!(state.status, GameStatus::Running);
        }
        other => panic!("expected StateUpdate, got {:?}", other),
    }
}

#[test]
fn initial_snapshot_reports_engine_state() {
    let mut registry = SessionRegistry::new();
    let config = GameConfig { maze_width: 3, maze_height: 2, cell_size: ONE };
    let response = handle_client_message(
        ClientMessage::CreateSession { config },
        &mut registry,
        create_outcome(3, 2),
    );
    match response {
        ServerMessage::SessionCreated { initial_state, .. } => {
            assert_eq!(initial_state.step, 0);
            assert_eq!(initial_state.maze_info.width, 3);
            assert_eq!(initial_state.maze_info.height, 2);
            assert_eq!(initial_state.maze_info.cell_size, ONE);
            assert_eq!(initial_state.maze_info.start_position, Vec2 { x: ONE, y: ONE });
            assert_eq!(initial_state.maze_info.exit_position, Vec2 { x: TWO, y: TWO });
            match &initial_state.fugitive {
                AgentSnapshot::Fugitive { position, .. } => {
                    assert_eq!(*position, Vec2 { x: ONE, y: TWO });
                }
                other => panic!("expected a fugitive snapshot, got {:?}", other),
            }
            assert_eq!(initial_state.zombies.len(), 1);
            match &initial_state.zombies[0] {
                AgentSnapshot::Zombie { state, .. } => assert_eq!(state.as_str(), "wander"),
                other => panic!("expected a zombie snapshot, got {:?}", other),
            }
        }
        other => panic!("expected SessionCreated, got {:?}", other),
    }
}

#[test]
fn stepping_by_n_then_m_matches_stepping_by_sum() {
    let mut registry = SessionRegistry::new();
    let id_split = create_session(&mut registry, 4, 4);
    let id_once = create_session(&mut registry, 4, 4);

    step_session(&mut registry, &id_split, 3);
    let split = step_session(&mut registry, &id_split, 2);
    let once = step_session(&mut registry, &id_once, 5);

    let split_state = match split {
        ServerMessage::StateUpdate { state, .. } => state,
        other => panic!("expected StateUpdate, got {:?}", other),
    };
    let once_state = match once {
        ServerMessage::StateUpdate { state, .. } => state,
        other => panic!("expected StateUpdate, got {:?}", other),
    };
    assert_eq!(split_state.step, 5);
    assert_eq!(once_state.step, 5);
    assert_eq!(split_state.status, once_state.status);
    assert_eq!(split_state.zombies.len(), once_state.zombies.len());
}

#[test]
fn stepping_by_zero_is_a_no_op() {
    let mut registry = SessionRegistry::new();
    let id = create_session(&mut registry, 4, 4);
    match step_session(&mut registry, &id, 0) {
        ServerMessage::StateUpdate { state, .. } => assert_eq!(state.step, 0),
        other => panic!("expected StateUpdate, got {:?}", other),
    }
}

#[test]
fn unknown_identity_yields_session_not_found() {
    let mut registry = SessionRegistry::new();
    create_session(&mut registry, 3, 3);
    for response in [
        step_session(&mut registry, "no-such-id", 1),
        get_state(&mut registry, "no-such-id"),
        close_session(&mut registry, "no-such-id"),
    ] {
        match response {
            ServerMessage::Error { code, .. } => assert_eq!(code, "session_not_found"),
            other => panic!("expected Error, got {:?}", other),
        }
    }
}

#[test]
fn close_then_get_state_yields_session_not_found() {
    let mut registry = SessionRegistry::new();
    let id = create_session(&mut registry, 3, 3);
    match close_session(&mut registry, &id) {
        ServerMessage::StateUpdate { session_id, state } => {
            assert_eq!(session_id, id);
            assert_eq!(state.step, 0);
            assert_eq!(state.zombies.len(), 0);
            assert_eq!(state.maze_info.width, 0);
            assert_eq!(state.maze_info.height, 0);
        }
        other => panic!("expected StateUpdate, got {:?}", other),
    }
    match get_state(&mut registry, &id) {
        ServerMessage::Error { code, .. } => assert_eq!(code, "session_not_found"),
        other => panic!("expected Error, got {:?}", other),
    }
}

#[test]
fn closing_twice_yields_session_not_found() {
    let mut registry = SessionRegistry::new();
    let id = create_session(&mut registry, 3, 3);
    close_session(&mut registry, &id);
    match close_session(&mut registry, &id) {
        ServerMessage::Error { code, .. } => assert_eq!(code, "session_not_found"),
        other => panic!("expected Error, got {:?}", other),
    }
}

#[test]
fn rejected_configuration_yields_invalid_config() {
    let mut registry = SessionRegistry::new();
    let config = GameConfig { maze_width: 0, maze_height: 0, cell_size: 0 };
    let response = handle_client_message(
        ClientMessage::CreateSession { config },
        &mut registry,
        EngineOutcome::CreateFailed,
    );
    match response {
        ServerMessage::Error { code, .. } => assert_eq!(code, "invalid_config"),
        other => panic!("expected Error, got {:?}", other),
    }
}

#[test]
fn maze_grid_has_configured_shape() {
    let mut registry = SessionRegistry::new();
    let config = GameConfig { maze_width: 7, maze_height: 5, cell_size: ONE };
    let response = handle_client_message(
        ClientMessage::CreateSession { config },
        &mut registry,
        create_outcome(7, 5),
    );
    match response {
        ServerMessage::SessionCreated { maze_grid, .. } => {
            assert_eq!(maze_grid.len(), 5);
            for row in &maze_grid {
                assert_eq!(row.len(), 7);
                for cell in row {
                    assert_eq!(cell.as_str(), "walkable");
                }
            }
        }
        other => panic!("expected SessionCreated, got {:?}", other),
    }
}

#[test]
fn grid_is_not_resent_after_creation() {
    let mut registry = SessionRegistry::new();
    let id = create_session(&mut registry, 3, 3);
    assert!(matches!(step_session(&mut registry, &id, 1), ServerMessage::StateUpdate { .. }));
    assert!(matches!(get_state(&mut registry, &id), ServerMessage::StateUpdate { .. }));
    assert!(matches!(close_session(&mut registry, &id), ServerMessage::StateUpdate { .. }));
}

#[test]
fn sessions_do_not_observe_each_other() {
    let mut registry = SessionRegistry::new();
    let id_a = create_session(&mut registry, 4, 4);
    let id_b = create_session(&mut registry, 4, 4);
    assert_ne!(id_a, id_b);
    step_session(&mut registry, &id_a, 7);
    match get_state(&mut registry, &id_b) {
        ServerMessage::StateUpdate { state, .. } => assert_eq!(state.step, 0),
        other => panic!("expected StateUpdate, got {:?}", other),
    }
    match get_state(&mut registry, &id_a) {
        ServerMessage::StateUpdate { state, .. } => assert_eq!(state.step, 7),
        other => panic!("expected StateUpdate, got {:?}", other),
    }
}

#[test]
fn malformed_frame_yields_parse_error_and_registry_stays_usable() {
    let mut registry = SessionRegistry::new();
    let id = create_session(&mut registry, 3, 3);
    let response = handle_text_frame(None, &mut registry, EngineOutcome::NotNeeded);
    match response {
        ServerMessage::Error { code, .. } => assert_eq!(code, "parse_error"),
        other => panic!("expected Error, got {:?}", other),
    }
    match handle_text_frame(
        Some(ClientMessage::GetState { session_id: id.clone() }),
        &mut registry,
        EngineOutcome::NotNeeded,
    ) {
        ServerMessage::StateUpdate { session_id, state } => {
            assert_eq!(session_id, id);
            assert_eq!(state.step, 0);
        }
        other => panic!("expected StateUpdate, got {:?}", other),
    }
}

#[test]
fn serialize_grid_tags_each_cell() {
    let walk = vec![vec![true, false], vec![false, true], vec![true, true]];
    let grid = serialize_grid(&walk);
    assert_eq!(grid.len(), 3);
    assert_eq!(grid[0], vec!["walkable".to_string(), "wall".to_string()]);
    assert_eq!(grid[1], vec!["wall".to_string(), "walkable".to_string()]);
    assert_eq!(grid[2], vec!["walkable".to_string(), "walkable".to_string()]);
}

#[test]
fn end_to_end_ten_by_ten_scenario() {
    let mut registry = SessionRegistry::new();
    let config = GameConfig { maze_width: 10, maze_height: 10, cell_size: ONE };
    let response = handle_client_message(
        ClientMessage::CreateSession { config },
        &mut registry,
        create_outcome(10, 10),
    );
    let id = match response {
        ServerMessage::SessionCreated { session_id, initial_state, maze_grid } => {
            assert_eq!(maze_grid.len(), 10);
            assert!(maze_grid.iter().all(|row| row.len() == 10));
            assert_eq!(initial_state.step, 0);
            session_id
        }
        other => panic!("expected SessionCreated, got {:?}", other),
    };
    match step_session(&mut registry, &id, 5) {
        ServerMessage::StateUpdate { session_id, state } => {
            assert_eq!(session_id, id);
            assert_eq!(state.step, 5);
        }
        other => panic!("expected StateUpdate, got {:?}", other),
    }
}
