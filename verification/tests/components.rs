use idle_terminal::action::{Action, Key};
use idle_terminal::buildings::BuildingKind;
use idle_terminal::components::dashboard::{bar, sparkline_text, Dashboard};
use idle_terminal::components::server_rack::{RackView, ServerRack};
use idle_terminal::components::status_bar::StatusBar;
use idle_terminal::components::task_terminal::{TaskResult, TaskTerminal};
use idle_terminal::fixed::from_units;
use idle_terminal::layout::{focusable_panes, PaneId, PANE_COUNT};
use idle_terminal::resources::Resources;
use idle_terminal::state::GameState;
use idle_terminal::tasks::{ActiveTask, TaskDefinition, TaskKind};
use rand::rngs::StdRng;
use rand::SeedableRng;
use std::collections::VecDeque;

#[test]
fn status_bar_follows_the_focus() {
    let mut bar = StatusBar::new();
    assert_eq!(bar.focused_pane(), PaneId::Dashboard);
    bar.set_focused_pane(PaneId::TaskTerminal);
    assert_eq!(bar.focused_pane(), PaneId::TaskTerminal);
    assert_eq!(bar.focused_pane, PaneId::TaskTerminal);
}

#[test]
fn focus_cycles_over_the_panes() {
    assert_eq!(
        focusable_panes(),
        vec![PaneId::Dashboard, PaneId::ServerRack, PaneId::NetworkMap, PaneId::TaskTerminal]
    );
    assert_eq!(PANE_COUNT, 4);
    assert_eq!(PaneId::Dashboard.cycled(1), PaneId::ServerRack);
    assert_eq!(PaneId::TaskTerminal.cycled(1), PaneId::Dashboard);
    assert_eq!(PaneId::Dashboard.cycled(-1), PaneId::TaskTerminal);
    assert_eq!(PaneId::NetworkMap.cycled(-1), PaneId::ServerRack);
    assert_eq!(PaneId::NetworkMap.cycled(0), PaneId::NetworkMap);
    assert_eq!(PaneId::NetworkMap.cycled(i32::MAX), PaneId::ServerRack);
    assert_eq!(PaneId::NetworkMap.cycled(i32::MIN), PaneId::NetworkMap);
    assert_eq!(PaneId::ServerRack.position(), 1);
}

#[test]
fn sparkline_of_the_history() {
    let _ = Dashboard::new();
    assert_eq!(sparkline_text(&VecDeque::new(), 10), "");
    let data: VecDeque<u64> = [0, 1, 2, 3, 4, 5, 6, 7, 8].into_iter().collect();
    assert_eq!(
        sparkline_text(&data, 20),
        " \u{2581}\u{2582}\u{2583}\u{2584}\u{2585}\u{2586}\u{2587}\u{2588}"
    );
    assert_eq!(sparkline_text(&data, 3), " \u{2584}\u{2588}");
    assert_eq!(sparkline_text(&data, 0), "");
    let flat: VecDeque<u64> = [5, 5, 5].into_iter().collect();
    assert_eq!(sparkline_text(&flat, 10), "   ");
    let wide: VecDeque<u64> = [0, u64::MAX, u64::MAX / 2].into_iter().collect();
    assert_eq!(sparkline_text(&wide, 10), " \u{2588}\u{2583}");
    let thirds: VecDeque<u64> = [10, 11, 12, 13].into_iter().collect();
    assert_eq!(sparkline_text(&thirds, 4), " \u{2582}\u{2585}\u{2588}");
    assert_eq!(bar(0), ' ');
    assert_eq!(bar(8), '\u{2588}');
}

#[test]
fn the_rack_starts_on_the_buildings() {
    let rack = ServerRack::new();
    assert_eq!(rack, ServerRack { selected_index: 0, scroll_offset: 0, view: RackView::Buildings });
}

#[test]
fn rack_keys_on_the_buildings() {
    let mut state = GameState::with_seed(1);
    state.resources.compute = from_units(1_000);
    let mut rack = ServerRack::new();
    assert_eq!(rack.handle_key_with_state(Key::Up, &state), Some(Action::Nothing));
    assert_eq!(rack.selected_index, 0);
    assert_eq!(
        rack.handle_key_with_state(Key::Enter, &state),
        Some(Action::PurchaseBuilding(BuildingKind::RaspberryPi))
    );
    for expected in [1, 2, 3, 4, 5, 5, 5] {
        assert_eq!(rack.handle_key_with_state(Key::Down, &state), Some(Action::Nothing));
        assert_eq!(rack.selected_index, expected);
    }
    assert_eq!(
        rack.handle_key_with_state(Key::Char('u'), &state),
        Some(Action::UpgradeBuilding(BuildingKind::NASBox))
    );
    assert_eq!(rack.handle_key_with_state(Key::Char('k'), &state), Some(Action::Nothing));
    assert_eq!(rack.selected_index, 4);
    assert_eq!(rack.handle_key_with_state(Key::Char('j'), &state), Some(Action::Nothing));
    assert_eq!(rack.selected_index, 5);
    assert_eq!(rack.handle_key_with_state(Key::Char('x'), &state), None);
    assert_eq!(rack.handle_key_with_state(Key::Backspace, &state), None);
    assert_eq!(rack.handle_key_with_state(Key::Other, &state), None);
    state.resources.compute = 0;
    assert_eq!(rack.handle_key_with_state(Key::Enter, &state), None);
    assert_eq!(rack.selected_index, 5);
    assert_eq!(rack.handle_key_with_state(Key::Up, &state), Some(Action::Nothing));
    assert_eq!(rack.selected_index, 4);
}

#[test]
fn the_scroll_offset_follows_the_selection_upwards() {
    let state = GameState::with_seed(1);
    let mut rack = ServerRack { selected_index: 2, scroll_offset: 2, view: RackView::Buildings };
    rack.handle_key_with_state(Key::Up, &state);
    assert_eq!((rack.selected_index, rack.scroll_offset), (1, 1));
    let mut upgrades = ServerRack { selected_index: 2, scroll_offset: 2, view: RackView::Upgrades };
    upgrades.handle_key_with_state(Key::Up, &state);
    assert_eq!((upgrades.selected_index, upgrades.scroll_offset), (1, 2));
}

#[test]
fn rack_keys_on_the_upgrades() {
    let mut state = GameState::with_seed(1);
    let mut rack = ServerRack { selected_index: 2, scroll_offset: 1, view: RackView::Buildings };
    assert_eq!(rack.handle_key_with_state(Key::Char('r'), &state), Some(Action::Nothing));
    assert_eq!(rack, ServerRack { selected_index: 0, scroll_offset: 0, view: RackView::Upgrades });
    assert_eq!(rack.handle_key_with_state(Key::Enter, &state), Some(Action::PurchaseUpgrade(0)));
    for _ in 0..10 {
        rack.handle_key_with_state(Key::Down, &state);
    }
    assert_eq!(rack.selected_index, 3);
    assert_eq!(rack.handle_key_with_state(Key::Enter, &state), Some(Action::PurchaseUpgrade(11)));
    assert_eq!(rack.handle_key_with_state(Key::Char('u'), &state), None);
    for u in state.upgrades.iter_mut() {
        u.purchased = true;
    }
    assert_eq!(rack.handle_key_with_state(Key::Enter, &state), None);
    assert_eq!(rack.handle_key_with_state(Key::Down, &state), None);
    assert_eq!(rack.handle_key_with_state(Key::Char('r'), &state), Some(Action::Nothing));
    assert_eq!(rack.view, RackView::Buildings);
}

fn typing_task() -> TaskDefinition {
    TaskDefinition {
        name: "Test".into(),
        kind: TaskKind::TypeCommand { command: "ls".into() },
        reward: Resources {
            compute: from_units(50),
            bandwidth: from_units(3),
            storage: from_units(2),
            reputation: 7,
            crypto: 9,
        },
        time_limit_ticks: 5,
        difficulty: 1,
    }
}

fn question_task() -> TaskDefinition {
    TaskDefinition {
        name: "Test".into(),
        kind: TaskKind::IncidentResponse {
            question: "?".into(),
            options: vec!["A".into(), "B".into(), "C".into()],
            correct: 2,
        },
        reward: Resources { storage: from_units(120), ..Default::default() },
        time_limit_ticks: 5,
        difficulty: 1,
    }
}

#[test]
fn the_terminal_waits_then_offers_a_task() {
    let mut game = GameState::with_seed(1);
    let mut terminal = TaskTerminal::with_rng(StdRng::seed_from_u64(9));
    assert_eq!(terminal.cooldown(), 10);
    assert!(terminal.current_task().is_none());
    assert_eq!(terminal.handle_key_with_state(Key::Char('a'), &game), None);
    for left in (0..10).rev() {
        terminal.game_tick(&mut game);
        assert_eq!(terminal.cooldown(), left);
        assert!(terminal.current_task().is_none());
    }
    terminal.game_tick(&mut game);
    let task = terminal.current_task().expect("a task is offered");
    assert_eq!(task.remaining_ticks, task.definition.time_limit_ticks);
    assert!(terminal.last_result.is_none());
    let limit = task.definition.time_limit_ticks;
    for _ in 0..limit - 1 {
        terminal.game_tick(&mut game);
        assert!(terminal.current_task().is_some());
    }
    terminal.game_tick(&mut game);
    assert!(terminal.current_task().is_none());
    assert_eq!(terminal.last_result, Some(TaskResult::Expired));
    assert_eq!(terminal.cooldown(), 20);
    assert_eq!(game.tasks_completed, 0);
    assert_eq!(game.resources, GameState::with_seed(1).resources);
    let fresh = TaskTerminal::new();
    assert_eq!(fresh.cooldown(), 10);
}

#[test]
fn typing_the_command_solves_the_task_and_pays_a_tick_later() {
    let mut game = GameState::with_seed(1);
    game.task_reward_multiplier = 2_000_000;
    let before = game.resources;
    let mut terminal = TaskTerminal::with_rng(StdRng::seed_from_u64(9));
    terminal.cooldown_ticks = 0;
    terminal.advance(&mut game, Some(typing_task()));
    assert_eq!(terminal.handle_key_with_state(Key::Up, &game), None);
    assert_eq!(terminal.handle_key_with_state(Key::Enter, &game), None);
    assert_eq!(terminal.handle_key_with_state(Key::Backspace, &game), Some(Action::Nothing));
    assert_eq!(terminal.handle_key_with_state(Key::Char('x'), &game), Some(Action::Nothing));
    assert_eq!(terminal.current_task().unwrap().input, "x");
    assert_eq!(terminal.handle_key_with_state(Key::Backspace, &game), Some(Action::Nothing));
    assert_eq!(terminal.current_task().unwrap().input, "");
    assert_eq!(terminal.handle_key_with_state(Key::Char('l'), &game), Some(Action::Nothing));
    assert!(terminal.pending_reward.is_none());
    assert_eq!(terminal.handle_key_with_state(Key::Char('s'), &game), Some(Action::Nothing));
    assert!(terminal.current_task().is_none());
    assert_eq!(terminal.last_result, Some(TaskResult::Completed));
    assert_eq!(terminal.cooldown(), 20);
    assert_eq!(terminal.pending_reward, Some(typing_task().reward));
    assert_eq!(game.resources, before);
    assert_eq!(game.tasks_completed, 0);
    terminal.game_tick(&mut game);
    assert!(terminal.pending_reward.is_none());
    assert_eq!(game.tasks_completed, 1);
    assert_eq!(
        game.resources,
        Resources {
            compute: before.compute + from_units(100),
            bandwidth: from_units(6),
            storage: from_units(4),
            reputation: 14,
            crypto: 18,
        }
    );
    assert_eq!(terminal.cooldown(), 19);
    terminal.game_tick(&mut game);
    assert_eq!(game.tasks_completed, 1);
}

#[test]
fn answering_a_question() {
    let mut game = GameState::with_seed(1);
    let mut terminal = TaskTerminal::with_rng(StdRng::seed_from_u64(9));
    terminal.active_task = Some(ActiveTask::new(question_task()));
    assert_eq!(terminal.handle_key_with_state(Key::Char('a'), &game), None);
    assert_eq!(terminal.handle_key_with_state(Key::Backspace, &game), None);
    assert_eq!(terminal.handle_key_with_state(Key::Up, &game), Some(Action::Nothing));
    assert_eq!(terminal.current_task().unwrap().selected_option, 0);
    for expected in [1, 2, 2] {
        assert_eq!(terminal.handle_key_with_state(Key::Down, &game), Some(Action::Nothing));
        assert_eq!(terminal.current_task().unwrap().selected_option, expected);
    }
    assert_eq!(terminal.handle_key_with_state(Key::Char('k'), &game), Some(Action::Nothing));
    assert_eq!(terminal.current_task().unwrap().selected_option, 1);
    assert_eq!(terminal.handle_key_with_state(Key::Char('j'), &game), Some(Action::Nothing));
    assert_eq!(terminal.handle_key_with_state(Key::Enter, &game), Some(Action::Nothing));
    assert!(terminal.current_task().is_none());
    assert_eq!(terminal.last_result, Some(TaskResult::Completed));
    assert_eq!(terminal.pending_reward, Some(question_task().reward));
    terminal.game_tick(&mut game);
    assert_eq!(game.resources.storage, from_units(120));
    assert_eq!(game.tasks_completed, 1);

    terminal.active_task = Some(ActiveTask::new(question_task()));
    assert_eq!(terminal.handle_key_with_state(Key::Enter, &game), Some(Action::Nothing));
    assert!(terminal.current_task().is_none());
    assert_eq!(terminal.last_result, Some(TaskResult::Failed));
    assert!(terminal.pending_reward.is_none());
    assert_eq!(terminal.cooldown(), 20);
    terminal.game_tick(&mut game);
    assert_eq!(game.tasks_completed, 1);
}

#[test]
fn keys_that_move_a_selection() {
    assert!(Key::Up.is_up() && Key::Char('k').is_up());
    assert!(Key::Down.is_down() && Key::Char('j').is_down());
    assert!(!Key::Char('j').is_up() && !Key::Down.is_up() && !Key::Enter.is_up());
    assert!(!Key::Char('k').is_down() && !Key::Up.is_down() && !Key::Other.is_down());
}

#[test]
fn a_terminal_draws_from_the_source_it_is_given() {
    let given = StdRng::seed_from_u64(21);
    let terminal = TaskTerminal::with_rng(given.clone());
    assert_eq!(terminal.rng, given);
    assert_ne!(terminal.rng, StdRng::seed_from_u64(22));
    assert_eq!(terminal.cooldown(), 10);
    let mut game = GameState::with_seed(1);
    let mut a = TaskTerminal::with_rng(StdRng::seed_from_u64(4));
    let mut b = TaskTerminal::with_rng(StdRng::seed_from_u64(4));
    for _ in 0..11 {
        a.game_tick(&mut game);
        b.game_tick(&mut game);
    }
    assert_eq!(
        a.current_task().unwrap().definition.name,
        b.current_task().unwrap().definition.name
    );
}

