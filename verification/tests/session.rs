use idle_terminal::action::{Action, Key};
use idle_terminal::buildings::BuildingKind;
use idle_terminal::components::server_rack::RackView;
use idle_terminal::components::task_terminal::TaskTerminal;
use idle_terminal::events::{GameEvent, GameEventKind};
use idle_terminal::fixed::from_units;
use idle_terminal::layout::PaneId;
use idle_terminal::resources::Resources;
use idle_terminal::save::load_game;
use idle_terminal::session::{
    global_action, joined, prestige_notice, unlocked_notice, welcome, Session,
    AUTO_SAVE_INTERVAL_TICKS,
};
use idle_terminal::state::GameState;
use idle_terminal::tasks::{TaskDefinition, TaskKind};
use rand::rngs::StdRng;
use rand::SeedableRng;

fn session() -> Session {
    Session::with_parts(
        GameState::with_seed(1),
        TaskTerminal::with_rng(StdRng::seed_from_u64(2)),
        None,
    )
}

#[test]
fn a_new_session() {
    let s = Session::new(None);
    assert!(!s.should_quit);
    assert_eq!(s.focused_pane, PaneId::Dashboard);
    assert_eq!(s.game_state.resources.compute, from_units(50));
    assert_eq!(s.server_rack.view, RackView::Buildings);
    assert_eq!(s.task_terminal.cooldown(), 10);
    assert_eq!(s.ticks_since_save, 0);
    assert!(s.welcome_message.is_none());
    assert!(!s.show_prestige_confirm);
    assert!(s.achievement_notification.is_none());
    assert!(s.game_state.within_limits());
}

#[test]
fn a_loaded_game_greets_the_player() {
    let mut game = GameState::with_seed(1);
    game.resources.compute = from_units(100);
    for _ in 0..4 {
        game.purchase_building(BuildingKind::RaspberryPi);
    }
    let s = Session::new(Some(load_game(game, 3 * 3_600_000 + 25 * 60_000)));
    assert_eq!(
        s.welcome_message.as_deref(),
        Some("Welcome back! Away 3h 25m. Earned: +24.6K CPU, +0.00 BW, +0.00 SSD")
    );
    assert_eq!(s.welcome_display_ticks, 40);
    assert_eq!(s.game_state.total_ticks, 49_200);
    let fresh = Session::new(Some(load_game(GameState::with_seed(1), 100)));
    assert!(fresh.welcome_message.is_none());
}

#[test]
fn the_texts_of_the_notices() {
    assert_eq!(joined(&vec![]), "");
    assert_eq!(joined(&vec!["A".to_string()]), "A");
    assert_eq!(joined(&vec!["A".to_string(), "B".to_string(), "C".to_string()]), "A, B, C");
    assert_eq!(
        unlocked_notice(&vec!["Hello World".to_string(), "Sys Admin".to_string()]),
        "* Hello World, Sys Admin unlocked!"
    );
    assert_eq!(
        prestige_notice(from_units(2), 3_500_000),
        "PRESTIGE! +2 Reputation (x1.35 multiplier)"
    );
    assert_eq!(
        welcome(115_200, &Resources { compute: from_units(57_600), ..Default::default() }),
        "Welcome back! Away 8h 0m. Earned: +57.6K CPU, +0.00 BW, +0.00 SSD"
    );
}

#[test]
fn keys_of_the_session() {
    assert_eq!(global_action(Key::Char('q')), Action::Quit);
    assert_eq!(global_action(Key::Tab), Action::NextPane);
    assert_eq!(global_action(Key::BackTab), Action::PrevPane);
    assert_eq!(global_action(Key::Char('1')), Action::FocusPane(PaneId::Dashboard));
    assert_eq!(global_action(Key::Char('2')), Action::FocusPane(PaneId::ServerRack));
    assert_eq!(global_action(Key::Char('3')), Action::FocusPane(PaneId::NetworkMap));
    assert_eq!(global_action(Key::Char('4')), Action::FocusPane(PaneId::TaskTerminal));
    assert_eq!(global_action(Key::Char('p')), Action::Prestige);
    assert_eq!(global_action(Key::Char('x')), Action::Nothing);
    assert_eq!(global_action(Key::Enter), Action::Nothing);
    assert_eq!(global_action(Key::Esc), Action::Nothing);
}

#[test]
fn moving_the_focus_and_quitting() {
    let mut s = session();
    s.handle_key(Key::Tab);
    assert_eq!(s.focused_pane, PaneId::ServerRack);
    s.handle_key(Key::BackTab);
    s.handle_key(Key::BackTab);
    assert_eq!(s.focused_pane, PaneId::TaskTerminal);
    s.handle_key(Key::Tab);
    assert_eq!(s.focused_pane, PaneId::Dashboard);
    s.handle_key(Key::Char('3'));
    assert_eq!(s.focused_pane, PaneId::NetworkMap);
    s.cycle_pane(2);
    assert_eq!(s.focused_pane, PaneId::Dashboard);
    assert!(!s.should_quit);
    s.handle_key(Key::Char('q'));
    assert!(s.should_quit);
}

#[test]
fn the_focused_rack_reads_keys_first() {
    let mut s = session();
    s.game_state.resources.compute = from_units(1_000);
    s.handle_key(Key::Char('2'));
    s.handle_key(Key::Enter);
    assert_eq!(s.game_state.buildings[0].count, 1);
    assert_eq!(s.game_state.resources.compute, from_units(990));
    s.handle_key(Key::Char('u'));
    assert_eq!(s.game_state.buildings[0].level, 1);
    s.handle_key(Key::Down);
    assert_eq!(s.server_rack.selected_index, 1);
    s.handle_key(Key::Char('r'));
    assert_eq!(s.server_rack.view, RackView::Upgrades);
    s.handle_key(Key::Enter);
    assert!(s.game_state.upgrades[0].purchased);
    s.handle_key(Key::Char('q'));
    assert!(s.should_quit);
}

#[test]
fn a_task_takes_the_keys_it_reads() {
    let mut s = session();
    s.task_terminal.cooldown_ticks = 0;
    s.advance(
        None,
        Some(TaskDefinition {
            name: "Test".into(),
            kind: TaskKind::TypeCommand { command: "q1".into() },
            reward: Resources { compute: from_units(40), ..Default::default() },
            time_limit_ticks: 50,
            difficulty: 1,
        }),
    );
    s.handle_key(Key::Char('4'));
    assert_eq!(s.focused_pane, PaneId::TaskTerminal);
    s.handle_key(Key::Char('q'));
    assert!(!s.should_quit);
    assert_eq!(s.task_terminal.current_task().unwrap().input, "q");
    s.handle_key(Key::Tab);
    assert_eq!(s.focused_pane, PaneId::Dashboard);
    s.handle_key(Key::Char('1'));
    assert_eq!(s.task_terminal.current_task().unwrap().input, "q");
    s.handle_key(Key::Char('4'));
    s.handle_key(Key::Char('1'));
    assert!(s.task_terminal.current_task().is_none());
    assert_eq!(s.game_state.tasks_completed, 0);
    s.advance(None, None);
    assert_eq!(s.game_state.tasks_completed, 1);
    assert_eq!(s.game_state.resources.compute, from_units(90));
}

#[test]
fn a_prestige_needs_confirmation() {
    let mut s = session();
    s.handle_key(Key::Char('p'));
    assert!(!s.show_prestige_confirm);
    s.game_state.resources.compute = from_units(4_000_000);
    s.handle_key(Key::Char('p'));
    assert!(s.show_prestige_confirm);
    s.handle_key(Key::Char('q'));
    assert!(!s.should_quit && s.show_prestige_confirm);
    s.handle_key(Key::Tab);
    assert_eq!(s.focused_pane, PaneId::Dashboard);
    s.handle_key(Key::Char('n'));
    assert!(!s.show_prestige_confirm);
    assert_eq!(s.game_state.prestige_count, 0);
    s.dispatch_action(Action::Prestige);
    s.handle_key(Key::Esc);
    assert!(!s.show_prestige_confirm);
    s.dispatch_action(Action::Prestige);
    s.handle_key(Key::Char('y'));
    assert!(!s.show_prestige_confirm);
    assert_eq!(s.game_state.prestige_count, 1);
    assert_eq!(s.game_state.resources.reputation, from_units(2));
    assert_eq!(
        s.achievement_notification.as_deref(),
        Some("PRESTIGE! +2 Reputation (x1.20 multiplier)")
    );
    assert_eq!(s.achievement_display_ticks, 40);
    s.handle_key(Key::Other);
    assert!(s.achievement_notification.is_none());
}

#[test]
fn notices_come_and_go() {
    let mut s = Session::with_parts(
        GameState::with_seed(1),
        TaskTerminal::with_rng(StdRng::seed_from_u64(2)),
        Some("Welcome back!".to_string()),
    );
    s.game_state.resources.compute = from_units(100);
    s.dispatch_action(Action::PurchaseBuilding(BuildingKind::RaspberryPi));
    assert!(!s.advance(None, None));
    assert_eq!(s.achievement_notification.as_deref(), Some("* Hello World unlocked!"));
    assert_eq!(s.achievement_display_ticks, 31);
    assert_eq!(s.welcome_display_ticks, 39);
    for _ in 0..31 {
        s.advance(None, None);
    }
    assert_eq!(s.achievement_display_ticks, 0);
    assert!(s.achievement_notification.is_some());
    s.advance(None, None);
    assert!(s.achievement_notification.is_none());
    assert!(s.welcome_message.is_some());
    for _ in 0..7 {
        s.advance(None, None);
    }
    assert_eq!(s.welcome_display_ticks, 0);
    assert!(s.welcome_message.is_some());
    s.advance(None, None);
    assert!(s.welcome_message.is_none());
    assert_eq!(s.game_state.total_ticks, 41);
}

#[test]
fn a_save_is_due_every_minute() {
    let mut s = session();
    let mut due = Vec::new();
    for tick in 1..=2 * AUTO_SAVE_INTERVAL_TICKS + 5 {
        if s.advance(None, None) {
            due.push(tick);
        }
    }
    assert_eq!(due, vec![240, 480]);
    assert_eq!(s.ticks_since_save, 5);
}

#[test]
fn events_reach_the_game_through_the_session() {
    let mut s = session();
    s.advance(
        Some(GameEvent { kind: GameEventKind::ViralRepo { bonus_reputation: 2_000_000 }, tick: 1 }),
        None,
    );
    assert_eq!(s.game_state.resources.reputation, 2_000_000);
    assert_eq!(s.game_state.event_log.len(), 1);
    assert_eq!(s.task_terminal.cooldown(), 9);
}

#[test]
fn random_ticks_of_a_session() {
    let mut s = session();
    s.game_state.resources.compute = from_units(100);
    s.dispatch_action(Action::PurchaseBuilding(BuildingKind::RaspberryPi));
    let mut saves = 0;
    for _ in 0..1_000 {
        assert!(s.game_state.within_limits());
        if s.game_tick() {
            saves += 1;
        }
    }
    assert_eq!(saves, 4);
    assert_eq!(s.game_state.total_ticks, 1_000);
    assert!(s.game_state.resources.compute > from_units(90));
    assert_eq!(s.game_state.achievements, vec!["first_build"]);
}

#[test]
fn counters_at_their_limits() {
    let mut game = GameState::with_seed(1);
    assert!(game.within_limits());
    game.buildings[3].level = u32::MAX;
    assert!(!game.within_limits());
    game.buildings[3].level = 0;
    game.buildings[20].count = u32::MAX;
    assert!(!game.within_limits());
    game.buildings[20].count = u32::MAX - 1;
    assert!(game.within_limits());
    game.total_ticks = u64::MAX;
    assert!(!game.within_limits());
    game.total_ticks = 0;
    game.prestige_count = u32::MAX;
    assert!(!game.within_limits());
    game.prestige_count = 0;
    game.tasks_completed = u32::MAX;
    assert!(!game.within_limits());
}
