//! A session of play: the game, the panes with a state of their own, and
//! what the host is told to show. The host feeds it keys and ticks.

use vstd::prelude::*;
use vstd::string::StringExecFns;
use crate::action::{Action, Key};
use crate::components::server_rack::ServerRack;
use crate::components::status_bar::StatusBar;
use crate::components::task_terminal::{TaskTerminal, TaskTerminalView};
use crate::events::GameEvent;
use crate::fixed::Fixed;
use crate::format::{
    fixed_text, format_si, push_decimal, spec_decimal, spec_fixed_text, spec_format_si,
};
use crate::layout::PaneId;
use crate::progression::{
    reputation_multiplier, spec_prestige_reputation, spec_reputation_multiplier,
};
use crate::resources::Resources;
use crate::save::LoadResult;
use crate::state::{GameState, GameView};
use crate::tasks::{spec_task, TaskDefinition, TaskDefinitionView, TASK_COUNT};
use crate::text::texts;

verus! {

/// The ticks between two automatic saves: one minute.
pub const AUTO_SAVE_INTERVAL_TICKS: u64 = 240;

/// The ticks for which the welcome message and a prestige notice stay.
pub const NOTICE_TICKS: u32 = 40;

/// The ticks for which a notice of new achievements stays.
pub const ACHIEVEMENT_NOTICE_TICKS: u32 = 32;

/// A session of play.
#[derive(Debug, Clone)]
pub struct Session {
    pub should_quit: bool,
    pub focused_pane: PaneId,
    pub game_state: GameState,
    pub server_rack: ServerRack,
    pub task_terminal: TaskTerminal,
    pub status_bar: StatusBar,
    pub ticks_since_save: u64,
    pub welcome_message: Option<String>,
    pub welcome_display_ticks: u32,
    /// The player was asked to confirm a prestige and has not answered.
    pub show_prestige_confirm: bool,
    pub achievement_notification: Option<String>,
    pub achievement_display_ticks: u32,
}

/// A session as plain values.
pub struct SessionView {
    pub should_quit: bool,
    pub focused_pane: PaneId,
    pub game: GameView,
    pub rack: ServerRack,
    pub terminal: TaskTerminalView,
    pub status_bar: StatusBar,
    pub ticks_since_save: u64,
    pub welcome_message: Option<Seq<char>>,
    pub welcome_display_ticks: u32,
    pub show_prestige_confirm: bool,
    pub achievement_notification: Option<Seq<char>>,
    pub achievement_display_ticks: u32,
}

/// What a tick of the session asks of the host.
pub struct TickOutcome {
    pub session: SessionView,
    /// The game is to be saved now.
    pub save_due: bool,
}

/// The text of an optional string.
pub open spec fn text_of(s: Option<String>) -> Option<Seq<char>> {
    match s {
        Some(s) => Some(s@),
        None => None,
    }
}

/// The plain values of an optional task.
pub open spec fn task_of(task: Option<TaskDefinition>) -> Option<TaskDefinitionView> {
    match task {
        Some(t) => Some(t@),
        None => None,
    }
}

impl View for Session {
    type V = SessionView;

    open spec fn view(&self) -> SessionView {
        SessionView {
            should_quit: self.should_quit,
            focused_pane: self.focused_pane,
            game: self.game_state@,
            rack: self.server_rack,
            terminal: self.task_terminal@,
            status_bar: self.status_bar,
            ticks_since_save: self.ticks_since_save,
            welcome_message: text_of(self.welcome_message),
            welcome_display_ticks: self.welcome_display_ticks,
            show_prestige_confirm: self.show_prestige_confirm,
            achievement_notification: text_of(self.achievement_notification),
            achievement_display_ticks: self.achievement_display_ticks,
        }
    }
}

/// The names of a list, separated by a comma and a space.
pub open spec fn spec_joined(names: Seq<Seq<char>>) -> Seq<char>
    decreases names.len(),
{
    if names.len() == 0 {
        Seq::empty()
    } else if names.len() == 1 {
        names[0]
    } else {
        spec_joined(names.drop_last()) + ", "@ + names.last()
    }
}

/// The notice for newly unlocked achievements.
pub open spec fn spec_unlocked_notice(names: Seq<Seq<char>>) -> Seq<char> {
    "* "@ + spec_joined(names) + " unlocked!"@
}

/// The notice after a prestige: the reputation earned in whole points and
/// the multiplier that the reputation now held gives.
pub open spec fn spec_prestige_notice(earned: Fixed, reputation: Fixed) -> Seq<char> {
    "PRESTIGE! +"@ + spec_fixed_text(earned, 0) + " Reputation (x"@ + spec_fixed_text(
        spec_reputation_multiplier(reputation),
        2,
    ) + " multiplier)"@
}

/// The message that greets a player after `ticks` ticks away.
pub open spec fn spec_welcome(ticks: u64, earnings: Resources) -> Seq<char> {
    "Welcome back! Away "@ + spec_decimal((ticks / 14_400) as nat) + "h "@ + spec_decimal(
        ((ticks / 240) % 60) as nat,
    ) + "m. Earned: +"@ + spec_format_si(earnings.compute) + " CPU, +"@ + spec_format_si(
        earnings.bandwidth,
    ) + " BW, +"@ + spec_format_si(earnings.storage) + " SSD"@
}

/// What a key asks for when no pane has read it: `q` quits, Tab and
/// Shift-Tab move the focus, `1` to `4` set it, `p` asks for a prestige.
pub open spec fn spec_global_action(key: Key) -> Action {
    if key == Key::Char('q') {
        Action::Quit
    } else if key == Key::Tab {
        Action::NextPane
    } else if key == Key::BackTab {
        Action::PrevPane
    } else if key == Key::Char('1') {
        Action::FocusPane(PaneId::Dashboard)
    } else if key == Key::Char('2') {
        Action::FocusPane(PaneId::ServerRack)
    } else if key == Key::Char('3') {
        Action::FocusPane(PaneId::NetworkMap)
    } else if key == Key::Char('4') {
        Action::FocusPane(PaneId::TaskTerminal)
    } else if key == Key::Char('p') {
        Action::Prestige
    } else {
        Action::Nothing
    }
}

impl SessionView {
    /// The session after an action was carried out: quitting, moving the
    /// focus, or a command to the game. A prestige is not carried out at
    /// once: where it is allowed, the player is asked to confirm.
    pub open spec fn dispatched(self, action: Action) -> SessionView {
        match action {
            Action::Quit => SessionView { should_quit: true, ..self },
            Action::NextPane => SessionView { focused_pane: self.focused_pane.spec_cycled(1), ..self },
            Action::PrevPane => SessionView {
                focused_pane: self.focused_pane.spec_cycled(-1i32),
                ..self
            },
            Action::FocusPane(pane) => SessionView { focused_pane: pane, ..self },
            Action::PurchaseBuilding(kind) => SessionView {
                game: self.game.after_purchase_building(kind),
                ..self
            },
            Action::UpgradeBuilding(kind) => SessionView {
                game: self.game.after_upgrade_building(kind),
                ..self
            },
            Action::PurchaseUpgrade(id) => SessionView {
                game: self.game.after_purchase_upgrade(id),
                ..self
            },
            Action::Prestige => SessionView {
                show_prestige_confirm: self.show_prestige_confirm || self.game.can_prestige(),
                ..self
            },
            _ => self,
        }
    }

    /// The session after the answer to the prestige question: `y` carries
    /// the prestige out and gives notice of it, `n` and Escape call it
    /// off, any other key leaves the question open.
    pub open spec fn answered(self, key: Key) -> SessionView {
        if key == Key::Char('y') {
            SessionView {
                game: self.game.after_prestige(),
                show_prestige_confirm: false,
                achievement_notification: Some(
                    spec_prestige_notice(
                        if self.game.can_prestige() {
                            spec_prestige_reputation(
                                self.game.resources.compute,
                            )
                        } else {
                            0
                        },
                        self.game.after_prestige().resources.reputation,
                    ),
                ),
                achievement_display_ticks: NOTICE_TICKS,
                ..self
            }
        } else if key == Key::Char('n') || key == Key::Esc {
            SessionView { show_prestige_confirm: false, ..self }
        } else {
            self
        }
    }

    /// The session after a key: any key dismisses the welcome message and
    /// the notice; an open prestige question takes the key as its answer;
    /// else the focused pane reads the key, and what it does not read is
    /// read as a key of the session.
    pub open spec fn after_key(self, key: Key) -> SessionView {
        let seen = SessionView { welcome_message: None, achievement_notification: None, ..self };
        if seen.show_prestige_confirm {
            seen.answered(key)
        } else if seen.focused_pane == PaneId::ServerRack {
            let outcome = seen.rack.spec_key(key, seen.game);
            let moved = SessionView { rack: outcome.rack, ..seen };
            match outcome.action {
                Some(action) => moved.dispatched(action),
                None => moved.dispatched(spec_global_action(key)),
            }
        } else if seen.focused_pane == PaneId::TaskTerminal {
            let outcome = seen.terminal.after_key(key);
            let typed = SessionView { terminal: outcome.terminal, ..seen };
            match outcome.action {
                Some(action) => typed.dispatched(action),
                None => typed.dispatched(spec_global_action(key)),
            }
        } else {
            seen.dispatched(spec_global_action(key))
        }
    }

    /// The notices one tick later: a notice counts down and leaves once
    /// its time is up, and so does the welcome message.
    pub open spec fn notices_ticked(self) -> SessionView {
        let noticed = match self.achievement_notification {
            Some(_) => if self.achievement_display_ticks > 0 {
                SessionView {
                    achievement_display_ticks: (self.achievement_display_ticks - 1) as u32,
                    ..self
                }
            } else {
                SessionView { achievement_notification: None, ..self }
            },
            None => self,
        };
        match noticed.welcome_message {
            Some(_) => if noticed.welcome_display_ticks > 0 {
                SessionView {
                    welcome_display_ticks: (noticed.welcome_display_ticks - 1) as u32,
                    ..noticed
                }
            } else {
                SessionView { welcome_message: None, ..noticed }
            },
            None => noticed,
        }
    }

    /// What follows the tick of the game and of the task terminal: the
    /// achievements are checked and new ones noticed, the notices count
    /// down, and every `AUTO_SAVE_INTERVAL_TICKS` ticks a save is due.
    pub open spec fn followed_up(self) -> TickOutcome {
        let found = self.game.checked();
        let played = SessionView { game: self.game.after_check(), ..self };
        let noticed = if found.names.len() > 0 {
            SessionView {
                achievement_notification: Some(spec_unlocked_notice(found.names)),
                achievement_display_ticks: ACHIEVEMENT_NOTICE_TICKS,
                ..played
            }
        } else {
            played
        }.notices_ticked();
        if self.ticks_since_save + 1 >= AUTO_SAVE_INTERVAL_TICKS {
            TickOutcome { session: SessionView { ticks_since_save: 0, ..noticed }, save_due: true }
        } else {
            TickOutcome {
                session: SessionView {
                    ticks_since_save: (self.ticks_since_save + 1) as u64,
                    ..noticed
                },
                save_due: false,
            }
        }
    }

    /// The session after one tick that brought the given event and drew
    /// the given task: the game ticks, the task terminal ticks and hands
    /// its pending reward to the game, and the session follows up.
    pub open spec fn after_tick(
        self,
        event: Option<GameEvent>,
        drawn: Option<TaskDefinitionView>,
    ) -> TickOutcome {
        SessionView {
            game: self.game.after_tick(event).after_reward(self.terminal.pending_reward),
            terminal: self.terminal.after_tick(drawn),
            ..self
        }.followed_up()
    }

    /// A session as it starts on a game, with a welcome message or none.
    pub open spec fn started(game: GameView, welcome: Option<Seq<char>>) -> SessionView {
        SessionView {
            should_quit: false,
            focused_pane: PaneId::Dashboard,
            game,
            rack: ServerRack::spec_new(),
            terminal: TaskTerminalView::spec_new(),
            status_bar: StatusBar { focused_pane: PaneId::Dashboard },
            ticks_since_save: 0,
            welcome_message: welcome,
            welcome_display_ticks: NOTICE_TICKS,
            show_prestige_confirm: false,
            achievement_notification: None,
            achievement_display_ticks: 0,
        }
    }
}

/// What a key asks for when no pane has read it.
pub fn global_action(key: Key) -> (action: Action)
    ensures
        action == spec_global_action(key),
{
    match key {
        Key::Tab => Action::NextPane,
        Key::BackTab => Action::PrevPane,
        Key::Char(c) => {
            if c == 'q' {
                Action::Quit
            } else if c == '1' {
                Action::FocusPane(PaneId::Dashboard)
            } else if c == '2' {
                Action::FocusPane(PaneId::ServerRack)
            } else if c == '3' {
                Action::FocusPane(PaneId::NetworkMap)
            } else if c == '4' {
                Action::FocusPane(PaneId::TaskTerminal)
            } else if c == 'p' {
                Action::Prestige
            } else {
                Action::Nothing
            }
        },
        _ => Action::Nothing,
    }
}

/// The names of a list, separated by a comma and a space.
pub fn joined(names: &Vec<String>) -> (text: String)
    ensures
        text@ == spec_joined(texts(names@)),
{
    let mut text = String::new();
    let mut i: usize = 0;
    while i < names.len()
        invariant
            i <= names@.len(),
            text@ == spec_joined(texts(names@).take(i as int)),
        decreases names@.len() - i,
    {
        proof {
            let so_far = texts(names@).take(i as int);
            let next = texts(names@).take(i as int + 1);
            assert(next.drop_last() =~= so_far);
            assert(next.last() == names@[i as int]@);
        }
        if i > 0 {
            text.append(", ");
        }
        text.append(names[i].as_str());
        proof {
            assert(text@ =~= spec_joined(texts(names@).take(i as int + 1)));
        }
        i = i + 1;
    }
    proof {
        assert(texts(names@).take(i as int) =~= texts(names@));
    }
    text
}

/// The notice for newly unlocked achievements.
pub fn unlocked_notice(names: &Vec<String>) -> (text: String)
    ensures
        text@ == spec_unlocked_notice(texts(names@)),
{
    let mut text = String::from_str("* ");
    text.append(joined(names).as_str());
    text.append(" unlocked!");
    text
}

/// The notice after a prestige.
pub fn prestige_notice(earned: Fixed, reputation: Fixed) -> (text: String)
    ensures
        text@ == spec_prestige_notice(earned, reputation),
{
    let mut text = String::from_str("PRESTIGE! +");
    text.append(fixed_text(earned, 0).as_str());
    text.append(" Reputation (x");
    text.append(fixed_text(reputation_multiplier(reputation), 2).as_str());
    text.append(" multiplier)");
    text
}

/// The message that greets a player after `ticks` ticks away.
pub fn welcome(ticks: u64, earnings: &Resources) -> (text: String)
    ensures
        text@ == spec_welcome(ticks, *earnings),
{
    let mut text = String::from_str("Welcome back! Away ");
    push_decimal(&mut text, (ticks / 14_400) as u128);
    text.append("h ");
    push_decimal(&mut text, ((ticks / 240) % 60) as u128);
    text.append("m. Earned: +");
    text.append(format_si(earnings.compute).as_str());
    text.append(" CPU, +");
    text.append(format_si(earnings.bandwidth).as_str());
    text.append(" BW, +");
    text.append(format_si(earnings.storage).as_str());
    text.append(" SSD");
    text
}

impl Session {
    /// Two sessions hold the same random sources.
    pub open spec fn same_sources(self, other: Session) -> bool {
        self.game_state.rng == other.game_state.rng && self.task_terminal.rng
            == other.task_terminal.rng
    }

    /// A session on a game, with the task terminal given; the welcome
    /// message, if any, stays for `NOTICE_TICKS` ticks.
    pub fn with_parts(
        game_state: GameState,
        task_terminal: TaskTerminal,
        welcome: Option<String>,
    ) -> (session: Session)
        ensures
            session@ == (SessionView {
                terminal: task_terminal@,
                ..SessionView::started(game_state@, text_of(welcome))
            }),
            session.game_state.rng == game_state.rng,
            session.task_terminal.rng == task_terminal.rng,
    {
        Session {
            should_quit: false,
            focused_pane: PaneId::Dashboard,
            game_state,
            server_rack: ServerRack::new(),
            task_terminal,
            status_bar: StatusBar::new(),
            ticks_since_save: 0,
            welcome_message: welcome,
            welcome_display_ticks: NOTICE_TICKS,
            show_prestige_confirm: false,
            achievement_notification: None,
            achievement_display_ticks: 0,
        }
    }

    /// A session on a loaded game, or on a new game where none was loaded.
    /// A game that made up for time away greets the player with what the
    /// time away earned.
    pub fn new(loaded: Option<LoadResult>) -> (session: Session)
        ensures
            session@ == match loaded {
                Some(result) => SessionView::started(
                    result.state@,
                    if result.offline_ticks > 0 {
                        Some(spec_welcome(result.offline_ticks, result.offline_earnings))
                    } else {
                        None
                    },
                ),
                None => SessionView::started(GameView::new_game(), None),
            },
            loaded matches Some(result) ==> session.game_state.rng == result.state.rng,
    {
        match loaded {
            Some(result) => {
                let message = if result.offline_ticks > 0 {
                    Some(welcome(result.offline_ticks, &result.offline_earnings))
                } else {
                    None
                };
                Session::with_parts(result.state, TaskTerminal::new(), message)
            },
            None => Session::with_parts(GameState::new(), TaskTerminal::new(), None),
        }
    }

    /// Moves the focus `direction` panes on.
    pub fn cycle_pane(&mut self, direction: i32)
        ensures
            final(self)@ == (SessionView {
                focused_pane: old(self).focused_pane.spec_cycled(direction),
                ..old(self)@
            }),
            final(self).same_sources(*old(self)),
    {
        self.focused_pane = self.focused_pane.cycled(direction);
    }

    /// Carries an action out.
    pub fn dispatch_action(&mut self, action: Action)
        requires
            old(self).game_state@.within_limits(),
        ensures
            final(self)@ == old(self)@.dispatched(action),
            final(self).same_sources(*old(self)),
    {
        match action {
            Action::Quit => {
                self.should_quit = true;
            },
            Action::NextPane => {
                self.cycle_pane(1);
            },
            Action::PrevPane => {
                self.cycle_pane(-1);
            },
            Action::FocusPane(pane) => {
                self.focused_pane = pane;
            },
            Action::PurchaseBuilding(kind) => {
                self.game_state.purchase_building(kind);
            },
            Action::UpgradeBuilding(kind) => {
                self.game_state.upgrade_building(kind);
            },
            Action::PurchaseUpgrade(id) => {
                self.game_state.purchase_upgrade(id);
            },
            Action::Prestige => {
                if self.game_state.can_prestige() {
                    self.show_prestige_confirm = true;
                }
            },
            _ => {},
        }
    }

    /// Takes a key in.
    pub fn handle_key(&mut self, key: Key)
        requires
            old(self).game_state@.within_limits(),
        ensures
            final(self)@ == old(self)@.after_key(key),
            final(self).same_sources(*old(self)),
    {
        self.welcome_message = None;
        self.achievement_notification = None;
        if self.show_prestige_confirm {
            match key {
                Key::Char(c) => {
                    if c == 'y' {
                        let earned = self.game_state.prestige();
                        self.show_prestige_confirm = false;
                        self.achievement_notification = Some(
                            prestige_notice(earned, self.game_state.resources.reputation),
                        );
                        self.achievement_display_ticks = NOTICE_TICKS;
                    } else if c == 'n' {
                        self.show_prestige_confirm = false;
                    }
                },
                Key::Esc => {
                    self.show_prestige_confirm = false;
                },
                _ => {},
            }
            return ;
        }
        let component_action = match self.focused_pane {
            PaneId::ServerRack => self.server_rack.handle_key_with_state(key, &self.game_state),
            PaneId::TaskTerminal => self.task_terminal.handle_key_with_state(
                key,
                &self.game_state,
            ),
            _ => None,
        };
        match component_action {
            Some(action) => {
                self.dispatch_action(action);
            },
            None => {
                self.dispatch_action(global_action(key));
            },
        }
    }

    /// What follows the tick of the game and of the task terminal.
    /// Returns whether a save is due.
    fn follow_up(&mut self) -> (save_due: bool)
        ensures
            final(self)@ == old(self)@.followed_up().session,
            final(self).same_sources(*old(self)),
            save_due == old(self)@.followed_up().save_due,
    {
        let names = self.game_state.check_achievements();
        if names.len() > 0 {
            self.achievement_notification = Some(unlocked_notice(&names));
            self.achievement_display_ticks = ACHIEVEMENT_NOTICE_TICKS;
        }
        if self.achievement_notification.is_some() {
            if self.achievement_display_ticks > 0 {
                self.achievement_display_ticks = self.achievement_display_ticks - 1;
            } else {
                self.achievement_notification = None;
            }
        }
        if self.welcome_message.is_some() {
            if self.welcome_display_ticks > 0 {
                self.welcome_display_ticks = self.welcome_display_ticks - 1;
            } else {
                self.welcome_message = None;
            }
        }
        if self.ticks_since_save >= AUTO_SAVE_INTERVAL_TICKS - 1 {
            self.ticks_since_save = 0;
            true
        } else {
            self.ticks_since_save = self.ticks_since_save + 1;
            false
        }
    }

    /// One tick with the event it brings and the task it draws given.
    /// Returns whether a save is due.
    pub fn advance(&mut self, event: Option<GameEvent>, drawn: Option<TaskDefinition>) -> (save_due:
        bool)
        requires
            old(self).game_state@.within_limits(),
        ensures
            final(self)@ == old(self)@.after_tick(event, task_of(drawn)).session,
            final(self).same_sources(*old(self)),
            save_due == old(self)@.after_tick(event, task_of(drawn)).save_due,
    {
        self.game_state.advance(event);
        self.task_terminal.advance(&mut self.game_state, drawn);
        self.follow_up()
    }

    /// One tick: the game and the task terminal tick, each with its own
    /// random draw, and the session follows. Returns whether a save is due.
    /// Whatever is drawn, the session after the tick is the one that the
    /// event and the task drawn give.
    pub fn game_tick(&mut self) -> (save_due: bool)
        requires
            old(self).game_state@.within_limits(),
        ensures
            exists|event: Option<GameEvent>, drawn: Option<TaskDefinitionView>|
                {
                    &&& final(self)@ == (#[trigger] old(self)@.after_tick(event, drawn)).session
                    &&& save_due == old(self)@.after_tick(event, drawn).save_due
                    &&& old(self).game_state@.ticks_to(
                        old(self).game_state@.after_tick(event),
                        event,
                    )
                },
    {
        let ghost before = self.game_state@;
        self.game_state.tick();
        let ghost event = choose|event: Option<GameEvent>| before.ticks_to(self.game_state@, event);
        let ghost terminal = self.task_terminal@;
        self.task_terminal.game_tick(&mut self.game_state);
        let ghost drawn: Option<TaskDefinitionView> = if terminal.spawns() {
            Some(
                spec_task(
                    choose|i: int|
                        0 <= i < TASK_COUNT && self.task_terminal@
                            == terminal.after_tick(Some(#[trigger] spec_task(i))),
                ),
            )
        } else {
            None
        };
        let save_due = self.follow_up();
        proof {
            assert(final(self)@ == old(self)@.after_tick(event, drawn).session);
        }
        save_due
    }
}

/// Answering the prestige question always closes it, except by a key
/// that is no answer; and no key but `y` to an open question carries a
/// prestige out.
pub proof fn lemma_prestige_needs_confirmation(session: SessionView, key: Key)
    ensures
        !session.show_prestige_confirm ==> session.after_key(key).game.prestige_count
            == session.game.prestige_count,
        session.show_prestige_confirm && key != Key::Char('y') ==> session.after_key(key).game
            == session.game,
        session.show_prestige_confirm && (key == Key::Char('y') || key == Key::Char('n') || key
            == Key::Esc) ==> !session.after_key(key).show_prestige_confirm,
{
    let seen = SessionView {
        welcome_message: None,
        achievement_notification: None,
        ..session
    };
    if !session.show_prestige_confirm {
        if seen.focused_pane == PaneId::ServerRack {
            let outcome = seen.rack.spec_key(key, seen.game);
            let moved = SessionView { rack: outcome.rack, ..seen };
            lemma_dispatch_keeps_prestige_count(
                moved,
                match outcome.action {
                    Some(action) => action,
                    None => spec_global_action(key),
                },
            );
        } else if seen.focused_pane == PaneId::TaskTerminal {
            let outcome = seen.terminal.after_key(key);
            let typed = SessionView { terminal: outcome.terminal, ..seen };
            lemma_dispatch_keeps_prestige_count(
                typed,
                match outcome.action {
                    Some(action) => action,
                    None => spec_global_action(key),
                },
            );
        } else {
            lemma_dispatch_keeps_prestige_count(seen, spec_global_action(key));
        }
    }
}

/// No action carries a prestige out.
pub proof fn lemma_dispatch_keeps_prestige_count(session: SessionView, action: Action)
    ensures
        session.dispatched(action).game.prestige_count == session.game.prestige_count,
{
}

} // verus!
