//! The task terminal: one timed task at a time, a cooldown between tasks,
//! and the reward of a solved task, credited one tick later.

use vstd::prelude::*;
use rand::rngs::StdRng;
use crate::action::{Action, Key};
use crate::random::fresh_rng;
use crate::resources::Resources;
use crate::state::{GameState, GameView};
use crate::tasks::{
    generate_random_task, spec_task, ActiveTask, ActiveTaskView, TaskDefinition,
    TaskDefinitionView, TaskKind, TaskKindView, TASK_COOLDOWN_TICKS, TASK_COUNT,
};

verus! {

/// How the last task ended.
#[derive(Debug, Clone, Copy, PartialEq, Eq)]
pub enum TaskResult {
    Completed,
    Failed,
    Expired,
}

/// The state of the task terminal.
#[derive(Debug, Clone)]
pub struct TaskTerminal {
    /// The task in progress, if any.
    pub active_task: Option<ActiveTask>,
    /// The ticks left before the next task is offered.
    pub cooldown_ticks: u32,
    /// The source of random tasks; not part of what the terminal is.
    pub rng: StdRng,
    pub last_result: Option<TaskResult>,
    /// The reward of a task solved since the last tick.
    pub pending_reward: Option<Resources>,
}

/// The task terminal as plain values: every field but the random source.
pub struct TaskTerminalView {
    pub active_task: Option<ActiveTaskView>,
    pub cooldown_ticks: u32,
    pub last_result: Option<TaskResult>,
    pub pending_reward: Option<Resources>,
}

/// What a key does to the terminal: the terminal after it, and what is
/// asked of the host, if the terminal read the key at all.
pub struct TerminalOutcome {
    pub terminal: TaskTerminalView,
    pub action: Option<Action>,
}

impl View for TaskTerminal {
    type V = TaskTerminalView;

    open spec fn view(&self) -> TaskTerminalView {
        TaskTerminalView {
            active_task: match self.active_task {
                Some(task) => Some(task@),
                None => None,
            },
            cooldown_ticks: self.cooldown_ticks,
            last_result: self.last_result,
            pending_reward: self.pending_reward,
        }
    }
}

impl GameView {
    /// The game after a pending reward was granted: the reward, every
    /// resource of it scaled by the task-reward multiplier, is credited and
    /// the task is counted. Without a pending reward nothing changes.
    pub open spec fn after_reward(self, pending: Option<Resources>) -> GameView {
        match pending {
            Some(reward) => GameView {
                resources: self.resources.spec_plus(
                    reward.spec_scaled(self.task_reward_multiplier),
                ),
                tasks_completed: (self.tasks_completed + 1) as u32,
                ..self
            },
            None => self,
        }
    }
}

impl TaskTerminalView {
    /// The terminal as it starts: no task, half a cooldown to wait.
    pub open spec fn spec_new() -> TaskTerminalView {
        TaskTerminalView {
            active_task: None,
            cooldown_ticks: (TASK_COOLDOWN_TICKS / 2) as u32,
            last_result: None,
            pending_reward: None,
        }
    }

    /// The terminal has to draw a new task at the next tick: none is in
    /// progress and the cooldown is over.
    pub open spec fn spawns(self) -> bool {
        self.active_task is None && self.cooldown_ticks == 0
    }

    /// The terminal without a task, waiting a whole cooldown, the last
    /// task having ended as given.
    pub open spec fn ended(self, result: TaskResult) -> TaskTerminalView {
        TaskTerminalView {
            active_task: None,
            cooldown_ticks: TASK_COOLDOWN_TICKS,
            last_result: Some(result),
            ..self
        }
    }

    /// The terminal one tick later: the pending reward is handed over; a
    /// task in progress counts down and, if time is up, expires into a
    /// cooldown; without a task the cooldown counts down and, once over,
    /// the task drawn, if one was, starts.
    pub open spec fn after_tick(self, drawn: Option<TaskDefinitionView>) -> TaskTerminalView {
        let handed = TaskTerminalView { pending_reward: None, ..self };
        match self.active_task {
            Some(task) => if task.ticked().expired() {
                handed.ended(TaskResult::Expired)
            } else {
                TaskTerminalView { active_task: Some(task.ticked()), ..handed }
            },
            None => if self.cooldown_ticks > 0 {
                TaskTerminalView { cooldown_ticks: (self.cooldown_ticks - 1) as u32, ..handed }
            } else {
                match drawn {
                    Some(definition) => TaskTerminalView {
                        active_task: Some(ActiveTaskView::started(definition)),
                        last_result: None,
                        ..handed
                    },
                    None => handed,
                }
            },
        }
    }

    /// The terminal after a task was solved: its reward is pending.
    pub open spec fn solved(self, task: ActiveTaskView) -> TaskTerminalView {
        TaskTerminalView {
            pending_reward: Some(task.definition.reward),
            ..self.ended(TaskResult::Completed)
        }
    }

    /// What a key does while a command is to be typed: a character is
    /// appended and, if the text then is the command, the task is solved;
    /// backspace takes the last character away; other keys are not read.
    pub open spec fn typing_key(self, task: ActiveTaskView, key: Key) -> TerminalOutcome {
        match key {
            Key::Char(c) => {
                let typed = ActiveTaskView { input: task.input.push(c), ..task };
                TerminalOutcome {
                    terminal: if typed.solved() {
                        self.solved(typed)
                    } else {
                        TaskTerminalView { active_task: Some(typed), ..self }
                    },
                    action: Some(Action::Nothing),
                }
            },
            Key::Backspace => TerminalOutcome {
                terminal: TaskTerminalView {
                    active_task: Some(
                        ActiveTaskView {
                            input: if task.input.len() > 0 {
                                task.input.drop_last()
                            } else {
                                task.input
                            },
                            ..task
                        },
                    ),
                    ..self
                },
                action: Some(Action::Nothing),
            },
            _ => TerminalOutcome { terminal: self, action: None },
        }
    }

    /// What a key does while a question is open with `options` options:
    /// the arrows, `k` and `j` move the cursor within the options; Enter
    /// ends the task, solved if the cursor is on the correct option and
    /// failed if not; other keys are not read.
    pub open spec fn choosing_key(
        self,
        task: ActiveTaskView,
        options: int,
        key: Key,
    ) -> TerminalOutcome {
        if key.spec_is_up() {
            TerminalOutcome {
                terminal: TaskTerminalView {
                    active_task: Some(
                        ActiveTaskView {
                            selected_option: if task.selected_option > 0 {
                                (task.selected_option - 1) as usize
                            } else {
                                0
                            },
                            ..task
                        },
                    ),
                    ..self
                },
                action: Some(Action::Nothing),
            }
        } else if key.spec_is_down() {
            TerminalOutcome {
                terminal: TaskTerminalView {
                    active_task: Some(
                        ActiveTaskView {
                            selected_option: if task.selected_option + 1 < options {
                                (task.selected_option + 1) as usize
                            } else {
                                task.selected_option
                            },
                            ..task
                        },
                    ),
                    ..self
                },
                action: Some(Action::Nothing),
            }
        } else if key == Key::Enter {
            TerminalOutcome {
                terminal: if task.solved() {
                    self.solved(task)
                } else {
                    self.ended(TaskResult::Failed)
                },
                action: Some(Action::Nothing),
            }
        } else {
            TerminalOutcome { terminal: self, action: None }
        }
    }

    /// What a key does to the terminal. Without a task no key is read.
    pub open spec fn after_key(self, key: Key) -> TerminalOutcome {
        match self.active_task {
            None => TerminalOutcome { terminal: self, action: None },
            Some(task) => match task.definition.kind {
                TaskKindView::TypeCommand { .. } => self.typing_key(task, key),
                TaskKindView::IncidentResponse { options, .. } => self.choosing_key(
                    task,
                    options.len() as int,
                    key,
                ),
            },
        }
    }
}

impl TaskTerminal {
    /// A terminal that draws its tasks from the given random source.
    pub fn with_rng(rng: StdRng) -> (terminal: TaskTerminal)
        ensures
            terminal@ == TaskTerminalView::spec_new(),
            terminal.rng == rng,
    {
        TaskTerminal {
            active_task: None,
            cooldown_ticks: TASK_COOLDOWN_TICKS / 2,
            rng,
            last_result: None,
            pending_reward: None,
        }
    }

    /// A terminal with a random source seeded by the system.
    pub fn new() -> (terminal: TaskTerminal)
        ensures
            terminal@ == TaskTerminalView::spec_new(),
    {
        TaskTerminal::with_rng(fresh_rng())
    }

    /// One tick with the task to start given, should one have to start.
    pub fn advance(&mut self, game_state: &mut GameState, drawn: Option<TaskDefinition>)
        requires
            old(self).pending_reward is Some ==> old(game_state).tasks_completed < u32::MAX,
        ensures
            final(game_state)@ == old(game_state)@.after_reward(old(self)@.pending_reward),
            final(game_state).rng == old(game_state).rng,
            final(self)@ == old(self)@.after_tick(
                match drawn {
                    Some(definition) => Some(definition@),
                    None => None,
                },
            ),
            final(self).rng == old(self).rng,
    {
        match self.pending_reward.take() {
            Some(reward) => {
                let scaled = reward.scaled(game_state.task_reward_multiplier);
                game_state.resources.add(&scaled);
                game_state.tasks_completed = game_state.tasks_completed + 1;
            },
            None => {},
        }
        match self.active_task.take() {
            Some(task) => {
                let mut task = task;
                task.tick();
                if task.is_expired() {
                    self.last_result = Some(TaskResult::Expired);
                    self.cooldown_ticks = TASK_COOLDOWN_TICKS;
                } else {
                    self.active_task = Some(task);
                }
            },
            None => {
                if self.cooldown_ticks > 0 {
                    self.cooldown_ticks = self.cooldown_ticks - 1;
                } else {
                    match drawn {
                        Some(definition) => {
                            self.active_task = Some(ActiveTask::new(definition));
                            self.last_result = None;
                        },
                        None => {},
                    }
                }
            },
        }
    }

    /// One tick: grants a pending reward to the game, counts the task or
    /// the cooldown down, and draws a new task once the cooldown is over.
    /// Which task is drawn is random; it is always one of the pool.
    pub fn game_tick(&mut self, game_state: &mut GameState)
        requires
            old(self).pending_reward is Some ==> old(game_state).tasks_completed < u32::MAX,
        ensures
            final(game_state)@ == old(game_state)@.after_reward(old(self)@.pending_reward),
            final(game_state).rng == old(game_state).rng,
            !old(self)@.spawns() ==> final(self)@ == old(self)@.after_tick(None),
            old(self)@.spawns() ==> exists|i: int|
                0 <= i < TASK_COUNT && final(self)@ == old(self)@.after_tick(
                    Some(#[trigger] spec_task(i)),
                ),
    {
        if self.active_task.is_none() && self.cooldown_ticks == 0 {
            let definition = generate_random_task(&mut self.rng);
            self.advance(game_state, Some(definition));
        } else {
            self.advance(game_state, None);
        }
    }

    /// Handles a key: text entry for a command, cursor and choice for a
    /// question. Returns nothing where the terminal does not read the key.
    pub fn handle_key_with_state(&mut self, key: Key, _state: &GameState) -> (action: Option<
        Action,
    >)
        ensures
            final(self)@ == old(self)@.after_key(key).terminal,
            final(self).rng == old(self).rng,
            action == old(self)@.after_key(key).action,
    {
        let mut task = match self.active_task.take() {
            Some(task) => task,
            None => {
                return None;
            },
        };
        let options: Option<usize> = match &task.definition.kind {
            TaskKind::TypeCommand { .. } => None,
            TaskKind::IncidentResponse { options, .. } => Some(options.len()),
        };
        match options {
            None => match key {
                Key::Char(c) => {
                    task.input.push(c);
                    if task.check_completion() {
                        self.pending_reward = Some(task.definition.reward);
                        self.last_result = Some(TaskResult::Completed);
                        self.cooldown_ticks = TASK_COOLDOWN_TICKS;
                    } else {
                        self.active_task = Some(task);
                    }
                    Some(Action::Nothing)
                },
                Key::Backspace => {
                    task.input.pop();
                    self.active_task = Some(task);
                    Some(Action::Nothing)
                },
                _ => {
                    self.active_task = Some(task);
                    None
                },
            },
            Some(count) => {
                if key.is_up() {
                    if task.selected_option > 0 {
                        task.selected_option = task.selected_option - 1;
                    }
                    self.active_task = Some(task);
                    Some(Action::Nothing)
                } else if key.is_down() {
                    if task.selected_option < usize::MAX && task.selected_option + 1 < count {
                        task.selected_option = task.selected_option + 1;
                    }
                    self.active_task = Some(task);
                    Some(Action::Nothing)
                } else {
                    match key {
                        Key::Enter => {
                            if task.check_completion() {
                                self.pending_reward = Some(task.definition.reward);
                                self.last_result = Some(TaskResult::Completed);
                            } else {
                                self.last_result = Some(TaskResult::Failed);
                            }
                            self.cooldown_ticks = TASK_COOLDOWN_TICKS;
                            Some(Action::Nothing)
                        },
                        _ => {
                            self.active_task = Some(task);
                            None
                        },
                    }
                }
            },
        }
    }

    /// The task in progress, if any.
    pub fn current_task(&self) -> (task: Option<&ActiveTask>)
        ensures
            task matches Some(t) ==> self.active_task == Some(*t),
            task is None <==> self.active_task is None,
    {
        self.active_task.as_ref()
    }

    /// The ticks left before the next task is offered.
    pub fn cooldown(&self) -> (ticks: u32)
        ensures
            ticks == self.cooldown_ticks,
    {
        self.cooldown_ticks
    }
}

/// A reward is credited exactly once, at the tick after the task was
/// solved: after a tick nothing is pending, and the tasks completed have
/// gone up by one exactly when something was.
pub proof fn lemma_reward_is_granted_once(
    terminal: TaskTerminalView,
    game: GameView,
    drawn: Option<TaskDefinitionView>,
)
    requires
        game.tasks_completed < u32::MAX,
    ensures
        terminal.after_tick(drawn).pending_reward is None,
        game.after_reward(terminal.pending_reward).tasks_completed == game.tasks_completed + (
        if terminal.pending_reward is Some {
            1int
        } else {
            0int
        }),
        game.after_reward(terminal.after_tick(drawn).pending_reward) == game,
{
}

/// At most one task is in progress, and a task only ever starts out of a
/// finished cooldown: after a tick a task is in progress only if one was
/// before or the cooldown was over.
pub proof fn lemma_task_starts_after_cooldown(
    terminal: TaskTerminalView,
    drawn: Option<TaskDefinitionView>,
)
    ensures
        terminal.after_tick(drawn).active_task is Some ==> terminal.active_task is Some
            || terminal.cooldown_ticks == 0,
        terminal.active_task is None && terminal.cooldown_ticks > 0 ==> terminal.after_tick(
            drawn,
        ).cooldown_ticks == terminal.cooldown_ticks - 1,
{
}

} // verus!
