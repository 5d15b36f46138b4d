//! Timed tasks: the pool of challenges, and one challenge in progress.

use vstd::prelude::*;
use vstd::string::StringExecFns;
use rand::rngs::StdRng;
use crate::fixed::{Fixed, SCALE};
use crate::random::random_below;
use crate::resources::Resources;
use crate::text::texts;
use crate::upgrades::spec_cost;

verus! {

/// The ticks to wait after a task ends before the next one is offered.
pub const TASK_COOLDOWN_TICKS: u32 = 20;

/// The number of tasks in the pool.
pub const TASK_COUNT: usize = 12;

/// What a task asks for.
#[derive(Debug, Clone)]
pub enum TaskKind {
    /// Type the command exactly.
    TypeCommand { command: String },
    /// Pick the option at index `correct`.
    IncidentResponse { question: String, options: Vec<String>, correct: usize },
}

/// A task of the pool.
#[derive(Debug, Clone)]
pub struct TaskDefinition {
    pub name: String,
    pub kind: TaskKind,
    /// Credited when the task is solved.
    pub reward: Resources,
    pub time_limit_ticks: u32,
    pub difficulty: u8,
}

/// The task in progress.
#[derive(Debug, Clone)]
pub struct ActiveTask {
    pub definition: TaskDefinition,
    pub remaining_ticks: u32,
    /// What the player has typed so far.
    pub input: String,
    /// The option under the cursor.
    pub selected_option: usize,
    pub completed: bool,
}

/// What a task asks for, as plain values.
pub enum TaskKindView {
    TypeCommand { command: Seq<char> },
    IncidentResponse { question: Seq<char>, options: Seq<Seq<char>>, correct: usize },
}

/// A task as plain values.
pub struct TaskDefinitionView {
    pub name: Seq<char>,
    pub kind: TaskKindView,
    pub reward: Resources,
    pub time_limit_ticks: u32,
    pub difficulty: u8,
}

/// The task in progress as plain values.
pub struct ActiveTaskView {
    pub definition: TaskDefinitionView,
    pub remaining_ticks: u32,
    pub input: Seq<char>,
    pub selected_option: usize,
    pub completed: bool,
}

impl View for TaskKind {
    type V = TaskKindView;

    open spec fn view(&self) -> TaskKindView {
        match self {
            TaskKind::TypeCommand { command } => TaskKindView::TypeCommand { command: command@ },
            TaskKind::IncidentResponse { question, options, correct } => {
                TaskKindView::IncidentResponse {
                    question: question@,
                    options: texts(options@),
                    correct: *correct,
                }
            },
        }
    }
}

impl View for TaskDefinition {
    type V = TaskDefinitionView;

    open spec fn view(&self) -> TaskDefinitionView {
        TaskDefinitionView {
            name: self.name@,
            kind: self.kind@,
            reward: self.reward,
            time_limit_ticks: self.time_limit_ticks,
            difficulty: self.difficulty,
        }
    }
}

impl View for ActiveTask {
    type V = ActiveTaskView;

    open spec fn view(&self) -> ActiveTaskView {
        ActiveTaskView {
            definition: self.definition@,
            remaining_ticks: self.remaining_ticks,
            input: self.input@,
            selected_option: self.selected_option,
            completed: self.completed,
        }
    }
}

impl TaskKindView {
    /// Whether what the player entered solves the task: the typed text is
    /// the command, or the chosen option is the correct one.
    pub open spec fn solved_by(self, input: Seq<char>, selected_option: usize) -> bool {
        match self {
            TaskKindView::TypeCommand { command } => input == command,
            TaskKindView::IncidentResponse { correct, .. } => selected_option == correct,
        }
    }
}

impl ActiveTaskView {
    /// The task as first offered: the whole time limit left, nothing
    /// entered, the cursor on the first option.
    pub open spec fn started(definition: TaskDefinitionView) -> ActiveTaskView {
        ActiveTaskView {
            definition,
            remaining_ticks: definition.time_limit_ticks,
            input: Seq::empty(),
            selected_option: 0,
            completed: false,
        }
    }

    /// The task one tick later: one tick less, if any was left.
    pub open spec fn ticked(self) -> ActiveTaskView {
        ActiveTaskView {
            remaining_ticks: if self.remaining_ticks > 0 {
                (self.remaining_ticks - 1) as u32
            } else {
                0
            },
            ..self
        }
    }

    /// Time is up and the task was not solved.
    pub open spec fn expired(self) -> bool {
        self.remaining_ticks == 0 && !self.completed
    }

    /// What the player entered solves the task.
    pub open spec fn solved(self) -> bool {
        self.definition.kind.solved_by(self.input, self.selected_option)
    }

    /// The task after a check of what the player entered.
    pub open spec fn checked(self) -> ActiveTaskView {
        ActiveTaskView { completed: self.completed || self.solved(), ..self }
    }

    /// The share of the time limit that is left, in millionths; nothing
    /// for a task without a time limit.
    pub open spec fn time_left(self) -> Fixed {
        if self.definition.time_limit_ticks == 0 {
            0
        } else {
            ((self.remaining_ticks as int * SCALE as int) / (
            self.definition.time_limit_ticks as int)) as Fixed
        }
    }
}

/// A task that asks for a command, from its columns: name, command,
/// reward, time limit and difficulty.
pub open spec fn spec_type_command(
    name: &'static str,
    command: &'static str,
    reward: Resources,
    time_limit_ticks: u32,
    difficulty: u8,
) -> TaskDefinitionView {
    TaskDefinitionView {
        name: name@,
        kind: TaskKindView::TypeCommand { command: command@ },
        reward,
        time_limit_ticks,
        difficulty,
    }
}

/// A task that asks a question with four options, from its columns: name,
/// question, the options, the index of the correct one, reward, time limit
/// and difficulty.
pub open spec fn spec_incident(
    name: &'static str,
    question: &'static str,
    first: &'static str,
    second: &'static str,
    third: &'static str,
    fourth: &'static str,
    correct: usize,
    reward: Resources,
    time_limit_ticks: u32,
    difficulty: u8,
) -> TaskDefinitionView {
    TaskDefinitionView {
        name: name@,
        kind: TaskKindView::IncidentResponse {
            question: question@,
            options: seq![first@, second@, third@, fourth@],
            correct,
        },
        reward,
        time_limit_ticks,
        difficulty,
    }
}

/// The pool of tasks, by position.
pub open spec fn spec_task(i: int) -> TaskDefinitionView {
    if i == 0 {
        spec_type_command(
            "Restart Service",
            "sudo systemctl restart nginx",
            spec_cost(50_000_000, 0, 0, 0, 0),
            120,
            1,
        )
    } else if i == 1 {
        spec_type_command(
            "Deploy Hotfix",
            "git push origin hotfix",
            spec_cost(40_000_000, 0, 0, 0, 0),
            100,
            1,
        )
    } else if i == 2 {
        spec_type_command(
            "Check Disk Usage",
            "df -h",
            spec_cost(0, 0, 30_000_000, 0, 0),
            60,
            1,
        )
    } else if i == 3 {
        spec_type_command(
            "Flush DNS Cache",
            "sudo systemd-resolve --flush-caches",
            spec_cost(0, 60_000_000, 0, 0, 0),
            120,
            2,
        )
    } else if i == 4 {
        spec_type_command(
            "Kill Process",
            "kill -9 $(pgrep zombie)",
            spec_cost(80_000_000, 0, 0, 0, 0),
            120,
            2,
        )
    } else if i == 5 {
        spec_type_command(
            "View Logs",
            "tail -f /var/log/syslog",
            spec_cost(35_000_000, 0, 0, 0, 0),
            100,
            1,
        )
    } else if i == 6 {
        spec_type_command(
            "SSL Certificate",
            "certbot renew --dry-run",
            spec_cost(70_000_000, 30_000_000, 0, 0, 0),
            120,
            2,
        )
    } else if i == 7 {
        spec_incident(
            "502 Bad Gateway",
            "Server returning 502. What do you check first?",
            "Check upstream service health",
            "Restart the database",
            "Clear browser cache",
            "Increase disk space",
            0,
            spec_cost(100_000_000, 0, 0, 0, 0),
            60,
            2,
        )
    } else if i == 8 {
        spec_incident(
            "High CPU Alert",
            "CPU at 99%. What's your first step?",
            "Add more RAM",
            "Run top to identify the process",
            "Reboot immediately",
            "Ignore it",
            1,
            spec_cost(80_000_000, 0, 0, 0, 0),
            60,
            1,
        )
    } else if i == 9 {
        spec_incident(
            "Disk Full",
            "Disk at 100%. Quickest safe fix?",
            "Delete /var/log/*.log",
            "Find and clean old logs with logrotate",
            "Buy a new disk",
            "Compress the root partition",
            1,
            spec_cost(0, 0, 120_000_000, 0, 0),
            60,
            2,
        )
    } else if i == 10 {
        spec_incident(
            "DNS Resolution Failure",
            "Users can't resolve your domain. What do you check?",
            "Check DNS records and nameservers",
            "Restart the web server",
            "Update the SSL certificate",
            "Clear the CDN cache",
            0,
            spec_cost(0, 90_000_000, 0, 0, 0),
            60,
            2,
        )
    } else {
        spec_incident(
            "Memory Leak",
            "App memory grows 100MB/hour. Best approach?",
            "Add swap space",
            "Profile with valgrind/heaptrack",
            "Set a cron to restart hourly",
            "Upgrade to more RAM",
            1,
            spec_cost(150_000_000, 0, 0, 0, 0),
            60,
            3,
        )
    }
}

/// A reward from its five columns: compute, bandwidth, storage, reputation
/// and crypto, in millionths.
fn cost(compute: Fixed, bandwidth: Fixed, storage: Fixed, reputation: Fixed, crypto: Fixed) -> (r:
    Resources)
    ensures
        r == spec_cost(compute, bandwidth, storage, reputation, crypto),
{
    Resources { compute, bandwidth, storage, reputation, crypto }
}

/// A task that asks for a command, from its columns.
fn type_command(
    name: &'static str,
    command: &'static str,
    reward: Resources,
    time_limit_ticks: u32,
    difficulty: u8,
) -> (task: TaskDefinition)
    ensures
        task@ == spec_type_command(name, command, reward, time_limit_ticks, difficulty),
{
    TaskDefinition {
        name: String::from_str(name),
        kind: TaskKind::TypeCommand { command: String::from_str(command) },
        reward,
        time_limit_ticks,
        difficulty,
    }
}

/// A task that asks a question with four options, from its columns.
fn incident(
    name: &'static str,
    question: &'static str,
    first: &'static str,
    second: &'static str,
    third: &'static str,
    fourth: &'static str,
    correct: usize,
    reward: Resources,
    time_limit_ticks: u32,
    difficulty: u8,
) -> (task: TaskDefinition)
    ensures
        task@ == spec_incident(
            name,
            question,
            first,
            second,
            third,
            fourth,
            correct,
            reward,
            time_limit_ticks,
            difficulty,
        ),
{
    let mut options: Vec<String> = Vec::new();
    options.push(String::from_str(first));
    options.push(String::from_str(second));
    options.push(String::from_str(third));
    options.push(String::from_str(fourth));
    assert(texts(options@) =~= seq![first@, second@, third@, fourth@]);
    TaskDefinition {
        name: String::from_str(name),
        kind: TaskKind::IncidentResponse {
            question: String::from_str(question),
            options,
            correct,
        },
        reward,
        time_limit_ticks,
        difficulty,
    }
}

/// The task at a position of the pool.
pub fn task_def(i: usize) -> (task: TaskDefinition)
    requires
        i < TASK_COUNT,
    ensures
        task@ == spec_task(i as int),
{
    if i == 0 {
        type_command(
            "Restart Service",
            "sudo systemctl restart nginx",
            cost(50_000_000, 0, 0, 0, 0),
            120,
            1,
        )
    } else if i == 1 {
        type_command(
            "Deploy Hotfix",
            "git push origin hotfix",
            cost(40_000_000, 0, 0, 0, 0),
            100,
            1,
        )
    } else if i == 2 {
        type_command(
            "Check Disk Usage",
            "df -h",
            cost(0, 0, 30_000_000, 0, 0),
            60,
            1,
        )
    } else if i == 3 {
        type_command(
            "Flush DNS Cache",
            "sudo systemd-resolve --flush-caches",
            cost(0, 60_000_000, 0, 0, 0),
            120,
            2,
        )
    } else if i == 4 {
        type_command(
            "Kill Process",
            "kill -9 $(pgrep zombie)",
            cost(80_000_000, 0, 0, 0, 0),
            120,
            2,
        )
    } else if i == 5 {
        type_command(
            "View Logs",
            "tail -f /var/log/syslog",
            cost(35_000_000, 0, 0, 0, 0),
            100,
            1,
        )
    } else if i == 6 {
        type_command(
            "SSL Certificate",
            "certbot renew --dry-run",
            cost(70_000_000, 30_000_000, 0, 0, 0),
            120,
            2,
        )
    } else if i == 7 {
        incident(
            "502 Bad Gateway",
            "Server returning 502. What do you check first?",
            "Check upstream service health",
            "Restart the database",
            "Clear browser cache",
            "Increase disk space",
            0,
            cost(100_000_000, 0, 0, 0, 0),
            60,
            2,
        )
    } else if i == 8 {
        incident(
            "High CPU Alert",
            "CPU at 99%. What's your first step?",
            "Add more RAM",
            "Run top to identify the process",
            "Reboot immediately",
            "Ignore it",
            1,
            cost(80_000_000, 0, 0, 0, 0),
            60,
            1,
        )
    } else if i == 9 {
        incident(
            "Disk Full",
            "Disk at 100%. Quickest safe fix?",
            "Delete /var/log/*.log",
            "Find and clean old logs with logrotate",
            "Buy a new disk",
            "Compress the root partition",
            1,
            cost(0, 0, 120_000_000, 0, 0),
            60,
            2,
        )
    } else if i == 10 {
        incident(
            "DNS Resolution Failure",
            "Users can't resolve your domain. What do you check?",
            "Check DNS records and nameservers",
            "Restart the web server",
            "Update the SSL certificate",
            "Clear the CDN cache",
            0,
            cost(0, 90_000_000, 0, 0, 0),
            60,
            2,
        )
    } else {
        incident(
            "Memory Leak",
            "App memory grows 100MB/hour. Best approach?",
            "Add swap space",
            "Profile with valgrind/heaptrack",
            "Set a cron to restart hourly",
            "Upgrade to more RAM",
            1,
            cost(150_000_000, 0, 0, 0, 0),
            60,
            3,
        )
    }
}

/// The whole pool, in order.
pub fn task_pool() -> (pool: Vec<TaskDefinition>)
    ensures
        pool@.len() == TASK_COUNT,
        forall|i: int| 0 <= i < TASK_COUNT ==> (#[trigger] pool@[i])@ == spec_task(i),
{
    let mut pool: Vec<TaskDefinition> = Vec::new();
    let mut i: usize = 0;
    while i < TASK_COUNT
        invariant
            i <= TASK_COUNT,
            pool@.len() == i,
            forall|j: int| 0 <= j < i ==> (#[trigger] pool@[j])@ == spec_task(j),
        decreases TASK_COUNT - i,
    {
        pool.push(task_def(i));
        i = i + 1;
    }
    pool
}

/// Draws one task of the pool. Which one is random; it is always a task
/// of the pool.
pub fn generate_random_task(rng: &mut StdRng) -> (task: TaskDefinition)
    ensures
        exists|i: int| 0 <= i < TASK_COUNT && task@ == #[trigger] spec_task(i),
{
    let idx = random_below(rng, TASK_COUNT as u32);
    task_def(idx as usize)
}

impl ActiveTask {
    /// Starts a task: the whole time limit left, nothing entered.
    pub fn new(definition: TaskDefinition) -> (task: ActiveTask)
        ensures
            task@ == ActiveTaskView::started(definition@),
            task.definition == definition,
    {
        let remaining = definition.time_limit_ticks;
        ActiveTask {
            definition,
            remaining_ticks: remaining,
            input: String::new(),
            selected_option: 0,
            completed: false,
        }
    }

    /// Counts one tick down, if any is left.
    pub fn tick(&mut self)
        ensures
            final(self)@ == old(self)@.ticked(),
            final(self).definition == old(self).definition,
    {
        if self.remaining_ticks > 0 {
            self.remaining_ticks -= 1;
        }
    }

    /// Whether time is up with the task unsolved.
    pub fn is_expired(&self) -> (expired: bool)
        ensures
            expired == self@.expired(),
    {
        self.remaining_ticks == 0 && !self.completed
    }

    /// The share of the time limit that is left, in millionths.
    pub fn time_fraction(&self) -> (left: Fixed)
        ensures
            left == self@.time_left(),
    {
        if self.definition.time_limit_ticks == 0 {
            0
        } else {
            (self.remaining_ticks as u128) * SCALE / (self.definition.time_limit_ticks as u128)
        }
    }

    /// Checks what the player entered and marks the task completed if it
    /// solves it.
    pub fn check_completion(&mut self) -> (solved: bool)
        ensures
            solved == old(self)@.solved(),
            final(self)@ == old(self)@.checked(),
            final(self).definition == old(self).definition,
    {
        let solved = match &self.definition.kind {
            TaskKind::TypeCommand { command } => self.input == *command,
            TaskKind::IncidentResponse { correct, .. } => self.selected_option == *correct,
        };
        if solved {
            self.completed = true;
        }
        solved
    }
}

/// Every task of the pool has a time limit, and every question has four
/// options of which the correct one is one.
pub proof fn lemma_task_pool_is_sound(i: int)
    requires
        0 <= i < TASK_COUNT,
    ensures
        spec_task(i).time_limit_ticks > 0,
        spec_task(i).kind matches TaskKindView::IncidentResponse { options, correct, .. }
            ==> options.len() == 4 && correct < 4,
{
}

/// A task counts down to expiry: after as many ticks as its time limit an
/// unsolved task has expired, and not before if the limit is not yet used up.
pub proof fn lemma_task_expires_when_time_is_up(task: ActiveTaskView)
    ensures
        task.ticked().remaining_ticks <= task.remaining_ticks,
        task.remaining_ticks == 1 && !task.completed ==> task.ticked().expired(),
        task.remaining_ticks > 1 ==> !task.ticked().expired(),
{
}

} // verus!
