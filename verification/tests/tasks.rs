use idle_terminal::fixed::{from_units, SCALE};
use idle_terminal::resources::Resources;
use idle_terminal::tasks::{
    generate_random_task, task_def, task_pool, ActiveTask, TaskDefinition, TaskKind,
    TASK_COOLDOWN_TICKS, TASK_COUNT,
};
use rand::rngs::StdRng;
use rand::SeedableRng;

#[test]
fn test_type_command_completion() {
    let def = TaskDefinition {
        name: "Test".into(),
        kind: TaskKind::TypeCommand {
            command: "ls -la".into(),
        },
        reward: Resources::default(),
        time_limit_ticks: 100,
        difficulty: 1,
    };
    let mut task = ActiveTask::new(def);
    task.input = "ls -la".into();
    assert!(task.check_completion());
    assert!(task.completed);
}

#[test]
fn test_incident_response_completion() {
    let def = TaskDefinition {
        name: "Test".into(),
        kind: TaskKind::IncidentResponse {
            question: "?".into(),
            options: vec!["A".into(), "B".into(), "C".into()],
            correct: 1,
        },
        reward: Resources::default(),
        time_limit_ticks: 100,
        difficulty: 1,
    };
    let mut task = ActiveTask::new(def);
    task.selected_option = 1;
    assert!(task.check_completion());
}

#[test]
fn test_task_expiry() {
    let def = TaskDefinition {
        name: "Test".into(),
        kind: TaskKind::TypeCommand {
            command: "test".into(),
        },
        reward: Resources::default(),
        time_limit_ticks: 2,
        difficulty: 1,
    };
    let mut task = ActiveTask::new(def);
    assert!(!task.is_expired());
    task.tick();
    task.tick();
    assert!(task.is_expired());
}

fn typing(command: &str, limit: u32) -> TaskDefinition {
    TaskDefinition {
        name: "Test".into(),
        kind: TaskKind::TypeCommand { command: command.into() },
        reward: Resources::default(),
        time_limit_ticks: limit,
        difficulty: 1,
    }
}

#[test]
fn a_new_task_has_its_whole_time_left() {
    let task = ActiveTask::new(typing("df -h", 60));
    assert_eq!(task.remaining_ticks, 60);
    assert_eq!(task.input, "");
    assert_eq!(task.selected_option, 0);
    assert!(!task.completed);
    assert_eq!(task.time_fraction(), SCALE);
}

#[test]
fn wrong_input_does_not_complete() {
    let mut task = ActiveTask::new(typing("ls -la", 10));
    task.input = "ls -l".into();
    assert!(!task.check_completion());
    assert!(!task.completed);
    task.input = "ls -la ".into();
    assert!(!task.check_completion());
    task.input = "ls -la".into();
    assert!(task.check_completion());
    task.input = "other".into();
    assert!(!task.check_completion());
    assert!(task.completed);
}

#[test]
fn wrong_option_does_not_complete() {
    let def = TaskDefinition {
        name: "Test".into(),
        kind: TaskKind::IncidentResponse {
            question: "?".into(),
            options: vec!["A".into(), "B".into()],
            correct: 1,
        },
        reward: Resources::default(),
        time_limit_ticks: 10,
        difficulty: 1,
    };
    let mut task = ActiveTask::new(def);
    assert!(!task.check_completion());
    assert!(!task.completed);
}

#[test]
fn a_completed_task_does_not_expire() {
    let mut task = ActiveTask::new(typing("x", 1));
    task.input = "x".into();
    assert!(task.check_completion());
    task.tick();
    assert_eq!(task.remaining_ticks, 0);
    assert!(!task.is_expired());
    task.tick();
    assert_eq!(task.remaining_ticks, 0);
}

#[test]
fn time_fraction_counts_down() {
    let mut task = ActiveTask::new(typing("x", 4));
    task.tick();
    assert_eq!(task.time_fraction(), 750_000);
    task.tick();
    assert_eq!(task.time_fraction(), 500_000);
    task.tick();
    task.tick();
    assert_eq!(task.time_fraction(), 0);
    let mut third = ActiveTask::new(typing("x", 3));
    third.tick();
    assert_eq!(third.time_fraction(), 666_666);
    let none = ActiveTask::new(typing("x", 0));
    assert_eq!(none.time_fraction(), 0);
    assert!(none.is_expired());
}

#[test]
fn the_pool_of_tasks() {
    let pool = task_pool();
    assert_eq!(pool.len(), TASK_COUNT);
    assert_eq!(TASK_COOLDOWN_TICKS, 20);
    assert_eq!(pool[0].name, "Restart Service");
    match &pool[0].kind {
        TaskKind::TypeCommand { command } => assert_eq!(command, "sudo systemctl restart nginx"),
        _ => panic!("the first task asks for a command"),
    }
    assert_eq!(pool[0].reward, Resources { compute: from_units(50), ..Default::default() });
    assert_eq!(pool[0].time_limit_ticks, 120);
    assert_eq!(pool[0].difficulty, 1);
    assert_eq!(
        pool[6].reward,
        Resources { compute: from_units(70), bandwidth: from_units(30), ..Default::default() }
    );
    match &pool[7].kind {
        TaskKind::IncidentResponse { question, options, correct } => {
            assert_eq!(question, "Server returning 502. What do you check first?");
            assert_eq!(options.len(), 4);
            assert_eq!(options[0], "Check upstream service health");
            assert_eq!(options[3], "Increase disk space");
            assert_eq!(*correct, 0);
        }
        _ => panic!("the eighth task asks a question"),
    }
    match &pool[11].kind {
        TaskKind::IncidentResponse { options, correct, .. } => {
            assert_eq!(options[1], "Profile with valgrind/heaptrack");
            assert_eq!(*correct, 1);
        }
        _ => panic!("the last task asks a question"),
    }
    assert_eq!(pool[11].reward, Resources { compute: from_units(150), ..Default::default() });
    assert_eq!(pool[11].difficulty, 3);
    let typed = pool.iter().filter(|t| matches!(t.kind, TaskKind::TypeCommand { .. })).count();
    assert_eq!(typed, 7);
    for (i, task) in pool.iter().enumerate() {
        assert_eq!(task.name, task_def(i).name);
        assert!(task.time_limit_ticks > 0);
    }
}

#[test]
fn random_tasks_come_from_the_pool() {
    let pool = task_pool();
    let mut rng = StdRng::seed_from_u64(3);
    let mut seen = vec![false; TASK_COUNT];
    for _ in 0..2_000 {
        let task = generate_random_task(&mut rng);
        let i = pool.iter().position(|t| t.name == task.name).expect("a task of the pool");
        assert_eq!(pool[i].time_limit_ticks, task.time_limit_ticks);
        assert_eq!(pool[i].reward, task.reward);
        seen[i] = true;
    }
    assert!(seen.iter().all(|s| *s));
}
