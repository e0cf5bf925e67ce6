use soro_task::error::Error;
use soro_task::key::DataKey;
use soro_task::host::{Host, Invoker};
use soro_task::registry::{Outcome, SoroTaskContract};
use soro_task::dispatch::{Event, Step};
use soro_task::task::{
    enroll, next_id, Call, CallKind, Notification, Registration, ResolverReply, TargetReply,
    TaskConfig,
};

fn sample(resolver: Option<&str>, interval: u64, last_run: u64) -> TaskConfig {
    TaskConfig {
        creator: String::from("creator"),
        target: String::from("target"),
        function: String::from("f"),
        args: Vec::new(),
        resolver: resolver.map(String::from),
        interval,
        last_run,
        gas_balance: 1000,
    }
}

fn to_target(callee: &str, function: &str, args: Vec<u64>) -> (CallKind, Call) {
    (CallKind::Target, Call { callee: String::from(callee), function: String::from(function), args })
}

fn to_resolver(callee: &str, args: Vec<u64>) -> (CallKind, Call) {
    (
        CallKind::Resolver,
        Call { callee: String::from(callee), function: String::from("check_condition"), args },
    )
}

fn host(now: u64, resolver: ResolverReply, target: TargetReply) -> Invoker {
    Invoker::new(Host { now, resolver, target })
}

#[test]
fn test_register_and_get_task() {
    let mut contract = SoroTaskContract::new();

    let creator = String::from("GCREATOR");
    let target = String::from("CTARGET");
    let args: Vec<u64> = vec![];

    let task_config = TaskConfig {
        creator: creator.clone(),
        target: target.clone(),
        function: String::from("my_func"),
        args: args.clone(),
        resolver: None,
        interval: 100,
        last_run: 0,
        gas_balance: 1000,
    };

    let task_id = 1;
    assert_eq!(contract.register(task_config, true), Ok(task_id));

    let registered_task = contract.get_task(task_id);
    assert!(registered_task.is_some());

    let retrieved_config = registered_task.unwrap();
    assert_eq!(retrieved_config.creator, creator);
    assert_eq!(retrieved_config.target, target);
    assert_eq!(retrieved_config.interval, 100);
    assert_eq!(retrieved_config.gas_balance, 1000);
    assert_eq!(retrieved_config.function, "my_func");
    assert_eq!(retrieved_config.args, args);
}

#[test]
fn test_get_non_existent_task() {
    let contract = SoroTaskContract::new();

    let task = contract.get_task(999);
    assert!(task.is_none());
}

#[test]
fn ids_start_at_one_and_increase() {
    let mut contract = SoroTaskContract::new();
    assert_eq!(contract.counter(), 0);
    assert_eq!(contract.register(sample(None, 10, 0), true), Ok(1));
    assert_eq!(contract.register(sample(Some("r"), 20, 0), true), Ok(2));
    assert_eq!(contract.register(sample(None, 30, 0), true), Ok(3));
    assert_eq!(contract.counter(), 3);
    assert_eq!(contract.get_task(1).unwrap().interval, 10);
    assert_eq!(contract.get_task(2).unwrap().interval, 20);
    assert_eq!(contract.get_task(2).unwrap().resolver, Some(String::from("r")));
    assert_eq!(contract.get_task(3).unwrap().interval, 30);
    assert!(contract.get_task(0).is_none());
    assert!(contract.get_task(4).is_none());
    assert!(contract.get_task(u64::MAX).is_none());
}

#[test]
fn next_id_follows_the_counter() {
    assert_eq!(next_id(0), 1);
    assert_eq!(next_id(41), 42);
    assert_eq!(next_id(u64::MAX - 1), u64::MAX);
}

#[test]
fn registration_forces_last_run_to_zero() {
    let mut contract = SoroTaskContract::new();
    assert_eq!(contract.register(sample(None, 7, 123_456), true), Ok(1));
    let stored = contract.get_task(1).unwrap();
    assert_eq!(stored.last_run, 0);
    assert_eq!(stored.interval, 7);
    assert_eq!(stored.creator, "creator");
    assert_eq!(stored.target, "target");
    assert_eq!(stored.function, "f");
    assert_eq!(stored.gas_balance, 1000);
    assert_eq!(stored.resolver, None);
}

#[test]
fn into_record_changes_only_last_run() {
    let mut config = sample(Some("r"), 9, 77);
    config.args = vec![3, 1, 2];
    config.gas_balance = -5;
    let record = config.clone().into_record();
    assert_eq!(record.last_run, 0);
    assert_eq!(record.args, vec![3, 1, 2]);
    assert_eq!(record.gas_balance, -5);
    assert_eq!(record.interval, 9);
    assert_eq!(record.resolver, config.resolver);
    assert_eq!(record.creator, config.creator);
}

#[test]
fn zero_interval_is_refused_and_changes_nothing() {
    let mut contract = SoroTaskContract::new();
    assert_eq!(contract.register(sample(None, 0, 0), true), Err(Error::InvalidInterval));
    assert_eq!(contract.counter(), 0);
    assert!(contract.get_task(1).is_none());
    assert!(contract.notifications().is_empty());
    assert!(!contract.has_record(&DataKey::Counter));
    assert!(!contract.has_record(&DataKey::Task(1)));
    assert_eq!(contract.register(sample(None, 5, 0), true), Ok(1));
    assert_eq!(contract.register(sample(None, 0, 0), true), Err(Error::InvalidInterval));
    assert_eq!(contract.counter(), 1);
    assert!(contract.get_task(2).is_none());
    assert_eq!(contract.notifications().len(), 1);
    assert_eq!(contract.register(sample(None, 6, 0), true), Ok(2));
}

#[test]
fn missing_authorization_is_refused_first() {
    let mut contract = SoroTaskContract::new();
    assert_eq!(contract.register(sample(None, 5, 0), false), Err(Error::Unauthorized));
    assert_eq!(contract.register(sample(None, 0, 0), false), Err(Error::Unauthorized));
    assert_eq!(contract.counter(), 0);
    assert!(contract.get_task(1).is_none());
    assert!(contract.notifications().is_empty());
}

#[test]
fn validate_tells_zero_from_the_rest() {
    assert_eq!(sample(None, 0, 0).validate(), Err(Error::InvalidInterval));
    assert_eq!(sample(None, 1, 0).validate(), Ok(()));
    assert_eq!(sample(None, u64::MAX, 0).validate(), Ok(()));
}

#[test]
fn error_codes() {
    assert_eq!(Error::InvalidInterval.code(), Some(1));
    assert_eq!(Error::Unauthorized.code(), None);
    assert_eq!(Error::TaskNotFound.code(), None);
    assert_eq!(Error::TargetFailed.code(), None);
}

#[test]
fn registration_sends_one_notification() {
    let mut contract = SoroTaskContract::new();
    let mut first = sample(None, 5, 0);
    first.creator = String::from("alice");
    let mut second = sample(None, 5, 0);
    second.creator = String::from("bob");
    assert_eq!(contract.register(first, true), Ok(1));
    assert_eq!(contract.register(second, true), Ok(2));
    let events = contract.notifications();
    assert_eq!(events.len(), 2);
    assert_eq!(events[0].task_id, 1);
    assert_eq!(events[0].creator, "alice");
    assert_eq!(events[1].task_id, 2);
    assert_eq!(events[1].creator, "bob");
    let mut ready = host(9, ResolverReply::Verdict(true), TargetReply::Returned);
    assert_eq!(contract.execute(1, &mut ready), Ok(Outcome::Fired));
    assert_eq!(contract.notifications().len(), 2);
}

#[test]
fn registration_notice_carries_id_and_creator() {
    let mut config = sample(None, 5, 0);
    config.creator = String::from("carol");
    let notice = config.registration_notice(17);
    assert_eq!(notice.task_id, 17);
    assert_eq!(notice.creator, "carol");
}

#[test]
fn records_are_kept_under_their_keys() {
    let mut contract = SoroTaskContract::new();
    assert!(!contract.has_record(&DataKey::Counter));
    assert!(!contract.has_record(&DataKey::Task(0)));
    assert_eq!(contract.register(sample(None, 5, 0), true), Ok(1));
    assert!(contract.has_record(&DataKey::Counter));
    assert!(contract.has_record(&DataKey::Task(1)));
    assert!(!contract.has_record(&DataKey::Task(0)));
    assert!(!contract.has_record(&DataKey::Task(2)));
}

#[test]
fn execute_on_unknown_id_is_not_found() {
    let mut contract = SoroTaskContract::new();
    let mut ready = host(50, ResolverReply::Verdict(true), TargetReply::Returned);
    assert_eq!(contract.execute(1, &mut ready), Err(Error::TaskNotFound));
    assert_eq!(contract.execute(0, &mut ready), Err(Error::TaskNotFound));
    assert!(ready.calls().is_empty());
    assert_eq!(contract.register(sample(None, 5, 0), true), Ok(1));
    assert_eq!(contract.execute(2, &mut ready), Err(Error::TaskNotFound));
    assert_eq!(contract.execute(0, &mut ready), Err(Error::TaskNotFound));
    assert_eq!(contract.counter(), 1);
    assert_eq!(contract.get_task(1).unwrap().last_run, 0);
    assert!(contract.get_task(2).is_none());
}

#[test]
fn scenario_without_resolver_fires() {
    let mut contract = SoroTaskContract::new();
    let config = TaskConfig {
        creator: String::from("C"),
        target: String::from("T"),
        function: String::from("f"),
        args: vec![],
        resolver: None,
        interval: 100,
        last_run: 0,
        gas_balance: 1000,
    };
    assert_eq!(contract.register(config, true), Ok(1));
    assert_eq!(contract.get_task(1).unwrap().interval, 100);
    assert_eq!(contract.get_task(1).unwrap().last_run, 0);
    let mut ledger = host(1_700_000_000, ResolverReply::Failed, TargetReply::Returned);
    assert_eq!(contract.execute(1, &mut ledger), Ok(Outcome::Fired));
    assert_eq!(ledger.calls(), &vec![to_target("T", "f", vec![])]);
    assert_eq!(contract.get_task(1).unwrap().last_run, 1_700_000_000);
    assert_eq!(contract.get_task(1).unwrap().interval, 100);
}

#[test]
fn scenario_with_refusing_resolver_does_nothing() {
    let mut contract = SoroTaskContract::new();
    let config = TaskConfig {
        creator: String::from("C"),
        target: String::from("T"),
        function: String::from("f"),
        args: vec![],
        resolver: Some(String::from("R")),
        interval: 100,
        last_run: 0,
        gas_balance: 1000,
    };
    assert_eq!(contract.register(config, true), Ok(1));
    let mut ledger = host(1_700_000_000, ResolverReply::Verdict(false), TargetReply::Returned);
    assert_eq!(contract.execute(1, &mut ledger), Ok(Outcome::NotReady));
    assert_eq!(ledger.calls(), &vec![to_resolver("R", vec![])]);
    assert_eq!(contract.get_task(1).unwrap().last_run, 0);
}

#[test]
fn task_without_resolver_fires_every_time() {
    let mut contract = SoroTaskContract::new();
    assert_eq!(contract.register(sample(None, 1000, 0), true), Ok(1));
    for (now, reply) in [
        (10, ResolverReply::Verdict(false)),
        (11, ResolverReply::Failed),
        (11, ResolverReply::Verdict(true)),
        (5, ResolverReply::Verdict(false)),
    ] {
        let mut invoker = host(now, reply, TargetReply::Returned);
        assert_eq!(contract.execute(1, &mut invoker), Ok(Outcome::Fired));
        assert_eq!(invoker.calls(), &vec![to_target("target", "f", vec![])]);
        assert_eq!(contract.get_task(1).unwrap().last_run, now);
    }
}

#[test]
fn failing_resolver_counts_as_not_ready() {
    let mut contract = SoroTaskContract::new();
    assert_eq!(contract.register(sample(Some("r"), 5, 0), true), Ok(1));
    let mut failed = host(40, ResolverReply::Failed, TargetReply::Returned);
    assert_eq!(contract.execute(1, &mut failed), Ok(Outcome::NotReady));
    assert_eq!(failed.calls(), &vec![to_resolver("r", vec![])]);
    assert_eq!(contract.get_task(1).unwrap().last_run, 0);
    let mut refused = host(41, ResolverReply::Verdict(false), TargetReply::Failed);
    assert_eq!(contract.execute(1, &mut refused), Ok(Outcome::NotReady));
    assert_eq!(refused.calls(), &vec![to_resolver("r", vec![])]);
    assert_eq!(contract.get_task(1).unwrap().last_run, 0);
}

#[test]
fn consecutive_evaluations_both_fire() {
    let mut contract = SoroTaskContract::new();
    assert_eq!(contract.register(sample(Some("r"), 3600, 0), true), Ok(1));
    let mut first = host(500, ResolverReply::Verdict(true), TargetReply::Returned);
    assert_eq!(contract.execute(1, &mut first), Ok(Outcome::Fired));
    assert_eq!(first.calls(), &vec![to_resolver("r", vec![]), to_target("target", "f", vec![])]);
    assert_eq!(contract.get_task(1).unwrap().last_run, 500);
    assert_eq!(contract.execute(1, &mut first), Ok(Outcome::Fired));
    assert_eq!(
        first.calls(),
        &vec![
            to_resolver("r", vec![]),
            to_target("target", "f", vec![]),
            to_resolver("r", vec![]),
            to_target("target", "f", vec![])
        ]
    );
    assert_eq!(contract.get_task(1).unwrap().last_run, 500);
    let mut second = host(501, ResolverReply::Verdict(true), TargetReply::Returned);
    assert_eq!(contract.execute(1, &mut second), Ok(Outcome::Fired));
    assert_eq!(contract.get_task(1).unwrap().last_run, 501);
}

#[test]
fn failing_target_leaves_last_run() {
    let mut contract = SoroTaskContract::new();
    assert_eq!(contract.register(sample(None, 5, 0), true), Ok(1));
    assert_eq!(contract.register(sample(Some("r"), 5, 0), true), Ok(2));
    let mut fine = host(30, ResolverReply::Verdict(true), TargetReply::Returned);
    assert_eq!(contract.execute(1, &mut fine), Ok(Outcome::Fired));
    let mut broken = host(60, ResolverReply::Verdict(true), TargetReply::Failed);
    assert_eq!(contract.execute(1, &mut broken), Err(Error::TargetFailed));
    assert_eq!(broken.calls(), &vec![to_target("target", "f", vec![])]);
    assert_eq!(contract.get_task(1).unwrap().last_run, 30);
    assert_eq!(contract.execute(2, &mut broken), Err(Error::TargetFailed));
    assert_eq!(contract.get_task(2).unwrap().last_run, 0);
}

#[test]
fn firing_touches_only_the_task_evaluated() {
    let mut contract = SoroTaskContract::new();
    let mut config = sample(Some("r"), 8, 0);
    config.args = vec![7, 8, 9];
    config.gas_balance = i128::MIN;
    assert_eq!(contract.register(sample(None, 5, 0), true), Ok(1));
    assert_eq!(contract.register(config, true), Ok(2));
    let mut ready = host(99, ResolverReply::Verdict(true), TargetReply::Returned);
    assert_eq!(contract.execute(2, &mut ready), Ok(Outcome::Fired));
    assert_eq!(
        ready.calls(),
        &vec![to_resolver("r", vec![7, 8, 9]), to_target("target", "f", vec![7, 8, 9])]
    );
    assert_eq!(contract.get_task(1).unwrap().last_run, 0);
    let fired = contract.get_task(2).unwrap();
    assert_eq!(fired.last_run, 99);
    assert_eq!(fired.interval, 8);
    assert_eq!(fired.args, vec![7, 8, 9]);
    assert_eq!(fired.gas_balance, i128::MIN);
    assert_eq!(fired.resolver, Some(String::from("r")));
    assert_eq!(fired.creator, "creator");
    assert_eq!(fired.target, "target");
    assert_eq!(fired.function, "f");
    assert_eq!(contract.counter(), 2);
}

#[test]
fn monitor_does_nothing() {
    let mut contract = SoroTaskContract::new();
    assert_eq!(contract.register(sample(None, 5, 3), true), Ok(1));
    contract.monitor();
    assert_eq!(contract.counter(), 1);
    assert_eq!(contract.get_task(1).unwrap().last_run, 0);
    assert_eq!(contract.get_task(1).unwrap().interval, 5);
    assert!(contract.get_task(2).is_none());
    assert_eq!(contract.notifications().len(), 1);
}

#[test]
fn calls_of_a_task() {
    let mut config = sample(Some("oracle"), 5, 0);
    config.target = String::from("vault");
    config.function = String::from("harvest");
    config.args = vec![1, 2, 3];
    assert_eq!(
        config.resolver_call(),
        Some(Call {
            callee: String::from("oracle"),
            function: String::from("check_condition"),
            args: vec![1, 2, 3],
        })
    );
    assert_eq!(
        config.target_call(),
        Call { callee: String::from("vault"), function: String::from("harvest"), args: vec![1, 2, 3] }
    );
    assert_eq!(sample(None, 5, 0).resolver_call(), None);
}

#[test]
fn only_an_explicit_true_is_ready() {
    assert!(ResolverReply::Verdict(true).is_ready());
    assert!(!ResolverReply::Verdict(false).is_ready());
    assert!(!ResolverReply::Failed.is_ready());
}

#[test]
fn mark_fired_sets_last_run_only() {
    let mut record = sample(Some("r"), 5, 0);
    record.mark_fired(1234);
    assert_eq!(record.last_run, 1234);
    assert_eq!(record.interval, 5);
    assert_eq!(record.resolver, Some(String::from("r")));
    record.mark_fired(3);
    assert_eq!(record.last_run, 3);
}

#[test]
fn invoker_answers_as_told_and_logs() {
    let mut invoker = host(12, ResolverReply::Verdict(true), TargetReply::Failed);
    assert_eq!(invoker.now(), 12);
    assert!(invoker.calls().is_empty());
    let question = to_resolver("r", vec![1]).1;
    let work = to_target("t", "go", vec![2]).1;
    assert_eq!(invoker.ask_resolver(question), ResolverReply::Verdict(true));
    assert_eq!(invoker.invoke_target(work.clone()), TargetReply::Failed);
    assert_eq!(invoker.invoke_target(work), TargetReply::Failed);
    assert_eq!(
        invoker.calls(),
        &vec![
            to_resolver("r", vec![1]),
            to_target("t", "go", vec![2]),
            to_target("t", "go", vec![2])
        ]
    );
    assert_eq!(invoker.now(), 12);
}

#[test]
fn enroll_decides_on_a_registration() {
    assert_eq!(enroll(sample(None, 0, 0), true, 4), Err(Error::InvalidInterval));
    assert_eq!(enroll(sample(None, 9, 0), false, 4), Err(Error::Unauthorized));
    assert_eq!(enroll(sample(None, 0, 0), false, 4), Err(Error::Unauthorized));
    assert_eq!(
        enroll(sample(Some("r"), 9, 55), true, 4),
        Ok(Registration {
            id: 5,
            record: sample(Some("r"), 9, 0),
            notification: Notification { task_id: 5, creator: String::from("creator") },
        })
    );
    assert_eq!(enroll(sample(None, 1, 0), true, 0).unwrap().id, 1);
}

#[test]
fn steps_of_an_evaluation() {
    let mut plain = sample(None, 5, 0);
    assert_eq!(plain.advance(Event::Started), Step::Invoke(to_target("target", "f", vec![]).1));
    assert_eq!(plain, sample(None, 5, 0));

    let mut guarded = sample(Some("r"), 5, 0);
    guarded.args = vec![6];
    let before = guarded.clone();
    assert_eq!(guarded.advance(Event::Started), Step::Ask(to_resolver("r", vec![6]).1));
    assert_eq!(
        guarded.advance(Event::ResolverReplied(ResolverReply::Verdict(false))),
        Step::Leave
    );
    assert_eq!(guarded.advance(Event::ResolverReplied(ResolverReply::Failed)), Step::Leave);
    assert_eq!(
        guarded.advance(Event::ResolverReplied(ResolverReply::Verdict(true))),
        Step::Invoke(to_target("target", "f", vec![6]).1)
    );
    assert_eq!(
        guarded.advance(Event::TargetReplied { reply: TargetReply::Failed, now: 70 }),
        Step::Abort(Error::TargetFailed)
    );
    assert_eq!(guarded, before);
    assert_eq!(
        guarded.advance(Event::TargetReplied { reply: TargetReply::Returned, now: 70 }),
        Step::Store
    );
    assert_eq!(guarded.last_run, 70);
    guarded.last_run = 0;
    assert_eq!(guarded, before);
}
