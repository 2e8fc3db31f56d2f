use shuttle_service::bootstrap::{Bootstrapper, Stage};
use shuttle_service::error::Error;
use shuttle_service::resource::{SubmitOutcome, adapt_submission, pool_sizing, prepare_submission, request_pool};
use shuttle_service::Factory;

fn runtime() -> tokio::runtime::Runtime {
    tokio::runtime::Builder::new_multi_thread()
        .worker_threads(1)
        .build()
        .unwrap()
}

struct OneStringFactory {
    descriptor: String,
    calls: usize,
}

impl Factory for OneStringFactory {
    fn get_sql_connection_string(&mut self) -> Result<String, Error> {
        self.calls += 1;
        Ok(self.descriptor.clone())
    }
}

struct FailingFactory;

impl Factory for FailingFactory {
    fn get_sql_connection_string(&mut self) -> Result<String, Error> {
        Err(Error::Provisioning { cause: String::from("backend unreachable") })
    }
}

#[test]
fn pool_sizing_is_one_to_five() {
    let sizing = pool_sizing();
    assert_eq!(sizing.min_connections, 1);
    assert_eq!(sizing.max_connections, 5);
}

#[test]
fn prepare_submission_keeps_the_connection_string() {
    let r = prepare_submission(Ok(String::from("postgres://localhost/app")));
    let req = r.unwrap();
    assert_eq!(req.connection_string, "postgres://localhost/app");
    assert_eq!(req.sizing.min_connections, 1);
    assert_eq!(req.sizing.max_connections, 5);
}

#[test]
fn prepare_submission_passes_a_provisioning_failure_through() {
    let answer: Result<String, Error> =
        Err(Error::Provisioning { cause: String::from("quota exceeded") });
    match prepare_submission(answer) {
        Err(Error::Provisioning { cause }) => assert_eq!(cause, "quota exceeded"),
        _ => panic!("a provisioning failure must pass through unchanged"),
    }
}

#[test]
fn request_pool_asks_the_factory_once() {
    let mut factory = OneStringFactory {
        descriptor: String::from("postgres://localhost/app"),
        calls: 0,
    };
    let req = request_pool(&mut factory).unwrap();
    assert_eq!(factory.calls, 1);
    assert_eq!(req.connection_string, "postgres://localhost/app");
}

#[test]
fn request_pool_reports_the_factory_failure() {
    let mut factory = FailingFactory;
    match request_pool(&mut factory) {
        Err(Error::Provisioning { cause }) => assert_eq!(cause, "backend unreachable"),
        _ => panic!("the factory's failure must come back as a provisioning error"),
    }
}

#[test]
fn adapt_submission_hands_a_built_resource_on() {
    let r = adapt_submission::<u32>(SubmitOutcome::Ran(Ok(42)));
    assert_eq!(r.unwrap(), 42);
}

#[test]
fn adapter_failure_paths_stay_distinct() {
    // The same diagnostic text on both paths still yields two different
    // error variants, each keeping its cause.
    let inner = adapt_submission::<u32>(SubmitOutcome::Ran(Err(String::from("timed out"))));
    let rejected = adapt_submission::<u32>(SubmitOutcome::Rejected(String::from("timed out")));
    match inner {
        Err(Error::Resource { cause }) => assert_eq!(cause, "timed out"),
        _ => panic!("an inner construction failure must be a resource error"),
    }
    match rejected {
        Err(Error::Submission { cause }) => assert_eq!(cause, "timed out"),
        _ => panic!("a submission failure must be a submission error"),
    }
}

#[test]
fn aborted_submission_is_rejected_not_ran() {
    // A real cross-runtime submission whose task dies before reporting:
    // the join fails, and the adapter reports a submission error.
    let rt = runtime();
    let handle = rt.spawn(async {
        panic!("construction task died");
        #[allow(unreachable_code)]
        Ok::<u32, String>(0)
    });
    let joined = rt.block_on(handle);
    let outcome = match joined {
        Ok(inner) => SubmitOutcome::Ran(inner),
        Err(join_error) => SubmitOutcome::Rejected(join_error.to_string()),
    };
    match adapt_submission(outcome) {
        Err(Error::Submission { .. }) => {}
        _ => panic!("an aborted submission must be a submission error"),
    }
}

#[test]
fn unreachable_descriptor_fails_bootstrap_before_binding() {
    // The factory answers with a syntactically valid descriptor, the
    // connection attempt submitted to the runtime fails, and the whole
    // bootstrap fails: binding is never reachable from this attempt.
    let mut factory = OneStringFactory {
        descriptor: String::from("postgres://app@192.0.2.1:5432/app"),
        calls: 0,
    };
    let rt = runtime();
    let mut b: Bootstrapper<u32> = Bootstrapper::new(rt);
    assert!(b.begin_bootstrap());

    // The builder requests one resource through the adapter.
    let req = request_pool(&mut factory).unwrap();
    let conn = req.connection_string;
    let handle = b.runtime().spawn(async move {
        Err::<u32, String>(format!("could not reach {conn}"))
    });
    let joined = b.runtime().block_on(handle);
    let outcome = match joined {
        Ok(inner) => SubmitOutcome::Ran(inner),
        Err(join_error) => SubmitOutcome::Rejected(join_error.to_string()),
    };
    let built: Result<u32, Error> = adapt_submission(outcome);
    assert!(matches!(built, Err(Error::Resource { .. })));

    let r = b.finish_bootstrap(built);
    assert!(matches!(r, Err(Error::Resource { .. })));
    assert_eq!(b.current_stage(), Stage::Dead);
    assert!(!b.is_built());
}
