use deadpool::managed::RecycleError;
use deadpool_libsql::failure::RecycleFailure;
use deadpool_libsql::health::{rendered, HealthCheck, PROBE_QUERY};
use deadpool_libsql::probe::probe_of;

#[test]
fn probe_query_echoes_one_parameter() {
    assert_eq!(PROBE_QUERY, "SELECT ?");
}

#[test]
fn check_keeps_its_probe() {
    assert_eq!(HealthCheck::new(0).probe(), 0);
    assert_eq!(HealthCheck::new(41).probe(), 41);
    assert_eq!(HealthCheck::new(u64::MAX).probe(), u64::MAX);
}

#[test]
fn executed_query_goes_on() {
    let check = HealthCheck::new(3);
    assert_eq!(check.after_query(Ok("rows")), Ok("rows"));
}

#[test]
fn failed_query_condemns() {
    let check = HealthCheck::new(3);
    let step: Result<(), RecycleFailure> = check.after_query(Err(String::from("socket closed")));
    assert_eq!(
        step,
        Err(RecycleFailure::QueryFailed(String::from("socket closed")))
    );
    assert_eq!(
        step.unwrap_err().message(),
        "Health check query failed: socket closed"
    );
}

#[test]
fn fetched_row_goes_on() {
    let check = HealthCheck::new(3);
    assert_eq!(check.after_fetch(Ok(Some(17u8))), Ok(17u8));
}

#[test]
fn empty_result_condemns() {
    let check = HealthCheck::new(3);
    let step: Result<(), RecycleFailure> = check.after_fetch(Ok(None));
    assert_eq!(step, Err(RecycleFailure::NoRows));
    assert_eq!(
        step.unwrap_err().message(),
        "No rows returned from health check"
    );
}

#[test]
fn failed_fetch_condemns() {
    let check = HealthCheck::new(3);
    let step: Result<(), RecycleFailure> = check.after_fetch(Err(String::from("interrupted")));
    assert_eq!(
        step,
        Err(RecycleFailure::FetchFailed(String::from("interrupted")))
    );
    assert_eq!(
        step.unwrap_err().message(),
        "Failed to fetch row: interrupted"
    );
}

#[test]
fn echoed_probe_keeps_the_connection() {
    assert_eq!(HealthCheck::new(0).after_read(Ok(0)), Ok(()));
    assert_eq!(HealthCheck::new(12).after_read(Ok(12)), Ok(()));
    assert_eq!(HealthCheck::new(u64::MAX).after_read(Ok(u64::MAX)), Ok(()));
}

#[test]
fn wrong_echo_condemns_as_mismatch() {
    let verdict = HealthCheck::new(12).after_read(Ok(13));
    assert_eq!(verdict, Err(RecycleFailure::Mismatch));
    assert_eq!(verdict.unwrap_err().message(), "Recycle count mismatch");
    assert_eq!(
        HealthCheck::new(12).after_read(Ok(11)),
        Err(RecycleFailure::Mismatch)
    );
    assert_eq!(
        HealthCheck::new(0).after_read(Ok(u64::MAX)),
        Err(RecycleFailure::Mismatch)
    );
}

#[test]
fn unreadable_column_condemns() {
    let verdict = HealthCheck::new(12).after_read(Err(String::from("Null value")));
    assert_eq!(
        verdict,
        Err(RecycleFailure::DecodeFailed(String::from("Null value")))
    );
    assert_eq!(
        verdict.unwrap_err().message(),
        "Failed to get recycle count: Null value"
    );
}

#[test]
fn message_with_empty_detail_is_the_bare_wording() {
    assert_eq!(
        RecycleFailure::QueryFailed(String::new()).message(),
        "Health check query failed: "
    );
    assert_eq!(
        RecycleFailure::FetchFailed(String::new()).message(),
        "Failed to fetch row: "
    );
    assert_eq!(
        RecycleFailure::DecodeFailed(String::new()).message(),
        "Failed to get recycle count: "
    );
}

#[test]
fn rendered_hands_a_success_on() {
    let outcome: Result<u64, libsql::Error> = Ok(9);
    assert_eq!(rendered(outcome), Ok(9));
}

#[test]
fn rendered_gives_the_error_as_the_client_words_it() {
    let null: Result<u64, libsql::Error> = Err(libsql::Error::NullValue);
    assert_eq!(rendered(null), Err(String::from("Null value")));
    let misuse: Result<u64, libsql::Error> = Err(libsql::Error::Misuse(String::from("closed")));
    assert_eq!(rendered(misuse), Err(String::from("API misuse: `closed`")));
}

#[test]
fn rendered_error_ends_up_in_the_message() {
    let check = HealthCheck::new(5);
    let outcome: Result<(), libsql::Error> =
        Err(libsql::Error::ConnectionFailed(String::from("gone")));
    let step = check.after_query(rendered(outcome));
    assert_eq!(
        step.unwrap_err().message(),
        "Health check query failed: Failed to connect to database: `gone`"
    );
}

#[test]
fn failure_reaches_the_pool_as_a_message() {
    let reason = RecycleFailure::Mismatch.into_recycle_error();
    match &reason {
        RecycleError::Message(text) => assert_eq!(text, "Recycle count mismatch"),
        RecycleError::Backend(_) => panic!("a failure of the check is no error of the client"),
    }
    assert_eq!(
        reason.to_string(),
        "Error occurred while recycling an object: Recycle count mismatch"
    );
    let reason = RecycleFailure::QueryFailed(String::from("down")).into_recycle_error();
    match &reason {
        RecycleError::Message(text) => assert_eq!(text, "Health check query failed: down"),
        RecycleError::Backend(_) => panic!("a failure of the check is no error of the client"),
    }
}

#[test]
fn probe_is_the_counter_value() {
    assert_eq!(probe_of(0), 0u64);
    assert_eq!(probe_of(5), 5u64);
    assert_eq!(probe_of(usize::MAX), usize::MAX as u64);
}

fn whole_check(
    check: &HealthCheck,
    executed: Result<(), String>,
    fetched: Result<Option<()>, String>,
    read: Result<u64, String>,
) -> Result<(), RecycleFailure> {
    check.after_query(executed)?;
    check.after_fetch(fetched)?;
    check.after_read(read)
}

#[test]
fn whole_check_keeps_only_a_true_echo() {
    let check = HealthCheck::new(21);
    let down = || String::from("down");
    assert_eq!(whole_check(&check, Ok(()), Ok(Some(())), Ok(21)), Ok(()));
    assert_eq!(
        whole_check(&check, Ok(()), Ok(Some(())), Ok(22)),
        Err(RecycleFailure::Mismatch)
    );
    assert_eq!(
        whole_check(&check, Ok(()), Ok(Some(())), Err(down())),
        Err(RecycleFailure::DecodeFailed(down()))
    );
    assert_eq!(
        whole_check(&check, Ok(()), Ok(None), Ok(21)),
        Err(RecycleFailure::NoRows)
    );
    assert_eq!(
        whole_check(&check, Ok(()), Err(down()), Ok(21)),
        Err(RecycleFailure::FetchFailed(down()))
    );
    assert_eq!(
        whole_check(&check, Err(down()), Ok(Some(())), Ok(21)),
        Err(RecycleFailure::QueryFailed(down()))
    );
}

#[test]
fn first_failure_names_the_cause() {
    let check = HealthCheck::new(21);
    assert_eq!(
        whole_check(
            &check,
            Err(String::from("first")),
            Err(String::from("second")),
            Err(String::from("third"))
        ),
        Err(RecycleFailure::QueryFailed(String::from("first")))
    );
    assert_eq!(
        whole_check(&check, Ok(()), Ok(None), Err(String::from("third"))),
        Err(RecycleFailure::NoRows)
    );
}
