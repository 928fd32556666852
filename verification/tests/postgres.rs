use mockable::postgres::overrun;
use mockable::postgres::resolution;
use mockable::postgres::settle;
use mockable::postgres::transactional;
use mockable::postgres::MockPostgresClient;
use mockable::postgres::MockPostgresTransaction;
use mockable::postgres::PostgresClient;
use mockable::postgres::PostgresError;
use mockable::postgres::PostgresResult;
use mockable::postgres::PostgresTransaction;
use mockable::postgres::Step;
use mockable::Mock;

#[derive(Clone, Debug, Eq, PartialEq)]
struct User {
    id: i32,
    email: String,
}

fn client_with(
    commit: &Mock<PostgresResult<()>>,
    rollback: &Mock<PostgresResult<()>>,
) -> MockPostgresClient {
    let commit = commit.clone();
    let rollback = rollback.clone();
    MockPostgresClient {
        transaction: Mock::once(move || MockPostgresTransaction {
            commit: commit.clone(),
            rollback: rollback.clone(),
        }),
    }
}

#[test]
fn success_is_committed() {
    let commit: Mock<PostgresResult<()>> = Mock::once(|| Ok(()));
    let rollback: Mock<PostgresResult<()>> = Mock::never();
    let mut client = client_with(&commit, &rollback);
    let runs: Mock<()> = Mock::always(|_| ());
    let result = transactional(&mut client, |_tx: &MockPostgresTransaction| {
        runs.call();
        Ok::<i32, String>(42)
    });
    assert_eq!(result.expect("the machinery failed"), Ok(42));
    assert_eq!(runs.count(), 1);
    assert_eq!(commit.count(), 1);
    assert_eq!(rollback.count(), 0);
    assert_eq!(client.transaction.count(), 1);
}

#[test]
fn failure_is_rolled_back() {
    let commit: Mock<PostgresResult<()>> = Mock::never();
    let rollback: Mock<PostgresResult<()>> = Mock::once(|| Ok(()));
    let mut client = client_with(&commit, &rollback);
    let runs: Mock<()> = Mock::always(|_| ());
    let result = transactional(&mut client, |_tx: &MockPostgresTransaction| {
        runs.call();
        Err::<i32, String>("no such user".to_string())
    });
    assert_eq!(
        result.expect("the machinery failed"),
        Err("no such user".to_string())
    );
    assert_eq!(runs.count(), 1);
    assert_eq!(rollback.count(), 1);
    assert_eq!(commit.count(), 0);
}

struct ClosedClient {
    asked: Mock<()>,
}

impl PostgresClient for ClosedClient {
    type Transaction = MockPostgresTransaction;

    fn transaction(&mut self) -> PostgresResult<MockPostgresTransaction> {
        self.asked.call();
        Err(PostgresError::new("pool is closed".to_string()))
    }
}

#[test]
fn failed_open_runs_nothing() {
    let mut client = ClosedClient {
        asked: Mock::always(|_| ()),
    };
    let runs: Mock<()> = Mock::always(|_| ());
    let result = transactional(&mut client, |_tx: &MockPostgresTransaction| {
        runs.call();
        Ok::<i32, String>(42)
    });
    let err = result.expect_err("opening should have failed");
    assert_eq!(err.to_string(), "pool is closed");
    assert_eq!(runs.count(), 0);
    assert_eq!(client.asked.count(), 1);
}

#[test]
fn failed_commit_is_returned() {
    let commit: Mock<PostgresResult<()>> =
        Mock::once(|| Err(PostgresError::new("connection lost".to_string())));
    let rollback: Mock<PostgresResult<()>> = Mock::never();
    let mut client = client_with(&commit, &rollback);
    let result = transactional(&mut client, |_tx: &MockPostgresTransaction| {
        Ok::<i32, String>(42)
    });
    let err = result.expect_err("the commit should have failed");
    assert_eq!(err.to_string(), "connection lost");
    assert_eq!(commit.count(), 1);
    assert_eq!(rollback.count(), 0);
}

#[test]
fn failed_rollback_masks_the_failure_of_the_operation() {
    let commit: Mock<PostgresResult<()>> = Mock::never();
    let rollback: Mock<PostgresResult<()>> =
        Mock::once(|| Err(PostgresError::new("connection lost".to_string())));
    let mut client = client_with(&commit, &rollback);
    let result = transactional(&mut client, |_tx: &MockPostgresTransaction| {
        Err::<i32, String>("no such user".to_string())
    });
    let err = result.expect_err("the rollback should have failed");
    assert_eq!(err.to_string(), "connection lost");
    assert_eq!(rollback.count(), 1);
    assert_eq!(commit.count(), 0);
}

#[test]
fn created_user_is_returned_once_committed() {
    let expected = User {
        id: 1,
        email: "user@test".to_string(),
    };
    let pool: Mock<PostgresResult<MockPostgresClient>> = Mock::always(|_| {
        Ok(MockPostgresClient {
            transaction: Mock::once(|| MockPostgresTransaction {
                commit: Mock::once(|| Ok(())),
                ..Default::default()
            }),
        })
    });
    let repository: Mock<PostgresResult<User>, String> = Mock::once_with_args({
        let expected = expected.clone();
        move |email: String| {
            assert_eq!(email, expected.email);
            Ok(expected.clone())
        }
    });
    let mut client = pool
        .call()
        .expect("the pool was called too often")
        .expect("getting client from pool failed");
    let user = transactional(&mut client, |_tx: &MockPostgresTransaction| {
        let user = repository
            .call_with_args("user@test".to_string())
            .expect("the repository was called too often")?;
        Ok::<User, PostgresError>(user)
    })
    .expect("database client failed")
    .expect("creating user failed");
    assert_eq!(user, expected);
    assert_eq!(repository.count(), 1);
}

#[test]
fn recorders_called_too_often_fail_the_machinery() {
    let mut client = MockPostgresClient::default();
    let result = transactional(&mut client, |_tx: &MockPostgresTransaction| {
        Ok::<i32, String>(42)
    });
    let err = result.expect_err("no transaction was expected");
    assert_eq!(err.to_string(), "Mock called when it should not have been");
    assert_eq!(overrun().to_string(), "Mock called when it should not have been");

    let tx = MockPostgresTransaction::default();
    let err = tx.commit().expect_err("no commit was expected");
    assert_eq!(err.to_string(), "Mock called when it should not have been");
    let tx = MockPostgresTransaction::default();
    let err = tx.rollback().expect_err("no rollback was expected");
    assert_eq!(err.to_string(), "Mock called when it should not have been");

    let unexpected_rollback: Mock<PostgresResult<()>> = Mock::never();
    let commit: Mock<PostgresResult<()>> = Mock::once(|| Ok(()));
    let mut client = client_with(&commit, &unexpected_rollback);
    let result = transactional(&mut client, |_tx: &MockPostgresTransaction| {
        Err::<i32, String>("failed".to_string())
    });
    assert!(result.is_err());
    assert_eq!(commit.count(), 0);
}

#[test]
fn resolution_commits_success_and_rolls_back_failure() {
    assert_eq!(resolution(&Ok::<u8, u8>(1)), Step::Commit);
    assert_eq!(resolution(&Err::<u8, u8>(1)), Step::Rollback);
}

#[test]
fn settle_prefers_the_failure_of_the_machinery() {
    let settled = settle(Ok::<u8, u8>(1), Ok::<(), PostgresError>(()));
    assert_eq!(settled.expect("settled as failed"), Ok(1));
    let settled = settle(Err::<u8, u8>(2), Ok::<(), PostgresError>(()));
    assert_eq!(settled.expect("settled as failed"), Err(2));
    let settled = settle(Ok::<u8, u8>(1), Err::<(), i32>(-1));
    assert_eq!(settled, Err(-1));
    let settled = settle(Ok::<u8, u8>(1), Err(PostgresError::new("a".to_string())));
    assert_eq!(settled.expect_err("settled as done").to_string(), "a");
    let settled = settle(Err::<u8, u8>(2), Err(PostgresError::new("b".to_string())));
    assert_eq!(settled.expect_err("settled as done").to_string(), "b");
}
