use iam_core::helpers::extract_user_api_data;
use iam_core::users::{Status, StoreError, UserService};

#[test]
fn create_then_find_by_email() {
    let mut users = UserService::new();
    let created = users
        .create_user(
            String::from("ann@example.org"),
            String::from("Ann"),
            String::from("Lee"),
            None,
        )
        .unwrap();
    let found = users.find_user_by_email(&String::from("ann@example.org")).unwrap();
    assert_eq!(found.pid, created.pid);
    assert_eq!(found.first_name, "Ann");
    assert_eq!(found.last_name, "Lee");
    assert!(matches!(found.status, Status::Active));
}

#[test]
fn duplicate_email_is_a_unique_violation() {
    let mut users = UserService::new();
    users
        .create_user(
            String::from("ann@example.org"),
            String::from("Ann"),
            String::from("Lee"),
            None,
        )
        .unwrap();
    let second = users.create_user(
        String::from("ann@example.org"),
        String::from("Another"),
        String::from("Person"),
        None,
    );
    assert_eq!(second.err(), Some(StoreError::UniqueViolation));
    // the first record is untouched
    let found = users.find_user_by_email(&String::from("ann@example.org")).unwrap();
    assert_eq!(found.first_name, "Ann");
}

#[test]
fn repeated_attempts_leave_exactly_one_record() {
    let mut users = UserService::new();
    let mut successes = 0;
    for attempt in 0..5 {
        let result = users.create_user(
            String::from("contended@example.org"),
            format!("Attempt{}", attempt),
            String::from("Racer"),
            None,
        );
        if result.is_ok() {
            successes += 1;
        } else {
            assert_eq!(result.err(), Some(StoreError::UniqueViolation));
        }
    }
    assert_eq!(successes, 1);
    let found = users.find_user_by_email(&String::from("contended@example.org")).unwrap();
    assert_eq!(found.first_name, "Attempt0");
}

#[test]
fn inactive_records_still_hold_their_email() {
    let mut users = UserService::new();
    let created = users
        .create_user(
            String::from("gone@example.org"),
            String::from("Gone"),
            String::from("Away"),
            None,
        )
        .unwrap();
    users.set_status_by_pid(&created.pid, Status::Inactive).unwrap();
    // the active-only lookup misses, the plain lookup still finds it
    assert!(users.find_active_user_by_email(&String::from("gone@example.org")).is_none());
    assert!(users.find_user_by_email(&String::from("gone@example.org")).is_some());
    // and the email stays taken: a new registration cannot reuse it
    let reuse = users.create_user(
        String::from("gone@example.org"),
        String::from("New"),
        String::from("Comer"),
        None,
    );
    assert_eq!(reuse.err(), Some(StoreError::UniqueViolation));
}

#[test]
fn distinct_pids_for_distinct_users() {
    let mut users = UserService::new();
    let a = users
        .create_user(String::from("a@example.org"), String::from("A"), String::from("A"), None)
        .unwrap();
    let b = users
        .create_user(String::from("b@example.org"), String::from("B"), String::from("B"), None)
        .unwrap();
    assert_ne!(a.pid, b.pid);
    let by_pid = users.find_user_by_pid(&b.pid).unwrap();
    assert_eq!(by_pid.email, "b@example.org");
}

#[test]
fn extracted_user_data_carries_no_password_material() {
    let mut users = UserService::new();
    let created = users
        .create_user(
            String::from("secret@example.org"),
            String::from("Secret"),
            String::from("Holder"),
            Some(String::from("stored-credential-hash")),
        )
        .unwrap();
    assert!(created.password_hash.is_some());
    let data = extract_user_api_data(created.clone());
    // UserData has no password field at all; what it carries is exactly the
    // public identity and the timestamps, rendered in decimal
    assert_eq!(data.pid, created.pid);
    assert_eq!(data.first_name, "Secret");
    assert_eq!(data.last_name, "Holder");
    assert_eq!(data.email, "secret@example.org");
    assert_eq!(data.created_at, format!("{}", created.created_at));
    assert_eq!(data.updated_at, format!("{}", created.updated_at));
}

#[test]
fn set_status_on_unknown_pid_is_none() {
    let mut users = UserService::new();
    assert!(users.set_status_by_pid(&String::from("no-such-pid"), Status::Inactive).is_none());
}
