use iam_core::config::ConfigService;
use iam_core::errors::AuthError;
use iam_core::iam_service::IAMService;
use iam_core::notification_service::NotificationService;

fn config_with_secrets() -> ConfigService {
    let mut config = ConfigService::new();
    config.set_env(String::from("IAM_JWT_SECRET"), String::from("login-bearer-secret"));
    config.set_env(String::from("IAM_MAGIC_JWT_SECRET"), String::from("magic-link-secret"));
    config
}

fn fresh_service() -> IAMService {
    IAMService::new(config_with_secrets(), NotificationService::new())
}

fn register_ann(iam: &mut IAMService) -> iam_core::models::AuthBearer {
    iam.register(
        String::from("ann@example.org"),
        String::from("Ann"),
        String::from("Lee"),
    )
    .unwrap()
}

#[test]
fn register_issues_a_bearer_with_claims() {
    let mut iam = fresh_service();
    let bearer = register_ann(&mut iam);
    assert!(!bearer.token.is_empty());
    let su = bearer.session_user.expect("a bearer embeds its claims");
    assert_eq!(su.email, "ann@example.org");
    assert_eq!(su.first_name, "Ann");
    assert_eq!(su.last_name, "Lee");
    assert!(!su.pid.is_empty());
    assert!(!su.session_id.is_empty());
}

#[test]
fn registering_the_same_email_twice_conflicts() {
    let mut iam = fresh_service();
    register_ann(&mut iam);
    let second = iam.register(
        String::from("ann@example.org"),
        String::from("Other"),
        String::from("Person"),
    );
    assert!(matches!(second, Err(AuthError::Conflict)));
}

#[test]
fn bearer_verifies_back_to_its_claims() {
    let mut iam = fresh_service();
    let bearer = register_ann(&mut iam);
    let su = bearer.session_user.clone().unwrap();
    let verified = iam.verify_token(bearer.token).unwrap();
    assert_eq!(verified.session_id, su.session_id);
    assert_eq!(verified.pid, su.pid);
    assert_eq!(verified.first_name, su.first_name);
    assert_eq!(verified.last_name, su.last_name);
    assert_eq!(verified.email, su.email);
}

#[test]
fn garbage_bearer_is_a_verification_error() {
    let iam = fresh_service();
    assert!(matches!(
        iam.verify_token(String::from("abc.def.ghi")),
        Err(AuthError::JWTVerificationError)
    ));
}

#[test]
fn send_login_link_is_success_whether_or_not_the_email_exists() {
    let mut iam = fresh_service();
    register_ann(&mut iam);
    // unknown address: success, nothing to send
    let unknown = iam.send_login_link(String::from("nobody@example.org"));
    assert!(matches!(unknown, Ok(None)));
    // known active address: success, with a prepared mail
    let known = iam.send_login_link(String::from("ann@example.org"));
    match known {
        Ok(Some(task)) => {
            assert_eq!(task.recipient.to_string(), "Ann Lee <ann@example.org>");
            assert_eq!(task.params.len(), 1);
            assert_eq!(task.params[0].0, "link");
            assert!(!task.params[0].1.is_empty());
        },
        _ => panic!("a known active email must yield a prepared mail"),
    }
}

#[test]
fn magic_link_token_logs_the_user_in() {
    let mut iam = fresh_service();
    let bearer = register_ann(&mut iam);
    let pid = bearer.session_user.unwrap().pid;
    let task = iam.send_login_link(String::from("ann@example.org")).unwrap().unwrap();
    let magic_token = task.params[0].1.clone();
    let login_bearer = iam.login(magic_token).unwrap();
    let su = login_bearer.session_user.unwrap();
    assert_eq!(su.pid, pid);
    assert_eq!(su.email, "ann@example.org");
}

#[test]
fn login_bearer_is_not_a_magic_token() {
    let mut iam = fresh_service();
    let bearer = register_ann(&mut iam);
    // a login bearer is signed under the login namespace; the magic-link
    // verification inside login must reject it
    let result = iam.login(bearer.token);
    assert!(matches!(result, Err(AuthError::JWTVerificationError)));
}

#[test]
fn send_verification_link_distinguishes_unknown_emails() {
    let mut iam = fresh_service();
    register_ann(&mut iam);
    let unknown = iam.send_verification_link(String::from("nobody@example.org"));
    assert!(matches!(unknown, Err(AuthError::NotFound)));
    let known = iam.send_verification_link(String::from("ann@example.org")).unwrap();
    assert_eq!(known.recipient.to_string(), "Ann Lee <ann@example.org>");
    assert_eq!(known.params.len(), 1);
    assert_eq!(known.params[0].0, "link");
}

#[test]
fn get_user_returns_the_public_record() {
    let mut iam = fresh_service();
    let bearer = register_ann(&mut iam);
    let su = bearer.session_user.unwrap();
    let data = iam.get_user(&su).unwrap();
    assert_eq!(data.pid, su.pid);
    assert_eq!(data.email, "ann@example.org");
    assert_eq!(data.first_name, "Ann");
    assert_eq!(data.last_name, "Lee");
}

#[test]
fn get_user_with_unknown_pid_is_not_found() {
    let iam = fresh_service();
    let stranger = iam_core::models::SessionUser {
        session_id: String::from("sid"),
        pid: String::from("no-such-pid"),
        first_name: String::from("No"),
        last_name: String::from("One"),
        email: String::from("no@example.org"),
    };
    assert!(matches!(iam.get_user(&stranger), Err(AuthError::NotFound)));
}

#[test]
fn logout_is_idempotent_and_leaves_the_bearer_cryptographically_valid() {
    let mut iam = fresh_service();
    let bearer = register_ann(&mut iam);
    let su = bearer.session_user.clone().unwrap();
    assert!(iam.logout(&su).is_ok());
    assert!(iam.logout(&su).is_ok());
    // signature and expiry checking alone does not consult the session
    // store, so the unexpired bearer still verifies after logout
    assert!(iam.verify_token(bearer.token).is_ok());
}

#[test]
fn closing_an_account_deactivates_it() {
    let mut iam = fresh_service();
    let bearer = register_ann(&mut iam);
    let su = bearer.session_user.unwrap();
    iam.close_account(&su).unwrap();
    // the record stays (never hard-deleted), but it is inactive: a login
    // link is no longer prepared for it, with the same outward success
    let after = iam.send_login_link(String::from("ann@example.org"));
    assert!(matches!(after, Ok(None)));
    // and the email stays reserved
    let reuse = iam.register(
        String::from("ann@example.org"),
        String::from("New"),
        String::from("Comer"),
    );
    assert!(matches!(reuse, Err(AuthError::Conflict)));
}

#[test]
fn close_account_with_unknown_pid_is_not_found() {
    let mut iam = fresh_service();
    let stranger = iam_core::models::SessionUser {
        session_id: String::from("sid"),
        pid: String::from("no-such-pid"),
        first_name: String::from("No"),
        last_name: String::from("One"),
        email: String::from("no@example.org"),
    };
    assert!(matches!(iam.close_account(&stranger), Err(AuthError::NotFound)));
}

#[test]
fn send_login_link_without_the_magic_secret_is_uniformly_an_internal_error() {
    // only the login secret is configured; the magic-link secret is absent
    let mut config = ConfigService::new();
    config.set_env(String::from("IAM_JWT_SECRET"), String::from("login-bearer-secret"));
    let mut iam = IAMService::new(config, NotificationService::new());
    register_ann(&mut iam);
    // the outcome is the same for a known and an unknown address: the
    // secret is resolved before the directory is consulted
    let known = iam.send_login_link(String::from("ann@example.org"));
    let unknown = iam.send_login_link(String::from("nobody@example.org"));
    assert!(matches!(known, Err(AuthError::InternalServerError)));
    assert!(matches!(unknown, Err(AuthError::InternalServerError)));
}
