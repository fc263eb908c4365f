use iam_core::layout::add_layout;
use iam_core::mailer::{MailUser, SendEmailResult};
use iam_core::notification_builder::{
    DefaultReplaceSettings, NotificationBuilder, NotificationBuilderError, NotificationConfigType,
    NotificationTriggerSettings, UserNotificationType,
};
use iam_core::notification_service::{NotificationError, NotificationService};

fn full_builder() -> NotificationBuilder {
    let mut b = NotificationBuilder::new(String::from("Welcome"), NotificationConfigType::Email);
    b.set_subject_template(String::from("templates/welcome_subject.html"));
    b.set_render_template(String::from("templates/welcome.html"));
    b.set_notification_type(UserNotificationType::LoginLink);
    b.add_replace_settings(String::from("link"), String::from("https://x"), false);
    b
}

fn trigger_settings(params: Vec<(String, String)>) -> NotificationTriggerSettings {
    NotificationTriggerSettings {
        email: Some(MailUser::new(String::from("ann@example.org"), Some(String::from("Ann")))),
        user_id: 1,
        params,
    }
}

#[test]
fn omitting_the_render_template_always_fails_with_render_template_missing() {
    // even with everything else missing too, the render check comes first
    let bare = NotificationBuilder::new(String::from("N"), NotificationConfigType::Email);
    assert_eq!(bare.build().err(), Some(NotificationBuilderError::RenderTemplateMissing));

    let mut with_subject = NotificationBuilder::new(String::from("N"), NotificationConfigType::Email);
    with_subject.set_subject_template(String::from("templates/n_subject.html"));
    with_subject.set_notification_type(UserNotificationType::LoginLink);
    assert_eq!(
        with_subject.build().err(),
        Some(NotificationBuilderError::RenderTemplateMissing)
    );

    let ws = NotificationBuilder::new(String::from("N"), NotificationConfigType::Websocket);
    assert_eq!(ws.build().err(), Some(NotificationBuilderError::RenderTemplateMissing));
}

#[test]
fn email_config_without_subject_fails_with_subject_template_missing() {
    let mut b = NotificationBuilder::new(String::from("N"), NotificationConfigType::Email);
    b.set_render_template(String::from("templates/n.html"));
    b.set_notification_type(UserNotificationType::LoginLink);
    assert_eq!(b.build().err(), Some(NotificationBuilderError::SubjectTemplateMissing));
}

#[test]
fn websocket_config_needs_no_subject() {
    let mut b = NotificationBuilder::new(String::from("N"), NotificationConfigType::Websocket);
    b.set_render_template(String::from("templates/n.html"));
    b.set_notification_type(UserNotificationType::LoginLink);
    assert!(b.build().is_ok());
}

#[test]
fn missing_category_fails_with_category_missing() {
    let mut b = NotificationBuilder::new(String::from("N"), NotificationConfigType::Email);
    b.set_render_template(String::from("templates/n.html"));
    b.set_subject_template(String::from("templates/n_subject.html"));
    assert_eq!(b.build().err(), Some(NotificationBuilderError::CategoryMissing));
}

#[test]
fn fully_specified_config_builds() {
    let config = full_builder().build().unwrap();
    assert_eq!(config.id, "Welcome");
    assert!(matches!(config.ntype, NotificationConfigType::Email));
    assert!(matches!(config.untype, UserNotificationType::LoginLink));
    assert_eq!(config.subject.as_deref(), Some("templates/welcome_subject.html"));
    assert_eq!(config.render, "templates/welcome.html");
    assert_eq!(config.settings.len(), 1);
    assert_eq!(config.settings[0].0, "link");
}

#[test]
fn merge_unusable_default_becomes_the_empty_string() {
    let svc = NotificationService::new();
    let defaults = vec![(
        String::from("link"),
        DefaultReplaceSettings { example_value: String::from("https://x"), default: false },
    )];
    let merged = svc.get_merged_values(&defaults, &trigger_settings(Vec::new()));
    assert_eq!(merged, vec![(String::from("link"), String::from(""))]);
}

#[test]
fn merge_usable_default_takes_the_example_value() {
    let svc = NotificationService::new();
    let defaults = vec![(
        String::from("link"),
        DefaultReplaceSettings { example_value: String::from("https://x"), default: true },
    )];
    let merged = svc.get_merged_values(&defaults, &trigger_settings(Vec::new()));
    assert_eq!(merged, vec![(String::from("link"), String::from("https://x"))]);
}

#[test]
fn merge_trigger_override_wins_regardless_of_the_default_flag() {
    let svc = NotificationService::new();
    let overridden = vec![(String::from("link"), String::from("https://y"))];
    for flag in [false, true] {
        let defaults = vec![(
            String::from("link"),
            DefaultReplaceSettings { example_value: String::from("https://x"), default: flag },
        )];
        let merged = svc.get_merged_values(&defaults, &trigger_settings(overridden.clone()));
        assert_eq!(merged, vec![(String::from("link"), String::from("https://y"))]);
    }
}

#[test]
fn trigger_of_an_unknown_id_is_not_configured() {
    let svc = NotificationService::new();
    let result = svc.trigger(String::from("Nobody"), trigger_settings(Vec::new()));
    assert!(matches!(result, Err(NotificationError::NotificationNotConfigured)));
}

#[test]
fn trigger_of_a_websocket_config_is_not_configured() {
    let mut svc = NotificationService::new();
    let mut b = svc.get_builder(String::from("Push"), NotificationConfigType::Websocket);
    b.set_render_template(String::from("templates/push.html"));
    b.set_notification_type(UserNotificationType::LoginLink);
    svc.register(b.build().unwrap());
    let result = svc.trigger(String::from("Push"), trigger_settings(Vec::new()));
    assert!(matches!(result, Err(NotificationError::NotificationNotConfigured)));
}

#[test]
fn trigger_without_a_recipient_is_recipient_missing() {
    let mut svc = NotificationService::new();
    svc.register(full_builder().build().unwrap());
    let settings = NotificationTriggerSettings { email: None, user_id: 1, params: Vec::new() };
    let result = svc.trigger(String::from("Welcome"), settings);
    assert!(matches!(result, Err(NotificationError::RecipientMissing)));
}

#[test]
fn trigger_prepares_the_email_task() {
    let mut svc = NotificationService::new();
    svc.register(full_builder().build().unwrap());
    let overrides = vec![(String::from("link"), String::from("https://y"))];
    let task = svc.trigger(String::from("Welcome"), trigger_settings(overrides)).unwrap();
    assert_eq!(task.subject_template, "templates/welcome_subject.html");
    assert_eq!(task.render_template, "templates/welcome.html");
    assert_eq!(task.params, vec![(String::from("link"), String::from("https://y"))]);
    assert_eq!(task.recipient.to_string(), "Ann <ann@example.org>");
}

#[test]
fn re_registering_an_id_replaces_the_descriptor() {
    let mut svc = NotificationService::new();
    svc.register(full_builder().build().unwrap());
    let mut b = svc.get_builder(String::from("Welcome"), NotificationConfigType::Email);
    b.set_subject_template(String::from("templates/other_subject.html"));
    b.set_render_template(String::from("templates/other.html"));
    b.set_notification_type(UserNotificationType::VerificationLink);
    svc.register(b.build().unwrap());
    let task = svc.trigger(String::from("Welcome"), trigger_settings(Vec::new())).unwrap();
    assert_eq!(task.render_template, "templates/other.html");
}

#[test]
fn get_text_renders_through_the_template_engine() {
    let svc = NotificationService::new();
    let params = vec![(String::from("name"), String::from("World"))];
    let rendered = svc.get_text(&String::from("Hello {{ name }}!"), &params).unwrap();
    assert_eq!(rendered, "Hello World!");
}

#[test]
fn get_text_surfaces_template_failures_as_render_errors() {
    let svc = NotificationService::new();
    let result = svc.get_text(&String::from("{{ unclosed"), &Vec::new());
    assert!(matches!(result, Err(NotificationError::RenderError(_))));
}

#[test]
fn compose_email_wraps_the_body_in_the_layout() {
    let svc = NotificationService::new();
    let params = vec![(String::from("name"), String::from("Ann"))];
    let mail = svc
        .compose_email(
            &String::from("Welcome {{ name }}"),
            &String::from("<tr><td>Hi {{ name }}</td></tr>"),
            &params,
        )
        .unwrap();
    assert_eq!(mail.subject, "Welcome Ann");
    assert!(mail.body.starts_with("<!DOCTYPE html>"));
    assert!(mail.body.contains("<tr><td>Hi Ann</td></tr>"));
    assert!(mail.body.trim_end().ends_with("</html>"));
}

#[test]
fn send_outcomes_fold_into_the_trigger_result() {
    assert!(matches!(
        NotificationService::handle_send_result(SendEmailResult::Sent(true)),
        Ok(true)
    ));
    match NotificationService::handle_send_result(SendEmailResult::Error(String::from("boom"))) {
        Err(NotificationError::MailerError(m)) => assert_eq!(m, "boom"),
        _ => panic!("a transport failure must surface as MailerError"),
    }
}

#[test]
fn layout_wraps_any_body() {
    let wrapped = add_layout(String::from("<tr><td>CONTENT</td></tr>"));
    assert!(wrapped.starts_with("<!DOCTYPE html>"));
    assert!(wrapped.contains("<tr><td>CONTENT</td></tr>"));
    assert!(wrapped.ends_with("</html>"));
}

#[test]
fn repeating_a_parameter_name_rebinds_its_policy() {
    let mut b = NotificationBuilder::new(String::from("N"), NotificationConfigType::Email);
    b.set_subject_template(String::from("templates/n_subject.html"));
    b.set_render_template(String::from("templates/n.html"));
    b.set_notification_type(UserNotificationType::LoginLink);
    b.add_replace_settings(String::from("link"), String::from("https://old"), false);
    b.add_replace_settings(String::from("link"), String::from("https://new"), true);
    let config = b.build().unwrap();
    // one policy per parameter name: the later binding governs
    assert_eq!(config.settings.len(), 1);
    assert_eq!(config.settings[0].0, "link");
    assert_eq!(config.settings[0].1.example_value, "https://new");
    assert!(config.settings[0].1.default);
}
