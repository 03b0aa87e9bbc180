use user_admin::session::{EditSession, InputState};
use user_admin::user::{fetch_user, User, UserStatus};
use user_admin::view::{
    render, status_code, status_options, Branch, FetchOutcome, Rendered, StatusOption,
};

fn rendered_for(res: Option<Result<Option<User>, String>>, s: &EditSession) -> Rendered {
    render(FetchOutcome::from_resource(res), s)
}

#[test]
fn accessor_returns_active_user_without_roles() {
    for _ in 0..3 {
        match fetch_user() {
            Ok(Some(u)) => {
                assert_eq!(u.status, UserStatus::Active);
                assert!(u.roles.is_empty());
            }
            other => panic!("unexpected fetch result: {:?}", other),
        }
    }
}

#[test]
fn synthesized_record_fields() {
    let u = User::get_user();
    assert_eq!(u.first_name.as_deref(), Some("Bob"));
    assert_eq!(u.last_name, None);
    assert_eq!(u.hash, "asdf");
    assert_eq!(u.login, "bob@bob.bob");
    assert_eq!(u.theme, "dark");
    assert_eq!(u.site_schema, None);
    assert_eq!(u.last_login, None);
    assert_eq!(u.last_failed_login, None);
    assert!(u.roles.is_empty());
}

#[test]
fn synthesized_id_is_random_v4() {
    let a = User::get_user();
    let b = User::get_user();
    assert_eq!((a.unid >> 76) & 0xf, 4);
    assert_eq!((a.unid >> 62) & 0x3, 2);
    assert_ne!(a.unid, b.unid);
}

#[test]
fn synthesized_timestamps_are_current() {
    let u = User::get_user();
    // 2020-01-01T00:00:00Z in nanoseconds.
    let year_2020: i128 = 1_577_836_800_000_000_000;
    assert!(u.created.unix_nanos > year_2020);
    assert!(u.last_password_change.unix_nanos > year_2020);
}

#[test]
fn mount_then_resolve_shows_bob() {
    let s = EditSession::new();
    assert!(matches!(rendered_for(None, &s), Rendered::Loading));
    match rendered_for(Some(fetch_user()), &s) {
        Rendered::Profile(p) => {
            assert_eq!(p.first_name.as_deref(), Some("Bob"));
            assert_eq!(p.last_name, None);
        }
        other => panic!("expected the profile, got {:?}", other),
    }
}

#[test]
fn password_toggle_makes_inputs_editable_and_highlighted() {
    let mut s = EditSession::new();
    assert!(s.edit_password_disabled);
    assert_eq!(s.password_input(), InputState { disabled: true, highlighted: false });
    assert!(!s.retype_password_shown());
    s.toggle_password();
    assert!(!s.edit_password_disabled);
    let input = s.password_input();
    assert_eq!(input, InputState { disabled: false, highlighted: true });
    assert_eq!(
        input.class_names(),
        vec!["password", "form-control", "pristine", "border-primary", "border-2"]
    );
    assert!(s.retype_password_shown());
    match rendered_for(Some(fetch_user()), &s) {
        Rendered::Profile(p) => {
            assert_eq!(p.password_input, InputState { disabled: false, highlighted: true });
            assert!(p.retype_password_shown);
            assert_eq!(p.email_input, InputState { disabled: true, highlighted: false });
        }
        other => panic!("expected the profile, got {:?}", other),
    }
}

#[test]
fn read_only_input_has_base_classes_only() {
    let input = EditSession::new().password_input();
    assert_eq!(input.class_names(), vec!["password", "form-control", "pristine"]);
}

#[test]
fn absent_user_shows_not_found_text() {
    let s = EditSession::new();
    match rendered_for(Some(Ok(None)), &s) {
        Rendered::NotFound { text } => assert_eq!(text, "Couldn't get user"),
        other => panic!("expected the not-found branch, got {:?}", other),
    }
}

#[test]
fn failure_shows_message_verbatim() {
    let s = EditSession::new();
    match rendered_for(Some(Err("connection refused".to_string())), &s) {
        Rendered::ServerError { message } => assert_eq!(message, "connection refused"),
        other => panic!("expected the error branch, got {:?}", other),
    }
}

#[test]
fn each_outcome_selects_one_branch() {
    assert_eq!(FetchOutcome::from_resource(None).branch(), Branch::Pending);
    assert_eq!(FetchOutcome::from_resource(Some(fetch_user())).branch(), Branch::Found);
    assert_eq!(FetchOutcome::from_resource(Some(Ok(None))).branch(), Branch::NotFound);
    assert_eq!(
        FetchOutcome::from_resource(Some(Err("x".to_string()))).branch(),
        Branch::Error
    );
}

#[test]
fn toggling_parity() {
    for n in 0..7u32 {
        let mut s = EditSession::new();
        for _ in 0..n {
            s.toggle_password();
        }
        assert_eq!(s.edit_password_disabled, n % 2 == 0);
        assert!(s.edit_email_disabled);
    }
}

#[test]
fn email_toggle_leaves_password_flag() {
    let mut s = EditSession::new();
    s.toggle_email();
    assert!(!s.edit_email_disabled);
    assert!(s.edit_password_disabled);
    assert_eq!(s.email_input(), InputState { disabled: false, highlighted: true });
    s.toggle_email();
    assert!(s.edit_email_disabled);
}

#[test]
fn status_selector_marks_current_status() {
    assert_eq!(status_code(UserStatus::Active), 0);
    assert_eq!(status_code(UserStatus::Banned), 1);
    assert_eq!(
        status_options(UserStatus::Banned),
        vec![
            StatusOption { status: UserStatus::Active, value: 0, selected: false },
            StatusOption { status: UserStatus::Banned, value: 1, selected: true },
        ]
    );
    assert_eq!(
        status_options(UserStatus::Active),
        vec![
            StatusOption { status: UserStatus::Active, value: 0, selected: true },
            StatusOption { status: UserStatus::Banned, value: 1, selected: false },
        ]
    );
}
