use credentials_to_env::materialize::{env_update, plan_file, FileAction, OWNER_READ_ONLY};

#[test]
fn existing_file_is_left_untouched() {
    assert_eq!(Vec::<FileAction>::new(), plan_file(true));
}

#[test]
fn missing_file_gets_the_five_steps_in_order() {
    assert_eq!(
        vec![
            FileAction::EnsureDirs,
            FileAction::CreateFile,
            FileAction::SetPermissions { mode: OWNER_READ_ONLY },
            FileAction::FetchContent,
            FileAction::WriteContent,
        ],
        plan_file(false)
    );
}

#[test]
fn permissions_are_restricted_before_content_is_written() {
    let plan = plan_file(false);
    let restrict = plan
        .iter()
        .position(|a| *a == FileAction::SetPermissions { mode: OWNER_READ_ONLY })
        .unwrap();
    let write = plan.iter().position(|a| *a == FileAction::WriteContent).unwrap();
    assert!(restrict < write);
    assert_eq!(0o400, OWNER_READ_ONLY);
}

#[test]
fn resolved_value_wins_when_override_is_allowed() {
    let r = env_update(true, &Some("old".to_string()), "new".to_string());
    assert_eq!(Some("new".to_string()), r);
}

#[test]
fn missing_variable_is_set_either_way() {
    assert_eq!(Some("new".to_string()), env_update(true, &None, "new".to_string()));
    assert_eq!(Some("new".to_string()), env_update(false, &None, "new".to_string()));
}

#[test]
fn existing_value_wins_when_override_is_disallowed() {
    let r = env_update(false, &Some("old".to_string()), "new".to_string());
    assert_eq!(None, r);
}
