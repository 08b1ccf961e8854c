use ashpd::game_mode::GameModeMethod;
use ashpd::game_mode::GameModeStatus;
use ashpd::game_mode::RegisterStatus;
use ashpd::game_mode::UnregisterStatus;

#[test]
fn game_mode_status_encodes_to_declared_integers() {
    assert_eq!(GameModeStatus::Inactive.to_wire(), 0);
    assert_eq!(GameModeStatus::Active.to_wire(), 1);
    assert_eq!(GameModeStatus::Registered.to_wire(), 2);
    assert_eq!(GameModeStatus::Rejected.to_wire(), -1);
}

#[test]
fn register_status_encodes_to_declared_integers() {
    assert_eq!(RegisterStatus::Success.to_wire(), 0);
    assert_eq!(RegisterStatus::Rejected.to_wire(), -1);
}

#[test]
fn unregister_status_encodes_to_declared_integers() {
    assert_eq!(UnregisterStatus::Success.to_wire(), 0);
    assert_eq!(UnregisterStatus::Rejected.to_wire(), -1);
}

#[test]
fn minus_one_decodes_to_rejected_for_all_three_enums() {
    assert_eq!(GameModeStatus::from_wire(-1), Some(GameModeStatus::Rejected));
    assert_eq!(RegisterStatus::from_wire(-1), Some(RegisterStatus::Rejected));
    assert_eq!(
        UnregisterStatus::from_wire(-1),
        Some(UnregisterStatus::Rejected)
    );
}

#[test]
fn game_mode_status_round_trips() {
    let all = [
        GameModeStatus::Inactive,
        GameModeStatus::Active,
        GameModeStatus::Registered,
        GameModeStatus::Rejected,
    ];
    for s in all {
        assert_eq!(GameModeStatus::from_wire(s.to_wire()), Some(s));
    }
}

#[test]
fn register_and_unregister_status_round_trip() {
    for s in [RegisterStatus::Success, RegisterStatus::Rejected] {
        assert_eq!(RegisterStatus::from_wire(s.to_wire()), Some(s));
    }
    for s in [UnregisterStatus::Success, UnregisterStatus::Rejected] {
        assert_eq!(UnregisterStatus::from_wire(s.to_wire()), Some(s));
    }
}

#[test]
fn undeclared_integers_are_rejected() {
    assert_eq!(GameModeStatus::from_wire(3), None);
    assert_eq!(GameModeStatus::from_wire(-2), None);
    assert_eq!(GameModeStatus::from_wire(i32::MAX), None);
    assert_eq!(RegisterStatus::from_wire(1), None);
    assert_eq!(RegisterStatus::from_wire(2), None);
    assert_eq!(UnregisterStatus::from_wire(1), None);
    assert_eq!(UnregisterStatus::from_wire(i32::MIN), None);
}

#[test]
fn game_mode_interface_names_match_the_published_specification() {
    assert_eq!(
        GameModeMethod::interface_name(),
        "org.freedesktop.portal.GameMode"
    );
    assert_eq!(
        GameModeMethod::service_name(),
        "org.freedesktop.portal.Desktop"
    );
    assert_eq!(
        GameModeMethod::object_path(),
        "/org/freedesktop/portal/desktop"
    );
}

#[test]
fn game_mode_method_names_match_the_published_specification() {
    assert_eq!(GameModeMethod::QueryStatus.wire_name(), "QueryStatus");
    assert_eq!(
        GameModeMethod::QueryStatusByPidFd.wire_name(),
        "QueryStatusByPIDFd"
    );
    assert_eq!(
        GameModeMethod::QueryStatusByPid.wire_name(),
        "QueryStatusByPID"
    );
    assert_eq!(GameModeMethod::RegisterGame.wire_name(), "RegisterGame");
    assert_eq!(
        GameModeMethod::RegisterGameByPidFd.wire_name(),
        "RegisterGameByPIDFd"
    );
    assert_eq!(
        GameModeMethod::RegisterGameByPid.wire_name(),
        "RegisterGameByPID"
    );
    assert_eq!(GameModeMethod::UnregisterGame.wire_name(), "UnregisterGame");
    assert_eq!(
        GameModeMethod::UnregisterGameByPidFd.wire_name(),
        "UnregisterGameByPIDFd"
    );
    assert_eq!(
        GameModeMethod::UnregisterGameByPid.wire_name(),
        "UnregisterGameByPID"
    );
}

#[test]
fn game_mode_signatures_match_the_published_specification() {
    assert_eq!(GameModeMethod::QueryStatus.args_signature(), "i");
    assert_eq!(GameModeMethod::QueryStatusByPidFd.args_signature(), "hh");
    assert_eq!(GameModeMethod::QueryStatusByPid.args_signature(), "ii");
    assert_eq!(GameModeMethod::RegisterGame.args_signature(), "i");
    assert_eq!(GameModeMethod::RegisterGameByPidFd.args_signature(), "hh");
    assert_eq!(GameModeMethod::RegisterGameByPid.args_signature(), "ii");
    assert_eq!(GameModeMethod::UnregisterGame.args_signature(), "i");
    assert_eq!(GameModeMethod::UnregisterGameByPidFd.args_signature(), "hh");
    assert_eq!(GameModeMethod::UnregisterGameByPid.args_signature(), "ii");
    assert_eq!(GameModeMethod::QueryStatus.reply_signature(), "i");
    assert_eq!(GameModeMethod::RegisterGame.reply_signature(), "i");
    assert_eq!(GameModeMethod::UnregisterGame.reply_signature(), "i");
}
