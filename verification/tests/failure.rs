use package_installer::failure::Failure;

const ALL: [Failure; 5] = [
    Failure::Connection,
    Failure::SubjectConstruction,
    Failure::AuthorizationCheck,
    Failure::PermissionDenied,
    Failure::Installation,
];

#[test]
fn each_failure_has_its_message() {
    assert_eq!(Failure::Connection.message(), "could not connect to the system bus");
    assert_eq!(Failure::SubjectConstruction.message(), "could not create policykit1 subject");
    assert_eq!(
        Failure::AuthorizationCheck.message(),
        "could not check policykit authorization"
    );
    assert_eq!(Failure::PermissionDenied.message(), "Operation not permitted by Polkit");
    assert_eq!(Failure::Installation.message(), "Error during installation");
}

#[test]
fn no_two_messages_are_alike() {
    for (i, a) in ALL.iter().enumerate() {
        for (j, b) in ALL.iter().enumerate() {
            assert_eq!(a.message() == b.message(), i == j);
        }
    }
}

#[test]
fn only_a_denial_is_a_denial() {
    for failure in ALL {
        assert_eq!(failure.denied(), failure == Failure::PermissionDenied);
    }
}
