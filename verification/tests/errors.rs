use imagefork::error::{Error, InternalError};

fn internal_errors() -> Vec<(InternalError, &'static str)> {
    let text = || "it broke".to_string();
    vec![
        (InternalError::Tcp(text()), "tcp"),
        (InternalError::Diesel(text()), "diesel"),
        (InternalError::DieselInit(text()), "diesel-init"),
        (InternalError::DieselPool(text()), "diesel-pool"),
        (InternalError::Sqlx(text()), "sqlx"),
        (InternalError::Redis(text()), "redis"),
        (InternalError::RedisPool(text()), "redis-pool"),
        (InternalError::Reqwest(text()), "reqwest"),
        (InternalError::ReqwestMiddleware(text()), "reqwest-middleware"),
        (InternalError::AxumLogin(text()), "login"),
        (InternalError::SystemError(text()), "unknown"),
    ]
}

#[test]
fn statuses() {
    assert_eq!(Error::NotLoggedIn.get_status(), 401);
    assert_eq!(Error::UserNotAdmin.get_status(), 401);
    assert_eq!(Error::LockedOut.get_status(), 403);
    for (inner, _) in internal_errors() {
        assert_eq!(Error::InternalError(inner).get_status(), 500);
    }
}

#[test]
fn status_goes_with_the_error() {
    assert_eq!(Error::LockedOut.with_status(), (403, Error::LockedOut));
    let inner = Error::InternalError(InternalError::Redis("gone".to_string()));
    assert_eq!(inner.clone().with_status(), (500, inner));
}

#[test]
fn what_the_client_is_told() {
    assert_eq!(
        Error::NotLoggedIn.get_json_error(),
        "User is not logged in, use /login/github to log in."
    );
    assert_eq!(Error::UserNotAdmin.get_json_error(), "Admin is required.");
    assert_eq!(
        Error::LockedOut.get_json_error(),
        "Creator is locked out due to moderator review, contact support for assistance."
    );
    for (inner, _) in internal_errors() {
        assert_eq!(
            Error::InternalError(inner).get_json_error(),
            "Internal error, please contact the service owner."
        );
    }
}

#[test]
fn counter_labels() {
    assert_eq!(Error::NotLoggedIn.counter_error_kind(), "not_logged_in");
    assert_eq!(Error::UserNotAdmin.counter_error_kind(), "not_admin");
    assert_eq!(Error::LockedOut.counter_error_kind(), "locked_out");
    for (inner, label) in internal_errors() {
        assert_eq!(inner.counter_error_kind(), label);
        assert_eq!(Error::InternalError(inner).counter_error_kind(), label);
    }
}

#[test]
fn messages() {
    assert_eq!(Error::NotLoggedIn.message(), "User is not logged in");
    assert_eq!(
        Error::LockedOut.message(),
        "Operation is not allowed as the user is locked out"
    );
    assert_eq!(Error::UserNotAdmin.message(), "Operation is only allowed to admin users");
    for (inner, label) in internal_errors() {
        let expected = if label == "unknown" { "System: it broke" } else { "it broke" };
        assert_eq!(inner.message(), expected);
        assert_eq!(
            Error::InternalError(inner).message(),
            format!("Internal Error: {}", expected)
        );
    }
}

#[test]
fn system_errors() {
    assert_eq!(
        InternalError::system_error("startup", "no services"),
        InternalError::SystemError("Internal error [startup]: no services".to_string())
    );
    assert_eq!(
        InternalError::system_error("", ""),
        InternalError::SystemError("Internal error []: ".to_string())
    );
    assert_eq!(
        InternalError::from_text("plain".to_string()),
        InternalError::SystemError("plain".to_string())
    );
    assert_eq!(
        Error::internal_from(InternalError::from_text("plain".to_string())),
        Error::InternalError(InternalError::SystemError("plain".to_string()))
    );
}
