use std::time::Duration;

use forgeclaw::command::{CommandError, HealthCheck, SpawnContainer};
use forgeclaw::error::{ConfigError, ErrorClass};
use forgeclaw::id::{ContainerId, GroupId, ProviderId};

#[test]
fn transient_display() {
    let err = ErrorClass::Transient {
        retry_after: Duration::from_millis(500),
    };
    assert_eq!(err.message(), "transient error (retry after 500ms)");
}

#[test]
fn transient_display_uses_whole_milliseconds() {
    let err = ErrorClass::Transient {
        retry_after: Duration::from_micros(2_500_900),
    };
    assert_eq!(err.message(), "transient error (retry after 2500ms)");
}

#[test]
fn auth_display() {
    let err = ErrorClass::Auth {
        provider: ProviderId::new("anthropic").expect("valid"),
        reason: "invalid API key".to_owned(),
    };
    assert_eq!(err.message(), "auth error for provider anthropic: invalid API key");
}

#[test]
fn config_display() {
    let err = ErrorClass::Config {
        key: "runtime.log_level".to_owned(),
        reason: "unknown level 'verbose'".to_owned(),
    };
    assert_eq!(
        err.message(),
        "config error for key 'runtime.log_level': unknown level 'verbose'"
    );
}

#[test]
fn container_display_with_id() {
    let err = ErrorClass::Container {
        id: Some(ContainerId::new("ctr-1").expect("valid")),
        reason: "OOM killed".to_owned(),
    };
    assert_eq!(err.message(), "container error for ctr-1: OOM killed");
}

#[test]
fn container_display_without_id() {
    let err = ErrorClass::Container {
        id: None,
        reason: "startup failure".to_owned(),
    };
    assert_eq!(err.message(), "container error: startup failure");
}

#[test]
fn fatal_display() {
    let err = ErrorClass::Fatal {
        reason: "database unavailable".to_owned(),
    };
    assert_eq!(err.message(), "fatal error: database unavailable");
}

#[test]
fn is_retriable_only_for_transient() {
    assert!(ErrorClass::Transient {
        retry_after: Duration::from_secs(1)
    }
    .is_retriable());
    assert!(!ErrorClass::Auth {
        provider: ProviderId::new("x").expect("valid"),
        reason: String::new(),
    }
    .is_retriable());
    assert!(!ErrorClass::Config {
        key: String::new(),
        reason: String::new(),
    }
    .is_retriable());
    assert!(!ErrorClass::Container {
        id: None,
        reason: String::new(),
    }
    .is_retriable());
    assert!(!ErrorClass::Fatal {
        reason: String::new(),
    }
    .is_retriable());
}

#[test]
fn command_error_handler_dropped_is_not_retriable() {
    let err = CommandError::HandlerDropped;
    assert!(!err.is_retriable());
    assert_eq!(err.message(), "command handler is unavailable");
}

#[test]
fn command_error_wraps_handler_class() {
    let transient = CommandError::Handler(ErrorClass::Transient {
        retry_after: Duration::from_secs(5),
    });
    assert!(transient.is_retriable());
    let container = CommandError::Handler(ErrorClass::Container {
        id: None,
        reason: "OOM killed".to_owned(),
    });
    assert!(!container.is_retriable());
    assert_eq!(container.message(), "container error: OOM killed");
}

#[test]
fn command_payloads_hold_their_fields() {
    let spawn = SpawnContainer {
        group: GroupId::new("main").expect("valid group id"),
    };
    assert_eq!(spawn.group.as_str(), "main");
    let health = HealthCheck {
        component: "database".to_owned(),
    };
    assert_eq!(health.component, "database");
}

#[test]
fn config_validation_error_joins_messages() {
    let err = ConfigError::Validation {
        errors: vec!["first problem".to_owned(), "second problem".to_owned()],
    };
    assert_eq!(
        err.message(),
        "config validation failed: first problem; second problem"
    );
}

#[test]
fn config_io_error_has_prefix() {
    let err = ConfigError::Io(std::io::Error::new(std::io::ErrorKind::NotFound, "missing"));
    assert_eq!(err.message(), "failed to read config file: missing");
}
