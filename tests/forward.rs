use wisp::forward::{
    build_remote_notify_command, forward_next, forward_start, sh_quote, startup_next,
    ForwardConfig, ForwardPayload, ForwardSettings, ForwardStage, ForwardStep, StartupStep,
};
use wisp::text::decimal_text;
use wisp::monitor::NotifyCall;
use wisp::wire::{Hint, HintValue};

fn no_settings() -> ForwardSettings {
    ForwardSettings {
        ssh_host: None,
        ssh_port: None,
        ssh_user: None,
        ssh_password: None,
        remote_notify_send: None,
        startup_wait_secs: None,
        startup_poll_interval_ms: None,
    }
}

#[test]
fn sh_quote_escapes_single_quotes() {
    assert_eq!(sh_quote("it's"), "'it'\"'\"'s'");
    assert_eq!(sh_quote(""), "''");
    assert_eq!(sh_quote("a b"), "'a b'");
}

#[test]
fn decimal_text_writes_numbers() {
    assert_eq!(decimal_text(0), "0");
    assert_eq!(decimal_text(2500), "2500");
    assert_eq!(decimal_text(u32::MAX), "4294967295");
}

#[test]
fn remote_command_includes_timeout_and_body() {
    let cfg = ForwardConfig::from_settings(no_settings()).unwrap();
    let payload = ForwardPayload {
        app_name: "mail".into(),
        summary: "hi".into(),
        body: "it's here".into(),
        expire_timeout: 2500,
        urgency: "critical".into(),
    };
    assert_eq!(
        build_remote_notify_command(&cfg, &payload),
        "'notify-send' -a 'mail' -u 'critical' -t 2500 'hi' 'it'\"'\"'s here'"
    );
}

#[test]
fn remote_command_skips_negative_timeout_and_empty_body() {
    let cfg = ForwardConfig::from_settings(no_settings()).unwrap();
    let payload = ForwardPayload {
        app_name: "a".into(),
        summary: "s".into(),
        body: String::new(),
        expire_timeout: -1,
        urgency: "normal".into(),
    };
    assert_eq!(build_remote_notify_command(&cfg, &payload), "'notify-send' -a 'a' -u 'normal' 's'");
}

#[test]
fn forward_config_defaults() {
    let cfg = ForwardConfig::from_settings(no_settings()).unwrap();
    assert_eq!(cfg.ssh_host, "127.0.0.1");
    assert_eq!(cfg.ssh_port, 2222);
    assert_eq!(cfg.ssh_user, "wisp");
    assert_eq!(cfg.remote_notify_send, "notify-send");
    assert_eq!(cfg.startup_wait_secs, 60);
    assert_eq!(cfg.startup_poll_interval_ms, 500);
}

#[test]
fn forward_config_reads_settings_and_rejects_bad_numbers() {
    let cfg = ForwardConfig::from_settings(ForwardSettings {
        ssh_host: Some("vm".into()),
        ssh_port: Some("22".into()),
        startup_wait_secs: Some("5".into()),
        ..no_settings()
    })
    .unwrap();
    assert_eq!(cfg.ssh_host, "vm");
    assert_eq!(cfg.ssh_port, 22);
    assert_eq!(cfg.startup_wait_secs, 5);
    let err = ForwardConfig::from_settings(ForwardSettings {
        ssh_port: Some("70000".into()),
        ..no_settings()
    })
    .unwrap_err();
    assert_eq!(err, "WISPD_FORWARD_SSH_PORT must be a valid u16");
    let err = ForwardConfig::from_settings(ForwardSettings {
        startup_poll_interval_ms: Some("soon".into()),
        ..no_settings()
    })
    .unwrap_err();
    assert_eq!(err, "WISPD_FORWARD_SSH_STARTUP_POLL_MS must be a valid u64");
    let err = ForwardConfig::from_settings(ForwardSettings {
        startup_wait_secs: Some("".into()),
        ..no_settings()
    })
    .unwrap_err();
    assert_eq!(err, "WISPD_FORWARD_SSH_STARTUP_WAIT_SECS must be a valid u64");
}

#[test]
fn payload_takes_urgency_name_from_hints() {
    let call = NotifyCall {
        app_name: "app".into(),
        replaces_id: 0,
        summary: "s".into(),
        body: "b".into(),
        actions: vec![],
        hints: vec![Hint { key: "urgency".into(), value: HintValue::Byte(0), rendered: "0".into() }],
        expire_timeout: 10,
    };
    let payload = ForwardPayload::from_call(call);
    assert_eq!(payload.urgency, "low");
    assert_eq!(payload.app_name, "app");
    assert_eq!(payload.expire_timeout, 10);
}

#[test]
fn forwarding_reconnects_once_after_a_failed_run() {
    assert_eq!(forward_start(false), ForwardStep::Connect(ForwardStage::Connecting));
    assert_eq!(forward_start(true), ForwardStep::Exec(ForwardStage::FirstTry));
    assert_eq!(forward_next(ForwardStage::Connecting, false), ForwardStep::Fail);
    assert_eq!(forward_next(ForwardStage::FirstTry, true), ForwardStep::Succeed);
    assert_eq!(
        forward_next(ForwardStage::FirstTry, false),
        ForwardStep::Connect(ForwardStage::Reconnecting)
    );
    assert_eq!(
        forward_next(ForwardStage::Reconnecting, true),
        ForwardStep::Exec(ForwardStage::SecondTry)
    );
    assert_eq!(forward_next(ForwardStage::SecondTry, false), ForwardStep::Fail);
}

#[test]
fn startup_wait_polls_until_the_deadline() {
    let cfg = ForwardConfig::from_settings(no_settings()).unwrap();
    assert_eq!(startup_next(&cfg, true, 999_999), StartupStep::Ready);
    assert_eq!(startup_next(&cfg, false, 59_999), StartupStep::RetryAfter(500));
    assert_eq!(startup_next(&cfg, false, 60_000), StartupStep::GiveUp);
}
