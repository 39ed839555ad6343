//! Forwarding observed notifications to another host as a remote `notify-send`
//! command line.
use crate::monitor::NotifyCall;
use crate::popup::{urgency_label, urgency_name};
use crate::text::{decimal, decimal_text, number_of, parse_unsigned, push_char};
use crate::wire::{urgency_from_hints, urgency_of};
use vstd::prelude::*;
use vstd::string::StringExecFns;

verus! {

/// Where and how to forward notifications.
#[derive(Debug, Clone)]
pub struct ForwardConfig {
    pub ssh_host: String,
    pub ssh_port: u16,
    pub ssh_user: String,
    pub ssh_password: String,
    pub remote_notify_send: String,
    pub startup_wait_secs: u64,
    pub startup_poll_interval_ms: u64,
}

/// The settings a forwarder is configured from, each where it was given.
#[derive(Debug, Clone)]
pub struct ForwardSettings {
    pub ssh_host: Option<String>,
    pub ssh_port: Option<String>,
    pub ssh_user: Option<String>,
    pub ssh_password: Option<String>,
    pub remote_notify_send: Option<String>,
    pub startup_wait_secs: Option<String>,
    pub startup_poll_interval_ms: Option<String>,
}

/// The given text, or `default` where none was given.
pub open spec fn given_or(o: Option<String>, default: Seq<char>) -> Seq<char> {
    match o {
        Some(s) => s@,
        None => default,
    }
}

/// The given number, `default` where none was given, `None` where the text is no number
/// of at most `max`.
pub open spec fn number_or(o: Option<String>, max: nat, default: nat) -> Option<nat> {
    match o {
        Some(s) => number_of(s@, max),
        None => Some(default),
    }
}

/// `r` is an error whose message is `msg`.
pub open spec fn config_error(r: Result<ForwardConfig, String>, msg: Seq<char>) -> bool {
    r matches Err(e) && e@ == msg
}

fn text_or(o: Option<String>, default: &str) -> (r: String)
    ensures
        r@ == given_or(o, default@),
{
    match o {
        Some(s) => s,
        None => default.to_owned(),
    }
}

fn number_setting(o: &Option<String>, max: u64, default: u64) -> (r: Option<u64>)
    requires
        default <= max,
    ensures
        match r {
            Some(v) => number_or(*o, max as nat, default as nat) == Some(v as nat),
            None => number_or(*o, max as nat, default as nat) is None,
        },
{
    match o {
        Some(s) => parse_unsigned(s.as_str(), max),
        None => Some(default),
    }
}

impl ForwardConfig {
    /// The configuration the settings describe, with defaults for what is not given:
    /// `127.0.0.1:2222`, user and password `wisp`, `notify-send`, a 60 s startup wait
    /// polled every 500 ms. A number that does not parse is an error naming its setting.
    pub fn from_settings(settings: ForwardSettings) -> (r: Result<ForwardConfig, String>)
        ensures
            number_or(settings.ssh_port, u16::MAX as nat, 2222) is None ==> config_error(
                r,
                "WISPD_FORWARD_SSH_PORT must be a valid u16"@,
            ),
            number_or(settings.ssh_port, u16::MAX as nat, 2222) is Some && number_or(
                settings.startup_wait_secs,
                u64::MAX as nat,
                60,
            ) is None ==> config_error(r, "WISPD_FORWARD_SSH_STARTUP_WAIT_SECS must be a valid u64"@),
            number_or(settings.ssh_port, u16::MAX as nat, 2222) is Some && number_or(
                settings.startup_wait_secs,
                u64::MAX as nat,
                60,
            ) is Some && number_or(settings.startup_poll_interval_ms, u64::MAX as nat, 500)
                is None ==> config_error(r, "WISPD_FORWARD_SSH_STARTUP_POLL_MS must be a valid u64"@),
            r matches Ok(c) ==> {
                &&& c.ssh_host@ == given_or(settings.ssh_host, "127.0.0.1"@)
                &&& number_or(settings.ssh_port, u16::MAX as nat, 2222) == Some(
                    c.ssh_port as nat,
                )
                &&& c.ssh_user@ == given_or(settings.ssh_user, "wisp"@)
                &&& c.ssh_password@ == given_or(settings.ssh_password, "wisp"@)
                &&& c.remote_notify_send@ == given_or(settings.remote_notify_send, "notify-send"@)
                &&& number_or(settings.startup_wait_secs, u64::MAX as nat, 60) == Some(
                    c.startup_wait_secs as nat,
                )
                &&& number_or(settings.startup_poll_interval_ms, u64::MAX as nat, 500) == Some(
                    c.startup_poll_interval_ms as nat,
                )
            },
            r is Err ==> number_or(settings.ssh_port, u16::MAX as nat, 2222) is None || number_or(
                settings.startup_wait_secs,
                u64::MAX as nat,
                60,
            ) is None || number_or(settings.startup_poll_interval_ms, u64::MAX as nat, 500)
                is None,
    {
        let ssh_port = match number_setting(&settings.ssh_port, 0xffff, 2222) {
            Some(v) => v as u16,
            None => {
                return Err("WISPD_FORWARD_SSH_PORT must be a valid u16".to_owned());
            },
        };
        let startup_wait_secs = match number_setting(
            &settings.startup_wait_secs,
            0xffff_ffff_ffff_ffff,
            60,
        ) {
            Some(v) => v,
            None => {
                return Err("WISPD_FORWARD_SSH_STARTUP_WAIT_SECS must be a valid u64".to_owned());
            },
        };
        let startup_poll_interval_ms = match number_setting(
            &settings.startup_poll_interval_ms,
            0xffff_ffff_ffff_ffff,
            500,
        ) {
            Some(v) => v,
            None => {
                return Err("WISPD_FORWARD_SSH_STARTUP_POLL_MS must be a valid u64".to_owned());
            },
        };
        Ok(ForwardConfig {
            ssh_host: text_or(settings.ssh_host, "127.0.0.1"),
            ssh_port,
            ssh_user: text_or(settings.ssh_user, "wisp"),
            ssh_password: text_or(settings.ssh_password, "wisp"),
            remote_notify_send: text_or(settings.remote_notify_send, "notify-send"),
            startup_wait_secs,
            startup_poll_interval_ms,
        })
    }
}

/// What is forwarded of one notification.
#[derive(Debug, Clone)]
pub struct ForwardPayload {
    pub app_name: String,
    pub summary: String,
    pub body: String,
    pub expire_timeout: i32,
    pub urgency: String,
}

impl ForwardPayload {
    /// What is forwarded of an observed `Notify` call: its texts, its timeout and the
    /// name of its urgency.
    pub fn from_call(call: NotifyCall) -> (r: ForwardPayload)
        ensures
            r.app_name == call.app_name,
            r.summary == call.summary,
            r.body == call.body,
            r.expire_timeout == call.expire_timeout,
            r.urgency@ == urgency_name(urgency_of(call.hints@)),
    {
        let urgency = urgency_label(urgency_from_hints(&call.hints)).to_owned();
        ForwardPayload {
            app_name: call.app_name,
            summary: call.summary,
            body: call.body,
            expire_timeout: call.expire_timeout,
            urgency,
        }
    }
}

/// `s` with each `'` written as `'"'"'`, so that it can stand inside single quotes.
pub open spec fn quote_body(s: Seq<char>) -> Seq<char>
    decreases s.len(),
{
    if s.len() == 0 {
        seq![]
    } else if s.last() == '\'' {
        quote_body(s.drop_last()) + "'\"'\"'"@
    } else {
        quote_body(s.drop_last()).push(s.last())
    }
}

/// `s` as one single-quoted shell word.
pub open spec fn quoted(s: Seq<char>) -> Seq<char> {
    seq!['\''] + quote_body(s) + seq!['\'']
}

/// Quotes `s` as one shell word.
pub fn sh_quote(s: &str) -> (r: String)
    ensures
        r@ == quoted(s@),
{
    let n = s.unicode_len();
    let mut r = String::new();
    push_char(&mut r, '\'');
    let mut i: usize = 0;
    while i < n
        invariant
            n == s@.len(),
            i <= n,
            r@ == seq!['\''] + quote_body(s@.subrange(0, i as int)),
        decreases n - i,
    {
        let c = s.get_char(i);
        proof {
            assert(s@.subrange(0, i + 1).drop_last() =~= s@.subrange(0, i as int));
        }
        if c == '\'' {
            r.append("'\"'\"'");
        } else {
            push_char(&mut r, c);
        }
        proof {
            assert(r@ =~= seq!['\''] + quote_body(s@.subrange(0, i + 1)));
        }
        i = i + 1;
    }
    push_char(&mut r, '\'');
    proof {
        assert(s@.subrange(0, n as int) =~= s@);
    }
    r
}

/// The command line that runs `notify-send` for `payload` on the remote host.
pub open spec fn remote_command(cfg: ForwardConfig, payload: ForwardPayload) -> Seq<char> {
    quoted(cfg.remote_notify_send@) + " -a "@ + quoted(payload.app_name@) + " -u "@ + quoted(
        payload.urgency@,
    ) + (if payload.expire_timeout >= 0 {
        " -t "@ + decimal(payload.expire_timeout as nat)
    } else {
        seq![]
    }) + " "@ + quoted(payload.summary@) + (if payload.body@.len() > 0 {
        " "@ + quoted(payload.body@)
    } else {
        seq![]
    })
}

/// The command line that runs `notify-send` for `payload` on the remote host.
pub fn build_remote_notify_command(cfg: &ForwardConfig, payload: &ForwardPayload) -> (r: String)
    ensures
        r@ == remote_command(*cfg, *payload),
{
    let mut cmd = sh_quote(cfg.remote_notify_send.as_str());
    cmd.append(" -a ");
    cmd.append(sh_quote(payload.app_name.as_str()).as_str());
    cmd.append(" -u ");
    cmd.append(sh_quote(payload.urgency.as_str()).as_str());
    let ghost head = cmd@;
    if payload.expire_timeout >= 0 {
        cmd.append(" -t ");
        cmd.append(decimal_text(payload.expire_timeout as u32).as_str());
    }
    let ghost with_timeout = cmd@;
    cmd.append(" ");
    cmd.append(sh_quote(payload.summary.as_str()).as_str());
    let ghost with_summary = cmd@;
    if !payload.body.as_str().is_empty() {
        cmd.append(" ");
        cmd.append(sh_quote(payload.body.as_str()).as_str());
    }
    proof {
        let t = if payload.expire_timeout >= 0 {
            " -t "@ + decimal(payload.expire_timeout as nat)
        } else {
            seq![]
        };
        let b = if payload.body@.len() > 0 {
            " "@ + quoted(payload.body@)
        } else {
            seq![]
        };
        assert(with_timeout =~= head + t);
        assert(cmd@ =~= with_summary + b);
        assert(cmd@ =~= remote_command(*cfg, *payload));
    }
    cmd
}

/// Where a forwarding attempt stands.
#[derive(Debug, Clone, Copy, PartialEq, Eq, Structural)]
pub enum ForwardStage {
    /// Connecting because there was no session.
    Connecting,
    /// Running the command on the session at hand.
    FirstTry,
    /// Connecting again after the first run failed.
    Reconnecting,
    /// Running the command on the new session.
    SecondTry,
}

/// What the forwarder does next.
#[derive(Debug, Clone, Copy, PartialEq, Eq, Structural)]
pub enum ForwardStep {
    /// Open a session, then report whether that worked.
    Connect(ForwardStage),
    /// Run the command, then report whether that worked.
    Exec(ForwardStage),
    /// The notification was forwarded.
    Succeed,
    /// Give up with the last error.
    Fail,
}

/// The first step of forwarding one notification: connect unless a session is open.
pub fn forward_start(has_session: bool) -> (r: ForwardStep)
    ensures
        r == if has_session {
            ForwardStep::Exec(ForwardStage::FirstTry)
        } else {
            ForwardStep::Connect(ForwardStage::Connecting)
        },
{
    if has_session {
        ForwardStep::Exec(ForwardStage::FirstTry)
    } else {
        ForwardStep::Connect(ForwardStage::Connecting)
    }
}

/// The step after `stage` ended in success (`ok`) or failure: a failed connection
/// gives up, a failed first run reconnects and runs once more, a failed second run
/// gives up.
pub open spec fn next_step(stage: ForwardStage, ok: bool) -> ForwardStep {
    match stage {
        ForwardStage::Connecting => if ok {
            ForwardStep::Exec(ForwardStage::FirstTry)
        } else {
            ForwardStep::Fail
        },
        ForwardStage::FirstTry => if ok {
            ForwardStep::Succeed
        } else {
            ForwardStep::Connect(ForwardStage::Reconnecting)
        },
        ForwardStage::Reconnecting => if ok {
            ForwardStep::Exec(ForwardStage::SecondTry)
        } else {
            ForwardStep::Fail
        },
        ForwardStage::SecondTry => if ok {
            ForwardStep::Succeed
        } else {
            ForwardStep::Fail
        },
    }
}

/// The step after `stage` ended in success (`ok`) or failure.
pub fn forward_next(stage: ForwardStage, ok: bool) -> (r: ForwardStep)
    ensures
        r == next_step(stage, ok),
{
    match stage {
        ForwardStage::Connecting => if ok {
            ForwardStep::Exec(ForwardStage::FirstTry)
        } else {
            ForwardStep::Fail
        },
        ForwardStage::FirstTry => if ok {
            ForwardStep::Succeed
        } else {
            ForwardStep::Connect(ForwardStage::Reconnecting)
        },
        ForwardStage::Reconnecting => if ok {
            ForwardStep::Exec(ForwardStage::SecondTry)
        } else {
            ForwardStep::Fail
        },
        ForwardStage::SecondTry => if ok {
            ForwardStep::Succeed
        } else {
            ForwardStep::Fail
        },
    }
}

/// What waiting for the SSH endpoint does next.
#[derive(Debug, Clone, Copy, PartialEq, Eq, Structural)]
pub enum StartupStep {
    /// The endpoint accepts connections.
    Ready,
    /// The wait is over without a connection.
    GiveUp,
    /// Try again after this many milliseconds.
    RetryAfter(u64),
}

/// The step after one connection attempt, `elapsed_ms` into a wait of
/// `cfg.startup_wait_secs` seconds.
pub fn startup_next(cfg: &ForwardConfig, connected: bool, elapsed_ms: u64) -> (r: StartupStep)
    ensures
        connected ==> r == StartupStep::Ready,
        !connected && elapsed_ms >= cfg.startup_wait_secs * 1000 ==> r == StartupStep::GiveUp,
        !connected && elapsed_ms < cfg.startup_wait_secs * 1000 ==> r == StartupStep::RetryAfter(
            cfg.startup_poll_interval_ms,
        ),
{
    if connected {
        return StartupStep::Ready;
    }
    let past = if cfg.startup_wait_secs > 0xffff_ffff_ffff_ffff / 1000 {
        false
    } else {
        elapsed_ms >= cfg.startup_wait_secs * 1000
    };
    if past {
        StartupStep::GiveUp
    } else {
        StartupStep::RetryAfter(cfg.startup_poll_interval_ms)
    }
}

} // verus!
