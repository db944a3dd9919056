//! The session manager.
//!
//! One persistent authenticated connection to a remote host is modelled as a
//! state machine over [`SessionStatus`].  The network itself is driven by an
//! unverified runner: it reports liveness and connection outcomes, and this
//! module decides what happens to the session state — including that
//! reconnecting to the live current target is a no-op and that connecting to
//! a different target replaces the adopted connection wholesale.

use vstd::prelude::*;
use vstd::string::*;
use crate::errors::CoreError;
use crate::text::{eq_str, has_prefix, trim_seq};

verus! {

/// The identity and credentials of one remote target.
///
/// The authentication method is `"password"` or `"key"`; for a key, either
/// the inline content or a path to the key file is given, with an optional
/// passphrase.  Adopted wholesale by the session on `connect`, never edited.
pub struct RemoteConnection {
    pub id: String,
    pub host: String,
    pub port: u16,
    pub username: String,
    pub auth_method: String,
    pub password: String,
    pub private_key_path: String,
    pub private_key_content: String,
    pub passphrase: String,
}

impl RemoteConnection {
    /// A field-for-field copy.
    pub fn duplicate(&self) -> (r: Self)
        ensures
            r == *self,
    {
        RemoteConnection {
            id: self.id.clone(),
            host: self.host.clone(),
            port: self.port,
            username: self.username.clone(),
            auth_method: self.auth_method.clone(),
            password: self.password.clone(),
            private_key_path: self.private_key_path.clone(),
            private_key_content: self.private_key_content.clone(),
            passphrase: self.passphrase.clone(),
        }
    }
}

/// The single source of truth for session health.
#[derive(Debug)]
pub enum SessionStatus {
    Disconnected,
    Connecting,
    Connected,
    Failed(String),
}

/// Spec-level equality of two statuses: same variant, and for failures the
/// same reason text.
pub open spec fn status_eq(a: SessionStatus, b: SessionStatus) -> bool {
    match (a, b) {
        (SessionStatus::Disconnected, SessionStatus::Disconnected) => true,
        (SessionStatus::Connecting, SessionStatus::Connecting) => true,
        (SessionStatus::Connected, SessionStatus::Connected) => true,
        (SessionStatus::Failed(x), SessionStatus::Failed(y)) => x@ == y@,
        _ => false,
    }
}

impl PartialEq for SessionStatus {
    fn eq(&self, other: &Self) -> (r: bool) {
        match (self, other) {
            (SessionStatus::Disconnected, SessionStatus::Disconnected) => true,
            (SessionStatus::Connecting, SessionStatus::Connecting) => true,
            (SessionStatus::Connected, SessionStatus::Connected) => true,
            (SessionStatus::Failed(x), SessionStatus::Failed(y)) => eq_str(
                x.as_str(),
                y.as_str(),
            ),
            _ => false,
        }
    }
}

impl vstd::std_specs::cmp::PartialEqSpecImpl for SessionStatus {
    open spec fn obeys_eq_spec() -> bool {
        true
    }

    open spec fn eq_spec(&self, other: &Self) -> bool {
        status_eq(*self, *other)
    }
}

impl Clone for SessionStatus {
    fn clone(&self) -> (r: Self)
        ensures
            status_eq(*self, r),
    {
        match self {
            SessionStatus::Disconnected => SessionStatus::Disconnected,
            SessionStatus::Connecting => SessionStatus::Connecting,
            SessionStatus::Connected => SessionStatus::Connected,
            SessionStatus::Failed(s) => SessionStatus::Failed(s.clone()),
        }
    }
}

/// The persistent-session state: the adopted connection, the health status,
/// and the non-blocking workflow lock.
pub struct SshSession {
    pub conn: Option<RemoteConnection>,
    pub status: SessionStatus,
    pub syncing: bool,
}

/// Are `a` and `b` the same target?  Targets are compared by their identity.
pub open spec fn same_target(a: Option<RemoteConnection>, b: RemoteConnection) -> bool {
    a is Some && a->0.id@ == b.id@
}

impl SshSession {
    /// A fresh session: nothing adopted, disconnected, lock free.
    pub fn new() -> (r: Self)
        ensures
            r.conn is None,
            r.status is Disconnected,
            !r.syncing,
    {
        SshSession { conn: None, status: SessionStatus::Disconnected, syncing: false }
    }

    /// The current session status.
    pub fn status(&self) -> (r: &SessionStatus)
        ensures
            *r == self.status,
    {
        &self.status
    }

    /// The currently adopted connection, if any.
    pub fn conn(&self) -> (r: Option<&RemoteConnection>)
        ensures
            match r {
                Some(c) => self.conn is Some && *c == self.conn->0,
                None => self.conn is None,
            },
    {
        self.conn.as_ref()
    }

    /// Decide how a `connect(conn)` request starts, given whether the
    /// current transport handle is alive.
    ///
    /// If the same target is already adopted and alive, this is a no-op: the
    /// status is (re)affirmed `Connected`, nothing else changes, and no new
    /// connection is made.  Otherwise any previous target is dropped (the
    /// runner must close its handle), the new connection is adopted
    /// wholesale, the status becomes `Connecting`, and the runner must now
    /// establish and authenticate the connection, reporting the outcome to
    /// [`Self::connect_finish`].
    pub fn connect_begin(&mut self, conn: RemoteConnection, alive: bool) -> (start: bool)
        ensures
            start == !(same_target(old(self).conn, conn) && alive),
            !start ==> final(self).status is Connected && final(self).conn == old(self).conn,
            start ==> final(self).status is Connecting && final(self).conn == Some(conn),
            final(self).syncing == old(self).syncing,
    {
        let is_same = match &self.conn {
            Some(c) => eq_str(c.id.as_str(), conn.id.as_str()),
            None => false,
        };
        if is_same && alive {
            self.status = SessionStatus::Connected;
            false
        } else {
            // drop any previous target before adopting the new one
            self.conn = Some(conn);
            self.status = SessionStatus::Connecting;
            true
        }
    }

    /// Record the outcome of the connection attempt the runner made.
    ///
    /// On success the session is `Connected`; on failure it is `Failed` with
    /// a reason naming the error, and that reason is returned.
    pub fn connect_finish(&mut self, outcome: Result<(), String>) -> (r: Result<(), CoreError>)
        ensures
            final(self).conn == old(self).conn,
            final(self).syncing == old(self).syncing,
            match outcome {
                Ok(()) => r is Ok && final(self).status is Connected,
                Err(e) => (r matches Err(CoreError::Connection(m)) && m@ == "connection failed: "@
                    + e@) && (final(self).status matches SessionStatus::Failed(f) && f@
                    == "connection failed: "@ + e@),
            },
    {
        match outcome {
            Ok(()) => {
                self.status = SessionStatus::Connected;
                Ok(())
            },
            Err(e) => {
                proof {
                    reveal_strlit("connection failed: ");
                }
                let mut msg = String::new();
                msg.append("connection failed: ");
                msg.append(e.as_str());
                proof {
                    assert(msg@ =~= "connection failed: "@ + e@);
                }
                self.status = SessionStatus::Failed(msg.clone());
                Err(CoreError::Connection(msg))
            },
        }
    }

    /// Decide how `ensure_connected` proceeds, given liveness.
    ///
    /// A live handle just reaffirms `Connected`.  A dead one yields the
    /// stored connection for exactly one reconnect attempt, or an error when
    /// none was ever adopted.
    pub fn ensure_connected_begin(&mut self, alive: bool) -> (r: Result<
        Option<RemoteConnection>,
        CoreError,
    >)
        ensures
            final(self).conn == old(self).conn,
            final(self).syncing == old(self).syncing,
            alive ==> r is Ok && r->Ok_0 is None && final(self).status is Connected,
            !alive && old(self).conn is Some ==> r is Ok && r->Ok_0 == Some(old(self).conn->0)
                && final(self).status == old(self).status,
            !alive && old(self).conn is None ==> (r matches Err(CoreError::Connection(m)) && m@
                == "no stored connection to reconnect with"@) && final(self).status == old(
                self,
            ).status,
    {
        if alive {
            self.status = SessionStatus::Connected;
            return Ok(None);
        }
        match &self.conn {
            Some(c) => Ok(Some(c.duplicate())),
            None => {
                proof {
                    reveal_strlit("no stored connection to reconnect with");
                }
                Err(CoreError::Connection("no stored connection to reconnect with".to_owned()))
            },
        }
    }

    /// Drop the adopted connection and return to `Disconnected`, whatever
    /// the close attempt did.
    pub fn disconnect(&mut self)
        ensures
            final(self).conn is None,
            final(self).status is Disconnected,
            final(self).syncing == old(self).syncing,
    {
        self.conn = None;
        self.status = SessionStatus::Disconnected;
    }

    /// The `user@host` label of the adopted target.
    pub fn target_str(&self) -> (r: Result<String, CoreError>)
        ensures
            match self.conn {
                Some(c) => r is Ok && r->Ok_0@ == c.username@ + "@"@ + c.host@,
                None => (r matches Err(CoreError::Connection(m)) && m@
                    == "no session established"@),
            },
    {
        match &self.conn {
            Some(c) => {
                proof {
                    reveal_strlit("@");
                }
                let mut s = String::new();
                s.append(c.username.as_str());
                s.append("@");
                s.append(c.host.as_str());
                proof {
                    assert(s@ =~= c.username@ + "@"@ + c.host@);
                }
                Ok(s)
            },
            None => {
                proof {
                    reveal_strlit("no session established");
                }
                Err(CoreError::Connection("no session established".to_owned()))
            },
        }
    }

    /// Take the non-blocking workflow lock: succeeds exactly when it was
    /// free, and holds it afterwards either way.
    pub fn try_acquire_sync_lock(&mut self) -> (r: bool)
        ensures
            r == !old(self).syncing,
            final(self).syncing,
            final(self).conn == old(self).conn,
            final(self).status == old(self).status,
    {
        if self.syncing {
            false
        } else {
            self.syncing = true;
            true
        }
    }

    /// Release the workflow lock.  Callers must do so on every exit path.
    pub fn release_sync_lock(&mut self)
        ensures
            !final(self).syncing,
            final(self).conn == old(self).conn,
            final(self).status == old(self).status,
    {
        self.syncing = false;
    }
}

} // verus!

verus! {

/// Does this string hold PEM private-key content (rather than a path)?
pub fn is_private_key_content(value: &str) -> (r: bool)
    ensures
        r == has_prefix(trim_seq(value@), "-----BEGIN"@),
{
    proof {
        reveal_strlit("-----BEGIN");
    }
    let trimmed = crate::text::trim(value);
    crate::text::starts_with(trimmed, "-----BEGIN")
}

/// The authentication step the runner must perform.
pub enum AuthStep {
    /// Password authentication for `username`.
    Password { username: String, password: String },
    /// Public-key authentication with inline key material.
    KeyFromContent { username: String, content: String, passphrase: Option<String> },
    /// Public-key authentication with a key loaded from a file.
    KeyFromFile { username: String, path: String, passphrase: Option<String> },
}

/// Decide how to authenticate `conn`.
///
/// `"password"` with a non-empty password authenticates by password.
/// `"key"` prefers inline key content (when it looks like PEM material) over
/// a key-file path; lacking both is an authentication error.  Anything else
/// is an unsupported method.
pub fn auth_plan(conn: &RemoteConnection) -> (r: Result<AuthStep, CoreError>)
    ensures
        ({
            let trimmed_content = trim_seq(conn.private_key_content@);
            let content_is_key = has_prefix(trimmed_content, "-----BEGIN"@);
            if conn.auth_method@ == "password"@ && conn.password@.len() > 0 {
                r matches Ok(AuthStep::Password { username, password }) && username@
                    == conn.username@ && password@ == conn.password@
            } else if conn.auth_method@ == "key"@ {
                if trimmed_content.len() > 0 && content_is_key {
                    r matches Ok(AuthStep::KeyFromContent { username, content, passphrase })
                        && username@ == conn.username@ && content@ == trimmed_content && (match (
                        passphrase,
                        conn.passphrase@.len(),
                    ) {
                        (Some(p), n) => n > 0 && p@ == conn.passphrase@,
                        (None, n) => n == 0,
                    })
                } else if conn.private_key_path@.len() > 0 {
                    r matches Ok(AuthStep::KeyFromFile { username, path, passphrase })
                        && username@ == conn.username@ && path@ == conn.private_key_path@ && (
                    match (passphrase, conn.passphrase@.len()) {
                        (Some(p), n) => n > 0 && p@ == conn.passphrase@,
                        (None, n) => n == 0,
                    })
                } else {
                    r matches Err(CoreError::Auth(m)) && m@
                        == "no private key path or content provided"@
                }
            } else {
                r matches Err(CoreError::Auth(m)) && m@ == "unsupported authentication method: "@
                    + conn.auth_method@
            }
        }),
{
    proof {
        reveal_strlit("password");
        reveal_strlit("key");
        reveal_strlit("no private key path or content provided");
        reveal_strlit("unsupported authentication method: ");
    }
    let passphrase: Option<String> = if conn.passphrase.as_str().unicode_len() == 0 {
        None
    } else {
        Some(conn.passphrase.clone())
    };
    if eq_str(conn.auth_method.as_str(), "password") && conn.password.as_str().unicode_len() > 0 {
        Ok(AuthStep::Password { username: conn.username.clone(), password: conn.password.clone() })
    } else if eq_str(conn.auth_method.as_str(), "key") {
        let content = crate::text::trim(conn.private_key_content.as_str());
        if content.unicode_len() > 0 && crate::text::starts_with(content, "-----BEGIN") {
            Ok(
                AuthStep::KeyFromContent {
                    username: conn.username.clone(),
                    content: content.to_owned(),
                    passphrase,
                },
            )
        } else if conn.private_key_path.as_str().unicode_len() > 0 {
            Ok(
                AuthStep::KeyFromFile {
                    username: conn.username.clone(),
                    path: conn.private_key_path.clone(),
                    passphrase,
                },
            )
        } else {
            Err(CoreError::Auth("no private key path or content provided".to_owned()))
        }
    } else {
        let mut m = String::new();
        m.append("unsupported authentication method: ");
        m.append(conn.auth_method.as_str());
        proof {
            assert(m@ =~= "unsupported authentication method: "@ + conn.auth_method@);
        }
        Err(CoreError::Auth(m))
    }
}

/// Timeouts and keepalive settings for a connection, in seconds.
pub struct ConnectTuning {
    pub connect_timeout_secs: u64,
    pub inactivity_timeout_secs: u64,
    pub keepalive_interval_secs: u64,
    pub keepalive_max: u64,
}

/// The tuning of the persistent session: a 30 s connect timeout, probes
/// every 30 s, torn down after 3 missed probes or 90 s of inactivity.
pub fn persistent_tuning() -> (r: ConnectTuning)
    ensures
        r.connect_timeout_secs == 30,
        r.inactivity_timeout_secs == 90,
        r.keepalive_interval_secs == 30,
        r.keepalive_max == 3,
{
    ConnectTuning {
        connect_timeout_secs: 30,
        inactivity_timeout_secs: 90,
        keepalive_interval_secs: 30,
        keepalive_max: 3,
    }
}

/// The tuning of an ephemeral test connection: a 15 s connect timeout and a
/// 10 s inactivity timeout, no keepalive probing.
pub fn test_tuning() -> (r: ConnectTuning)
    ensures
        r.connect_timeout_secs == 15,
        r.inactivity_timeout_secs == 10,
        r.keepalive_interval_secs == 0,
        r.keepalive_max == 0,
{
    ConnectTuning {
        connect_timeout_secs: 15,
        inactivity_timeout_secs: 10,
        keepalive_interval_secs: 0,
        keepalive_max: 0,
    }
}

} // verus!

verus! {

/// One message observed on an exec channel, as the runner reports it.
pub enum ChannelEvent {
    /// Standard-output data.
    Data(Vec<u8>),
    /// Extended data with its stream number; stream 1 is standard error.
    Extended(Vec<u8>, u32),
    /// The remote exit status.
    Exit(u32),
    /// Anything else on the channel, ignored.
    Other,
}

/// All standard-output bytes of the event stream, in order.
pub open spec fn collected_stdout(evs: Seq<ChannelEvent>) -> Seq<u8>
    decreases evs.len(),
{
    if evs.len() == 0 {
        Seq::empty()
    } else {
        collected_stdout(evs.drop_last()) + match evs.last() {
            ChannelEvent::Data(d) => d@,
            _ => Seq::empty(),
        }
    }
}

/// All standard-error bytes (extended stream 1) of the event stream, in
/// order.
pub open spec fn collected_stderr(evs: Seq<ChannelEvent>) -> Seq<u8>
    decreases evs.len(),
{
    if evs.len() == 0 {
        Seq::empty()
    } else {
        collected_stderr(evs.drop_last()) + match evs.last() {
            ChannelEvent::Extended(d, ext) => if ext == 1 {
                d@
            } else {
                Seq::empty()
            },
            _ => Seq::empty(),
        }
    }
}

/// The last exit status reported in the event stream, if any.
pub open spec fn last_exit(evs: Seq<ChannelEvent>) -> Option<u32>
    decreases evs.len(),
{
    if evs.len() == 0 {
        None
    } else {
        match evs.last() {
            ChannelEvent::Exit(c) => Some(c),
            _ => last_exit(evs.drop_last()),
        }
    }
}

fn append_bytes(out: &mut Vec<u8>, d: &Vec<u8>)
    ensures
        final(out)@ == old(out)@ + d@,
{
    let n = d.len();
    let mut j: usize = 0;
    while j < n
        invariant
            n == d@.len(),
            j <= n,
            out@ == old(out)@ + d@.take(j as int),
        decreases n - j,
    {
        out.push(d[j]);
        proof {
            assert(old(out)@ + d@.take(j + 1) =~= (old(out)@ + d@.take(j as int)).push(
                d@[j as int],
            ));
        }
        j += 1;
    }
    proof {
        assert(d@.take(n as int) =~= d@);
    }
}

/// Demultiplex an exec channel's event stream into collected stdout,
/// collected stderr, and the final exit status.
pub fn collect_exec_output(events: &Vec<ChannelEvent>) -> (r: (Vec<u8>, Vec<u8>, Option<u32>))
    ensures
        r.0@ == collected_stdout(events@),
        r.1@ == collected_stderr(events@),
        r.2 == last_exit(events@),
{
    let n = events.len();
    let mut stdout: Vec<u8> = Vec::new();
    let mut stderr: Vec<u8> = Vec::new();
    let mut exit: Option<u32> = None;
    let mut i: usize = 0;
    proof {
        assert(events@.take(0) =~= Seq::<ChannelEvent>::empty());
    }
    while i < n
        invariant
            n == events@.len(),
            i <= n,
            stdout@ == collected_stdout(events@.take(i as int)),
            stderr@ == collected_stderr(events@.take(i as int)),
            exit == last_exit(events@.take(i as int)),
        decreases n - i,
    {
        proof {
            assert(events@.take(i + 1).drop_last() =~= events@.take(i as int));
            assert(events@.take(i + 1).last() == events@[i as int]);
        }
        match &events[i] {
            ChannelEvent::Data(d) => {
                append_bytes(&mut stdout, d);
                proof {
                    assert(stderr@ =~= stderr@ + Seq::<u8>::empty());
                }
            },
            ChannelEvent::Extended(d, ext) => {
                if *ext == 1 {
                    append_bytes(&mut stderr, d);
                }
                proof {
                    assert(stdout@ =~= stdout@ + Seq::<u8>::empty());
                    if *ext != 1 {
                        assert(stderr@ =~= stderr@ + Seq::<u8>::empty());
                    }
                }
            },
            ChannelEvent::Exit(c) => {
                exit = Some(*c);
                proof {
                    assert(stdout@ =~= stdout@ + Seq::<u8>::empty());
                    assert(stderr@ =~= stderr@ + Seq::<u8>::empty());
                }
            },
            ChannelEvent::Other => {
                proof {
                    assert(stdout@ =~= stdout@ + Seq::<u8>::empty());
                    assert(stderr@ =~= stderr@ + Seq::<u8>::empty());
                }
            },
        }
        i += 1;
    }
    proof {
        assert(events@.take(n as int) =~= events@);
    }
    (stdout, stderr, exit)
}

} // verus!

verus! {

/// The detail attached to a nonzero exit status: trimmed standard error
/// when non-empty, the trimmed standard output otherwise.
pub open spec fn exec_detail(stdout: Seq<u8>, stderr: Seq<u8>) -> Seq<char> {
    let serr = trim_seq(crate::encoding::utf8_lossy_of(stderr));
    if serr.len() > 0 {
        serr
    } else {
        trim_seq(crate::encoding::utf8_lossy_of(stdout))
    }
}

/// The error text for a command that exited with nonzero `code`.
pub open spec fn exec_error_text(code: u32, stdout: Seq<u8>, stderr: Seq<u8>) -> Seq<char> {
    "remote command exited with code "@ + crate::text::dec_seq(code as int) + ": "@ + exec_detail(
        stdout,
        stderr,
    )
}

/// Interpret a completed exec channel's event stream, as `exec_command`
/// sees it.
///
/// Exit status 0, or a channel closed without reporting one, is success and
/// yields the collected standard output decoded leniently.  A nonzero
/// status is an error carrying the status and the trimmed standard error
/// (or standard output, when standard error is blank).
pub fn exec_command_outcome(events: &Vec<ChannelEvent>) -> (r: Result<String, CoreError>)
    ensures
        ({
            let stdout = collected_stdout(events@);
            let stderr = collected_stderr(events@);
            match last_exit(events@) {
                None => r is Ok && r->Ok_0@ == crate::encoding::utf8_lossy_of(stdout),
                Some(code) => if code == 0 {
                    r is Ok && r->Ok_0@ == crate::encoding::utf8_lossy_of(stdout)
                } else {
                    (r matches Err(CoreError::RemoteExec(m)) && m@ == exec_error_text(
                        code,
                        stdout,
                        stderr,
                    ))
                },
            }
        }),
{
    let (stdout, stderr, exit) = collect_exec_output(events);
    let out = crate::encoding::from_utf8_lossy(stdout.as_slice());
    match exit {
        None => Ok(out),
        Some(code) => {
            if code == 0 {
                Ok(out)
            } else {
                let err_text = crate::encoding::from_utf8_lossy(stderr.as_slice());
                let err_trimmed = crate::text::trim(err_text.as_str());
                let detail: &str = if err_trimmed.unicode_len() > 0 {
                    err_trimmed
                } else {
                    crate::text::trim(out.as_str())
                };
                proof {
                    reveal_strlit("remote command exited with code ");
                    reveal_strlit(": ");
                }
                let mut m = String::new();
                m.append("remote command exited with code ");
                let code_str = crate::text::u64_to_string(code as u64);
                m.append(code_str.as_str());
                m.append(": ");
                m.append(detail);
                proof {
                    assert(m@ =~= exec_error_text(code, collected_stdout(events@), collected_stderr(
                        events@,
                    )));
                }
                Err(CoreError::RemoteExec(m))
            }
        },
    }
}

/// The error text for a with-stdin command that exited with nonzero `code`:
/// the status, and the trimmed standard error when there was any.
pub open spec fn exec_stdin_error_text(code: u32, stderr: Seq<u8>) -> Seq<char> {
    let serr = trim_seq(crate::encoding::utf8_lossy_of(stderr));
    "remote command exited with code "@ + crate::text::dec_seq(code as int) + if serr.len() > 0 {
        ": "@ + serr
    } else {
        Seq::empty()
    }
}

/// Interpret a completed exec channel's event stream for a command that was
/// fed standard input; no output is returned on success.
pub fn exec_command_with_stdin_outcome(events: &Vec<ChannelEvent>) -> (r: Result<(), CoreError>)
    ensures
        ({
            let stderr = collected_stderr(events@);
            match last_exit(events@) {
                None => r is Ok,
                Some(code) => if code == 0 {
                    r is Ok
                } else {
                    (r matches Err(CoreError::RemoteExec(m)) && m@ == exec_stdin_error_text(
                        code,
                        stderr,
                    ))
                },
            }
        }),
{
    let (_stdout, stderr, exit) = collect_exec_output(events);
    match exit {
        None => Ok(()),
        Some(code) => {
            if code == 0 {
                Ok(())
            } else {
                let err_text = crate::encoding::from_utf8_lossy(stderr.as_slice());
                let err_trimmed = crate::text::trim(err_text.as_str());
                proof {
                    reveal_strlit("remote command exited with code ");
                    reveal_strlit(": ");
                }
                let mut m = String::new();
                m.append("remote command exited with code ");
                let code_str = crate::text::u64_to_string(code as u64);
                m.append(code_str.as_str());
                if err_trimmed.unicode_len() > 0 {
                    m.append(": ");
                    m.append(err_trimmed);
                }
                proof {
                    assert(m@ =~= exec_stdin_error_text(code, collected_stderr(events@)));
                }
                Err(CoreError::RemoteExec(m))
            }
        },
    }
}

/// The collected standard output of an ephemeral test command, decoded
/// leniently; the exit status is ignored.
pub fn test_command_output(events: &Vec<ChannelEvent>) -> (r: String)
    ensures
        r@ == crate::encoding::utf8_lossy_of(collected_stdout(events@)),
{
    let (stdout, _stderr, _exit) = collect_exec_output(events);
    crate::encoding::from_utf8_lossy(stdout.as_slice())
}

/// The outcome of testing a connection configuration.
pub struct ConnectionTestResult {
    pub connected: bool,
    pub error: Option<String>,
    pub server_info: Option<String>,
}

/// Shape the outcome of an ephemeral test connection: on success, the
/// trimmed command output becomes the server info (absent when blank); on
/// failure, the error text is carried.
pub fn test_connection(outcome: Result<String, CoreError>) -> (r: ConnectionTestResult)
    ensures
        match outcome {
            Ok(out) => r.connected && r.error is None && (if trim_seq(out@).len() == 0 {
                r.server_info is None
            } else {
                r.server_info matches Some(s) && s@ == trim_seq(out@)
            }),
            Err(e) => !r.connected && (r.error matches Some(m) && m@ == e.text())
                && r.server_info is None,
        },
{
    match outcome {
        Ok(out) => {
            let t = crate::text::trim(out.as_str());
            if t.unicode_len() == 0 {
                ConnectionTestResult { connected: true, error: None, server_info: None }
            } else {
                ConnectionTestResult {
                    connected: true,
                    error: None,
                    server_info: Some(t.to_owned()),
                }
            }
        },
        Err(e) => {
            let m = e.message();
            ConnectionTestResult { connected: false, error: Some(m), server_info: None }
        },
    }
}

} // verus!
