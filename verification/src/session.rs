//! Remote session: the authenticated-shell state machine and the
//! handling of the execution channel's message stream.
//!
//! The wire protocol (handshake, crypto, channel plumbing) is an outside
//! capability driven by the unverified shell; this module pins the fixed
//! connection parameters, the session's state transitions — including the
//! distinction between a transport failure and rejected credentials — and
//! what a command execution resolves to: remote stdout streamed to the
//! sink as it arrives, and exactly the last reported exit status, or an
//! error when the channel closed without ever reporting one.

use vstd::prelude::*;
use vstd::string::StringExecFns;
use crate::errors::PipelineError;

verus! {

/// Accepts every server host key; the pipeline deliberately does not pin
/// the remote host's identity.
pub struct Client {}

impl Client {
    /// The host-key policy applied during the handshake.
    pub fn check_server_key(&self) -> (r: bool)
        ensures
            r == true,
    {
        true
    }
}

/// Seconds of inactivity after which the transport gives up.
pub const INACTIVITY_TIMEOUT_SECS: u64 = 5;

/// The one key-exchange algorithm the pipeline offers.
pub open spec fn preferred_kex_spec() -> Seq<char> {
    "diffie-hellman-group14-sha256"@
}

/// Executable form of [`preferred_kex_spec`].
pub fn preferred_kex() -> (r: String)
    ensures
        r@ == preferred_kex_spec(),
{
    String::from_str("diffie-hellman-group14-sha256")
}

/// Where a remote session stands.
#[derive(Debug, Clone, Copy, PartialEq, Eq, Structural)]
pub enum SessionState {
    /// No connection attempt has been made.
    Disconnected,
    /// The transport handshake and authentication are under way.
    Connecting,
    /// Credentials were accepted; no command channel is open.
    Authenticated,
    /// One command-execution channel is open.
    Executing,
    /// The session ended with a graceful disconnect.
    Closed,
    /// The session ended on a transport, authentication or execution
    /// failure.
    Failed,
}

/// One remote-shell session, bound to one transport connection; it holds
/// at most one open command-execution channel at a time and is never
/// reused across commands by the pipeline.
pub struct Session {
    /// The session's current state.
    pub state: SessionState,
}

impl Session {
    /// A fresh session: nothing attempted yet.
    pub fn new() -> (s: Session)
        ensures
            s.state is Disconnected,
    {
        Session { state: SessionState::Disconnected }
    }

    /// The transport connection is being opened.
    pub fn begin_connect(&mut self)
        requires
            old(self).state is Disconnected,
        ensures
            final(self).state is Connecting,
    {
        self.state = SessionState::Connecting;
    }

    /// Outcome of the transport handshake.  A failure here is a
    /// transport-level error, reported as such.
    pub fn on_handshake(&mut self, ok: bool, message: &String) -> (r: Result<(), PipelineError>)
        requires
            old(self).state is Connecting,
        ensures
            ok ==> r is Ok && final(self).state is Connecting,
            !ok ==> final(self).state is Failed && (r matches Err(e) && (e
                matches PipelineError::Transport(m) && m@ == message@)),
    {
        if ok {
            Ok(())
        } else {
            self.state = SessionState::Failed;
            Err(PipelineError::Transport(message.clone()))
        }
    }

    /// Outcome of password authentication.  "Not accepted" is a distinct
    /// failure from a transport error and is reported as such.
    pub fn on_auth(&mut self, accepted: bool) -> (r: Result<(), PipelineError>)
        requires
            old(self).state is Connecting,
        ensures
            accepted ==> r is Ok && final(self).state is Authenticated,
            !accepted ==> final(self).state is Failed && r == Err::<(), PipelineError>(
                PipelineError::Authentication,
            ),
    {
        if accepted {
            self.state = SessionState::Authenticated;
            Ok(())
        } else {
            self.state = SessionState::Failed;
            Err(PipelineError::Authentication)
        }
    }

    /// One command-execution channel is opened.
    pub fn begin_exec(&mut self)
        requires
            old(self).state is Authenticated,
        ensures
            final(self).state is Executing,
    {
        self.state = SessionState::Executing;
    }

    /// The execution channel has closed: the command resolves with the
    /// last exit status the tracker saw, or fails when none was ever
    /// reported — a closed channel is not silently treated as success.
    pub fn end_exec(&mut self, t: ExecTracker) -> (r: Result<u32, PipelineError>)
        requires
            old(self).state is Executing,
        ensures
            match t.code {
                Some(c) => r == Ok::<u32, PipelineError>(c) && final(self).state is Authenticated,
                None => r == Err::<u32, PipelineError>(PipelineError::RemoteExecution)
                    && final(self).state is Failed,
            },
    {
        match t.code {
            Some(c) => {
                self.state = SessionState::Authenticated;
                Ok(c)
            },
            None => {
                self.state = SessionState::Failed;
                Err(PipelineError::RemoteExecution)
            },
        }
    }

    /// A graceful disconnect is sent.  A failure while closing is
    /// reported but the session still counts as closed: it does not
    /// retroactively invalidate a command that already completed.
    pub fn close(&mut self, ok: bool, message: &String) -> (r: Result<(), PipelineError>)
        requires
            old(self).state is Authenticated,
        ensures
            final(self).state is Closed,
            ok ==> r is Ok,
            !ok ==> (r matches Err(e) && (e matches PipelineError::Transport(m) && m@
                == message@)),
    {
        self.state = SessionState::Closed;
        if ok {
            Ok(())
        } else {
            Err(PipelineError::Transport(message.clone()))
        }
    }
}

/// One message received on the execution channel, reduced to what the
/// pipeline reads.
pub enum ChannelEvent {
    /// Remote stdout bytes, streamed to the output sink as they arrive.
    Data(Vec<u8>),
    /// Remote extended-stream bytes; observed but not part of the sink.
    ExtendedData(Vec<u8>),
    /// The remote process's exit status.
    ExitStatus(u32),
    /// Any other channel message; ignored.
    Other,
}

/// The exit status a complete message stream reports: the last
/// exit-status message wins, `None` when the stream holds none.
pub open spec fn last_exit_status(evs: Seq<ChannelEvent>) -> Option<u32>
    decreases evs.len(),
{
    if evs.len() == 0 {
        None
    } else {
        match evs.last() {
            ChannelEvent::ExitStatus(c) => Some(c),
            _ => last_exit_status(evs.drop_last()),
        }
    }
}

/// The remote stdout a complete message stream carries: the data
/// payloads concatenated in arrival order.
pub open spec fn stdout_of(evs: Seq<ChannelEvent>) -> Seq<u8>
    decreases evs.len(),
{
    if evs.len() == 0 {
        Seq::empty()
    } else {
        stdout_of(evs.drop_last()) + (match evs.last() {
            ChannelEvent::Data(d) => d@,
            _ => Seq::<u8>::empty(),
        })
    }
}

/// Tracks one command execution while channel messages arrive.
pub struct ExecTracker {
    /// The last exit status reported so far, if any.
    pub code: Option<u32>,
}

impl ExecTracker {
    /// A fresh tracker: no exit status seen yet.
    pub fn new() -> (t: ExecTracker)
        ensures
            t.code is None,
    {
        ExecTracker { code: None }
    }

    /// Feeds one channel message: data bytes are appended to the sink
    /// (streamed, not buffered to completion), an exit status is
    /// recorded — the last one wins — and anything else is ignored.
    pub fn feed(&mut self, ev: &ChannelEvent, sink: &mut Vec<u8>)
        ensures
            final(self).code == (match ev {
                ChannelEvent::ExitStatus(c) => Some(*c),
                _ => old(self).code,
            }),
            final(sink)@ == old(sink)@ + (match ev {
                ChannelEvent::Data(d) => d@,
                _ => Seq::<u8>::empty(),
            }),
    {
        match ev {
            ChannelEvent::Data(d) => {
                let mut j: usize = 0;
                while j < d.len()
                    invariant
                        j <= d@.len(),
                        sink@ == old(sink)@ + d@.take(j as int),
                    decreases d.len() - j,
                {
                    sink.push(d[j]);
                    proof {
                        assert(d@.take(j + 1) =~= d@.take(j as int).push(d@[j as int]));
                        assert(old(sink)@ + d@.take(j + 1) =~= (old(sink)@ + d@.take(
                            j as int,
                        )).push(d@[j as int]));
                    }
                    j = j + 1;
                }
                proof {
                    assert(d@.take(d@.len() as int) =~= d@);
                }
            },
            ChannelEvent::ExitStatus(c) => {
                self.code = Some(*c);
                proof {
                    assert(sink@ =~= old(sink)@ + Seq::<u8>::empty());
                }
            },
            _ => {
                proof {
                    assert(sink@ =~= old(sink)@ + Seq::<u8>::empty());
                }
            },
        }
    }
}

/// Law: executing a command over a complete channel-message stream
/// appends exactly the stream's data payloads, in order, to the output
/// sink, and resolves with exactly the last reported exit status — or
/// with the execution error when the channel closed without reporting
/// one.
pub fn exec_outcome(events: &Vec<ChannelEvent>, sink: &mut Vec<u8>) -> (r: Result<
    u32,
    PipelineError,
>)
    ensures
        final(sink)@ == old(sink)@ + stdout_of(events@),
        match last_exit_status(events@) {
            Some(c) => r == Ok::<u32, PipelineError>(c),
            None => r == Err::<u32, PipelineError>(PipelineError::RemoteExecution),
        },
{
    let mut tracker = ExecTracker::new();
    let mut i: usize = 0;
    proof {
        assert(events@.take(0) =~= Seq::<ChannelEvent>::empty());
        assert(sink@ =~= sink@ + stdout_of(events@.take(0)));
    }
    while i < events.len()
        invariant
            i <= events@.len(),
            tracker.code == last_exit_status(events@.take(i as int)),
            sink@ == old(sink)@ + stdout_of(events@.take(i as int)),
        decreases events.len() - i,
    {
        let ghost evs = events@;
        tracker.feed(&events[i], sink);
        proof {
            assert(evs.take(i + 1).drop_last() =~= evs.take(i as int));
            assert(evs.take(i + 1).last() == evs[i as int]);
            assert(old(sink)@ + stdout_of(evs.take(i as int)) + (match evs[i as int] {
                ChannelEvent::Data(d) => d@,
                _ => Seq::<u8>::empty(),
            }) =~= old(sink)@ + stdout_of(evs.take(i + 1)));
        }
        i = i + 1;
    }
    proof {
        assert(events@.take(events@.len() as int) =~= events@);
    }
    match tracker.code {
        Some(c) => Ok(c),
        None => Err(PipelineError::RemoteExecution),
    }
}

} // verus!
