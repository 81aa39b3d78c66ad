//! Session manager: admission of one session at a time, the handshake that
//! carries the stream configuration, and the per-message decisions of the
//! receive loop.
use vstd::prelude::*;

verus! {

/// Whether a byte is an ASCII decimal digit.
pub open spec fn is_digit(b: u8) -> bool {
    48 <= b <= 57
}

pub open spec fn all_digits(s: Seq<u8>) -> bool {
    forall|i: int| 0 <= i < s.len() ==> is_digit(#[trigger] s[i])
}

/// The value of a string of decimal digits.
pub open spec fn decimal_value(s: Seq<u8>) -> nat
    decreases s.len(),
{
    if s.len() == 0 {
        0
    } else {
        decimal_value(s.drop_last()) * 10 + (s.last() - 48) as nat
    }
}

proof fn lemma_decimal_prefix_le(s: Seq<u8>, i: int, j: int)
    requires
        all_digits(s),
        0 <= i <= j <= s.len(),
    ensures
        decimal_value(s.take(i)) <= decimal_value(s.take(j)),
    decreases j - i,
{
    if i < j {
        lemma_decimal_prefix_le(s, i, j - 1);
        assert(s.take(j).drop_last() =~= s.take(j - 1));
        assert(is_digit(s[j - 1]));
    }
}

/// Parses a handshake value: one or more ASCII decimal digits, nothing else,
/// whose value fits in 32 bits.
pub fn parse_decimal(payload: &[u8]) -> (r: Option<u32>)
    ensures
        r is Some <==> (payload@.len() > 0 && all_digits(payload@) && decimal_value(payload@)
            <= u32::MAX),
        r matches Some(v) ==> v == decimal_value(payload@),
{
    let n = payload.len();
    if n == 0 {
        return None;
    }
    let mut k: usize = 0;
    while k < n
        invariant
            k <= n,
            n == payload@.len(),
            forall|i: int| 0 <= i < k ==> is_digit(#[trigger] payload@[i]),
        decreases n - k,
    {
        let b = payload[k];
        if b < 48 || b > 57 {
            return None;
        }
        k = k + 1;
    }
    let mut acc: u64 = 0;
    let mut i: usize = 0;
    while i < n
        invariant
            i <= n,
            n == payload@.len(),
            all_digits(payload@),
            acc == decimal_value(payload@.take(i as int)),
            acc <= u32::MAX,
        decreases n - i,
    {
        let d = (payload[i] - 48) as u64;
        proof {
            assert(payload@.take(i + 1).drop_last() =~= payload@.take(i as int));
            assert(is_digit(payload@[i as int]));
        }
        let next = acc * 10 + d;
        if next > u32::MAX as u64 {
            proof {
                lemma_decimal_prefix_le(payload@, i + 1, n as int);
                assert(payload@.take(n as int) =~= payload@);
            }
            return None;
        }
        acc = next;
        i = i + 1;
    }
    assert(payload@.take(n as int) =~= payload@);
    Some(acc as u32)
}

/// The configuration a session's handshake carries.
#[derive(Debug, Clone, Copy, PartialEq, Eq, Structural)]
pub struct SessionConfig {
    /// Samples per second, per channel.
    pub sample_rate: u32,
    /// Number of interleaved channels.
    pub channels: u32,
    /// Frames per playback block.
    pub buffer_size: u32,
}

/// Samples the bridge of a session holds: two blocks' worth per channel.
pub open spec fn capacity_for(c: SessionConfig) -> nat {
    (c.buffer_size as nat) * (c.channels as nat) * 2
}

impl SessionConfig {
    /// The bridge capacity of this configuration, `buffer_size * channels * 2`;
    /// `None` when it does not leave room below `usize::MAX`.
    pub fn bridge_capacity(&self) -> (r: Option<usize>)
        ensures
            r is Some <==> capacity_for(*self) < usize::MAX,
            r matches Some(n) ==> n == capacity_for(*self),
    {
        let b = self.buffer_size as u64;
        let c = self.channels as u64;
        assert(b * c <= 0xffff_ffffu64 * 0xffff_ffffu64) by (nonlinear_arith)
            requires
                b <= 0xffff_ffffu64,
                c <= 0xffff_ffffu64,
        ;
        let bc = b * c;
        if bc > (u64::MAX - 1) / 2 {
            return None;
        }
        let total = bc * 2;
        if total >= usize::MAX as u64 {
            return None;
        }
        Some(total as usize)
    }
}

/// One event of a session's connection.
#[derive(Debug)]
pub enum SessionEvent {
    /// A text or other non-binary data message.
    Text(Vec<u8>),
    /// A binary message.
    Binary(Vec<u8>),
    /// The peer's close message.
    Close,
    /// The connection failed.
    TransportError,
}

/// What the receive loop does in answer to an event.
#[derive(Debug)]
pub enum SessionAction {
    /// Nothing; read the next message.
    Continue,
    /// The handshake is complete: build the decode stage, the bridge and the
    /// playback sink for this configuration.
    Start(SessionConfig),
    /// Decode this frame and queue its samples.
    Decode(Vec<u8>),
    /// Acknowledge the close, then end the session.
    AckClose,
    /// End the session: the handshake or the connection failed.
    Fail,
}

/// Where a session is in its life.
#[derive(Debug, Clone, Copy, PartialEq, Eq, Structural)]
pub enum Phase {
    Handshake,
    Streaming,
    Ended,
}

/// The decisions of one session's receive loop.
pub struct Session {
    received: Vec<u32>,
    config: Option<SessionConfig>,
    phase: Phase,
}

/// The configuration that three handshake values give, in order.
pub open spec fn config_of(v: Seq<u32>) -> SessionConfig {
    SessionConfig { sample_rate: v[0], channels: v[1], buffer_size: v[2] }
}

/// The payload of a data event.
pub open spec fn payload_of(ev: SessionEvent) -> Seq<u8> {
    match ev {
        SessionEvent::Text(p) => p@,
        SessionEvent::Binary(p) => p@,
        _ => Seq::empty(),
    }
}

/// Whether a parsed handshake value is acceptable: all three are positive.
pub open spec fn valid_value(v: nat) -> bool {
    0 < v <= u32::MAX
}

impl Session {
    pub closed spec fn spec_phase(&self) -> Phase {
        self.phase
    }

    /// The handshake values received so far.
    pub closed spec fn spec_received(&self) -> Seq<u32> {
        self.received@
    }

    pub closed spec fn spec_config(&self) -> Option<SessionConfig> {
        self.config
    }

    pub closed spec fn wf(&self) -> bool {
        &&& self.received@.len() <= 3
        &&& (self.phase == Phase::Handshake ==> self.received@.len() < 3 && self.config is None)
        &&& (self.phase == Phase::Streaming ==> self.received@.len() == 3 && self.config == Some(
            config_of(self.received@),
        ))
    }

    /// A session that has just been admitted and awaits its handshake.
    pub fn new() -> (r: Session)
        ensures
            r.wf(),
            r.spec_phase() == Phase::Handshake,
            r.spec_received() == Seq::<u32>::empty(),
            r.spec_config() is None,
    {
        Session { received: Vec::new(), config: None, phase: Phase::Handshake }
    }

    pub fn phase(&self) -> (r: Phase)
        ensures
            r == self.spec_phase(),
    {
        self.phase
    }

    /// The configuration, once the handshake is complete.
    pub fn config(&self) -> (r: Option<SessionConfig>)
        ensures
            r == self.spec_config(),
    {
        self.config
    }

    /// Decides what to do with one event and moves the session on.
    ///
    /// In the handshake each of the first three messages, text or binary,
    /// carries one value; the third completes the configuration. Afterwards a
    /// binary message is one frame and a text message is ignored. A close is
    /// acknowledged and ends the session; a transport error or a bad
    /// handshake value ends it. An ended session ignores everything.
    pub fn on_event(&mut self, ev: SessionEvent) -> (r: SessionAction)
        requires
            old(self).wf(),
        ensures
            final(self).wf(),
            old(self).spec_phase() == Phase::Ended ==> r is Continue && final(self).spec_phase()
                == Phase::Ended,
            old(self).spec_phase() != Phase::Ended ==> (match ev {
                SessionEvent::Close => r is AckClose && final(self).spec_phase() == Phase::Ended,
                SessionEvent::TransportError => r is Fail && final(self).spec_phase()
                    == Phase::Ended,
                _ => true,
            }),
            old(self).spec_phase() == Phase::Streaming ==> (match ev {
                SessionEvent::Binary(p) => (r matches SessionAction::Decode(f) && f@ == p@)
                    && final(self).spec_phase() == Phase::Streaming,
                SessionEvent::Text(_) => r is Continue && final(self).spec_phase()
                    == Phase::Streaming,
                _ => true,
            }),
            old(self).spec_phase() == Phase::Streaming ==> final(self).spec_config() == old(
                self,
            ).spec_config(),
            old(self).spec_phase() == Phase::Handshake && (ev is Text || ev is Binary) ==> {
                let p = payload_of(ev);
                let ok = p.len() > 0 && all_digits(p) && valid_value(decimal_value(p));
                let got = old(self).spec_received().push(decimal_value(p) as u32);
                if !ok {
                    r is Fail && final(self).spec_phase() == Phase::Ended
                } else if got.len() == 3 {
                    r == SessionAction::Start(config_of(got)) && final(self).spec_phase()
                        == Phase::Streaming && final(self).spec_received() == got
                        && final(self).spec_config() == Some(config_of(got))
                } else {
                    r is Continue && final(self).spec_phase() == Phase::Handshake
                        && final(self).spec_received() == got
                }
            },
    {
        if self.phase == Phase::Ended {
            return SessionAction::Continue;
        }
        match ev {
            SessionEvent::Close => {
                self.phase = Phase::Ended;
                SessionAction::AckClose
            },
            SessionEvent::TransportError => {
                self.phase = Phase::Ended;
                SessionAction::Fail
            },
            SessionEvent::Text(p) => {
                if self.phase == Phase::Streaming {
                    SessionAction::Continue
                } else {
                    self.handshake_value(&p)
                }
            },
            SessionEvent::Binary(p) => {
                if self.phase == Phase::Streaming {
                    SessionAction::Decode(p)
                } else {
                    self.handshake_value(&p)
                }
            },
        }
    }

    fn handshake_value(&mut self, p: &Vec<u8>) -> (r: SessionAction)
        requires
            old(self).wf(),
            old(self).spec_phase() == Phase::Handshake,
        ensures
            final(self).wf(),
            ({
                let ok = p@.len() > 0 && all_digits(p@) && valid_value(decimal_value(p@));
                let got = old(self).spec_received().push(decimal_value(p@) as u32);
                if !ok {
                    r is Fail && final(self).spec_phase() == Phase::Ended
                        && final(self).spec_config() == old(self).spec_config()
                } else if got.len() == 3 {
                    r == SessionAction::Start(config_of(got)) && final(self).spec_phase()
                        == Phase::Streaming && final(self).spec_received() == got
                        && final(self).spec_config() == Some(config_of(got))
                } else {
                    r is Continue && final(self).spec_phase() == Phase::Handshake
                        && final(self).spec_received() == got
                        && final(self).spec_config() == old(self).spec_config()
                }
            }),
    {
        match parse_decimal(p.as_slice()) {
            None => {
                self.phase = Phase::Ended;
                SessionAction::Fail
            },
            Some(v) => {
                if v == 0 {
                    self.phase = Phase::Ended;
                    return SessionAction::Fail;
                }
                self.received.push(v);
                if self.received.len() == 3 {
                    let c = SessionConfig {
                        sample_rate: self.received[0],
                        channels: self.received[1],
                        buffer_size: self.received[2],
                    };
                    self.config = Some(c);
                    self.phase = Phase::Streaming;
                    SessionAction::Start(c)
                } else {
                    SessionAction::Continue
                }
            },
        }
    }
}

/// Whether a try-acquire on a guard in state `held` is granted, and the
/// guard's state afterwards.
pub open spec fn acquire_outcome(held: bool) -> (bool, bool) {
    (!held, true)
}

/// Admission guard over the output device: at most one session holds it.
pub struct AdmissionGuard {
    held: bool,
}

impl AdmissionGuard {
    pub closed spec fn spec_held(&self) -> bool {
        self.held
    }

    /// A free guard.
    pub fn new() -> (r: AdmissionGuard)
        ensures
            !r.spec_held(),
    {
        AdmissionGuard { held: false }
    }

    pub fn is_held(&self) -> (r: bool)
        ensures
            r == self.spec_held(),
    {
        self.held
    }

    /// Non-blocking acquire: granted only when no session holds the guard.
    /// A refused connection is to be closed before any of it is read.
    pub fn try_acquire(&mut self) -> (r: bool)
        ensures
            (r, final(self).spec_held()) == acquire_outcome(old(self).spec_held()),
    {
        if self.held {
            false
        } else {
            self.held = true;
            true
        }
    }

    /// Releases the guard at the end of a session's teardown.
    pub fn release(&mut self)
        ensures
            !final(self).spec_held(),
    {
        self.held = false;
    }
}


/// While a session holds the guard, a second connection's try-acquire is
/// refused and leaves the guard held, so the first session keeps the device.
pub proof fn lemma_second_connection_rejected(g: AdmissionGuard)
    requires
        g.spec_held(),
    ensures
        acquire_outcome(g.spec_held()) == (false, true),
{
}

/// A free guard admits exactly one of two connections that try in turn.
pub proof fn lemma_one_admitted(held: bool)
    requires
        !held,
    ensures
        acquire_outcome(held).0,
        !acquire_outcome(acquire_outcome(held).1).0,
{
}

} // verus!
