use vstd::prelude::*;

use crate::level::{passes, Level};
use crate::mailbox::{try_send, Delivery, MailboxError};
use crate::redis_log_message::{base64_of, wire_bytes, EncodeError, LogMessage, LogMessageView};
use crate::{format_log, log_line, BackgroundLoggerMessage};

verus! {

/// Entries buffered before a publish is forced.
pub const BATCH_SIZE: usize = 500;

/// Seconds after the last publish past which a new entry forces a publish.
pub const FLUSH_INTERVAL_SECS: u64 = 10;

/// Seconds to wait before each reconnect attempt.
pub const RECONNECT_BACKOFF_SECS: u64 = 2;

/// Consecutive receive failures after which the worker publishes what it
/// holds and stops.
pub const MAX_RECV_FAILURES: u32 = 3;

/// The pub/sub sink's front door.
pub struct RedisLogger {
    pub max_log_level: Level,
    pub log_tx: crossbeam::channel::Sender<(BackgroundLoggerMessage, Level)>,
}

pub struct RedisLoggerConfig {
    pub redis_connection_string: String,
    pub max_log_level: Level,
    pub group_name: String,
    pub index: String,
}

impl RedisLoggerConfig {
    pub fn new(redis_connection_string: String, group_name: String, alloc_index: String) -> (r:
        RedisLoggerConfig)
        ensures
            r.redis_connection_string == redis_connection_string,
            r.group_name == group_name,
            r.index == alloc_index,
            r.max_log_level == Level::Info,
    {
        Self { redis_connection_string, group_name, index: alloc_index, max_log_level: Level::Info }
    }
}

impl RedisLogger {
    pub fn new(max_log_level: Level, log_tx: crossbeam::channel::Sender<(BackgroundLoggerMessage, Level)>) -> (r: Self)
        ensures
            r.max_log_level == max_log_level,
            r.log_tx == log_tx,
    {
        RedisLogger { max_log_level, log_tx }
    }

    pub fn enabled(&self, level: Level) -> (r: bool)
        ensures
            r == passes(level, self.max_log_level),
    {
        level.passes(self.max_log_level)
    }

    /// Offers the rendered line of a message, tagged with its level, to the
    /// mailbox, unless its level is below the minimum.
    pub fn log(&self, level: Level, args: &str) -> (r: Delivery<(BackgroundLoggerMessage, Level)>)
        ensures
            r is Filtered <==> !passes(level, self.max_log_level),
            r matches Delivery::Dropped(e) ==> e.message().1 == level && (e.message().0 matches BackgroundLoggerMessage::String(t)
                && t@ == log_line(args@)),
    {
        if !self.enabled(level) {
            return Delivery::Filtered;
        }
        let line = format_log(args);
        match try_send(&self.log_tx, (BackgroundLoggerMessage::String(line), level)) {
            Ok(()) => Delivery::Queued,
            Err(e) => Delivery::Dropped(e),
        }
    }

    /// Asks the worker to publish what it holds.
    pub fn flush(&self) -> (r: Result<(), MailboxError<(BackgroundLoggerMessage, Level)>>)
        ensures
            r matches Err(e) ==> e.message().0 is Flush,
    {
        try_send(&self.log_tx, (BackgroundLoggerMessage::Flush, self.max_log_level))
    }
}

/// The channel of a group for one stream: `monitoring-nomad:<group>.<suffix>`.
pub open spec fn channel_of(group: Seq<char>, suffix: Seq<char>) -> Seq<char> {
    "monitoring-nomad:"@ + group + seq!['.'] + suffix
}

/// Where the worker's records go and what they carry besides the message.
pub struct Routing {
    pub group: Seq<char>,
    pub index: Seq<char>,
    pub stdout: Seq<char>,
    pub warn: Seq<char>,
    pub stderr: Seq<char>,
}

/// Errors go to the stderr channel, warnings to the warn channel, the rest to stdout.
pub open spec fn channel_for(r: Routing, level: Level) -> Seq<char> {
    match level {
        Level::Error => r.stderr,
        Level::Warn => r.warn,
        _ => r.stdout,
    }
}

/// The record published for one buffered entry.
pub open spec fn record_for(r: Routing, entry: (Seq<char>, Level)) -> LogMessageView {
    LogMessageView {
        message: entry.0,
        group: r.group,
        index: r.index,
        channel_name: channel_for(r, entry.1),
        metadata: None,
    }
}

/// Channel and payload of each buffered entry, in order; an entry whose
/// record cannot be encoded is left out.
pub open spec fn payloads_of(r: Routing, entries: Seq<(Seq<char>, Level)>) -> Seq<(Seq<char>, Seq<char>)>
    decreases entries.len(),
{
    if entries.len() == 0 {
        Seq::empty()
    } else {
        let prev = payloads_of(r, entries.drop_last());
        let m = record_for(r, entries.last());
        if wire_bytes(m).len() <= usize::MAX / 2 {
            prev.push((m.channel_name, base64_of(wire_bytes(m))))
        } else {
            prev
        }
    }
}

/// When every record of the batch can be encoded, the batch yields one
/// payload per entry, in the order of the entries.
pub proof fn lemma_payloads_in_order(r: Routing, entries: Seq<(Seq<char>, Level)>)
    requires
        forall|i: int|
            0 <= i < entries.len() ==> #[trigger] wire_bytes(record_for(r, entries[i])).len()
                <= usize::MAX / 2,
    ensures
        payloads_of(r, entries).len() == entries.len(),
        forall|i: int|
            0 <= i < entries.len() ==> #[trigger] payloads_of(r, entries)[i] == (
                channel_for(r, entries[i].1),
                base64_of(wire_bytes(record_for(r, entries[i]))),
            ),
    decreases entries.len(),
{
    if entries.len() > 0 {
        let init = entries.drop_last();
        assert forall|i: int| 0 <= i < init.len() implies #[trigger] wire_bytes(
            record_for(r, init[i]),
        ).len() <= usize::MAX / 2 by {
            assert(init[i] == entries[i]);
        }
        lemma_payloads_in_order(r, init);
        assert(wire_bytes(record_for(r, entries[entries.len() - 1])).len() <= usize::MAX / 2);
        assert forall|i: int| 0 <= i < entries.len() implies #[trigger] payloads_of(r, entries)[i]
            == (
            channel_for(r, entries[i].1),
            base64_of(wire_bytes(record_for(r, entries[i]))),
        ) by {
            if i < init.len() {
                assert(init[i] == entries[i]);
            }
        }
    }
}

pub open spec fn pairs_view(v: Seq<(String, String)>) -> Seq<(Seq<char>, Seq<char>)> {
    v.map_values(|p: (String, String)| (p.0@, p.1@))
}

pub open spec fn entries_view(v: Seq<(String, Level)>) -> Seq<(Seq<char>, Level)> {
    v.map_values(|p: (String, Level)| (p.0@, p.1))
}

/// Where a publish attempt stands.
#[derive(Debug, Clone, Copy, PartialEq, Eq, Structural)]
pub enum PublishPhase {
    /// No publish under way.
    Idle,
    /// The batch was sent; its outcome is awaited.
    Publishing,
    /// The connection is being rebuilt; the outcome is awaited.
    Reconnecting,
}

/// What the worker does next in a publish attempt.
#[derive(Debug, Clone, Copy, PartialEq, Eq, Structural)]
pub enum PublishStep {
    /// Send the whole pending batch in one pipeline.
    Publish,
    /// Wait `RECONNECT_BACKOFF_SECS`, then reconnect.
    Backoff,
    /// The batch was delivered and cleared.
    Done,
}

/// The next phase and step after the awaited operation succeeded (`ok`) or failed.
pub open spec fn after_outcome(phase: PublishPhase, ok: bool) -> (PublishPhase, PublishStep) {
    match phase {
        PublishPhase::Publishing => if ok {
            (PublishPhase::Idle, PublishStep::Done)
        } else {
            (PublishPhase::Reconnecting, PublishStep::Backoff)
        },
        PublishPhase::Reconnecting => if ok {
            (PublishPhase::Publishing, PublishStep::Publish)
        } else {
            (PublishPhase::Reconnecting, PublishStep::Backoff)
        },
        PublishPhase::Idle => (PublishPhase::Idle, PublishStep::Done),
    }
}

/// Whether an outcome is the broker accepting the batch.
pub open spec fn delivers(phase: PublishPhase, ok: bool) -> bool {
    phase == PublishPhase::Publishing && ok
}

/// The batches the broker accepts over a run of outcomes, starting from
/// `phase` with `batch` pending.
pub open spec fn deliveries<T>(phase: PublishPhase, batch: Seq<T>, outcomes: Seq<bool>) -> Seq<Seq<T>>
    decreases outcomes.len(),
{
    if outcomes.len() == 0 {
        Seq::empty()
    } else {
        let next = after_outcome(phase, outcomes[0]).0;
        if delivers(phase, outcomes[0]) {
            seq![batch] + deliveries(next, Seq::<T>::empty(), outcomes.drop_first())
        } else {
            deliveries(next, batch, outcomes.drop_first())
        }
    }
}

/// The phase after a run of outcomes.
pub open spec fn phase_after(phase: PublishPhase, outcomes: Seq<bool>) -> PublishPhase
    decreases outcomes.len(),
{
    if outcomes.len() == 0 {
        phase
    } else {
        phase_after(after_outcome(phase, outcomes[0]).0, outcomes.drop_first())
    }
}

proof fn lemma_idle_delivers_nothing<T>(batch: Seq<T>, outcomes: Seq<bool>)
    ensures
        deliveries(PublishPhase::Idle, batch, outcomes).len() == 0,
        phase_after(PublishPhase::Idle, outcomes) == PublishPhase::Idle,
    decreases outcomes.len(),
{
    if outcomes.len() > 0 {
        lemma_idle_delivers_nothing(batch, outcomes.drop_first());
    }
}

/// However many publishes and reconnects fail, the broker accepts the batch
/// at most once and whole, and exactly once when the attempt ends.
pub proof fn lemma_retry_delivers_once<T>(phase: PublishPhase, batch: Seq<T>, outcomes: Seq<bool>)
    requires
        phase != PublishPhase::Idle,
    ensures
        deliveries(phase, batch, outcomes).len() <= 1,
        forall|i: int|
            0 <= i < deliveries(phase, batch, outcomes).len() ==> #[trigger] deliveries(
                phase,
                batch,
                outcomes,
            )[i] == batch,
        deliveries(phase, batch, outcomes).len() == 1 <==> phase_after(phase, outcomes)
            == PublishPhase::Idle,
    decreases outcomes.len(),
{
    if outcomes.len() > 0 {
        let next = after_outcome(phase, outcomes[0]).0;
        if delivers(phase, outcomes[0]) {
            lemma_idle_delivers_nothing(Seq::<T>::empty(), outcomes.drop_first());
            assert(deliveries(phase, batch, outcomes) =~= seq![batch]);
        } else {
            lemma_retry_delivers_once(next, batch, outcomes.drop_first());
        }
    }
}

/// The pub/sub worker's decisions: the pending batch, the flush triggers,
/// the receive-failure count and the publish/reconnect phase. The connection
/// and the mailbox stay with the code that runs the loop.
pub struct RedisLoggerBackgroundService {
    buffer: Vec<(String, Level)>,
    buffer_size: usize,
    stdout_channel_name: String,
    warn_channel_name: String,
    stderr_channel_name: String,
    group_name: String,
    index: String,
    redis_connection_string: String,
    consecutive_failures: u32,
    phase: PublishPhase,
}

fn channel_name(group: &str, suffix: &str) -> (r: String)
    ensures
        r@ == "monitoring-nomad:"@ + group@ + seq!['.'] + suffix@,
{
    let mut s = String::from_str("monitoring-nomad:");
    s.append(group);
    s.append(".");
    s.append(suffix);
    proof {
        reveal_strlit(".");
    }
    assert(s@ =~= "monitoring-nomad:"@ + group@ + seq!['.'] + suffix@);
    s
}

impl RedisLoggerBackgroundService {
    pub closed spec fn buffer(&self) -> Seq<(Seq<char>, Level)> {
        entries_view(self.buffer@)
    }

    pub closed spec fn routing(&self) -> Routing {
        Routing {
            group: self.group_name@,
            index: self.index@,
            stdout: self.stdout_channel_name@,
            warn: self.warn_channel_name@,
            stderr: self.stderr_channel_name@,
        }
    }

    pub closed spec fn phase(&self) -> PublishPhase {
        self.phase
    }

    pub closed spec fn failures(&self) -> nat {
        self.consecutive_failures as nat
    }

    pub closed spec fn connection_string(&self) -> Seq<char> {
        self.redis_connection_string@
    }

    pub fn new(config: &RedisLoggerConfig) -> (r: Self)
        ensures
            r.buffer().len() == 0,
            r.phase() == PublishPhase::Idle,
            r.failures() == 0,
            r.connection_string() == config.redis_connection_string@,
            r.routing() == (Routing {
                group: config.group_name@,
                index: config.index@,
                stdout: channel_of(config.group_name@, "stdout"@),
                warn: channel_of(config.group_name@, "warn"@),
                stderr: channel_of(config.group_name@, "stderr"@),
            }),
    {
        let group = config.group_name.as_str();
        let r = RedisLoggerBackgroundService {
            buffer: Vec::new(),
            buffer_size: BATCH_SIZE,
            stdout_channel_name: channel_name(group, "stdout"),
            warn_channel_name: channel_name(group, "warn"),
            stderr_channel_name: channel_name(group, "stderr"),
            group_name: config.group_name.clone(),
            index: config.index.clone(),
            redis_connection_string: config.redis_connection_string.clone(),
            consecutive_failures: 0,
            phase: PublishPhase::Idle,
        };
        assert(r.buffer() =~= Seq::empty());
        r
    }

    pub fn redis_connection_string(&self) -> (r: &String)
        ensures
            r@ == self.connection_string(),
    {
        &self.redis_connection_string
    }

    pub fn pending(&self) -> (r: usize)
        ensures
            r == self.buffer().len(),
    {
        self.buffer.len()
    }

    /// Takes one received message; returns whether the batch is to be
    /// published now: on a flush request, when the batch reaches
    /// `BATCH_SIZE`, or when more than `FLUSH_INTERVAL_SECS` seconds have
    /// passed since the last publish.
    pub fn on_message(&mut self, msg: BackgroundLoggerMessage, level: Level, secs_since_flush: u64) -> (r: bool)
        ensures
            final(self).failures() == 0,
            final(self).routing() == old(self).routing(),
            final(self).phase() == old(self).phase(),
            final(self).connection_string() == old(self).connection_string(),
            match msg {
                BackgroundLoggerMessage::String(t) => final(self).buffer() == old(self).buffer().push(
                    (t@, level),
                ) && r == (final(self).buffer().len() >= BATCH_SIZE || secs_since_flush
                    > FLUSH_INTERVAL_SECS),
                BackgroundLoggerMessage::Flush => final(self).buffer() == old(self).buffer() && r,
            },
    {
        self.consecutive_failures = 0;
        match msg {
            BackgroundLoggerMessage::String(t) => {
                self.buffer.push((t, level));
                assert(self.buffer() =~= old(self).buffer().push((t@, level)));
                self.buffer.len() >= BATCH_SIZE || secs_since_flush > FLUSH_INTERVAL_SECS
            },
            BackgroundLoggerMessage::Flush => true,
        }
    }

    /// Counts a failed receive; returns whether the worker is to publish
    /// what it holds and stop, which it does at `MAX_RECV_FAILURES` in a row.
    pub fn on_recv_error(&mut self) -> (r: bool)
        ensures
            final(self).failures() == (if old(self).failures() < MAX_RECV_FAILURES {
                old(self).failures() + 1
            } else {
                old(self).failures()
            }),
            r == (final(self).failures() >= MAX_RECV_FAILURES),
            final(self).buffer() == old(self).buffer(),
            final(self).routing() == old(self).routing(),
            final(self).phase() == old(self).phase(),
            final(self).connection_string() == old(self).connection_string(),
    {
        if self.consecutive_failures < MAX_RECV_FAILURES {
            self.consecutive_failures = self.consecutive_failures + 1;
        }
        self.consecutive_failures >= MAX_RECV_FAILURES
    }

    /// The record published for the `i`-th buffered entry.
    fn record(&self, i: usize) -> (r: LogMessage)
        requires
            i < self.buffer().len(),
        ensures
            r@ == record_for(self.routing(), self.buffer()[i as int]),
    {
        let (msg, level) = &self.buffer[i];
        let channel = match level {
            Level::Error => self.stderr_channel_name.clone(),
            Level::Warn => self.warn_channel_name.clone(),
            _ => self.stdout_channel_name.clone(),
        };
        LogMessage {
            message: msg.clone(),
            group: self.group_name.clone(),
            index: self.index.clone(),
            channel_name: channel,
            metadata: None,
        }
    }

    /// Channel and encoded record of each buffered entry, in order.
    pub fn payloads(&self) -> (r: Vec<(String, String)>)
        ensures
            pairs_view(r@) == payloads_of(self.routing(), self.buffer()),
    {
        let mut out: Vec<(String, String)> = Vec::new();
        let mut i: usize = 0;
        while i < self.buffer.len()
            invariant
                i <= self.buffer().len(),
                self.buffer().len() == self.buffer@.len(),
                pairs_view(out@) == payloads_of(self.routing(), self.buffer().take(i as int)),
            decreases self.buffer@.len() - i,
        {
            let m = self.record(i);
            let ghost prev = out@;
            assert(self.buffer().take(i + 1).drop_last() =~= self.buffer().take(i as int));
            match m.redis_serialize() {
                Ok(payload) => {
                    out.push((m.channel_name, payload));
                    assert(pairs_view(out@) =~= pairs_view(prev).push((m@.channel_name, payload@)));
                },
                Err(_) => {},
            }
            i = i + 1;
        }
        assert(self.buffer().take(i as int) =~= self.buffer());
        out
    }

    /// Starts publishing the pending batch.
    pub fn start_publish(&mut self) -> (r: PublishStep)
        ensures
            r == PublishStep::Publish,
            final(self).phase() == PublishPhase::Publishing,
            final(self).buffer() == old(self).buffer(),
            final(self).routing() == old(self).routing(),
            final(self).failures() == old(self).failures(),
            final(self).connection_string() == old(self).connection_string(),
    {
        self.phase = PublishPhase::Publishing;
        PublishStep::Publish
    }

    /// Takes the outcome of the awaited publish or reconnect. The batch is
    /// cleared only when the broker accepted it.
    pub fn on_outcome(&mut self, ok: bool) -> (r: PublishStep)
        ensures
            (final(self).phase(), r) == after_outcome(old(self).phase(), ok),
            final(self).buffer() == (if delivers(old(self).phase(), ok) {
                Seq::empty()
            } else {
                old(self).buffer()
            }),
            final(self).routing() == old(self).routing(),
            final(self).failures() == old(self).failures(),
            final(self).connection_string() == old(self).connection_string(),
    {
        match self.phase {
            PublishPhase::Publishing => if ok {
                self.buffer = Vec::new();
                assert(self.buffer() =~= Seq::empty());
                self.phase = PublishPhase::Idle;
                PublishStep::Done
            } else {
                self.phase = PublishPhase::Reconnecting;
                PublishStep::Backoff
            },
            PublishPhase::Reconnecting => if ok {
                self.phase = PublishPhase::Publishing;
                PublishStep::Publish
            } else {
                PublishStep::Backoff
            },
            PublishPhase::Idle => PublishStep::Done,
        }
    }
}

} // verus!
