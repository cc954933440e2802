//! Token streaming: the producer of one session as a state machine, and a
//! pull-based stream that drives it in the caller's own thread.
//!
//! A session is `Started`, then tokens, then one `Complete`. A caller that
//! runs the producer in the background hands every event to its channel and
//! tells the producer whether the event was delivered.

use vstd::prelude::*;
use vstd::string::*;
use crate::clock::{elapsed_millis, instant_now, timestamp_now};
use crate::errors::{prefixed, AiCoreError};
use crate::text::{is_blank, str_is_blank};

verus! {

/// The number of words in the canned response.
pub const RESPONSE_WORDS: usize = 24;

/// The confidence of the first token, in hundredths.
pub const FIRST_CONFIDENCE: u32 = 95;

/// One generated unit of text.
#[derive(Debug)]
pub struct Token {
    pub text: String,
    /// How sure the generator is of the token, in hundredths.
    pub confidence: Option<u32>,
    /// When the token was generated, as RFC 3339 text.
    pub timestamp: String,
}

/// One element of a session's ordered event sequence.
#[derive(Debug)]
pub enum StreamEvent {
    /// A token was generated.
    Token(Token),
    /// The session ended normally after `total_tokens` delivered tokens.
    Complete { total_tokens: usize, inference_time_ms: u64 },
    /// The session ended with a failure.
    Error(String),
    /// The session began.
    Started,
}

/// How a streaming session behaves.
#[derive(Clone, Copy, Debug, PartialEq, Eq, Structural)]
pub struct StreamConfig {
    pub buffer_size: usize,
    /// The pause after each token, in milliseconds.
    pub flush_interval_ms: u64,
    /// The most tokens a session produces; without it, the whole response.
    pub max_tokens: Option<usize>,
    /// The sampling temperature, in thousandths.
    pub temperature: u32,
}

impl Default for StreamConfig {
    fn default() -> (config: Self)
        ensures
            config == (StreamConfig {
                buffer_size: 1024,
                flush_interval_ms: 50,
                max_tokens: Some(512usize),
                temperature: 700,
            }),
    {
        StreamConfig {
            buffer_size: 1024,
            flush_interval_ms: 50,
            max_tokens: Some(512),
            temperature: 700,
        }
    }
}

/// The `i`-th word of the canned response.
pub open spec fn response_word(i: nat) -> Seq<char> {
    if i == 0 {
        "Based"@
    } else if i == 1 {
        "on"@
    } else if i == 2 {
        "your"@
    } else if i == 3 {
        "question"@
    } else if i == 4 {
        "about"@
    } else if i == 5 {
        "GIS"@
    } else if i == 6 {
        "and"@
    } else if i == 7 {
        "spatial"@
    } else if i == 8 {
        "analysis,"@
    } else if i == 9 {
        "I"@
    } else if i == 10 {
        "can"@
    } else if i == 11 {
        "help"@
    } else if i == 12 {
        "you"@
    } else if i == 13 {
        "understand"@
    } else if i == 14 {
        "the"@
    } else if i == 15 {
        "key"@
    } else if i == 16 {
        "concepts"@
    } else if i == 17 {
        "and"@
    } else if i == 18 {
        "provide"@
    } else if i == 19 {
        "detailed"@
    } else if i == 20 {
        "explanations"@
    } else if i == 21 {
        "with"@
    } else if i == 22 {
        "practical"@
    } else {
        "examples."@
    }
}

/// The text of the `i`-th token: its word, after a space unless it is the first.
pub open spec fn token_text(i: nat) -> Seq<char> {
    if i == 0 {
        response_word(i)
    } else {
        " "@ + response_word(i)
    }
}

/// The number of tokens a session produces under a configuration.
pub open spec fn token_limit(max_tokens: Option<usize>) -> nat {
    match max_tokens {
        Some(m) => if m < RESPONSE_WORDS {
            m as nat
        } else {
            RESPONSE_WORDS as nat
        },
        None => RESPONSE_WORDS as nat,
    }
}

fn word_at(i: usize) -> (word: &'static str)
    ensures
        word@ == response_word(i as nat),
{
    match i {
        0 => "Based",
        1 => "on",
        2 => "your",
        3 => "question",
        4 => "about",
        5 => "GIS",
        6 => "and",
        7 => "spatial",
        8 => "analysis,",
        9 => "I",
        10 => "can",
        11 => "help",
        12 => "you",
        13 => "understand",
        14 => "the",
        15 => "key",
        16 => "concepts",
        17 => "and",
        18 => "provide",
        19 => "detailed",
        20 => "explanations",
        21 => "with",
        22 => "practical",
        _ => "examples.",
    }
}

/// Where a producer stands in its session.
#[derive(Clone, Copy, Debug, PartialEq, Eq, Structural)]
pub enum Phase {
    /// Nothing was emitted yet.
    Fresh,
    /// `Started` was emitted; `pending` says that the last event was a token
    /// whose delivery is not known yet.
    Emitting { pending: bool },
    /// The terminal event was emitted.
    Finished,
}

/// What a producer emits, without times.
pub enum EventKind {
    Started,
    /// The token with this index.
    Token(nat),
    /// Completion after this many delivered tokens.
    Complete(nat),
}

/// The state of a producer, as far as its decisions go.
pub struct ProducerState {
    pub phase: Phase,
    /// The tokens delivered so far.
    pub sent: nat,
    /// The tokens the session is to produce.
    pub limit: nat,
}

/// The tokens delivered once the producer learns how its last event fared.
pub open spec fn settled(s: ProducerState, delivered: bool) -> nat {
    if s.phase == (Phase::Emitting { pending: true }) && delivered {
        s.sent + 1
    } else {
        s.sent
    }
}

/// The consumer is gone: the last token was not delivered.
pub open spec fn abandoned(s: ProducerState, delivered: bool) -> bool {
    s.phase == (Phase::Emitting { pending: true }) && !delivered
}

/// The event that a producer in state `s` emits next.
pub open spec fn next_kind(s: ProducerState, delivered: bool) -> Option<EventKind> {
    match s.phase {
        Phase::Fresh => Some(EventKind::Started),
        Phase::Emitting { pending } => if !abandoned(s, delivered) && settled(s, delivered)
            < s.limit {
            Some(EventKind::Token(settled(s, delivered)))
        } else {
            Some(EventKind::Complete(settled(s, delivered)))
        },
        Phase::Finished => None,
    }
}

/// The state of a producer after it emitted its next event.
pub open spec fn next_state(s: ProducerState, delivered: bool) -> ProducerState {
    match s.phase {
        Phase::Fresh => ProducerState { phase: Phase::Emitting { pending: false }, ..s },
        Phase::Emitting { pending } => if !abandoned(s, delivered) && settled(s, delivered)
            < s.limit {
            ProducerState {
                phase: Phase::Emitting { pending: true },
                sent: settled(s, delivered),
                limit: s.limit,
            }
        } else {
            ProducerState { phase: Phase::Finished, sent: settled(s, delivered), limit: s.limit }
        },
        Phase::Finished => s,
    }
}

/// The events that a producer emits in its next `steps` steps while every
/// event is delivered.
pub open spec fn live_trace(s: ProducerState, steps: nat) -> Seq<EventKind>
    decreases steps,
{
    if steps == 0 {
        Seq::empty()
    } else {
        match next_kind(s, true) {
            Some(kind) => seq![kind] + live_trace(next_state(s, true), (steps - 1) as nat),
            None => Seq::empty(),
        }
    }
}

/// The tokens `from`, `from + 1`, ... below `limit`, then completion after `limit`.
pub open spec fn tokens_then_complete(from: nat, limit: nat) -> Seq<EventKind>
    decreases limit - from,
{
    if from >= limit {
        seq![EventKind::Complete(limit)]
    } else {
        seq![EventKind::Token(from)] + tokens_then_complete(from + 1, limit)
    }
}

/// The whole session of a producer whose consumer stays: `Started`, the
/// tokens `0` to `limit - 1` in order, and one `Complete` that counts them.
pub open spec fn full_session(limit: nat) -> Seq<EventKind> {
    seq![EventKind::Started] + tokens_then_complete(0, limit)
}

proof fn lemma_live_tokens(s: ProducerState, steps: nat)
    requires
        s.phase is Emitting,
        settled(s, true) <= s.limit,
        steps >= s.limit - settled(s, true) + 1,
    ensures
        live_trace(s, steps) == tokens_then_complete(settled(s, true), s.limit),
    decreases s.limit - settled(s, true),
{
    let now = settled(s, true);
    let next = next_state(s, true);
    if now < s.limit {
        lemma_live_tokens(next, (steps - 1) as nat);
    } else {
        assert(live_trace(next, (steps - 1) as nat) =~= Seq::<EventKind>::empty());
        assert(seq![EventKind::Complete(now)] + Seq::<EventKind>::empty() =~= seq![
            EventKind::Complete(now),
        ]);
    }
}

/// A session whose consumer stays emits `Started`, exactly `limit` tokens
/// in order and one `Complete` whose count is `limit`, and nothing after.
pub proof fn lemma_session_shape(limit: nat, steps: nat)
    requires
        steps >= limit + 2,
    ensures
        live_trace(ProducerState { phase: Phase::Fresh, sent: 0, limit }, steps) == full_session(
            limit,
        ),
        full_session(limit).len() == limit + 2,
        full_session(limit)[0] == EventKind::Started,
        forall|i: int| 0 <= i < limit ==> #[trigger] full_session(limit)[i + 1] == EventKind::Token(i as nat),
        full_session(limit)[limit as int + 1] == EventKind::Complete(limit),
{
    let start = ProducerState { phase: Phase::Fresh, sent: 0, limit };
    lemma_live_tokens(next_state(start, true), (steps - 1) as nat);
    lemma_tokens_shape(0, limit);
    assert forall|i: int| 0 <= i < limit implies #[trigger] full_session(limit)[i + 1]
        == EventKind::Token(i as nat) by {
        assert(tokens_then_complete(0, limit)[i] == EventKind::Token(i as nat));
    }
}

proof fn lemma_tokens_shape(from: nat, limit: nat)
    requires
        from <= limit,
    ensures
        tokens_then_complete(from, limit).len() == limit - from + 1,
        forall|i: int|
            0 <= i < limit - from ==> #[trigger] tokens_then_complete(from, limit)[i]
                == EventKind::Token((from + i) as nat),
        tokens_then_complete(from, limit)[limit - from] == EventKind::Complete(limit),
    decreases limit - from,
{
    if from < limit {
        lemma_tokens_shape(from + 1, limit);
        let rest = tokens_then_complete(from + 1, limit);
        let all = tokens_then_complete(from, limit);
        assert forall|i: int| 0 <= i < limit - from implies #[trigger] all[i] == EventKind::Token(
            (from + i) as nat,
        ) by {
            if i > 0 {
                assert(all[i] == rest[i - 1]);
            }
        }
        assert(all[limit - from] == rest[limit - from - 1]);
    }
}

/// The producer of one streaming session.
pub struct TokenProducer {
    pub phase: Phase,
    /// The tokens delivered so far.
    pub sent: usize,
    /// The tokens the session is to produce.
    pub limit: usize,
    /// When the session began.
    pub started: std::time::Instant,
    /// The pause that the producer makes after each token, in milliseconds.
    pub pause_ms: u64,
}

impl View for TokenProducer {
    type V = ProducerState;

    open spec fn view(&self) -> ProducerState {
        ProducerState { phase: self.phase, sent: self.sent as nat, limit: self.limit as nat }
    }
}

/// The event is of the kind the state machine names, with the text and
/// the confidence that belong to its index.
pub open spec fn event_is(event: StreamEvent, kind: EventKind) -> bool {
    match kind {
        EventKind::Started => event is Started,
        EventKind::Token(i) => event matches StreamEvent::Token(t) && t.text@ == token_text(i)
            && t.confidence == Some((FIRST_CONFIDENCE - i) as u32),
        EventKind::Complete(n) => event matches StreamEvent::Complete { total_tokens, .. }
            && total_tokens == n,
    }
}

impl TokenProducer {
    /// The counts are within their limits.
    pub open spec fn wf(&self) -> bool {
        self.sent <= self.limit <= RESPONSE_WORDS && (self.phase == (Phase::Emitting {
            pending: true,
        }) ==> self.sent < self.limit)
    }

    /// The events this producer may still emit.
    pub open spec fn remaining(&self) -> nat {
        match self.phase {
            Phase::Fresh => (self.limit + 2) as nat,
            Phase::Emitting { pending } => if pending {
                (self.limit - self.sent) as nat
            } else {
                (self.limit - self.sent + 1) as nat
            },
            Phase::Finished => 0,
        }
    }

    /// A producer at the start of a session under `config`.
    pub fn new(config: &StreamConfig) -> (producer: Self)
        ensures
            producer.wf(),
            producer@ == (ProducerState {
                phase: Phase::Fresh,
                sent: 0,
                limit: token_limit(config.max_tokens),
            }),
            producer.pause_ms == config.flush_interval_ms,
    {
        let limit = match config.max_tokens {
            Some(m) => if m < RESPONSE_WORDS {
                m
            } else {
                RESPONSE_WORDS
            },
            None => RESPONSE_WORDS,
        };
        TokenProducer {
            phase: Phase::Fresh,
            sent: 0,
            limit,
            started: instant_now(),
            pause_ms: config.flush_interval_ms,
        }
    }

    /// The next event of the session, or `None` once it has ended.
    /// `delivered` tells whether the consumer took the event that the
    /// previous call returned; a token that was not delivered ends the
    /// session with a `Complete` that does not count it.
    pub fn next_event(&mut self, delivered: bool) -> (r: Option<StreamEvent>)
        requires
            old(self).wf(),
        ensures
            final(self).wf(),
            final(self)@ == next_state(old(self)@, delivered),
            final(self).pause_ms == old(self).pause_ms,
            match r {
                Some(event) => next_kind(old(self)@, delivered) matches Some(kind) && event_is(
                    event,
                    kind,
                ) && final(self).remaining() < old(self).remaining(),
                None => next_kind(old(self)@, delivered) is None,
            },
    {
        match self.phase {
            Phase::Fresh => {
                self.phase = Phase::Emitting { pending: false };
                Some(StreamEvent::Started)
            },
            Phase::Emitting { pending } => {
                if pending && !delivered {
                    self.phase = Phase::Finished;
                    return Some(
                        StreamEvent::Complete {
                            total_tokens: self.sent,
                            inference_time_ms: elapsed_millis(&self.started),
                        },
                    );
                }
                if pending {
                    self.sent = self.sent + 1;
                }
                if self.sent < self.limit {
                    let i = self.sent;
                    let word = word_at(i);
                    let text = if i == 0 {
                        word.to_owned()
                    } else {
                        prefixed(" ", word)
                    };
                    self.phase = Phase::Emitting { pending: true };
                    Some(
                        StreamEvent::Token(
                            Token {
                                text,
                                confidence: Some(FIRST_CONFIDENCE - i as u32),
                                timestamp: timestamp_now(),
                            },
                        ),
                    )
                } else {
                    self.phase = Phase::Finished;
                    Some(
                        StreamEvent::Complete {
                            total_tokens: self.sent,
                            inference_time_ms: elapsed_millis(&self.started),
                        },
                    )
                }
            },
            Phase::Finished => None,
        }
    }
}

/// The consumer's side of a session: a sequence of events that is pulled
/// one at a time and cannot be restarted.
pub struct TokenStream {
    pub producer: TokenProducer,
}

impl TokenStream {
    /// The producer is well-formed.
    pub open spec fn wf(&self) -> bool {
        self.producer.wf()
    }

    /// A stream for `input` under `config`, at the start of its session.
    pub fn new(input: String, config: StreamConfig) -> (r: Result<Self, AiCoreError>)
        ensures
            r matches Ok(stream) && stream.wf() && stream.producer@ == (ProducerState {
                phase: Phase::Fresh,
                sent: 0,
                limit: token_limit(config.max_tokens),
            }) && stream.producer.pause_ms == config.flush_interval_ms,
    {
        Ok(TokenStream { producer: TokenProducer::new(&config) })
    }

    /// The next event, or `None` once the terminal event was handed out.
    pub fn next(&mut self) -> (r: Option<StreamEvent>)
        requires
            old(self).wf(),
        ensures
            final(self).wf(),
            final(self).producer@ == next_state(old(self).producer@, true),
            final(self).producer.pause_ms == old(self).producer.pause_ms,
            match r {
                Some(event) => next_kind(old(self).producer@, true) matches Some(kind) && event_is(
                    event,
                    kind,
                ) && final(self).producer.remaining() < old(self).producer.remaining(),
                None => next_kind(old(self).producer@, true) is None,
            },
    {
        self.producer.next_event(true)
    }
}

/// Starts streaming sessions under one configuration.
pub struct StreamingEngine {
    pub config: StreamConfig,
}

impl StreamingEngine {
    /// An engine with the default configuration.
    pub fn new() -> (engine: Self)
        ensures
            engine.config == (StreamConfig {
                buffer_size: 1024,
                flush_interval_ms: 50,
                max_tokens: Some(512usize),
                temperature: 700,
            }),
    {
        StreamingEngine { config: StreamConfig::default() }
    }

    /// An engine with the given configuration.
    pub fn with_config(config: StreamConfig) -> (engine: Self)
        ensures
            engine.config == config,
    {
        StreamingEngine { config }
    }

    /// A new session for `input`; blank input is rejected.
    pub fn stream_inference(&self, input: &str) -> (r: Result<TokenStream, AiCoreError>)
        ensures
            match r {
                Ok(stream) => !is_blank(input@) && stream.wf() && stream.producer@
                    == (ProducerState {
                    phase: Phase::Fresh,
                    sent: 0,
                    limit: token_limit(self.config.max_tokens),
                }) && stream.producer.pause_ms == self.config.flush_interval_ms,
                Err(e) => e matches AiCoreError::InvalidArgument { message } && message@
                    == "Input cannot be empty"@ && is_blank(input@),
            },
    {
        if str_is_blank(input) {
            return Err(AiCoreError::invalid_arg("Input cannot be empty"));
        }
        TokenStream::new(input.to_owned(), self.config)
    }

    /// Replaces the configuration; sessions started before keep theirs.
    pub fn update_config(&mut self, config: StreamConfig)
        ensures
            final(self).config == config,
    {
        self.config = config;
    }

    /// The configuration that new sessions get.
    pub fn config(&self) -> (config: &StreamConfig)
        ensures
            *config == self.config,
    {
        &self.config
    }
}

impl Default for StreamingEngine {
    fn default() -> (engine: Self)
        ensures
            engine.config == (StreamConfig {
                buffer_size: 1024,
                flush_interval_ms: 50,
                max_tokens: Some(512usize),
                temperature: 700,
            }),
    {
        StreamingEngine::new()
    }
}

} // verus!
