//! The session: relays UI events to the input buffer and the transcript.

use vstd::prelude::*;
use crate::input::ChatInput;
use crate::text::{is_blank, lemma_trimmed_empty_iff_blank, trim_text, trimmed};
use crate::transcript::{log_wf, ChatLine, ChatLog, LineView};

verus! {

/// An event that the UI hands to the session.
#[derive(Clone, Debug)]
pub enum ChatAppMessage {
    /// The text field now holds this text.
    ChatTextChanged(String),
    /// The user asked to submit what the text field holds.
    ChatTextSubmitted,
}

/// What an event is, over plain values.
pub enum Event {
    TextChanged(Seq<char>),
    SubmitRequested,
}

impl View for ChatAppMessage {
    type V = Event;

    open spec fn view(&self) -> Event {
        match self {
            ChatAppMessage::ChatTextChanged(t) => Event::TextChanged(t@),
            ChatAppMessage::ChatTextSubmitted => Event::SubmitRequested,
        }
    }
}

/// What a session is: the text being composed and the transcript.
pub struct SessionView {
    pub input: Seq<char>,
    pub log: Seq<LineView>,
}

/// The session at startup: nothing composed, nothing submitted.
pub open spec fn initial() -> SessionView {
    SessionView { input: Seq::empty(), log: Seq::empty() }
}

/// The effect of one event. A text change replaces the input. A submit whose
/// input trims to nothing changes nothing; any other submit appends the
/// trimmed input under the next sequence number and empties the input.
pub open spec fn step(s: SessionView, e: Event) -> SessionView {
    match e {
        Event::TextChanged(t) => SessionView { input: t, log: s.log },
        Event::SubmitRequested => {
            if trimmed(s.input).len() == 0 {
                s
            } else {
                SessionView {
                    input: Seq::empty(),
                    log: s.log.push(LineView { text: trimmed(s.input), sequence: s.log.len() }),
                }
            }
        },
    }
}

/// The effect of events applied in order.
pub open spec fn run(s: SessionView, es: Seq<Event>) -> SessionView
    decreases es.len(),
{
    if es.len() == 0 {
        s
    } else {
        step(run(s, es.drop_last()), es.last())
    }
}

/// Whether event `e` in state `s` is a submit that adds a line.
pub open spec fn accepts(s: SessionView, e: Event) -> bool {
    e is SubmitRequested && trimmed(s.input).len() > 0
}

/// How many of the events, applied in order from `s`, are submits that add a line.
pub open spec fn accepted(s: SessionView, es: Seq<Event>) -> nat
    decreases es.len(),
{
    if es.len() == 0 {
        0
    } else {
        accepted(s, es.drop_last()) + if accepts(run(s, es.drop_last()), es.last()) {
            1nat
        } else {
            0nat
        }
    }
}

/// The chat session: one input buffer and one transcript.
pub struct ChatApp {
    chat_log: ChatLog,
    chat_input: ChatInput,
}

impl View for ChatApp {
    type V = SessionView;

    closed spec fn view(&self) -> SessionView {
        SessionView { input: self.chat_input@, log: self.chat_log@ }
    }
}

impl ChatApp {
    /// A session with an empty buffer and an empty transcript.
    pub fn new() -> (r: Self)
        ensures
            r@ == initial(),
    {
        ChatApp { chat_log: ChatLog::new(), chat_input: ChatInput::new() }
    }

    /// Applies one event; returns whether it added a line to the transcript.
    pub fn update(&mut self, message: ChatAppMessage) -> (added: bool)
        ensures
            final(self)@ == step(old(self)@, message@),
            added == accepts(old(self)@, message@),
    {
        match message {
            ChatAppMessage::ChatTextChanged(v) => {
                self.chat_input.set_content(v);
                false
            },
            ChatAppMessage::ChatTextSubmitted => self.submit(),
        }
    }

    /// Submits the composed text: when it trims to nothing, nothing changes;
    /// otherwise the trimmed text is appended and the buffer emptied.
    /// Returns whether a line was added.
    pub fn submit(&mut self) -> (added: bool)
        ensures
            final(self)@ == step(old(self)@, Event::SubmitRequested),
            added == (trimmed(old(self)@.input).len() > 0),
    {
        let normalized = trim_text(self.chat_input.content());
        if normalized.as_str().is_empty() {
            false
        } else {
            let _line: ChatLine = self.chat_log.append(normalized);
            self.chat_input.clear();
            true
        }
    }

    /// The text being composed.
    pub fn current_input_text(&self) -> (r: &str)
        ensures
            r@ == self@.input,
    {
        self.chat_input.content()
    }

    /// The transcript, oldest line first, read-only.
    pub fn transcript_entries(&self) -> (r: &[ChatLine])
        ensures
            r@.map_values(|l: ChatLine| l@) == self@.log,
            log_wf(self@.log),
    {
        self.chat_log.entries()
    }
}

/// After any non-empty run of text changes, the input is the text of the last
/// one, and the transcript is as it was.
pub proof fn lemma_last_text_wins(s: SessionView, texts: Seq<Seq<char>>)
    requires
        texts.len() > 0,
    ensures
        run(s, texts.map_values(|t: Seq<char>| Event::TextChanged(t))).input == texts.last(),
        run(s, texts.map_values(|t: Seq<char>| Event::TextChanged(t))).log == s.log,
{
    lemma_text_changes_keep_log(s, texts);
    let es = texts.map_values(|t: Seq<char>| Event::TextChanged(t));
    assert(es.last() == Event::TextChanged(texts.last()));
}

proof fn lemma_text_changes_keep_log(s: SessionView, texts: Seq<Seq<char>>)
    ensures
        run(s, texts.map_values(|t: Seq<char>| Event::TextChanged(t))).log == s.log,
    decreases texts.len(),
{
    let es = texts.map_values(|t: Seq<char>| Event::TextChanged(t));
    if texts.len() > 0 {
        lemma_text_changes_keep_log(s, texts.drop_last());
        assert(es.drop_last() =~= texts.drop_last().map_values(|t: Seq<char>| Event::TextChanged(t)));
    }
}

/// Submitting a text made of whitespace alone (or nothing) changes neither the
/// input nor the transcript.
pub proof fn lemma_blank_submit_is_noop(s: SessionView)
    requires
        is_blank(s.input),
    ensures
        step(s, Event::SubmitRequested) == s,
        !accepts(s, Event::SubmitRequested),
{
    lemma_trimmed_empty_iff_blank(s.input);
}

/// Submitting a text with a non-whitespace character adds exactly one line at
/// the end, holding the trimmed text, numbered one past the last line (or 0),
/// keeps every earlier line, and empties the input.
pub proof fn lemma_submit_appends(s: SessionView)
    requires
        log_wf(s.log),
        !is_blank(s.input),
    ensures
        ({
            let t = step(s, Event::SubmitRequested);
            &&& t.log.len() == s.log.len() + 1
            &&& t.log.subrange(0, s.log.len() as int) == s.log
            &&& t.log.last().text == trimmed(s.input)
            &&& t.log.last().sequence == if s.log.len() == 0 {
                0
            } else {
                s.log.last().sequence + 1
            }
            &&& t.input == Seq::<char>::empty()
        }),
{
    lemma_trimmed_empty_iff_blank(s.input);
    let t = step(s, Event::SubmitRequested);
    assert(t.log.subrange(0, s.log.len() as int) =~= s.log);
}

/// Whatever events come, in whatever order, the transcript stays well formed:
/// its lines are numbered 0, 1, 2, ... with no gap or repeat, and it grows by
/// exactly the submits that added a line.
pub proof fn lemma_run_keeps_numbering(s: SessionView, es: Seq<Event>)
    requires
        log_wf(s.log),
    ensures
        log_wf(run(s, es).log),
        run(s, es).log.len() == s.log.len() + accepted(s, es),
    decreases es.len(),
{
    if es.len() > 0 {
        lemma_run_keeps_numbering(s, es.drop_last());
        let p = run(s, es.drop_last());
        if accepts(p, es.last()) {
            let t = step(p, es.last());
            assert forall|i: int| 0 <= i < t.log.len() implies {
                &&& (#[trigger] t.log[i]).sequence == i
                &&& t.log[i].text.len() > 0
            } by {
                if i < p.log.len() {
                    assert(t.log[i] == p.log[i]);
                }
            }
        }
    }
}

/// From startup, after any events, the sequence numbers are exactly
/// 0 .. N-1, where N is the number of submits that added a line.
pub proof fn lemma_sequences_from_start(es: Seq<Event>)
    ensures
        run(initial(), es).log.len() == accepted(initial(), es),
        forall|i: int|
            0 <= i < run(initial(), es).log.len() ==> (#[trigger] run(initial(), es).log[i]).sequence
                == i,
{
    lemma_run_keeps_numbering(initial(), es);
}

} // verus!
