//! The transcript: an append-only log of submitted lines.

use vstd::prelude::*;

verus! {

/// One submitted line and its place in the transcript, counted from 0.
pub struct ChatLine {
    pub text: String,
    pub sequence: usize,
}

/// What a line is: its characters and its sequence number.
pub struct LineView {
    pub text: Seq<char>,
    pub sequence: nat,
}

impl View for ChatLine {
    type V = LineView;

    open spec fn view(&self) -> LineView {
        LineView { text: self.text@, sequence: self.sequence as nat }
    }
}

impl ChatLine {
    /// A line holding `text` under number `sequence`.
    pub fn new(text: String, sequence: usize) -> (r: Self)
        ensures
            r@ == (LineView { text: text@, sequence: sequence as nat }),
    {
        ChatLine { text, sequence }
    }

    /// The text of the line.
    pub fn text(&self) -> (r: &str)
        ensures
            r@ == self.text@,
    {
        self.text.as_str()
    }
}

/// A log is well formed when each line is non-empty and numbered by its position.
pub open spec fn log_wf(log: Seq<LineView>) -> bool {
    forall|i: int| 0 <= i < log.len() ==> {
        &&& (#[trigger] log[i]).sequence == i
        &&& log[i].text.len() > 0
    }
}

/// The lines submitted so far, oldest first.
pub struct ChatLog {
    lines: Vec<ChatLine>,
}

impl View for ChatLog {
    type V = Seq<LineView>;

    closed spec fn view(&self) -> Seq<LineView> {
        self.lines@.map_values(|l: ChatLine| l@)
    }
}

impl ChatLog {
    #[verifier::type_invariant]
    spec fn inv(&self) -> bool {
        log_wf(self@)
    }

    /// An empty transcript.
    pub fn new() -> (r: Self)
        ensures
            r@ == Seq::<LineView>::empty(),
    {
        ChatLog { lines: Vec::new() }
    }

    /// The number of lines.
    pub fn len(&self) -> (r: usize)
        ensures
            r == self@.len(),
            log_wf(self@),
    {
        proof {
            use_type_invariant(self);
        }
        self.lines.len()
    }

    /// Adds `text` at the end under the next sequence number and returns the new line.
    pub fn append(&mut self, text: String) -> (r: ChatLine)
        requires
            text@.len() > 0,
        ensures
            r@ == (LineView { text: text@, sequence: old(self)@.len() }),
            final(self)@ == old(self)@.push(r@),
    {
        proof {
            use_type_invariant(&*self);
        }
        let sequence = self.lines.len();
        let copy = text.clone();
        let mut lines = Vec::new();
        std::mem::swap(&mut lines, &mut self.lines);
        lines.push(ChatLine::new(text, sequence));
        assert(lines@.map_values(|l: ChatLine| l@) =~= old(self)@.push(
            LineView { text: text@, sequence: sequence as nat },
        ));
        self.lines = lines;
        ChatLine::new(copy, sequence)
    }

    /// The lines, oldest first, read-only.
    pub fn entries(&self) -> (r: &[ChatLine])
        ensures
            r@.map_values(|l: ChatLine| l@) == self@,
            log_wf(self@),
    {
        proof {
            use_type_invariant(self);
        }
        self.lines.as_slice()
    }
}

} // verus!
