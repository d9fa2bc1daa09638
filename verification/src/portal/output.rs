//! Captured output: lines tagged with the stream that they came from.

use vstd::prelude::*;

verus! {

/// The stream that a line of output was written to.
#[derive(Debug, Clone, Copy, PartialEq, Eq, Hash, Structural)]
pub enum Stream {
    /// Standard output.
    Stdout,
    /// Standard error.
    Stderr,
}

impl Stream {
    /// The name of the stream in a response.
    pub open spec fn tag(self) -> Seq<char> {
        match self {
            Stream::Stdout => "stdout"@,
            Stream::Stderr => "stderr"@,
        }
    }

    /// Returns the name of the stream in a response.
    pub fn name(self) -> (n: &'static str)
        ensures
            n@ == self.tag(),
    {
        match self {
            Stream::Stdout => "stdout",
            Stream::Stderr => "stderr",
        }
    }
}

/// One captured line of output.
#[derive(Debug, Clone, PartialEq, Eq)]
pub struct OutputLine {
    /// The stream that the line was written to.
    pub stream: Stream,
    /// The line, without its line break.
    pub text: String,
}

/// Mathematical value of an [`OutputLine`].
pub struct OutputLineView {
    pub stream: Stream,
    pub text: Seq<char>,
}

impl View for OutputLine {
    type V = OutputLineView;

    open spec fn view(&self) -> OutputLineView {
        OutputLineView { stream: self.stream, text: self.text@ }
    }
}

impl DeepView for OutputLine {
    type V = OutputLineView;

    open spec fn deep_view(&self) -> OutputLineView {
        self@
    }
}

impl OutputLine {
    /// Makes a line of the given stream and text.
    pub fn new(stream: Stream, text: String) -> (line: OutputLine)
        ensures
            line@ == (OutputLineView { stream, text: text@ }),
    {
        OutputLine { stream, text }
    }
}

/// The texts of the lines of `lines` that came from `stream`, in their order.
pub open spec fn stream_texts(lines: Seq<OutputLineView>, stream: Stream) -> Seq<Seq<char>> {
    lines.filter(|l: OutputLineView| l.stream == stream).map_values(|l: OutputLineView| l.text)
}

} // verus!
