//! The JSON codecs are collaborators outside this crate. Two of each kind may
//! exist, a fast one and the standard one; they are tried in that order and
//! the first success ends the search. The functions here decide, after each
//! answer, what is done next.

use crate::error::{ErrorKind, ErrorValue, ErrorView};
use crate::text::string_from_utf8;
use vstd::prelude::*;
use vstd::string::*;
use vstd::utf8::*;

verus! {

/// One of the two codecs.
#[derive(Clone, Copy, Debug, PartialEq, Eq, Structural)]
pub enum JsonStrategy {
    /// The fast codec, tried first.
    Fast,
    /// The standard codec, tried when the fast one failed.
    Standard,
}

/// The strategy that follows the last one tried; `None` before the first and
/// after the last.
pub open spec fn strategy_after(tried: Option<JsonStrategy>) -> Option<JsonStrategy> {
    match tried {
        None => Some(JsonStrategy::Fast),
        Some(JsonStrategy::Fast) => Some(JsonStrategy::Standard),
        Some(JsonStrategy::Standard) => None,
    }
}

/// The strategy to try next.
pub fn next_strategy(tried: Option<JsonStrategy>) -> (next: Option<JsonStrategy>)
    ensures
        next == strategy_after(tried),
{
    match tried {
        None => Some(JsonStrategy::Fast),
        Some(JsonStrategy::Fast) => Some(JsonStrategy::Standard),
        Some(JsonStrategy::Standard) => None,
    }
}

/// What an encoder answered.
#[derive(Debug)]
pub enum EncodeOutcome {
    /// The encoded document.
    Encoded(Vec<u8>),
    /// The encoder's own description of its failure.
    Failed(String),
}

/// What is done next while a payload is encoded.
#[derive(Debug)]
pub enum EncodeStep {
    /// Run this encoder on the payload.
    Try(JsonStrategy),
    /// The payload is encoded: this is the body text.
    Done(String),
    /// No encoder accepted the payload.
    Fail(ErrorValue),
}

/// An [`EncodeStep`] as mathematical values.
pub enum EncodeStepView {
    Try(JsonStrategy),
    Done(Seq<char>),
    Fail(ErrorView),
}

impl View for EncodeStep {
    type V = EncodeStepView;

    open spec fn view(&self) -> EncodeStepView {
        match self {
            EncodeStep::Try(s) => EncodeStepView::Try(*s),
            EncodeStep::Done(t) => EncodeStepView::Done(t@),
            EncodeStep::Fail(e) => EncodeStepView::Fail(e@),
        }
    }
}

/// The text of an encoded document: its characters where the bytes are
/// UTF-8, and the empty text where they are not.
pub open spec fn document_text(bytes: Seq<u8>) -> Seq<char> {
    if valid_utf8(bytes) {
        decode_utf8(bytes)
    } else {
        Seq::empty()
    }
}

/// The step that follows an encoder's answer: a document ends the search, a
/// failure moves on to the next encoder, and the failure of the last one is
/// handed on in its own words.
pub open spec fn encode_step_after(tried: JsonStrategy, outcome: EncodeOutcomeView) -> EncodeStepView {
    match outcome {
        EncodeOutcomeView::Encoded(bytes) => EncodeStepView::Done(document_text(bytes)),
        EncodeOutcomeView::Failed(detail) => match strategy_after(Some(tried)) {
            Some(next) => EncodeStepView::Try(next),
            None => EncodeStepView::Fail(
                ErrorView { kind: ErrorKind::EncodeError, message: detail, status: None },
            ),
        },
    }
}

/// An [`EncodeOutcome`] as mathematical values.
pub enum EncodeOutcomeView {
    Encoded(Seq<u8>),
    Failed(Seq<char>),
}

impl View for EncodeOutcome {
    type V = EncodeOutcomeView;

    open spec fn view(&self) -> EncodeOutcomeView {
        match self {
            EncodeOutcome::Encoded(b) => EncodeOutcomeView::Encoded(b@),
            EncodeOutcome::Failed(d) => EncodeOutcomeView::Failed(d@),
        }
    }
}

/// The first step of encoding a payload.
pub fn encode_begin() -> (step: EncodeStep)
    ensures
        step@ == EncodeStepView::Try(JsonStrategy::Fast),
{
    EncodeStep::Try(JsonStrategy::Fast)
}

/// The step after the encoder `tried` has answered.
pub fn encode_next(tried: JsonStrategy, outcome: EncodeOutcome) -> (step: EncodeStep)
    ensures
        step@ == encode_step_after(tried, outcome@),
{
    match outcome {
        EncodeOutcome::Encoded(bytes) => {
            match string_from_utf8(bytes) {
                Ok(text) => EncodeStep::Done(text),
                Err(_) => EncodeStep::Done(String::new()),
            }
        },
        EncodeOutcome::Failed(detail) => match next_strategy(Some(tried)) {
            Some(next) => EncodeStep::Try(next),
            None => EncodeStep::Fail(ErrorValue::new(ErrorKind::EncodeError, detail)),
        },
    }
}

} // verus!
