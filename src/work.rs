use vstd::prelude::*;
use base64::Engine;
use crate::error::AppError;
use crate::overlay::{Indicator, UIMessage};

verus! {

/// Which of the two prompting strategies a unit of work uses.
#[derive(Clone, Copy, Debug, PartialEq, Eq, Structural)]
pub enum Strategy {
    /// One call with the image and an instruction to answer concisely.
    DirectAnswer,
    /// A call that transcribes the on-screen quiz, then a call that answers
    /// the transcription.
    TranscribeThenAnswer,
}

/// Where a unit of work stands.
#[derive(Clone, Copy, Debug, PartialEq, Eq, Structural)]
pub enum Stage {
    Capturing,
    Transcribing,
    Answering,
    Finished,
}

/// What the unit of work asks its runner to do next.
#[derive(Debug, PartialEq, Eq)]
pub enum WorkAction {
    /// Ask for a concise answer to the image at this data URL.
    AnswerImage(String),
    /// Ask for a transcription of the quiz in the image at this data URL.
    TranscribeImage(String),
    /// Ask for the exact answer to this transcription.
    AnswerText(String),
    /// The unit is over: deliver these messages to the overlay, in order.
    Finish(Vec<UIMessage>),
}

/// Standard padded base64 encoding of `b`.
pub uninterp spec fn base64_standard(b: Seq<u8>) -> Seq<char>;

/// Relies on base64's `Engine::encode` with the `STANDARD` engine: the padded
/// standard-alphabet encoding, four characters for each started group of
/// three bytes. It panics only when that length overflows `usize`.
#[verifier::external_body]
fn encode_base64(b: &[u8]) -> (r: String)
    requires
        b@.len() <= usize::MAX / 2,
    ensures
        r@ == base64_standard(b@),
        r@.len() == 4 * ((b@.len() + 2) / 3),
{
    base64::engine::general_purpose::STANDARD.encode(b)
}

pub open spec fn data_url_of(png: Seq<u8>) -> Seq<char> {
    "data:image/png;base64,"@ + base64_standard(png)
}

/// The data URL that carries PNG bytes to the inference service.
pub fn image_data_url(png: &[u8]) -> (r: String)
    requires
        png@.len() <= usize::MAX / 2,
    ensures
        r@ == data_url_of(png@),
{
    let encoded = encode_base64(png);
    String::from_str("data:image/png;base64,").concat(encoded.as_str())
}

/// The messages that close a unit of work: on success the indicator goes
/// idle and then the answer is shown; on failure only the error indicator.
pub open spec fn outcome_messages(r: Result<String, AppError>) -> Seq<UIMessage> {
    match r {
        Ok(a) => seq![UIMessage::SetIndicator(Indicator::Idle), UIMessage::ShowText(Some(a))],
        Err(_) => seq![UIMessage::SetIndicator(Indicator::Error)],
    }
}

pub fn outcome(r: Result<String, AppError>) -> (ms: Vec<UIMessage>)
    ensures
        ms@ == outcome_messages(r),
{
    match r {
        Ok(a) => {
            let ghost ga = a;
            let ms = vec![UIMessage::SetIndicator(Indicator::Idle), UIMessage::ShowText(Some(a))];
            proof {
                assert(ms@ =~= outcome_messages(Ok(ga)));
            }
            ms
        },
        Err(e) => {
            let ms = vec![UIMessage::SetIndicator(Indicator::Error)];
            proof {
                assert(ms@ =~= outcome_messages(Err(e)));
            }
            ms
        },
    }
}

/// Whether every choice of a reply carries content.
pub open spec fn all_present(cs: Seq<Option<String>>) -> bool {
    forall|i: int| 0 <= i < cs.len() ==> (#[trigger] cs[i]) is Some
}

/// The contents of the choices, joined in order.
pub open spec fn joined(cs: Seq<Option<String>>) -> Seq<char>
    decreases cs.len(),
{
    if cs.len() == 0 {
        Seq::empty()
    } else {
        joined(cs.drop_last()) + match cs.last() {
            Some(s) => s@,
            None => Seq::empty(),
        }
    }
}

/// Joins the contents of a reply's choices. A reply with no choice, or with
/// a choice that carries no content, is an `EmptyResponse`.
pub fn join_reply(contents: Vec<Option<String>>) -> (r: Result<String, AppError>)
    ensures
        contents@.len() == 0 || !all_present(contents@) ==> r == Err::<String, AppError>(
            AppError::EmptyResponse,
        ),
        contents@.len() > 0 && all_present(contents@) ==> r is Ok && r->Ok_0@ == joined(
            contents@,
        ),
{
    if contents.len() == 0 {
        return Err(AppError::EmptyResponse);
    }
    let mut out = String::new();
    let mut i: usize = 0;
    while i < contents.len()
        invariant
            0 <= i <= contents@.len(),
            all_present(contents@.take(i as int)),
            out@ == joined(contents@.take(i as int)),
        decreases contents@.len() - i,
    {
        assert(contents@.take(i as int + 1).drop_last() =~= contents@.take(i as int));
        match &contents[i] {
            Some(s) => out.append(s.as_str()),
            None => {
                return Err(AppError::EmptyResponse);
            },
        }
        i = i + 1;
    }
    assert(contents@.take(i as int) =~= contents@);
    Ok(out)
}

/// One triggered unit of work: capture, then one or two inference calls,
/// then the closing messages. Any failure ends it at once.
pub struct UnitOfWork {
    strategy: Strategy,
    stage: Stage,
}

impl UnitOfWork {
    pub closed spec fn strategy_spec(&self) -> Strategy {
        self.strategy
    }

    pub closed spec fn stage_spec(&self) -> Stage {
        self.stage
    }

    /// A unit that waits for its screen capture.
    pub fn new(strategy: Strategy) -> (r: Self)
        ensures
            r.strategy_spec() == strategy,
            r.stage_spec() == Stage::Capturing,
    {
        UnitOfWork { strategy, stage: Stage::Capturing }
    }

    pub fn strategy(&self) -> (r: Strategy)
        ensures
            r == self.strategy_spec(),
    {
        self.strategy
    }

    pub fn stage(&self) -> (r: Stage)
        ensures
            r == self.stage_spec(),
    {
        self.stage
    }

    /// Takes the capture's result, as PNG bytes. A failed capture finishes
    /// the unit with the error indicator; otherwise the image goes to the
    /// call that the strategy names.
    pub fn on_capture(&mut self, capture: Result<Vec<u8>, AppError>) -> (a: WorkAction)
        requires
            old(self).stage_spec() == Stage::Capturing,
            capture is Ok ==> capture->Ok_0@.len() <= usize::MAX / 2,
        ensures
            final(self).strategy_spec() == old(self).strategy_spec(),
            match capture {
                Err(e) => final(self).stage_spec() == Stage::Finished && a is Finish
                    && a->Finish_0@ == outcome_messages(Err(e)),
                Ok(png) => match old(self).strategy_spec() {
                    Strategy::DirectAnswer => final(self).stage_spec() == Stage::Answering
                        && a is AnswerImage && a->AnswerImage_0@ == data_url_of(png@),
                    Strategy::TranscribeThenAnswer => final(self).stage_spec()
                        == Stage::Transcribing && a is TranscribeImage
                        && a->TranscribeImage_0@ == data_url_of(png@),
                },
            },
    {
        match capture {
            Err(e) => {
                self.stage = Stage::Finished;
                WorkAction::Finish(outcome(Err(e)))
            },
            Ok(png) => {
                let url = image_data_url(png.as_slice());
                match self.strategy {
                    Strategy::DirectAnswer => {
                        self.stage = Stage::Answering;
                        WorkAction::AnswerImage(url)
                    },
                    Strategy::TranscribeThenAnswer => {
                        self.stage = Stage::Transcribing;
                        WorkAction::TranscribeImage(url)
                    },
                }
            },
        }
    }

    /// Takes the result of the call in flight. A transcription goes on to
    /// the answering call; a failed transcription finishes the unit without
    /// it. The answer, or its failure, finishes the unit.
    pub fn on_reply(&mut self, reply: Result<String, AppError>) -> (a: WorkAction)
        requires
            old(self).stage_spec() == Stage::Transcribing || old(self).stage_spec()
                == Stage::Answering,
        ensures
            final(self).strategy_spec() == old(self).strategy_spec(),
            old(self).stage_spec() == Stage::Transcribing && reply is Ok ==> (final(self).stage_spec()
                == Stage::Answering && a == WorkAction::AnswerText(reply->Ok_0)),
            old(self).stage_spec() == Stage::Answering || reply is Err ==> (final(self).stage_spec()
                == Stage::Finished && a is Finish && a->Finish_0@ == outcome_messages(reply)),
    {
        match reply {
            Ok(text) => {
                if self.stage == Stage::Transcribing {
                    self.stage = Stage::Answering;
                    WorkAction::AnswerText(text)
                } else {
                    self.stage = Stage::Finished;
                    WorkAction::Finish(outcome(Ok(text)))
                }
            },
            Err(e) => {
                self.stage = Stage::Finished;
                WorkAction::Finish(outcome(Err(e)))
            },
        }
    }
}

/// A successful unit closes with exactly two messages: the idle indicator,
/// then the answer; the answer is the only text it shows.
pub proof fn lemma_success_idle_before_text(answer: String)
    ensures
        outcome_messages(Ok(answer)).len() == 2,
        outcome_messages(Ok(answer))[0] == UIMessage::SetIndicator(Indicator::Idle),
        outcome_messages(Ok(answer))[1] == UIMessage::ShowText(Some(answer)),
        forall|i: int|
            0 <= i < 2 && (#[trigger] outcome_messages(Ok(answer))[i]) is ShowText ==> i == 1,
{
}

/// A failed unit closes with exactly one message, the error indicator, and
/// shows no text.
pub proof fn lemma_failure_single_error(e: AppError)
    ensures
        outcome_messages(Err(e)) == seq![UIMessage::SetIndicator(Indicator::Error)],
        forall|i: int|
            0 <= i < outcome_messages(Err(e)).len() ==> !((#[trigger] outcome_messages(
                Err(e),
            )[i]) is ShowText),
{
    assert(outcome_messages(Err(e))[0] == UIMessage::SetIndicator(Indicator::Error));
}

} // verus!
