//! One generation session as a state machine. The engine's work (sampling,
//! evaluation, detokenisation) is done by the caller, who reports each
//! result here and is told what comes next.
use vstd::prelude::*;
use crate::state::{GenerationState, StateModel};
use crate::text::{
    contains_char, contains_text, has_char, is_white_space, lemma_concat_clean, lemma_strip_clean,
    lemma_trimmed_clean, no_artifacts, occurs_in, strip_artifacts, strip_spec, trim_of, trimmed,
};
use crate::tokens::LToken;
use crate::wire::GenerationResults;

verus! {

/// Why a session failed.
#[derive(Clone, Copy, Debug, PartialEq, Eq, Structural)]
pub enum SessionError {
    /// the engine reported this invalid token count
    TokenizationError(i32),
    /// the engine reported this nonzero status
    EvaluationError(i32),
}

/// Reads the token count that tokenisation reported into a buffer of
/// `capacity` tokens: a negative count, or one the buffer cannot hold, is
/// invalid.
pub fn check_token_count(count: i32, capacity: usize) -> (r: Result<usize, SessionError>)
    ensures
        0 <= count <= capacity ==> r == Ok::<usize, SessionError>(count as usize),
        !(0 <= count <= capacity) ==> r == Err::<usize, SessionError>(
            SessionError::TokenizationError(count),
        ),
{
    if count < 0 || count as usize > capacity {
        Err(SessionError::TokenizationError(count))
    } else {
        Ok(count as usize)
    }
}

/// Reads the status that evaluation reported.
pub fn check_eval_status(status: i32) -> (r: Result<(), SessionError>)
    ensures
        status == 0 ==> r == Ok::<(), SessionError>(()),
        status != 0 ==> r == Err::<(), SessionError>(SessionError::EvaluationError(status)),
{
    if status == 0 {
        Ok(())
    } else {
        Err(SessionError::EvaluationError(status))
    }
}

/// The stop sequence honoured: the first configured one, else two newlines.
pub open spec fn stop_spec(stops: Seq<Seq<char>>) -> Seq<char> {
    if stops.len() > 0 {
        stops[0]
    } else {
        seq!['\n', '\n']
    }
}

pub fn stop_sequence_of(stops: &Vec<String>) -> (r: String)
    ensures
        r@ == stop_spec(stops.deep_view()),
{
    if stops.len() > 0 {
        stops[0].clone()
    } else {
        proof {
            reveal_strlit("\n\n");
        }
        String::from_str("\n\n")
    }
}

/// Number of tokens a session may produce: one fewer than requested (the
/// first sampled position takes the first step of the budget), and no more
/// than the context has room for after the prompt.
pub open spec fn budget_spec(generate_tokens: int, n_ctx: int, prompt_len: int) -> int {
    if generate_tokens <= 0 || prompt_len >= n_ctx {
        0
    } else if generate_tokens - 1 < n_ctx - prompt_len {
        generate_tokens - 1
    } else {
        n_ctx - prompt_len
    }
}

pub fn token_budget(generate_tokens: usize, n_ctx: usize, prompt_len: usize) -> (r: usize)
    ensures
        r as int == budget_spec(generate_tokens as int, n_ctx as int, prompt_len as int),
        prompt_len + r <= n_ctx || r == 0,
{
    if generate_tokens == 0 || prompt_len >= n_ctx {
        0
    } else if generate_tokens - 1 < n_ctx - prompt_len {
        generate_tokens - 1
    } else {
        n_ctx - prompt_len
    }
}

#[derive(Clone, Copy, Debug, PartialEq, Eq, Structural)]
pub enum Phase {
    Sampling,
    Completed,
    Terminated,
    Failed,
}

/// Phase and state after the check at the top of an iteration.
pub open spec fn begin_step_spec(phase: Phase, remaining: int, m: StateModel) -> (Phase, StateModel) {
    if phase != Phase::Sampling {
        (phase, m)
    } else if m.should_terminate {
        (Phase::Terminated, StateModel { should_terminate: false, ..m })
    } else if remaining == 0 {
        (Phase::Completed, m)
    } else {
        (Phase::Sampling, m)
    }
}

/// Lines handed back when a session ends in `phase` with `current` unfinished.
pub open spec fn finish_lines_spec(phase: Phase, current: Seq<char>, lines: Seq<Seq<char>>) -> Seq<
    Seq<char>,
> {
    if phase == Phase::Terminated || current.len() == 0 {
        lines
    } else {
        lines.push(trim_of(current))
    }
}

/// A committed line: no `#`, no newline, no white space at either end.
pub open spec fn committed_clean(line: Seq<char>) -> bool {
    &&& no_artifacts(line)
    &&& line.len() > 0 ==> !is_white_space(line[0]) && !is_white_space(line.last())
}

/// A running generation.
pub struct Session {
    pub phase: Phase,
    /// tokens that may still be produced
    pub remaining: usize,
    /// tokens held by the context
    pub n_past: usize,
    /// tokens produced so far
    pub produced: usize,
    /// all text produced so far
    pub output: String,
    /// the line being built, not yet committed
    pub current_line: String,
    pub stop: String,
}

impl Session {
    pub open spec fn wf(&self) -> bool {
        &&& self.n_past + self.remaining <= usize::MAX
        &&& self.produced + self.remaining <= usize::MAX
        &&& no_artifacts(self.current_line@)
    }

    /// Same phase, counters and stop sequence.
    pub open spec fn same_progress(&self, o: &Session) -> bool {
        &&& self.phase == o.phase
        &&& self.remaining == o.remaining
        &&& self.n_past == o.n_past
        &&& self.produced == o.produced
        &&& self.stop@ == o.stop@
    }

    /// A session after its prompt of `prompt_len` tokens was fed.
    pub fn start(prompt_len: usize, n_ctx: usize, generate_tokens: usize, stops: &Vec<String>) -> (r:
        Session)
        ensures
            r.wf(),
            r.phase == Phase::Sampling,
            r.remaining as int == budget_spec(
                generate_tokens as int,
                n_ctx as int,
                prompt_len as int,
            ),
            r.n_past == prompt_len,
            r.produced == 0,
            r.output@ == Seq::<char>::empty(),
            r.current_line@ == Seq::<char>::empty(),
            r.stop@ == stop_spec(stops.deep_view()),
    {
        let remaining = token_budget(generate_tokens, n_ctx, prompt_len);
        Session {
            phase: Phase::Sampling,
            remaining,
            n_past: prompt_len,
            produced: 0,
            output: String::new(),
            current_line: String::new(),
            stop: stop_sequence_of(stops),
        }
    }

    /// The check at the top of each iteration: a pending stop request is
    /// consumed and ends the session as terminated; an exhausted budget ends
    /// it as completed. Returns whether a token is to be sampled.
    pub fn begin_step(&mut self, gs: &mut GenerationState) -> (r: bool)
        requires
            old(self).wf(),
        ensures
            final(self).wf(),
            (final(self).phase, final(gs).model()) == begin_step_spec(
                old(self).phase,
                old(self).remaining as int,
                old(gs).model(),
            ),
            r == (final(self).phase == Phase::Sampling),
            r ==> final(self).remaining > 0,
            final(self).remaining == old(self).remaining,
            final(self).n_past == old(self).n_past,
            final(self).produced == old(self).produced,
            final(self).output@ == old(self).output@,
            final(self).current_line@ == old(self).current_line@,
            final(self).stop@ == old(self).stop@,
    {
        if self.phase != Phase::Sampling {
            return false;
        }
        if gs.take_termination() {
            self.phase = Phase::Terminated;
            return false;
        }
        if self.remaining == 0 {
            self.phase = Phase::Completed;
            return false;
        }
        true
    }

    /// A token was sampled. End of stream, or a stop sequence already in
    /// the output, completes the session (`None`); otherwise the token is
    /// counted and the position at which to evaluate it is returned.
    pub fn on_sampled(&mut self, token: LToken) -> (r: Option<usize>)
        requires
            old(self).wf(),
            old(self).phase == Phase::Sampling,
            old(self).remaining > 0,
        ensures
            final(self).wf(),
            final(self).output@ == old(self).output@,
            final(self).current_line@ == old(self).current_line@,
            final(self).stop@ == old(self).stop@,
            (token is EndOfStream || occurs_in(old(self).output@, old(self).stop@)) ==> (r
                == None::<usize> && final(self).phase == Phase::Completed && final(self).remaining
                == old(self).remaining && final(self).n_past == old(self).n_past
                && final(self).produced == old(self).produced),
            !(token is EndOfStream || occurs_in(old(self).output@, old(self).stop@)) ==> (r
                == Some(old(self).n_past) && final(self).phase == Phase::Sampling
                && final(self).remaining == old(self).remaining - 1 && final(self).n_past
                == old(self).n_past + 1 && final(self).produced == old(self).produced + 1),
    {
        let stop_seen = contains_text(self.output.as_str(), self.stop.as_str());
        let is_end = match token {
            LToken::EndOfStream => true,
            _ => false,
        };
        if is_end || stop_seen {
            self.phase = Phase::Completed;
            None
        } else {
            let at = self.n_past;
            self.remaining = self.remaining - 1;
            self.n_past = self.n_past + 1;
            self.produced = self.produced + 1;
            Some(at)
        }
    }

    /// The engine evaluated the last token with this status; a nonzero one
    /// fails the session.
    pub fn on_evaluated(&mut self, status: i32) -> (r: Result<(), SessionError>)
        requires
            old(self).wf(),
        ensures
            final(self).wf(),
            status == 0 ==> r == Ok::<(), SessionError>(()),
            status != 0 ==> r == Err::<(), SessionError>(SessionError::EvaluationError(status)),
            status == 0 ==> final(self).phase == old(self).phase,
            status != 0 ==> final(self).phase == Phase::Failed,
            final(self).remaining == old(self).remaining,
            final(self).n_past == old(self).n_past,
            final(self).produced == old(self).produced,
            final(self).output@ == old(self).output@,
            final(self).current_line@ == old(self).current_line@,
            final(self).stop@ == old(self).stop@,
    {
        let r = check_eval_status(status);
        if status != 0 {
            self.phase = Phase::Failed;
        }
        r
    }

    /// The text of the last token. A fragment holding a newline ends a
    /// non-empty current line, which is committed trimmed; any other
    /// fragment is added to the current line without `#` and newlines.
    pub fn on_fragment(&mut self, gs: &mut GenerationState, fragment: &str)
        requires
            old(self).wf(),
        ensures
            final(self).wf(),
            final(self).same_progress(old(self)),
            final(self).output@ == old(self).output@ + fragment@,
            (has_char(fragment@, '\n') && old(self).current_line@.len() > 0) ==> (
            final(self).current_line@ == Seq::<char>::empty() && final(gs).model() == (StateModel {
                lines: old(gs).model().lines.push(trim_of(old(self).current_line@)),
                ..old(gs).model()
            }) && committed_clean(trim_of(old(self).current_line@))),
            !(has_char(fragment@, '\n') && old(self).current_line@.len() > 0) ==> (
            final(self).current_line@ == old(self).current_line@ + strip_spec(fragment@)
                && final(gs).model() == old(gs).model()),
    {
        self.output.append(fragment);
        let has_newline = contains_char(fragment, '\n');
        if has_newline && self.current_line.as_str().unicode_len() > 0 {
            let line = trimmed(self.current_line.as_str());
            gs.commit_line(line);
            self.current_line = String::new();
            proof {
                lemma_trimmed_clean(old(self).current_line@);
            }
        } else {
            let cleaned = strip_artifacts(fragment);
            proof {
                lemma_strip_clean(fragment@);
                lemma_concat_clean(self.current_line@, cleaned@);
            }
            self.current_line.append(cleaned.as_str());
        }
    }

    /// The consumer of the fragments asked to stop.
    pub fn on_consumer_stop(&mut self)
        requires
            old(self).wf(),
        ensures
            final(self).wf(),
            final(self).phase == (if old(self).phase == Phase::Sampling {
                Phase::Completed
            } else {
                old(self).phase
            }),
            final(self).remaining == old(self).remaining,
            final(self).n_past == old(self).n_past,
            final(self).produced == old(self).produced,
            final(self).output@ == old(self).output@,
            final(self).current_line@ == old(self).current_line@,
    {
        if self.phase == Phase::Sampling {
            self.phase = Phase::Completed;
        }
    }

    /// The results of a finished session. A completed one commits its
    /// non-empty trailing line first; a terminated one drops it. A stop
    /// request that came after the last check is consumed here, so none
    /// outlives the session.
    pub fn finish(&self, gs: &mut GenerationState, feed_prompt_dur_ms: u128, predict_dur_ms: u128) -> (r:
        GenerationResults)
        requires
            self.wf(),
            self.phase == Phase::Completed || self.phase == Phase::Terminated,
        ensures
            r.was_terminated == (self.phase == Phase::Terminated),
            committed_clean(trim_of(self.current_line@)),
            final(gs).model().lines == finish_lines_spec(
                self.phase,
                self.current_line@,
                old(gs).model().lines,
            ),
            final(gs).model().is_generating == old(gs).model().is_generating,
            !final(gs).model().should_terminate,
            r.full_generated_lines.deep_view() == final(gs).model().lines,
            r.predict_tokens == self.produced,
            r.feed_prompt_dur_ms == feed_prompt_dur_ms,
            r.predict_dur_ms == predict_dur_ms,
    {
        let terminated = self.phase == Phase::Terminated;
        let _late_stop = gs.take_termination();
        proof {
            lemma_trimmed_clean(self.current_line@);
        }
        if !terminated && self.current_line.as_str().unicode_len() > 0 {
            let line = trimmed(self.current_line.as_str());
            gs.commit_line(line);
        }
        GenerationResults {
            was_terminated: terminated,
            full_generated_lines: gs.snapshot_lines(),
            feed_prompt_dur_ms,
            predict_dur_ms,
            predict_tokens: self.produced,
        }
    }
}

/// A disconnect while a session samples is seen at the next iteration: the
/// session ends terminated, the stop request is consumed, and the results
/// carry exactly the lines committed before, whatever the unfinished line.
pub proof fn lemma_cancel_keeps_committed_lines(m: StateModel, remaining: int, current: Seq<char>)
    requires
        m.is_generating,
    ensures
        ({
            let m1 = crate::state::disconnect_spec(m);
            let (ph, m2) = begin_step_spec(Phase::Sampling, remaining, m1);
            &&& ph == Phase::Terminated
            &&& !m2.should_terminate
            &&& finish_lines_spec(ph, current, m2.lines) == m.lines
        }),
{
}

} // verus!
