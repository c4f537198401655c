//! The record shared by the network side and the generation worker.
use vstd::prelude::*;

verus! {

/// Abstract value of a `GenerationState`.
pub ghost struct StateModel {
    pub should_terminate: bool,
    pub is_generating: bool,
    pub lines: Seq<Seq<char>>,
}

/// State right after an admitted request: generating, with no lines yet and
/// no stop request left over from an earlier session.
pub open spec fn admit_spec(m: StateModel) -> StateModel {
    if m.is_generating {
        m
    } else {
        StateModel { should_terminate: false, is_generating: true, lines: Seq::empty() }
    }
}

/// State after the client went away.
pub open spec fn disconnect_spec(m: StateModel) -> StateModel {
    if m.is_generating {
        StateModel { should_terminate: true, ..m }
    } else {
        m
    }
}

/// State after the worker handed back its results.
pub open spec fn end_spec(m: StateModel) -> StateModel {
    StateModel { is_generating: false, lines: Seq::empty(), ..m }
}

/// Whether a generation is running, whether it was asked to stop, and the
/// lines it committed so far.
pub struct GenerationState {
    pub should_terminate: bool,
    pub is_generating: bool,
    pub generated_lines: Vec<String>,
}

impl GenerationState {
    pub open spec fn model(&self) -> StateModel {
        StateModel {
            should_terminate: self.should_terminate,
            is_generating: self.is_generating,
            lines: self.generated_lines.deep_view(),
        }
    }

    /// Idle, with no lines and no pending stop.
    pub fn new() -> (r: GenerationState)
        ensures
            r.model() == (StateModel {
                should_terminate: false,
                is_generating: false,
                lines: Seq::empty(),
            }),
    {
        let r = GenerationState {
            should_terminate: false,
            is_generating: false,
            generated_lines: Vec::new(),
        };
        assert(r.generated_lines.deep_view() =~= Seq::<Seq<char>>::empty());
        r
    }

    /// Admission of a new request: refused (and nothing changes) while a
    /// generation runs; otherwise marks one as running and resets the rest.
    pub fn try_admit(&mut self) -> (r: bool)
        ensures
            r == !old(self).is_generating,
            final(self).model() == admit_spec(old(self).model()),
    {
        if self.is_generating {
            false
        } else {
            self.is_generating = true;
            self.should_terminate = false;
            self.generated_lines = Vec::new();
            assert(self.generated_lines.deep_view() =~= Seq::<Seq<char>>::empty());
            true
        }
    }

    /// The client disconnected: a running generation is asked to stop.
    pub fn disconnect(&mut self)
        ensures
            final(self).model() == disconnect_spec(old(self).model()),
    {
        if self.is_generating {
            self.should_terminate = true;
        }
    }

    /// Reads and clears the stop request.
    pub fn take_termination(&mut self) -> (r: bool)
        ensures
            r == old(self).should_terminate,
            final(self).model() == (StateModel { should_terminate: false, ..old(self).model() }),
    {
        let r = self.should_terminate;
        self.should_terminate = false;
        r
    }

    /// Appends a committed line.
    pub fn commit_line(&mut self, line: String)
        ensures
            final(self).model() == (StateModel {
                lines: old(self).model().lines.push(line@),
                ..old(self).model()
            }),
    {
        self.generated_lines.push(line);
        assert(self.generated_lines.deep_view() =~= old(self).generated_lines.deep_view().push(
            line@,
        ));
    }

    /// A copy of the committed lines.
    pub fn snapshot_lines(&self) -> (r: Vec<String>)
        ensures
            r.deep_view() == self.model().lines,
    {
        let mut out: Vec<String> = Vec::new();
        let mut i: usize = 0;
        while i < self.generated_lines.len()
            invariant
                i <= self.generated_lines@.len(),
                out@.len() == i,
                out.deep_view() =~= self.generated_lines.deep_view().subrange(0, i as int),
            decreases self.generated_lines@.len() - i,
        {
            let line = self.generated_lines[i].clone();
            let ghost prev = out@;
            out.push(line);
            assert(out@ == prev.push(self.generated_lines@[i as int]));
            assert(out.deep_view() =~= self.generated_lines.deep_view().subrange(0, i as int + 1))
                by {
                assert(out.deep_view().len() == i + 1);
                assert(out.deep_view()[i as int] == self.generated_lines@[i as int]@);
            }
            i = i + 1;
        }
        assert(self.generated_lines.deep_view().subrange(0, i as int)
            =~= self.generated_lines.deep_view());
        out
    }

    /// The worker is done: nothing runs and the lines are dropped.
    pub fn end_generation(&mut self)
        ensures
            final(self).model() == end_spec(old(self).model()),
    {
        self.is_generating = false;
        self.generated_lines = Vec::new();
        assert(self.generated_lines.deep_view() =~= Seq::<Seq<char>>::empty());
    }
}

/// A request that arrives while a generation runs changes neither the lines
/// nor the stop request.
pub proof fn lemma_busy_admission_keeps_state(m: StateModel)
    requires
        m.is_generating,
    ensures
        admit_spec(m).lines == m.lines,
        admit_spec(m).should_terminate == m.should_terminate,
        admit_spec(m) == m,
{
}

/// A disconnect during a generation always leaves a stop request behind.
pub proof fn lemma_disconnect_requests_stop(m: StateModel)
    requires
        m.is_generating,
    ensures
        disconnect_spec(m).should_terminate,
        disconnect_spec(m).lines == m.lines,
{
}

} // verus!
