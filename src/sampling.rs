//! Integer side of the sampling policy: the repetition window, the top-k
//! bound, the choice of strategy and the greedy pick. Logits reach this module as order-preserving integer keys.
use vstd::prelude::*;

verus! {

/// Candidate cap of the first mirostat variant.
pub const MIROSTAT_M: i32 = 100;

pub open spec fn min_int(a: int, b: int) -> int {
    if a < b { a } else { b }
}

/// Number of trailing history tokens that the repetition penalties see.
pub open spec fn repeat_window_spec(history_len: int, repeat_last_n: int, n_ctx: int) -> int {
    let limit = if repeat_last_n < 0 { n_ctx } else { repeat_last_n };
    min_int(min_int(history_len, limit), n_ctx)
}

/// Size of the repetition window: `min(history_len, limit, n_ctx)` where the
/// limit is `repeat_last_n`, or the whole context when it is negative.
pub fn repeat_window(history_len: usize, repeat_last_n: i32, n_ctx: usize) -> (r: usize)
    ensures
        r as int == repeat_window_spec(history_len as int, repeat_last_n as int, n_ctx as int),
        r <= history_len,
        r <= n_ctx,
{
    let mut r = if history_len < n_ctx { history_len } else { n_ctx };
    if repeat_last_n >= 0 && (repeat_last_n as usize) < r {
        r = repeat_last_n as usize;
    }
    r
}

/// A window of `-1` reaches back over the whole context (as far as history
/// goes), and a window of `0` penalises nothing.
pub proof fn lemma_repeat_window_boundaries(history_len: usize, n_ctx: usize)
    ensures
        repeat_window_spec(history_len as int, -1, n_ctx as int) == min_int(
            history_len as int,
            n_ctx as int,
        ),
        repeat_window_spec(history_len as int, 0, n_ctx as int) == 0,
{
}

/// The `k` of the top-k filter: `top_k`, or the vocabulary size when
/// `top_k <= 0`.
pub fn effective_top_k(top_k: i32, n_vocab: i32) -> (r: i32)
    ensures
        r == if top_k <= 0 { n_vocab } else { top_k },
{
    if top_k <= 0 {
        n_vocab
    } else {
        top_k
    }
}

/// The mutually exclusive ways of picking the next token.
#[derive(Clone, Copy, Debug, PartialEq, Eq, Structural)]
pub enum Strategy {
    Greedy,
    MirostatV1,
    MirostatV2,
    Temperature,
}

pub open spec fn strategy_spec(temperature_positive: bool, mirostat: i32) -> Strategy {
    if !temperature_positive {
        Strategy::Greedy
    } else if mirostat == 1 {
        Strategy::MirostatV1
    } else if mirostat == 2 {
        Strategy::MirostatV2
    } else {
        Strategy::Temperature
    }
}

/// Picks the strategy: greedy when the temperature is not positive, then
/// mirostat by its mode number, else temperature sampling.
pub fn choose_strategy(temperature_positive: bool, mirostat: i32) -> (r: Strategy)
    ensures
        r == strategy_spec(temperature_positive, mirostat),
{
    if !temperature_positive {
        Strategy::Greedy
    } else if mirostat == 1 {
        Strategy::MirostatV1
    } else if mirostat == 2 {
        Strategy::MirostatV2
    } else {
        Strategy::Temperature
    }
}

/// Candidate cap that a strategy imposes, if any.
pub fn candidate_cap(s: Strategy) -> (r: Option<i32>)
    ensures
        r == (if s == Strategy::MirostatV1 { Some(MIROSTAT_M) } else { None::<i32> }),
{
    match s {
        Strategy::MirostatV1 => Some(MIROSTAT_M),
        _ => None,
    }
}

/// How many candidates a filter keeps when its own rule asks for `cut`:
/// never fewer than `min_keep`, never more than there are.
pub open spec fn keep_count_spec(cut: int, min_keep: int, n: int) -> int {
    let c = if cut < min_keep { min_keep } else { cut };
    if c > n { n } else { c }
}

pub fn keep_count(cut: usize, min_keep: usize, n: usize) -> (r: usize)
    ensures
        r as int == keep_count_spec(cut as int, min_keep as int, n as int),
{
    let c = if cut < min_keep { min_keep } else { cut };
    if c > n {
        n
    } else {
        c
    }
}

/// A candidate list: token ids beside the order keys of their logits.
pub struct Candidates {
    pub ids: Vec<i32>,
    pub keys: Vec<i64>,
}

impl Candidates {
    pub open spec fn wf(&self) -> bool {
        self.ids@.len() == self.keys@.len()
    }

    pub open spec fn len_spec(&self) -> nat {
        self.ids@.len()
    }

    /// One candidate per vocabulary entry, with ids `0..keys.len()`.
    pub fn from_keys(keys: Vec<i64>) -> (r: Candidates)
        requires
            keys@.len() <= i32::MAX,
        ensures
            r.wf(),
            r.keys@ == keys@,
            forall|i: int| 0 <= i < keys@.len() ==> r.ids@[i] == i,
    {
        let mut ids: Vec<i32> = Vec::new();
        let mut i: usize = 0;
        while i < keys.len()
            invariant
                i <= keys@.len(),
                keys@.len() <= i32::MAX,
                ids@.len() == i,
                forall|j: int| 0 <= j < i ==> ids@[j] == j,
            decreases keys@.len() - i,
        {
            ids.push(i as i32);
            i = i + 1;
        }
        Candidates { ids, keys }
    }

    pub fn len(&self) -> (r: usize)
        requires
            self.wf(),
        ensures
            r == self.len_spec(),
    {
        self.ids.len()
    }
}

/// A filter that keeps at least one candidate never leaves an empty list
/// and never grows one.
pub proof fn lemma_keep_count_bounds(cut: int, min_keep: int, n: int)
    requires
        n >= 1,
        min_keep >= 1,
    ensures
        1 <= keep_count_spec(cut, min_keep, n) <= n,
{
}

/// Whether position `k` holds the greedy choice: a greatest key, and among
/// the candidates with that key, the lowest id.
pub open spec fn is_greedy_choice(keys: Seq<i64>, ids: Seq<i32>, k: int) -> bool {
    &&& 0 <= k < keys.len()
    &&& forall|j: int| 0 <= j < keys.len() ==> keys[j] <= keys[k]
    &&& forall|j: int| 0 <= j < keys.len() && keys[j] == keys[k] ==> ids[k] <= ids[j]
}

/// Greedy choice over a candidate list: the id of a candidate with the
/// greatest key, the lowest such id on a tie.
pub fn greedy_token(c: &Candidates) -> (r: i32)
    requires
        c.wf(),
        c.len_spec() > 0,
    ensures
        exists|k: int| is_greedy_choice(c.keys@, c.ids@, k) && r == c.ids@[k],
{
    let mut best: usize = 0;
    let mut i: usize = 1;
    while i < c.keys.len()
        invariant
            c.wf(),
            1 <= i <= c.keys@.len(),
            best < i,
            forall|j: int| 0 <= j < i ==> c.keys@[j] <= c.keys@[best as int],
            forall|j: int|
                0 <= j < i && c.keys@[j] == c.keys@[best as int] ==> c.ids@[best as int]
                    <= c.ids@[j],
        decreases c.keys@.len() - i,
    {
        if c.keys[i] > c.keys[best] || (c.keys[i] == c.keys[best] && c.ids[i] < c.ids[best]) {
            best = i;
        }
        i = i + 1;
    }
    c.ids[best]
}

/// The greedy choice is a function of the candidates alone: over the same
/// keys and ids, any two greedy choices name the same token.
pub proof fn lemma_greedy_deterministic(keys: Seq<i64>, ids: Seq<i32>, a: int, b: int)
    requires
        keys.len() == ids.len(),
        is_greedy_choice(keys, ids, a),
        is_greedy_choice(keys, ids, b),
    ensures
        ids[a] == ids[b],
{
    assert(keys[a] <= keys[b] && keys[b] <= keys[a]);
}

/// Over a vocabulary listed in id order, the greedy choice is the first
/// position of the greatest key.
pub proof fn lemma_greedy_in_id_order(keys: Seq<i64>, ids: Seq<i32>, k: int)
    requires
        keys.len() == ids.len(),
        forall|i: int| 0 <= i < ids.len() ==> ids[i] == i,
        is_greedy_choice(keys, ids, k),
    ensures
        ids[k] == k,
        forall|j: int| 0 <= j < k ==> keys[j] < keys[k],
{
    assert forall|j: int| 0 <= j < k implies keys[j] < keys[k] by {
        if keys[j] == keys[k] {
            assert(ids[k] <= ids[j]);
        }
    }
}

/// The integer decisions of one sampling step.
pub struct SamplePlan {
    /// trailing history tokens that the repetition penalties see
    pub window: usize,
    /// `k` of the top-k filter
    pub top_k: i32,
    /// candidates that the top-k filter keeps, at least one
    pub top_k_keep: usize,
    pub strategy: Strategy,
    /// candidate cap of the strategy
    pub cap: Option<i32>,
}

/// Decides, for one sampling step, the repetition window, the top-k bound
/// and the strategy, from the parameters and the sizes at hand.
pub fn plan_step(
    top_k: i32,
    n_vocab: usize,
    repeat_last_n: i32,
    history_len: usize,
    n_ctx: usize,
    temperature_positive: bool,
    mirostat: i32,
) -> (r: SamplePlan)
    requires
        n_vocab <= i32::MAX,
    ensures
        r.window as int == repeat_window_spec(
            history_len as int,
            repeat_last_n as int,
            n_ctx as int,
        ),
        r.top_k == (if top_k <= 0 { n_vocab as i32 } else { top_k }),
        r.top_k_keep as int == keep_count_spec(r.top_k as int, 1, n_vocab as int),
        n_vocab >= 1 ==> 1 <= r.top_k_keep <= n_vocab,
        r.strategy == strategy_spec(temperature_positive, mirostat),
        r.cap == (if r.strategy == Strategy::MirostatV1 { Some(MIROSTAT_M) } else { None::<i32> }),
{
    let strategy = choose_strategy(temperature_positive, mirostat);
    let k = effective_top_k(top_k, n_vocab as i32);
    let top_k_keep = keep_count(k as usize, 1, n_vocab);
    proof {
        if n_vocab >= 1 {
            lemma_keep_count_bounds(k as int, 1, n_vocab as int);
        }
    }
    SamplePlan {
        window: repeat_window(history_len, repeat_last_n, n_ctx),
        top_k: k,
        top_k_keep,
        strategy,
        cap: candidate_cap(strategy),
    }
}

} // verus!
