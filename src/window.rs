//! The rolling context window used at inference time: which trailing steps of
//! a trajectory reach the model, how many placeholder steps precede them, and
//! the attention mask that marks the two apart.
use vstd::prelude::*;

verus! {

/// Index of the first trajectory step that takes part in a prediction.
pub open spec fn window_start(seq_len: nat, max_length: Option<usize>) -> nat {
    match max_length {
        Some(m) => if seq_len > m { (seq_len - m) as nat } else { 0 },
        None => 0,
    }
}

/// Number of real (not placeholder) steps handed to the model.
pub open spec fn window_real(seq_len: nat, max_length: Option<usize>) -> nat {
    (seq_len - window_start(seq_len, max_length)) as nat
}

/// Number of placeholder steps put in front of the real ones.
pub open spec fn window_pad(seq_len: nat, max_length: Option<usize>) -> nat {
    match max_length {
        Some(m) => if seq_len < m { (m - seq_len) as nat } else { 0 },
        None => 0,
    }
}

/// A left-padded mask: `pad` zeros followed by `n_real` ones.
pub open spec fn mask_of(pad: nat, n_real: nat) -> Seq<i64> {
    Seq::new(pad + n_real, |i: int| if i < pad { 0i64 } else { 1i64 })
}

/// Where the step at position `j` of the model's input comes from: `None` for a
/// placeholder, `Some(i)` for step `i` of the trajectory.
pub open spec fn source_of(seq_len: nat, max_length: Option<usize>, j: nat) -> Option<nat> {
    let pad = window_pad(seq_len, max_length);
    if j < pad {
        None
    } else {
        Some((window_start(seq_len, max_length) + j - pad) as nat)
    }
}

/// The part of a trajectory of `seq_len` steps that one prediction sees.
#[derive(Clone, Copy, Debug, PartialEq, Eq, Structural)]
pub struct ContextWindow {
    /// First trajectory step kept.
    pub start: usize,
    /// Number of trajectory steps kept.
    pub real_len: usize,
    /// Number of placeholder steps in front of them.
    pub pad: usize,
}

impl ContextWindow {
    /// Length of the sequence handed to the model.
    pub open spec fn fed_len(self) -> nat {
        (self.pad + self.real_len) as nat
    }

    /// The window that `plan_window` computes for these arguments.
    pub open spec fn is_plan_for(self, seq_len: nat, max_length: Option<usize>) -> bool {
        &&& self.start == window_start(seq_len, max_length)
        &&& self.real_len == window_real(seq_len, max_length)
        &&& self.pad == window_pad(seq_len, max_length)
    }
}

/// Plans the window: with no cap every step is kept and nothing is padded;
/// with a cap `m` the last `min(seq_len, m)` steps are kept and, when fewer
/// than `m` steps exist, placeholders fill the front up to `m`.
pub fn plan_window(seq_len: usize, max_length: Option<usize>) -> (w: ContextWindow)
    ensures
        w.is_plan_for(seq_len as nat, max_length),
        w.start + w.real_len == seq_len,
        max_length.is_none() ==> w.start == 0 && w.real_len == seq_len && w.pad == 0,
        max_length.is_some() ==> w.fed_len() == max_length.unwrap(),
{
    match max_length {
        Some(m) => {
            let start = seq_len.saturating_sub(m);
            let pad = m.saturating_sub(seq_len);
            ContextWindow { start, real_len: seq_len - start, pad }
        },
        None => ContextWindow { start: 0, real_len: seq_len, pad: 0 },
    }
}

/// The attention mask for a capped window: one entry per position of the
/// model's input, 0 for a placeholder and 1 for a real step.
pub fn attention_mask(seq_len: usize, max_length: usize) -> (mask: Vec<i64>)
    ensures
        mask@ == mask_of(
            window_pad(seq_len as nat, Some(max_length)),
            window_real(seq_len as nat, Some(max_length)),
        ),
        mask@.len() == max_length,
{
    let w = plan_window(seq_len, Some(max_length));
    let mut mask: Vec<i64> = Vec::new();
    let mut i: usize = 0;
    while i < max_length
        invariant
            w.is_plan_for(seq_len as nat, Some(max_length)),
            w.pad + w.real_len == max_length,
            i <= max_length,
            mask@ =~= mask_of(w.pad as nat, w.real_len as nat).take(i as int),
        decreases max_length - i,
    {
        if i < w.pad {
            mask.push(0);
        } else {
            mask.push(1);
        }
        i = i + 1;
    }
    mask
}

/// The mask for an optional cap: none without a cap.
pub fn context_mask(seq_len: usize, max_length: Option<usize>) -> (mask: Option<Vec<i64>>)
    ensures
        max_length.is_none() <==> mask.is_none(),
        mask.is_some() ==> mask.unwrap()@ == mask_of(
            window_pad(seq_len as nat, max_length),
            window_real(seq_len as nat, max_length),
        ),
{
    match max_length {
        Some(m) => Some(attention_mask(seq_len, m)),
        None => None,
    }
}

/// The timesteps handed to the model: a 0 for each placeholder, then the
/// timesteps of the kept steps in order.
pub open spec fn fed_timesteps(ts: Seq<i64>, max_length: Option<usize>) -> Seq<i64> {
    Seq::new(
        window_pad(ts.len(), max_length) + window_real(ts.len(), max_length),
        |j: int|
            match source_of(ts.len(), max_length, j as nat) {
                Some(i) => ts[i as int],
                None => 0i64,
            },
    )
}

/// Builds the timestep sequence of the window over `ts`.
pub fn window_timesteps(ts: &Vec<i64>, max_length: Option<usize>) -> (r: Vec<i64>)
    ensures
        r@ == fed_timesteps(ts@, max_length),
{
    let w = plan_window(ts.len(), max_length);
    let mut r: Vec<i64> = Vec::new();
    let mut j: usize = 0;
    while j < w.pad
        invariant
            w.is_plan_for(ts@.len(), max_length),
            w.start + w.real_len == ts@.len(),
            j <= w.pad,
            r@ =~= fed_timesteps(ts@, max_length).take(j as int),
        decreases w.pad - j,
    {
        r.push(0);
        j = j + 1;
    }
    let mut i: usize = w.start;
    while i < ts.len()
        invariant
            w.is_plan_for(ts@.len(), max_length),
            w.start + w.real_len == ts@.len(),
            w.start <= i <= ts@.len(),
            r@ =~= fed_timesteps(ts@, max_length).take(w.pad + i - w.start),
        decreases ts.len() - i,
    {
        r.push(ts[i]);
        i = i + 1;
    }
    assert(r@ =~= fed_timesteps(ts@, max_length));
    r
}

/// Without a cap the model sees the whole trajectory, unpadded and in order.
pub proof fn lemma_uncapped_window_is_whole(ts: Seq<i64>)
    ensures
        window_start(ts.len(), None) == 0,
        window_pad(ts.len(), None) == 0,
        window_real(ts.len(), None) == ts.len(),
        fed_timesteps(ts, None) == ts,
        forall|j: nat| j < ts.len() ==> source_of(ts.len(), None, j) == Some(j),
{
    assert(fed_timesteps(ts, None) =~= ts);
}

/// With a cap `m` at least the trajectory's length `L`, the mask is `m - L`
/// zeros followed by `L` ones, and the trajectory follows the placeholders whole.
pub proof fn lemma_short_trajectory_mask(seq_len: nat, m: usize)
    requires
        seq_len <= m,
    ensures
        window_pad(seq_len, Some(m)) == m - seq_len,
        window_real(seq_len, Some(m)) == seq_len,
        mask_of(window_pad(seq_len, Some(m)), window_real(seq_len, Some(m))).len() == m,
        forall|i: int| 0 <= i < m - seq_len
            ==> #[trigger] mask_of(window_pad(seq_len, Some(m)), window_real(seq_len, Some(m)))[i] == 0,
        forall|i: int| m - seq_len <= i < m
            ==> #[trigger] mask_of(window_pad(seq_len, Some(m)), window_real(seq_len, Some(m)))[i] == 1,
        forall|j: nat| m - seq_len <= j < m
            ==> source_of(seq_len, Some(m), j) == Some((j - (m - seq_len)) as nat),
{
}

/// With a cap `m` below the trajectory's length `L`, only the last `m` steps
/// reach the model, nothing is padded, and the mask is all ones.
pub proof fn lemma_long_trajectory_window(ts: Seq<i64>, m: usize)
    requires
        ts.len() > m,
    ensures
        window_start(ts.len(), Some(m)) == ts.len() - m,
        window_pad(ts.len(), Some(m)) == 0,
        fed_timesteps(ts, Some(m)) == ts.subrange(ts.len() - m, ts.len() as int),
        mask_of(window_pad(ts.len(), Some(m)), window_real(ts.len(), Some(m)))
            == Seq::new(m as nat, |i: int| 1i64),
        forall|j: nat| j < m ==> source_of(ts.len(), Some(m), j) == Some((ts.len() - m + j) as nat),
{
    assert(fed_timesteps(ts, Some(m)) =~= ts.subrange(ts.len() - m, ts.len() as int));
    assert(mask_of(window_pad(ts.len(), Some(m)), window_real(ts.len(), Some(m)))
        =~= Seq::new(m as nat, |i: int| 1i64));
}

/// The last position handed to the model holds the trajectory's last step,
/// whether or not a cap is set, provided the trajectory and the window are
/// not empty.
pub proof fn lemma_last_position_is_last_step(seq_len: nat, max_length: Option<usize>)
    requires
        seq_len > 0,
        max_length != Some(0usize),
    ensures
        window_pad(seq_len, max_length) + window_real(seq_len, max_length) > 0,
        source_of(
            seq_len,
            max_length,
            (window_pad(seq_len, max_length) + window_real(seq_len, max_length) - 1) as nat,
        ) == Some((seq_len - 1) as nat),
{
}

} // verus!
