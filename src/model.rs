//! A return-conditioned sequence model: four embeddings summed and normalized,
//! then three prediction heads; and the inference step that runs it over the
//! trailing window of a trajectory.
use crate::layers::{
    embed_of, embedding, embedding_forward, embedding_shape, layer_norm, layer_norm_forward,
    linear, linear_forward, linear_of, linear_widths, norm_of, norm_width, EmbeddingLayer,
    LinearLayer, NormLayer,
};
use crate::tensor::{
    add3, cat3, cat_of, clone3, cpu_device, dims2_int, dims3, entries2_int, int_entries,
    int_tensor2, int_tensor_of, narrow3, narrow_of, reshape3, reshape_of, shape2, shape2_int,
    shape3, squeeze_middle, squeeze_of, sum_of, zeros3, zeros_of, IntTensor2, Tensor2, Tensor3,
};
use crate::window::{
    context_mask, fed_timesteps, mask_of, plan_window, window_pad, window_real, window_start,
    window_timesteps, ContextWindow,
};
use burn::backend::ndarray::NdArrayDevice;
use vstd::prelude::*;

verus! {

/// One of the inputs of the model.
#[derive(Clone, Copy, Debug, PartialEq, Eq, Structural)]
pub enum Operand {
    States,
    Actions,
    ReturnsToGo,
    Timesteps,
    AttentionMask,
}

/// Why a model could not be built or run.
#[derive(Clone, Copy, Debug, PartialEq, Eq, Structural)]
pub enum ModelError {
    /// A dimension of the model was zero.
    ZeroDimension,
    /// The shape of this input does not fit the model or the inputs before it.
    ShapeMismatch(Operand),
    /// The trajectory holds no step.
    EmptyTrajectory,
    /// The context window was given a length of zero.
    ZeroWindow,
    /// A timestep lies outside `[0, max_ep_len)`.
    TimestepOutOfRange,
}

/// The dimensions a model was built with.
#[derive(Clone, Copy, Debug, PartialEq, Eq, Structural)]
pub struct ModelDims {
    pub state_dim: usize,
    pub act_dim: usize,
    pub hidden_size: usize,
    pub max_ep_len: usize,
}

/// Every timestep indexes a row of a table of `max_ep_len` rows.
pub open spec fn timesteps_in_range(ts: Seq<i64>, max_ep_len: nat) -> bool {
    forall|i: int| 0 <= i < ts.len() ==> 0 <= #[trigger] ts[i] < max_ep_len
}

/// `x` is `[b, s, width]` where `s` (the states' shape) is `[b, s, ..]`.
pub open spec fn same_steps(x: Seq<usize>, s: Seq<usize>, width: usize) -> bool {
    x.len() == 3 && x[0] == s[0] && x[1] == s[1] && x[2] == width
}

/// The first input whose shape `forward` refuses, if any. Accepted are states
/// `[b, s, state_dim]` with `s` positive (the backend cannot multiply empty
/// matrices), actions `[b, s, act_dim]`,
/// returns-to-go `[b, s, 1]`, timesteps `[b, s]` and, if present, a mask `[b, s]`.
pub open spec fn forward_shape_error(
    d: ModelDims,
    s: Seq<usize>,
    a: Seq<usize>,
    r: Seq<usize>,
    t: Seq<usize>,
    mask: Option<Seq<usize>>,
) -> Option<Operand> {
    if !(s.len() == 3 && s[1] > 0 && s[2] == d.state_dim) {
        Some(Operand::States)
    } else if !same_steps(a, s, d.act_dim) {
        Some(Operand::Actions)
    } else if !same_steps(r, s, 1) {
        Some(Operand::ReturnsToGo)
    } else if !(t.len() == 2 && t[0] == s[0] && t[1] == s[1]) {
        Some(Operand::Timesteps)
    } else if mask.is_some() && !(mask.unwrap().len() == 2 && mask.unwrap()[0] == s[0]
        && mask.unwrap()[1] == s[1]) {
        Some(Operand::AttentionMask)
    } else {
        None
    }
}

/// Shape of an optional mask.
pub open spec fn mask_shape(mask: Option<IntTensor2>) -> Option<Seq<usize>> {
    match mask {
        Some(m) => Some(shape2_int(m)),
        None => None,
    }
}

/// The error `forward` reports, if any.
pub open spec fn forward_error(
    d: ModelDims,
    s: Seq<usize>,
    a: Seq<usize>,
    r: Seq<usize>,
    t: Seq<usize>,
    mask: Option<Seq<usize>>,
    ts: Seq<i64>,
) -> Option<ModelError> {
    match forward_shape_error(d, s, a, r, t, mask) {
        Some(op) => Some(ModelError::ShapeMismatch(op)),
        None => if !timesteps_in_range(ts, d.max_ep_len as nat) {
            Some(ModelError::TimestepOutOfRange)
        } else {
            None
        },
    }
}

/// The first input whose shape `get_action` refuses, if any. A trajectory of
/// `L` steps is accepted as states `[L, 1, state_dim]`, actions
/// `[L, 1, act_dim]`, returns-to-go `[L, 1, 1]` and timesteps `[L, 1]`.
pub open spec fn trajectory_shape_error(
    d: ModelDims,
    s: Seq<usize>,
    a: Seq<usize>,
    r: Seq<usize>,
    t: Seq<usize>,
) -> Option<Operand> {
    if !(s.len() == 3 && s[1] == 1 && s[2] == d.state_dim) {
        Some(Operand::States)
    } else if !same_steps(a, s, d.act_dim) {
        Some(Operand::Actions)
    } else if !same_steps(r, s, 1) {
        Some(Operand::ReturnsToGo)
    } else if !(t.len() == 2 && t[0] == s[0] && t[1] == 1) {
        Some(Operand::Timesteps)
    } else {
        None
    }
}

/// The error `get_action` reports, if any.
pub open spec fn get_action_error(
    d: ModelDims,
    s: Seq<usize>,
    a: Seq<usize>,
    r: Seq<usize>,
    t: Seq<usize>,
    ts: Seq<i64>,
    max_length: Option<usize>,
) -> Option<ModelError> {
    match trajectory_shape_error(d, s, a, r, t) {
        Some(op) => Some(ModelError::ShapeMismatch(op)),
        None => if s[0] == 0 {
            Some(ModelError::EmptyTrajectory)
        } else if max_length == Some(0usize) {
            Some(ModelError::ZeroWindow)
        } else if !timesteps_in_range(ts, d.max_ep_len as nat) {
            Some(ModelError::TimestepOutOfRange)
        } else {
            None
        },
    }
}

/// Tells whether every timestep lies in `[0, max_ep_len)`.
pub fn check_timesteps(ts: &Vec<i64>, max_ep_len: usize) -> (ok: bool)
    ensures
        ok == timesteps_in_range(ts@, max_ep_len as nat),
{
    let mut i: usize = 0;
    while i < ts.len()
        invariant
            i <= ts@.len(),
            timesteps_in_range(ts@.take(i as int), max_ep_len as nat),
        decreases ts.len() - i,
    {
        if ts[i] < 0 || ts[i] as u64 >= max_ep_len as u64 {
            return false;
        }
        assert(ts@.take(i + 1) =~= ts@.take(i as int).push(ts@[i as int]));
        i = i + 1;
    }
    assert(ts@.take(i as int) =~= ts@);
    true
}

/// The window over a sequence given as `[L, 1, width]`: put in a batch of
/// one, cut to the kept steps when the window starts after the first step, and
/// put behind the placeholder steps, which are zero. Without a cap this is the
/// whole sequence, only reshaped.
pub open spec fn window_seq(t: Tensor3, seq_len: nat, width: usize, max_length: Option<usize>) -> Tensor3 {
    let batched = reshape_of(t, seq![1usize, seq_len as usize, width]);
    let start = window_start(seq_len, max_length);
    let kept = if start == 0 {
        batched
    } else {
        narrow_of(batched, 1, start as usize, window_real(seq_len, max_length) as usize)
    };
    let pad = window_pad(seq_len, max_length);
    if pad == 0 {
        kept
    } else {
        cat_of(zeros_of(seq![1usize, pad as usize, width]), kept, 1)
    }
}

/// Without a cap the model is handed the whole sequence, only put in a batch
/// of one.
pub proof fn lemma_uncapped_window_seq(t: Tensor3, seq_len: nat, width: usize)
    ensures
        window_seq(t, seq_len, width, None) == reshape_of(t, seq![1usize, seq_len as usize, width]),
{
}

/// Builds `window_seq(t, seq_len, width, max_length)` for the window `w`.
fn window_steps(t: Tensor3, seq_len: usize, width: usize, w: ContextWindow, max_length: Option<usize>) -> (r: Tensor3)
    requires
        shape3(t) == seq![seq_len, 1usize, width],
        width > 0,
        w.is_plan_for(seq_len as nat, max_length),
        w.start + w.real_len == seq_len,
        w.real_len > 0,
        w.pad + w.real_len <= usize::MAX,
    ensures
        r == window_seq(t, seq_len as nat, width, max_length),
        shape3(r) == seq![1usize, (w.pad + w.real_len) as usize, width],
{
    assert(shape3(t)[0] * shape3(t)[1] * shape3(t)[2] == 1 * seq_len * width) by (nonlinear_arith)
        requires
            shape3(t)[0] == seq_len,
            shape3(t)[1] == 1,
            shape3(t)[2] == width,
    ;
    let batched = reshape3(t, [1, seq_len, width]);
    let kept = if w.start == 0 {
        batched
    } else {
        narrow3(batched, 1, w.start, w.real_len)
    };
    if w.pad == 0 {
        assert(shape3(kept) =~= seq![1usize, (w.pad + w.real_len) as usize, width]);
        kept
    } else {
        let device = cpu_device();
        let zeros = zeros3([1, w.pad, width], &device);
        let r = cat3(zeros, kept, 1);
        assert(shape3(r) =~= seq![1usize, (w.pad + w.real_len) as usize, width]);
        r
    }
}

/// The tensors handed to the model for one prediction.
pub struct WindowInputs {
    pub states: Tensor3,
    pub actions: Tensor3,
    pub returns_to_go: Tensor3,
    pub timesteps: IntTensor2,
    pub attention_mask: Option<IntTensor2>,
}

/// A decision model: embeddings of state, action, return-to-go and timestep,
/// summed and normalized, and one linear head per predicted quantity.
pub struct DecisionTransformer {
    pub embed_timestep: EmbeddingLayer,
    pub embed_return: LinearLayer,
    pub embed_state: LinearLayer,
    pub embed_action: LinearLayer,
    pub embed_ln: NormLayer,
    pub predict_state: LinearLayer,
    pub predict_action: LinearLayer,
    pub predict_return: LinearLayer,
    pub dims: ModelDims,
}

impl View for DecisionTransformer {
    type V = ModelDims;

    open spec fn view(&self) -> ModelDims {
        self.dims
    }
}

impl DecisionTransformer {
    /// Every dimension is positive and every layer has the widths its place
    /// in the model asks for.
    pub open spec fn wf(&self) -> bool {
        let d = self.dims;
        &&& d.state_dim > 0 && d.act_dim > 0 && d.hidden_size > 0 && d.max_ep_len > 0
        &&& embedding_shape(self.embed_timestep) == (d.max_ep_len, d.hidden_size)
        &&& linear_widths(self.embed_return) == (1usize, d.hidden_size)
        &&& linear_widths(self.embed_state) == (d.state_dim, d.hidden_size)
        &&& linear_widths(self.embed_action) == (d.act_dim, d.hidden_size)
        &&& norm_width(self.embed_ln) == d.hidden_size
        &&& linear_widths(self.predict_state) == (d.hidden_size, d.state_dim)
        &&& linear_widths(self.predict_action) == (d.hidden_size, d.act_dim)
        &&& linear_widths(self.predict_return) == (d.hidden_size, 1usize)
    }

    /// The four embeddings summed element-wise, then normalized.
    pub open spec fn fused(&self, states: Tensor3, actions: Tensor3, returns_to_go: Tensor3, timesteps: IntTensor2) -> Tensor3 {
        let sum = sum_of(
            sum_of(
                sum_of(linear_of(self.embed_state, states), embed_of(self.embed_timestep, timesteps)),
                linear_of(self.embed_action, actions),
            ),
            linear_of(self.embed_return, returns_to_go),
        );
        norm_of(self.embed_ln, sum)
    }

    /// The three heads applied to one shared representation: predicted
    /// states, actions and returns-to-go.
    pub open spec fn heads(&self, h: Tensor3) -> (Tensor3, Tensor3, Tensor3) {
        (linear_of(self.predict_state, h), linear_of(self.predict_action, h), linear_of(self.predict_return, h))
    }

    /// What `forward` predicts; the attention mask plays no part in it.
    pub open spec fn predict(&self, states: Tensor3, actions: Tensor3, returns_to_go: Tensor3, timesteps: IntTensor2) -> (Tensor3, Tensor3, Tensor3) {
        self.heads(self.fused(states, actions, returns_to_go, timesteps))
    }

    /// The inputs `window_inputs` builds: the windows of the three sequences
    /// and the tensor `[1, n]` of the window's timesteps.
    pub open spec fn window_of(&self, states: Tensor3, actions: Tensor3, returns_to_go: Tensor3, timesteps: IntTensor2, max_length: Option<usize>) -> (Tensor3, Tensor3, Tensor3, IntTensor2) {
        let len = shape3(states)[0] as nat;
        let n = window_pad(len, max_length) + window_real(len, max_length);
        (
            window_seq(states, len, self.dims.state_dim, max_length),
            window_seq(actions, len, self.dims.act_dim, max_length),
            window_seq(returns_to_go, len, 1, max_length),
            int_tensor_of(fed_timesteps(entries2_int(timesteps), max_length), 1, n as usize),
        )
    }

    /// The action `get_action` returns: the action predicted on the window at
    /// its last position, with the position dimension dropped.
    pub open spec fn last_action(&self, states: Tensor3, actions: Tensor3, returns_to_go: Tensor3, timesteps: IntTensor2, max_length: Option<usize>) -> Tensor2 {
        let w = self.window_of(states, actions, returns_to_go, timesteps, max_length);
        let len = shape3(states)[0] as nat;
        let n = window_pad(len, max_length) + window_real(len, max_length);
        squeeze_of(narrow_of(self.predict(w.0, w.1, w.2, w.3).1, 1, (n - 1) as usize, 1))
    }

    /// Builds a model with freshly initialized parameters; fails when a
    /// dimension is zero.
    pub fn new(
        device: &NdArrayDevice,
        state_dim: usize,
        act_dim: usize,
        hidden_size: usize,
        max_ep_len: usize,
    ) -> (r: Result<DecisionTransformer, ModelError>)
        ensures
            (state_dim == 0 || act_dim == 0 || hidden_size == 0 || max_ep_len == 0)
                <==> r == Err::<DecisionTransformer, ModelError>(ModelError::ZeroDimension),
            (state_dim > 0 && act_dim > 0 && hidden_size > 0 && max_ep_len > 0) ==> r is Ok,
            r is Ok ==> r->Ok_0.wf() && r->Ok_0@ == (ModelDims { state_dim, act_dim, hidden_size, max_ep_len }),
    {
        if state_dim == 0 || act_dim == 0 || hidden_size == 0 || max_ep_len == 0 {
            return Err(ModelError::ZeroDimension);
        }
        Ok(DecisionTransformer {
            embed_timestep: embedding(max_ep_len, hidden_size, device),
            embed_return: linear(1, hidden_size, device),
            embed_state: linear(state_dim, hidden_size, device),
            embed_action: linear(act_dim, hidden_size, device),
            embed_ln: layer_norm(hidden_size, device),
            predict_state: linear(hidden_size, state_dim, device),
            predict_action: linear(hidden_size, act_dim, device),
            predict_return: linear(hidden_size, 1, device),
            dims: ModelDims { state_dim, act_dim, hidden_size, max_ep_len },
        })
    }

    /// The dimensions the model was built with.
    pub fn dims(&self) -> (d: ModelDims)
        ensures
            d == self@,
    {
        self.dims
    }

    /// Predicts, for every position of the input, a state, an action and a
    /// return-to-go: the result is `predict` of the four sequences, so equal
    /// inputs give equal predictions. The mask is checked for shape and
    /// otherwise not used: it plays no part in the result.
    pub fn forward(
        &self,
        states: Tensor3,
        actions: Tensor3,
        returns_to_go: Tensor3,
        timesteps: IntTensor2,
        attention_mask: Option<IntTensor2>,
    ) -> (r: Result<(Tensor3, Tensor3, Tensor3), ModelError>)
        requires
            self.wf(),
        ensures
            ({
                let err = forward_error(
                    self@,
                    shape3(states),
                    shape3(actions),
                    shape3(returns_to_go),
                    shape2_int(timesteps),
                    mask_shape(attention_mask),
                    entries2_int(timesteps),
                );
                match r {
                    Ok((sp, ap, rp)) => {
                        &&& err is None
                        &&& (sp, ap, rp) == self.predict(states, actions, returns_to_go, timesteps)
                        &&& shape3(sp) == seq![shape3(states)[0], shape3(states)[1], self@.state_dim]
                        &&& shape3(ap) == seq![shape3(states)[0], shape3(states)[1], self@.act_dim]
                        &&& shape3(rp) == seq![shape3(states)[0], shape3(states)[1], 1usize]
                    },
                    Err(e) => err == Some(e),
                }
            }),
    {
        let sd = dims3(&states);
        let ad = dims3(&actions);
        let rd = dims3(&returns_to_go);
        let td = dims2_int(&timesteps);
        let mask_ok = match &attention_mask {
            Some(m) => {
                let md = dims2_int(m);
                md[0] == sd[0] && md[1] == sd[1]
            },
            None => true,
        };
        let d = self.dims;
        if !(sd[1] > 0 && sd[2] == d.state_dim) {
            return Err(ModelError::ShapeMismatch(Operand::States));
        }
        if !(ad[0] == sd[0] && ad[1] == sd[1] && ad[2] == d.act_dim) {
            return Err(ModelError::ShapeMismatch(Operand::Actions));
        }
        if !(rd[0] == sd[0] && rd[1] == sd[1] && rd[2] == 1) {
            return Err(ModelError::ShapeMismatch(Operand::ReturnsToGo));
        }
        if !(td[0] == sd[0] && td[1] == sd[1]) {
            return Err(ModelError::ShapeMismatch(Operand::Timesteps));
        }
        if !mask_ok {
            return Err(ModelError::ShapeMismatch(Operand::AttentionMask));
        }
        let ts = int_entries(&timesteps);
        if !check_timesteps(&ts, d.max_ep_len) {
            return Err(ModelError::TimestepOutOfRange);
        }
        let state_embeddings = linear_forward(&self.embed_state, states);
        let action_embeddings = linear_forward(&self.embed_action, actions);
        let returns_embeddings = linear_forward(&self.embed_return, returns_to_go);
        let time_embeddings = embedding_forward(&self.embed_timestep, timesteps);

        assert(shape3(state_embeddings) =~= shape3(time_embeddings));
        assert(shape3(state_embeddings) =~= shape3(action_embeddings));
        assert(shape3(state_embeddings) =~= shape3(returns_embeddings));
        let stacked = add3(state_embeddings, time_embeddings);
        let stacked = add3(stacked, action_embeddings);
        let stacked = add3(stacked, returns_embeddings);
        let stacked = layer_norm_forward(&self.embed_ln, stacked);

        let return_preds = linear_forward(&self.predict_return, clone3(&stacked));
        let state_preds = linear_forward(&self.predict_state, clone3(&stacked));
        let action_preds = linear_forward(&self.predict_action, stacked);
        Ok((state_preds, action_preds, return_preds))
    }

    /// Prepares one prediction over a trajectory of `L` steps: the sequences
    /// are put in a batch of one; without a cap they are kept whole and no
    /// mask is built; with a cap `m` the last `min(L, m)` steps are kept,
    /// behind `m - L` zero steps when `L < m`, and the mask marks the real steps.
    pub fn window_inputs(
        &self,
        states: Tensor3,
        actions: Tensor3,
        returns_to_go: Tensor3,
        timesteps: IntTensor2,
        max_length: Option<usize>,
    ) -> (r: Result<WindowInputs, ModelError>)
        requires
            self.wf(),
        ensures
            ({
                let err = get_action_error(
                    self@,
                    shape3(states),
                    shape3(actions),
                    shape3(returns_to_go),
                    shape2_int(timesteps),
                    entries2_int(timesteps),
                    max_length,
                );
                let ts = entries2_int(timesteps);
                let n = window_pad(ts.len(), max_length) + window_real(ts.len(), max_length);
                match r {
                    Ok(w) => {
                        &&& err is None
                        &&& ts.len() == shape3(states)[0]
                        &&& 0 < n <= usize::MAX
                        &&& (w.states, w.actions, w.returns_to_go, w.timesteps)
                            == self.window_of(states, actions, returns_to_go, timesteps, max_length)
                        &&& shape3(w.states) == seq![1usize, n as usize, self@.state_dim]
                        &&& shape3(w.actions) == seq![1usize, n as usize, self@.act_dim]
                        &&& shape3(w.returns_to_go) == seq![1usize, n as usize, 1usize]
                        &&& shape2_int(w.timesteps) == seq![1usize, n as usize]
                        &&& entries2_int(w.timesteps) == fed_timesteps(ts, max_length)
                        &&& timesteps_in_range(entries2_int(w.timesteps), self@.max_ep_len as nat)
                        &&& (w.attention_mask is None <==> max_length is None)
                        &&& (w.attention_mask matches Some(m) ==> {
                            &&& m == int_tensor_of(
                                mask_of(window_pad(ts.len(), max_length), window_real(ts.len(), max_length)),
                                1,
                                n as usize,
                            )
                            &&& shape2_int(m) == seq![1usize, n as usize]
                            &&& entries2_int(m) == mask_of(
                                window_pad(ts.len(), max_length),
                                window_real(ts.len(), max_length),
                            )
                        })
                    },
                    Err(e) => err == Some(e),
                }
            }),
    {
        let sd = dims3(&states);
        let ad = dims3(&actions);
        let rd = dims3(&returns_to_go);
        let td = dims2_int(&timesteps);
        let d = self.dims;
        if !(sd[1] == 1 && sd[2] == d.state_dim) {
            return Err(ModelError::ShapeMismatch(Operand::States));
        }
        if !(ad[0] == sd[0] && ad[1] == 1 && ad[2] == d.act_dim) {
            return Err(ModelError::ShapeMismatch(Operand::Actions));
        }
        if !(rd[0] == sd[0] && rd[1] == 1 && rd[2] == 1) {
            return Err(ModelError::ShapeMismatch(Operand::ReturnsToGo));
        }
        if !(td[0] == sd[0] && td[1] == 1) {
            return Err(ModelError::ShapeMismatch(Operand::Timesteps));
        }
        let seq_len = sd[0];
        if seq_len == 0 {
            return Err(ModelError::EmptyTrajectory);
        }
        if max_length == Some(0usize) {
            return Err(ModelError::ZeroWindow);
        }
        let ts = int_entries(&timesteps);
        assert(ts@.len() == seq_len) by {
            assert(td@[1] == 1usize);
            assert(td@[0] * 1 == td@[0]);
        }
        if !check_timesteps(&ts, d.max_ep_len) {
            return Err(ModelError::TimestepOutOfRange);
        }

        assert(shape3(states) =~= seq![seq_len, 1usize, d.state_dim]);
        assert(shape3(actions) =~= seq![seq_len, 1usize, d.act_dim]);
        assert(shape3(returns_to_go) =~= seq![seq_len, 1usize, 1usize]);
        let w = plan_window(seq_len, max_length);
        let states = window_steps(states, seq_len, d.state_dim, w, max_length);
        let actions = window_steps(actions, seq_len, d.act_dim, w, max_length);
        let returns_to_go = window_steps(returns_to_go, seq_len, 1, w, max_length);

        let fed = window_timesteps(&ts, max_length);
        let fed_len = fed.len();
        assert(fed_len == w.pad + w.real_len);
        assert(timesteps_in_range(fed@, d.max_ep_len as nat)) by {
            assert forall|j: int| 0 <= j < fed@.len() implies 0 <= #[trigger] fed@[j] < d.max_ep_len by {
                assert(fed@[j] == fed_timesteps(ts@, max_length)[j]);
            }
        }
        let device = cpu_device();
        let timesteps = int_tensor2(fed, 1, fed_len, &device);
        let attention_mask = match context_mask(seq_len, max_length) {
            Some(mask) => {
                let mask_len = mask.len();
                Some(int_tensor2(mask, 1, mask_len, &device))
            },
            None => None,
        };
        Ok(WindowInputs { states, actions, returns_to_go, timesteps, attention_mask })
    }

    /// Predicts the next action of a trajectory: runs the model on the inputs
    /// that `window_inputs` prepares and returns the action predicted at the
    /// last position, which holds the trajectory's last step.
    pub fn get_action(
        &self,
        states: Tensor3,
        actions: Tensor3,
        returns_to_go: Tensor3,
        timesteps: IntTensor2,
        max_length: Option<usize>,
    ) -> (r: Result<Tensor2, ModelError>)
        requires
            self.wf(),
        ensures
            ({
                let err = get_action_error(
                    self@,
                    shape3(states),
                    shape3(actions),
                    shape3(returns_to_go),
                    shape2_int(timesteps),
                    entries2_int(timesteps),
                    max_length,
                );
                match r {
                    Ok(action) => {
                        &&& err is None
                        &&& entries2_int(timesteps).len() == shape3(states)[0]
                        &&& action == self.last_action(states, actions, returns_to_go, timesteps, max_length)
                        &&& shape2(action) == seq![1usize, self@.act_dim]
                    },
                    Err(e) => err == Some(e),
                }
            }),
    {
        let w = match self.window_inputs(states, actions, returns_to_go, timesteps, max_length) {
            Ok(w) => w,
            Err(e) => return Err(e),
        };
        let n = dims3(&w.states)[1];
        match self.forward(w.states, w.actions, w.returns_to_go, w.timesteps, w.attention_mask) {
            Ok((_, action_preds, _)) => {
                let last = narrow3(action_preds, 1, n - 1, 1);
                Ok(squeeze_middle(last))
            },
            Err(e) => Err(e),
        }
    }
}

} // verus!
