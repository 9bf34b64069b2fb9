use burn::backend::ndarray::NdArrayDevice;
use burn::backend::NdArray;
use burn::tensor::{Int, Tensor, TensorData};
use study::encoder::encode_test;
use study::model::{DecisionTransformer, ModelError, Operand};
use study::tensor::{IntTensor2, Tensor3};
use study::window::{attention_mask, plan_window, ContextWindow};

fn floats(values: Vec<f32>, dims: [usize; 3]) -> Tensor3 {
    Tensor3 { inner: Tensor::<NdArray, 3>::from_data(TensorData::new(values, dims), &NdArrayDevice::Cpu) }
}

fn ints(values: Vec<i64>, dims: [usize; 2]) -> IntTensor2 {
    IntTensor2 {
        inner: Tensor::<NdArray, 2, Int>::from_data(TensorData::new(values, dims), &NdArrayDevice::Cpu),
    }
}

fn model() -> DecisionTransformer {
    DecisionTransformer::new(&NdArrayDevice::Cpu, 4, 2, 8, 100).unwrap()
}

/// A trajectory of `len` steps in the `[L, 1, width]` layout.
fn trajectory(len: usize) -> (Tensor3, Tensor3, Tensor3, IntTensor2) {
    let states = (0..len * 4).map(|i| i as f32 * 0.1).collect();
    let actions = (0..len * 2).map(|i| i as f32 * -0.2).collect();
    let returns = (0..len).map(|i| 10.0 - i as f32).collect();
    let steps = (0..len as i64).collect();
    (
        floats(states, [len, 1, 4]),
        floats(actions, [len, 1, 2]),
        floats(returns, [len, 1, 1]),
        ints(steps, [len, 1]),
    )
}

#[test]
fn five_steps_with_window_of_three() {
    let m = model();
    assert_eq!(plan_window(5, Some(3)), ContextWindow { start: 2, real_len: 3, pad: 0 });
    assert_eq!(attention_mask(5, 3), vec![1, 1, 1]);
    let (s, a, r, t) = trajectory(5);
    let w = m.window_inputs(s, a, r, t, Some(3)).unwrap();
    assert_eq!(w.states.inner.dims(), [1, 3, 4]);
    assert_eq!(w.actions.inner.dims(), [1, 3, 2]);
    assert_eq!(w.returns_to_go.inner.dims(), [1, 3, 1]);
    assert_eq!(w.timesteps.inner.to_data().to_vec::<i64>().unwrap(), vec![2, 3, 4]);
    let mask = w.attention_mask.unwrap().inner.to_data().to_vec::<i64>().unwrap();
    assert_eq!(mask, vec![1, 1, 1]);
    let kept = w.states.inner.to_data().to_vec::<f32>().unwrap();
    let expected: Vec<f32> = (8..20).map(|i| i as f32 * 0.1).collect();
    assert_eq!(kept, expected);
    let (s, a, r, t) = trajectory(5);
    let action = m.get_action(s, a, r, t, Some(3)).unwrap();
    assert_eq!(action.inner.dims(), [1, 2]);
}

#[test]
fn two_steps_with_window_of_three() {
    let m = model();
    assert_eq!(plan_window(2, Some(3)), ContextWindow { start: 0, real_len: 2, pad: 1 });
    assert_eq!(attention_mask(2, 3), vec![0, 1, 1]);
    let (s, a, r, t) = trajectory(2);
    let w = m.window_inputs(s, a, r, t, Some(3)).unwrap();
    assert_eq!(w.states.inner.dims(), [1, 3, 4]);
    assert_eq!(w.timesteps.inner.to_data().to_vec::<i64>().unwrap(), vec![0, 0, 1]);
    let mask = w.attention_mask.unwrap().inner.to_data().to_vec::<i64>().unwrap();
    assert_eq!(mask, vec![0, 1, 1]);
    let returns = w.returns_to_go.inner.to_data().to_vec::<f32>().unwrap();
    assert_eq!(returns, vec![0.0, 10.0, 9.0]);
    let mut expected: Vec<f32> = vec![0.0; 4];
    expected.extend((0..8).map(|i| i as f32 * 0.1));
    assert_eq!(w.states.inner.to_data().to_vec::<f32>().unwrap(), expected);
    let (s, a, r, t) = trajectory(2);
    let action = m.get_action(s, a, r, t, Some(3)).unwrap();
    assert_eq!(action.inner.dims(), [1, 2]);
}

#[test]
fn uncapped_get_action_returns_one_action() {
    let m = model();
    let (s, a, r, t) = trajectory(7);
    let w = m.window_inputs(s, a, r, t, None).unwrap();
    assert!(w.attention_mask.is_none());
    assert_eq!(w.states.inner.dims(), [1, 7, 4]);
    assert_eq!(w.timesteps.inner.to_data().to_vec::<i64>().unwrap(), (0..7).collect::<Vec<i64>>());
    let (s, a, r, t) = trajectory(7);
    let action = m.get_action(s, a, r, t, None).unwrap();
    assert_eq!(action.inner.dims(), [1, 2]);
}

#[test]
fn single_step_trajectory() {
    let m = model();
    let (s, a, r, t) = trajectory(1);
    assert_eq!(m.get_action(s, a, r, t, Some(4)).unwrap().inner.dims(), [1, 2]);
}

#[test]
fn window_only_sees_last_steps() {
    // The oldest step differs; with a window of three it is never seen.
    let m = model();
    let (s1, a1, r1, t1) = trajectory(5);
    let mut states: Vec<f32> = (0..20).map(|i| i as f32 * 0.1).collect();
    states[0] = 50.0;
    let (_, a2, r2, t2) = trajectory(5);
    let s2 = floats(states, [5, 1, 4]);
    let x = m.get_action(s1, a1, r1, t1, Some(3)).unwrap().inner.into_data();
    let y = m.get_action(s2, a2, r2, t2, Some(3)).unwrap().inner.into_data();
    assert_eq!(x, y);
}

#[test]
fn forward_keeps_steps_and_widths() {
    let m = model();
    let states = floats(vec![0.5; 2 * 3 * 4], [2, 3, 4]);
    let actions = floats(vec![0.25; 2 * 3 * 2], [2, 3, 2]);
    let returns = floats(vec![1.0; 2 * 3], [2, 3, 1]);
    let steps = ints(vec![0, 1, 2, 5, 6, 7], [2, 3]);
    let (sp, ap, rp) = m.forward(states, actions, returns, steps, None).unwrap();
    assert_eq!(sp.inner.dims(), [2, 3, 4]);
    assert_eq!(ap.inner.dims(), [2, 3, 2]);
    assert_eq!(rp.inner.dims(), [2, 3, 1]);
}

#[test]
fn forward_is_deterministic() {
    let m = model();
    let run = |m: &DecisionTransformer| {
        let states = floats((0..12).map(|i| i as f32).collect(), [1, 3, 4]);
        let actions = floats(vec![0.1, 0.2, 0.3, 0.4, 0.5, 0.6], [1, 3, 2]);
        let returns = floats(vec![3.0, 2.0, 1.0], [1, 3, 1]);
        let steps = ints(vec![0, 1, 2], [1, 3]);
        let mask = Some(ints(vec![1, 1, 1], [1, 3]));
        let (sp, ap, rp) = m.forward(states, actions, returns, steps, mask).unwrap();
        (sp.inner.into_data(), ap.inner.into_data(), rp.inner.into_data())
    };
    assert_eq!(run(&m), run(&m));
}

#[test]
fn zero_dimension_is_refused() {
    assert_eq!(DecisionTransformer::new(&NdArrayDevice::Cpu, 0, 2, 8, 100).err(), Some(ModelError::ZeroDimension));
    assert_eq!(DecisionTransformer::new(&NdArrayDevice::Cpu, 4, 2, 8, 0).err(), Some(ModelError::ZeroDimension));
    assert_eq!(model().dims().hidden_size, 8);
}

#[test]
fn forward_rejects_wrong_width() {
    let m = model();
    let states = floats(vec![0.0; 3 * 5], [1, 3, 5]);
    let actions = floats(vec![0.0; 3 * 2], [1, 3, 2]);
    let returns = floats(vec![0.0; 3], [1, 3, 1]);
    let steps = ints(vec![0, 1, 2], [1, 3]);
    assert_eq!(
        m.forward(states, actions, returns, steps, None).err(),
        Some(ModelError::ShapeMismatch(Operand::States))
    );
}

#[test]
fn forward_rejects_mask_of_wrong_width() {
    let m = model();
    let states = floats(vec![0.0; 3 * 4], [1, 3, 4]);
    let actions = floats(vec![0.0; 3 * 2], [1, 3, 2]);
    let returns = floats(vec![0.0; 3], [1, 3, 1]);
    let steps = ints(vec![0, 1, 2], [1, 3]);
    let mask = Some(ints(vec![1, 1], [1, 2]));
    assert_eq!(
        m.forward(states, actions, returns, steps, mask).err(),
        Some(ModelError::ShapeMismatch(Operand::AttentionMask))
    );
}

#[test]
fn forward_rejects_timestep_out_of_range() {
    let m = model();
    let states = floats(vec![0.0; 2 * 4], [1, 2, 4]);
    let actions = floats(vec![0.0; 2 * 2], [1, 2, 2]);
    let returns = floats(vec![0.0; 2], [1, 2, 1]);
    let steps = ints(vec![0, 100], [1, 2]);
    assert_eq!(m.forward(states, actions, returns, steps, None).err(), Some(ModelError::TimestepOutOfRange));
}

#[test]
fn get_action_rejects_mismatched_lengths() {
    let m = model();
    let (s, _, r, t) = trajectory(3);
    let (_, a, _, _) = trajectory(2);
    assert_eq!(
        m.get_action(s, a, r, t, Some(3)).err(),
        Some(ModelError::ShapeMismatch(Operand::Actions))
    );
}

#[test]
fn get_action_rejects_empty_trajectory() {
    let m = model();
    let (s, a, r, t) = trajectory(0);
    assert_eq!(m.get_action(s, a, r, t, Some(3)).err(), Some(ModelError::EmptyTrajectory));
}

#[test]
fn get_action_rejects_zero_window() {
    let m = model();
    let (s, a, r, t) = trajectory(3);
    assert_eq!(m.get_action(s, a, r, t, Some(0)).err(), Some(ModelError::ZeroWindow));
}

#[test]
fn get_action_rejects_negative_timestep() {
    let m = model();
    let (s, a, r, _) = trajectory(2);
    let t = ints(vec![-1, 0], [2, 1]);
    assert_eq!(m.get_action(s, a, r, t, None).err(), Some(ModelError::TimestepOutOfRange));
}

#[test]
fn encoder_keeps_shape() {
    let (input, output) = encode_test();
    assert_eq!(input.inner.dims(), [2, 5, 64]);
    assert_eq!(output.inner.dims(), [2, 5, 64]);
}

#[test]
fn forward_rejects_timesteps_of_other_length() {
    let m = model();
    let states = floats(vec![0.0; 3 * 4], [1, 3, 4]);
    let actions = floats(vec![0.0; 3 * 2], [1, 3, 2]);
    let returns = floats(vec![0.0; 3], [1, 3, 1]);
    let steps = ints(vec![0, 1], [1, 2]);
    assert_eq!(
        m.forward(states, actions, returns, steps, None).err(),
        Some(ModelError::ShapeMismatch(Operand::Timesteps))
    );
}

#[test]
fn get_action_rejects_wide_returns() {
    let m = model();
    let (s, a, _, t) = trajectory(2);
    let r = floats(vec![1.0; 4], [2, 1, 2]);
    assert_eq!(
        m.get_action(s, a, r, t, None).err(),
        Some(ModelError::ShapeMismatch(Operand::ReturnsToGo))
    );
}

#[test]
fn get_action_rejects_batched_states() {
    let m = model();
    let (_, a, r, t) = trajectory(2);
    let s = floats(vec![0.0; 16], [2, 2, 4]);
    assert_eq!(
        m.get_action(s, a, r, t, None).err(),
        Some(ModelError::ShapeMismatch(Operand::States))
    );
}

#[test]
fn forward_rejects_empty_sequence() {
    let m = model();
    let states = floats(vec![], [1, 0, 4]);
    let actions = floats(vec![], [1, 0, 2]);
    let returns = floats(vec![], [1, 0, 1]);
    let steps = ints(vec![], [1, 0]);
    assert_eq!(
        m.forward(states, actions, returns, steps, None).err(),
        Some(ModelError::ShapeMismatch(Operand::States))
    );
}

#[test]
fn forward_accepts_empty_batch() {
    let m = model();
    let states = floats(vec![], [0, 3, 4]);
    let actions = floats(vec![], [0, 3, 2]);
    let returns = floats(vec![], [0, 3, 1]);
    let steps = ints(vec![], [0, 3]);
    let (sp, ap, rp) = m.forward(states, actions, returns, steps, None).unwrap();
    assert_eq!(sp.inner.dims(), [0, 3, 4]);
    assert_eq!(ap.inner.dims(), [0, 3, 2]);
    assert_eq!(rp.inner.dims(), [0, 3, 1]);
}

#[test]
fn mask_does_not_change_predictions() {
    let m = model();
    let run = |mask: Option<IntTensor2>| {
        let states = floats((0..12).map(|i| i as f32).collect(), [1, 3, 4]);
        let actions = floats(vec![0.1, 0.2, 0.3, 0.4, 0.5, 0.6], [1, 3, 2]);
        let returns = floats(vec![3.0, 2.0, 1.0], [1, 3, 1]);
        let steps = ints(vec![4, 5, 6], [1, 3]);
        let (_, ap, _) = m.forward(states, actions, returns, steps, mask).unwrap();
        ap.inner.into_data()
    };
    assert_eq!(run(None), run(Some(ints(vec![0, 1, 1], [1, 3]))));
}
