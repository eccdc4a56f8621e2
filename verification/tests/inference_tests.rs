use model_inspector::inference::{
    inference_banner, InferenceConfig, InferenceError, OutputTensor, ZERO_BITS,
};
use model_inspector::inspector::{GraphSignature, ModelInspector};
use model_inspector::signature::{ElementType, SlotType, TensorSignature};

const RULE: &str = "========================================";

fn tensor_slot(name: &str, sizes: &[i64]) -> TensorSignature {
    TensorSignature::new(name, SlotType::tensor(ElementType::Float32, &sizes.to_vec()))
}

fn model(input: &str, output: &str) -> ModelInspector {
    let graph = GraphSignature {
        inputs: vec![tensor_slot(input, &[1, 1, 28, 28])],
        outputs: vec![tensor_slot(output, &[1, 10])],
    };
    ModelInspector::new("mnist.onnx", Ok(graph)).expect("a loaded model")
}

fn digit_classifier() -> ModelInspector {
    model("Input3", "Plus214_Output_0")
}

fn scores() -> Vec<String> {
    [
        "-0.044856027", "0.007791661", "0.06810082", "0.02999374", "-0.12640963",
        "0.14021875", "-0.055284902", "-0.04938382", "0.08432205", "-0.05454041",
    ]
    .iter()
    .map(|v| v.to_string())
    .collect()
}

fn message_of(result: Result<Vec<String>, InferenceError>) -> String {
    match result {
        Ok(lines) => panic!("the run gave a report: {:?}", lines),
        Err(error) => error.message(),
    }
}

#[test]
fn the_default_binding_is_that_of_the_digit_classifier() {
    let config = InferenceConfig::default();
    assert_eq!(config.input_name, "Input3");
    assert_eq!(config.output_name, "Plus214_Output_0");
    assert_eq!(config.input_shape, vec![1, 1, 28, 28]);
}

#[test]
fn a_binding_keeps_what_it_was_made_of() {
    let config = InferenceConfig::new("data", "prob", vec![1, 3, 224, 224]);
    assert_eq!(config.input_name, "data");
    assert_eq!(config.output_name, "prob");
    assert_eq!(config.input_shape, vec![1, 3, 224, 224]);
}

#[test]
fn the_banner_announces_the_run() {
    assert_eq!(
        inference_banner(),
        vec![RULE.to_string(), "Running Inference with Dummy Data...".to_string(), RULE.to_string()]
    );
}

#[test]
fn the_dummy_tensor_of_the_digit_classifier() {
    let tensor = digit_classifier()
        .dummy_input(&InferenceConfig::default())
        .expect("the digit classifier takes the dummy tensor");
    assert_eq!(tensor.name(), "Input3");
    assert_eq!(tensor.element_type(), ElementType::Float32);
    assert_eq!(tensor.shape(), &vec![1, 1, 28, 28]);
    assert_eq!(tensor.len(), 784);
    assert_eq!(tensor.fill_bits(), 0);
}

#[test]
fn the_dummy_tensor_is_filled_with_positive_zero() {
    assert_eq!(ZERO_BITS, 0.0f32.to_bits());
    assert_eq!(f32::from_bits(ZERO_BITS), 0.0);
    assert!(f32::from_bits(ZERO_BITS).is_sign_positive());
}

#[test]
fn the_dummy_tensor_follows_the_binding() {
    let inspector = model("data", "prob");
    let config = InferenceConfig::new("data", "prob", vec![2, 3, 4]);
    let tensor = inspector.dummy_input(&config).expect("the slots are declared");
    assert_eq!(tensor.name(), "data");
    assert_eq!(tensor.shape(), &vec![2, 3, 4]);
    assert_eq!(tensor.len(), 24);
    let scalar = InferenceConfig::new("data", "prob", vec![]);
    assert_eq!(inspector.dummy_input(&scalar).expect("a scalar can be made").len(), 1);
    let empty = InferenceConfig::new("data", "prob", vec![4, 0]);
    assert_eq!(inspector.dummy_input(&empty).expect("an empty tensor can be made").len(), 0);
}

#[test]
fn the_run_on_the_digit_classifier_reports_shape_and_values() {
    let outcome = Ok(OutputTensor { shape: vec![1, 10], values: scores() });
    let lines = digit_classifier()
        .run_dummy_inference(&InferenceConfig::default(), outcome)
        .expect("the run succeeds");
    assert_eq!(
        lines,
        vec![
            "Output Probabilities (Shape: [1, 10]):".to_string(),
            "[-0.044856027, 0.007791661, 0.06810082, 0.02999374, -0.12640963, 0.14021875, -0.055284902, -0.04938382, 0.08432205, -0.05454041]".to_string(),
            RULE.to_string(),
        ]
    );
    assert_eq!(lines[1].split(", ").count(), 10);
}

#[test]
fn the_values_are_reported_as_they_came() {
    let values = vec!["NaN".to_string(), "inf".to_string(), "-0.0".to_string(), "1e-7".to_string()];
    let tensor = OutputTensor { shape: vec![2, 2], values };
    assert!(tensor.is_consistent());
    assert_eq!(tensor.report()[1], "[NaN, inf, -0.0, 1e-7]");
}

#[test]
fn an_empty_output_tensor_is_reported() {
    let outcome = Ok(OutputTensor { shape: vec![0, 10], values: vec![] });
    let lines = digit_classifier()
        .run_dummy_inference(&InferenceConfig::default(), outcome)
        .expect("the run succeeds");
    assert_eq!(lines[0], "Output Probabilities (Shape: [0, 10]):");
    assert_eq!(lines[1], "[]");
}

#[test]
fn a_scalar_output_tensor_is_reported() {
    let outcome = Ok(OutputTensor { shape: vec![], values: vec!["0.5".to_string()] });
    let lines = digit_classifier()
        .run_dummy_inference(&InferenceConfig::default(), outcome)
        .expect("the run succeeds");
    assert_eq!(lines[0], "Output Probabilities (Shape: []):");
    assert_eq!(lines[1], "[0.5]");
    assert_eq!(lines[2], RULE);
}

#[test]
fn another_input_name_fails_the_run() {
    let inspector = model("data", "Plus214_Output_0");
    let config = InferenceConfig::default();
    match inspector.dummy_input(&config) {
        Err(InferenceError::InputNotDeclared { name }) => assert_eq!(name, "Input3"),
        other => panic!("expected the input to be missing: {:?}", other),
    }
    let outcome = Ok(OutputTensor { shape: vec![1, 10], values: scores() });
    match inspector.run_dummy_inference(&config, outcome) {
        Err(InferenceError::InputNotDeclared { name }) => assert_eq!(name, "Input3"),
        other => panic!("expected the input to be missing: {:?}", other),
    }
    let failed = Err("Invalid input name: Input3".to_string());
    let message = message_of(inspector.run_dummy_inference(&config, failed));
    assert_eq!(message, "the model declares no input slot named Input3");
}

#[test]
fn another_output_name_fails_the_run() {
    let inspector = model("Input3", "scores");
    let config = InferenceConfig::default();
    match inspector.dummy_input(&config) {
        Err(InferenceError::OutputNotDeclared { name }) => assert_eq!(name, "Plus214_Output_0"),
        other => panic!("expected the output to be missing: {:?}", other),
    }
    let outcome = Ok(OutputTensor { shape: vec![1, 10], values: scores() });
    let message = message_of(inspector.run_dummy_inference(&config, outcome));
    assert_eq!(message, "the model declares no output slot named Plus214_Output_0");
}

#[test]
fn a_missing_input_is_reported_before_a_missing_output() {
    let inspector = model("a", "b");
    match inspector.dummy_input(&InferenceConfig::new("x", "y", vec![-1])) {
        Err(InferenceError::InputNotDeclared { name }) => assert_eq!(name, "x"),
        other => panic!("expected the input to be missing: {:?}", other),
    }
    match inspector.dummy_input(&InferenceConfig::new("a", "y", vec![-1])) {
        Err(InferenceError::OutputNotDeclared { name }) => assert_eq!(name, "y"),
        other => panic!("expected the output to be missing: {:?}", other),
    }
}

#[test]
fn an_input_shape_with_an_open_dimension_fails_the_run() {
    let inspector = digit_classifier();
    let config = InferenceConfig::new("Input3", "Plus214_Output_0", vec![-1, 1, 28, 28]);
    match inspector.dummy_input(&config) {
        Err(InferenceError::InvalidInputShape { shape }) => assert_eq!(shape, vec![-1, 1, 28, 28]),
        other => panic!("expected the shape to be refused: {:?}", other),
    }
    let outcome = Ok(OutputTensor { shape: vec![1, 10], values: scores() });
    let message = message_of(inspector.run_dummy_inference(&config, outcome));
    assert_eq!(message, "no tensor can be made of the input shape [-1, 1, 28, 28]");
}

#[test]
fn an_input_shape_beyond_the_word_fails_the_run() {
    let inspector = digit_classifier();
    let config = InferenceConfig::new("Input3", "Plus214_Output_0", vec![i64::MAX, i64::MAX]);
    match inspector.dummy_input(&config) {
        Err(InferenceError::InvalidInputShape { shape }) => assert_eq!(shape, vec![i64::MAX, i64::MAX]),
        other => panic!("expected the shape to be refused: {:?}", other),
    }
}

#[test]
fn a_failure_of_the_runtime_is_the_failure_of_the_run() {
    let reason = "Got invalid dimensions for input: Input3 for the following indices\n index: 1 Got: 1 Expected: 3";
    let result = digit_classifier().run_dummy_inference(&InferenceConfig::default(), Err(reason.to_string()));
    match result {
        Err(InferenceError::Runtime { reason: found }) => assert_eq!(found, reason),
        other => panic!("expected the runtime's failure: {:?}", other),
    }
    let again = digit_classifier().run_dummy_inference(&InferenceConfig::default(), Err(reason.to_string()));
    assert_eq!(message_of(again), reason);
}

#[test]
fn an_output_with_too_few_values_fails_the_run() {
    let tensor = OutputTensor { shape: vec![1, 10], values: scores()[..9].to_vec() };
    assert!(!tensor.is_consistent());
    let result = digit_classifier().run_dummy_inference(&InferenceConfig::default(), Ok(tensor));
    match result {
        Err(InferenceError::InconsistentOutput { shape, values }) => {
            assert_eq!(shape, vec![1, 10]);
            assert_eq!(values, 9);
        }
        other => panic!("expected an inconsistent output: {:?}", other),
    }
}

#[test]
fn an_output_with_too_many_values_fails_the_run() {
    let mut values = scores();
    values.push("0.0".to_string());
    let result = digit_classifier()
        .run_dummy_inference(&InferenceConfig::default(), Ok(OutputTensor { shape: vec![1, 10], values }));
    assert_eq!(message_of(result), "the output tensor of shape [1, 10] came with 11 values");
}

#[test]
fn an_output_with_a_negative_dimension_fails_the_run() {
    let tensor = OutputTensor { shape: vec![-1, -10], values: scores() };
    assert!(!tensor.is_consistent());
    let result = digit_classifier().run_dummy_inference(&InferenceConfig::default(), Ok(tensor));
    assert_eq!(message_of(result), "the output tensor of shape [-1, -10] came with 10 values");
}

#[test]
fn the_failure_is_reported_in_one_line() {
    let error = InferenceError::InputNotDeclared { name: "Input3".to_string() };
    assert_eq!(
        error.report(),
        vec!["Inference failed: the model declares no input slot named Input3".to_string()]
    );
    let runtime = InferenceError::Runtime { reason: "out of memory".to_string() };
    assert_eq!(runtime.report(), vec!["Inference failed: out of memory".to_string()]);
}
