//! The trial run of a model on a zero-filled tensor: what is fed, when the
//! run is refused, and the report of what came back.

use crate::inspector::{rule, InspectorView, ModelInspector};
use crate::shape::{
    count_elements, element_count, is_concrete, render_shape, shape_text, sizes,
};
use crate::signature::ElementType;
use crate::text::{bracket_strings, bracketed, decimal_nat, render_nat, views};
use vstd::prelude::*;

verus! {

/// How the trial run binds to a model: the name of the input slot that is
/// fed, the name of the output slot that is read, and the shape of the
/// tensor that is fed.
#[derive(Debug)]
pub struct InferenceConfig {
    pub input_name: String,
    pub output_name: String,
    pub input_shape: Vec<i64>,
}

/// What an [`InferenceConfig`] stands for.
pub struct ConfigView {
    pub input_name: Seq<char>,
    pub output_name: Seq<char>,
    pub input_shape: Seq<int>,
}

impl View for InferenceConfig {
    type V = ConfigView;

    open spec fn view(&self) -> ConfigView {
        ConfigView {
            input_name: self.input_name@,
            output_name: self.output_name@,
            input_shape: sizes(self.input_shape@),
        }
    }
}

impl ConfigView {
    /// The binding to the handwritten-digit classifier: one image of one
    /// channel, 28 by 28.
    pub open spec fn canonical() -> ConfigView {
        ConfigView {
            input_name: "Input3"@,
            output_name: "Plus214_Output_0"@,
            input_shape: seq![1int, 1, 28, 28],
        }
    }

    /// Whether a tensor of the input shape can be made: every dimension has
    /// a size, and the number of values fits the machine's word.
    pub open spec fn shape_is_usable(self) -> bool {
        is_concrete(self.input_shape) && element_count(self.input_shape) <= usize::MAX
    }

    /// The tensor that the trial run feeds: bound to the input slot, of the
    /// input shape, and filled with zeros of 32-bit floating point.
    pub open spec fn dummy(self) -> DummyView {
        DummyView {
            name: self.input_name,
            elem: ElementType::Float32,
            shape: self.input_shape,
            len: element_count(self.input_shape) as nat,
            fill_bits: ZERO_BITS as int,
        }
    }
}

impl Default for InferenceConfig {
    /// The binding to the handwritten-digit classifier.
    fn default() -> (config: InferenceConfig)
        ensures
            config@ == ConfigView::canonical(),
    {
        let mut input_shape: Vec<i64> = Vec::new();
        input_shape.push(1);
        input_shape.push(1);
        input_shape.push(28);
        input_shape.push(28);
        assert(sizes(input_shape@) =~= seq![1int, 1, 28, 28]);
        InferenceConfig {
            input_name: String::from_str("Input3"),
            output_name: String::from_str("Plus214_Output_0"),
            input_shape,
        }
    }
}

impl InferenceConfig {
    /// A binding to the named slots with the given input shape.
    pub fn new(input_name: &str, output_name: &str, input_shape: Vec<i64>) -> (config:
        InferenceConfig)
        ensures
            config@ == (ConfigView {
                input_name: input_name@,
                output_name: output_name@,
                input_shape: sizes(input_shape@),
            }),
    {
        InferenceConfig {
            input_name: String::from_str(input_name),
            output_name: String::from_str(output_name),
            input_shape,
        }
    }
}

/// The bit pattern of positive zero in 32-bit floating point.
pub const ZERO_BITS: u32 = 0;

/// The tensor that the trial run feeds: `len` equal values of the element
/// type, each with the bit pattern `fill_bits`, laid out in `shape` and
/// bound to the input slot `name`.
#[derive(Debug)]
pub struct DummyTensor {
    name: String,
    elem: ElementType,
    shape: Vec<i64>,
    len: usize,
    fill_bits: u32,
}

/// What a [`DummyTensor`] stands for.
pub struct DummyView {
    pub name: Seq<char>,
    pub elem: ElementType,
    pub shape: Seq<int>,
    pub len: nat,
    pub fill_bits: int,
}

impl DummyView {
    /// Every dimension has a size, and the tensor holds as many values as
    /// its shape asks for.
    pub open spec fn well_formed(self) -> bool {
        is_concrete(self.shape) && self.len == element_count(self.shape)
    }
}

impl View for DummyTensor {
    type V = DummyView;

    closed spec fn view(&self) -> DummyView {
        DummyView {
            name: self.name@,
            elem: self.elem,
            shape: sizes(self.shape@),
            len: self.len as nat,
            fill_bits: self.fill_bits as int,
        }
    }
}

impl DummyTensor {
    #[verifier::type_invariant]
    spec fn holds_its_shape(&self) -> bool {
        self@.well_formed()
    }

    /// The name of the input slot that the tensor is bound to.
    pub fn name(&self) -> (name: &str)
        ensures
            name@ == self@.name,
    {
        self.name.as_str()
    }

    /// The type of the values of the tensor.
    pub fn element_type(&self) -> (elem: ElementType)
        ensures
            elem == self@.elem,
    {
        self.elem
    }

    /// The bit pattern of each value of the tensor.
    pub fn fill_bits(&self) -> (bits: u32)
        ensures
            bits == self@.fill_bits,
    {
        self.fill_bits
    }

    /// The dimension sizes of the tensor, none of them negative.
    pub fn shape(&self) -> (shape: &Vec<i64>)
        ensures
            sizes(shape@) == self@.shape,
            is_concrete(self@.shape),
    {
        proof {
            use_type_invariant(self);
        }
        &self.shape
    }

    /// The number of zeros that the tensor holds: the product of its
    /// dimension sizes.
    pub fn len(&self) -> (len: usize)
        ensures
            len == self@.len,
            len == element_count(self@.shape),
    {
        proof {
            use_type_invariant(self);
        }
        self.len
    }
}

/// The tensor that a run handed back: its shape, and its values in the
/// order of the flat buffer, each already written as text.
#[derive(Debug)]
pub struct OutputTensor {
    pub shape: Vec<i64>,
    pub values: Vec<String>,
}

/// What an [`OutputTensor`] stands for.
pub struct OutputView {
    pub shape: Seq<int>,
    pub values: Seq<Seq<char>>,
}

impl View for OutputTensor {
    type V = OutputView;

    open spec fn view(&self) -> OutputView {
        OutputView { shape: sizes(self.shape@), values: views(self.values@) }
    }
}

impl OutputView {
    /// Every dimension has a size, and there are as many values as the
    /// shape asks for.
    pub open spec fn is_consistent(self) -> bool {
        is_concrete(self.shape) && self.values.len() == element_count(self.shape)
    }

    /// The lines that report the tensor: its shape, its values as they
    /// came, and a closing rule.
    pub open spec fn report(self) -> Seq<Seq<char>> {
        seq![
            "Output Probabilities (Shape: "@ + shape_text(self.shape) + "):"@,
            bracketed(self.values),
            rule(),
        ]
    }
}

impl OutputTensor {
    /// Whether there are as many values as the shape asks for.
    pub fn is_consistent(&self) -> (consistent: bool)
        ensures
            consistent == self@.is_consistent(),
    {
        let held = self.values.len();
        assert(self@.values.len() == held);
        match count_elements(&self.shape) {
            Some(count) => count == held,
            None => false,
        }
    }

    /// Writes the lines that report the tensor.
    pub fn report(&self) -> (lines: Vec<String>)
        ensures
            views(lines@) == self@.report(),
    {
        let mut title = String::from_str("Output Probabilities (Shape: ");
        let shape = render_shape(&self.shape);
        title.append(shape.as_str());
        title.append("):");
        let mut lines: Vec<String> = Vec::new();
        lines.push(title);
        lines.push(bracket_strings(&self.values));
        lines.push(String::from_str("========================================"));
        assert(views(lines@) =~= self@.report());
        lines
    }
}

/// Why a trial run gave no report.
#[derive(Debug)]
pub enum InferenceError {
    /// The model declares no input slot of the name that the run binds to.
    InputNotDeclared { name: String },
    /// The model declares no output slot of the name that the run reads.
    OutputNotDeclared { name: String },
    /// No tensor of the input shape can be made.
    InvalidInputShape { shape: Vec<i64> },
    /// The runtime refused or aborted the run; the reason is its own.
    Runtime { reason: String },
    /// The tensor that came back does not hold as many values as its shape
    /// asks for.
    InconsistentOutput { shape: Vec<i64>, values: usize },
}

/// What an [`InferenceError`] stands for.
pub enum ErrorView {
    InputNotDeclared { name: Seq<char> },
    OutputNotDeclared { name: Seq<char> },
    InvalidInputShape { shape: Seq<int> },
    Runtime { reason: Seq<char> },
    InconsistentOutput { shape: Seq<int>, values: nat },
}

impl View for InferenceError {
    type V = ErrorView;

    open spec fn view(&self) -> ErrorView {
        match self {
            InferenceError::InputNotDeclared { name } => ErrorView::InputNotDeclared {
                name: name@,
            },
            InferenceError::OutputNotDeclared { name } => ErrorView::OutputNotDeclared {
                name: name@,
            },
            InferenceError::InvalidInputShape { shape } => ErrorView::InvalidInputShape {
                shape: sizes(shape@),
            },
            InferenceError::Runtime { reason } => ErrorView::Runtime { reason: reason@ },
            InferenceError::InconsistentOutput { shape, values } => ErrorView::InconsistentOutput {
                shape: sizes(shape@),
                values: *values as nat,
            },
        }
    }
}

impl ErrorView {
    /// The sentence that says what went wrong. A slot name and the
    /// runtime's reason stand in it verbatim.
    pub open spec fn message(self) -> Seq<char> {
        match self {
            ErrorView::InputNotDeclared { name } => "the model declares no input slot named "@
                + name,
            ErrorView::OutputNotDeclared { name } => "the model declares no output slot named "@
                + name,
            ErrorView::InvalidInputShape { shape } => "no tensor can be made of the input shape "@
                + shape_text(shape),
            ErrorView::Runtime { reason } => reason,
            ErrorView::InconsistentOutput { shape, values } => "the output tensor of shape "@
                + shape_text(shape) + " came with "@ + decimal_nat(values) + " values"@,
        }
    }

    /// The line that reports the failure of the trial run.
    pub open spec fn report(self) -> Seq<Seq<char>> {
        seq!["Inference failed: "@ + self.message()]
    }
}

impl InferenceError {
    /// Writes the sentence that says what went wrong.
    pub fn message(&self) -> (text: String)
        ensures
            text@ == self@.message(),
    {
        match self {
            InferenceError::InputNotDeclared { name } => {
                let mut text = String::from_str("the model declares no input slot named ");
                text.append(name.as_str());
                text
            },
            InferenceError::OutputNotDeclared { name } => {
                let mut text = String::from_str("the model declares no output slot named ");
                text.append(name.as_str());
                text
            },
            InferenceError::InvalidInputShape { shape } => {
                let mut text = String::from_str("no tensor can be made of the input shape ");
                let written = render_shape(shape);
                text.append(written.as_str());
                text
            },
            InferenceError::Runtime { reason } => reason.clone(),
            InferenceError::InconsistentOutput { shape, values } => {
                let mut text = String::from_str("the output tensor of shape ");
                let written = render_shape(shape);
                text.append(written.as_str());
                text.append(" came with ");
                let count = render_nat(*values as u64);
                text.append(count.as_str());
                text.append(" values");
                text
            },
        }
    }

    /// Writes the line that reports the failure of the trial run.
    pub fn report(&self) -> (lines: Vec<String>)
        ensures
            views(lines@) == self@.report(),
    {
        let mut line = String::from_str("Inference failed: ");
        let message = self.message();
        line.append(message.as_str());
        let mut lines: Vec<String> = Vec::new();
        lines.push(line);
        assert(views(lines@) =~= self@.report());
        lines
    }
}

/// The lines that announce the trial run.
pub open spec fn banner() -> Seq<Seq<char>> {
    seq![rule(), "Running Inference with Dummy Data..."@, rule()]
}

/// Writes the lines that announce the trial run.
pub fn inference_banner() -> (lines: Vec<String>)
    ensures
        views(lines@) == banner(),
{
    let mut lines: Vec<String> = Vec::new();
    lines.push(String::from_str("========================================"));
    lines.push(String::from_str("Running Inference with Dummy Data..."));
    lines.push(String::from_str("========================================"));
    assert(views(lines@) =~= banner());
    lines
}

/// What a run handed back, as the mathematical value it stands for.
pub open spec fn outcome_view(outcome: Result<OutputTensor, String>) -> Result<
    OutputView,
    Seq<char>,
> {
    match outcome {
        Ok(tensor) => Ok(tensor@),
        Err(reason) => Err(reason@),
    }
}

impl InspectorView {
    /// Why the trial run cannot be made on this model, if it cannot: the
    /// input slot is not declared, or else the output slot is not, or else
    /// no tensor of the input shape can be made.
    pub open spec fn refusal(self, config: ConfigView) -> Option<ErrorView> {
        if !self.declares_input(config.input_name) {
            Some(ErrorView::InputNotDeclared { name: config.input_name })
        } else if !self.declares_output(config.output_name) {
            Some(ErrorView::OutputNotDeclared { name: config.output_name })
        } else if !config.shape_is_usable() {
            Some(ErrorView::InvalidInputShape { shape: config.input_shape })
        } else {
            None
        }
    }

    /// The result of the trial run, given what the runtime handed back: the
    /// refusal where the run cannot be made; else the runtime's failure
    /// where it reported one; else the report of the tensor that came back,
    /// where it holds as many values as its shape asks for.
    pub open spec fn verdict(
        self,
        config: ConfigView,
        outcome: Result<OutputView, Seq<char>>,
    ) -> Result<Seq<Seq<char>>, ErrorView> {
        match self.refusal(config) {
            Some(error) => Err(error),
            None => match outcome {
                Err(reason) => Err(ErrorView::Runtime { reason }),
                Ok(tensor) => if tensor.is_consistent() {
                    Ok(tensor.report())
                } else {
                    Err(
                        ErrorView::InconsistentOutput {
                            shape: tensor.shape,
                            values: tensor.values.len(),
                        },
                    )
                },
            },
        }
    }
}

/// The binding to the handwritten-digit classifier asks for a tensor of
/// 784 zeros of 32-bit floating point in the shape 1 by 1 by 28 by 28,
/// which can be made on every machine.
pub proof fn law_canonical_input()
    ensures
        ConfigView::canonical().shape_is_usable(),
        ConfigView::canonical().dummy() == (DummyView {
            name: "Input3"@,
            elem: ElementType::Float32,
            shape: seq![1int, 1, 28, 28],
            len: 784,
            fill_bits: 0,
        }),
        ConfigView::canonical().dummy().well_formed(),
{
    let shape = ConfigView::canonical().input_shape;
    assert(shape.drop_last() =~= seq![1int, 1, 28]);
    assert(shape.drop_last().drop_last() =~= seq![1int, 1]);
    assert(shape.drop_last().drop_last().drop_last() =~= seq![1int]);
    assert(shape.drop_last().drop_last().drop_last().drop_last() =~= Seq::<int>::empty());
    reveal_with_fuel(element_count, 5);
    assert(element_count(shape) == 784);
}

/// On a model that declares the two slots of the binding, with an input
/// shape that can be made, the trial run is not refused: whatever tensor
/// the runtime hands back with as many values as its shape asks for is
/// reported, with that shape in the first line and exactly those values,
/// in their order, in the second.
pub proof fn law_consistent_output_is_reported(
    model: InspectorView,
    config: ConfigView,
    tensor: OutputView,
)
    requires
        model.declares_input(config.input_name),
        model.declares_output(config.output_name),
        config.shape_is_usable(),
        tensor.is_consistent(),
    ensures
        model.refusal(config) is None,
        model.verdict(config, Ok(tensor)) == Ok::<Seq<Seq<char>>, ErrorView>(tensor.report()),
        tensor.report().len() == 3,
        tensor.report()[0] == "Output Probabilities (Shape: "@ + shape_text(tensor.shape)
            + "):"@,
        tensor.report()[1] == bracketed(tensor.values),
        tensor.values.len() == element_count(tensor.shape),
{
}

/// A report of the trial run is only ever given of a tensor that holds as
/// many values as the product of its dimension sizes.
pub proof fn law_report_needs_consistent_output(
    model: InspectorView,
    config: ConfigView,
    outcome: Result<OutputView, Seq<char>>,
)
    requires
        model.verdict(config, outcome) is Ok,
    ensures
        outcome matches Ok(tensor) && tensor.is_consistent() && model.verdict(config, outcome)
            == Ok::<Seq<Seq<char>>, ErrorView>(tensor.report()),
        model.refusal(config) is None,
{
}

/// On a model that declares no input slot of the name that the binding
/// asks for, the trial run fails whatever the runtime handed back, and the
/// error cites the name that was asked for.
pub proof fn law_unknown_input_is_refused(
    model: InspectorView,
    config: ConfigView,
    outcome: Result<OutputView, Seq<char>>,
)
    requires
        !model.declares_input(config.input_name),
    ensures
        model.verdict(config, outcome) == Err::<Seq<Seq<char>>, ErrorView>(
            ErrorView::InputNotDeclared { name: config.input_name },
        ),
        (ErrorView::InputNotDeclared { name: config.input_name }).message()
            == "the model declares no input slot named "@ + config.input_name,
{
}

/// A failure that the runtime reports is the failure of the trial run, its
/// reason unchanged, wherever the run was not refused beforehand.
pub proof fn law_runtime_failure_is_surfaced(
    model: InspectorView,
    config: ConfigView,
    reason: Seq<char>,
)
    requires
        model.refusal(config) is None,
    ensures
        model.verdict(config, Err(reason)) == Err::<Seq<Seq<char>>, ErrorView>(
            ErrorView::Runtime { reason },
        ),
        (ErrorView::Runtime { reason }).message() == reason,
{
}

fn copy_shape(shape: &Vec<i64>) -> (copy: Vec<i64>)
    ensures
        copy@ == shape@,
{
    let mut copy: Vec<i64> = Vec::new();
    let mut i: usize = 0;
    while i < shape.len()
        invariant
            i <= shape.len(),
            copy@ == shape@.take(i as int),
        decreases shape.len() - i,
    {
        copy.push(shape[i]);
        assert(copy@ =~= shape@.take(i as int + 1));
        i += 1;
    }
    assert(shape@.take(shape.len() as int) =~= shape@);
    copy
}

impl ModelInspector {
    /// The tensor to feed to the model in the trial run, or why the run
    /// cannot be made.
    pub fn dummy_input(&self, config: &InferenceConfig) -> (made: Result<
        DummyTensor,
        InferenceError,
    >)
        ensures
            match self@.refusal(config@) {
                Some(error) => made matches Err(found) && found@ == error,
                None => made matches Ok(tensor) && tensor@ == config@.dummy()
                    && tensor@.well_formed(),
            },
    {
        if !self.declares_input(config.input_name.as_str()) {
            return Err(InferenceError::InputNotDeclared { name: config.input_name.clone() });
        }
        if !self.declares_output(config.output_name.as_str()) {
            return Err(InferenceError::OutputNotDeclared { name: config.output_name.clone() });
        }
        match count_elements(&config.input_shape) {
            Some(len) => Ok(
                DummyTensor {
                    name: config.input_name.clone(),
                    elem: ElementType::Float32,
                    shape: copy_shape(&config.input_shape),
                    len,
                    fill_bits: ZERO_BITS,
                },
            ),
            None => Err(
                InferenceError::InvalidInputShape { shape: copy_shape(&config.input_shape) },
            ),
        }
    }

    /// Concludes the trial run from what the runtime handed back: the lines
    /// that report the output tensor, or why there is no report.
    pub fn run_dummy_inference(
        &self,
        config: &InferenceConfig,
        outcome: Result<OutputTensor, String>,
    ) -> (done: Result<Vec<String>, InferenceError>)
        ensures
            match self@.verdict(config@, outcome_view(outcome)) {
                Ok(lines) => done matches Ok(written) && views(written@) == lines,
                Err(error) => done matches Err(found) && found@ == error,
            },
    {
        match self.dummy_input(config) {
            Err(error) => Err(error),
            Ok(_) => match outcome {
                Err(reason) => Err(InferenceError::Runtime { reason }),
                Ok(tensor) => if tensor.is_consistent() {
                    Ok(tensor.report())
                } else {
                    Err(
                        InferenceError::InconsistentOutput {
                            shape: copy_shape(&tensor.shape),
                            values: tensor.values.len(),
                        },
                    )
                },
            },
        }
    }
}

} // verus!
