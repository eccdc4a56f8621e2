//! The inspector of one loaded model: what it holds and the report of the
//! model's declared inputs and outputs.

use crate::signature::{block_end, SlotView, TensorSignature};
use crate::text::{lemma_views_concat, lemma_views_push, views};
use vstd::prelude::*;

verus! {

/// What the runtime reports of a model that it has loaded: the declared
/// input and output slots, each list in the order of the model.
#[derive(Debug)]
pub struct GraphSignature {
    pub inputs: Vec<TensorSignature>,
    pub outputs: Vec<TensorSignature>,
}

/// The model could not be loaded. The reason is the runtime's own.
#[derive(Debug)]
pub struct ModelLoadError {
    pub reason: String,
}

/// What a [`ModelLoadError`] stands for.
pub struct LoadErrorView {
    pub reason: Seq<char>,
}

impl View for ModelLoadError {
    type V = LoadErrorView;

    open spec fn view(&self) -> LoadErrorView {
        LoadErrorView { reason: self.reason@ }
    }
}

impl LoadErrorView {
    /// The two lines that report the failure, the second with the reason,
    /// verbatim.
    pub open spec fn report(self) -> Seq<Seq<char>> {
        seq!["FATAL ERROR: Failed to load model."@, "Reason: "@ + self.reason]
    }
}

impl ModelLoadError {
    /// Writes the two lines that report the failure.
    pub fn report(&self) -> (lines: Vec<String>)
        ensures
            views(lines@) == self@.report(),
    {
        let mut reason_line = String::from_str("Reason: ");
        reason_line.append(self.reason.as_str());
        let mut lines: Vec<String> = Vec::new();
        lines.push(String::from_str("FATAL ERROR: Failed to load model."));
        lines.push(reason_line);
        assert(views(lines@) =~= self@.report());
        lines
    }
}

/// A loaded model: the path it was loaded from and its declared slots.
/// There is no inspector of a model that failed to load.
#[derive(Debug)]
pub struct ModelInspector {
    path: String,
    inputs: Vec<TensorSignature>,
    outputs: Vec<TensorSignature>,
}

/// What a [`ModelInspector`] stands for.
pub struct InspectorView {
    pub path: Seq<char>,
    pub inputs: Seq<SlotView>,
    pub outputs: Seq<SlotView>,
}

impl View for ModelInspector {
    type V = InspectorView;

    closed spec fn view(&self) -> InspectorView {
        InspectorView {
            path: self.path@,
            inputs: views(self.inputs@),
            outputs: views(self.outputs@),
        }
    }
}

/// The line that frames the parts of a report.
pub open spec fn rule() -> Seq<char> {
    "========================================"@
}

/// The blocks of the slots, one after another in the order of the slots.
pub open spec fn blocks(slots: Seq<SlotView>) -> Seq<Seq<char>>
    decreases slots.len(),
{
    if slots.len() == 0 {
        Seq::empty()
    } else {
        blocks(slots.drop_last()) + slots.last().block()
    }
}

/// Whether one of the slots has this name.
pub open spec fn declares(slots: Seq<SlotView>, name: Seq<char>) -> bool {
    exists|i: int| 0 <= i < slots.len() && (#[trigger] slots[i]).name == name
}

impl InspectorView {
    /// The lines above the first input block.
    pub open spec fn heading(self) -> Seq<Seq<char>> {
        seq![rule(), "Inspecting Model: "@ + self.path, rule(), "-> INPUTS:"@]
    }

    /// The report of the model: a heading with the path, one block for each
    /// input, the line that opens the outputs, one block for each output,
    /// and a closing rule.
    pub open spec fn details(self) -> Seq<Seq<char>> {
        self.heading() + blocks(self.inputs) + seq!["-> OUTPUTS:"@] + blocks(self.outputs)
            + seq![rule()]
    }

    /// Whether an input slot of this name is declared.
    pub open spec fn declares_input(self, name: Seq<char>) -> bool {
        declares(self.inputs, name)
    }

    /// Whether an output slot of this name is declared.
    pub open spec fn declares_output(self, name: Seq<char>) -> bool {
        declares(self.outputs, name)
    }
}

/// The blocks of the slots are three lines for each slot, and the block of
/// a slot stands where the blocks of the slots before it end.
pub proof fn lemma_blocks_layout(slots: Seq<SlotView>)
    ensures
        blocks(slots).len() == 3 * slots.len(),
        forall|i: int|
            0 <= i < slots.len() ==> {
                &&& blocks(slots)[3 * i] == (#[trigger] slots[i]).name_line()
                &&& blocks(slots)[3 * i + 1] == slots[i].type_line()
                &&& blocks(slots)[3 * i + 2] == block_end()
            },
    decreases slots.len(),
{
    if slots.len() > 0 {
        let front = slots.drop_last();
        lemma_blocks_layout(front);
        assert forall|i: int| 0 <= i < slots.len() implies {
            &&& blocks(slots)[3 * i] == (#[trigger] slots[i]).name_line()
            &&& blocks(slots)[3 * i + 1] == slots[i].type_line()
            &&& blocks(slots)[3 * i + 2] == block_end()
        } by {
            if i < front.len() {
                assert(front[i] == slots[i]);
            }
        }
    }
}

/// The report of a model with N declared inputs and M declared outputs
/// holds exactly N input blocks and M output blocks: after the four lines
/// of the heading come the blocks of the inputs in their order, then the
/// line that opens the outputs, then the blocks of the outputs in their
/// order, then the closing rule, and nothing else. Each block is three
/// lines, the first of which ends with the slot's declared name, verbatim.
pub proof fn law_details_layout(model: InspectorView)
    ensures
        ({
            let n = model.inputs.len() as int;
            let m = model.outputs.len() as int;
            let details = model.details();
            &&& details.len() == 6 + 3 * n + 3 * m
            &&& details.take(4) == model.heading()
            &&& forall|i: int|
                0 <= i < n ==> {
                    &&& details[4 + 3 * i] == "   Name: "@ + (#[trigger] model.inputs[i]).name
                    &&& details[5 + 3 * i] == model.inputs[i].type_line()
                    &&& details[6 + 3 * i] == block_end()
                }
            &&& details[4 + 3 * n] == "-> OUTPUTS:"@
            &&& forall|j: int|
                0 <= j < m ==> {
                    &&& details[5 + 3 * n + 3 * j] == "   Name: "@ + (
                    #[trigger] model.outputs[j]).name
                    &&& details[6 + 3 * n + 3 * j] == model.outputs[j].type_line()
                    &&& details[7 + 3 * n + 3 * j] == block_end()
                }
            &&& details[5 + 3 * n + 3 * m] == rule()
        }),
{
    let n = model.inputs.len() as int;
    let m = model.outputs.len() as int;
    let details = model.details();
    lemma_blocks_layout(model.inputs);
    lemma_blocks_layout(model.outputs);
    assert(model.heading().len() == 4);
    assert(details.take(4) =~= model.heading());
    assert forall|i: int| 0 <= i < n implies {
        &&& details[4 + 3 * i] == "   Name: "@ + (#[trigger] model.inputs[i]).name
        &&& details[5 + 3 * i] == model.inputs[i].type_line()
        &&& details[6 + 3 * i] == block_end()
    } by {
        assert(details[4 + 3 * i] == blocks(model.inputs)[3 * i]);
        assert(details[5 + 3 * i] == blocks(model.inputs)[3 * i + 1]);
        assert(details[6 + 3 * i] == blocks(model.inputs)[3 * i + 2]);
    }
    assert forall|j: int| 0 <= j < m implies {
        &&& details[5 + 3 * n + 3 * j] == "   Name: "@ + (#[trigger] model.outputs[j]).name
        &&& details[6 + 3 * n + 3 * j] == model.outputs[j].type_line()
        &&& details[7 + 3 * n + 3 * j] == block_end()
    } by {
        assert(details[5 + 3 * n + 3 * j] == blocks(model.outputs)[3 * j]);
        assert(details[6 + 3 * n + 3 * j] == blocks(model.outputs)[3 * j + 1]);
        assert(details[7 + 3 * n + 3 * j] == blocks(model.outputs)[3 * j + 2]);
    }
}

fn describe_all(slots: &Vec<TensorSignature>, lines: &mut Vec<String>)
    ensures
        views(final(lines)@) == views(old(lines)@) + blocks(views(slots@)),
{
    let mut i: usize = 0;
    assert(views(slots@.take(0)) =~= Seq::<SlotView>::empty());
    assert(views(lines@) + blocks(views(slots@.take(0))) =~= views(lines@));
    while i < slots.len()
        invariant
            i <= slots.len(),
            views(lines@) == views(old(lines)@) + blocks(views(slots@.take(i as int))),
        decreases slots.len() - i,
    {
        let mut block = slots[i].describe();
        proof {
            let done = slots@.take(i as int);
            let next = slots@.take(i as int + 1);
            assert(next =~= done.push(slots@[i as int]));
            lemma_views_push(done, slots@[i as int]);
            assert(views(next).drop_last() =~= views(done));
            assert(views(next).last() == slots@[i as int]@);
            lemma_views_concat(lines@, block@);
            assert(views(lines@ + block@) =~= views(old(lines)@) + blocks(views(next)));
        }
        lines.append(&mut block);
        i += 1;
    }
    assert(slots@.take(slots.len() as int) =~= slots@);
}

fn has_slot(slots: &Vec<TensorSignature>, name: &str) -> (found: bool)
    ensures
        found == declares(views(slots@), name@),
{
    let wanted = String::from_str(name);
    let mut i: usize = 0;
    while i < slots.len()
        invariant
            i <= slots.len(),
            wanted@ == name@,
            forall|k: int| 0 <= k < i ==> (#[trigger] views(slots@)[k]).name != name@,
        decreases slots.len() - i,
    {
        if slots[i].name == wanted {
            assert(views(slots@)[i as int].name == name@);
            return true;
        }
        i += 1;
    }
    false
}

impl ModelInspector {
    /// Makes the inspector of a model from what loading it gave: the
    /// inspector with the path and the declared slots where the model was
    /// loaded, and else the error with the runtime's reason.
    pub fn new(path: &str, loaded: Result<GraphSignature, String>) -> (made: Result<
        ModelInspector,
        ModelLoadError,
    >)
        ensures
            match loaded {
                Ok(graph) => made matches Ok(inspector) && inspector@ == (InspectorView {
                    path: path@,
                    inputs: views(graph.inputs@),
                    outputs: views(graph.outputs@),
                }),
                Err(reason) => made matches Err(error) && error@ == (LoadErrorView {
                    reason: reason@,
                }),
            },
    {
        match loaded {
            Ok(graph) => Ok(
                ModelInspector {
                    path: String::from_str(path),
                    inputs: graph.inputs,
                    outputs: graph.outputs,
                },
            ),
            Err(reason) => Err(ModelLoadError { reason }),
        }
    }

    /// The path that the model was loaded from.
    pub fn path(&self) -> (path: &str)
        ensures
            path@ == self@.path,
    {
        self.path.as_str()
    }

    /// The declared input slots, in the order of the model.
    pub fn inputs(&self) -> (slots: &Vec<TensorSignature>)
        ensures
            views(slots@) == self@.inputs,
    {
        &self.inputs
    }

    /// The declared output slots, in the order of the model.
    pub fn outputs(&self) -> (slots: &Vec<TensorSignature>)
        ensures
            views(slots@) == self@.outputs,
    {
        &self.outputs
    }

    /// Whether the model declares an input slot of this name.
    pub fn declares_input(&self, name: &str) -> (found: bool)
        ensures
            found == self@.declares_input(name@),
    {
        has_slot(&self.inputs, name)
    }

    /// Whether the model declares an output slot of this name.
    pub fn declares_output(&self, name: &str) -> (found: bool)
        ensures
            found == self@.declares_output(name@),
    {
        has_slot(&self.outputs, name)
    }

    /// Writes the report of the model, line by line.
    pub fn print_details(&self) -> (lines: Vec<String>)
        ensures
            views(lines@) == self@.details(),
    {
        let mut title = String::from_str("Inspecting Model: ");
        title.append(self.path.as_str());
        let mut lines: Vec<String> = Vec::new();
        lines.push(String::from_str("========================================"));
        lines.push(title);
        lines.push(String::from_str("========================================"));
        lines.push(String::from_str("-> INPUTS:"));
        assert(views(lines@) =~= self@.heading());
        describe_all(&self.inputs, &mut lines);
        let opening = String::from_str("-> OUTPUTS:");
        proof {
            lemma_views_push(lines@, opening);
        }
        lines.push(opening);
        assert(views(lines@) =~= self@.heading() + blocks(self@.inputs) + seq!["-> OUTPUTS:"@]);
        describe_all(&self.outputs, &mut lines);
        let closing = String::from_str("========================================");
        proof {
            lemma_views_push(lines@, closing);
        }
        lines.push(closing);
        assert(views(lines@) =~= self@.details());
        lines
    }
}

} // verus!
