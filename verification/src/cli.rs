//! The course of one run of the program, step by step: what is written to
//! the two streams, and what the caller is to do next. The caller loads the
//! model and runs it; every decision is made here.

use crate::inference::{
    banner, inference_banner, outcome_view, ConfigView, DummyTensor, DummyView, InferenceConfig,
    OutputTensor, OutputView,
};
use crate::inspector::{InspectorView, LoadErrorView, ModelInspector, ModelLoadError};
use crate::text::{lemma_views_concat, views};
use vstd::prelude::*;

verus! {

/// The exit status of a run that loaded its model.
pub const EXIT_OK: i32 = 0;

/// The exit status of a run that was given no model or could not load it.
pub const EXIT_FAILURE: i32 = 1;

/// What the caller is to do after a step.
#[derive(Debug)]
pub enum Next {
    /// Load the model at the path, and report with [`model_loaded`].
    LoadModel { path: String },
    /// Feed the tensor to the model, read the named output, and report with
    /// [`inference_finished`].
    RunInference { input: DummyTensor, output_name: String },
    /// End the process with the status.
    Exit { code: i32 },
}

/// What a [`Next`] stands for.
pub enum NextView {
    LoadModel { path: Seq<char> },
    RunInference { input: DummyView, output_name: Seq<char> },
    Exit { code: int },
}

impl View for Next {
    type V = NextView;

    open spec fn view(&self) -> NextView {
        match self {
            Next::LoadModel { path } => NextView::LoadModel { path: path@ },
            Next::RunInference { input, output_name } => NextView::RunInference {
                input: input@,
                output_name: output_name@,
            },
            Next::Exit { code } => NextView::Exit { code: *code as int },
        }
    }
}

/// One step of a run: the lines for the output stream, the lines for the
/// error stream, and what comes next.
#[derive(Debug)]
pub struct Step {
    pub out: Vec<String>,
    pub err: Vec<String>,
    pub next: Next,
}

/// What a [`Step`] stands for.
pub struct StepView {
    pub out: Seq<Seq<char>>,
    pub err: Seq<Seq<char>>,
    pub next: NextView,
}

impl View for Step {
    type V = StepView;

    open spec fn view(&self) -> StepView {
        StepView { out: views(self.out@), err: views(self.err@), next: self.next@ }
    }
}

/// The line that says how the program is called.
pub open spec fn usage() -> Seq<char> {
    "Usage: cargo run -- <path_to_model.onnx>"@
}

/// The first step. Without an argument behind the program's name the run
/// ends in failure with the usage line; else the first argument is the path
/// of the model to load, and further arguments are not looked at.
pub open spec fn first_step(args: Seq<Seq<char>>) -> StepView {
    if args.len() < 2 {
        StepView {
            out: Seq::empty(),
            err: seq![usage()],
            next: NextView::Exit { code: EXIT_FAILURE as int },
        }
    } else {
        StepView {
            out: Seq::empty(),
            err: Seq::empty(),
            next: NextView::LoadModel { path: args[1] },
        }
    }
}

/// The step after loading. A model that could not be loaded ends the run in
/// failure with the report of the error and nothing on the output stream. A
/// loaded model is reported in full and the trial run announced; where the
/// trial run cannot be made, that is reported and the run ends in success.
pub open spec fn step_after_load(
    loaded: Result<InspectorView, LoadErrorView>,
    config: ConfigView,
) -> StepView {
    match loaded {
        Err(error) => StepView {
            out: Seq::empty(),
            err: error.report(),
            next: NextView::Exit { code: EXIT_FAILURE as int },
        },
        Ok(model) => match model.refusal(config) {
            Some(error) => StepView {
                out: model.details() + banner(),
                err: error.report(),
                next: NextView::Exit { code: EXIT_OK as int },
            },
            None => StepView {
                out: model.details() + banner(),
                err: Seq::empty(),
                next: NextView::RunInference {
                    input: config.dummy(),
                    output_name: config.output_name,
                },
            },
        },
    }
}

/// The last step. The output tensor is reported, or the failure of the
/// trial run; the run ends in success either way.
pub open spec fn step_after_inference(
    model: InspectorView,
    config: ConfigView,
    outcome: Result<OutputView, Seq<char>>,
) -> StepView {
    match model.verdict(config, outcome) {
        Ok(lines) => StepView {
            out: lines,
            err: Seq::empty(),
            next: NextView::Exit { code: EXIT_OK as int },
        },
        Err(error) => StepView {
            out: Seq::empty(),
            err: error.report(),
            next: NextView::Exit { code: EXIT_OK as int },
        },
    }
}

/// A whole run: all that was written to the two streams, and the last
/// thing the caller was told to do.
pub struct Transcript {
    pub out: Seq<Seq<char>>,
    pub err: Seq<Seq<char>>,
    pub last: NextView,
}

/// The run that a caller makes who follows each step: it begins with the
/// arguments, loads the model when told to and hands on what loading gave,
/// makes the trial run when told to and hands on what the runtime gave.
pub open spec fn run_to_end(
    args: Seq<Seq<char>>,
    loaded: Result<InspectorView, LoadErrorView>,
    config: ConfigView,
    outcome: Result<OutputView, Seq<char>>,
) -> Transcript {
    let first = first_step(args);
    if first.next is LoadModel {
        let second = step_after_load(loaded, config);
        if second.next is RunInference && loaded is Ok {
            let third = step_after_inference(loaded->Ok_0, config, outcome);
            Transcript {
                out: first.out + second.out + third.out,
                err: first.err + second.err + third.err,
                last: third.next,
            }
        } else {
            Transcript {
                out: first.out + second.out,
                err: first.err + second.err,
                last: second.next,
            }
        }
    } else {
        Transcript { out: first.out, err: first.err, last: first.next }
    }
}

/// Every run ends, after three steps at most, with the status 0 or 1. It
/// ends with 1 exactly where no model was named or the model could not be
/// loaded: a trial run that fails does not change the status.
pub proof fn law_run_ends(
    args: Seq<Seq<char>>,
    loaded: Result<InspectorView, LoadErrorView>,
    config: ConfigView,
    outcome: Result<OutputView, Seq<char>>,
)
    ensures
        run_to_end(args, loaded, config, outcome).last is Exit,
        run_to_end(args, loaded, config, outcome).last->code == (if args.len() < 2 || loaded
            is Err {
            1int
        } else {
            0int
        }),
{
}

/// A run without an argument behind the program's name writes the usage
/// line to the error stream, nothing else to either stream, and ends with
/// the status 1.
pub proof fn law_missing_argument(
    args: Seq<Seq<char>>,
    loaded: Result<InspectorView, LoadErrorView>,
    config: ConfigView,
    outcome: Result<OutputView, Seq<char>>,
)
    requires
        args.len() < 2,
    ensures
        run_to_end(args, loaded, config, outcome) == (Transcript {
            out: Seq::empty(),
            err: seq![usage()],
            last: NextView::Exit { code: 1 },
        }),
{
}

/// A run whose model could not be loaded writes nothing to the output
/// stream, no banner either; it writes the two lines of the error to the
/// error stream, the second with the runtime's reason verbatim, and ends
/// with the status 1.
pub proof fn law_load_failure_is_fatal(
    args: Seq<Seq<char>>,
    error: LoadErrorView,
    config: ConfigView,
    outcome: Result<OutputView, Seq<char>>,
)
    requires
        args.len() >= 2,
    ensures
        run_to_end(args, Err(error), config, outcome) == (Transcript {
            out: Seq::empty(),
            err: seq!["FATAL ERROR: Failed to load model."@, "Reason: "@ + error.reason],
            last: NextView::Exit { code: 1 },
        }),
{
    let run = run_to_end(args, Err(error), config, outcome);
    assert(run.out =~= Seq::<Seq<char>>::empty());
    assert(run.err =~= seq!["FATAL ERROR: Failed to load model."@, "Reason: "@ + error.reason]);
}

/// A run whose model was loaded writes the full report of the model and
/// the banner of the trial run before anything else, and ends with the
/// status 0 whatever becomes of the trial run. Where the trial run gives a
/// report, that follows on the output stream and the error stream stays
/// empty; where it fails, nothing follows on the output stream and the
/// error stream holds the one line of the failure.
pub proof fn law_inference_failure_is_not_fatal(
    args: Seq<Seq<char>>,
    model: InspectorView,
    config: ConfigView,
    outcome: Result<OutputView, Seq<char>>,
)
    requires
        args.len() >= 2,
    ensures
        run_to_end(args, Ok(model), config, outcome).last == (NextView::Exit { code: 0 }),
        match model.verdict(config, outcome) {
            Ok(lines) => run_to_end(args, Ok(model), config, outcome).out == model.details()
                + banner() + lines && run_to_end(args, Ok(model), config, outcome).err
                == Seq::<Seq<char>>::empty(),
            Err(error) => run_to_end(args, Ok(model), config, outcome).out == model.details()
                + banner() && run_to_end(args, Ok(model), config, outcome).err == seq![
                "Inference failed: "@ + error.message(),
            ],
        },
{
    let run = run_to_end(args, Ok(model), config, outcome);
    match model.verdict(config, outcome) {
        Ok(lines) => {
            assert(run.out =~= model.details() + banner() + lines);
            assert(run.err =~= Seq::<Seq<char>>::empty());
        },
        Err(error) => {
            assert(run.out =~= model.details() + banner());
            assert(run.err =~= seq!["Inference failed: "@ + error.message()]);
        },
    }
}

/// A run on a model that declares no input slot of the name that the
/// binding asks for still writes the full report of the model and ends with
/// the status 0; the error stream holds the one line of the failure, which
/// cites the name that was asked for.
pub proof fn law_unknown_input_ends_in_success(
    args: Seq<Seq<char>>,
    model: InspectorView,
    config: ConfigView,
    outcome: Result<OutputView, Seq<char>>,
)
    requires
        args.len() >= 2,
        !model.declares_input(config.input_name),
    ensures
        run_to_end(args, Ok(model), config, outcome) == (Transcript {
            out: model.details() + banner(),
            err: seq![
                "Inference failed: the model declares no input slot named "@
                    + config.input_name,
            ],
            last: NextView::Exit { code: 0 },
        }),
{
    law_inference_failure_is_not_fatal(args, model, config, outcome);
    let run = run_to_end(args, Ok(model), config, outcome);
    let cited = "the model declares no input slot named "@ + config.input_name;
    assert("Inference failed: "@ + cited =~= "Inference failed: the model declares no input slot named "@
        + config.input_name) by {
        reveal_strlit("Inference failed: ");
        reveal_strlit("the model declares no input slot named ");
        reveal_strlit("Inference failed: the model declares no input slot named ");
    }
}

/// What loading gave, as the mathematical value it stands for.
pub open spec fn loaded_view(loaded: Result<ModelInspector, ModelLoadError>) -> Result<
    InspectorView,
    LoadErrorView,
> {
    match loaded {
        Ok(inspector) => Ok(inspector@),
        Err(error) => Err(error@),
    }
}

/// Begins a run with the arguments of the process, the program's name
/// first.
pub fn start(args: &Vec<String>) -> (step: Step)
    ensures
        step@ == first_step(views(args@)),
{
    if args.len() < 2 {
        let mut err: Vec<String> = Vec::new();
        err.push(String::from_str("Usage: cargo run -- <path_to_model.onnx>"));
        let out: Vec<String> = Vec::new();
        assert(views(err@) =~= seq![usage()]);
        assert(views(out@) =~= Seq::<Seq<char>>::empty());
        Step { out, err, next: Next::Exit { code: EXIT_FAILURE } }
    } else {
        let out: Vec<String> = Vec::new();
        let err: Vec<String> = Vec::new();
        assert(views(out@) =~= Seq::<Seq<char>>::empty());
        assert(views(err@) =~= Seq::<Seq<char>>::empty());
        Step { out, err, next: Next::LoadModel { path: args[1].clone() } }
    }
}

/// Goes on after the caller has tried to load the model.
pub fn model_loaded(loaded: &Result<ModelInspector, ModelLoadError>, config: &InferenceConfig) -> (step:
    Step)
    ensures
        step@ == step_after_load(loaded_view(*loaded), config@),
{
    match loaded {
        Err(error) => {
            let out: Vec<String> = Vec::new();
            assert(views(out@) =~= Seq::<Seq<char>>::empty());
            Step { out, err: error.report(), next: Next::Exit { code: EXIT_FAILURE } }
        },
        Ok(inspector) => {
            let mut out = inspector.print_details();
            let mut announced = inference_banner();
            proof {
                lemma_views_concat(out@, announced@);
            }
            out.append(&mut announced);
            match inspector.dummy_input(config) {
                Err(error) => Step {
                    out,
                    err: error.report(),
                    next: Next::Exit { code: EXIT_OK },
                },
                Ok(input) => {
                    let err: Vec<String> = Vec::new();
                    assert(views(err@) =~= Seq::<Seq<char>>::empty());
                    Step {
                        out,
                        err,
                        next: Next::RunInference {
                            input,
                            output_name: config.output_name.clone(),
                        },
                    }
                },
            }
        },
    }
}

/// Ends a run after the caller has made the trial run, with the output
/// tensor of the configured name or with the runtime's reason for failing.
pub fn inference_finished(
    inspector: &ModelInspector,
    config: &InferenceConfig,
    outcome: Result<OutputTensor, String>,
) -> (step: Step)
    ensures
        step@ == step_after_inference(inspector@, config@, outcome_view(outcome)),
{
    match inspector.run_dummy_inference(config, outcome) {
        Ok(out) => {
            let err: Vec<String> = Vec::new();
            assert(views(err@) =~= Seq::<Seq<char>>::empty());
            Step { out, err, next: Next::Exit { code: EXIT_OK } }
        },
        Err(error) => {
            let out: Vec<String> = Vec::new();
            assert(views(out@) =~= Seq::<Seq<char>>::empty());
            Step { out, err: error.report(), next: Next::Exit { code: EXIT_OK } }
        },
    }
}

} // verus!
