//! The commands through which a host drives the engine.
//!
//! Loading and predicting are done by the inference engine, outside this
//! library. Each of the two is therefore a pair of commands: the first
//! decides whether the work may start and says what to do, the second takes
//! the result. Between the two the engine is busy and turns every other
//! command away.

use crate::error::{reply_unless, reply_view, Error, ErrorView};
use crate::model::config::{ModelConfig, ModelParameters};
use crate::model::session::{
    completion_view, outcome_view, Completion, CompletionView, InferenceStats, SessionView,
    StreamingInferenceSession,
};
use crate::model::{EngineState, LoadRequest, Model, ModelView};
use vstd::prelude::*;

verus! {

/// A prediction in progress: the model, lent by the engine for as long as it
/// generates, and the session that takes its tokens.
#[derive(Debug)]
pub struct Prediction<M> {
    pub model: M,
    pub session: StreamingInferenceSession,
}

/// The plain value of the inference engine's answer to a load.
pub open spec fn loaded_model<M>(outcome: Result<M, String>) -> Option<M> {
    match outcome {
        Ok(model) => Some(model),
        Err(_) => None,
    }
}

/// The answer to the report on a load.
pub open spec fn complete_load_reply<M>(engine: ModelView<M>, outcome: Result<M, String>) -> Result<
    Seq<char>,
    ErrorView,
> {
    if engine.state != EngineState::Loading {
        Err(ErrorView::LoadFailure("No load in progress"@))
    } else {
        match outcome {
            Ok(_) => Ok("Model loaded"@),
            Err(reason) => Err(ErrorView::LoadFailure(reason@)),
        }
    }
}

/// The answer to the report on a prediction.
pub open spec fn complete_predict_reply<M>(
    engine: ModelView<M>,
    session: SessionView,
    outcome: Result<InferenceStats, String>,
) -> Result<CompletionView, ErrorView> {
    if engine.state != EngineState::Predicting {
        Err(ErrorView::InferenceFailure("No prediction in progress"@))
    } else {
        session.finish(outcome_view(outcome))
    }
}

/// Chooses the configuration that the next load will use.
pub fn load_model_config<M>(model_config: ModelConfig, state: &mut Model<M>) -> (reply: Result<
    String,
    Error,
>)
    ensures
        reply_view(reply) == reply_unless(
            old(state)@.set_pending_config_error(),
            "Model config loaded"@,
        ),
        final(state)@ == old(state)@.set_pending_config(model_config@),
        final(state)@.wf(),
{
    match state.set_pending_config(model_config) {
        Ok(_) => Ok("Model config loaded".to_owned()),
        Err(error) => Err(error),
    }
}

/// Starts a load of the chosen configuration with the given preferences. On
/// success the host hands the request to the inference engine and reports
/// what came of it with [`complete_load`].
pub fn load_dynamic_model<M>(parameters: ModelParameters, state: &mut Model<M>) -> (request: Result<
    LoadRequest,
    Error,
>)
    ensures
        match request {
            Ok(request) => old(state)@.begin_load_error() is None && Some(request@.config) == old(
                state,
            )@.pending && request@.parameters == parameters@,
            Err(error) => old(state)@.begin_load_error() == Some(error@),
        },
        final(state)@ == old(state)@.begin_load(),
        final(state)@.wf(),
{
    state.begin_load(parameters)
}

/// Takes the inference engine's answer to a load: the model, or the reason
/// why there is none.
pub fn complete_load<M>(outcome: Result<M, String>, state: &mut Model<M>) -> (reply: Result<
    String,
    Error,
>)
    ensures
        reply_view(reply) == complete_load_reply(old(state)@, outcome),
        final(state)@ == old(state)@.finish_load(loaded_model(outcome)),
        final(state)@.wf(),
{
    match outcome {
        Ok(model) => {
            if state.finish_load(Some(model)) {
                Ok("Model loaded".to_owned())
            } else {
                Err(Error::LoadFailure("No load in progress".to_owned()))
            }
        },
        Err(reason) => {
            if state.finish_load(None) {
                Err(Error::LoadFailure(reason))
            } else {
                Err(Error::LoadFailure("No load in progress".to_owned()))
            }
        },
    }
}

/// Drops the loaded model, if there is one.
pub fn unload_dynamic_model<M>(state: &mut Model<M>) -> (reply: Result<String, Error>)
    ensures
        reply_view(reply) == reply_unless(old(state)@.unload_error(), "Model unloaded"@),
        final(state)@ == old(state)@.unload(),
        final(state)@.wf(),
{
    match state.unload() {
        Ok(_) => Ok("Model unloaded".to_owned()),
        Err(error) => Err(error),
    }
}

/// Starts a prediction for a prompt. On success the host runs the inference
/// engine on the lent model, feeds every event to the session, and reports
/// the end with [`complete_predict`].
pub fn predict<M>(message: &str, state: &mut Model<M>) -> (started: Result<Prediction<M>, Error>)
    ensures
        match started {
            Ok(prediction) => old(state)@.begin_predict_error() is None && old(state)@.model
                == Some(prediction.model) && prediction.session@ == SessionView::fresh(message@),
            Err(error) => old(state)@.begin_predict_error() == Some(error@),
        },
        final(state)@ == old(state)@.begin_predict(),
        final(state)@.wf(),
{
    match state.begin_predict() {
        Ok(model) => Ok(Prediction { model, session: StreamingInferenceSession::new(message) }),
        Err(error) => Err(error),
    }
}

/// Ends a prediction: the model goes back into the engine's slot, whatever
/// the inference engine reports, and the session ends with that report.
pub fn complete_predict<M>(
    prediction: Prediction<M>,
    outcome: Result<InferenceStats, String>,
    state: &mut Model<M>,
) -> (ended: Result<Completion, Error>)
    ensures
        completion_view(ended) == complete_predict_reply(
            old(state)@,
            prediction.session@,
            outcome,
        ),
        final(state)@ == old(state)@.finish_predict(prediction.model),
        final(state)@.wf(),
{
    let Prediction { model, session } = prediction;
    if state.finish_predict(model) {
        session.finish(outcome)
    } else {
        Err(Error::InferenceFailure("No prediction in progress".to_owned()))
    }
}

} // verus!
