//! Stand-ins for the engine's commands that touch no model: they answer at
//! once, always succeed, and leave the engine as it is. A host uses them to
//! try its own plumbing without an inference engine.

use crate::error::{reply_view, Error, ErrorView};
use crate::model::config::ModelConfig;
use crate::model::session::InferenceStats;
use crate::model::Model;
use vstd::prelude::*;

verus! {

/// Answers a prediction with the statistics of a prediction that did
/// nothing.
pub fn predict_simulated<M>(_message: &str, _state: &Model<M>) -> (stats: Result<
    InferenceStats,
    Error,
>)
    ensures
        stats == Ok::<InferenceStats, Error>(InferenceStats::spec_default()),
{
    Ok(InferenceStats::default())
}

/// Answers a load with an empty message.
pub fn load_dynamic_model_simulated<M>(_state: &Model<M>) -> (reply: Result<String, Error>)
    ensures
        reply_view(reply) == Ok::<Seq<char>, ErrorView>(Seq::empty()),
{
    Ok(String::new())
}

/// Answers an unload with an empty message.
pub fn unload_dynamic_model_simulated<M>(_state: &Model<M>) -> (reply: Result<String, Error>)
    ensures
        reply_view(reply) == Ok::<Seq<char>, ErrorView>(Seq::empty()),
{
    Ok(String::new())
}

/// Answers the choice of a configuration with an empty message.
pub fn load_model_config_simulated<M>(_model_config: ModelConfig, _state: &Model<M>) -> (reply:
    Result<String, Error>)
    ensures
        reply_view(reply) == Ok::<Seq<char>, ErrorView>(Seq::empty()),
{
    Ok(String::new())
}

} // verus!
