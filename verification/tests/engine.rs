use personal_assistant::error::Error;
use personal_assistant::model::config::{
    ModelArchitecture, ModelConfig, ModelParameters, TokenizerSource,
};
use personal_assistant::model::logic::{
    complete_load, complete_predict, load_dynamic_model, load_model_config, predict,
    unload_dynamic_model,
};
use personal_assistant::model::session::{
    Completion, InferenceFeedback, InferenceResponse, InferenceStats, TimeSpan,
};
use personal_assistant::model::simulated::{
    load_dynamic_model_simulated, load_model_config_simulated, predict_simulated,
    unload_dynamic_model_simulated,
};
use personal_assistant::model::{EngineState, LoadRequest, Model};
use personal_assistant::sync::{Channel, Signal, SyncBus};

#[derive(Debug, PartialEq)]
struct Weights(&'static str);

fn first_config() -> ModelConfig {
    ModelConfig {
        name: "m1".to_string(),
        model_architecture: ModelArchitecture::Llama,
        model_path: "/models/m1.bin".to_string(),
        tokenizer_source: TokenizerSource::Embedded,
    }
}

fn corrected() -> ModelConfig {
    ModelConfig { model_path: "/models/real.bin".to_string(), ..first_config() }
}

fn loaded_engine() -> Model<Weights> {
    let mut engine = Model::init();
    load_model_config(first_config(), &mut engine).unwrap();
    load_dynamic_model(ModelParameters::default(), &mut engine).unwrap();
    complete_load(Ok(Weights("m1")), &mut engine).unwrap();
    engine
}

fn stats() -> InferenceStats {
    InferenceStats {
        feed_prompt_duration: TimeSpan { secs: 1, nanos: 500_000_000 },
        prompt_tokens: 12,
        predict_duration: TimeSpan { secs: 3, nanos: 250_000_000 },
        predict_tokens: 40,
    }
}

#[test]
fn a_new_engine_is_unloaded() {
    let engine: Model<Weights> = Model::init();
    assert_eq!(engine.state(), EngineState::Unloaded);
    assert!(!engine.is_loaded());
    assert_eq!(engine.pending_config(), None);
    let other: Model<Weights> = Model::default();
    assert_eq!(other.state(), EngineState::Unloaded);
    assert_eq!(other.pending_config(), None);
}

#[test]
fn load_without_config_is_config_missing() {
    let mut engine: Model<Weights> = Model::init();
    assert_eq!(
        load_dynamic_model(ModelParameters::default(), &mut engine),
        Err(Error::ConfigMissing)
    );
    assert_eq!(engine.state(), EngineState::Unloaded);
}

#[test]
fn choosing_a_config_only_stores_it() {
    let mut engine: Model<Weights> = Model::init();
    assert_eq!(load_model_config(first_config(), &mut engine), Ok("Model config loaded".to_string()));
    assert_eq!(engine.state(), EngineState::Unloaded);
    assert_eq!(engine.pending_config(), Some(&first_config()));
    assert_eq!(load_model_config(corrected(), &mut engine), Ok("Model config loaded".to_string()));
    assert_eq!(engine.pending_config(), Some(&corrected()));
}

#[test]
fn load_hands_out_the_chosen_config_and_the_parameters() {
    let mut engine: Model<Weights> = Model::init();
    load_model_config(first_config(), &mut engine).unwrap();
    let parameters = ModelParameters {
        prefer_mmap: false,
        context_size: 4096,
        lora_adapters: Some(vec!["/lora/a".to_string(), "/lora/b".to_string()]),
        use_gpu: true,
        gpu_layers: Some(32),
    };
    let request = load_dynamic_model(parameters.clone(), &mut engine);
    assert_eq!(request, Ok(LoadRequest { config: first_config(), parameters }));
    assert_eq!(engine.state(), EngineState::Loading);
    assert!(!engine.is_loaded());
}

#[test]
fn successful_load_then_predict() {
    let mut engine = loaded_engine();
    assert_eq!(engine.state(), EngineState::Loaded);
    assert!(engine.is_loaded());
    let prediction = predict("hello", &mut engine).unwrap();
    assert_eq!(prediction.model, Weights("m1"));
    assert_eq!(prediction.session.prompt(), "hello");
    assert_eq!(prediction.session.response(), "");
    assert_eq!(engine.state(), EngineState::Predicting);
    assert!(engine.is_loaded());
}

#[test]
fn failed_load_leaves_the_engine_unloaded_and_usable() {
    let mut engine: Model<Weights> = Model::init();
    load_model_config(first_config(), &mut engine).unwrap();
    load_dynamic_model(ModelParameters::default(), &mut engine).unwrap();
    assert_eq!(
        complete_load(Err("no such file: /models/m1.bin".to_string()), &mut engine),
        Err(Error::LoadFailure("no such file: /models/m1.bin".to_string()))
    );
    assert_eq!(engine.state(), EngineState::Unloaded);
    assert_eq!(predict("hi", &mut engine).unwrap_err(), Error::ModelNotLoaded);

    load_model_config(corrected(), &mut engine).unwrap();
    let request = load_dynamic_model(ModelParameters::default(), &mut engine).unwrap();
    assert_eq!(request.config, corrected());
    assert_eq!(complete_load(Ok(Weights("real")), &mut engine), Ok("Model loaded".to_string()));
    assert_eq!(engine.state(), EngineState::Loaded);
}

#[test]
fn failed_reload_keeps_the_old_model() {
    let mut engine = loaded_engine();
    load_dynamic_model(ModelParameters::default(), &mut engine).unwrap();
    assert_eq!(engine.state(), EngineState::Loading);
    assert!(complete_load(Err("corrupt".to_string()), &mut engine).is_err());
    assert_eq!(engine.state(), EngineState::Loaded);
    assert_eq!(predict("x", &mut engine).unwrap().model, Weights("m1"));
}

#[test]
fn successful_reload_replaces_the_model() {
    let mut engine = loaded_engine();
    load_model_config(corrected(), &mut engine).unwrap();
    load_dynamic_model(ModelParameters::default(), &mut engine).unwrap();
    complete_load(Ok(Weights("real")), &mut engine).unwrap();
    assert_eq!(engine.state(), EngineState::Loaded);
    assert_eq!(predict("x", &mut engine).unwrap().model, Weights("real"));
}

#[test]
fn predict_needs_a_loaded_model() {
    let mut engine: Model<Weights> = Model::init();
    assert_eq!(predict("hi", &mut engine).unwrap_err(), Error::ModelNotLoaded);
    load_model_config(first_config(), &mut engine).unwrap();
    assert_eq!(predict("hi", &mut engine).unwrap_err(), Error::ModelNotLoaded);
    load_dynamic_model(ModelParameters::default(), &mut engine).unwrap();
    assert_eq!(predict("hi", &mut engine).unwrap_err(), Error::Busy);
    complete_load(Ok(Weights("m1")), &mut engine).unwrap();
    assert!(predict("hi", &mut engine).is_ok());
}

#[test]
fn a_second_prediction_is_busy() {
    let mut engine = loaded_engine();
    let first = predict("one", &mut engine).unwrap();
    assert_eq!(predict("two", &mut engine).unwrap_err(), Error::Busy);
    assert_eq!(engine.state(), EngineState::Predicting);
    complete_predict(first, Ok(stats()), &mut engine).unwrap();
    assert_eq!(engine.state(), EngineState::Loaded);
    assert!(predict("two", &mut engine).is_ok());
}

#[test]
fn everything_else_is_busy_while_loading_or_predicting() {
    let mut engine: Model<Weights> = Model::init();
    load_model_config(first_config(), &mut engine).unwrap();
    load_dynamic_model(ModelParameters::default(), &mut engine).unwrap();
    assert_eq!(load_model_config(corrected(), &mut engine), Err(Error::Busy));
    assert_eq!(load_dynamic_model(ModelParameters::default(), &mut engine), Err(Error::Busy));
    assert_eq!(unload_dynamic_model(&mut engine), Err(Error::Busy));
    assert_eq!(engine.pending_config(), Some(&first_config()));
    assert_eq!(engine.state(), EngineState::Loading);
    complete_load(Ok(Weights("m1")), &mut engine).unwrap();

    let prediction = predict("p", &mut engine).unwrap();
    assert_eq!(load_model_config(corrected(), &mut engine), Err(Error::Busy));
    assert_eq!(load_dynamic_model(ModelParameters::default(), &mut engine), Err(Error::Busy));
    assert_eq!(unload_dynamic_model(&mut engine), Err(Error::Busy));
    assert_eq!(engine.state(), EngineState::Predicting);
    complete_predict(prediction, Ok(stats()), &mut engine).unwrap();
    assert_eq!(unload_dynamic_model(&mut engine), Ok("Model unloaded".to_string()));
}

#[test]
fn unload_is_idempotent() {
    let mut never: Model<Weights> = Model::init();
    assert_eq!(unload_dynamic_model(&mut never), Ok("Model unloaded".to_string()));
    assert_eq!(unload_dynamic_model(&mut never), Ok("Model unloaded".to_string()));
    assert_eq!(never.state(), EngineState::Unloaded);

    let mut engine = loaded_engine();
    assert_eq!(unload_dynamic_model(&mut engine), Ok("Model unloaded".to_string()));
    assert_eq!(engine.state(), EngineState::Unloaded);
    assert_eq!(unload_dynamic_model(&mut engine), Ok("Model unloaded".to_string()));
    assert_eq!(engine.state(), EngineState::Unloaded);
    assert_eq!(engine.pending_config(), Some(&first_config()));
    assert_eq!(predict("x", &mut engine).unwrap_err(), Error::ModelNotLoaded);
}

#[test]
fn a_failed_prediction_keeps_the_model() {
    let mut engine = loaded_engine();
    let prediction = predict("p", &mut engine).unwrap();
    assert_eq!(
        complete_predict(prediction, Err("tokenizer mismatch".to_string()), &mut engine),
        Err(Error::InferenceFailure("tokenizer mismatch".to_string()))
    );
    assert_eq!(engine.state(), EngineState::Loaded);
    assert_eq!(predict("again", &mut engine).unwrap().model, Weights("m1"));
}

#[test]
fn a_whole_prediction_streams_and_completes() {
    let mut bus = SyncBus::new();
    let listener = bus.subscribe(Channel::TokenProduced);
    let mut engine = loaded_engine();
    let mut prediction = predict("Say hi", &mut engine).unwrap();
    let events = vec![
        InferenceResponse::PromptToken("Say".to_string()),
        InferenceResponse::PromptToken(" hi".to_string()),
        InferenceResponse::InferredToken("Hel".to_string()),
        InferenceResponse::InferredToken("lo".to_string()),
        InferenceResponse::InferredToken("!".to_string()),
        InferenceResponse::EotToken,
    ];
    let mut answers = Vec::new();
    for event in events {
        answers.push(prediction.session.on_response(event, false, &mut bus));
    }
    assert_eq!(
        answers,
        vec![
            InferenceFeedback::Continue,
            InferenceFeedback::Continue,
            InferenceFeedback::Continue,
            InferenceFeedback::Continue,
            InferenceFeedback::Continue,
            InferenceFeedback::Halt,
        ]
    );
    let ended = complete_predict(prediction, Ok(stats()), &mut engine);
    assert_eq!(
        ended,
        Ok(Completion { response: "Hello!".to_string(), stats: stats(), partial: false })
    );
    assert_eq!(
        bus.drain(listener),
        vec![
            Signal::TokenProduced("Hel".to_string()),
            Signal::TokenProduced("lo".to_string()),
            Signal::TokenProduced("!".to_string()),
        ]
    );
    assert_eq!(engine.state(), EngineState::Loaded);
}

#[test]
fn reports_without_work_in_progress_are_turned_away() {
    let mut engine: Model<Weights> = Model::init();
    assert_eq!(
        complete_load(Ok(Weights("stray")), &mut engine),
        Err(Error::LoadFailure("No load in progress".to_string()))
    );
    assert_eq!(
        complete_load(Err("late".to_string()), &mut engine),
        Err(Error::LoadFailure("No load in progress".to_string()))
    );
    assert_eq!(engine.state(), EngineState::Unloaded);

    let mut loaded = loaded_engine();
    let prediction = predict("p", &mut loaded).unwrap();
    assert_eq!(
        complete_predict(prediction, Ok(stats()), &mut engine),
        Err(Error::InferenceFailure("No prediction in progress".to_string()))
    );
    assert_eq!(engine.state(), EngineState::Unloaded);
    assert_eq!(loaded.state(), EngineState::Predicting);
}

#[test]
fn simulated_commands_answer_at_once() {
    let engine: Model<Weights> = Model::init();
    assert_eq!(predict_simulated("anything", &engine), Ok(InferenceStats::default()));
    assert_eq!(load_dynamic_model_simulated(&engine), Ok(String::new()));
    assert_eq!(unload_dynamic_model_simulated(&engine), Ok(String::new()));
    assert_eq!(load_model_config_simulated(first_config(), &engine), Ok(String::new()));
    assert_eq!(engine.state(), EngineState::Unloaded);
    assert_eq!(engine.pending_config(), None);
}

#[test]
fn engine_methods_agree_with_the_commands() {
    let mut engine: Model<Weights> = Model::init();
    assert_eq!(engine.begin_load(ModelParameters::default()), Err(Error::ConfigMissing));
    assert_eq!(engine.set_pending_config(first_config()), Ok(()));
    assert!(engine.begin_load(ModelParameters::default()).is_ok());
    assert_eq!(engine.set_pending_config(first_config()), Err(Error::Busy));
    assert_eq!(engine.unload(), Err(Error::Busy));
    assert!(engine.finish_load(Some(Weights("w"))));
    assert!(!engine.finish_load(Some(Weights("again"))));
    assert_eq!(engine.begin_predict(), Ok(Weights("w")));
    assert_eq!(engine.begin_predict(), Err(Error::Busy));
    assert!(engine.finish_predict(Weights("w")));
    assert!(!engine.finish_predict(Weights("stray")));
    assert_eq!(engine.begin_predict(), Ok(Weights("w")));
    assert!(engine.finish_predict(Weights("w")));
    assert_eq!(engine.unload(), Ok(()));
    assert_eq!(engine.begin_predict(), Err(Error::ModelNotLoaded));
}
