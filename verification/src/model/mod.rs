//! The model catalogue's records and the engine that serves one model at a time.

pub mod config;
pub mod logic;
pub mod session;
pub mod simulated;

use crate::error::{unit_view, Error, ErrorView};
use crate::model::config::{ModelConfig, ModelConfigView, ModelParameters, ModelParametersView};
use vstd::prelude::*;
use vstd::std_specs::cmp::PartialEqSpecImpl;

verus! {

/// Where the engine stands between its operations.
#[derive(Clone, Copy, Debug, PartialEq, Eq, Structural)]
pub enum EngineState {
    /// No model is in memory.
    Unloaded,
    /// The inference engine is reading a model.
    Loading,
    /// A model is in memory and idle.
    Loaded,
    /// The model in memory is generating.
    Predicting,
}

/// What the inference engine is asked to load: the chosen record and the
/// preferences of this load.
#[derive(Debug)]
pub struct LoadRequest {
    pub config: ModelConfig,
    pub parameters: ModelParameters,
}

/// Mathematical value of a [`LoadRequest`].
pub struct LoadRequestView {
    pub config: ModelConfigView,
    pub parameters: ModelParametersView,
}

impl View for LoadRequest {
    type V = LoadRequestView;

    open spec fn view(&self) -> LoadRequestView {
        LoadRequestView { config: self.config@, parameters: self.parameters@ }
    }
}

impl Clone for LoadRequest {
    fn clone(&self) -> (copy: Self)
        ensures
            copy@ == self@,
    {
        LoadRequest { config: self.config.clone(), parameters: self.parameters.clone() }
    }
}

impl PartialEq for LoadRequest {
    fn eq(&self, other: &Self) -> (equal: bool) {
        self.config == other.config && self.parameters == other.parameters
    }
}

impl PartialEqSpecImpl for LoadRequest {
    open spec fn obeys_eq_spec() -> bool {
        true
    }

    open spec fn eq_spec(&self, other: &Self) -> bool {
        self@ == other@
    }
}

/// The engine: the slot for the one model in memory, the configuration chosen
/// for the next load, and the state that keeps conflicting operations apart.
/// `M` is the handle that the inference engine gives for a loaded model.
#[derive(Debug)]
pub struct Model<M> {
    slot: Slot<M>,
    model_config: Option<ModelConfig>,
}

/// The slot of the engine, in each of the engine's states.
#[derive(Debug)]
enum Slot<M> {
    /// Empty.
    Unloaded,
    /// A load is in progress; the model that was loaded before it, if there
    /// was one, stays until the new one is there.
    Loading(Option<M>),
    /// Full.
    Loaded(M),
    /// Empty for the time of a prediction: the model is out generating.
    Predicting,
}

/// Mathematical value of a [`Model`].
pub struct ModelView<M> {
    /// Where the engine stands.
    pub state: EngineState,
    /// The model in the slot.
    pub model: Option<M>,
    /// The configuration chosen for the next load.
    pub pending: Option<ModelConfigView>,
}

impl<M> ModelView<M> {
    /// The slot is empty when no model is loaded and while the model is out
    /// generating, and full when a model is loaded and idle. During a load
    /// it still holds the model that was loaded before, if there was one.
    pub open spec fn wf(self) -> bool {
        &&& self.state == EngineState::Unloaded ==> self.model is None
        &&& self.state == EngineState::Loaded ==> self.model is Some
        &&& self.state == EngineState::Predicting ==> self.model is None
    }

    /// An engine that has done nothing yet.
    pub open spec fn initial() -> ModelView<M> {
        ModelView { state: EngineState::Unloaded, model: None, pending: None }
    }

    /// Whether a load or a prediction is in progress.
    pub open spec fn busy(self) -> bool {
        self.state == EngineState::Loading || self.state == EngineState::Predicting
    }

    /// Why a configuration cannot be chosen now, if it cannot.
    pub open spec fn set_pending_config_error(self) -> Option<ErrorView> {
        if self.busy() {
            Some(ErrorView::Busy)
        } else {
            None
        }
    }

    /// The engine after a configuration was chosen for the next load. The
    /// slot is not touched.
    pub open spec fn set_pending_config(self, config: ModelConfigView) -> ModelView<M> {
        if self.busy() {
            self
        } else {
            ModelView { pending: Some(config), ..self }
        }
    }

    /// Why a load cannot start now, if it cannot. A missing configuration
    /// is reported before anything else.
    pub open spec fn begin_load_error(self) -> Option<ErrorView> {
        if self.pending is None {
            Some(ErrorView::ConfigMissing)
        } else if self.busy() {
            Some(ErrorView::Busy)
        } else {
            None
        }
    }

    /// The engine after a load was asked for.
    pub open spec fn begin_load(self) -> ModelView<M> {
        if self.begin_load_error() is None {
            ModelView { state: EngineState::Loading, ..self }
        } else {
            self
        }
    }

    /// The state from which the load in progress started.
    pub open spec fn state_before_load(self) -> EngineState {
        if self.model is Some {
            EngineState::Loaded
        } else {
            EngineState::Unloaded
        }
    }

    /// The engine after the inference engine reported on a load. A new model
    /// replaces the one in the slot; a failure leaves the engine as it was
    /// before the load. Without a load in progress nothing changes.
    pub open spec fn finish_load(self, loaded: Option<M>) -> ModelView<M> {
        if self.state != EngineState::Loading {
            self
        } else {
            match loaded {
                Some(model) => ModelView { state: EngineState::Loaded, model: Some(model), ..self },
                None => ModelView { state: self.state_before_load(), ..self },
            }
        }
    }

    /// Why the model cannot be unloaded now, if it cannot.
    pub open spec fn unload_error(self) -> Option<ErrorView> {
        if self.busy() {
            Some(ErrorView::Busy)
        } else {
            None
        }
    }

    /// The engine after an unload was asked for.
    pub open spec fn unload(self) -> ModelView<M> {
        if self.busy() {
            self
        } else {
            ModelView { state: EngineState::Unloaded, model: None, ..self }
        }
    }

    /// Why a prediction cannot start now, if it cannot.
    pub open spec fn begin_predict_error(self) -> Option<ErrorView> {
        match self.state {
            EngineState::Loaded => None,
            EngineState::Unloaded => Some(ErrorView::ModelNotLoaded),
            EngineState::Loading => Some(ErrorView::Busy),
            EngineState::Predicting => Some(ErrorView::Busy),
        }
    }

    /// The engine after a prediction was asked for: the model leaves the
    /// slot for the time of the prediction.
    pub open spec fn begin_predict(self) -> ModelView<M> {
        if self.state == EngineState::Loaded {
            ModelView { state: EngineState::Predicting, model: None, ..self }
        } else {
            self
        }
    }

    /// The engine after a prediction ended and the model came back. Without
    /// a prediction in progress nothing changes.
    pub open spec fn finish_predict(self, model: M) -> ModelView<M> {
        if self.state == EngineState::Predicting {
            ModelView { state: EngineState::Loaded, model: Some(model), ..self }
        } else {
            self
        }
    }
}

/// A load that is asked for while no configuration is chosen is answered
/// with `ConfigMissing`, whatever the engine is doing, and changes nothing.
pub proof fn lemma_load_without_config<M>(engine: ModelView<M>)
    requires
        engine.pending is None,
    ensures
        engine.begin_load_error() == Some(ErrorView::ConfigMissing),
        engine.begin_load() == engine,
{
}

/// A prediction can start exactly when the engine is in the state `Loaded`.
/// Without a model it is answered with `ModelNotLoaded`, and during a load
/// or another prediction with `Busy`.
pub proof fn lemma_predict_iff_loaded<M>(engine: ModelView<M>)
    ensures
        engine.begin_predict_error() is None <==> engine.state == EngineState::Loaded,
        engine.state == EngineState::Unloaded ==> engine.begin_predict_error() == Some(
            ErrorView::ModelNotLoaded,
        ),
        engine.busy() ==> engine.begin_predict_error() == Some(ErrorView::Busy),
{
}

/// After a load that succeeded the engine is in the state `Loaded`, holds
/// the new model, and lets a prediction start.
pub proof fn lemma_predict_after_load<M>(engine: ModelView<M>, model: M)
    requires
        engine.begin_load_error() is None,
    ensures
        engine.begin_load().finish_load(Some(model)).state == EngineState::Loaded,
        engine.begin_load().finish_load(Some(model)).model == Some(model),
        engine.begin_load().finish_load(Some(model)).begin_predict_error() is None,
{
}

/// While a prediction is in progress a second one is answered with `Busy`
/// and changes nothing; once the first has ended, the next can start.
pub proof fn lemma_one_prediction_at_a_time<M>(engine: ModelView<M>, model: M)
    requires
        engine.begin_predict_error() is None,
    ensures
        engine.begin_predict().begin_predict_error() == Some(ErrorView::Busy),
        engine.begin_predict().begin_predict() == engine.begin_predict(),
        engine.begin_predict().finish_predict(model).begin_predict_error() is None,
{
}

/// A load that failed leaves the engine exactly as it was before the load
/// was asked for.
pub proof fn lemma_failed_load_reverts<M>(engine: ModelView<M>)
    requires
        engine.wf(),
        engine.begin_load_error() is None,
    ensures
        engine.begin_load().finish_load(None) == engine,
{
}

/// A prediction never unloads the model: when it ends, however it ends, the
/// engine is `Loaded` again and holds the model that was handed back.
pub proof fn lemma_prediction_keeps_model<M>(engine: ModelView<M>)
    requires
        engine.wf(),
        engine.begin_predict_error() is None,
    ensures
        engine.begin_predict().finish_predict(engine.model.unwrap()) == engine,
{
}

/// Unloading is idempotent. On an engine that is neither loading nor
/// predicting it succeeds and empties the slot; a second unload succeeds
/// too and changes nothing more. An engine that never loaded anything is
/// such an engine.
pub proof fn lemma_unload_idempotent<M>(engine: ModelView<M>)
    requires
        !engine.busy(),
    ensures
        engine.unload_error() is None,
        engine.unload().state == EngineState::Unloaded,
        engine.unload().model is None,
        engine.unload().unload_error() is None,
        engine.unload().unload() == engine.unload(),
        ModelView::<M>::initial().unload_error() is None,
        ModelView::<M>::initial().unload() == ModelView::<M>::initial(),
{
}

/// While a load or a prediction is in progress, choosing a configuration,
/// unloading and predicting are all answered with `Busy`, and so is a load
/// if a configuration is chosen; none of them changes anything.
pub proof fn lemma_busy_rejects<M>(engine: ModelView<M>, config: ModelConfigView)
    requires
        engine.busy(),
    ensures
        engine.set_pending_config_error() == Some(ErrorView::Busy),
        engine.unload_error() == Some(ErrorView::Busy),
        engine.begin_predict_error() == Some(ErrorView::Busy),
        engine.pending is Some ==> engine.begin_load_error() == Some(ErrorView::Busy),
        engine.set_pending_config(config) == engine,
        engine.unload() == engine,
        engine.begin_predict() == engine,
        engine.begin_load() == engine,
{
}

/// Every operation keeps the slot and the state in step.
pub proof fn lemma_engine_stays_wf<M>(
    engine: ModelView<M>,
    config: ModelConfigView,
    loaded: Option<M>,
    model: M,
)
    requires
        engine.wf(),
    ensures
        engine.set_pending_config(config).wf(),
        engine.begin_load().wf(),
        engine.finish_load(loaded).wf(),
        engine.unload().wf(),
        engine.begin_predict().wf(),
        engine.finish_predict(model).wf(),
{
}

impl<M> View for Model<M> {
    type V = ModelView<M>;

    closed spec fn view(&self) -> ModelView<M> {
        ModelView {
            state: match self.slot {
                Slot::Unloaded => EngineState::Unloaded,
                Slot::Loading(_) => EngineState::Loading,
                Slot::Loaded(_) => EngineState::Loaded,
                Slot::Predicting => EngineState::Predicting,
            },
            model: match self.slot {
                Slot::Loading(previous) => previous,
                Slot::Loaded(model) => Some(model),
                _ => None,
            },
            pending: match self.model_config {
                Some(config) => Some(config@),
                None => None,
            },
        }
    }
}

impl<M> Default for Model<M> {
    fn default() -> (engine: Self)
        ensures
            engine@ == ModelView::<M>::initial(),
    {
        Model { slot: Slot::Unloaded, model_config: None }
    }
}

impl<M> Model<M> {
    /// An engine with an empty slot and no configuration chosen.
    pub fn init() -> (engine: Self)
        ensures
            engine@ == ModelView::<M>::initial(),
            engine@.wf(),
    {
        Model { slot: Slot::Unloaded, model_config: None }
    }

    /// Where the engine stands.
    pub fn state(&self) -> (state: EngineState)
        ensures
            state == self@.state,
            self@.wf(),
    {
        match &self.slot {
            Slot::Unloaded => EngineState::Unloaded,
            Slot::Loading(_) => EngineState::Loading,
            Slot::Loaded(_) => EngineState::Loaded,
            Slot::Predicting => EngineState::Predicting,
        }
    }

    /// Whether a model is in memory, idle or generating.
    pub fn is_loaded(&self) -> (loaded: bool)
        ensures
            loaded == (self@.state == EngineState::Loaded || self@.state
                == EngineState::Predicting),
    {
        match &self.slot {
            Slot::Loaded(_) => true,
            Slot::Predicting => true,
            _ => false,
        }
    }

    /// The configuration chosen for the next load.
    pub fn pending_config(&self) -> (pending: Option<&ModelConfig>)
        ensures
            match pending {
                Some(config) => self@.pending == Some(config@),
                None => self@.pending is None,
            },
    {
        self.model_config.as_ref()
    }

    /// Chooses the configuration that the next load will use.
    pub fn set_pending_config(&mut self, config: ModelConfig) -> (done: Result<(), Error>)
        ensures
            unit_view(done) == old(self)@.set_pending_config_error(),
            final(self)@ == old(self)@.set_pending_config(config@),
            final(self)@.wf(),
    {
        match &self.slot {
            Slot::Loading(_) => Err(Error::Busy),
            Slot::Predicting => Err(Error::Busy),
            _ => {
                self.model_config = Some(config);
                Ok(())
            },
        }
    }

    /// Starts a load of the chosen configuration. On success the caller
    /// hands the request to the inference engine and reports its answer with
    /// [`Model::finish_load`].
    pub fn begin_load(&mut self, parameters: ModelParameters) -> (request: Result<LoadRequest, Error>)
        ensures
            match request {
                Ok(request) => old(self)@.begin_load_error() is None && Some(request@.config)
                    == old(self)@.pending && request@.parameters == parameters@,
                Err(error) => old(self)@.begin_load_error() == Some(error@),
            },
            final(self)@ == old(self)@.begin_load(),
            final(self)@.wf(),
    {
        let config = match &self.model_config {
            Some(config) => config.clone(),
            None => {
                return Err(Error::ConfigMissing);
            },
        };
        let mut slot = Slot::Unloaded;
        std::mem::swap(&mut slot, &mut self.slot);
        match slot {
            Slot::Unloaded => {
                self.slot = Slot::Loading(None);
                Ok(LoadRequest { config, parameters })
            },
            Slot::Loaded(model) => {
                self.slot = Slot::Loading(Some(model));
                Ok(LoadRequest { config, parameters })
            },
            busy => {
                self.slot = busy;
                Err(Error::Busy)
            },
        }
    }

    /// Takes the inference engine's answer to a load. Returns whether a load
    /// was in progress; if none was, the answer is dropped.
    pub fn finish_load(&mut self, loaded: Option<M>) -> (expected: bool)
        ensures
            expected == (old(self)@.state == EngineState::Loading),
            final(self)@ == old(self)@.finish_load(loaded),
            final(self)@.wf(),
    {
        let mut slot = Slot::Unloaded;
        std::mem::swap(&mut slot, &mut self.slot);
        match slot {
            Slot::Loading(previous) => {
                self.slot = match loaded {
                    Some(model) => Slot::Loaded(model),
                    None => match previous {
                        Some(model) => Slot::Loaded(model),
                        None => Slot::Unloaded,
                    },
                };
                true
            },
            other => {
                self.slot = other;
                false
            },
        }
    }

    /// Drops the model in the slot, if there is one.
    pub fn unload(&mut self) -> (done: Result<(), Error>)
        ensures
            unit_view(done) == old(self)@.unload_error(),
            final(self)@ == old(self)@.unload(),
            final(self)@.wf(),
    {
        match &self.slot {
            Slot::Loading(_) => Err(Error::Busy),
            Slot::Predicting => Err(Error::Busy),
            _ => {
                self.slot = Slot::Unloaded;
                Ok(())
            },
        }
    }

    /// Starts a prediction: hands out the model for the time it generates.
    /// The caller brings it back with [`Model::finish_predict`].
    pub fn begin_predict(&mut self) -> (lent: Result<M, Error>)
        ensures
            match lent {
                Ok(model) => old(self)@.begin_predict_error() is None && old(self)@.model == Some(
                    model,
                ),
                Err(error) => old(self)@.begin_predict_error() == Some(error@),
            },
            final(self)@ == old(self)@.begin_predict(),
            final(self)@.wf(),
    {
        let mut slot = Slot::Predicting;
        std::mem::swap(&mut slot, &mut self.slot);
        match slot {
            Slot::Loaded(model) => Ok(model),
            Slot::Unloaded => {
                self.slot = Slot::Unloaded;
                Err(Error::ModelNotLoaded)
            },
            busy => {
                self.slot = busy;
                Err(Error::Busy)
            },
        }
    }

    /// Takes the model back after a prediction. Returns whether a prediction
    /// was in progress; if none was, the model is dropped.
    pub fn finish_predict(&mut self, model: M) -> (expected: bool)
        ensures
            expected == (old(self)@.state == EngineState::Predicting),
            final(self)@ == old(self)@.finish_predict(model),
            final(self)@.wf(),
    {
        match &self.slot {
            Slot::Predicting => {
                self.slot = Slot::Loaded(model);
                true
            },
            _ => false,
        }
    }
}

} // verus!
