//! Loading the summarization engine once and keeping it.
//!
//! The holder has one place for one engine. It is filled on first use and then
//! stays as it is: asking again with the same configuration hands back the
//! engine that is there, and asking with another one is refused. Building an
//! engine is left to the caller, who passes the builder in; the holder decides
//! whether it runs.

use crate::config::{select_config, selection, ConfigurationError, ModelType, SummarizationConfig};
use vstd::prelude::*;

verus! {

/// What a builder reports when it has no engine to give.
#[derive(Clone, Copy, Debug, PartialEq, Eq, Structural)]
pub enum LoadFailure {
    /// An artifact could not be fetched or read.
    ResourceAcquisition,
    /// The artifacts were there but no engine could be made of them.
    EngineConstruction,
}

/// Why an engine is not in place after a load was asked for.
#[derive(Clone, Copy, Debug, PartialEq, Eq, Structural)]
pub enum LoadError {
    /// Nothing was fetched: the configuration itself was refused.
    Configuration(ConfigurationError),
    /// An artifact could not be fetched or read.
    ResourceAcquisition,
    /// The artifacts were there but no engine could be made of them.
    EngineConstruction,
}

/// What the holder does with a request to load.
#[derive(Clone, Copy, Debug, PartialEq, Eq, Structural)]
pub enum LoadDecision {
    /// The engine in place was built from this very configuration.
    Reuse,
    /// The holder is empty: build an engine.
    Load,
    /// Build nothing and report the error.
    Refuse(ConfigurationError),
}

/// An engine together with the configuration it was built from.
struct Loaded<E> {
    config: SummarizationConfig,
    engine: E,
}

/// The one place where the engine of a process lives.
pub struct EngineHolder<E> {
    slot: Option<Loaded<E>>,
}

/// The decision for a request, given the configuration of the engine in
/// place, if any. Bad decoding parameters are refused first; an empty holder
/// loads; a full one reuses its engine for the same configuration and refuses
/// any other.
pub open spec fn load_decision(current: Option<SummarizationConfig>, requested: SummarizationConfig)
    -> LoadDecision {
    if !requested.decoding_valid() {
        LoadDecision::Refuse(ConfigurationError::InvalidDecodingParameters)
    } else {
        match current {
            None => LoadDecision::Load,
            Some(config) => if config == requested {
                LoadDecision::Reuse
            } else {
                LoadDecision::Refuse(ConfigurationError::ConflictsWithLoadedEngine)
            },
        }
    }
}

/// What is in the holder after the builder has answered.
pub open spec fn after_build<E>(
    before: Option<(SummarizationConfig, E)>,
    config: SummarizationConfig,
    outcome: Result<E, LoadFailure>,
) -> Option<(SummarizationConfig, E)> {
    match outcome {
        Ok(engine) => Some((config, engine)),
        Err(_) => before,
    }
}

/// What the caller is told after the builder has answered.
pub open spec fn build_result<E>(outcome: Result<E, LoadFailure>) -> Result<(), LoadError> {
    match outcome {
        Ok(_) => Ok(()),
        Err(failure) => Err(LoadError::spec_from_failure(failure)),
    }
}

/// The configuration in a holder's content.
pub open spec fn config_of<E>(content: Option<(SummarizationConfig, E)>) -> Option<
    SummarizationConfig,
> {
    match content {
        Some(pair) => Some(pair.0),
        None => None,
    }
}

impl LoadError {
    /// The error that stands for a builder's failure.
    pub open spec fn spec_from_failure(failure: LoadFailure) -> LoadError {
        match failure {
            LoadFailure::ResourceAcquisition => LoadError::ResourceAcquisition,
            LoadFailure::EngineConstruction => LoadError::EngineConstruction,
        }
    }

    /// The error that stands for a builder's failure.
    pub fn from_failure(failure: LoadFailure) -> (r: LoadError)
        ensures
            r == LoadError::spec_from_failure(failure),
    {
        match failure {
            LoadFailure::ResourceAcquisition => LoadError::ResourceAcquisition,
            LoadFailure::EngineConstruction => LoadError::EngineConstruction,
        }
    }

    /// Says in a few words why the engine is not in place.
    pub fn label(&self) -> (r: &'static str)
        ensures
            r@ == (match *self {
                LoadError::Configuration(ConfigurationError::UnknownModelFamily) =>
                    "unknown model family"@,
                LoadError::Configuration(ConfigurationError::InvalidDecodingParameters) =>
                    "invalid decoding parameters"@,
                LoadError::Configuration(ConfigurationError::ConflictsWithLoadedEngine) =>
                    "another engine is in place"@,
                LoadError::ResourceAcquisition => "resource not available"@,
                LoadError::EngineConstruction => "engine could not be built"@,
            }),
    {
        match self {
            LoadError::Configuration(ConfigurationError::UnknownModelFamily) => {
                "unknown model family"
            },
            LoadError::Configuration(ConfigurationError::InvalidDecodingParameters) => {
                "invalid decoding parameters"
            },
            LoadError::Configuration(ConfigurationError::ConflictsWithLoadedEngine) => {
                "another engine is in place"
            },
            LoadError::ResourceAcquisition => "resource not available",
            LoadError::EngineConstruction => "engine could not be built",
        }
    }

    /// Whether the same request may succeed if it is made again: only a
    /// resource that could not be had may be there the next time.
    pub fn is_retryable(&self) -> (r: bool)
        ensures
            r == (*self is ResourceAcquisition),
    {
        match self {
            LoadError::ResourceAcquisition => true,
            _ => false,
        }
    }
}

impl<E> EngineHolder<E> {
    /// The engine in place and the configuration it was built from.
    pub closed spec fn view(&self) -> Option<(SummarizationConfig, E)> {
        match self.slot {
            Some(loaded) => Some((loaded.config, loaded.engine)),
            None => None,
        }
    }

    /// An empty holder.
    pub fn new() -> (r: Self)
        ensures
            r@ is None,
    {
        EngineHolder { slot: None }
    }

    /// Whether an engine is in place.
    pub fn is_loaded(&self) -> (r: bool)
        ensures
            r == (self@ is Some),
    {
        self.slot.is_some()
    }

    /// The configuration of the engine in place.
    pub fn config(&self) -> (r: Option<SummarizationConfig>)
        ensures
            r == config_of(self@),
    {
        match &self.slot {
            Some(loaded) => Some(loaded.config),
            None => None,
        }
    }

    /// The engine in place.
    pub fn engine(&self) -> (r: Option<&E>)
        ensures
            match r {
                Some(engine) => self@ matches Some(pair) && pair.1 == *engine,
                None => self@ is None,
            },
    {
        match &self.slot {
            Some(loaded) => Some(&loaded.engine),
            None => None,
        }
    }

    /// Decides what a request to load with `config` leads to.
    pub fn decide(&self, config: &SummarizationConfig) -> (r: LoadDecision)
        ensures
            r == load_decision(config_of(self@), *config),
    {
        match config.validate() {
            Err(e) => LoadDecision::Refuse(e),
            Ok(()) => match &self.slot {
                None => LoadDecision::Load,
                Some(loaded) => if loaded.config.same_as(config) {
                    LoadDecision::Reuse
                } else {
                    LoadDecision::Refuse(ConfigurationError::ConflictsWithLoadedEngine)
                },
            },
        }
    }

    /// Makes sure an engine for `config` is in place. The builder runs only
    /// where the decision is to load, and is handed `config` itself. If it
    /// fails the holder stays empty and the next request may try again.
    pub fn get_or_load<F>(&mut self, config: SummarizationConfig, build: F) -> (r: Result<
        (),
        LoadError,
    >) where F: FnOnce(SummarizationConfig) -> Result<E, LoadFailure>
        requires
            load_decision(config_of(old(self)@), config) is Load ==> call_requires(
                build,
                (config,),
            ),
        ensures
            match load_decision(config_of(old(self)@), config) {
                LoadDecision::Reuse => r is Ok && final(self)@ == old(self)@,
                LoadDecision::Refuse(e) => r == Err::<(), LoadError>(LoadError::Configuration(e))
                    && final(self)@ == old(self)@,
                LoadDecision::Load => exists|outcome: Result<E, LoadFailure>|
                    {
                        &&& #[trigger] call_ensures(build, (config,), outcome)
                        &&& final(self)@ == after_build(old(self)@, config, outcome)
                        &&& r == build_result(outcome)
                    },
            },
    {
        match self.decide(&config) {
            LoadDecision::Reuse => Ok(()),
            LoadDecision::Refuse(e) => Err(LoadError::Configuration(e)),
            LoadDecision::Load => {
                let outcome = build(config);
                match outcome {
                    Ok(engine) => {
                        self.slot = Some(Loaded { config, engine });
                        Ok(())
                    },
                    Err(failure) => Err(LoadError::from_failure(failure)),
                }
            },
        }
    }
}

/// Selects the configuration for a model type and a minimum summary length
/// and makes sure that its engine is in place. A request that the selector
/// refuses fails before the builder is asked for anything.
pub fn init_summarization_model<E, F>(
    holder: &mut EngineHolder<E>,
    model_type: ModelType,
    minlength: i64,
    accelerator_available: bool,
    build: F,
) -> (r: Result<(), LoadError>) where F: FnOnce(SummarizationConfig) -> Result<E, LoadFailure>
    requires
        selection(model_type, minlength, accelerator_available) matches Ok(config) ==> (
        load_decision(config_of(old(holder)@), config) is Load ==> call_requires(build, (config,))),
    ensures
        match selection(model_type, minlength, accelerator_available) {
            Err(e) => r == Err::<(), LoadError>(LoadError::Configuration(e)) && final(holder)@
                == old(holder)@,
            Ok(config) => match load_decision(config_of(old(holder)@), config) {
                LoadDecision::Reuse => r is Ok && final(holder)@ == old(holder)@,
                LoadDecision::Refuse(e) => r == Err::<(), LoadError>(LoadError::Configuration(e))
                    && final(holder)@ == old(holder)@,
                LoadDecision::Load => exists|outcome: Result<E, LoadFailure>|
                    {
                        &&& #[trigger] call_ensures(build, (config,), outcome)
                        &&& final(holder)@ == after_build(old(holder)@, config, outcome)
                        &&& r == build_result(outcome)
                    },
            },
        },
{
    match select_config(model_type, minlength, accelerator_available) {
        Err(e) => Err(LoadError::Configuration(e)),
        Ok(config) => holder.get_or_load(config, build),
    }
}

/// Loading twice with the same configuration builds once: after a load that
/// succeeded, the same request finds its engine and reuses it.
pub proof fn lemma_same_config_is_reused<E>(
    before: Option<(SummarizationConfig, E)>,
    config: SummarizationConfig,
    engine: E,
)
    requires
        load_decision(config_of(before), config) is Load,
    ensures
        load_decision(config_of(after_build(before, config, Ok(engine))), config)
            is Reuse,
{
}

/// An engine in place is never built over: no request to a full holder is
/// answered with a load, and every failed build leaves what was there.
pub proof fn lemma_engine_in_place_stays<E>(
    before: Option<(SummarizationConfig, E)>,
    requested: SummarizationConfig,
    failure: LoadFailure,
)
    ensures
        before is Some ==> !(load_decision(config_of(before), requested) is Load),
        after_build(before, requested, Err(failure)) == before,
{
}

/// What the selector hands out is never refused for its parameters: with an
/// empty holder the decision is to load it.
pub proof fn lemma_selected_config_is_loaded(
    model_type: ModelType,
    minlength: i64,
    accelerator_available: bool,
)
    ensures
        selection(model_type, minlength, accelerator_available) matches Ok(config)
            ==> load_decision(None, config) is Load,
{
}

} // verus!
