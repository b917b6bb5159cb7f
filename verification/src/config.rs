//! Choosing the configuration of a summarization model.
//!
//! A configuration names the model family, the pretrained artifacts to load,
//! the device to run on and the decoding parameters. Nothing here touches the
//! network or the file system: a configuration is a plain value, and loading
//! what it names is the loader's business.

use vstd::prelude::*;

verus! {

/// How much longer than the minimum a summary may get.
pub const MAX_LENGTH_OFFSET: i64 = 30;

/// The architectures that a model type can name, as `rust_bert` lists them.
#[derive(Clone, Copy, Debug, PartialEq, Eq, Structural)]
pub enum ModelType {
    Bart,
    Bert,
    DistilBert,
    Deberta,
    DebertaV2,
    Roberta,
    XLMRoberta,
    Electra,
    Marian,
    MobileBert,
    T5,
    LongT5,
    Albert,
    XLNet,
    GPT2,
    GPTJ,
    OpenAiGpt,
    Reformer,
    ProphetNet,
    Longformer,
    Pegasus,
    GPTNeo,
    MBart,
    M2M100,
    NLLB,
    FNet,
}

/// The model families this service can summarize with.
#[derive(Clone, Copy, Debug, PartialEq, Eq, Structural)]
pub enum ModelFamily {
    LongT5,
    T5,
    Bart,
    ProphetNet,
}

/// Where a model runs.
#[derive(Clone, Copy, Debug, PartialEq, Eq, Structural)]
pub enum Device {
    /// General-purpose compute.
    Cpu,
    /// The accelerator with the given index.
    Cuda(usize),
}

/// A published set of pretrained artifacts.
#[derive(Clone, Copy, Debug, PartialEq, Eq, Structural)]
pub enum PretrainedSet {
    LongT5TglobalBaseBookSummary,
    T5Small,
    DistilBartCnn6x6,
    ProphetNetLargeCnnDm,
}

/// The parts a pretrained set is made of.
#[derive(Clone, Copy, Debug, PartialEq, Eq, Structural)]
pub enum Artifact {
    Weights,
    Config,
    Vocab,
    Merges,
}

/// Names one artifact of one pretrained set.
#[derive(Clone, Copy, Debug, PartialEq, Eq, Structural)]
pub struct ResourceLocator {
    pub set: PretrainedSet,
    pub artifact: Artifact,
}

/// Why no configuration can be had or used.
#[derive(Clone, Copy, Debug, PartialEq, Eq, Structural)]
pub enum ConfigurationError {
    /// The model type is none of the supported families.
    UnknownModelFamily,
    /// The decoding parameters contradict each other or are out of range.
    InvalidDecodingParameters,
    /// An engine built from another configuration is already in place.
    ConflictsWithLoadedEngine,
}

/// Everything needed to load a summarization model and to decode with it.
#[derive(Clone, Copy, Debug)]
pub struct SummarizationConfig {
    pub model_family: ModelFamily,
    pub model_resource: ResourceLocator,
    pub config_resource: ResourceLocator,
    pub vocab_resource: ResourceLocator,
    /// Only families with a byte-pair vocabulary have merges.
    pub merges_resource: Option<ResourceLocator>,
    pub device: Device,
    /// Number of beams of the beam search, at least one.
    pub num_beams: i64,
    /// Length penalty in tenths: 12 stands for 1.2. More than zero.
    pub length_penalty_tenths: i64,
    /// Shortest summary, in tokens. Never negative.
    pub min_length: i64,
    /// Longest summary, in tokens, where there is a limit.
    pub max_length: Option<i64>,
    /// Size of the n-grams that may not repeat; 0 switches the rule off.
    pub no_repeat_ngram_size: i64,
}

impl ModelFamily {
    /// The family that a model type names, if it is a supported one.
    pub open spec fn recognized(model_type: ModelType) -> Option<ModelFamily> {
        match model_type {
            ModelType::LongT5 => Some(ModelFamily::LongT5),
            ModelType::T5 => Some(ModelFamily::T5),
            ModelType::Bart => Some(ModelFamily::Bart),
            ModelType::ProphetNet => Some(ModelFamily::ProphetNet),
            _ => None,
        }
    }

    /// The model type that names this family.
    pub open spec fn spec_model_type(self) -> ModelType {
        match self {
            ModelFamily::LongT5 => ModelType::LongT5,
            ModelFamily::T5 => ModelType::T5,
            ModelFamily::Bart => ModelType::Bart,
            ModelFamily::ProphetNet => ModelType::ProphetNet,
        }
    }

    /// The pretrained artifacts that this family is served from.
    pub open spec fn spec_pretrained(self) -> PretrainedSet {
        match self {
            ModelFamily::LongT5 => PretrainedSet::LongT5TglobalBaseBookSummary,
            ModelFamily::T5 => PretrainedSet::T5Small,
            ModelFamily::Bart => PretrainedSet::DistilBartCnn6x6,
            ModelFamily::ProphetNet => PretrainedSet::ProphetNetLargeCnnDm,
        }
    }

    /// Whether the family's tokenizer needs a merges file.
    pub open spec fn spec_has_merges(self) -> bool {
        self == ModelFamily::Bart
    }

    /// Beams of this family's preset.
    pub open spec fn spec_num_beams(self) -> i64 {
        match self {
            ModelFamily::LongT5 => 3,
            ModelFamily::T5 => 3,
            ModelFamily::Bart => 1,
            ModelFamily::ProphetNet => 4,
        }
    }

    /// Length penalty of this family's preset, in tenths.
    pub open spec fn spec_length_penalty_tenths(self) -> i64 {
        match self {
            ModelFamily::ProphetNet => 12,
            _ => 10,
        }
    }

    /// Every preset forbids a repeated trigram.
    pub open spec fn spec_no_repeat_ngram_size(self) -> i64 {
        3
    }

    /// Tells which supported family a model type names.
    pub fn from_model_type(model_type: ModelType) -> (r: Result<ModelFamily, ConfigurationError>)
        ensures
            r == (match ModelFamily::recognized(model_type) {
                Some(family) => Ok::<ModelFamily, ConfigurationError>(family),
                None => Err(ConfigurationError::UnknownModelFamily),
            }),
    {
        match model_type {
            ModelType::LongT5 => Ok(ModelFamily::LongT5),
            ModelType::T5 => Ok(ModelFamily::T5),
            ModelType::Bart => Ok(ModelFamily::Bart),
            ModelType::ProphetNet => Ok(ModelFamily::ProphetNet),
            _ => Err(ConfigurationError::UnknownModelFamily),
        }
    }

    /// The model type that names this family.
    pub fn model_type(self) -> (r: ModelType)
        ensures
            r == self.spec_model_type(),
            ModelFamily::recognized(r) == Some(self),
    {
        match self {
            ModelFamily::LongT5 => ModelType::LongT5,
            ModelFamily::T5 => ModelType::T5,
            ModelFamily::Bart => ModelType::Bart,
            ModelFamily::ProphetNet => ModelType::ProphetNet,
        }
    }
}

impl Device {
    /// The device to prefer: the first accelerator where there is one.
    pub open spec fn preferred(accelerator_available: bool) -> Device {
        if accelerator_available {
            Device::Cuda(0)
        } else {
            Device::Cpu
        }
    }

    /// Picks the first accelerator if one is available and the processor
    /// otherwise.
    pub fn select(accelerator_available: bool) -> (r: Device)
        ensures
            r == Device::preferred(accelerator_available),
    {
        if accelerator_available {
            Device::Cuda(0)
        } else {
            Device::Cpu
        }
    }
}

/// Whether a minimum and a maximum length can stand together.
pub open spec fn lengths_valid(min_length: i64, max_length: Option<i64>) -> bool {
    &&& 0 <= min_length
    &&& max_length matches Some(max) ==> min_length <= max
}

/// The configuration of a family for given lengths and device: the family's
/// own artifacts and its preset of decoding parameters.
pub open spec fn family_config(
    family: ModelFamily,
    min_length: i64,
    max_length: Option<i64>,
    device: Device,
) -> SummarizationConfig {
    SummarizationConfig {
        model_family: family,
        model_resource: ResourceLocator {
            set: family.spec_pretrained(),
            artifact: Artifact::Weights,
        },
        config_resource: ResourceLocator {
            set: family.spec_pretrained(),
            artifact: Artifact::Config,
        },
        vocab_resource: ResourceLocator { set: family.spec_pretrained(), artifact: Artifact::Vocab },
        merges_resource: if family.spec_has_merges() {
            Some(ResourceLocator { set: family.spec_pretrained(), artifact: Artifact::Merges })
        } else {
            None
        },
        device,
        num_beams: family.spec_num_beams(),
        length_penalty_tenths: family.spec_length_penalty_tenths(),
        min_length,
        max_length,
        no_repeat_ngram_size: family.spec_no_repeat_ngram_size(),
    }
}

/// What the selector answers: the family's configuration with the maximum
/// length `MAX_LENGTH_OFFSET` above the minimum, or the reason why there is
/// none. An unknown family is reported before a bad length.
pub open spec fn selection(model_type: ModelType, min_length: i64, accelerator_available: bool)
    -> Result<SummarizationConfig, ConfigurationError> {
    match ModelFamily::recognized(model_type) {
        None => Err(ConfigurationError::UnknownModelFamily),
        Some(family) => if 0 <= min_length && min_length + MAX_LENGTH_OFFSET <= i64::MAX {
            Ok(
                family_config(
                    family,
                    min_length,
                    Some((min_length + MAX_LENGTH_OFFSET) as i64),
                    Device::preferred(accelerator_available),
                ),
            )
        } else {
            Err(ConfigurationError::InvalidDecodingParameters)
        },
    }
}

impl SummarizationConfig {
    /// The decoding parameters are in range and the lengths are ordered.
    pub open spec fn decoding_valid(self) -> bool {
        &&& self.num_beams >= 1
        &&& self.length_penalty_tenths >= 1
        &&& self.no_repeat_ngram_size >= 0
        &&& lengths_valid(self.min_length, self.max_length)
    }

    /// The resources are those of one pretrained set, each in its place, and
    /// the merges are there exactly where the family needs them.
    pub open spec fn resources_valid(self) -> bool {
        let set = self.model_family.spec_pretrained();
        &&& self.model_resource == ResourceLocator { set, artifact: Artifact::Weights }
        &&& self.config_resource == ResourceLocator { set, artifact: Artifact::Config }
        &&& self.vocab_resource == ResourceLocator { set, artifact: Artifact::Vocab }
        &&& self.merges_resource == if self.model_family.spec_has_merges() {
            Some(ResourceLocator { set, artifact: Artifact::Merges })
        } else {
            None
        }
    }

    /// A configuration that a model can be loaded from.
    pub open spec fn well_formed(self) -> bool {
        self.decoding_valid() && self.resources_valid()
    }

    /// Checks the decoding parameters before anything is loaded.
    pub fn validate(&self) -> (r: Result<(), ConfigurationError>)
        ensures
            self.decoding_valid() ==> r == Ok::<(), ConfigurationError>(()),
            !self.decoding_valid() ==> r == Err::<(), ConfigurationError>(
                ConfigurationError::InvalidDecodingParameters,
            ),
    {
        let ordered = match self.max_length {
            Some(max) => self.min_length <= max,
            None => true,
        };
        if self.num_beams >= 1 && self.length_penalty_tenths >= 1 && self.no_repeat_ngram_size
            >= 0 && self.min_length >= 0 && ordered {
            Ok(())
        } else {
            Err(ConfigurationError::InvalidDecodingParameters)
        }
    }

    /// Whether two configurations agree in every field.
    pub fn same_as(&self, other: &SummarizationConfig) -> (r: bool)
        ensures
            r == (*self == *other),
    {
        let merges = match (self.merges_resource, other.merges_resource) {
            (Some(a), Some(b)) => a == b,
            (None, None) => true,
            _ => false,
        };
        let max = match (self.max_length, other.max_length) {
            (Some(a), Some(b)) => a == b,
            (None, None) => true,
            _ => false,
        };
        self.model_family == other.model_family && self.model_resource == other.model_resource
            && self.config_resource == other.config_resource && self.vocab_resource
            == other.vocab_resource && merges && self.device == other.device && self.num_beams
            == other.num_beams && self.length_penalty_tenths == other.length_penalty_tenths
            && self.min_length == other.min_length && max && self.no_repeat_ngram_size
            == other.no_repeat_ngram_size
    }
}

/// The configuration for LongT5: the book-summary checkpoint, three beams.
pub fn long_t5_config(min_length: i64, max_length: Option<i64>, device: Device) -> (r:
    SummarizationConfig)
    ensures
        r == family_config(ModelFamily::LongT5, min_length, max_length, device),
{
    let set = PretrainedSet::LongT5TglobalBaseBookSummary;
    SummarizationConfig {
        model_family: ModelFamily::LongT5,
        model_resource: ResourceLocator { set, artifact: Artifact::Weights },
        config_resource: ResourceLocator { set, artifact: Artifact::Config },
        vocab_resource: ResourceLocator { set, artifact: Artifact::Vocab },
        merges_resource: None,
        device,
        num_beams: 3,
        length_penalty_tenths: 10,
        min_length,
        max_length,
        no_repeat_ngram_size: 3,
    }
}

/// The configuration for T5: the small checkpoint, three beams.
pub fn t5_config(min_length: i64, max_length: Option<i64>, device: Device) -> (r:
    SummarizationConfig)
    ensures
        r == family_config(ModelFamily::T5, min_length, max_length, device),
{
    let set = PretrainedSet::T5Small;
    SummarizationConfig {
        model_family: ModelFamily::T5,
        model_resource: ResourceLocator { set, artifact: Artifact::Weights },
        config_resource: ResourceLocator { set, artifact: Artifact::Config },
        vocab_resource: ResourceLocator { set, artifact: Artifact::Vocab },
        merges_resource: None,
        device,
        num_beams: 3,
        length_penalty_tenths: 10,
        min_length,
        max_length,
        no_repeat_ngram_size: 3,
    }
}

/// The configuration for BART: the distilled CNN checkpoint with its merges,
/// greedy decoding on a single beam.
pub fn bart_config(min_length: i64, max_length: Option<i64>, device: Device) -> (r:
    SummarizationConfig)
    ensures
        r == family_config(ModelFamily::Bart, min_length, max_length, device),
{
    let set = PretrainedSet::DistilBartCnn6x6;
    SummarizationConfig {
        model_family: ModelFamily::Bart,
        model_resource: ResourceLocator { set, artifact: Artifact::Weights },
        config_resource: ResourceLocator { set, artifact: Artifact::Config },
        vocab_resource: ResourceLocator { set, artifact: Artifact::Vocab },
        merges_resource: Some(ResourceLocator { set, artifact: Artifact::Merges }),
        device,
        num_beams: 1,
        length_penalty_tenths: 10,
        min_length,
        max_length,
        no_repeat_ngram_size: 3,
    }
}

/// The configuration for ProphetNet: the large CNN/DailyMail checkpoint, four
/// beams and a length penalty of 1.2.
pub fn prophetnet_config(min_length: i64, max_length: Option<i64>, device: Device) -> (r:
    SummarizationConfig)
    ensures
        r == family_config(ModelFamily::ProphetNet, min_length, max_length, device),
{
    let set = PretrainedSet::ProphetNetLargeCnnDm;
    SummarizationConfig {
        model_family: ModelFamily::ProphetNet,
        model_resource: ResourceLocator { set, artifact: Artifact::Weights },
        config_resource: ResourceLocator { set, artifact: Artifact::Config },
        vocab_resource: ResourceLocator { set, artifact: Artifact::Vocab },
        merges_resource: None,
        device,
        num_beams: 4,
        length_penalty_tenths: 12,
        min_length,
        max_length,
        no_repeat_ngram_size: 3,
    }
}

/// Builds the configuration of a family for lengths of the caller's choice.
/// The lengths are refused when the minimum is negative or above the maximum.
pub fn build_config(
    family: ModelFamily,
    min_length: i64,
    max_length: Option<i64>,
    device: Device,
) -> (r: Result<SummarizationConfig, ConfigurationError>)
    ensures
        lengths_valid(min_length, max_length) ==> r == Ok::<
            SummarizationConfig,
            ConfigurationError,
        >(family_config(family, min_length, max_length, device)),
        !lengths_valid(min_length, max_length) ==> r == Err::<
            SummarizationConfig,
            ConfigurationError,
        >(ConfigurationError::InvalidDecodingParameters),
        r matches Ok(config) ==> config.well_formed(),
{
    let ordered = match max_length {
        Some(max) => min_length <= max,
        None => true,
    };
    if min_length < 0 || !ordered {
        return Err(ConfigurationError::InvalidDecodingParameters);
    }
    let config = match family {
        ModelFamily::LongT5 => long_t5_config(min_length, max_length, device),
        ModelFamily::T5 => t5_config(min_length, max_length, device),
        ModelFamily::Bart => bart_config(min_length, max_length, device),
        ModelFamily::ProphetNet => prophetnet_config(min_length, max_length, device),
    };
    Ok(config)
}

/// The configuration selector: from the requested model type, the minimum
/// summary length and whether an accelerator is there, to the configuration
/// to load. The maximum length is the minimum plus `MAX_LENGTH_OFFSET`.
pub fn select_config(model_type: ModelType, min_length: i64, accelerator_available: bool) -> (r:
    Result<SummarizationConfig, ConfigurationError>)
    ensures
        r == selection(model_type, min_length, accelerator_available),
        r matches Ok(config) ==> config.well_formed(),
{
    let family = match ModelFamily::from_model_type(model_type) {
        Ok(family) => family,
        Err(e) => {
            return Err(e);
        },
    };
    let max_length = match min_length.checked_add(MAX_LENGTH_OFFSET) {
        Some(max) => max,
        None => {
            return Err(ConfigurationError::InvalidDecodingParameters);
        },
    };
    build_config(family, min_length, Some(max_length), Device::select(accelerator_available))
}

/// Whenever the selector answers with a configuration, a maximum length is
/// set, it lies `MAX_LENGTH_OFFSET` above the minimum, and so never below it.
pub proof fn lemma_selected_max_length_at_least_min(
    model_type: ModelType,
    min_length: i64,
    accelerator_available: bool,
)
    ensures
        selection(model_type, min_length, accelerator_available) matches Ok(config) ==> {
            &&& config.min_length == min_length
            &&& config.max_length matches Some(max)
            &&& max == min_length + MAX_LENGTH_OFFSET
            &&& max >= config.min_length
        },
{
}

/// Every supported family gets a configuration for every minimum length that
/// is not negative and leaves room for the offset, and that configuration is
/// well formed and is the family's own.
pub proof fn lemma_supported_family_is_configured(
    model_type: ModelType,
    min_length: i64,
    accelerator_available: bool,
)
    requires
        ModelFamily::recognized(model_type) is Some,
        0 <= min_length <= i64::MAX - MAX_LENGTH_OFFSET,
    ensures
        selection(model_type, min_length, accelerator_available) matches Ok(config) && {
            &&& config.well_formed()
            &&& Some(config.model_family) == ModelFamily::recognized(model_type)
        },
{
}

/// A model type outside the supported families gets no configuration,
/// whatever the length and the device.
pub proof fn lemma_unknown_family_is_refused(
    model_type: ModelType,
    min_length: i64,
    accelerator_available: bool,
)
    requires
        ModelFamily::recognized(model_type) is None,
    ensures
        selection(model_type, min_length, accelerator_available) == Err::<
            SummarizationConfig,
            ConfigurationError,
        >(ConfigurationError::UnknownModelFamily),
{
}

} // verus!
