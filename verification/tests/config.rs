use summarizer::config::{
    bart_config, build_config, long_t5_config, prophetnet_config, select_config, t5_config,
    Artifact, ConfigurationError, Device, ModelFamily, ModelType, PretrainedSet, ResourceLocator,
    SummarizationConfig, MAX_LENGTH_OFFSET,
};

const SUPPORTED: [ModelType; 4] =
    [ModelType::LongT5, ModelType::T5, ModelType::Bart, ModelType::ProphetNet];

const UNSUPPORTED: [ModelType; 22] = [
    ModelType::Bert,
    ModelType::DistilBert,
    ModelType::Deberta,
    ModelType::DebertaV2,
    ModelType::Roberta,
    ModelType::XLMRoberta,
    ModelType::Electra,
    ModelType::Marian,
    ModelType::MobileBert,
    ModelType::Albert,
    ModelType::XLNet,
    ModelType::GPT2,
    ModelType::GPTJ,
    ModelType::OpenAiGpt,
    ModelType::Reformer,
    ModelType::Longformer,
    ModelType::Pegasus,
    ModelType::GPTNeo,
    ModelType::MBart,
    ModelType::M2M100,
    ModelType::NLLB,
    ModelType::FNet,
];

fn locator(set: PretrainedSet, artifact: Artifact) -> ResourceLocator {
    ResourceLocator { set, artifact }
}

#[test]
fn max_length_adds_the_offset() {
    let config = select_config(ModelType::T5, 10, false).unwrap();
    assert_eq!(MAX_LENGTH_OFFSET, 30);
    assert_eq!(config.min_length, 10);
    assert_eq!(config.max_length, Some(40));
}

#[test]
fn every_supported_family_has_ordered_lengths() {
    for model_type in SUPPORTED {
        for min_length in [0, 1, 56, 1_000_000, i64::MAX - 30] {
            let config = select_config(model_type, min_length, false).unwrap();
            let max_length = config.max_length.unwrap();
            assert!(max_length >= config.min_length);
            assert_eq!(max_length, min_length + 30);
            assert!(config.validate().is_ok());
        }
    }
}

#[test]
fn every_unsupported_model_type_is_refused() {
    for model_type in UNSUPPORTED {
        for min_length in [-5, 0, 10, i64::MAX] {
            assert_eq!(
                select_config(model_type, min_length, true).unwrap_err(),
                ConfigurationError::UnknownModelFamily
            );
        }
        assert_eq!(
            ModelFamily::from_model_type(model_type),
            Err(ConfigurationError::UnknownModelFamily)
        );
    }
}

#[test]
fn supported_and_unsupported_cover_all_model_types() {
    assert_eq!(SUPPORTED.len() + UNSUPPORTED.len(), 26);
    for model_type in SUPPORTED {
        let family = ModelFamily::from_model_type(model_type).unwrap();
        assert_eq!(family.model_type(), model_type);
    }
}

#[test]
fn long_t5_preset() {
    let config = select_config(ModelType::LongT5, 20, false).unwrap();
    let set = PretrainedSet::LongT5TglobalBaseBookSummary;
    assert_eq!(config.model_family, ModelFamily::LongT5);
    assert_eq!(config.model_resource, locator(set, Artifact::Weights));
    assert_eq!(config.config_resource, locator(set, Artifact::Config));
    assert_eq!(config.vocab_resource, locator(set, Artifact::Vocab));
    assert_eq!(config.merges_resource, None);
    assert_eq!(config.num_beams, 3);
    assert_eq!(config.length_penalty_tenths, 10);
    assert_eq!(config.no_repeat_ngram_size, 3);
    assert_eq!(config.min_length, 20);
    assert_eq!(config.max_length, Some(50));
}

#[test]
fn t5_preset() {
    let config = select_config(ModelType::T5, 0, false).unwrap();
    let set = PretrainedSet::T5Small;
    assert_eq!(config.model_family, ModelFamily::T5);
    assert_eq!(config.model_resource, locator(set, Artifact::Weights));
    assert_eq!(config.config_resource, locator(set, Artifact::Config));
    assert_eq!(config.vocab_resource, locator(set, Artifact::Vocab));
    assert_eq!(config.merges_resource, None);
    assert_eq!(config.num_beams, 3);
    assert_eq!(config.length_penalty_tenths, 10);
    assert_eq!(config.no_repeat_ngram_size, 3);
    assert_eq!(config.max_length, Some(30));
}

#[test]
fn bart_preset_has_merges_and_one_beam() {
    let config = select_config(ModelType::Bart, 56, false).unwrap();
    let set = PretrainedSet::DistilBartCnn6x6;
    assert_eq!(config.model_family, ModelFamily::Bart);
    assert_eq!(config.model_resource, locator(set, Artifact::Weights));
    assert_eq!(config.config_resource, locator(set, Artifact::Config));
    assert_eq!(config.vocab_resource, locator(set, Artifact::Vocab));
    assert_eq!(config.merges_resource, Some(locator(set, Artifact::Merges)));
    assert_eq!(config.num_beams, 1);
    assert_eq!(config.length_penalty_tenths, 10);
    assert_eq!(config.no_repeat_ngram_size, 3);
    assert_eq!(config.max_length, Some(86));
}

#[test]
fn prophetnet_preset_has_four_beams_and_penalty() {
    let config = select_config(ModelType::ProphetNet, 7, false).unwrap();
    let set = PretrainedSet::ProphetNetLargeCnnDm;
    assert_eq!(config.model_family, ModelFamily::ProphetNet);
    assert_eq!(config.model_resource, locator(set, Artifact::Weights));
    assert_eq!(config.config_resource, locator(set, Artifact::Config));
    assert_eq!(config.vocab_resource, locator(set, Artifact::Vocab));
    assert_eq!(config.merges_resource, None);
    assert_eq!(config.num_beams, 4);
    assert_eq!(config.length_penalty_tenths, 12);
    assert_eq!(config.no_repeat_ngram_size, 3);
    assert_eq!(config.max_length, Some(37));
}

#[test]
fn device_follows_the_accelerator() {
    assert_eq!(Device::select(true), Device::Cuda(0));
    assert_eq!(Device::select(false), Device::Cpu);
    assert_eq!(select_config(ModelType::Bart, 1, true).unwrap().device, Device::Cuda(0));
    assert_eq!(select_config(ModelType::Bart, 1, false).unwrap().device, Device::Cpu);
}

#[test]
fn negative_minimum_is_refused() {
    for model_type in SUPPORTED {
        assert_eq!(
            select_config(model_type, -1, false).unwrap_err(),
            ConfigurationError::InvalidDecodingParameters
        );
        assert_eq!(
            select_config(model_type, i64::MIN, false).unwrap_err(),
            ConfigurationError::InvalidDecodingParameters
        );
    }
}

#[test]
fn minimum_without_room_for_the_offset_is_refused() {
    assert!(select_config(ModelType::T5, i64::MAX - 30, false).is_ok());
    assert_eq!(
        select_config(ModelType::T5, i64::MAX - 29, false).unwrap_err(),
        ConfigurationError::InvalidDecodingParameters
    );
    assert_eq!(
        select_config(ModelType::T5, i64::MAX, false).unwrap_err(),
        ConfigurationError::InvalidDecodingParameters
    );
}

#[test]
fn build_config_checks_the_lengths() {
    let device = Device::Cpu;
    assert!(build_config(ModelFamily::Bart, 5, Some(5), device).is_ok());
    assert!(build_config(ModelFamily::Bart, 5, None, device).is_ok());
    assert_eq!(build_config(ModelFamily::Bart, 5, None, device).unwrap().max_length, None);
    assert_eq!(
        build_config(ModelFamily::Bart, 5, Some(4), device).unwrap_err(),
        ConfigurationError::InvalidDecodingParameters
    );
    assert_eq!(
        build_config(ModelFamily::Bart, -1, Some(4), device).unwrap_err(),
        ConfigurationError::InvalidDecodingParameters
    );
    assert_eq!(
        build_config(ModelFamily::Bart, -1, None, device).unwrap_err(),
        ConfigurationError::InvalidDecodingParameters
    );
}

#[test]
fn build_config_dispatches_to_the_family_builders() {
    let device = Device::Cuda(0);
    let built = [
        (ModelFamily::LongT5, long_t5_config(3, Some(9), device)),
        (ModelFamily::T5, t5_config(3, Some(9), device)),
        (ModelFamily::Bart, bart_config(3, Some(9), device)),
        (ModelFamily::ProphetNet, prophetnet_config(3, Some(9), device)),
    ];
    for (family, expected) in built {
        let config = build_config(family, 3, Some(9), device).unwrap();
        assert!(config.same_as(&expected));
        assert_eq!(config.model_family, family);
        assert_eq!(config.device, device);
    }
}

#[test]
fn validate_refuses_bad_decoding_parameters() {
    let good = select_config(ModelType::T5, 10, false).unwrap();
    assert_eq!(good.validate(), Ok(()));
    let cases = [
        SummarizationConfig { num_beams: 0, ..good },
        SummarizationConfig { length_penalty_tenths: 0, ..good },
        SummarizationConfig { no_repeat_ngram_size: -1, ..good },
        SummarizationConfig { min_length: -1, ..good },
        SummarizationConfig { max_length: Some(9), ..good },
    ];
    for config in cases {
        assert_eq!(config.validate(), Err(ConfigurationError::InvalidDecodingParameters));
    }
    assert_eq!(SummarizationConfig { no_repeat_ngram_size: 0, ..good }.validate(), Ok(()));
    assert_eq!(SummarizationConfig { max_length: None, ..good }.validate(), Ok(()));
    assert_eq!(SummarizationConfig { max_length: Some(10), ..good }.validate(), Ok(()));
}

#[test]
fn same_as_compares_every_field() {
    let a = select_config(ModelType::Bart, 10, false).unwrap();
    let b = select_config(ModelType::Bart, 10, false).unwrap();
    assert!(a.same_as(&b));
    let set = PretrainedSet::T5Small;
    let others = [
        SummarizationConfig { model_family: ModelFamily::T5, ..a },
        SummarizationConfig { model_resource: locator(set, Artifact::Weights), ..a },
        SummarizationConfig { config_resource: locator(set, Artifact::Config), ..a },
        SummarizationConfig { vocab_resource: locator(set, Artifact::Vocab), ..a },
        SummarizationConfig { merges_resource: None, ..a },
        SummarizationConfig { merges_resource: Some(locator(set, Artifact::Merges)), ..a },
        SummarizationConfig { device: Device::Cuda(0), ..a },
        SummarizationConfig { num_beams: 2, ..a },
        SummarizationConfig { length_penalty_tenths: 12, ..a },
        SummarizationConfig { min_length: 11, ..a },
        SummarizationConfig { max_length: None, ..a },
        SummarizationConfig { max_length: Some(41), ..a },
        SummarizationConfig { no_repeat_ngram_size: 0, ..a },
    ];
    for other in others {
        assert!(!a.same_as(&other));
        assert!(!other.same_as(&a));
    }
}
