use generation_orchestrator::audio_transcription::TranscriptionModel;
use generation_orchestrator::cli_chat::ChatModel;
use generation_orchestrator::image_generation::{diffusion_config, DEFAULT_MODEL};
use generation_orchestrator::preset::{make_label, Loader, Precision, PresetConfig, Quantization};
use generation_orchestrator::promp_enhancer::EnhancerModel;

fn config(model_id: &str, loader: Loader, precision: Precision, q: Option<Quantization>) -> PresetConfig {
    PresetConfig { model_id: model_id.to_string(), loader, precision, quantization: q }
}

#[test]
fn enhancer_presets_name_their_models() {
    assert_eq!(EnhancerModel::GemmaE2b.model_id(), "google/gemma-3n-E2B-it");
    assert_eq!(EnhancerModel::GemmaE4b.model_id(), "google/gemma-3n-E4B-it");
    assert_eq!(EnhancerModel::Phi35Mini.model_id(), "microsoft/Phi-3.5-mini-instruct");
    assert_eq!(EnhancerModel::GemmaE2b.display_name(), "Gemma 3n E2B");
    assert_eq!(EnhancerModel::GemmaE4b.display_name(), "Gemma 3n E4B");
    assert_eq!(EnhancerModel::Phi35Mini.display_name(), "Phi-3.5-mini");
    assert_eq!(EnhancerModel::GemmaE2b.approx_memory(), "~1.5 GB (Q4K)");
    assert_eq!(EnhancerModel::GemmaE4b.approx_memory(), "~8 GB (F16)");
    assert_eq!(EnhancerModel::Phi35Mini.approx_memory(), "~2.8 GB (Q4K)");
}

#[test]
fn chat_presets_name_their_models() {
    assert_eq!(ChatModel::GemmaE2b.model_id(), "google/gemma-3n-E2B-it");
    assert_eq!(ChatModel::GemmaE4b.model_id(), "google/gemma-3n-E4B-it");
    assert_eq!(ChatModel::Phi35Mini.model_id(), "microsoft/Phi-3.5-mini-instruct");
    assert_eq!(ChatModel::GemmaE2b.display_name(), "Gemma 3n E2B");
    assert_eq!(ChatModel::GemmaE4b.display_name(), "Gemma 3n E4B");
    assert_eq!(ChatModel::Phi35Mini.display_name(), "Phi-3.5-mini");
    assert_eq!(ChatModel::GemmaE2b.approx_memory(), "~1.5 GB (Q4K)");
    assert_eq!(ChatModel::GemmaE4b.approx_memory(), "~8 GB (F16)");
    assert_eq!(ChatModel::Phi35Mini.approx_memory(), "~2.8 GB (Q4K)");
}

#[test]
fn transcription_presets_name_their_models() {
    assert_eq!(TranscriptionModel::GemmaE2b.model_id(), "google/gemma-3n-E2B-it");
    assert_eq!(TranscriptionModel::GemmaE4b.model_id(), "google/gemma-3n-E4B-it");
    assert_eq!(TranscriptionModel::GemmaE2b.display_name(), "Gemma 3n E2B");
    assert_eq!(TranscriptionModel::GemmaE4b.display_name(), "Gemma 3n E4B");
    assert_eq!(TranscriptionModel::GemmaE2b.approx_memory(), "~1.5 GB (Q4K)");
    assert_eq!(TranscriptionModel::GemmaE4b.approx_memory(), "~8 GB (F16)");
}

#[test]
fn default_presets_are_the_balanced_model() {
    assert_eq!(EnhancerModel::default(), EnhancerModel::GemmaE4b);
    assert_eq!(ChatModel::default(), ChatModel::GemmaE4b);
    assert_eq!(TranscriptionModel::default(), TranscriptionModel::GemmaE4b);
}

#[test]
fn enhancer_presets_resolve() {
    assert_eq!(
        EnhancerModel::GemmaE2b.resolve(),
        config("google/gemma-3n-E2B-it", Loader::Text, Precision::Auto, Some(Quantization::Q4K))
    );
    assert_eq!(
        EnhancerModel::GemmaE4b.resolve(),
        config("google/gemma-3n-E4B-it", Loader::Text, Precision::F16, None)
    );
    assert_eq!(
        EnhancerModel::Phi35Mini.resolve(),
        config("microsoft/Phi-3.5-mini-instruct", Loader::Text, Precision::Auto, Some(Quantization::Q4K))
    );
}

#[test]
fn chat_presets_resolve() {
    assert_eq!(
        ChatModel::GemmaE2b.resolve(),
        config("google/gemma-3n-E2B-it", Loader::Vision, Precision::Auto, Some(Quantization::Q4K))
    );
    assert_eq!(
        ChatModel::GemmaE4b.resolve(),
        config("google/gemma-3n-E4B-it", Loader::Vision, Precision::F16, None)
    );
    assert_eq!(
        ChatModel::Phi35Mini.resolve(),
        config("microsoft/Phi-3.5-mini-instruct", Loader::Text, Precision::Auto, Some(Quantization::Q4K))
    );
}

#[test]
fn transcription_presets_resolve() {
    assert_eq!(
        TranscriptionModel::GemmaE2b.resolve(),
        config("google/gemma-3n-E2B-it", Loader::Vision, Precision::Auto, Some(Quantization::Q4K))
    );
    assert_eq!(
        TranscriptionModel::GemmaE4b.resolve(),
        config("google/gemma-3n-E4B-it", Loader::Vision, Precision::F16, None)
    );
}

#[test]
fn resolve_gives_the_same_configuration_every_time() {
    for preset in [EnhancerModel::GemmaE2b, EnhancerModel::GemmaE4b, EnhancerModel::Phi35Mini] {
        assert_eq!(preset.resolve(), preset.resolve());
    }
    for preset in [ChatModel::GemmaE2b, ChatModel::GemmaE4b, ChatModel::Phi35Mini] {
        assert_eq!(preset.resolve(), preset.resolve());
    }
    for preset in [TranscriptionModel::GemmaE2b, TranscriptionModel::GemmaE4b] {
        assert_eq!(preset.resolve(), preset.resolve());
    }
}

#[test]
fn one_model_serves_chat_and_enhancement_with_separate_settings() {
    let chat = ChatModel::GemmaE2b.resolve();
    let enhancer = EnhancerModel::GemmaE2b.resolve();
    assert_eq!(chat.model_id, enhancer.model_id);
    assert_ne!(chat.loader, enhancer.loader);
    let chat = ChatModel::GemmaE4b.resolve();
    let enhancer = EnhancerModel::GemmaE4b.resolve();
    assert_eq!(chat.model_id, enhancer.model_id);
    assert_eq!(chat.precision, enhancer.precision);
    assert_ne!(chat, enhancer);
}

#[test]
fn chat_preset_from_enhancer_preset() {
    assert_eq!(ChatModel::from(EnhancerModel::GemmaE2b), ChatModel::GemmaE2b);
    assert_eq!(ChatModel::from(EnhancerModel::GemmaE4b), ChatModel::GemmaE4b);
    assert_eq!(ChatModel::from(EnhancerModel::Phi35Mini), ChatModel::Phi35Mini);
    let into: ChatModel = EnhancerModel::Phi35Mini.into();
    assert_eq!(into, ChatModel::Phi35Mini);
}

#[test]
fn labels_show_name_and_identifier() {
    assert_eq!(EnhancerModel::GemmaE4b.label(), "Gemma 3n E4B (google/gemma-3n-E4B-it)");
    assert_eq!(ChatModel::Phi35Mini.label(), "Phi-3.5-mini (microsoft/Phi-3.5-mini-instruct)");
    assert_eq!(TranscriptionModel::GemmaE2b.label(), "Gemma 3n E2B (google/gemma-3n-E2B-it)");
    assert_eq!(make_label("Name", "org/model"), "Name (org/model)");
    assert_eq!(make_label("", ""), " ()");
}

#[test]
fn arbitrary_text_model_loads_in_half_precision() {
    assert_eq!(
        PresetConfig::for_text_model("Qwen/Qwen2-1.5B-Instruct"),
        config("Qwen/Qwen2-1.5B-Instruct", Loader::Text, Precision::F16, None)
    );
}

#[test]
fn diffusion_model_configuration() {
    assert_eq!(DEFAULT_MODEL, "black-forest-labs/FLUX.1-schnell");
    assert_eq!(
        diffusion_config(),
        config("black-forest-labs/FLUX.1-schnell", Loader::DiffusionOffloaded, Precision::BF16, None)
    );
}
