//! What a preset resolves to: the configuration with which a model is loaded.

use vstd::prelude::*;
use vstd::string::StringExecFns;

verus! {

/// Numeric precision in which model weights are held.
#[derive(Clone, Copy, Debug, PartialEq, Eq, Structural)]
pub enum Precision {
    /// Let the runtime pick the best precision the device supports.
    Auto,
    /// 16-bit IEEE floating point.
    F16,
    /// 16-bit brain floating point.
    BF16,
}

/// In-situ quantization applied to the weights while loading.
#[derive(Clone, Copy, Debug, PartialEq, Eq, Structural)]
pub enum Quantization {
    /// 4-bit k-quant.
    Q4K,
}

/// The family of loader that can bring a model up.
#[derive(Clone, Copy, Debug, PartialEq, Eq, Structural)]
pub enum Loader {
    /// Plain text-to-text models.
    Text,
    /// Multimodal models, also when they are used for text alone.
    Vision,
    /// Diffusion image models with offloaded weights.
    DiffusionOffloaded,
}

/// Everything the runtime needs to load one model.
#[derive(Clone, Debug, PartialEq, Eq)]
pub struct PresetConfig {
    /// Identifier of the weights.
    pub model_id: String,
    /// Loader family.
    pub loader: Loader,
    /// Precision of the weights.
    pub precision: Precision,
    /// Quantization to apply, if any.
    pub quantization: Option<Quantization>,
}

/// Mathematical value of a [`PresetConfig`].
pub struct PresetConfigView {
    pub model_id: Seq<char>,
    pub loader: Loader,
    pub precision: Precision,
    pub quantization: Option<Quantization>,
}

impl View for PresetConfig {
    type V = PresetConfigView;

    open spec fn view(&self) -> PresetConfigView {
        PresetConfigView {
            model_id: self.model_id@,
            loader: self.loader,
            precision: self.precision,
            quantization: self.quantization,
        }
    }
}

/// The label under which a preset is announced: its display name followed by
/// its model identifier in parentheses.
pub open spec fn preset_label(display_name: Seq<char>, model_id: Seq<char>) -> Seq<char> {
    display_name + seq![' ', '('] + model_id + seq![')']
}

/// Writes out [`preset_label`].
pub fn make_label(display_name: &str, model_id: &str) -> (r: String)
    ensures
        r@ == preset_label(display_name@, model_id@),
{
    proof {
        reveal_strlit(" (");
        reveal_strlit(")");
        assert(" ("@ =~= seq![' ', '(']);
        assert(")"@ =~= seq![')']);
    }
    let mut out = String::from_str(display_name);
    out.append(" (");
    out.append(model_id);
    out.append(")");
    out
}

impl PresetConfig {
    /// The configuration for a text model outside the built-in presets:
    /// half precision, no quantization.
    pub fn for_text_model(model_id: &str) -> (r: PresetConfig)
        ensures
            r@ == (PresetConfigView {
                model_id: model_id@,
                loader: Loader::Text,
                precision: Precision::F16,
                quantization: None,
            }),
    {
        PresetConfig {
            model_id: String::from_str(model_id),
            loader: Loader::Text,
            precision: Precision::F16,
            quantization: None,
        }
    }
}

} // verus!
