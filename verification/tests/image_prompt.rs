use generation_orchestrator::image_generation::{
    diffusion_prompt, plan_prompt, PromptPlan, DEFAULT_PROMPT,
};
use generation_orchestrator::text::word_count;

#[test]
fn prompt_is_used_directly() {
    assert_eq!(
        plan_prompt(Some("A cat riding a bicycle on the moon".to_string()), None),
        PromptPlan::Direct("A cat riding a bicycle on the moon".to_string())
    );
}

#[test]
fn prompt_wins_over_seed() {
    assert_eq!(
        plan_prompt(Some("p".to_string()), Some("s".to_string())),
        PromptPlan::Direct("p".to_string())
    );
}

#[test]
fn seed_alone_is_enhanced() {
    assert_eq!(
        plan_prompt(None, Some("lonely astronaut, watercolor".to_string())),
        PromptPlan::Enhance("lonely astronaut, watercolor".to_string())
    );
}

#[test]
fn neither_prompt_nor_seed_uses_the_built_in_prompt() {
    assert_eq!(plan_prompt(None, None), PromptPlan::BuiltIn);
    assert_eq!(
        DEFAULT_PROMPT,
        "A majestic castle on a cliff overlooking the sea at sunset, highly detailed, digital painting, trending on artstation, in the style of Raden Saleh"
    );
    assert_eq!(diffusion_prompt(DEFAULT_PROMPT), DEFAULT_PROMPT);
}

#[test]
fn diffusion_prompt_is_held_to_fifty_words() {
    let mut words = Vec::new();
    for i in 0..64 {
        words.push(format!("w{i}"));
    }
    let long = words.join("  ");
    let cut = diffusion_prompt(&long);
    assert_eq!(word_count(&cut), 50);
    assert_eq!(cut, words[..50].join(" "));
    assert_eq!(diffusion_prompt("short  prompt "), "short  prompt ");
}
