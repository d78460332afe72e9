use generation_orchestrator::conversation::{ConversationTurn, Role};
use generation_orchestrator::promp_enhancer::{
    seed_or_default, select_prompt, song_seed, PromptEnhancer, DEFAULT_SEED, ECHO_SLACK,
    MAX_OUTPUT_TOKENS, MAX_PROMPT_WORDS, SYSTEM_PROMPT,
};
use generation_orchestrator::request::SamplerConfig;
use generation_orchestrator::text::word_count;

fn elaboration(n: usize) -> String {
    let mut words = Vec::new();
    for i in 0..n {
        words.push(format!("detail{i}"));
    }
    words.join(" ")
}

fn turn(role: Role, text: &str) -> ConversationTurn {
    ConversationTurn { role, text: text.to_string() }
}

#[test]
fn constants_of_the_pipeline() {
    assert_eq!(MAX_PROMPT_WORDS, 50);
    assert_eq!(ECHO_SLACK, 4);
    assert_eq!(MAX_OUTPUT_TOKENS, 80);
    assert!(SYSTEM_PROMPT.starts_with("You are a prompt enhancer for image generation models."));
    assert!(SYSTEM_PROMPT.ends_with("Output ONLY the enhanced prompt, no explanation, no quotes."));
    assert!(SYSTEM_PROMPT.contains("The result MUST be under 50 words."));
}

#[test]
fn echo_of_the_seed_falls_back_to_the_seed() {
    assert_eq!(select_prompt("cat", Some("cat")), "cat");
}

#[test]
fn echo_of_a_quiet_forest() {
    let enhancer = PromptEnhancer::new();
    let out = enhancer.enhance::<String>("a quiet forest", Ok(Some("a quiet forest".to_string())));
    assert_eq!(out, Ok("a quiet forest".to_string()));
}

#[test]
fn sixty_word_elaboration_of_castle_is_cut_to_fifty() {
    let enhancer = PromptEnhancer::new();
    let reply = elaboration(60);
    let out = enhancer.enhance::<String>("castle", Ok(Some(reply.clone()))).unwrap();
    assert_eq!(word_count(&out), 50);
    assert_eq!(out, elaboration(50));
    assert!(reply.starts_with(&out));
}

#[test]
fn eighty_word_reply_keeps_its_first_fifty_words() {
    let reply = elaboration(80);
    let out = select_prompt("seed", Some(&reply));
    let kept: Vec<&str> = out.split_whitespace().collect();
    let given: Vec<&str> = reply.split_whitespace().collect();
    assert_eq!(kept.len(), 50);
    assert_eq!(kept[..], given[..50]);
}

#[test]
fn degeneracy_threshold_at_four_and_five_characters() {
    let seed = "castle";
    let at_slack = "castle1234";
    let over_slack = "castle12345";
    assert_eq!(at_slack.chars().count(), seed.chars().count() + 4);
    assert_eq!(over_slack.chars().count(), seed.chars().count() + 5);
    assert_eq!(select_prompt(seed, Some(at_slack)), "castle");
    assert_eq!(select_prompt(seed, Some(over_slack)), "castle12345");
}

#[test]
fn degeneracy_is_measured_after_trimming() {
    assert_eq!(select_prompt("castle", Some("   castle1234   \n")), "castle");
    assert_eq!(select_prompt("castle", Some("\n castle12345 \n")), "castle12345");
}

#[test]
fn degeneracy_counts_characters() {
    let seed = "\u{00E9}t\u{00E9}";
    assert_eq!(select_prompt(seed, Some("\u{00E9}t\u{00E9}\u{00E9}\u{00E9}\u{00E9}\u{00E9}")), seed);
    assert_eq!(
        select_prompt(seed, Some("\u{00E9}t\u{00E9} en mer")),
        "\u{00E9}t\u{00E9} en mer"
    );
}

#[test]
fn shorter_reply_falls_back_to_the_seed() {
    assert_eq!(select_prompt("a long enough seed", Some("tiny")), "a long enough seed");
    assert_eq!(select_prompt("seed", Some("")), "seed");
    assert_eq!(select_prompt("seed", Some("   ")), "seed");
}

#[test]
fn reply_without_text_falls_back_to_the_seed() {
    assert_eq!(select_prompt("a quiet forest", None), "a quiet forest");
    let enhancer = PromptEnhancer::new();
    assert_eq!(enhancer.enhance::<String>("cat", Ok(None)), Ok("cat".to_string()));
}

#[test]
fn fallback_seed_is_cut_to_the_budget_too() {
    let seed = elaboration(55);
    assert_eq!(select_prompt(&seed, Some("short")), elaboration(50));
    assert_eq!(select_prompt(&seed, None), elaboration(50));
}

#[test]
fn seed_within_budget_comes_back_whitespace_and_all() {
    assert_eq!(select_prompt("  a  quiet \t forest ", Some("x")), "  a  quiet \t forest ");
}

#[test]
fn empty_seed_with_degenerate_reply_gives_empty_prompt() {
    assert_eq!(select_prompt("", Some("abcd")), "");
    assert_eq!(select_prompt("", Some("abcde")), "abcde");
}

#[test]
fn enhanced_prompt_is_trimmed_reply() {
    let enhancer = PromptEnhancer::new();
    let out = enhancer.enhance::<String>(
        "cat",
        Ok(Some("  a fluffy cat basking in golden light \n".to_string())),
    );
    assert_eq!(out, Ok("a fluffy cat basking in golden light".to_string()));
}

#[test]
fn inference_failure_is_handed_on_unchanged() {
    let enhancer = PromptEnhancer::new();
    let out = enhancer.enhance("cat", Err::<Option<String>, String>("runtime down".to_string()));
    assert_eq!(out, Err("runtime down".to_string()));
    let out = enhancer.enhance_for_song("song", Some("style"), Err::<Option<String>, u32>(7));
    assert_eq!(out, Err(7));
}

#[test]
fn song_seed_with_and_without_style() {
    assert_eq!(song_seed("Moonlight Sonata", Some("in the style of Monet")), "Moonlight Sonata, in the style of Monet");
    assert_eq!(song_seed("Moonlight Sonata", None), "Moonlight Sonata");
    assert_eq!(song_seed("", Some("")), ", ");
}

#[test]
fn enhance_for_song_runs_the_same_pipeline_on_the_composed_seed() {
    let enhancer = PromptEnhancer::new();
    let echo = Ok::<Option<String>, String>(Some("Title, style".to_string()));
    assert_eq!(enhancer.enhance_for_song("Title", Some("style"), echo), Ok("Title, style".to_string()));
    let reply = Ok::<Option<String>, String>(Some("Title1234".to_string()));
    assert_eq!(enhancer.enhance_for_song("Title", None, reply), Ok("Title".to_string()));
    let reply = Ok::<Option<String>, String>(Some("Title12345".to_string()));
    assert_eq!(enhancer.enhance_for_song("Title", None, reply), Ok("Title12345".to_string()));
    let reply = Ok::<Option<String>, String>(Some("Title12345".to_string()));
    assert_eq!(enhancer.enhance_for_song("Title", Some("s"), reply), Ok("Title, s".to_string()));
}

#[test]
fn enhancement_request_is_system_prompt_then_seed() {
    let enhancer = PromptEnhancer::new();
    let request = enhancer.request("lonely astronaut, watercolor");
    assert_eq!(
        request.messages,
        vec![turn(Role::System, SYSTEM_PROMPT), turn(Role::User, "lonely astronaut, watercolor")]
    );
    assert_eq!(request.media, None);
    assert_eq!(
        request.sampler,
        SamplerConfig { temperature_hundredths: 90, top_p_hundredths: Some(95), max_output_tokens: Some(80) }
    );
    assert_eq!(PromptEnhancer::sampler(), request.sampler);
}

#[test]
fn enhancement_request_for_song() {
    let enhancer = PromptEnhancer::new().with_system_prompt("Expand.");
    let request = enhancer.request_for_song("Clair de Lune", Some("ukiyo-e"));
    assert_eq!(
        request.messages,
        vec![turn(Role::System, "Expand."), turn(Role::User, "Clair de Lune, ukiyo-e")]
    );
    assert_eq!(request.media, None);
}

#[test]
fn system_prompt_default_and_override() {
    assert_eq!(PromptEnhancer::new().system_prompt(), SYSTEM_PROMPT);
    assert_eq!(PromptEnhancer::new().with_system_prompt("Be brief.").system_prompt(), "Be brief.");
}

#[test]
fn seed_or_default_picks_the_built_in_seed() {
    assert_eq!(seed_or_default(Some("mine".to_string())), "mine");
    assert_eq!(seed_or_default(None), DEFAULT_SEED);
    assert_eq!(
        DEFAULT_SEED,
        "Detective Conan Main Theme, in the style of Raden Saleh, trending on artstation, highly detailed"
    );
}
