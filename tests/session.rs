use llm_chat::cli::helper::{CompletionPlan, ReplHelper};
use llm_chat::cli::repl::{
    classify_line, finish_model_command, format_prompt, handle_gemini_config_command, handle_line,
    handle_use_command, is_exit_command, records_history, select_model, Action, Input, ModelCheck,
    Param, ParamReport, Selection, UseOutcome,
};
use llm_chat::config::{Config, LlmProvider, ParamError};
use llm_chat::decimal::Decimal;
use llm_chat::error::GenerationError;

fn strings(v: &[&str]) -> Vec<String> {
    v.iter().map(|s| s.to_string()).collect()
}

fn dec(negative: bool, mantissa: u64, scale: u32) -> Decimal {
    Decimal { negative, mantissa, scale }
}

#[test]
fn provider_names_and_settings() {
    assert_eq!(LlmProvider::Gemini.get_provider_name(), "Gemini");
    assert_eq!(LlmProvider::HuggingFace.get_provider_config_name(), "huggingface");
    assert_eq!(LlmProvider::Groq.get_provider_model_name(), "default_groq_model");
    assert_eq!(LlmProvider::Ollama.get_provider_api_key_name(), "");
    assert_eq!(LlmProvider::Groq.get_provider_api_key_name(), "GROQ_API_KEY");
    assert_eq!(LlmProvider::Ollama.get_provider_base_url_name(), "ollama_base_url");
    assert_eq!(LlmProvider::Gemini.get_provider_base_url_name(), "");
}

#[test]
fn defaults_and_loading() {
    let c = Config::default();
    assert_eq!(c.active_provider, LlmProvider::Ollama);
    assert_eq!(c.get_active_model_name(), "llama3");
    assert_eq!(c.get_active_api_key(), None);
    assert_eq!(c.gemini_temperature, Some(dec(false, 7, 1)));
    assert_eq!(c.gemini_top_p, None);
    assert_eq!(c.gemini_max_tokens, Some(2048));
    let c = Config::load(None, Some("k".to_string()), None);
    assert_eq!(c.groq_api_key, Some("k".to_string()));
    assert_eq!(c.api_key_for(LlmProvider::Groq), Some("k"));
    assert_eq!(c.default_gemini_model, "gemini-1.5-pro-latest");
}

#[test]
fn switching_to_an_unconfigured_provider_is_refused() {
    let mut c = Config::default();
    let r = c.switch_provider(LlmProvider::Groq);
    assert_eq!(r, Err(GenerationError::MissingKey { variable: "GROQ_API_KEY".to_string() }));
    assert_eq!(c.active_provider, LlmProvider::Ollama);
    let mut c = Config::load(Some("g".to_string()), None, None);
    assert_eq!(c.switch_provider(LlmProvider::Gemini), Ok(()));
    assert_eq!(c.active_provider, LlmProvider::Gemini);
    assert_eq!(c.get_active_api_key(), Some("g"));
    assert_eq!(c.switch_provider(LlmProvider::Ollama), Ok(()));
}

#[test]
fn out_of_range_parameters_leave_the_state_unchanged() {
    let mut c = Config::default();
    assert_eq!(c.set_gemini_temperature("1.5"), Err(ParamError::OutOfRange));
    assert_eq!(c.set_gemini_temperature("-0.1"), Err(ParamError::OutOfRange));
    assert_eq!(c.set_gemini_temperature("warm"), Err(ParamError::Malformed));
    assert_eq!(c.set_gemini_top_p("1.0001"), Err(ParamError::OutOfRange));
    assert_eq!(c.set_gemini_max_tokens("0"), Err(ParamError::OutOfRange));
    assert_eq!(c.set_gemini_max_tokens("-5"), Err(ParamError::Malformed));
    assert_eq!(c.set_gemini_max_tokens("4294967296"), Err(ParamError::Malformed));
    assert_eq!(c.gemini_parameters(), (Some(dec(false, 7, 1)), None, Some(2048)));
}

#[test]
fn in_range_parameters_are_taken() {
    let mut c = Config::default();
    assert_eq!(c.set_gemini_temperature("0"), Ok(()));
    assert_eq!(c.gemini_temperature, Some(dec(false, 0, 0)));
    assert_eq!(c.set_gemini_temperature("1.0"), Ok(()));
    assert_eq!(c.gemini_temperature, Some(dec(false, 10, 1)));
    assert_eq!(c.set_gemini_top_p(".25"), Ok(()));
    assert_eq!(c.gemini_top_p, Some(dec(false, 25, 2)));
    assert_eq!(c.set_gemini_max_tokens("+512"), Ok(()));
    assert_eq!(c.gemini_max_tokens, Some(512));
    assert_eq!(c.set_gemini_top_p("RESET"), Ok(()));
    assert_eq!(c.gemini_top_p, None);
    assert_eq!(c.set_gemini_temperature("reset"), Ok(()));
    assert_eq!(c.gemini_temperature, Some(dec(false, 7, 1)));
}

#[test]
fn reset_restores_the_defaults_whatever_came_before() {
    let mut a = Config::default();
    a.set_gemini_temperature("0.1").unwrap();
    a.set_gemini_top_p("0.9").unwrap();
    a.set_gemini_max_tokens("64").unwrap();
    a.reset_gemini_parameters();
    let mut b = Config::default();
    b.gemini_temperature = None;
    b.gemini_max_tokens = None;
    b.reset_gemini_parameters();
    assert_eq!(a.gemini_parameters(), (Some(dec(false, 7, 1)), None, Some(2048)));
    assert_eq!(a.gemini_parameters(), b.gemini_parameters());
}

#[test]
fn reset_to_default_forgets_keys_and_models() {
    let mut c = Config::load(Some("g".to_string()), None, None);
    c.set_provider_model(&LlmProvider::Gemini, "gemini-pro".to_string());
    c.reset_to_default();
    assert_eq!(c.gemini_api_key, None);
    assert_eq!(c.default_gemini_model, "gemini-1.5-pro-latest");
}

#[test]
fn gemini_config_applies_items_in_order() {
    let mut c = Config::default();
    let reports = handle_gemini_config_command(
        &mut c,
        &strings(&["TEMP", "0.2", "top_p", "2", "max_tokens", "100", "bogus"]),
    );
    assert_eq!(
        reports,
        vec![
            ParamReport::Applied { param: Param::Temperature, refused: None },
            ParamReport::Applied { param: Param::TopP, refused: Some(ParamError::OutOfRange) },
            ParamReport::Applied { param: Param::MaxTokens, refused: None },
            ParamReport::Unknown("bogus".to_string()),
        ]
    );
    assert_eq!(c.gemini_parameters(), (Some(dec(false, 2, 1)), None, Some(100)));
    let reports = handle_gemini_config_command(&mut c, &strings(&["reset"]));
    assert_eq!(reports, vec![ParamReport::ResetAll]);
    assert_eq!(c.gemini_parameters(), (Some(dec(false, 7, 1)), None, Some(2048)));
    let reports = handle_gemini_config_command(&mut c, &strings(&["temp"]));
    assert_eq!(reports, vec![ParamReport::Unknown("temp".to_string())]);
}

#[test]
fn use_command_switches_by_name() {
    let mut c = Config::load(None, Some("k".to_string()), None);
    assert_eq!(handle_use_command(&mut c, &strings(&[])), UseOutcome::Usage);
    assert_eq!(
        handle_use_command(&mut c, &strings(&["mistral-cloud"])),
        UseOutcome::UnknownProvider("mistral-cloud".to_string())
    );
    assert_eq!(handle_use_command(&mut c, &strings(&["GROQ"])), UseOutcome::Switched(LlmProvider::Groq));
    assert_eq!(c.active_provider, LlmProvider::Groq);
    assert_eq!(
        handle_use_command(&mut c, &strings(&["gemini"])),
        UseOutcome::MissingKey(LlmProvider::Gemini)
    );
    assert_eq!(c.active_provider, LlmProvider::Groq);
}

#[test]
fn use_of_a_provider_without_key_keeps_the_active_one() {
    let mut c = Config::default();
    match handle_line(&mut c, "/use groq") {
        Action::Use(UseOutcome::MissingKey(p)) => {
            assert_eq!(p.get_provider_api_key_name(), "GROQ_API_KEY");
        }
        other => panic!("unexpected {:?}", other),
    }
    assert_eq!(c.active_provider, LlmProvider::Ollama);
}

#[test]
fn model_is_set_even_when_the_listing_is_unreachable() {
    let mut c = Config::default();
    match handle_line(&mut c, "/model gpt-x") {
        Action::SetModel(name) => {
            assert_eq!(name, "gpt-x");
            assert_eq!(finish_model_command(&mut c, &name, None), ModelCheck::Unverified);
        }
        other => panic!("unexpected {:?}", other),
    }
    assert_eq!(c.get_active_model_name(), "gpt-x");
    let listed = strings(&["llama3", "phi3"]);
    assert_eq!(finish_model_command(&mut c, "phi3", Some(&listed)), ModelCheck::Listed);
    assert_eq!(finish_model_command(&mut c, "mistral", Some(&listed)), ModelCheck::NotListed);
    assert_eq!(c.default_ollama_model, "mistral");
}

#[test]
fn blank_lines_are_neither_recorded_nor_dispatched() {
    let mut c = Config::default();
    assert!(!records_history(""));
    assert!(!records_history("  \t "));
    assert!(records_history(" hi "));
    assert!(matches!(handle_line(&mut c, "   "), Action::Nothing));
    assert_eq!(classify_line("\t"), Input::Blank);
}

#[test]
fn lines_are_classified_by_their_marker() {
    assert_eq!(classify_line(" quit "), Input::Exit);
    assert_eq!(classify_line("/exit"), Input::Exit);
    assert_eq!(classify_line("!  ls -la "), Input::Shell("ls -la".to_string()));
    assert_eq!(classify_line("!"), Input::Shell("".to_string()));
    assert_eq!(
        classify_line("/gemini_config  temp 0.5 "),
        Input::Command { name: "gemini_config".to_string(), args: "temp 0.5".to_string() }
    );
    assert_eq!(
        classify_line("/help"),
        Input::Command { name: "help".to_string(), args: "".to_string() }
    );
    assert_eq!(classify_line(" what is rust? "), Input::Prompt("what is rust?".to_string()));
    assert!(is_exit_command("exit"));
    assert!(!is_exit_command("exit now"));
}

#[test]
fn commands_dispatch_to_actions() {
    let mut c = Config::default();
    assert!(matches!(handle_line(&mut c, "/help"), Action::Help));
    assert!(matches!(handle_line(&mut c, "/status"), Action::Status));
    assert!(matches!(handle_line(&mut c, "/model"), Action::ShowModel));
    assert!(matches!(handle_line(&mut c, "/model_list"), Action::ListModels));
    assert!(matches!(handle_line(&mut c, "/select_model"), Action::SelectModel));
    assert!(matches!(handle_line(&mut c, "/select_model x"), Action::SelectUsage));
    assert!(matches!(handle_line(&mut c, "/config"), Action::ShowConfig));
    assert!(matches!(handle_line(&mut c, "/gemini_config"), Action::ShowGeminiConfig));
    assert!(matches!(handle_line(&mut c, "/groq_config a"), Action::GroqConfig { has_args: true }));
    assert!(matches!(handle_line(&mut c, "/huggingface_config"), Action::HuggingFaceConfig));
    match handle_line(&mut c, "/frobnicate now") {
        Action::Unknown(n) => assert_eq!(n, "frobnicate"),
        other => panic!("unexpected {:?}", other),
    }
    match handle_line(&mut c, "/gemini_config max_tokens 0") {
        Action::GeminiConfig(r) => assert_eq!(
            r,
            vec![ParamReport::Applied { param: Param::MaxTokens, refused: Some(ParamError::OutOfRange) }]
        ),
        other => panic!("unexpected {:?}", other),
    }
    match handle_line(&mut c, "tell me a joke") {
        Action::Generate(Ok(q)) => assert_eq!(q.url, "http://localhost:11434/api/generate"),
        other => panic!("unexpected {:?}", other),
    }
}

#[test]
fn prompt_for_a_provider_without_key_reports_it() {
    let mut c = Config::default();
    c.active_provider = LlmProvider::HuggingFace;
    match handle_line(&mut c, "hello") {
        Action::Generate(Err(e)) => assert_eq!(
            e,
            GenerationError::MissingKey { variable: "HUGGINGFACE_API_KEY".to_string() }
        ),
        other => panic!("unexpected {:?}", other),
    }
}

#[test]
fn selecting_a_model_by_number() {
    let models = strings(&["a", "b", "c"]);
    assert_eq!(select_model(&models, "0\n"), Selection::Cancelled);
    assert_eq!(select_model(&models, " 2 "), Selection::Chosen("b".to_string()));
    assert_eq!(select_model(&models, "4"), Selection::Invalid);
    assert_eq!(select_model(&models, "two"), Selection::Invalid);
}

#[test]
fn prompt_label_names_provider_and_model() {
    let mut c = Config::load(Some("g".to_string()), None, None);
    assert_eq!(format_prompt(&c), "Ollama:llama3*");
    c.switch_provider(LlmProvider::Gemini).unwrap();
    assert_eq!(format_prompt(&c), "Gemini:gemini-1.5-pro-latest*");
}

#[test]
fn provider_settings_are_listed() {
    let c = Config::default();
    let entries = c.get_provider_config(&LlmProvider::Gemini);
    assert_eq!(
        entries,
        vec![
            ("default_gemini_model".to_string(), "gemini-1.5-pro-latest".to_string()),
            ("gemini_temperature".to_string(), "0.7".to_string()),
            ("gemini_top_p".to_string(), "Default".to_string()),
            ("gemini_max_tokens".to_string(), "2048".to_string()),
        ]
    );
    assert_eq!(c.get_provider_config(&LlmProvider::Ollama).len(), 2);
}

#[test]
fn command_names_complete() {
    let h = ReplHelper::new();
    assert_eq!(
        h.complete("/mo", 3),
        CompletionPlan::Commands(vec![
            "/model".to_string(),
            "/model_list".to_string()
        ])
    );
    assert_eq!(h.complete("/model x", 8), CompletionPlan::Nothing);
    assert_eq!(h.complete("!ls sr", 6), CompletionPlan::Files);
    assert_eq!(h.complete("hello", 5), CompletionPlan::Nothing);
    match h.complete("/", 1) {
        CompletionPlan::Commands(all) => assert_eq!(all.len(), 12),
        other => panic!("unexpected {:?}", other),
    }
}
