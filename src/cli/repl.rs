//! The command dispatcher. Each line of input is classified (blank, exit,
//! shell escape, command, prompt) and turned into an action on the session;
//! the caller performs the action's input and output and hands back what
//! came of it.

use vstd::prelude::*;
use crate::config::{
    fraction_setting, is_usable, model_of, provider_config_name, provider_name,
    token_setting, with_model, with_params_reset, Config, LlmProvider, ParamError,
    default_temperature, default_top_p,
};
use crate::error::GenerationError;
use crate::llm::{generate_request, generation_planned, HttpRequest};
use crate::text::{
    after_first, begins_with, find_space, lower_of, parse_unsigned, space_index, split_words,
    str_eq, to_lowercase, trim, trimmed, unsigned_of, views, words,
};

verus! {

/// What one line of input asks for.
#[derive(Debug, Clone, PartialEq, Eq)]
pub enum Input {
    /// Nothing but whitespace: neither recorded nor dispatched.
    Blank,
    /// A request to leave the loop.
    Exit,
    /// A shell command, after the `!` marker.
    Shell(String),
    /// A command after the `/` marker: its name and its argument text.
    Command { name: String, args: String },
    /// A prompt for the active provider.
    Prompt(String),
}

/// Whether a trimmed line asks to leave the loop.
pub open spec fn exit_word(t: Seq<char>) -> bool {
    t == "quit"@ || t == "exit"@ || t == "/quit"@ || t == "/exit"@
}

/// The name of a command: the text before the first space, trimmed.
pub open spec fn command_name(rest: Seq<char>) -> Seq<char> {
    match space_index(rest) {
        Some(k) => trimmed(rest.take(k as int)),
        None => trimmed(rest),
    }
}

/// The arguments of a command: the text after the first space, trimmed.
pub open spec fn command_args(rest: Seq<char>) -> Seq<char> {
    match space_index(rest) {
        Some(k) => trimmed(rest.skip(k as int + 1)),
        None => Seq::empty(),
    }
}

/// How a line is classified; the first rule that applies wins.
pub open spec fn classified(line: Seq<char>, r: Input) -> bool {
    let t = trimmed(line);
    if t.len() == 0 {
        r is Blank
    } else if exit_word(t) {
        r is Exit
    } else if t[0] == '!' {
        r matches Input::Shell(c) && c@ == trimmed(t.drop_first())
    } else if t[0] == '/' {
        r matches Input::Command { name, args } && name@ == command_name(t.drop_first()) && args@
            == command_args(t.drop_first())
    } else {
        r matches Input::Prompt(p) && p@ == t
    }
}

pub fn is_exit_command(input: &str) -> (r: bool)
    ensures
        r == exit_word(input@),
{
    str_eq(input, "quit") || str_eq(input, "exit") || str_eq(input, "/quit") || str_eq(
        input,
        "/exit",
    )
}

/// Whether a line goes into the history: exactly when it is not blank.
pub fn records_history(line: &str) -> (r: bool)
    ensures
        r == (trimmed(line@).len() > 0),
{
    trim(line).unicode_len() > 0
}

pub fn classify_line(line: &str) -> (r: Input)
    ensures
        classified(line@, r),
{
    let t = trim(line);
    if t.unicode_len() == 0 {
        return Input::Blank;
    }
    if is_exit_command(t) {
        return Input::Exit;
    }
    if begins_with(t, '!') {
        return Input::Shell(String::from_str(trim(after_first(t))));
    }
    if begins_with(t, '/') {
        let rest = after_first(t);
        assert(rest@ == t@.drop_first());
        assert(t@[0] == '/' && t@[0] != '!' && !exit_word(t@));
        let n = rest.unicode_len();
        return match find_space(rest) {
            Some(k) => {
                assert(space_index(rest@) == Some(k as nat));
                let head = rest.substring_char(0, k);
                let tail = rest.substring_char(k + 1, n);
                assert(head@ =~= rest@.take(k as int));
                assert(tail@ =~= rest@.skip(k + 1));
                let name = String::from_str(trim(head));
                let args = String::from_str(trim(tail));
                assert(name@ == command_name(t@.drop_first()));
                assert(args@ == command_args(t@.drop_first()));
                Input::Command { name, args }
            },
            None => {
                proof {
                    reveal_strlit("");
                }
                let name = String::from_str(trim(rest));
                let args = String::from_str("");
                assert(name@ == command_name(t@.drop_first()));
                assert(args@ == command_args(t@.drop_first()));
                Input::Command { name, args }
            },
        };
    }
    Input::Prompt(String::from_str(t))
}

/// What came of `/use <provider>`.
#[derive(Debug, Clone, PartialEq, Eq)]
pub enum UseOutcome {
    /// Not exactly one argument.
    Usage,
    /// The provider is now active.
    Switched(LlmProvider),
    /// The provider's key is not set; nothing changed.
    MissingKey(LlmProvider),
    /// No provider goes by that name; nothing changed.
    UnknownProvider(String),
}

/// The provider that goes by a name.
pub open spec fn provider_named(n: Seq<char>) -> Option<LlmProvider> {
    if n == provider_config_name(LlmProvider::Ollama) {
        Some(LlmProvider::Ollama)
    } else if n == provider_config_name(LlmProvider::Gemini) {
        Some(LlmProvider::Gemini)
    } else if n == provider_config_name(LlmProvider::Groq) {
        Some(LlmProvider::Groq)
    } else if n == provider_config_name(LlmProvider::HuggingFace) {
        Some(LlmProvider::HuggingFace)
    } else {
        None
    }
}

fn provider_by_name(n: &str) -> (r: Option<LlmProvider>)
    ensures
        r == provider_named(n@),
{
    if str_eq(n, "ollama") {
        Some(LlmProvider::Ollama)
    } else if str_eq(n, "gemini") {
        Some(LlmProvider::Gemini)
    } else if str_eq(n, "groq") {
        Some(LlmProvider::Groq)
    } else if str_eq(n, "huggingface") {
        Some(LlmProvider::HuggingFace)
    } else {
        None
    }
}

/// The effect of `/use` with the given arguments: the outcome and the
/// settings after it. The provider's name is matched in lower case.
pub open spec fn use_effect(c: Config, args: Seq<Seq<char>>, r: UseOutcome, c2: Config) -> bool {
    if args.len() != 1 {
        r is Usage && c2 == c
    } else {
        match provider_named(lower_of(args[0])) {
            None => r matches UseOutcome::UnknownProvider(n) && n@ == args[0] && c2 == c,
            Some(p) => if is_usable(c, p) {
                r == UseOutcome::Switched(p) && c2 == (Config { active_provider: p, ..c })
            } else {
                r == UseOutcome::MissingKey(p) && c2 == c
            },
        }
    }
}

/// Switches the active provider by name; a provider whose key is not set
/// is refused and the settings stay as they were.
pub fn handle_use_command(config: &mut Config, args: &Vec<String>) -> (r: UseOutcome)
    ensures
        use_effect(*old(config), views(args@), r, *final(config)),
{
    if args.len() != 1 {
        return UseOutcome::Usage;
    }
    let name = to_lowercase(args[0].as_str());
    assert(views(args@)[0] == args@[0]@);
    match provider_by_name(name.as_str()) {
        None => UseOutcome::UnknownProvider(args[0].clone()),
        Some(p) => match config.switch_provider(p) {
            Ok(()) => UseOutcome::Switched(p),
            Err(_) => UseOutcome::MissingKey(p),
        },
    }
}

/// How `/model <name>` went: the model is set in every case.
#[derive(Debug, Clone, Copy, PartialEq, Eq, Structural)]
pub enum ModelCheck {
    /// The provider lists the model.
    Listed,
    /// The provider's listing does not hold the name.
    NotListed,
    /// The listing could not be had, so the name is unverified.
    Unverified,
}

/// Sets the active provider's model to `name` whatever the listing says;
/// `known` is the provider's listing, if it could be fetched.
pub fn finish_model_command(config: &mut Config, name: &str, known: Option<&Vec<String>>) -> (r:
    ModelCheck)
    ensures
        *final(config) == with_model(
            *old(config),
            old(config).active_provider,
            model_of(*final(config), old(config).active_provider),
        ),
        model_of(*final(config), old(config).active_provider)@ == name@,
        known is None ==> r == ModelCheck::Unverified,
        known matches Some(ms) ==> (r == ModelCheck::Listed <==> views(ms@).contains(name@)),
        known matches Some(ms) ==> (r == ModelCheck::NotListed <==> !views(ms@).contains(name@)),
{
    let check = match known {
        None => ModelCheck::Unverified,
        Some(ms) => {
            let mut found = false;
            let mut i: usize = 0;
            while i < ms.len()
                invariant
                    i <= ms@.len(),
                    found <==> exists|j: int| 0 <= j < i && (#[trigger] views(ms@)[j]) == name@,
                decreases ms@.len() - i,
            {
                if str_eq(ms[i].as_str(), name) {
                    assert(views(ms@)[i as int] == name@);
                    found = true;
                }
                i = i + 1;
            }
            if found {
                ModelCheck::Listed
            } else {
                ModelCheck::NotListed
            }
        },
    };
    let active = config.active_provider;
    config.set_provider_model(&active, String::from_str(name));
    check
}

/// A generation parameter that `/gemini_config` sets.
#[derive(Debug, Clone, Copy, PartialEq, Eq, Structural)]
pub enum Param {
    Temperature,
    TopP,
    MaxTokens,
}

/// What came of one item of `/gemini_config`.
#[derive(Debug, Clone, PartialEq, Eq)]
pub enum ParamReport {
    /// A parameter was set or reset, or refused for the reason given.
    Applied { param: Param, refused: Option<ParamError> },
    /// All parameters are back at their defaults.
    ResetAll,
    /// An unknown parameter, or one without its value.
    Unknown(String),
}

pub enum ParamReportView {
    Applied { param: Param, refused: Option<ParamError> },
    ResetAll,
    Unknown(Seq<char>),
}

impl View for ParamReport {
    type V = ParamReportView;

    open spec fn view(&self) -> ParamReportView {
        match self {
            ParamReport::Applied { param, refused } => ParamReportView::Applied {
                param: *param,
                refused: *refused,
            },
            ParamReport::ResetAll => ParamReportView::ResetAll,
            ParamReport::Unknown(s) => ParamReportView::Unknown(s@),
        }
    }
}

pub open spec fn report_views(r: Seq<ParamReport>) -> Seq<ParamReportView> {
    r.map_values(|x: ParamReport| x@)
}

pub open spec fn set_report<V>(param: Param, r: Result<V, ParamError>) -> ParamReportView {
    ParamReportView::Applied {
        param,
        refused: match r {
            Ok(_) => None,
            Err(e) => Some(e),
        },
    }
}

/// One item of `/gemini_config` at position `i`: a parameter name (in any
/// case) with its value, or `reset` as the last item. Gives the settings
/// after it, its report, and how many arguments it used.
pub open spec fn param_step(c: Config, args: Seq<Seq<char>>, i: int) -> (Config, ParamReportView, int) {
    let p = lower_of(args[i]);
    let has_value = i < args.len() - 1;
    if p == "temp"@ && has_value {
        let r = fraction_setting(args[i + 1], default_temperature());
        (
            match r {
                Ok(v) => Config { gemini_temperature: v, ..c },
                Err(_) => c,
            },
            set_report(Param::Temperature, r),
            2,
        )
    } else if p == "top_p"@ && has_value {
        let r = fraction_setting(args[i + 1], default_top_p());
        (
            match r {
                Ok(v) => Config { gemini_top_p: v, ..c },
                Err(_) => c,
            },
            set_report(Param::TopP, r),
            2,
        )
    } else if p == "max_tokens"@ && has_value {
        let r = token_setting(args[i + 1]);
        (
            match r {
                Ok(v) => Config { gemini_max_tokens: v, ..c },
                Err(_) => c,
            },
            set_report(Param::MaxTokens, r),
            2,
        )
    } else if p == "reset"@ && !has_value {
        (with_params_reset(c), ParamReportView::ResetAll, 1)
    } else {
        (c, ParamReportView::Unknown(args[i]), 1)
    }
}

/// The items of `/gemini_config` from position `i` on, in order: the
/// settings after them and their reports.
pub open spec fn param_run(c: Config, args: Seq<Seq<char>>, i: int) -> (Config, Seq<ParamReportView>)
    decreases args.len() - i,
{
    if i < 0 || i >= args.len() {
        (c, Seq::empty())
    } else {
        let (c1, rep, k) = param_step(c, args, i);
        let (cf, reps) = param_run(c1, args, i + k);
        (cf, seq![rep] + reps)
    }
}

fn step_param(config: &mut Config, args: &Vec<String>, i: usize) -> (r: (ParamReport, usize))
    requires
        i < args@.len(),
    ensures
        ({
            let (c1, rep, k) = param_step(*old(config), views(args@), i as int);
            *final(config) == c1 && r.0@ == rep && r.1 as int == k
        }),
{
    let p = to_lowercase(args[i].as_str());
    let has_value = i < args.len() - 1;
    assert(views(args@)[i as int] == args@[i as int]@);
    if has_value {
        assert(views(args@)[i + 1] == args@[i + 1]@);
    }
    if str_eq(p.as_str(), "temp") && has_value {
        let r = config.set_gemini_temperature(args[i + 1].as_str());
        let refused = match r {
            Ok(()) => None,
            Err(e) => Some(e),
        };
        (ParamReport::Applied { param: Param::Temperature, refused }, 2)
    } else if str_eq(p.as_str(), "top_p") && has_value {
        let r = config.set_gemini_top_p(args[i + 1].as_str());
        let refused = match r {
            Ok(()) => None,
            Err(e) => Some(e),
        };
        (ParamReport::Applied { param: Param::TopP, refused }, 2)
    } else if str_eq(p.as_str(), "max_tokens") && has_value {
        let r = config.set_gemini_max_tokens(args[i + 1].as_str());
        let refused = match r {
            Ok(()) => None,
            Err(e) => Some(e),
        };
        (ParamReport::Applied { param: Param::MaxTokens, refused }, 2)
    } else if str_eq(p.as_str(), "reset") && !has_value {
        config.reset_gemini_parameters();
        (ParamReport::ResetAll, 1)
    } else {
        (ParamReport::Unknown(args[i].clone()), 1)
    }
}

/// Applies the items of `/gemini_config` in order; each refused value
/// leaves the settings as they were.
pub fn handle_gemini_config_command(config: &mut Config, args: &Vec<String>) -> (r: Vec<ParamReport>)
    ensures
        (*final(config), report_views(r@)) == param_run(*old(config), views(args@), 0),
{
    let ghost c0 = *config;
    let ghost a = views(args@);
    let mut reports: Vec<ParamReport> = Vec::new();
    let mut i: usize = 0;
    while i < args.len()
        invariant
            a == views(args@),
            i <= args@.len() + 1,
            param_run(c0, a, 0) == (param_run(*config, a, i as int).0, report_views(reports@)
                + param_run(*config, a, i as int).1),
        decreases args@.len() + 1 - i,
    {
        let ghost before = *config;
        let (rep, k) = step_param(config, args, i);
        let ghost r0 = reports@;
        reports.push(rep);
        assert(report_views(reports@) =~= report_views(r0).push(rep@));
        let ghost rest = param_run(*config, a, i + k);
        assert(param_run(before, a, i as int) == (rest.0, seq![rep@] + rest.1));
        assert(report_views(r0) + (seq![rep@] + rest.1) =~= report_views(reports@) + rest.1);
        i = i + k;
    }
    assert(param_run(*config, a, i as int).1 =~= Seq::<ParamReportView>::empty());
    assert(report_views(reports@) + Seq::<ParamReportView>::empty() =~= report_views(reports@));
    reports
}

/// What came of choosing a model from a numbered list.
#[derive(Debug, Clone, PartialEq, Eq)]
pub enum Selection {
    /// `0` was entered.
    Cancelled,
    /// The model of the entered number, counted from 1.
    Chosen(String),
    /// Anything else: the choice is asked again.
    Invalid,
}

/// The choice that the entered text makes from `models`.
pub open spec fn selection_of(models: Seq<Seq<char>>, input: Seq<char>, r: Selection) -> bool {
    match unsigned_of(trimmed(input), usize::MAX as nat) {
        Some(n) => if n == 0 {
            r is Cancelled
        } else if n <= models.len() {
            r matches Selection::Chosen(m) && m@ == models[n - 1]
        } else {
            r is Invalid
        },
        None => r is Invalid,
    }
}

pub fn select_model(models: &Vec<String>, input: &str) -> (r: Selection)
    ensures
        selection_of(views(models@), input@, r),
{
    match parse_unsigned(trim(input), usize::MAX as u64) {
        Some(n) => if n == 0 {
            Selection::Cancelled
        } else if n <= models.len() as u64 {
            assert(views(models@)[n - 1] == models@[n - 1]@);
            Selection::Chosen(models[(n - 1) as usize].clone())
        } else {
            Selection::Invalid
        },
        None => Selection::Invalid,
    }
}

/// The prompt shown before each line: the active provider, its model and a
/// marker.
pub open spec fn prompt_label(c: Config) -> Seq<char> {
    provider_name(c.active_provider) + ":"@ + model_of(c, c.active_provider)@ + "*"@
}

pub fn format_prompt(config: &Config) -> (r: String)
    ensures
        r@ == prompt_label(*config),
{
    let mut r = String::from_str(config.active_provider.get_provider_name());
    r.append(":");
    r.append(config.get_active_model_name());
    r.append("*");
    r
}

/// What the loop is to do after a line: the input and output that the
/// caller performs, or what the session already did.
#[derive(Debug)]
pub enum Action {
    /// Nothing: read the next line.
    Nothing,
    /// Leave the loop.
    Exit,
    /// Run a shell command (an empty one shows the usage).
    Shell(String),
    /// Send the request of a prompt to the active provider, or report why
    /// it cannot be sent.
    Generate(Result<HttpRequest, GenerationError>),
    Help,
    /// Probe every provider.
    Status,
    ShowConfig,
    /// `/use` was handled.
    Use(UseOutcome),
    /// Show the active model.
    ShowModel,
    /// Fetch the active provider's listing, then finish setting this model.
    SetModel(String),
    /// Fetch and show the active provider's listing.
    ListModels,
    /// Fetch the listing and let the user pick a model.
    SelectModel,
    SelectUsage,
    ShowGeminiConfig,
    /// `/gemini_config` was applied, with one report per item.
    GeminiConfig(Vec<ParamReport>),
    GroqConfig { has_args: bool },
    HuggingFaceConfig,
    /// No command goes by this name.
    Unknown(String),
}

/// What a command does to the session and which action follows.
pub open spec fn command_effect(c: Config, name: Seq<char>, args: Seq<char>, a: Action, c2: Config) -> bool {
    if name == "use"@ {
        a matches Action::Use(o) && use_effect(c, words(args), o, c2)
    } else if name == "gemini_config"@ {
        if words(args).len() == 0 {
            a is ShowGeminiConfig && c2 == c
        } else {
            a matches Action::GeminiConfig(reps) && (c2, report_views(reps@)) == param_run(
                c,
                words(args),
                0,
            )
        }
    } else {
        c2 == c && if name == "help"@ {
            a is Help
        } else if name == "status"@ {
            a is Status
        } else if name == "model"@ {
            if args.len() == 0 {
                a is ShowModel
            } else {
                a matches Action::SetModel(m) && m@ == args
            }
        } else if name == "model_list"@ {
            a is ListModels
        } else if name == "select_model"@ {
            if args.len() == 0 {
                a is SelectModel
            } else {
                a is SelectUsage
            }
        } else if name == "groq_config"@ {
            a == Action::GroqConfig { has_args: words(args).len() > 0 }
        } else if name == "huggingface_config"@ {
            a is HuggingFaceConfig
        } else if name == "config"@ {
            a is ShowConfig
        } else if name == "quit"@ || name == "exit"@ {
            a is Nothing
        } else {
            a matches Action::Unknown(n) && n@ == name
        }
    }
}

/// What a line does to the session and which action follows.
pub open spec fn line_effect(c: Config, line: Seq<char>, a: Action, c2: Config) -> bool {
    let t = trimmed(line);
    if t.len() == 0 {
        a is Nothing && c2 == c
    } else if exit_word(t) {
        a is Exit && c2 == c
    } else if t[0] == '!' {
        a matches Action::Shell(s) && s@ == trimmed(t.drop_first()) && c2 == c
    } else if t[0] == '/' {
        command_effect(c, command_name(t.drop_first()), command_args(t.drop_first()), a, c2)
    } else {
        a matches Action::Generate(r) && generation_planned(c, c.active_provider, t, r) && c2 == c
    }
}

/// Dispatches a command by its name.
pub fn dispatch_command(config: &mut Config, name: &str, args: &str) -> (a: Action)
    ensures
        command_effect(*old(config), name@, args@, a, *final(config)),
{
    if str_eq(name, "use") {
        let ws = split_words(args);
        return Action::Use(handle_use_command(config, &ws));
    }
    if str_eq(name, "gemini_config") {
        let ws = split_words(args);
        if ws.len() == 0 {
            return Action::ShowGeminiConfig;
        }
        return Action::GeminiConfig(handle_gemini_config_command(config, &ws));
    }
    if str_eq(name, "help") {
        Action::Help
    } else if str_eq(name, "status") {
        Action::Status
    } else if str_eq(name, "model") {
        if args.unicode_len() == 0 {
            Action::ShowModel
        } else {
            Action::SetModel(String::from_str(args))
        }
    } else if str_eq(name, "model_list") {
        Action::ListModels
    } else if str_eq(name, "select_model") {
        if args.unicode_len() == 0 {
            Action::SelectModel
        } else {
            Action::SelectUsage
        }
    } else if str_eq(name, "groq_config") {
        let ws = split_words(args);
        Action::GroqConfig { has_args: ws.len() > 0 }
    } else if str_eq(name, "huggingface_config") {
        Action::HuggingFaceConfig
    } else if str_eq(name, "config") {
        Action::ShowConfig
    } else if str_eq(name, "quit") || str_eq(name, "exit") {
        Action::Nothing
    } else {
        Action::Unknown(String::from_str(name))
    }
}

/// Handles one line of input against the session: blank lines do nothing,
/// commands change the session as their contracts say, and a prompt yields
/// the request for the active provider.
pub fn handle_line(config: &mut Config, line: &str) -> (a: Action)
    ensures
        line_effect(*old(config), line@, a, *final(config)),
{
    match classify_line(line) {
        Input::Blank => Action::Nothing,
        Input::Exit => Action::Exit,
        Input::Shell(c) => Action::Shell(c),
        Input::Command { name, args } => dispatch_command(config, name.as_str(), args.as_str()),
        Input::Prompt(p) => Action::Generate(generate_request(config, p.as_str())),
    }
}

} // verus!
