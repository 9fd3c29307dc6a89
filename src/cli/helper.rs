//! Tab completion of command names.

use vstd::prelude::*;
use crate::text::{find_space, space_index};

verus! {

/// The commands that completion offers, with their marker.
pub open spec fn app_commands() -> Seq<Seq<char>> {
    seq![
        "/help"@,
        "/status"@,
        "/use"@,
        "/config"@,
        "/quit"@,
        "/exit"@,
        "/model"@,
        "/model_list"@,
        "/select_model"@,
        "/gemini_config"@,
        "/groq_config"@,
        "/huggingface_config"@,
    ]
}

fn command_list() -> (r: Vec<&'static str>)
    ensures
        r@.map_values(|s: &str| s@) == app_commands(),
{
    let r = vec![
        "/help",
        "/status",
        "/use",
        "/config",
        "/quit",
        "/exit",
        "/model",
        "/model_list",
        "/select_model",
        "/gemini_config",
        "/groq_config",
        "/huggingface_config",
    ];
    assert(r@.map_values(|s: &str| s@) =~= app_commands());
    r
}

/// What completing a line at a position offers.
#[derive(Debug, Clone, PartialEq, Eq)]
pub enum CompletionPlan {
    /// Command names that replace the line from its start.
    Commands(Vec<String>),
    /// Paths, for the shell command after `!`.
    Files,
    /// Nothing to offer.
    Nothing,
}

/// The commands whose names start with `prefix`, in the listed order.
pub open spec fn commands_with_prefix(prefix: Seq<char>) -> Seq<Seq<char>> {
    app_commands().filter(|c: Seq<char>| prefix.len() <= c.len() && c.take(prefix.len() as int) == prefix)
}

/// What completion offers for `line` with the cursor at `pos` (counted in
/// characters): for a command being named, the commands that start with
/// what stands between the marker and the cursor; for a shell command,
/// paths; otherwise nothing.
pub open spec fn plan_for(line: Seq<char>, pos: nat) -> CompletionPlanView {
    if line.len() > 0 && line[0] == '/' && pos > 0 {
        if pos > line.len() {
            CompletionPlanView::Nothing
        } else if space_index(line) matches Some(k) && pos > k {
            CompletionPlanView::Nothing
        } else {
            CompletionPlanView::Commands(commands_with_prefix(line.take(pos as int)))
        }
    } else if line.len() > 0 && line[0] == '!' {
        CompletionPlanView::Files
    } else {
        CompletionPlanView::Nothing
    }
}

pub enum CompletionPlanView {
    Commands(Seq<Seq<char>>),
    Files,
    Nothing,
}

impl View for CompletionPlan {
    type V = CompletionPlanView;

    open spec fn view(&self) -> CompletionPlanView {
        match self {
            CompletionPlan::Commands(v) => CompletionPlanView::Commands(
                v@.map_values(|s: String| s@),
            ),
            CompletionPlan::Files => CompletionPlanView::Files,
            CompletionPlan::Nothing => CompletionPlanView::Nothing,
        }
    }
}

fn has_prefix_str(s: &str, p: &str) -> (r: bool)
    ensures
        r == (p@.len() <= s@.len() && s@.take(p@.len() as int) == p@),
{
    let n = p.unicode_len();
    if n > s.unicode_len() {
        return false;
    }
    let mut i: usize = 0;
    while i < n
        invariant
            i <= n,
            n == p@.len() <= s@.len(),
            s@.take(i as int) == p@.take(i as int),
        decreases n - i,
    {
        if s.get_char(i) != p.get_char(i) {
            assert(s@.take(n as int)[i as int] != p@[i as int]);
            return false;
        }
        assert(s@.take(i + 1) =~= s@.take(i as int).push(s@[i as int]));
        assert(p@.take(i + 1) =~= p@.take(i as int).push(p@[i as int]));
        i = i + 1;
    }
    assert(p@.take(n as int) =~= p@);
    true
}

/// The completion helper of the line editor.
#[derive(Debug, Clone, Copy, PartialEq, Eq, Structural)]
pub struct ReplHelper {}

impl ReplHelper {
    pub fn new() -> (r: ReplHelper)
        ensures
            r == (ReplHelper {}),
    {
        ReplHelper {}
    }

    /// What completion offers for `line` with the cursor at `pos`.
    pub fn complete(&self, line: &str, pos: usize) -> (r: CompletionPlan)
        ensures
            r@ == plan_for(line@, pos as nat),
    {
        let n = line.unicode_len();
        if n > 0 && line.get_char(0) == '/' && pos > 0 {
            if pos > n {
                return CompletionPlan::Nothing;
            }
            if let Some(k) = find_space(line) {
                if pos > k {
                    return CompletionPlan::Nothing;
                }
            }
            let typed = line.substring_char(0, pos);
            assert(typed@ =~= line@.take(pos as int));
            let all = command_list();
            let mut out: Vec<String> = Vec::new();
            let mut i: usize = 0;
            while i < all.len()
                invariant
                    i <= all@.len(),
                    all@.map_values(|s: &str| s@) == app_commands(),
                    out@.map_values(|s: String| s@) == app_commands().take(i as int).filter(
                        |c: Seq<char>| typed@.len() <= c.len() && c.take(typed@.len() as int) == typed@,
                    ),
                decreases all@.len() - i,
            {
                let c = all[i];
                assert(app_commands()[i as int] == c@);
                assert(app_commands().take(i + 1) =~= app_commands().take(i as int).push(c@));
                reveal(Seq::filter);
                assert(app_commands().take(i + 1).drop_last() =~= app_commands().take(i as int));
                if has_prefix_str(c, typed) {
                    let ghost o0 = out@;
                    out.push(String::from_str(c));
                    assert(out@.map_values(|s: String| s@) =~= o0.map_values(|s: String| s@).push(c@));
                }
                i = i + 1;
            }
            assert(app_commands().take(i as int) =~= app_commands());
            CompletionPlan::Commands(out)
        } else if n > 0 && line.get_char(0) == '!' {
            CompletionPlan::Files
        } else {
            CompletionPlan::Nothing
        }
    }
}

} // verus!
