use vstd::prelude::*;
use vstd::string::StringExecFns;

verus! {

/// The vi sub-modes of the line editor.
#[derive(Clone, Copy, Debug, PartialEq, Eq, Structural)]
pub enum ViMode {
    Normal,
    Insert,
    Visual,
}

/// The helix sub-modes of the line editor.
#[derive(Clone, Copy, Debug, PartialEq, Eq, Structural)]
pub enum HelixMode {
    Normal,
    Insert,
    Select,
}

/// The editing mode the line editor is in.
#[derive(Clone, Debug)]
pub enum PromptEditMode {
    Default,
    Emacs,
    Vi(ViMode),
    Helix(HelixMode),
    Custom(String),
}

/// Whether a reverse history search currently finds a match.
#[derive(Clone, Copy, Debug, PartialEq, Eq, Structural)]
pub enum HistorySearchStatus {
    Passing,
    Failing,
}

/// The prompt of the interactive shell.
#[derive(Clone, Copy, Debug, Default)]
pub struct BokhyllePrompt;

/// The indicator shown after the prompt in a mode: `> ` in every built-in
/// mode, the mode's name in parentheses in a custom mode.
pub open spec fn indicator_text(mode: PromptEditMode) -> Seq<char> {
    match mode {
        PromptEditMode::Custom(name) => "("@ + name@ + ")"@,
        _ => "> "@,
    }
}

/// The indicator shown during a reverse history search.
pub open spec fn history_search_text(status: HistorySearchStatus, term: Seq<char>) -> Seq<char> {
    let prefix = match status {
        HistorySearchStatus::Passing => ""@,
        HistorySearchStatus::Failing => "failing "@,
    };
    "("@ + prefix + "reverse-search: "@ + term + ") "@
}

impl BokhyllePrompt {
    /// The text on the left of the input line.
    pub fn render_prompt_left(&self) -> (s: String)
        ensures
            s@ == "Bokhylle "@,
    {
        "Bokhylle ".to_string()
    }

    /// The text on the right of the input line: nothing.
    pub fn render_prompt_right(&self) -> (s: String)
        ensures
            s@ == ""@,
    {
        "".to_string()
    }

    /// The indicator for the editing mode.
    pub fn render_prompt_indicator(&self, prompt_mode: PromptEditMode) -> (s: String)
        ensures
            s@ == indicator_text(prompt_mode),
    {
        match prompt_mode {
            PromptEditMode::Custom(name) => {
                let mut s = "(".to_string();
                s.append(name.as_str());
                s.append(")");
                s
            },
            _ => "> ".to_string(),
        }
    }

    /// The indicator before each continued line of a multi-line input.
    pub fn render_prompt_multiline_indicator(&self) -> (s: String)
        ensures
            s@ == ":> "@,
    {
        ":> ".to_string()
    }

    /// The indicator shown during a reverse history search for `term`.
    pub fn render_prompt_history_search_indicator(
        &self,
        status: HistorySearchStatus,
        term: &str,
    ) -> (s: String)
        ensures
            s@ == history_search_text(status, term@),
    {
        let mut s = "(".to_string();
        match status {
            HistorySearchStatus::Passing => {},
            HistorySearchStatus::Failing => s.append("failing "),
        }
        s.append("reverse-search: ");
        s.append(term);
        s.append(") ");
        proof {
            reveal_strlit("");
            assert(("("@ + ""@) =~= "("@);
        }
        s
    }
}

} // verus!
