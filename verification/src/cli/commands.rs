//! Interactive command definitions.
//!
//! - `startcrypto` / `start` - Unlock encrypted folders
//! - `stopcrypto` / `stop` - Lock encrypted folders
//! - `finalize` - Finish sync and exit cleanly
//! - `status` / `s` - Show current status
//! - `quit` / `q` / `exit` - Exit the client
//! - `help` / `h` / `?` - Show help
use vstd::prelude::*;

use crate::text::{
    chars_of, eq_str, lowercase, lowercase_chars, push_str, string_from, string_of, trim,
    trim_chars,
};

verus! {

/// Commands available in interactive mode.
#[derive(Debug, Clone, PartialEq, Eq)]
pub enum InteractiveCommand {
    /// Start crypto - unlock encrypted folders.
    StartCrypto,
    /// Stop crypto - lock encrypted folders.
    StopCrypto,
    /// Finalize and exit cleanly.
    Finalize,
    /// Show current status.
    Status,
    /// Quit the client immediately.
    Quit,
    /// Show help text.
    Help,
    /// Unknown or unrecognized command (the normalized input).
    Unknown(String),
}

/// The command a normalized (trimmed, lowercased) word names; `None` when it
/// names none.
pub open spec fn command_word(w: Seq<char>) -> Option<InteractiveCommand> {
    if w == "startcrypto"@ || w == "start"@ || w == "crypto"@ {
        Some(InteractiveCommand::StartCrypto)
    } else if w == "stopcrypto"@ || w == "stop"@ {
        Some(InteractiveCommand::StopCrypto)
    } else if w == "finalize"@ || w == "fin"@ || w == "finish"@ {
        Some(InteractiveCommand::Finalize)
    } else if w == "status"@ || w == "s"@ || w == "stat"@ {
        Some(InteractiveCommand::Status)
    } else if w == "quit"@ || w == "q"@ || w == "exit"@ || w == "bye"@ {
        Some(InteractiveCommand::Quit)
    } else if w == "help"@ || w == "h"@ || w == "?"@ {
        Some(InteractiveCommand::Help)
    } else {
        None
    }
}

/// `r` is what `InteractiveCommand::parse` gives for `input`.
pub open spec fn parses_to(input: Seq<char>, r: InteractiveCommand) -> bool {
    let w = lowercase(trim(input));
    match command_word(w) {
        Some(c) => r == c,
        None => r matches InteractiveCommand::Unknown(s) && s@ == w,
    }
}

/// The text `InteractiveCommand::to_string` gives.
pub open spec fn command_text(c: InteractiveCommand) -> Seq<char> {
    match c {
        InteractiveCommand::StartCrypto => "startcrypto"@,
        InteractiveCommand::StopCrypto => "stopcrypto"@,
        InteractiveCommand::Finalize => "finalize"@,
        InteractiveCommand::Status => "status"@,
        InteractiveCommand::Quit => "quit"@,
        InteractiveCommand::Help => "help"@,
        InteractiveCommand::Unknown(s) => "unknown("@ + s@ + ")"@,
    }
}

/// The help text listing every command.
pub open spec fn help_text() -> Seq<char> {
    "Available commands:\n"@ + "\n"@ + "  startcrypto, start  - Unlock encrypted folders\n"@
        + "  stopcrypto, stop    - Lock encrypted folders\n"@
        + "  finalize, fin       - Finish sync and exit cleanly\n"@
        + "  status, s           - Show current status\n"@
        + "  quit, q, exit       - Exit the client\n"@ + "  help, h, ?          - Show this help\n"@
        + "\n"@
}

impl InteractiveCommand {
    /// Parse a command from user input: trimmed, case-insensitive, with
    /// aliases (e.g. "quit", "q", "exit" and "bye" all map to `Quit`).
    pub fn parse(input: &str) -> (r: Self)
        ensures
            parses_to(input@, r),
    {
        let v = chars_of(input);
        let t = trim_chars(v.as_slice());
        let w = lowercase_chars(t.as_slice());
        let w = w.as_slice();
        if eq_str(w, "startcrypto") || eq_str(w, "start") || eq_str(w, "crypto") {
            InteractiveCommand::StartCrypto
        } else if eq_str(w, "stopcrypto") || eq_str(w, "stop") {
            InteractiveCommand::StopCrypto
        } else if eq_str(w, "finalize") || eq_str(w, "fin") || eq_str(w, "finish") {
            InteractiveCommand::Finalize
        } else if eq_str(w, "status") || eq_str(w, "s") || eq_str(w, "stat") {
            InteractiveCommand::Status
        } else if eq_str(w, "quit") || eq_str(w, "q") || eq_str(w, "exit") || eq_str(w, "bye") {
            InteractiveCommand::Quit
        } else if eq_str(w, "help") || eq_str(w, "h") || eq_str(w, "?") {
            InteractiveCommand::Help
        } else {
            InteractiveCommand::Unknown(string_of(w))
        }
    }

    /// Whether the command makes the client exit.
    pub fn is_exit_command(&self) -> (r: bool)
        ensures
            r == (*self is Quit || *self is Finalize),
    {
        match self {
            InteractiveCommand::Quit | InteractiveCommand::Finalize => true,
            _ => false,
        }
    }

    /// Whether the command is a crypto operation.
    pub fn is_crypto_command(&self) -> (r: bool)
        ensures
            r == (*self is StartCrypto || *self is StopCrypto),
    {
        match self {
            InteractiveCommand::StartCrypto | InteractiveCommand::StopCrypto => true,
            _ => false,
        }
    }

    /// A short description of the command.
    pub fn description(&self) -> (r: &'static str)
        ensures
            r@ == (match *self {
                InteractiveCommand::StartCrypto => "Unlock encrypted folders"@,
                InteractiveCommand::StopCrypto => "Lock encrypted folders"@,
                InteractiveCommand::Finalize => "Finish sync and exit cleanly"@,
                InteractiveCommand::Status => "Show current status"@,
                InteractiveCommand::Quit => "Exit the client immediately"@,
                InteractiveCommand::Help => "Show available commands"@,
                InteractiveCommand::Unknown(_) => "Unknown command"@,
            }),
    {
        match self {
            InteractiveCommand::StartCrypto => "Unlock encrypted folders",
            InteractiveCommand::StopCrypto => "Lock encrypted folders",
            InteractiveCommand::Finalize => "Finish sync and exit cleanly",
            InteractiveCommand::Status => "Show current status",
            InteractiveCommand::Quit => "Exit the client immediately",
            InteractiveCommand::Help => "Show available commands",
            InteractiveCommand::Unknown(_) => "Unknown command",
        }
    }

    /// Append the help text for all commands to `out`.
    pub fn write_help(out: &mut String)
        ensures
            final(out)@ == old(out)@ + help_text(),
    {
        push_str(out, "Available commands:\n");
        push_str(out, "\n");
        push_str(out, "  startcrypto, start  - Unlock encrypted folders\n");
        push_str(out, "  stopcrypto, stop    - Lock encrypted folders\n");
        push_str(out, "  finalize, fin       - Finish sync and exit cleanly\n");
        push_str(out, "  status, s           - Show current status\n");
        push_str(out, "  quit, q, exit       - Exit the client\n");
        push_str(out, "  help, h, ?          - Show this help\n");
        push_str(out, "\n");
    }

    /// The command's canonical name (`unknown(<input>)` for unknown input).
    pub fn to_string(&self) -> (r: String)
        ensures
            r@ == command_text(*self),
    {
        match self {
            InteractiveCommand::StartCrypto => string_from("startcrypto"),
            InteractiveCommand::StopCrypto => string_from("stopcrypto"),
            InteractiveCommand::Finalize => string_from("finalize"),
            InteractiveCommand::Status => string_from("status"),
            InteractiveCommand::Quit => string_from("quit"),
            InteractiveCommand::Help => string_from("help"),
            InteractiveCommand::Unknown(s) => {
                let mut r = string_from("unknown(");
                push_str(&mut r, s.as_str());
                push_str(&mut r, ")");
                r
            },
        }
    }
}

/// Interactive command prompt holding the prompt string.
pub struct CommandPrompt {
    prompt: String,
}

impl View for CommandPrompt {
    /// The prompt string.
    type V = Seq<char>;

    closed spec fn view(&self) -> Seq<char> {
        self.prompt@
    }
}

impl CommandPrompt {
    /// The prompt string.
    pub open spec fn prompt_view(&self) -> Seq<char> {
        self@
    }

    /// A command prompt with the given prompt string.
    pub fn new(prompt: &str) -> (r: Self)
        ensures
            r.prompt_view() == prompt@,
    {
        CommandPrompt { prompt: string_from(prompt) }
    }

    /// A command prompt with the default prompt `"pcloud> "`.
    pub fn default_prompt() -> (r: Self)
        ensures
            r.prompt_view() == "pcloud> "@,
    {
        Self::new("pcloud> ")
    }

    /// The prompt string.
    pub fn prompt(&self) -> (r: &str)
        ensures
            r@ == self.prompt_view(),
    {
        self.prompt.as_str()
    }

    /// Set a new prompt string.
    pub fn set_prompt(&mut self, prompt: &str)
        ensures
            final(self).prompt_view() == prompt@,
    {
        self.prompt = string_from(prompt);
    }
}

impl Default for CommandPrompt {
    fn default() -> (r: Self)
        ensures
            r.prompt_view() == "pcloud> "@,
    {
        Self::default_prompt()
    }
}

/// Two sequences that differ at some position are different.
proof fn lemma_differ_at(a: Seq<char>, b: Seq<char>, i: int)
    requires
        0 <= i < a.len(),
        0 <= i < b.len(),
        a[i] != b[i],
    ensures
        a != b,
{
}

/// A known command's name parses back to that command: for every command
/// other than `Unknown`, input that normalizes to `to_string()` gives it back.
pub proof fn law_parse_display_name(c: InteractiveCommand, input: Seq<char>)
    requires
        !(c is Unknown),
        lowercase(trim(input)) == command_text(c),
    ensures
        parses_to(input, c),
{
    reveal_strlit("startcrypto");
    reveal_strlit("stopcrypto");
    reveal_strlit("finalize");
    reveal_strlit("status");
    reveal_strlit("quit");
    reveal_strlit("help");
    reveal_strlit("start");
    reveal_strlit("crypto");
    reveal_strlit("stop");
    reveal_strlit("fin");
    reveal_strlit("finish");
    reveal_strlit("s");
    reveal_strlit("stat");
    reveal_strlit("q");
    reveal_strlit("exit");
    reveal_strlit("bye");
    reveal_strlit("h");
    reveal_strlit("?");
    match c {
        InteractiveCommand::Status => {
            lemma_differ_at("status"@, "crypto"@, 0);
            lemma_differ_at("status"@, "finish"@, 1);
        },
        InteractiveCommand::Quit => {
            lemma_differ_at("quit"@, "stop"@, 0);
            lemma_differ_at("quit"@, "stat"@, 0);
        },
        InteractiveCommand::Help => {
            lemma_differ_at("help"@, "stop"@, 0);
            lemma_differ_at("help"@, "stat"@, 0);
            lemma_differ_at("help"@, "quit"@, 0);
            lemma_differ_at("help"@, "exit"@, 0);
        },
        InteractiveCommand::StartCrypto => {},
        InteractiveCommand::StopCrypto => {
            assert("stopcrypto"@.len() == 10);
            assert("startcrypto"@.len() == 11 && "start"@.len() == 5 && "crypto"@.len() == 6);
        },
        InteractiveCommand::Finalize => {
            assert("finalize"@.len() == 8);
            assert("startcrypto"@.len() == 11 && "start"@.len() == 5 && "crypto"@.len() == 6);
            assert("stopcrypto"@.len() == 10 && "stop"@.len() == 4);
        },
        InteractiveCommand::Unknown(_) => {},
    }
}

/// The words that name an exit command (`finalize` or `quit`, with their
/// aliases).
pub open spec fn is_exit_word(w: Seq<char>) -> bool {
    w == "finalize"@ || w == "fin"@ || w == "finish"@ || w == "quit"@ || w == "q"@ || w == "exit"@
        || w == "bye"@
}

/// Input parses to an exit command exactly when, trimmed and lowercased, it
/// is one of the exit words.
pub proof fn law_exit_aliases(input: Seq<char>, r: InteractiveCommand)
    requires
        parses_to(input, r),
    ensures
        (r is Quit || r is Finalize) <==> is_exit_word(lowercase(trim(input))),
{
    let w = lowercase(trim(input));
    reveal_strlit("startcrypto");
    reveal_strlit("stopcrypto");
    reveal_strlit("finalize");
    reveal_strlit("status");
    reveal_strlit("quit");
    reveal_strlit("help");
    reveal_strlit("start");
    reveal_strlit("crypto");
    reveal_strlit("stop");
    reveal_strlit("fin");
    reveal_strlit("finish");
    reveal_strlit("s");
    reveal_strlit("stat");
    reveal_strlit("q");
    reveal_strlit("exit");
    reveal_strlit("bye");
    reveal_strlit("h");
    reveal_strlit("?");
    if w == "finalize"@ {
        assert("finalize"@.len() != "startcrypto"@.len());
        assert("finalize"@.len() != "start"@.len());
        assert("finalize"@.len() != "crypto"@.len());
        assert("finalize"@.len() != "stopcrypto"@.len());
        assert("finalize"@.len() != "stop"@.len());
        assert(command_word(w) == Some(InteractiveCommand::Finalize));
    }
    if w == "fin"@ {
        assert("fin"@.len() != "startcrypto"@.len());
        assert("fin"@.len() != "start"@.len());
        assert("fin"@.len() != "crypto"@.len());
        assert("fin"@.len() != "stopcrypto"@.len());
        assert("fin"@.len() != "stop"@.len());
        assert(command_word(w) == Some(InteractiveCommand::Finalize));
    }
    if w == "finish"@ {
        assert("finish"@.len() != "startcrypto"@.len());
        assert("finish"@.len() != "start"@.len());
        lemma_differ_at("finish"@, "crypto"@, 0);
        assert("finish"@.len() != "stopcrypto"@.len());
        assert("finish"@.len() != "stop"@.len());
        assert(command_word(w) == Some(InteractiveCommand::Finalize));
    }
    if w == "quit"@ {
        assert("quit"@.len() != "startcrypto"@.len());
        assert("quit"@.len() != "start"@.len());
        assert("quit"@.len() != "crypto"@.len());
        assert("quit"@.len() != "stopcrypto"@.len());
        lemma_differ_at("quit"@, "stop"@, 0);
        assert("quit"@.len() != "finalize"@.len());
        assert("quit"@.len() != "fin"@.len());
        assert("quit"@.len() != "finish"@.len());
        assert("quit"@.len() != "status"@.len());
        assert("quit"@.len() != "s"@.len());
        lemma_differ_at("quit"@, "stat"@, 0);
        assert(command_word(w) == Some(InteractiveCommand::Quit));
    }
    if w == "q"@ {
        assert("q"@.len() != "startcrypto"@.len());
        assert("q"@.len() != "start"@.len());
        assert("q"@.len() != "crypto"@.len());
        assert("q"@.len() != "stopcrypto"@.len());
        assert("q"@.len() != "stop"@.len());
        assert("q"@.len() != "finalize"@.len());
        assert("q"@.len() != "fin"@.len());
        assert("q"@.len() != "finish"@.len());
        assert("q"@.len() != "status"@.len());
        lemma_differ_at("q"@, "s"@, 0);
        assert("q"@.len() != "stat"@.len());
        assert(command_word(w) == Some(InteractiveCommand::Quit));
    }
    if w == "exit"@ {
        assert("exit"@.len() != "startcrypto"@.len());
        assert("exit"@.len() != "start"@.len());
        assert("exit"@.len() != "crypto"@.len());
        assert("exit"@.len() != "stopcrypto"@.len());
        lemma_differ_at("exit"@, "stop"@, 0);
        assert("exit"@.len() != "finalize"@.len());
        assert("exit"@.len() != "fin"@.len());
        assert("exit"@.len() != "finish"@.len());
        assert("exit"@.len() != "status"@.len());
        assert("exit"@.len() != "s"@.len());
        lemma_differ_at("exit"@, "stat"@, 0);
        assert(command_word(w) == Some(InteractiveCommand::Quit));
    }
    if w == "bye"@ {
        assert("bye"@.len() != "startcrypto"@.len());
        assert("bye"@.len() != "start"@.len());
        assert("bye"@.len() != "crypto"@.len());
        assert("bye"@.len() != "stopcrypto"@.len());
        assert("bye"@.len() != "stop"@.len());
        assert("bye"@.len() != "finalize"@.len());
        assert("bye"@[2] == 'e');
        assert("fin"@[2] == 'n');
        lemma_differ_at("bye"@, "fin"@, 2);
        assert("bye"@.len() != "finish"@.len());
        assert("bye"@.len() != "status"@.len());
        assert("bye"@.len() != "s"@.len());
        assert("bye"@.len() != "stat"@.len());
        assert(command_word(w) == Some(InteractiveCommand::Quit));
    }
    if !is_exit_word(w) {
        assert(command_word(w) != Some(InteractiveCommand::Quit));
        assert(command_word(w) != Some(InteractiveCommand::Finalize));
    }
}

} // verus!
