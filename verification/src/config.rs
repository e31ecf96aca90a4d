//! The settings of one run, and where an accepted command is recorded.

use crate::text::same_text;
use vstd::prelude::*;
use vstd::string::StringExecFns;

verus! {

/// The settings of one run.
#[derive(Clone, Debug, PartialEq, Eq)]
pub struct Config {
    /// The base address of the inference service, without a trailing slash.
    pub api_base: String,
    /// The path of the user's shell; empty where it is not known.
    pub shell: String,
    /// The model that the service is asked for; empty where none is set.
    pub model: String,
}

/// One line to append to a history file.
#[derive(Clone, Debug, PartialEq, Eq)]
pub struct HistoryEntry {
    /// The path of the history file.
    pub path: String,
    /// The line, with its line feed.
    pub line: String,
}

/// Why an accepted command could not be recorded.
#[derive(Clone, Copy, Debug, PartialEq, Eq, Structural)]
pub enum HistoryError {
    /// The shell keeps a history file, but the home directory is not known.
    HomeUnset,
}

/// The base address that serves where none is set.
pub open spec fn default_api_base() -> Seq<char> {
    "http://localhost:11434/api"@
}

/// The name, below the home directory, of the file in which `shell` keeps its
/// history; nothing for a shell other than `/bin/bash` and `/bin/zsh`.
pub open spec fn history_file(shell: Seq<char>) -> Option<Seq<char>> {
    if shell == "/bin/bash"@ {
        Some("/.bash_history"@)
    } else if shell == "/bin/zsh"@ {
        Some("/.zsh_history"@)
    } else {
        None
    }
}

/// What `Config::write_to_history` answers for `shell`, the home directory
/// `home` and the command `code`.
pub open spec fn history_plan(shell: Seq<char>, home: Option<Seq<char>>, code: Seq<char>) -> Result<
    Option<(Seq<char>, Seq<char>)>,
    HistoryError,
> {
    match history_file(shell) {
        None => Ok(None),
        Some(name) => match home {
            None => Err(HistoryError::HomeUnset),
            Some(dir) => Ok(Some((dir + name, code + "\n"@))),
        },
    }
}

impl View for HistoryEntry {
    type V = (Seq<char>, Seq<char>);

    open spec fn view(&self) -> (Seq<char>, Seq<char>) {
        (self.path@, self.line@)
    }
}

/// The view of an answer of `Config::write_to_history`.
pub open spec fn plan_view(r: Result<Option<HistoryEntry>, HistoryError>) -> Result<
    Option<(Seq<char>, Seq<char>)>,
    HistoryError,
> {
    match r {
        Ok(Some(entry)) => Ok(Some(entry@)),
        Ok(None) => Ok(None),
        Err(e) => Err(e),
    }
}

impl Config {
    /// The settings made of what the environment holds: a value that is not
    /// set gives way to the default base address, to an empty shell path and
    /// to an empty model.
    pub fn new(api_base: Option<String>, shell: Option<String>, model: Option<String>) -> (c:
        Config)
        ensures
            c.api_base@ == (match api_base {
                Some(base) => base@,
                None => default_api_base(),
            }),
            c.shell@ == (match shell {
                Some(path) => path@,
                None => Seq::<char>::empty(),
            }),
            c.model@ == (match model {
                Some(name) => name@,
                None => Seq::<char>::empty(),
            }),
    {
        let api_base = match api_base {
            Some(base) => base,
            None => String::from_str("http://localhost:11434/api"),
        };
        let shell = match shell {
            Some(path) => path,
            None => String::new(),
        };
        let model = match model {
            Some(name) => name,
            None => String::new(),
        };
        Config { api_base, shell, model }
    }

    /// Says where the accepted command `code` is to be recorded: nowhere for
    /// a shell that is not known, else as one line at the end of the shell's
    /// history file below `home`. It fails where such a shell is set and
    /// `home` is not.
    pub fn write_to_history(&self, code: &str, home: Option<&str>) -> (r: Result<
        Option<HistoryEntry>,
        HistoryError,
    >)
        ensures
            plan_view(r) == history_plan(
                self.shell@,
                match home {
                    Some(dir) => Some(dir@),
                    None => None,
                },
                code@,
            ),
    {
        let name = if same_text(self.shell.as_str(), "/bin/bash") {
            "/.bash_history"
        } else if same_text(self.shell.as_str(), "/bin/zsh") {
            "/.zsh_history"
        } else {
            return Ok(None);
        };
        match home {
            None => Err(HistoryError::HomeUnset),
            Some(dir) => {
                let mut path = String::from_str(dir);
                path.append(name);
                let mut line = String::from_str(code);
                line.append("\n");
                Ok(Some(HistoryEntry { path, line }))
            },
        }
    }
}

} // verus!
