//! The command surface: the two actions, their description, the choice of
//! what to run, and the arguments handed to the external tailer.
use vstd::prelude::*;
use crate::engine::Coordination;
use crate::text::{decimal, push_decimal};

verus! {

/// Default seconds between two polls when following a file.
pub const DEFAULT_SLEEP: u32 = 10;

/// Default milliseconds between two appends.
pub const DEFAULT_INTERVAL: u32 = 2000;

/// What to do with the file.
#[derive(Clone, Copy, Debug, PartialEq, Eq, Structural)]
pub enum Action {
    /// Print the last line, then follow incoming changes.
    Read { sleep: u32, use_polling: bool },
    /// Append the current time at intervals.
    Write { interval: u32, use_locking: bool },
}

/// The parsed command line: an optional action and the path of the file.
#[derive(Debug)]
pub struct Cli {
    pub command: Option<Action>,
    pub file: String,
}

/// What the process runs after parsing its arguments.
#[derive(Clone, Copy, Debug, PartialEq, Eq, Structural)]
pub enum Dispatch {
    /// Follow the file with the external tailer.
    Follow { sleep: u32, use_polling: bool },
    /// Append timestamp lines to the file.
    Write { interval: u32, mode: Coordination },
    /// The read action on a path that is no regular file.
    NotAFile,
}

/// The description of an action.
pub open spec fn action_text(a: Action) -> Seq<char> {
    match a {
        Action::Read { sleep, use_polling } => "Read with "@ + decimal(sleep as nat)
            + " s sleep interval with "@ + if use_polling {
            "polling"@
        } else {
            "inotify subsystem"@
        },
        Action::Write { interval, use_locking } => "Write at "@ + decimal(interval as nat)
            + " ms with"@ + if use_locking {
            ""@
        } else {
            "out"@
        } + " locking"@,
    }
}

/// Describes an action in words.
pub fn action_fmt(action: &Action) -> (r: String)
    ensures
        r@ == action_text(*action),
{
    proof {
        reveal_strlit("");
    }
    match *action {
        Action::Read { sleep, use_polling } => {
            let mut s = String::from_str("Read with ");
            push_decimal(&mut s, sleep);
            s.append(" s sleep interval with ");
            if use_polling {
                s.append("polling");
            } else {
                s.append("inotify subsystem");
            }
            s
        },
        Action::Write { interval, use_locking } => {
            let mut s = String::from_str("Write at ");
            push_decimal(&mut s, interval);
            s.append(" ms with");
            if !use_locking {
                s.append("out");
            }
            s.append(" locking");
            s
        },
    }
}

/// The action run when none is given.
pub open spec fn default_action() -> Action {
    Action::Read { sleep: DEFAULT_SLEEP, use_polling: false }
}

/// How the write action coordinates: the lock, with the size re-check, when
/// asked for.
pub open spec fn coordination_of(use_locking: bool) -> Coordination {
    if use_locking {
        Coordination::LockedWithRecheck
    } else {
        Coordination::Unlocked
    }
}

/// What runs for an action, given whether the path denotes a regular file.
pub open spec fn dispatch_of(a: Action, is_file: bool) -> Dispatch {
    match a {
        Action::Read { sleep, use_polling } => if is_file {
            Dispatch::Follow { sleep, use_polling }
        } else {
            Dispatch::NotAFile
        },
        Action::Write { interval, use_locking } => Dispatch::Write {
            interval,
            mode: coordination_of(use_locking),
        },
    }
}

impl Cli {
    pub fn new(command: Option<Action>, file: String) -> (r: Cli)
        ensures
            r.command == command,
            r.file@ == file@,
    {
        Cli { command, file }
    }

    /// The action given, or following with the default sleep.
    pub fn action(&self) -> (r: Action)
        ensures
            r == (match self.command {
                Some(a) => a,
                None => default_action(),
            }),
    {
        match self.command {
            Some(a) => a,
            None => Action::Read { sleep: DEFAULT_SLEEP, use_polling: false },
        }
    }

    /// Chooses what to run; the read action needs `is_file`, whether the
    /// path denotes an existing regular file.
    pub fn dispatch(&self, is_file: bool) -> (r: Dispatch)
        ensures
            r == dispatch_of(
                match self.command {
                    Some(a) => a,
                    None => default_action(),
                },
                is_file,
            ),
    {
        match self.action() {
            Action::Read { sleep, use_polling } => if is_file {
                Dispatch::Follow { sleep, use_polling }
            } else {
                Dispatch::NotAFile
            },
            Action::Write { interval, use_locking } => {
                let mode = if use_locking {
                    Coordination::LockedWithRecheck
                } else {
                    Coordination::Unlocked
                };
                Dispatch::Write { interval, mode }
            },
        }
    }
}

/// The arguments handed to the external tailer: the program name, the path,
/// the last line only, following the descriptor, the poll interval in
/// seconds, and polling instead of change notification when asked for.
pub open spec fn tail_arg_texts(path: Seq<char>, sleep: u32, use_polling: bool) -> Seq<Seq<char>> {
    let base = seq![
        "tail"@,
        path,
        "--lines=1"@,
        "--follow=descriptor"@,
        "--sleep-interval="@ + decimal(sleep as nat),
    ];
    if use_polling {
        base.push("--use-polling"@)
    } else {
        base
    }
}

/// Builds the arguments of the external tailer for following `path`.
pub fn tail_args(path: &str, sleep: u32, use_polling: bool) -> (r: Vec<String>)
    ensures
        r@.len() == tail_arg_texts(path@, sleep, use_polling).len(),
        forall|i: int| 0 <= i < r@.len() ==> #[trigger] r@[i]@ == tail_arg_texts(path@, sleep, use_polling)[i],
{
    let mut interval = String::from_str("--sleep-interval=");
    push_decimal(&mut interval, sleep);
    let mut r: Vec<String> = Vec::new();
    r.push(String::from_str("tail"));
    r.push(String::from_str(path));
    r.push(String::from_str("--lines=1"));
    r.push(String::from_str("--follow=descriptor"));
    r.push(interval);
    if use_polling {
        r.push(String::from_str("--use-polling"));
    }
    r
}

/// The report for a read action on a path that is no regular file.
pub fn not_a_file_message(path: &str) -> (r: String)
    ensures
        r@ == "'"@ + path@ + "' is not a file!"@,
{
    let mut s = String::from_str("'");
    s.append(path);
    s.append("' is not a file!");
    s
}

/// The banner printed before following a file; `shown_path` is the path as
/// it is to be shown.
pub fn follow_banner(shown_path: &str, use_polling: bool) -> (r: String)
    ensures
        r@ == "Following "@ + shown_path@ + " file descriptor using "@ + if use_polling {
            "polling."@
        } else {
            "inotify subsystem."@
        },
{
    let mut s = String::from_str("Following ");
    s.append(shown_path);
    s.append(" file descriptor using ");
    if use_polling {
        s.append("polling.");
    } else {
        s.append("inotify subsystem.");
    }
    s
}

/// The banner printed before appending to a file; `shown_path` is the path
/// as it is to be shown.
pub fn write_banner(shown_path: &str, interval: u32, use_locking: bool) -> (r: String)
    ensures
        r@ == "Writing to: "@ + shown_path@ + " every "@ + decimal(interval as nat)
            + " milliseconds with"@ + if use_locking {
            ""@
        } else {
            "out"@
        } + " locking."@,
{
    proof {
        reveal_strlit("");
    }
    let mut s = String::from_str("Writing to: ");
    s.append(shown_path);
    s.append(" every ");
    push_decimal(&mut s, interval);
    s.append(" milliseconds with");
    if !use_locking {
        s.append("out");
    }
    s.append(" locking.");
    s
}

} // verus!
