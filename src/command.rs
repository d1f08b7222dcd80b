use vstd::prelude::*;
use crate::text::{has_prefix, lower_of, lowercase, starts_with, trim, trimmed};

verus! {

/// What a line typed into the shell asks for.
#[derive(Debug, Clone, PartialEq, Eq)]
pub enum CommandKind {
    /// Change the working directory to the given target.
    ChangeDir(String),
    /// Show the working directory.
    ShowDir,
    /// Hand the line to the system shell.
    Run,
}

/// A line whose lower-case form begins with `cd `, and which has the three
/// characters that its target follows, changes directory.
pub open spec fn is_change_dir(command: Seq<char>) -> bool {
    has_prefix(lower_of(command), seq!['c', 'd', ' ']) && command.len() >= 3
}

/// The directory that a change-directory line names: what follows its
/// first three characters, trimmed. Only `C`, `c`, `D`, `d` and the space
/// lower-case to the letters of `cd `, so those characters are also the
/// line's first three bytes.
pub open spec fn change_dir_target(command: Seq<char>) -> Seq<char> {
    trimmed(command.subrange(3, command.len() as int))
}

/// A line that is `cd` alone, in any case and with any surrounding white
/// space, shows the directory.
pub open spec fn is_show_dir(command: Seq<char>) -> bool {
    lower_of(trimmed(command)) == seq!['c', 'd']
}

/// Sorts a shell line into a directory change, a directory query or a
/// command for the system shell, in that order of precedence.
pub fn classify_command(command: &str) -> (r: CommandKind)
    ensures
        is_change_dir(command@) ==> (r matches CommandKind::ChangeDir(t) && t@
            == change_dir_target(command@)),
        !is_change_dir(command@) && is_show_dir(command@) ==> r is ShowDir,
        !is_change_dir(command@) && !is_show_dir(command@) ==> r is Run,
{
    let lower = lowercase(command);
    let len = command.unicode_len();
    let cd = "cd ";
    proof {
        reveal_strlit("cd ");
    }
    assert(cd@ =~= seq!['c', 'd', ' ']);
    if starts_with(lower.as_str(), cd) && len >= 3 {
        let rest = command.substring_char(3, len);
        let target = trim(rest);
        return CommandKind::ChangeDir(String::from_str(target));
    }
    let bare = lowercase(trim(command));
    let word = "cd";
    proof {
        reveal_strlit("cd");
    }
    assert(word@ =~= seq!['c', 'd']);
    assert(bare@ == seq!['c', 'd'] ==> bare@.subrange(0, 2) =~= seq!['c', 'd']);
    if starts_with(bare.as_str(), word) && bare.as_str().unicode_len() == 2 {
        assert(bare@ =~= seq!['c', 'd']);
        CommandKind::ShowDir
    } else {
        CommandKind::Run
    }
}

} // verus!
