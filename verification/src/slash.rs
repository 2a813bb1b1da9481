//! What the interactive editor does with submitted text: built-in slash
//! commands, `!` bash commands and prompts, and the checks a command passes
//! before it runs.
use vstd::prelude::*;
use crate::text::{
    chars_eq_str, chars_from, chars_of, has_prefix, owned, push_str_chars, starts_with_chars, string_from_chars, trim_chars,
    trim_seq,
};

verus! {

/// A built-in slash command, over strings `S`.
pub enum SlashCommandOf<S> {
    Quit,
    Settings,
    New,
    Resume,
    Fork,
    /// `/tree [entry]`: the picker, or a jump to `entry`.
    Tree { target: Option<S> },
    /// `/scoped-models [search]`.
    ScopedModels { search: Option<S> },
    Session,
    Copy,
    /// `/export [path]`.
    Export { path: Option<S> },
    Share,
    /// `/name [name]`: shows the name, or sets it.
    Name { name: Option<S> },
    Changelog,
    Hotkeys,
    /// `/login [provider]`.
    Login { provider: Option<S> },
    /// `/logout [provider]`.
    Logout { provider: Option<S> },
    /// `/compact [instructions]`.
    Compact { instructions: Option<S> },
    Reload,
    /// `/model [search]`.
    Model { search: Option<S> },
}

/// A parsed slash command.
pub type SlashCommand = SlashCommandOf<String>;

/// The abstract value of a slash command.
pub type SlashCommandModel = SlashCommandOf<Seq<char>>;

/// The view of an optional string.
pub open spec fn opt_view(o: Option<String>) -> Option<Seq<char>> {
    match o {
        Some(s) => Some(s@),
        None => None,
    }
}

/// The abstract value of a slash command.
pub open spec fn slash_view(c: SlashCommand) -> SlashCommandModel {
    match c {
        SlashCommandOf::Quit => SlashCommandOf::Quit,
        SlashCommandOf::Settings => SlashCommandOf::Settings,
        SlashCommandOf::New => SlashCommandOf::New,
        SlashCommandOf::Resume => SlashCommandOf::Resume,
        SlashCommandOf::Fork => SlashCommandOf::Fork,
        SlashCommandOf::Tree { target } => SlashCommandOf::Tree { target: opt_view(target) },
        SlashCommandOf::ScopedModels { search } => SlashCommandOf::ScopedModels { search: opt_view(search) },
        SlashCommandOf::Session => SlashCommandOf::Session,
        SlashCommandOf::Copy => SlashCommandOf::Copy,
        SlashCommandOf::Export { path } => SlashCommandOf::Export { path: opt_view(path) },
        SlashCommandOf::Share => SlashCommandOf::Share,
        SlashCommandOf::Name { name } => SlashCommandOf::Name { name: opt_view(name) },
        SlashCommandOf::Changelog => SlashCommandOf::Changelog,
        SlashCommandOf::Hotkeys => SlashCommandOf::Hotkeys,
        SlashCommandOf::Login { provider } => SlashCommandOf::Login { provider: opt_view(provider) },
        SlashCommandOf::Logout { provider } => SlashCommandOf::Logout { provider: opt_view(provider) },
        SlashCommandOf::Compact { instructions } => SlashCommandOf::Compact {
            instructions: opt_view(instructions),
        },
        SlashCommandOf::Reload => SlashCommandOf::Reload,
        SlashCommandOf::Model { search } => SlashCommandOf::Model { search: opt_view(search) },
    }
}

/// Whether `text` is the command `word`, alone or followed by a space.
pub open spec fn names_command(text: Seq<char>, word: Seq<char>) -> bool {
    text == word || has_prefix(text, word + seq![' '])
}

/// What follows the command `word`, trimmed; `None` when that is empty.
pub open spec fn argument_after(text: Seq<char>, word: Seq<char>) -> Option<Seq<char>> {
    let rest = trim_seq(text.skip(word.len() as int));
    if rest.len() == 0 {
        None
    } else {
        Some(rest)
    }
}

/// The built-in command `text` names, if any, checked in this order.
pub open spec fn slash_command_of(text: Seq<char>) -> Option<SlashCommandModel> {
    if text == "/quit"@ {
        Some(SlashCommandOf::Quit)
    } else if text == "/settings"@ {
        Some(SlashCommandOf::Settings)
    } else if text == "/new"@ {
        Some(SlashCommandOf::New)
    } else if text == "/resume"@ {
        Some(SlashCommandOf::Resume)
    } else if text == "/fork"@ {
        Some(SlashCommandOf::Fork)
    } else if names_command(text, "/tree"@) {
        Some(SlashCommandOf::Tree { target: argument_after(text, "/tree"@) })
    } else if names_command(text, "/scoped-models"@) {
        Some(SlashCommandOf::ScopedModels { search: argument_after(text, "/scoped-models"@) })
    } else if text == "/session"@ {
        Some(SlashCommandOf::Session)
    } else if text == "/copy"@ {
        Some(SlashCommandOf::Copy)
    } else if names_command(text, "/export"@) {
        Some(SlashCommandOf::Export { path: argument_after(text, "/export"@) })
    } else if text == "/share"@ {
        Some(SlashCommandOf::Share)
    } else if names_command(text, "/name"@) {
        Some(SlashCommandOf::Name { name: argument_after(text, "/name"@) })
    } else if text == "/changelog"@ {
        Some(SlashCommandOf::Changelog)
    } else if text == "/hotkeys"@ {
        Some(SlashCommandOf::Hotkeys)
    } else if names_command(text, "/login"@) {
        Some(SlashCommandOf::Login { provider: argument_after(text, "/login"@) })
    } else if names_command(text, "/logout"@) {
        Some(SlashCommandOf::Logout { provider: argument_after(text, "/logout"@) })
    } else if names_command(text, "/compact"@) {
        Some(SlashCommandOf::Compact { instructions: argument_after(text, "/compact"@) })
    } else if text == "/reload"@ {
        Some(SlashCommandOf::Reload)
    } else if names_command(text, "/model"@) {
        Some(SlashCommandOf::Model { search: argument_after(text, "/model"@) })
    } else {
        None
    }
}

/// Trimming ignores a leading space.
proof fn lemma_trim_after_space(p: Seq<char>)
    ensures
        trim_seq(seq![' '] + p) == trim_seq(p),
{
    let s = seq![' '] + p;
    assert(s.drop_first() == p);
    assert(crate::text::is_whitespace_char(' '));
}

/// `/export` followed by a path exports to that path (trimmed); only when
/// nothing but whitespace follows does it export to the default file.
pub proof fn lemma_export_path(p: Seq<char>)
    ensures
        slash_command_of("/export "@ + p) == Some(
            SlashCommandModel::Export {
                path: if trim_seq(p).len() == 0 {
                    None
                } else {
                    Some(trim_seq(p))
                },
            },
        ),
        slash_command_of("/export"@) == Some(SlashCommandModel::Export { path: None }),
{
    reveal_strlit("/quit");
    reveal_strlit("/settings");
    reveal_strlit("/new");
    reveal_strlit("/resume");
    reveal_strlit("/fork");
    reveal_strlit("/tree");
    reveal_strlit("/scoped-models");
    reveal_strlit("/session");
    reveal_strlit("/copy");
    reveal_strlit("/export");
    reveal_strlit("/export ");
    reveal_strlit("");
    let text = "/export "@ + p;
    assert(text[1] == 'e');
    assert(text.len() >= 8);
    assert(text != "/quit"@) by { if text.len() == "/quit"@.len() { assert(text[1] != "/quit"@[1]); } }
    assert(!has_prefix(text, "/quit"@ + seq![' '])) by { if has_prefix(text, "/quit"@ + seq![' ']) { assert(text.take(("/quit"@ + seq![' ']).len() as int)[1] == text[1]); } }
    assert(text != "/settings"@) by { if text.len() == "/settings"@.len() { assert(text[1] != "/settings"@[1]); } }
    assert(!has_prefix(text, "/settings"@ + seq![' '])) by { if has_prefix(text, "/settings"@ + seq![' ']) { assert(text.take(("/settings"@ + seq![' ']).len() as int)[1] == text[1]); } }
    assert(text != "/new"@) by { if text.len() == "/new"@.len() { assert(text[1] != "/new"@[1]); } }
    assert(!has_prefix(text, "/new"@ + seq![' '])) by { if has_prefix(text, "/new"@ + seq![' ']) { assert(text.take(("/new"@ + seq![' ']).len() as int)[1] == text[1]); } }
    assert(text != "/resume"@) by { if text.len() == "/resume"@.len() { assert(text[1] != "/resume"@[1]); } }
    assert(!has_prefix(text, "/resume"@ + seq![' '])) by { if has_prefix(text, "/resume"@ + seq![' ']) { assert(text.take(("/resume"@ + seq![' ']).len() as int)[1] == text[1]); } }
    assert(text != "/fork"@) by { if text.len() == "/fork"@.len() { assert(text[1] != "/fork"@[1]); } }
    assert(!has_prefix(text, "/fork"@ + seq![' '])) by { if has_prefix(text, "/fork"@ + seq![' ']) { assert(text.take(("/fork"@ + seq![' ']).len() as int)[1] == text[1]); } }
    assert(text != "/tree"@) by { if text.len() == "/tree"@.len() { assert(text[1] != "/tree"@[1]); } }
    assert(!has_prefix(text, "/tree"@ + seq![' '])) by { if has_prefix(text, "/tree"@ + seq![' ']) { assert(text.take(("/tree"@ + seq![' ']).len() as int)[1] == text[1]); } }
    assert(text != "/scoped-models"@) by { if text.len() == "/scoped-models"@.len() { assert(text[1] != "/scoped-models"@[1]); } }
    assert(!has_prefix(text, "/scoped-models"@ + seq![' '])) by { if has_prefix(text, "/scoped-models"@ + seq![' ']) { assert(text.take(("/scoped-models"@ + seq![' ']).len() as int)[1] == text[1]); } }
    assert(text != "/session"@) by { if text.len() == "/session"@.len() { assert(text[1] != "/session"@[1]); } }
    assert(!has_prefix(text, "/session"@ + seq![' '])) by { if has_prefix(text, "/session"@ + seq![' ']) { assert(text.take(("/session"@ + seq![' ']).len() as int)[1] == text[1]); } }
    assert(text != "/copy"@) by { if text.len() == "/copy"@.len() { assert(text[1] != "/copy"@[1]); } }
    assert(!has_prefix(text, "/copy"@ + seq![' '])) by { if has_prefix(text, "/copy"@ + seq![' ']) { assert(text.take(("/copy"@ + seq![' ']).len() as int)[1] == text[1]); } }
    assert(has_prefix(text, "/export"@ + seq![' '])) by {
        assert(text.take(8) =~= "/export"@ + seq![' ']);
    }
    assert(text.skip(7) =~= seq![' '] + p);
    lemma_trim_after_space(p);
    assert(trim_seq(Seq::<char>::empty()).len() == 0);
    assert("/export"@.skip(7) =~= Seq::<char>::empty());
    assert("/export"@ != "/quit"@) by { if "/export"@.len() == "/quit"@.len() { assert("/export"@[1] != "/quit"@[1]); } }
    assert("/export"@ != "/settings"@) by { if "/export"@.len() == "/settings"@.len() { assert("/export"@[1] != "/settings"@[1]); } }
    assert("/export"@ != "/new"@) by { if "/export"@.len() == "/new"@.len() { assert("/export"@[1] != "/new"@[1]); } }
    assert("/export"@ != "/resume"@) by { if "/export"@.len() == "/resume"@.len() { assert("/export"@[1] != "/resume"@[1]); } }
    assert("/export"@ != "/fork"@) by { if "/export"@.len() == "/fork"@.len() { assert("/export"@[1] != "/fork"@[1]); } }
    assert("/export"@ != "/tree"@) by { if "/export"@.len() == "/tree"@.len() { assert("/export"@[1] != "/tree"@[1]); } }
    assert("/export"@ != "/scoped-models"@) by { if "/export"@.len() == "/scoped-models"@.len() { assert("/export"@[1] != "/scoped-models"@[1]); } }
    assert("/export"@ != "/session"@) by { if "/export"@.len() == "/session"@.len() { assert("/export"@[1] != "/session"@[1]); } }
    assert("/export"@ != "/copy"@) by { if "/export"@.len() == "/copy"@.len() { assert("/export"@[1] != "/copy"@[1]); } }
    assert(!has_prefix("/export"@, "/quit"@ + seq![' '])) by { if has_prefix("/export"@, "/quit"@ + seq![' ']) { assert("/export"@.take(("/quit"@ + seq![' ']).len() as int)[1] == "/export"@[1]); } }
    assert(!has_prefix("/export"@, "/settings"@ + seq![' '])) by { if has_prefix("/export"@, "/settings"@ + seq![' ']) { assert("/export"@.take(("/settings"@ + seq![' ']).len() as int)[1] == "/export"@[1]); } }
    assert(!has_prefix("/export"@, "/new"@ + seq![' '])) by { if has_prefix("/export"@, "/new"@ + seq![' ']) { assert("/export"@.take(("/new"@ + seq![' ']).len() as int)[1] == "/export"@[1]); } }
    assert(!has_prefix("/export"@, "/resume"@ + seq![' '])) by { if has_prefix("/export"@, "/resume"@ + seq![' ']) { assert("/export"@.take(("/resume"@ + seq![' ']).len() as int)[1] == "/export"@[1]); } }
    assert(!has_prefix("/export"@, "/fork"@ + seq![' '])) by { if has_prefix("/export"@, "/fork"@ + seq![' ']) { assert("/export"@.take(("/fork"@ + seq![' ']).len() as int)[1] == "/export"@[1]); } }
    assert(!has_prefix("/export"@, "/tree"@ + seq![' '])) by { if has_prefix("/export"@, "/tree"@ + seq![' ']) { assert("/export"@.take(("/tree"@ + seq![' ']).len() as int)[1] == "/export"@[1]); } }
    assert(!has_prefix("/export"@, "/scoped-models"@ + seq![' '])) by { if has_prefix("/export"@, "/scoped-models"@ + seq![' ']) { assert("/export"@.take(("/scoped-models"@ + seq![' ']).len() as int)[1] == "/export"@[1]); } }
    assert(!has_prefix("/export"@, "/session"@ + seq![' '])) by { if has_prefix("/export"@, "/session"@ + seq![' ']) { assert("/export"@.take(("/session"@ + seq![' ']).len() as int)[1] == "/export"@[1]); } }
    assert(!has_prefix("/export"@, "/copy"@ + seq![' '])) by { if has_prefix("/export"@, "/copy"@ + seq![' ']) { assert("/export"@.take(("/copy"@ + seq![' ']).len() as int)[1] == "/export"@[1]); } }
    assert(names_command("/export"@, "/export"@));
    assert(argument_after("/export"@, "/export"@) is None);
}

/// Each command word typed alone is that command: the commands that take
/// an argument then have none.
pub proof fn lemma_command_words()
    ensures
        slash_command_of("/quit"@) == Some(SlashCommandModel::Quit),
        slash_command_of("/settings"@) == Some(SlashCommandModel::Settings),
        slash_command_of("/new"@) == Some(SlashCommandModel::New),
        slash_command_of("/resume"@) == Some(SlashCommandModel::Resume),
        slash_command_of("/fork"@) == Some(SlashCommandModel::Fork),
        slash_command_of("/tree"@) == Some(SlashCommandModel::Tree { target: None }),
        slash_command_of("/scoped-models"@) == Some(SlashCommandModel::ScopedModels { search: None }),
        slash_command_of("/session"@) == Some(SlashCommandModel::Session),
        slash_command_of("/copy"@) == Some(SlashCommandModel::Copy),
        slash_command_of("/export"@) == Some(SlashCommandModel::Export { path: None }),
        slash_command_of("/share"@) == Some(SlashCommandModel::Share),
        slash_command_of("/name"@) == Some(SlashCommandModel::Name { name: None }),
        slash_command_of("/changelog"@) == Some(SlashCommandModel::Changelog),
        slash_command_of("/hotkeys"@) == Some(SlashCommandModel::Hotkeys),
        slash_command_of("/login"@) == Some(SlashCommandModel::Login { provider: None }),
        slash_command_of("/logout"@) == Some(SlashCommandModel::Logout { provider: None }),
        slash_command_of("/compact"@) == Some(SlashCommandModel::Compact { instructions: None }),
        slash_command_of("/reload"@) == Some(SlashCommandModel::Reload),
        slash_command_of("/model"@) == Some(SlashCommandModel::Model { search: None }),
{
    reveal_strlit("/changelog");
    reveal_strlit("/changelog ");
    reveal_strlit("/compact");
    reveal_strlit("/compact ");
    reveal_strlit("/copy");
    reveal_strlit("/copy ");
    reveal_strlit("/export");
    reveal_strlit("/export ");
    reveal_strlit("/fork");
    reveal_strlit("/fork ");
    reveal_strlit("/hotkeys");
    reveal_strlit("/hotkeys ");
    reveal_strlit("/login");
    reveal_strlit("/login ");
    reveal_strlit("/logout");
    reveal_strlit("/logout ");
    reveal_strlit("/model");
    reveal_strlit("/model ");
    reveal_strlit("/name");
    reveal_strlit("/name ");
    reveal_strlit("/new");
    reveal_strlit("/new ");
    reveal_strlit("/quit");
    reveal_strlit("/quit ");
    reveal_strlit("/reload");
    reveal_strlit("/reload ");
    reveal_strlit("/resume");
    reveal_strlit("/resume ");
    reveal_strlit("/scoped-models");
    reveal_strlit("/scoped-models ");
    reveal_strlit("/session");
    reveal_strlit("/session ");
    reveal_strlit("/settings");
    reveal_strlit("/settings ");
    reveal_strlit("/share");
    reveal_strlit("/share ");
    reveal_strlit("/tree");
    reveal_strlit("/tree ");
    reveal_strlit("");
    {

    }
    {
        assert("/settings"@ != "/quit"@) by { if "/settings"@.len() == "/quit"@.len() { assert("/settings"@[1] != "/quit"@[1]); } }
    }
    {
        assert("/new"@ != "/quit"@) by { if "/new"@.len() == "/quit"@.len() { assert("/new"@[1] != "/quit"@[1]); } }
        assert("/new"@ != "/settings"@) by { if "/new"@.len() == "/settings"@.len() { assert("/new"@[1] != "/settings"@[1]); } }
    }
    {
        assert("/resume"@ != "/quit"@) by { if "/resume"@.len() == "/quit"@.len() { assert("/resume"@[1] != "/quit"@[1]); } }
        assert("/resume"@ != "/settings"@) by { if "/resume"@.len() == "/settings"@.len() { assert("/resume"@[1] != "/settings"@[1]); } }
        assert("/resume"@ != "/new"@) by { if "/resume"@.len() == "/new"@.len() { assert("/resume"@[1] != "/new"@[1]); } }
    }
    {
        assert("/fork"@ != "/quit"@) by { if "/fork"@.len() == "/quit"@.len() { assert("/fork"@[1] != "/quit"@[1]); } }
        assert("/fork"@ != "/settings"@) by { if "/fork"@.len() == "/settings"@.len() { assert("/fork"@[1] != "/settings"@[1]); } }
        assert("/fork"@ != "/new"@) by { if "/fork"@.len() == "/new"@.len() { assert("/fork"@[1] != "/new"@[1]); } }
        assert("/fork"@ != "/resume"@) by { if "/fork"@.len() == "/resume"@.len() { assert("/fork"@[1] != "/resume"@[1]); } }
    }
    {
        assert("/tree"@ != "/quit"@) by { if "/tree"@.len() == "/quit"@.len() { assert("/tree"@[1] != "/quit"@[1]); } }
        assert("/tree"@ != "/settings"@) by { if "/tree"@.len() == "/settings"@.len() { assert("/tree"@[1] != "/settings"@[1]); } }
        assert("/tree"@ != "/new"@) by { if "/tree"@.len() == "/new"@.len() { assert("/tree"@[1] != "/new"@[1]); } }
        assert("/tree"@ != "/resume"@) by { if "/tree"@.len() == "/resume"@.len() { assert("/tree"@[1] != "/resume"@[1]); } }
        assert("/tree"@ != "/fork"@) by { if "/tree"@.len() == "/fork"@.len() { assert("/tree"@[1] != "/fork"@[1]); } }
        assert("/tree"@.skip("/tree"@.len() as int) =~= Seq::<char>::empty());
        assert(trim_seq(Seq::<char>::empty()).len() == 0);
    }
    {
        assert("/scoped-models"@ != "/quit"@) by { if "/scoped-models"@.len() == "/quit"@.len() { assert("/scoped-models"@[1] != "/quit"@[1]); } }
        assert("/scoped-models"@ != "/settings"@) by { if "/scoped-models"@.len() == "/settings"@.len() { assert("/scoped-models"@[2] != "/settings"@[2]); } }
        assert("/scoped-models"@ != "/new"@) by { if "/scoped-models"@.len() == "/new"@.len() { assert("/scoped-models"@[1] != "/new"@[1]); } }
        assert("/scoped-models"@ != "/resume"@) by { if "/scoped-models"@.len() == "/resume"@.len() { assert("/scoped-models"@[1] != "/resume"@[1]); } }
        assert("/scoped-models"@ != "/fork"@) by { if "/scoped-models"@.len() == "/fork"@.len() { assert("/scoped-models"@[1] != "/fork"@[1]); } }
        assert("/scoped-models"@ != "/tree"@) by { if "/scoped-models"@.len() == "/tree"@.len() { assert("/scoped-models"@[1] != "/tree"@[1]); } }
        assert(!has_prefix("/scoped-models"@, "/tree"@ + seq![' '])) by { if has_prefix("/scoped-models"@, "/tree"@ + seq![' ']) { assert("/scoped-models"@.take(("/tree"@ + seq![' ']).len() as int)[1] == "/scoped-models"@[1]); } }
        assert("/scoped-models"@.skip("/scoped-models"@.len() as int) =~= Seq::<char>::empty());
        assert(trim_seq(Seq::<char>::empty()).len() == 0);
    }
    {
        assert("/session"@ != "/quit"@) by { if "/session"@.len() == "/quit"@.len() { assert("/session"@[1] != "/quit"@[1]); } }
        assert("/session"@ != "/settings"@) by { if "/session"@.len() == "/settings"@.len() { assert("/session"@[3] != "/settings"@[3]); } }
        assert("/session"@ != "/new"@) by { if "/session"@.len() == "/new"@.len() { assert("/session"@[1] != "/new"@[1]); } }
        assert("/session"@ != "/resume"@) by { if "/session"@.len() == "/resume"@.len() { assert("/session"@[1] != "/resume"@[1]); } }
        assert("/session"@ != "/fork"@) by { if "/session"@.len() == "/fork"@.len() { assert("/session"@[1] != "/fork"@[1]); } }
        assert("/session"@ != "/tree"@) by { if "/session"@.len() == "/tree"@.len() { assert("/session"@[1] != "/tree"@[1]); } }
        assert(!has_prefix("/session"@, "/tree"@ + seq![' '])) by { if has_prefix("/session"@, "/tree"@ + seq![' ']) { assert("/session"@.take(("/tree"@ + seq![' ']).len() as int)[1] == "/session"@[1]); } }
        assert("/session"@ != "/scoped-models"@) by { if "/session"@.len() == "/scoped-models"@.len() { assert("/session"@[2] != "/scoped-models"@[2]); } }
        assert(!has_prefix("/session"@, "/scoped-models"@ + seq![' '])) by { if has_prefix("/session"@, "/scoped-models"@ + seq![' ']) { assert("/session"@.take(("/scoped-models"@ + seq![' ']).len() as int)[2] == "/session"@[2]); } }
    }
    {
        assert("/copy"@ != "/quit"@) by { if "/copy"@.len() == "/quit"@.len() { assert("/copy"@[1] != "/quit"@[1]); } }
        assert("/copy"@ != "/settings"@) by { if "/copy"@.len() == "/settings"@.len() { assert("/copy"@[1] != "/settings"@[1]); } }
        assert("/copy"@ != "/new"@) by { if "/copy"@.len() == "/new"@.len() { assert("/copy"@[1] != "/new"@[1]); } }
        assert("/copy"@ != "/resume"@) by { if "/copy"@.len() == "/resume"@.len() { assert("/copy"@[1] != "/resume"@[1]); } }
        assert("/copy"@ != "/fork"@) by { if "/copy"@.len() == "/fork"@.len() { assert("/copy"@[1] != "/fork"@[1]); } }
        assert("/copy"@ != "/tree"@) by { if "/copy"@.len() == "/tree"@.len() { assert("/copy"@[1] != "/tree"@[1]); } }
        assert(!has_prefix("/copy"@, "/tree"@ + seq![' '])) by { if has_prefix("/copy"@, "/tree"@ + seq![' ']) { assert("/copy"@.take(("/tree"@ + seq![' ']).len() as int)[1] == "/copy"@[1]); } }
        assert("/copy"@ != "/scoped-models"@) by { if "/copy"@.len() == "/scoped-models"@.len() { assert("/copy"@[1] != "/scoped-models"@[1]); } }
        assert(!has_prefix("/copy"@, "/scoped-models"@ + seq![' '])) by { if has_prefix("/copy"@, "/scoped-models"@ + seq![' ']) { assert("/copy"@.take(("/scoped-models"@ + seq![' ']).len() as int)[1] == "/copy"@[1]); } }
        assert("/copy"@ != "/session"@) by { if "/copy"@.len() == "/session"@.len() { assert("/copy"@[1] != "/session"@[1]); } }
    }
    {
        assert("/export"@ != "/quit"@) by { if "/export"@.len() == "/quit"@.len() { assert("/export"@[1] != "/quit"@[1]); } }
        assert("/export"@ != "/settings"@) by { if "/export"@.len() == "/settings"@.len() { assert("/export"@[1] != "/settings"@[1]); } }
        assert("/export"@ != "/new"@) by { if "/export"@.len() == "/new"@.len() { assert("/export"@[1] != "/new"@[1]); } }
        assert("/export"@ != "/resume"@) by { if "/export"@.len() == "/resume"@.len() { assert("/export"@[1] != "/resume"@[1]); } }
        assert("/export"@ != "/fork"@) by { if "/export"@.len() == "/fork"@.len() { assert("/export"@[1] != "/fork"@[1]); } }
        assert("/export"@ != "/tree"@) by { if "/export"@.len() == "/tree"@.len() { assert("/export"@[1] != "/tree"@[1]); } }
        assert(!has_prefix("/export"@, "/tree"@ + seq![' '])) by { if has_prefix("/export"@, "/tree"@ + seq![' ']) { assert("/export"@.take(("/tree"@ + seq![' ']).len() as int)[1] == "/export"@[1]); } }
        assert("/export"@ != "/scoped-models"@) by { if "/export"@.len() == "/scoped-models"@.len() { assert("/export"@[1] != "/scoped-models"@[1]); } }
        assert(!has_prefix("/export"@, "/scoped-models"@ + seq![' '])) by { if has_prefix("/export"@, "/scoped-models"@ + seq![' ']) { assert("/export"@.take(("/scoped-models"@ + seq![' ']).len() as int)[1] == "/export"@[1]); } }
        assert("/export"@ != "/session"@) by { if "/export"@.len() == "/session"@.len() { assert("/export"@[1] != "/session"@[1]); } }
        assert("/export"@ != "/copy"@) by { if "/export"@.len() == "/copy"@.len() { assert("/export"@[1] != "/copy"@[1]); } }
        assert("/export"@.skip("/export"@.len() as int) =~= Seq::<char>::empty());
        assert(trim_seq(Seq::<char>::empty()).len() == 0);
    }
    {
        assert("/share"@ != "/quit"@) by { if "/share"@.len() == "/quit"@.len() { assert("/share"@[1] != "/quit"@[1]); } }
        assert("/share"@ != "/settings"@) by { if "/share"@.len() == "/settings"@.len() { assert("/share"@[2] != "/settings"@[2]); } }
        assert("/share"@ != "/new"@) by { if "/share"@.len() == "/new"@.len() { assert("/share"@[1] != "/new"@[1]); } }
        assert("/share"@ != "/resume"@) by { if "/share"@.len() == "/resume"@.len() { assert("/share"@[1] != "/resume"@[1]); } }
        assert("/share"@ != "/fork"@) by { if "/share"@.len() == "/fork"@.len() { assert("/share"@[1] != "/fork"@[1]); } }
        assert("/share"@ != "/tree"@) by { if "/share"@.len() == "/tree"@.len() { assert("/share"@[1] != "/tree"@[1]); } }
        assert(!has_prefix("/share"@, "/tree"@ + seq![' '])) by { if has_prefix("/share"@, "/tree"@ + seq![' ']) { assert("/share"@.take(("/tree"@ + seq![' ']).len() as int)[1] == "/share"@[1]); } }
        assert("/share"@ != "/scoped-models"@) by { if "/share"@.len() == "/scoped-models"@.len() { assert("/share"@[2] != "/scoped-models"@[2]); } }
        assert(!has_prefix("/share"@, "/scoped-models"@ + seq![' '])) by { if has_prefix("/share"@, "/scoped-models"@ + seq![' ']) { assert("/share"@.take(("/scoped-models"@ + seq![' ']).len() as int)[2] == "/share"@[2]); } }
        assert("/share"@ != "/session"@) by { if "/share"@.len() == "/session"@.len() { assert("/share"@[2] != "/session"@[2]); } }
        assert("/share"@ != "/copy"@) by { if "/share"@.len() == "/copy"@.len() { assert("/share"@[1] != "/copy"@[1]); } }
        assert("/share"@ != "/export"@) by { if "/share"@.len() == "/export"@.len() { assert("/share"@[1] != "/export"@[1]); } }
        assert(!has_prefix("/share"@, "/export"@ + seq![' '])) by { if has_prefix("/share"@, "/export"@ + seq![' ']) { assert("/share"@.take(("/export"@ + seq![' ']).len() as int)[1] == "/share"@[1]); } }
    }
    {
        assert("/name"@ != "/quit"@) by { if "/name"@.len() == "/quit"@.len() { assert("/name"@[1] != "/quit"@[1]); } }
        assert("/name"@ != "/settings"@) by { if "/name"@.len() == "/settings"@.len() { assert("/name"@[1] != "/settings"@[1]); } }
        assert("/name"@ != "/new"@) by { if "/name"@.len() == "/new"@.len() { assert("/name"@[2] != "/new"@[2]); } }
        assert("/name"@ != "/resume"@) by { if "/name"@.len() == "/resume"@.len() { assert("/name"@[1] != "/resume"@[1]); } }
        assert("/name"@ != "/fork"@) by { if "/name"@.len() == "/fork"@.len() { assert("/name"@[1] != "/fork"@[1]); } }
        assert("/name"@ != "/tree"@) by { if "/name"@.len() == "/tree"@.len() { assert("/name"@[1] != "/tree"@[1]); } }
        assert(!has_prefix("/name"@, "/tree"@ + seq![' '])) by { if has_prefix("/name"@, "/tree"@ + seq![' ']) { assert("/name"@.take(("/tree"@ + seq![' ']).len() as int)[1] == "/name"@[1]); } }
        assert("/name"@ != "/scoped-models"@) by { if "/name"@.len() == "/scoped-models"@.len() { assert("/name"@[1] != "/scoped-models"@[1]); } }
        assert(!has_prefix("/name"@, "/scoped-models"@ + seq![' '])) by { if has_prefix("/name"@, "/scoped-models"@ + seq![' ']) { assert("/name"@.take(("/scoped-models"@ + seq![' ']).len() as int)[1] == "/name"@[1]); } }
        assert("/name"@ != "/session"@) by { if "/name"@.len() == "/session"@.len() { assert("/name"@[1] != "/session"@[1]); } }
        assert("/name"@ != "/copy"@) by { if "/name"@.len() == "/copy"@.len() { assert("/name"@[1] != "/copy"@[1]); } }
        assert("/name"@ != "/export"@) by { if "/name"@.len() == "/export"@.len() { assert("/name"@[1] != "/export"@[1]); } }
        assert(!has_prefix("/name"@, "/export"@ + seq![' '])) by { if has_prefix("/name"@, "/export"@ + seq![' ']) { assert("/name"@.take(("/export"@ + seq![' ']).len() as int)[1] == "/name"@[1]); } }
        assert("/name"@ != "/share"@) by { if "/name"@.len() == "/share"@.len() { assert("/name"@[1] != "/share"@[1]); } }
        assert("/name"@.skip("/name"@.len() as int) =~= Seq::<char>::empty());
        assert(trim_seq(Seq::<char>::empty()).len() == 0);
    }
    {
        assert("/changelog"@ != "/quit"@) by { if "/changelog"@.len() == "/quit"@.len() { assert("/changelog"@[1] != "/quit"@[1]); } }
        assert("/changelog"@ != "/settings"@) by { if "/changelog"@.len() == "/settings"@.len() { assert("/changelog"@[1] != "/settings"@[1]); } }
        assert("/changelog"@ != "/new"@) by { if "/changelog"@.len() == "/new"@.len() { assert("/changelog"@[1] != "/new"@[1]); } }
        assert("/changelog"@ != "/resume"@) by { if "/changelog"@.len() == "/resume"@.len() { assert("/changelog"@[1] != "/resume"@[1]); } }
        assert("/changelog"@ != "/fork"@) by { if "/changelog"@.len() == "/fork"@.len() { assert("/changelog"@[1] != "/fork"@[1]); } }
        assert("/changelog"@ != "/tree"@) by { if "/changelog"@.len() == "/tree"@.len() { assert("/changelog"@[1] != "/tree"@[1]); } }
        assert(!has_prefix("/changelog"@, "/tree"@ + seq![' '])) by { if has_prefix("/changelog"@, "/tree"@ + seq![' ']) { assert("/changelog"@.take(("/tree"@ + seq![' ']).len() as int)[1] == "/changelog"@[1]); } }
        assert("/changelog"@ != "/scoped-models"@) by { if "/changelog"@.len() == "/scoped-models"@.len() { assert("/changelog"@[1] != "/scoped-models"@[1]); } }
        assert(!has_prefix("/changelog"@, "/scoped-models"@ + seq![' '])) by { if has_prefix("/changelog"@, "/scoped-models"@ + seq![' ']) { assert("/changelog"@.take(("/scoped-models"@ + seq![' ']).len() as int)[1] == "/changelog"@[1]); } }
        assert("/changelog"@ != "/session"@) by { if "/changelog"@.len() == "/session"@.len() { assert("/changelog"@[1] != "/session"@[1]); } }
        assert("/changelog"@ != "/copy"@) by { if "/changelog"@.len() == "/copy"@.len() { assert("/changelog"@[2] != "/copy"@[2]); } }
        assert("/changelog"@ != "/export"@) by { if "/changelog"@.len() == "/export"@.len() { assert("/changelog"@[1] != "/export"@[1]); } }
        assert(!has_prefix("/changelog"@, "/export"@ + seq![' '])) by { if has_prefix("/changelog"@, "/export"@ + seq![' ']) { assert("/changelog"@.take(("/export"@ + seq![' ']).len() as int)[1] == "/changelog"@[1]); } }
        assert("/changelog"@ != "/share"@) by { if "/changelog"@.len() == "/share"@.len() { assert("/changelog"@[1] != "/share"@[1]); } }
        assert("/changelog"@ != "/name"@) by { if "/changelog"@.len() == "/name"@.len() { assert("/changelog"@[1] != "/name"@[1]); } }
        assert(!has_prefix("/changelog"@, "/name"@ + seq![' '])) by { if has_prefix("/changelog"@, "/name"@ + seq![' ']) { assert("/changelog"@.take(("/name"@ + seq![' ']).len() as int)[1] == "/changelog"@[1]); } }
    }
    {
        assert("/hotkeys"@ != "/quit"@) by { if "/hotkeys"@.len() == "/quit"@.len() { assert("/hotkeys"@[1] != "/quit"@[1]); } }
        assert("/hotkeys"@ != "/settings"@) by { if "/hotkeys"@.len() == "/settings"@.len() { assert("/hotkeys"@[1] != "/settings"@[1]); } }
        assert("/hotkeys"@ != "/new"@) by { if "/hotkeys"@.len() == "/new"@.len() { assert("/hotkeys"@[1] != "/new"@[1]); } }
        assert("/hotkeys"@ != "/resume"@) by { if "/hotkeys"@.len() == "/resume"@.len() { assert("/hotkeys"@[1] != "/resume"@[1]); } }
        assert("/hotkeys"@ != "/fork"@) by { if "/hotkeys"@.len() == "/fork"@.len() { assert("/hotkeys"@[1] != "/fork"@[1]); } }
        assert("/hotkeys"@ != "/tree"@) by { if "/hotkeys"@.len() == "/tree"@.len() { assert("/hotkeys"@[1] != "/tree"@[1]); } }
        assert(!has_prefix("/hotkeys"@, "/tree"@ + seq![' '])) by { if has_prefix("/hotkeys"@, "/tree"@ + seq![' ']) { assert("/hotkeys"@.take(("/tree"@ + seq![' ']).len() as int)[1] == "/hotkeys"@[1]); } }
        assert("/hotkeys"@ != "/scoped-models"@) by { if "/hotkeys"@.len() == "/scoped-models"@.len() { assert("/hotkeys"@[1] != "/scoped-models"@[1]); } }
        assert(!has_prefix("/hotkeys"@, "/scoped-models"@ + seq![' '])) by { if has_prefix("/hotkeys"@, "/scoped-models"@ + seq![' ']) { assert("/hotkeys"@.take(("/scoped-models"@ + seq![' ']).len() as int)[1] == "/hotkeys"@[1]); } }
        assert("/hotkeys"@ != "/session"@) by { if "/hotkeys"@.len() == "/session"@.len() { assert("/hotkeys"@[1] != "/session"@[1]); } }
        assert("/hotkeys"@ != "/copy"@) by { if "/hotkeys"@.len() == "/copy"@.len() { assert("/hotkeys"@[1] != "/copy"@[1]); } }
        assert("/hotkeys"@ != "/export"@) by { if "/hotkeys"@.len() == "/export"@.len() { assert("/hotkeys"@[1] != "/export"@[1]); } }
        assert(!has_prefix("/hotkeys"@, "/export"@ + seq![' '])) by { if has_prefix("/hotkeys"@, "/export"@ + seq![' ']) { assert("/hotkeys"@.take(("/export"@ + seq![' ']).len() as int)[1] == "/hotkeys"@[1]); } }
        assert("/hotkeys"@ != "/share"@) by { if "/hotkeys"@.len() == "/share"@.len() { assert("/hotkeys"@[1] != "/share"@[1]); } }
        assert("/hotkeys"@ != "/name"@) by { if "/hotkeys"@.len() == "/name"@.len() { assert("/hotkeys"@[1] != "/name"@[1]); } }
        assert(!has_prefix("/hotkeys"@, "/name"@ + seq![' '])) by { if has_prefix("/hotkeys"@, "/name"@ + seq![' ']) { assert("/hotkeys"@.take(("/name"@ + seq![' ']).len() as int)[1] == "/hotkeys"@[1]); } }
        assert("/hotkeys"@ != "/changelog"@) by { if "/hotkeys"@.len() == "/changelog"@.len() { assert("/hotkeys"@[1] != "/changelog"@[1]); } }
    }
    {
        assert("/login"@ != "/quit"@) by { if "/login"@.len() == "/quit"@.len() { assert("/login"@[1] != "/quit"@[1]); } }
        assert("/login"@ != "/settings"@) by { if "/login"@.len() == "/settings"@.len() { assert("/login"@[1] != "/settings"@[1]); } }
        assert("/login"@ != "/new"@) by { if "/login"@.len() == "/new"@.len() { assert("/login"@[1] != "/new"@[1]); } }
        assert("/login"@ != "/resume"@) by { if "/login"@.len() == "/resume"@.len() { assert("/login"@[1] != "/resume"@[1]); } }
        assert("/login"@ != "/fork"@) by { if "/login"@.len() == "/fork"@.len() { assert("/login"@[1] != "/fork"@[1]); } }
        assert("/login"@ != "/tree"@) by { if "/login"@.len() == "/tree"@.len() { assert("/login"@[1] != "/tree"@[1]); } }
        assert(!has_prefix("/login"@, "/tree"@ + seq![' '])) by { if has_prefix("/login"@, "/tree"@ + seq![' ']) { assert("/login"@.take(("/tree"@ + seq![' ']).len() as int)[1] == "/login"@[1]); } }
        assert("/login"@ != "/scoped-models"@) by { if "/login"@.len() == "/scoped-models"@.len() { assert("/login"@[1] != "/scoped-models"@[1]); } }
        assert(!has_prefix("/login"@, "/scoped-models"@ + seq![' '])) by { if has_prefix("/login"@, "/scoped-models"@ + seq![' ']) { assert("/login"@.take(("/scoped-models"@ + seq![' ']).len() as int)[1] == "/login"@[1]); } }
        assert("/login"@ != "/session"@) by { if "/login"@.len() == "/session"@.len() { assert("/login"@[1] != "/session"@[1]); } }
        assert("/login"@ != "/copy"@) by { if "/login"@.len() == "/copy"@.len() { assert("/login"@[1] != "/copy"@[1]); } }
        assert("/login"@ != "/export"@) by { if "/login"@.len() == "/export"@.len() { assert("/login"@[1] != "/export"@[1]); } }
        assert(!has_prefix("/login"@, "/export"@ + seq![' '])) by { if has_prefix("/login"@, "/export"@ + seq![' ']) { assert("/login"@.take(("/export"@ + seq![' ']).len() as int)[1] == "/login"@[1]); } }
        assert("/login"@ != "/share"@) by { if "/login"@.len() == "/share"@.len() { assert("/login"@[1] != "/share"@[1]); } }
        assert("/login"@ != "/name"@) by { if "/login"@.len() == "/name"@.len() { assert("/login"@[1] != "/name"@[1]); } }
        assert(!has_prefix("/login"@, "/name"@ + seq![' '])) by { if has_prefix("/login"@, "/name"@ + seq![' ']) { assert("/login"@.take(("/name"@ + seq![' ']).len() as int)[1] == "/login"@[1]); } }
        assert("/login"@ != "/changelog"@) by { if "/login"@.len() == "/changelog"@.len() { assert("/login"@[1] != "/changelog"@[1]); } }
        assert("/login"@ != "/hotkeys"@) by { if "/login"@.len() == "/hotkeys"@.len() { assert("/login"@[1] != "/hotkeys"@[1]); } }
        assert("/login"@.skip("/login"@.len() as int) =~= Seq::<char>::empty());
        assert(trim_seq(Seq::<char>::empty()).len() == 0);
    }
    {
        assert("/logout"@ != "/quit"@) by { if "/logout"@.len() == "/quit"@.len() { assert("/logout"@[1] != "/quit"@[1]); } }
        assert("/logout"@ != "/settings"@) by { if "/logout"@.len() == "/settings"@.len() { assert("/logout"@[1] != "/settings"@[1]); } }
        assert("/logout"@ != "/new"@) by { if "/logout"@.len() == "/new"@.len() { assert("/logout"@[1] != "/new"@[1]); } }
        assert("/logout"@ != "/resume"@) by { if "/logout"@.len() == "/resume"@.len() { assert("/logout"@[1] != "/resume"@[1]); } }
        assert("/logout"@ != "/fork"@) by { if "/logout"@.len() == "/fork"@.len() { assert("/logout"@[1] != "/fork"@[1]); } }
        assert("/logout"@ != "/tree"@) by { if "/logout"@.len() == "/tree"@.len() { assert("/logout"@[1] != "/tree"@[1]); } }
        assert(!has_prefix("/logout"@, "/tree"@ + seq![' '])) by { if has_prefix("/logout"@, "/tree"@ + seq![' ']) { assert("/logout"@.take(("/tree"@ + seq![' ']).len() as int)[1] == "/logout"@[1]); } }
        assert("/logout"@ != "/scoped-models"@) by { if "/logout"@.len() == "/scoped-models"@.len() { assert("/logout"@[1] != "/scoped-models"@[1]); } }
        assert(!has_prefix("/logout"@, "/scoped-models"@ + seq![' '])) by { if has_prefix("/logout"@, "/scoped-models"@ + seq![' ']) { assert("/logout"@.take(("/scoped-models"@ + seq![' ']).len() as int)[1] == "/logout"@[1]); } }
        assert("/logout"@ != "/session"@) by { if "/logout"@.len() == "/session"@.len() { assert("/logout"@[1] != "/session"@[1]); } }
        assert("/logout"@ != "/copy"@) by { if "/logout"@.len() == "/copy"@.len() { assert("/logout"@[1] != "/copy"@[1]); } }
        assert("/logout"@ != "/export"@) by { if "/logout"@.len() == "/export"@.len() { assert("/logout"@[1] != "/export"@[1]); } }
        assert(!has_prefix("/logout"@, "/export"@ + seq![' '])) by { if has_prefix("/logout"@, "/export"@ + seq![' ']) { assert("/logout"@.take(("/export"@ + seq![' ']).len() as int)[1] == "/logout"@[1]); } }
        assert("/logout"@ != "/share"@) by { if "/logout"@.len() == "/share"@.len() { assert("/logout"@[1] != "/share"@[1]); } }
        assert("/logout"@ != "/name"@) by { if "/logout"@.len() == "/name"@.len() { assert("/logout"@[1] != "/name"@[1]); } }
        assert(!has_prefix("/logout"@, "/name"@ + seq![' '])) by { if has_prefix("/logout"@, "/name"@ + seq![' ']) { assert("/logout"@.take(("/name"@ + seq![' ']).len() as int)[1] == "/logout"@[1]); } }
        assert("/logout"@ != "/changelog"@) by { if "/logout"@.len() == "/changelog"@.len() { assert("/logout"@[1] != "/changelog"@[1]); } }
        assert("/logout"@ != "/hotkeys"@) by { if "/logout"@.len() == "/hotkeys"@.len() { assert("/logout"@[1] != "/hotkeys"@[1]); } }
        assert("/logout"@ != "/login"@) by { if "/logout"@.len() == "/login"@.len() { assert("/logout"@[4] != "/login"@[4]); } }
        assert(!has_prefix("/logout"@, "/login"@ + seq![' '])) by { if has_prefix("/logout"@, "/login"@ + seq![' ']) { assert("/logout"@.take(("/login"@ + seq![' ']).len() as int)[4] == "/logout"@[4]); } }
        assert("/logout"@.skip("/logout"@.len() as int) =~= Seq::<char>::empty());
        assert(trim_seq(Seq::<char>::empty()).len() == 0);
    }
    {
        assert("/compact"@ != "/quit"@) by { if "/compact"@.len() == "/quit"@.len() { assert("/compact"@[1] != "/quit"@[1]); } }
        assert("/compact"@ != "/settings"@) by { if "/compact"@.len() == "/settings"@.len() { assert("/compact"@[1] != "/settings"@[1]); } }
        assert("/compact"@ != "/new"@) by { if "/compact"@.len() == "/new"@.len() { assert("/compact"@[1] != "/new"@[1]); } }
        assert("/compact"@ != "/resume"@) by { if "/compact"@.len() == "/resume"@.len() { assert("/compact"@[1] != "/resume"@[1]); } }
        assert("/compact"@ != "/fork"@) by { if "/compact"@.len() == "/fork"@.len() { assert("/compact"@[1] != "/fork"@[1]); } }
        assert("/compact"@ != "/tree"@) by { if "/compact"@.len() == "/tree"@.len() { assert("/compact"@[1] != "/tree"@[1]); } }
        assert(!has_prefix("/compact"@, "/tree"@ + seq![' '])) by { if has_prefix("/compact"@, "/tree"@ + seq![' ']) { assert("/compact"@.take(("/tree"@ + seq![' ']).len() as int)[1] == "/compact"@[1]); } }
        assert("/compact"@ != "/scoped-models"@) by { if "/compact"@.len() == "/scoped-models"@.len() { assert("/compact"@[1] != "/scoped-models"@[1]); } }
        assert(!has_prefix("/compact"@, "/scoped-models"@ + seq![' '])) by { if has_prefix("/compact"@, "/scoped-models"@ + seq![' ']) { assert("/compact"@.take(("/scoped-models"@ + seq![' ']).len() as int)[1] == "/compact"@[1]); } }
        assert("/compact"@ != "/session"@) by { if "/compact"@.len() == "/session"@.len() { assert("/compact"@[1] != "/session"@[1]); } }
        assert("/compact"@ != "/copy"@) by { if "/compact"@.len() == "/copy"@.len() { assert("/compact"@[3] != "/copy"@[3]); } }
        assert("/compact"@ != "/export"@) by { if "/compact"@.len() == "/export"@.len() { assert("/compact"@[1] != "/export"@[1]); } }
        assert(!has_prefix("/compact"@, "/export"@ + seq![' '])) by { if has_prefix("/compact"@, "/export"@ + seq![' ']) { assert("/compact"@.take(("/export"@ + seq![' ']).len() as int)[1] == "/compact"@[1]); } }
        assert("/compact"@ != "/share"@) by { if "/compact"@.len() == "/share"@.len() { assert("/compact"@[1] != "/share"@[1]); } }
        assert("/compact"@ != "/name"@) by { if "/compact"@.len() == "/name"@.len() { assert("/compact"@[1] != "/name"@[1]); } }
        assert(!has_prefix("/compact"@, "/name"@ + seq![' '])) by { if has_prefix("/compact"@, "/name"@ + seq![' ']) { assert("/compact"@.take(("/name"@ + seq![' ']).len() as int)[1] == "/compact"@[1]); } }
        assert("/compact"@ != "/changelog"@) by { if "/compact"@.len() == "/changelog"@.len() { assert("/compact"@[2] != "/changelog"@[2]); } }
        assert("/compact"@ != "/hotkeys"@) by { if "/compact"@.len() == "/hotkeys"@.len() { assert("/compact"@[1] != "/hotkeys"@[1]); } }
        assert("/compact"@ != "/login"@) by { if "/compact"@.len() == "/login"@.len() { assert("/compact"@[1] != "/login"@[1]); } }
        assert(!has_prefix("/compact"@, "/login"@ + seq![' '])) by { if has_prefix("/compact"@, "/login"@ + seq![' ']) { assert("/compact"@.take(("/login"@ + seq![' ']).len() as int)[1] == "/compact"@[1]); } }
        assert("/compact"@ != "/logout"@) by { if "/compact"@.len() == "/logout"@.len() { assert("/compact"@[1] != "/logout"@[1]); } }
        assert(!has_prefix("/compact"@, "/logout"@ + seq![' '])) by { if has_prefix("/compact"@, "/logout"@ + seq![' ']) { assert("/compact"@.take(("/logout"@ + seq![' ']).len() as int)[1] == "/compact"@[1]); } }
        assert("/compact"@.skip("/compact"@.len() as int) =~= Seq::<char>::empty());
        assert(trim_seq(Seq::<char>::empty()).len() == 0);
    }
    {
        assert("/reload"@ != "/quit"@) by { if "/reload"@.len() == "/quit"@.len() { assert("/reload"@[1] != "/quit"@[1]); } }
        assert("/reload"@ != "/settings"@) by { if "/reload"@.len() == "/settings"@.len() { assert("/reload"@[1] != "/settings"@[1]); } }
        assert("/reload"@ != "/new"@) by { if "/reload"@.len() == "/new"@.len() { assert("/reload"@[1] != "/new"@[1]); } }
        assert("/reload"@ != "/resume"@) by { if "/reload"@.len() == "/resume"@.len() { assert("/reload"@[3] != "/resume"@[3]); } }
        assert("/reload"@ != "/fork"@) by { if "/reload"@.len() == "/fork"@.len() { assert("/reload"@[1] != "/fork"@[1]); } }
        assert("/reload"@ != "/tree"@) by { if "/reload"@.len() == "/tree"@.len() { assert("/reload"@[1] != "/tree"@[1]); } }
        assert(!has_prefix("/reload"@, "/tree"@ + seq![' '])) by { if has_prefix("/reload"@, "/tree"@ + seq![' ']) { assert("/reload"@.take(("/tree"@ + seq![' ']).len() as int)[1] == "/reload"@[1]); } }
        assert("/reload"@ != "/scoped-models"@) by { if "/reload"@.len() == "/scoped-models"@.len() { assert("/reload"@[1] != "/scoped-models"@[1]); } }
        assert(!has_prefix("/reload"@, "/scoped-models"@ + seq![' '])) by { if has_prefix("/reload"@, "/scoped-models"@ + seq![' ']) { assert("/reload"@.take(("/scoped-models"@ + seq![' ']).len() as int)[1] == "/reload"@[1]); } }
        assert("/reload"@ != "/session"@) by { if "/reload"@.len() == "/session"@.len() { assert("/reload"@[1] != "/session"@[1]); } }
        assert("/reload"@ != "/copy"@) by { if "/reload"@.len() == "/copy"@.len() { assert("/reload"@[1] != "/copy"@[1]); } }
        assert("/reload"@ != "/export"@) by { if "/reload"@.len() == "/export"@.len() { assert("/reload"@[1] != "/export"@[1]); } }
        assert(!has_prefix("/reload"@, "/export"@ + seq![' '])) by { if has_prefix("/reload"@, "/export"@ + seq![' ']) { assert("/reload"@.take(("/export"@ + seq![' ']).len() as int)[1] == "/reload"@[1]); } }
        assert("/reload"@ != "/share"@) by { if "/reload"@.len() == "/share"@.len() { assert("/reload"@[1] != "/share"@[1]); } }
        assert("/reload"@ != "/name"@) by { if "/reload"@.len() == "/name"@.len() { assert("/reload"@[1] != "/name"@[1]); } }
        assert(!has_prefix("/reload"@, "/name"@ + seq![' '])) by { if has_prefix("/reload"@, "/name"@ + seq![' ']) { assert("/reload"@.take(("/name"@ + seq![' ']).len() as int)[1] == "/reload"@[1]); } }
        assert("/reload"@ != "/changelog"@) by { if "/reload"@.len() == "/changelog"@.len() { assert("/reload"@[1] != "/changelog"@[1]); } }
        assert("/reload"@ != "/hotkeys"@) by { if "/reload"@.len() == "/hotkeys"@.len() { assert("/reload"@[1] != "/hotkeys"@[1]); } }
        assert("/reload"@ != "/login"@) by { if "/reload"@.len() == "/login"@.len() { assert("/reload"@[1] != "/login"@[1]); } }
        assert(!has_prefix("/reload"@, "/login"@ + seq![' '])) by { if has_prefix("/reload"@, "/login"@ + seq![' ']) { assert("/reload"@.take(("/login"@ + seq![' ']).len() as int)[1] == "/reload"@[1]); } }
        assert("/reload"@ != "/logout"@) by { if "/reload"@.len() == "/logout"@.len() { assert("/reload"@[1] != "/logout"@[1]); } }
        assert(!has_prefix("/reload"@, "/logout"@ + seq![' '])) by { if has_prefix("/reload"@, "/logout"@ + seq![' ']) { assert("/reload"@.take(("/logout"@ + seq![' ']).len() as int)[1] == "/reload"@[1]); } }
        assert("/reload"@ != "/compact"@) by { if "/reload"@.len() == "/compact"@.len() { assert("/reload"@[1] != "/compact"@[1]); } }
        assert(!has_prefix("/reload"@, "/compact"@ + seq![' '])) by { if has_prefix("/reload"@, "/compact"@ + seq![' ']) { assert("/reload"@.take(("/compact"@ + seq![' ']).len() as int)[1] == "/reload"@[1]); } }
    }
    {
        assert("/model"@ != "/quit"@) by { if "/model"@.len() == "/quit"@.len() { assert("/model"@[1] != "/quit"@[1]); } }
        assert("/model"@ != "/settings"@) by { if "/model"@.len() == "/settings"@.len() { assert("/model"@[1] != "/settings"@[1]); } }
        assert("/model"@ != "/new"@) by { if "/model"@.len() == "/new"@.len() { assert("/model"@[1] != "/new"@[1]); } }
        assert("/model"@ != "/resume"@) by { if "/model"@.len() == "/resume"@.len() { assert("/model"@[1] != "/resume"@[1]); } }
        assert("/model"@ != "/fork"@) by { if "/model"@.len() == "/fork"@.len() { assert("/model"@[1] != "/fork"@[1]); } }
        assert("/model"@ != "/tree"@) by { if "/model"@.len() == "/tree"@.len() { assert("/model"@[1] != "/tree"@[1]); } }
        assert(!has_prefix("/model"@, "/tree"@ + seq![' '])) by { if has_prefix("/model"@, "/tree"@ + seq![' ']) { assert("/model"@.take(("/tree"@ + seq![' ']).len() as int)[1] == "/model"@[1]); } }
        assert("/model"@ != "/scoped-models"@) by { if "/model"@.len() == "/scoped-models"@.len() { assert("/model"@[1] != "/scoped-models"@[1]); } }
        assert(!has_prefix("/model"@, "/scoped-models"@ + seq![' '])) by { if has_prefix("/model"@, "/scoped-models"@ + seq![' ']) { assert("/model"@.take(("/scoped-models"@ + seq![' ']).len() as int)[1] == "/model"@[1]); } }
        assert("/model"@ != "/session"@) by { if "/model"@.len() == "/session"@.len() { assert("/model"@[1] != "/session"@[1]); } }
        assert("/model"@ != "/copy"@) by { if "/model"@.len() == "/copy"@.len() { assert("/model"@[1] != "/copy"@[1]); } }
        assert("/model"@ != "/export"@) by { if "/model"@.len() == "/export"@.len() { assert("/model"@[1] != "/export"@[1]); } }
        assert(!has_prefix("/model"@, "/export"@ + seq![' '])) by { if has_prefix("/model"@, "/export"@ + seq![' ']) { assert("/model"@.take(("/export"@ + seq![' ']).len() as int)[1] == "/model"@[1]); } }
        assert("/model"@ != "/share"@) by { if "/model"@.len() == "/share"@.len() { assert("/model"@[1] != "/share"@[1]); } }
        assert("/model"@ != "/name"@) by { if "/model"@.len() == "/name"@.len() { assert("/model"@[1] != "/name"@[1]); } }
        assert(!has_prefix("/model"@, "/name"@ + seq![' '])) by { if has_prefix("/model"@, "/name"@ + seq![' ']) { assert("/model"@.take(("/name"@ + seq![' ']).len() as int)[1] == "/model"@[1]); } }
        assert("/model"@ != "/changelog"@) by { if "/model"@.len() == "/changelog"@.len() { assert("/model"@[1] != "/changelog"@[1]); } }
        assert("/model"@ != "/hotkeys"@) by { if "/model"@.len() == "/hotkeys"@.len() { assert("/model"@[1] != "/hotkeys"@[1]); } }
        assert("/model"@ != "/login"@) by { if "/model"@.len() == "/login"@.len() { assert("/model"@[1] != "/login"@[1]); } }
        assert(!has_prefix("/model"@, "/login"@ + seq![' '])) by { if has_prefix("/model"@, "/login"@ + seq![' ']) { assert("/model"@.take(("/login"@ + seq![' ']).len() as int)[1] == "/model"@[1]); } }
        assert("/model"@ != "/logout"@) by { if "/model"@.len() == "/logout"@.len() { assert("/model"@[1] != "/logout"@[1]); } }
        assert(!has_prefix("/model"@, "/logout"@ + seq![' '])) by { if has_prefix("/model"@, "/logout"@ + seq![' ']) { assert("/model"@.take(("/logout"@ + seq![' ']).len() as int)[1] == "/model"@[1]); } }
        assert("/model"@ != "/compact"@) by { if "/model"@.len() == "/compact"@.len() { assert("/model"@[1] != "/compact"@[1]); } }
        assert(!has_prefix("/model"@, "/compact"@ + seq![' '])) by { if has_prefix("/model"@, "/compact"@ + seq![' ']) { assert("/model"@.take(("/compact"@ + seq![' ']).len() as int)[1] == "/model"@[1]); } }
        assert("/model"@ != "/reload"@) by { if "/model"@.len() == "/reload"@.len() { assert("/model"@[1] != "/reload"@[1]); } }
        assert("/model"@.skip("/model"@.len() as int) =~= Seq::<char>::empty());
        assert(trim_seq(Seq::<char>::empty()).len() == 0);
    }
}

/// Each command that takes an argument, followed by a space and `p`, takes
/// `p` trimmed as its argument; none when `p` is only whitespace.
pub proof fn lemma_command_arguments(p: Seq<char>)
    ensures
        slash_command_of("/tree "@ + p) == Some(
            SlashCommandModel::Tree {
                target: if trim_seq(p).len() == 0 {
                    None
                } else {
                    Some(trim_seq(p))
                },
            },
        ),
        slash_command_of("/scoped-models "@ + p) == Some(
            SlashCommandModel::ScopedModels {
                search: if trim_seq(p).len() == 0 {
                    None
                } else {
                    Some(trim_seq(p))
                },
            },
        ),
        slash_command_of("/export "@ + p) == Some(
            SlashCommandModel::Export {
                path: if trim_seq(p).len() == 0 {
                    None
                } else {
                    Some(trim_seq(p))
                },
            },
        ),
        slash_command_of("/name "@ + p) == Some(
            SlashCommandModel::Name {
                name: if trim_seq(p).len() == 0 {
                    None
                } else {
                    Some(trim_seq(p))
                },
            },
        ),
        slash_command_of("/login "@ + p) == Some(
            SlashCommandModel::Login {
                provider: if trim_seq(p).len() == 0 {
                    None
                } else {
                    Some(trim_seq(p))
                },
            },
        ),
        slash_command_of("/logout "@ + p) == Some(
            SlashCommandModel::Logout {
                provider: if trim_seq(p).len() == 0 {
                    None
                } else {
                    Some(trim_seq(p))
                },
            },
        ),
        slash_command_of("/compact "@ + p) == Some(
            SlashCommandModel::Compact {
                instructions: if trim_seq(p).len() == 0 {
                    None
                } else {
                    Some(trim_seq(p))
                },
            },
        ),
        slash_command_of("/model "@ + p) == Some(
            SlashCommandModel::Model {
                search: if trim_seq(p).len() == 0 {
                    None
                } else {
                    Some(trim_seq(p))
                },
            },
        ),
{
    reveal_strlit("/changelog");
    reveal_strlit("/changelog ");
    reveal_strlit("/compact");
    reveal_strlit("/compact ");
    reveal_strlit("/copy");
    reveal_strlit("/copy ");
    reveal_strlit("/export");
    reveal_strlit("/export ");
    reveal_strlit("/fork");
    reveal_strlit("/fork ");
    reveal_strlit("/hotkeys");
    reveal_strlit("/hotkeys ");
    reveal_strlit("/login");
    reveal_strlit("/login ");
    reveal_strlit("/logout");
    reveal_strlit("/logout ");
    reveal_strlit("/model");
    reveal_strlit("/model ");
    reveal_strlit("/name");
    reveal_strlit("/name ");
    reveal_strlit("/new");
    reveal_strlit("/new ");
    reveal_strlit("/quit");
    reveal_strlit("/quit ");
    reveal_strlit("/reload");
    reveal_strlit("/reload ");
    reveal_strlit("/resume");
    reveal_strlit("/resume ");
    reveal_strlit("/scoped-models");
    reveal_strlit("/scoped-models ");
    reveal_strlit("/session");
    reveal_strlit("/session ");
    reveal_strlit("/settings");
    reveal_strlit("/settings ");
    reveal_strlit("/share");
    reveal_strlit("/share ");
    reveal_strlit("/tree");
    reveal_strlit("/tree ");
    reveal_strlit("");
    lemma_trim_after_space(p);
    {
        let text = "/tree "@ + p;
        assert(text.len() >= 6);
        assert(forall|j: int| 0 <= j < 6 ==> text[j] == "/tree "@[j]);
        assert(text != "/quit"@) by { if text.len() == "/quit"@.len() { assert(text[1] != "/quit"@[1]); } }
        assert(text != "/settings"@) by { if text.len() == "/settings"@.len() { assert(text[1] != "/settings"@[1]); } }
        assert(text != "/new"@) by { if text.len() == "/new"@.len() { assert(text[1] != "/new"@[1]); } }
        assert(text != "/resume"@) by { if text.len() == "/resume"@.len() { assert(text[1] != "/resume"@[1]); } }
        assert(text != "/fork"@) by { if text.len() == "/fork"@.len() { assert(text[1] != "/fork"@[1]); } }
        assert(has_prefix(text, "/tree"@ + seq![' '])) by { assert(text.take(6) =~= "/tree"@ + seq![' ']); }
        assert(text.skip(5) =~= seq![' '] + p);
    }
    {
        let text = "/scoped-models "@ + p;
        assert(text.len() >= 15);
        assert(forall|j: int| 0 <= j < 15 ==> text[j] == "/scoped-models "@[j]);
        assert(text != "/quit"@) by { if text.len() == "/quit"@.len() { assert(text[1] != "/quit"@[1]); } }
        assert(text != "/settings"@) by { if text.len() == "/settings"@.len() { assert(text[2] != "/settings"@[2]); } }
        assert(text != "/new"@) by { if text.len() == "/new"@.len() { assert(text[1] != "/new"@[1]); } }
        assert(text != "/resume"@) by { if text.len() == "/resume"@.len() { assert(text[1] != "/resume"@[1]); } }
        assert(text != "/fork"@) by { if text.len() == "/fork"@.len() { assert(text[1] != "/fork"@[1]); } }
        assert(text != "/tree"@) by { if text.len() == "/tree"@.len() { assert(text[1] != "/tree"@[1]); } }
        assert(!has_prefix(text, "/tree"@ + seq![' '])) by { if has_prefix(text, "/tree"@ + seq![' ']) { assert(text.take(("/tree"@ + seq![' ']).len() as int)[1] == text[1]); } }
        assert(has_prefix(text, "/scoped-models"@ + seq![' '])) by { assert(text.take(15) =~= "/scoped-models"@ + seq![' ']); }
        assert(text.skip(14) =~= seq![' '] + p);
    }
    {
        let text = "/export "@ + p;
        assert(text.len() >= 8);
        assert(forall|j: int| 0 <= j < 8 ==> text[j] == "/export "@[j]);
        assert(text != "/quit"@) by { if text.len() == "/quit"@.len() { assert(text[1] != "/quit"@[1]); } }
        assert(text != "/settings"@) by { if text.len() == "/settings"@.len() { assert(text[1] != "/settings"@[1]); } }
        assert(text != "/new"@) by { if text.len() == "/new"@.len() { assert(text[1] != "/new"@[1]); } }
        assert(text != "/resume"@) by { if text.len() == "/resume"@.len() { assert(text[1] != "/resume"@[1]); } }
        assert(text != "/fork"@) by { if text.len() == "/fork"@.len() { assert(text[1] != "/fork"@[1]); } }
        assert(text != "/tree"@) by { if text.len() == "/tree"@.len() { assert(text[1] != "/tree"@[1]); } }
        assert(!has_prefix(text, "/tree"@ + seq![' '])) by { if has_prefix(text, "/tree"@ + seq![' ']) { assert(text.take(("/tree"@ + seq![' ']).len() as int)[1] == text[1]); } }
        assert(text != "/scoped-models"@) by { if text.len() == "/scoped-models"@.len() { assert(text[1] != "/scoped-models"@[1]); } }
        assert(!has_prefix(text, "/scoped-models"@ + seq![' '])) by { if has_prefix(text, "/scoped-models"@ + seq![' ']) { assert(text.take(("/scoped-models"@ + seq![' ']).len() as int)[1] == text[1]); } }
        assert(text != "/session"@) by { if text.len() == "/session"@.len() { assert(text[1] != "/session"@[1]); } }
        assert(text != "/copy"@) by { if text.len() == "/copy"@.len() { assert(text[1] != "/copy"@[1]); } }
        assert(has_prefix(text, "/export"@ + seq![' '])) by { assert(text.take(8) =~= "/export"@ + seq![' ']); }
        assert(text.skip(7) =~= seq![' '] + p);
    }
    {
        let text = "/name "@ + p;
        assert(text.len() >= 6);
        assert(forall|j: int| 0 <= j < 6 ==> text[j] == "/name "@[j]);
        assert(text != "/quit"@) by { if text.len() == "/quit"@.len() { assert(text[1] != "/quit"@[1]); } }
        assert(text != "/settings"@) by { if text.len() == "/settings"@.len() { assert(text[1] != "/settings"@[1]); } }
        assert(text != "/new"@) by { if text.len() == "/new"@.len() { assert(text[2] != "/new"@[2]); } }
        assert(text != "/resume"@) by { if text.len() == "/resume"@.len() { assert(text[1] != "/resume"@[1]); } }
        assert(text != "/fork"@) by { if text.len() == "/fork"@.len() { assert(text[1] != "/fork"@[1]); } }
        assert(text != "/tree"@) by { if text.len() == "/tree"@.len() { assert(text[1] != "/tree"@[1]); } }
        assert(!has_prefix(text, "/tree"@ + seq![' '])) by { if has_prefix(text, "/tree"@ + seq![' ']) { assert(text.take(("/tree"@ + seq![' ']).len() as int)[1] == text[1]); } }
        assert(text != "/scoped-models"@) by { if text.len() == "/scoped-models"@.len() { assert(text[1] != "/scoped-models"@[1]); } }
        assert(!has_prefix(text, "/scoped-models"@ + seq![' '])) by { if has_prefix(text, "/scoped-models"@ + seq![' ']) { assert(text.take(("/scoped-models"@ + seq![' ']).len() as int)[1] == text[1]); } }
        assert(text != "/session"@) by { if text.len() == "/session"@.len() { assert(text[1] != "/session"@[1]); } }
        assert(text != "/copy"@) by { if text.len() == "/copy"@.len() { assert(text[1] != "/copy"@[1]); } }
        assert(text != "/export"@) by { if text.len() == "/export"@.len() { assert(text[1] != "/export"@[1]); } }
        assert(!has_prefix(text, "/export"@ + seq![' '])) by { if has_prefix(text, "/export"@ + seq![' ']) { assert(text.take(("/export"@ + seq![' ']).len() as int)[1] == text[1]); } }
        assert(text != "/share"@) by { if text.len() == "/share"@.len() { assert(text[1] != "/share"@[1]); } }
        assert(has_prefix(text, "/name"@ + seq![' '])) by { assert(text.take(6) =~= "/name"@ + seq![' ']); }
        assert(text.skip(5) =~= seq![' '] + p);
    }
    {
        let text = "/login "@ + p;
        assert(text.len() >= 7);
        assert(forall|j: int| 0 <= j < 7 ==> text[j] == "/login "@[j]);
        assert(text != "/quit"@) by { if text.len() == "/quit"@.len() { assert(text[1] != "/quit"@[1]); } }
        assert(text != "/settings"@) by { if text.len() == "/settings"@.len() { assert(text[1] != "/settings"@[1]); } }
        assert(text != "/new"@) by { if text.len() == "/new"@.len() { assert(text[1] != "/new"@[1]); } }
        assert(text != "/resume"@) by { if text.len() == "/resume"@.len() { assert(text[1] != "/resume"@[1]); } }
        assert(text != "/fork"@) by { if text.len() == "/fork"@.len() { assert(text[1] != "/fork"@[1]); } }
        assert(text != "/tree"@) by { if text.len() == "/tree"@.len() { assert(text[1] != "/tree"@[1]); } }
        assert(!has_prefix(text, "/tree"@ + seq![' '])) by { if has_prefix(text, "/tree"@ + seq![' ']) { assert(text.take(("/tree"@ + seq![' ']).len() as int)[1] == text[1]); } }
        assert(text != "/scoped-models"@) by { if text.len() == "/scoped-models"@.len() { assert(text[1] != "/scoped-models"@[1]); } }
        assert(!has_prefix(text, "/scoped-models"@ + seq![' '])) by { if has_prefix(text, "/scoped-models"@ + seq![' ']) { assert(text.take(("/scoped-models"@ + seq![' ']).len() as int)[1] == text[1]); } }
        assert(text != "/session"@) by { if text.len() == "/session"@.len() { assert(text[1] != "/session"@[1]); } }
        assert(text != "/copy"@) by { if text.len() == "/copy"@.len() { assert(text[1] != "/copy"@[1]); } }
        assert(text != "/export"@) by { if text.len() == "/export"@.len() { assert(text[1] != "/export"@[1]); } }
        assert(!has_prefix(text, "/export"@ + seq![' '])) by { if has_prefix(text, "/export"@ + seq![' ']) { assert(text.take(("/export"@ + seq![' ']).len() as int)[1] == text[1]); } }
        assert(text != "/share"@) by { if text.len() == "/share"@.len() { assert(text[1] != "/share"@[1]); } }
        assert(text != "/name"@) by { if text.len() == "/name"@.len() { assert(text[1] != "/name"@[1]); } }
        assert(!has_prefix(text, "/name"@ + seq![' '])) by { if has_prefix(text, "/name"@ + seq![' ']) { assert(text.take(("/name"@ + seq![' ']).len() as int)[1] == text[1]); } }
        assert(text != "/changelog"@) by { if text.len() == "/changelog"@.len() { assert(text[1] != "/changelog"@[1]); } }
        assert(text != "/hotkeys"@) by { if text.len() == "/hotkeys"@.len() { assert(text[1] != "/hotkeys"@[1]); } }
        assert(has_prefix(text, "/login"@ + seq![' '])) by { assert(text.take(7) =~= "/login"@ + seq![' ']); }
        assert(text.skip(6) =~= seq![' '] + p);
    }
    {
        let text = "/logout "@ + p;
        assert(text.len() >= 8);
        assert(forall|j: int| 0 <= j < 8 ==> text[j] == "/logout "@[j]);
        assert(text != "/quit"@) by { if text.len() == "/quit"@.len() { assert(text[1] != "/quit"@[1]); } }
        assert(text != "/settings"@) by { if text.len() == "/settings"@.len() { assert(text[1] != "/settings"@[1]); } }
        assert(text != "/new"@) by { if text.len() == "/new"@.len() { assert(text[1] != "/new"@[1]); } }
        assert(text != "/resume"@) by { if text.len() == "/resume"@.len() { assert(text[1] != "/resume"@[1]); } }
        assert(text != "/fork"@) by { if text.len() == "/fork"@.len() { assert(text[1] != "/fork"@[1]); } }
        assert(text != "/tree"@) by { if text.len() == "/tree"@.len() { assert(text[1] != "/tree"@[1]); } }
        assert(!has_prefix(text, "/tree"@ + seq![' '])) by { if has_prefix(text, "/tree"@ + seq![' ']) { assert(text.take(("/tree"@ + seq![' ']).len() as int)[1] == text[1]); } }
        assert(text != "/scoped-models"@) by { if text.len() == "/scoped-models"@.len() { assert(text[1] != "/scoped-models"@[1]); } }
        assert(!has_prefix(text, "/scoped-models"@ + seq![' '])) by { if has_prefix(text, "/scoped-models"@ + seq![' ']) { assert(text.take(("/scoped-models"@ + seq![' ']).len() as int)[1] == text[1]); } }
        assert(text != "/session"@) by { if text.len() == "/session"@.len() { assert(text[1] != "/session"@[1]); } }
        assert(text != "/copy"@) by { if text.len() == "/copy"@.len() { assert(text[1] != "/copy"@[1]); } }
        assert(text != "/export"@) by { if text.len() == "/export"@.len() { assert(text[1] != "/export"@[1]); } }
        assert(!has_prefix(text, "/export"@ + seq![' '])) by { if has_prefix(text, "/export"@ + seq![' ']) { assert(text.take(("/export"@ + seq![' ']).len() as int)[1] == text[1]); } }
        assert(text != "/share"@) by { if text.len() == "/share"@.len() { assert(text[1] != "/share"@[1]); } }
        assert(text != "/name"@) by { if text.len() == "/name"@.len() { assert(text[1] != "/name"@[1]); } }
        assert(!has_prefix(text, "/name"@ + seq![' '])) by { if has_prefix(text, "/name"@ + seq![' ']) { assert(text.take(("/name"@ + seq![' ']).len() as int)[1] == text[1]); } }
        assert(text != "/changelog"@) by { if text.len() == "/changelog"@.len() { assert(text[1] != "/changelog"@[1]); } }
        assert(text != "/hotkeys"@) by { if text.len() == "/hotkeys"@.len() { assert(text[1] != "/hotkeys"@[1]); } }
        assert(text != "/login"@) by { if text.len() == "/login"@.len() { assert(text[4] != "/login"@[4]); } }
        assert(!has_prefix(text, "/login"@ + seq![' '])) by { if has_prefix(text, "/login"@ + seq![' ']) { assert(text.take(("/login"@ + seq![' ']).len() as int)[4] == text[4]); } }
        assert(has_prefix(text, "/logout"@ + seq![' '])) by { assert(text.take(8) =~= "/logout"@ + seq![' ']); }
        assert(text.skip(7) =~= seq![' '] + p);
    }
    {
        let text = "/compact "@ + p;
        assert(text.len() >= 9);
        assert(forall|j: int| 0 <= j < 9 ==> text[j] == "/compact "@[j]);
        assert(text != "/quit"@) by { if text.len() == "/quit"@.len() { assert(text[1] != "/quit"@[1]); } }
        assert(text != "/settings"@) by { if text.len() == "/settings"@.len() { assert(text[1] != "/settings"@[1]); } }
        assert(text != "/new"@) by { if text.len() == "/new"@.len() { assert(text[1] != "/new"@[1]); } }
        assert(text != "/resume"@) by { if text.len() == "/resume"@.len() { assert(text[1] != "/resume"@[1]); } }
        assert(text != "/fork"@) by { if text.len() == "/fork"@.len() { assert(text[1] != "/fork"@[1]); } }
        assert(text != "/tree"@) by { if text.len() == "/tree"@.len() { assert(text[1] != "/tree"@[1]); } }
        assert(!has_prefix(text, "/tree"@ + seq![' '])) by { if has_prefix(text, "/tree"@ + seq![' ']) { assert(text.take(("/tree"@ + seq![' ']).len() as int)[1] == text[1]); } }
        assert(text != "/scoped-models"@) by { if text.len() == "/scoped-models"@.len() { assert(text[1] != "/scoped-models"@[1]); } }
        assert(!has_prefix(text, "/scoped-models"@ + seq![' '])) by { if has_prefix(text, "/scoped-models"@ + seq![' ']) { assert(text.take(("/scoped-models"@ + seq![' ']).len() as int)[1] == text[1]); } }
        assert(text != "/session"@) by { if text.len() == "/session"@.len() { assert(text[1] != "/session"@[1]); } }
        assert(text != "/copy"@) by { if text.len() == "/copy"@.len() { assert(text[3] != "/copy"@[3]); } }
        assert(text != "/export"@) by { if text.len() == "/export"@.len() { assert(text[1] != "/export"@[1]); } }
        assert(!has_prefix(text, "/export"@ + seq![' '])) by { if has_prefix(text, "/export"@ + seq![' ']) { assert(text.take(("/export"@ + seq![' ']).len() as int)[1] == text[1]); } }
        assert(text != "/share"@) by { if text.len() == "/share"@.len() { assert(text[1] != "/share"@[1]); } }
        assert(text != "/name"@) by { if text.len() == "/name"@.len() { assert(text[1] != "/name"@[1]); } }
        assert(!has_prefix(text, "/name"@ + seq![' '])) by { if has_prefix(text, "/name"@ + seq![' ']) { assert(text.take(("/name"@ + seq![' ']).len() as int)[1] == text[1]); } }
        assert(text != "/changelog"@) by { if text.len() == "/changelog"@.len() { assert(text[2] != "/changelog"@[2]); } }
        assert(text != "/hotkeys"@) by { if text.len() == "/hotkeys"@.len() { assert(text[1] != "/hotkeys"@[1]); } }
        assert(text != "/login"@) by { if text.len() == "/login"@.len() { assert(text[1] != "/login"@[1]); } }
        assert(!has_prefix(text, "/login"@ + seq![' '])) by { if has_prefix(text, "/login"@ + seq![' ']) { assert(text.take(("/login"@ + seq![' ']).len() as int)[1] == text[1]); } }
        assert(text != "/logout"@) by { if text.len() == "/logout"@.len() { assert(text[1] != "/logout"@[1]); } }
        assert(!has_prefix(text, "/logout"@ + seq![' '])) by { if has_prefix(text, "/logout"@ + seq![' ']) { assert(text.take(("/logout"@ + seq![' ']).len() as int)[1] == text[1]); } }
        assert(has_prefix(text, "/compact"@ + seq![' '])) by { assert(text.take(9) =~= "/compact"@ + seq![' ']); }
        assert(text.skip(8) =~= seq![' '] + p);
    }
    {
        let text = "/model "@ + p;
        assert(text.len() >= 7);
        assert(forall|j: int| 0 <= j < 7 ==> text[j] == "/model "@[j]);
        assert(text != "/quit"@) by { if text.len() == "/quit"@.len() { assert(text[1] != "/quit"@[1]); } }
        assert(text != "/settings"@) by { if text.len() == "/settings"@.len() { assert(text[1] != "/settings"@[1]); } }
        assert(text != "/new"@) by { if text.len() == "/new"@.len() { assert(text[1] != "/new"@[1]); } }
        assert(text != "/resume"@) by { if text.len() == "/resume"@.len() { assert(text[1] != "/resume"@[1]); } }
        assert(text != "/fork"@) by { if text.len() == "/fork"@.len() { assert(text[1] != "/fork"@[1]); } }
        assert(text != "/tree"@) by { if text.len() == "/tree"@.len() { assert(text[1] != "/tree"@[1]); } }
        assert(!has_prefix(text, "/tree"@ + seq![' '])) by { if has_prefix(text, "/tree"@ + seq![' ']) { assert(text.take(("/tree"@ + seq![' ']).len() as int)[1] == text[1]); } }
        assert(text != "/scoped-models"@) by { if text.len() == "/scoped-models"@.len() { assert(text[1] != "/scoped-models"@[1]); } }
        assert(!has_prefix(text, "/scoped-models"@ + seq![' '])) by { if has_prefix(text, "/scoped-models"@ + seq![' ']) { assert(text.take(("/scoped-models"@ + seq![' ']).len() as int)[1] == text[1]); } }
        assert(text != "/session"@) by { if text.len() == "/session"@.len() { assert(text[1] != "/session"@[1]); } }
        assert(text != "/copy"@) by { if text.len() == "/copy"@.len() { assert(text[1] != "/copy"@[1]); } }
        assert(text != "/export"@) by { if text.len() == "/export"@.len() { assert(text[1] != "/export"@[1]); } }
        assert(!has_prefix(text, "/export"@ + seq![' '])) by { if has_prefix(text, "/export"@ + seq![' ']) { assert(text.take(("/export"@ + seq![' ']).len() as int)[1] == text[1]); } }
        assert(text != "/share"@) by { if text.len() == "/share"@.len() { assert(text[1] != "/share"@[1]); } }
        assert(text != "/name"@) by { if text.len() == "/name"@.len() { assert(text[1] != "/name"@[1]); } }
        assert(!has_prefix(text, "/name"@ + seq![' '])) by { if has_prefix(text, "/name"@ + seq![' ']) { assert(text.take(("/name"@ + seq![' ']).len() as int)[1] == text[1]); } }
        assert(text != "/changelog"@) by { if text.len() == "/changelog"@.len() { assert(text[1] != "/changelog"@[1]); } }
        assert(text != "/hotkeys"@) by { if text.len() == "/hotkeys"@.len() { assert(text[1] != "/hotkeys"@[1]); } }
        assert(text != "/login"@) by { if text.len() == "/login"@.len() { assert(text[1] != "/login"@[1]); } }
        assert(!has_prefix(text, "/login"@ + seq![' '])) by { if has_prefix(text, "/login"@ + seq![' ']) { assert(text.take(("/login"@ + seq![' ']).len() as int)[1] == text[1]); } }
        assert(text != "/logout"@) by { if text.len() == "/logout"@.len() { assert(text[1] != "/logout"@[1]); } }
        assert(!has_prefix(text, "/logout"@ + seq![' '])) by { if has_prefix(text, "/logout"@ + seq![' ']) { assert(text.take(("/logout"@ + seq![' ']).len() as int)[1] == text[1]); } }
        assert(text != "/compact"@) by { if text.len() == "/compact"@.len() { assert(text[1] != "/compact"@[1]); } }
        assert(!has_prefix(text, "/compact"@ + seq![' '])) by { if has_prefix(text, "/compact"@ + seq![' ']) { assert(text.take(("/compact"@ + seq![' ']).len() as int)[1] == text[1]); } }
        assert(text != "/reload"@) by { if text.len() == "/reload"@.len() { assert(text[1] != "/reload"@[1]); } }
        assert(has_prefix(text, "/model"@ + seq![' '])) by { assert(text.take(7) =~= "/model"@ + seq![' ']); }
        assert(text.skip(6) =~= seq![' '] + p);
    }
}

/// Decides `names_command`.
fn is_command(tc: &Vec<char>, word: &str) -> (r: bool)
    ensures
        r == names_command(tc@, word@),
{
    if chars_eq_str(tc, word) {
        return true;
    }
    let mut w = chars_of(word);
    w.push(' ');
    assert(w@ =~= word@ + seq![' ']);
    let ws = string_from_chars(&w);
    starts_with_chars(tc, ws.as_str())
}

/// Computes `argument_after`.
fn argument(tc: &Vec<char>, word: &str) -> (r: Option<String>)
    requires
        names_command(tc@, word@),
    ensures
        opt_view(r) == argument_after(tc@, word@),
{
    let w = chars_of(word);
    let rest = chars_from(tc, w.len());
    let t = trim_chars(&rest);
    if t.len() == 0 {
        None
    } else {
        Some(string_from_chars(&t))
    }
}

/// Reads `text` as a built-in slash command.
pub fn parse_slash_command(text: &str) -> (r: Option<SlashCommand>)
    ensures
        match r {
            Some(c) => slash_command_of(text@) == Some(slash_view(c)),
            None => slash_command_of(text@) is None,
        },
{
    let tc = chars_of(text);
    if chars_eq_str(&tc, "/quit") {
        Some(SlashCommandOf::Quit)
    } else if chars_eq_str(&tc, "/settings") {
        Some(SlashCommandOf::Settings)
    } else if chars_eq_str(&tc, "/new") {
        Some(SlashCommandOf::New)
    } else if chars_eq_str(&tc, "/resume") {
        Some(SlashCommandOf::Resume)
    } else if chars_eq_str(&tc, "/fork") {
        Some(SlashCommandOf::Fork)
    } else if is_command(&tc, "/tree") {
        Some(SlashCommandOf::Tree { target: argument(&tc, "/tree") })
    } else if is_command(&tc, "/scoped-models") {
        Some(SlashCommandOf::ScopedModels { search: argument(&tc, "/scoped-models") })
    } else if chars_eq_str(&tc, "/session") {
        Some(SlashCommandOf::Session)
    } else if chars_eq_str(&tc, "/copy") {
        Some(SlashCommandOf::Copy)
    } else if is_command(&tc, "/export") {
        Some(SlashCommandOf::Export { path: argument(&tc, "/export") })
    } else if chars_eq_str(&tc, "/share") {
        Some(SlashCommandOf::Share)
    } else if is_command(&tc, "/name") {
        Some(SlashCommandOf::Name { name: argument(&tc, "/name") })
    } else if chars_eq_str(&tc, "/changelog") {
        Some(SlashCommandOf::Changelog)
    } else if chars_eq_str(&tc, "/hotkeys") {
        Some(SlashCommandOf::Hotkeys)
    } else if is_command(&tc, "/login") {
        Some(SlashCommandOf::Login { provider: argument(&tc, "/login") })
    } else if is_command(&tc, "/logout") {
        Some(SlashCommandOf::Logout { provider: argument(&tc, "/logout") })
    } else if is_command(&tc, "/compact") {
        Some(SlashCommandOf::Compact { instructions: argument(&tc, "/compact") })
    } else if chars_eq_str(&tc, "/reload") {
        Some(SlashCommandOf::Reload)
    } else if is_command(&tc, "/model") {
        Some(SlashCommandOf::Model { search: argument(&tc, "/model") })
    } else {
        None
    }
}

/// What submitted text asks for, over strings `S`.
pub enum SubmissionOf<S> {
    /// Blank input: nothing happens.
    Ignore,
    /// A built-in slash command.
    Slash(SlashCommandOf<S>),
    /// `!!command` (kept out of the model's context) or `!command`.
    Bash { command: S, excluded: bool },
    /// A prompt for the model: the text as it was typed.
    Prompt,
}

/// A classified submission.
pub type Submission = SubmissionOf<String>;

/// The abstract value of a submission.
pub open spec fn submission_view(s: Submission) -> SubmissionOf<Seq<char>> {
    match s {
        SubmissionOf::Ignore => SubmissionOf::Ignore,
        SubmissionOf::Slash(c) => SubmissionOf::Slash(slash_view(c)),
        SubmissionOf::Bash { command, excluded } => SubmissionOf::Bash { command: command@, excluded },
        SubmissionOf::Prompt => SubmissionOf::Prompt,
    }
}

/// What submitting `value` does: the trimmed text is checked as a slash
/// command, then as `!!command`, then as `!command`.
pub open spec fn submission_of(value: Seq<char>) -> SubmissionOf<Seq<char>> {
    let t = trim_seq(value);
    if t.len() == 0 {
        SubmissionOf::Ignore
    } else {
        match slash_command_of(t) {
            Some(c) => SubmissionOf::Slash(c),
            None => if has_prefix(t, "!!"@) && trim_seq(t.skip(2)).len() > 0 {
                SubmissionOf::Bash { command: trim_seq(t.skip(2)), excluded: true }
            } else if has_prefix(t, "!"@) && trim_seq(t.skip(1)).len() > 0 {
                SubmissionOf::Bash { command: trim_seq(t.skip(1)), excluded: false }
            } else {
                SubmissionOf::Prompt
            },
        }
    }
}

/// Only text that starts with `/` can name a built-in command.
pub proof fn lemma_commands_start_with_slash(t: Seq<char>)
    requires
        t.len() > 0,
        t[0] != '/',
    ensures
        slash_command_of(t) is None,
{
    reveal_strlit("/quit");
    reveal_strlit("/settings");
    reveal_strlit("/new");
    reveal_strlit("/resume");
    reveal_strlit("/fork");
    reveal_strlit("/tree");
    reveal_strlit("/scoped-models");
    reveal_strlit("/session");
    reveal_strlit("/copy");
    reveal_strlit("/export");
    reveal_strlit("/share");
    reveal_strlit("/name");
    reveal_strlit("/changelog");
    reveal_strlit("/hotkeys");
    reveal_strlit("/login");
    reveal_strlit("/logout");
    reveal_strlit("/compact");
    reveal_strlit("/reload");
    reveal_strlit("/model");
    assert(t != "/quit"@) by { if t.len() == "/quit"@.len() { assert(t[0] != "/quit"@[0]); } }
    assert(t != "/settings"@) by { if t.len() == "/settings"@.len() { assert(t[0] != "/settings"@[0]); } }
    assert(t != "/new"@) by { if t.len() == "/new"@.len() { assert(t[0] != "/new"@[0]); } }
    assert(t != "/resume"@) by { if t.len() == "/resume"@.len() { assert(t[0] != "/resume"@[0]); } }
    assert(t != "/fork"@) by { if t.len() == "/fork"@.len() { assert(t[0] != "/fork"@[0]); } }
    assert(t != "/tree"@) by { if t.len() == "/tree"@.len() { assert(t[0] != "/tree"@[0]); } }
    assert(!has_prefix(t, "/tree"@ + seq![' '])) by { if has_prefix(t, "/tree"@ + seq![' ']) { assert(t.take(("/tree"@ + seq![' ']).len() as int)[0] == t[0]); } }
    assert(t != "/scoped-models"@) by { if t.len() == "/scoped-models"@.len() { assert(t[0] != "/scoped-models"@[0]); } }
    assert(!has_prefix(t, "/scoped-models"@ + seq![' '])) by { if has_prefix(t, "/scoped-models"@ + seq![' ']) { assert(t.take(("/scoped-models"@ + seq![' ']).len() as int)[0] == t[0]); } }
    assert(t != "/session"@) by { if t.len() == "/session"@.len() { assert(t[0] != "/session"@[0]); } }
    assert(t != "/copy"@) by { if t.len() == "/copy"@.len() { assert(t[0] != "/copy"@[0]); } }
    assert(t != "/export"@) by { if t.len() == "/export"@.len() { assert(t[0] != "/export"@[0]); } }
    assert(!has_prefix(t, "/export"@ + seq![' '])) by { if has_prefix(t, "/export"@ + seq![' ']) { assert(t.take(("/export"@ + seq![' ']).len() as int)[0] == t[0]); } }
    assert(t != "/share"@) by { if t.len() == "/share"@.len() { assert(t[0] != "/share"@[0]); } }
    assert(t != "/name"@) by { if t.len() == "/name"@.len() { assert(t[0] != "/name"@[0]); } }
    assert(!has_prefix(t, "/name"@ + seq![' '])) by { if has_prefix(t, "/name"@ + seq![' ']) { assert(t.take(("/name"@ + seq![' ']).len() as int)[0] == t[0]); } }
    assert(t != "/changelog"@) by { if t.len() == "/changelog"@.len() { assert(t[0] != "/changelog"@[0]); } }
    assert(t != "/hotkeys"@) by { if t.len() == "/hotkeys"@.len() { assert(t[0] != "/hotkeys"@[0]); } }
    assert(t != "/login"@) by { if t.len() == "/login"@.len() { assert(t[0] != "/login"@[0]); } }
    assert(!has_prefix(t, "/login"@ + seq![' '])) by { if has_prefix(t, "/login"@ + seq![' ']) { assert(t.take(("/login"@ + seq![' ']).len() as int)[0] == t[0]); } }
    assert(t != "/logout"@) by { if t.len() == "/logout"@.len() { assert(t[0] != "/logout"@[0]); } }
    assert(!has_prefix(t, "/logout"@ + seq![' '])) by { if has_prefix(t, "/logout"@ + seq![' ']) { assert(t.take(("/logout"@ + seq![' ']).len() as int)[0] == t[0]); } }
    assert(t != "/compact"@) by { if t.len() == "/compact"@.len() { assert(t[0] != "/compact"@[0]); } }
    assert(!has_prefix(t, "/compact"@ + seq![' '])) by { if has_prefix(t, "/compact"@ + seq![' ']) { assert(t.take(("/compact"@ + seq![' ']).len() as int)[0] == t[0]); } }
    assert(t != "/reload"@) by { if t.len() == "/reload"@.len() { assert(t[0] != "/reload"@[0]); } }
    assert(t != "/model"@) by { if t.len() == "/model"@.len() { assert(t[0] != "/model"@[0]); } }
    assert(!has_prefix(t, "/model"@ + seq![' '])) by { if has_prefix(t, "/model"@ + seq![' ']) { assert(t.take(("/model"@ + seq![' ']).len() as int)[0] == t[0]); } }
}

/// Blank text is ignored, and text whose first non-blank character is
/// neither `/` nor `!` is sent as a prompt.
pub proof fn lemma_plain_text_is_a_prompt(value: Seq<char>)
    ensures
        trim_seq(value).len() == 0 ==> submission_of(value) == SubmissionOf::<Seq<char>>::Ignore,
        trim_seq(value).len() > 0 && trim_seq(value)[0] != '/' && trim_seq(value)[0] != '!' ==> submission_of(value)
            == SubmissionOf::<Seq<char>>::Prompt,
{
    let t = trim_seq(value);
    if t.len() > 0 && t[0] != '/' && t[0] != '!' {
        lemma_commands_start_with_slash(t);
        reveal_strlit("!!");
        reveal_strlit("!");
        assert(!has_prefix(t, "!"@)) by {
            if has_prefix(t, "!"@) {
                assert(t.take(1)[0] == t[0]);
            }
        }
        assert(!has_prefix(t, "!!"@)) by {
            if has_prefix(t, "!!"@) {
                assert(t.take(2)[0] == t[0]);
            }
        }
    }
}

/// Classifies submitted text (see `submission_of`).
pub fn classify_submission(value: &str) -> (r: Submission)
    ensures
        submission_view(r) == submission_of(value@),
{
    let vc = chars_of(value);
    let t = trim_chars(&vc);
    if t.len() == 0 {
        return SubmissionOf::Ignore;
    }
    let ts = string_from_chars(&t);
    match parse_slash_command(ts.as_str()) {
        Some(c) => {
            return SubmissionOf::Slash(c);
        },
        None => {},
    }
    proof {
        reveal_strlit("!!");
        reveal_strlit("!");
    }
    if starts_with_chars(&t, "!!") {
        let rest = chars_from(&t, 2);
        let command = trim_chars(&rest);
        if command.len() > 0 {
            return SubmissionOf::Bash { command: string_from_chars(&command), excluded: true };
        }
    }
    if starts_with_chars(&t, "!") {
        let rest = chars_from(&t, 1);
        let command = trim_chars(&rest);
        if command.len() > 0 {
            return SubmissionOf::Bash { command: string_from_chars(&command), excluded: false };
        }
    }
    SubmissionOf::Prompt
}

/// What the interactive session is doing when a slash command runs.
#[derive(Clone, Copy, Debug, PartialEq, Eq)]
pub struct SlashFacts {
    pub is_streaming: bool,
    /// The session is kept by a session manager.
    pub has_session: bool,
    /// The session has user messages to fork from.
    pub has_fork_candidates: bool,
    /// The session has entries.
    pub has_session_entries: bool,
    /// Some model can be used.
    pub has_available_models: bool,
    /// The model has answered at least once.
    pub has_assistant_text: bool,
    /// The session has a display name.
    pub has_session_name: bool,
    /// An OAuth login is running.
    pub auth_in_progress: bool,
    /// There is an agent directory to keep credentials in.
    pub has_agent_dir: bool,
    /// Some OAuth provider is known.
    pub has_oauth_providers: bool,
    /// The provider named by `/login <provider>` is known.
    pub oauth_provider_known: bool,
}

/// The status shown when a session switch is asked for during a response.
pub open spec fn switch_while_streaming() -> Seq<char> {
    "Session switching while a request is running is not supported in the Rust interactive CLI yet."@
}

/// The pickers and actions that replace the running session view.
#[derive(Clone, Copy, Debug, PartialEq, Eq)]
pub enum TransitionKind {
    NewSession,
    ResumePicker,
    ForkPicker,
    TreePicker,
    SettingsPicker,
    OAuthLogin,
    OAuthLogout,
    ScopedModelsPicker,
    Reload,
}

/// Why a transition cannot start, if it cannot.
pub open spec fn transition_refusal(kind: TransitionKind, f: SlashFacts) -> Option<Seq<char>> {
    if f.is_streaming {
        Some(switch_while_streaming())
    } else if kind == TransitionKind::ForkPicker && (!f.has_session || !f.has_fork_candidates) {
        Some("No messages to fork from"@)
    } else if kind == TransitionKind::TreePicker && !f.has_session {
        Some("Session tree is not available in this interactive mode."@)
    } else if kind == TransitionKind::TreePicker && !f.has_session_entries {
        Some("No entries in session"@)
    } else {
        None
    }
}

/// While a response streams, no view can replace the session view, and the
/// refusal says why; when nothing streams, only the fork and tree pickers
/// can be refused (for want of messages or entries).
pub proof fn lemma_transition_refusals(kind: TransitionKind, f: SlashFacts)
    ensures
        f.is_streaming ==> transition_refusal(kind, f) == Some(switch_while_streaming()),
        !f.is_streaming && kind != TransitionKind::ForkPicker && kind != TransitionKind::TreePicker
            ==> transition_refusal(kind, f) is None,
        !f.is_streaming && kind == TransitionKind::ForkPicker ==> (transition_refusal(kind, f) is None <==> (
        f.has_session && f.has_fork_candidates)),
        !f.is_streaming && kind == TransitionKind::TreePicker ==> (transition_refusal(kind, f) is None <==> (
        f.has_session && f.has_session_entries)),
{
}

/// Quitting and the session, changelog and hotkey views are never refused.
pub proof fn lemma_always_allowed(f: SlashFacts)
    ensures
        slash_refusal(SlashCommandModel::Quit, f) is None,
        slash_refusal(SlashCommandModel::Session, f) is None,
        slash_refusal(SlashCommandModel::Changelog, f) is None,
        slash_refusal(SlashCommandModel::Hotkeys, f) is None,
{
}

/// Why the slash command `c` cannot run, if it cannot: the status shown in
/// its place.
pub open spec fn slash_refusal(c: SlashCommandModel, f: SlashFacts) -> Option<Seq<char>> {
    match c {
        SlashCommandOf::Quit | SlashCommandOf::Session | SlashCommandOf::Changelog | SlashCommandOf::Hotkeys => None,
        SlashCommandOf::Settings => transition_refusal(TransitionKind::SettingsPicker, f),
        SlashCommandOf::New => transition_refusal(TransitionKind::NewSession, f),
        SlashCommandOf::Resume => transition_refusal(TransitionKind::ResumePicker, f),
        SlashCommandOf::Fork => transition_refusal(TransitionKind::ForkPicker, f),
        SlashCommandOf::Tree { target } => if !f.has_session {
            Some("Session tree is not available in this interactive mode."@)
        } else if target is None {
            transition_refusal(TransitionKind::TreePicker, f)
        } else if f.is_streaming {
            Some(switch_while_streaming())
        } else {
            None
        },
        SlashCommandOf::ScopedModels { .. } => if !f.has_available_models {
            Some("No models available"@)
        } else {
            transition_refusal(TransitionKind::ScopedModelsPicker, f)
        },
        SlashCommandOf::Copy => if !f.has_assistant_text {
            Some("No assistant messages to copy yet."@)
        } else {
            None
        },
        SlashCommandOf::Export { .. } => if !f.has_session {
            Some("Session export is not available in this interactive mode."@)
        } else {
            None
        },
        SlashCommandOf::Share => if !f.has_session {
            Some("Session sharing is not available in this interactive mode."@)
        } else {
            None
        },
        SlashCommandOf::Name { name } => match name {
            None => if f.has_session_name {
                None
            } else {
                Some("Usage: /name <name>"@)
            },
            Some(_) => if !f.has_session {
                Some("Session naming is not supported in this interactive mode."@)
            } else {
                None
            },
        },
        SlashCommandOf::Login { provider } => if f.is_streaming {
            Some("Wait for the current response to finish before logging in."@)
        } else {
            match provider {
                None => if f.auth_in_progress {
                    Some("An OAuth login is already in progress."@)
                } else if !f.has_agent_dir {
                    Some("OAuth login requires an agent directory."@)
                } else if !f.has_oauth_providers {
                    Some("No OAuth providers available"@)
                } else {
                    transition_refusal(TransitionKind::OAuthLogin, f)
                },
                Some(p) => if !f.oauth_provider_known {
                    Some("Unknown OAuth provider: "@ + p)
                } else if !f.has_agent_dir {
                    Some("OAuth login requires an agent directory."@)
                } else if f.auth_in_progress {
                    Some("An OAuth login is already in progress."@)
                } else {
                    None
                },
            }
        },
        SlashCommandOf::Logout { .. } => if f.is_streaming {
            Some("Wait for the current response to finish before logging out."@)
        } else if !f.has_agent_dir {
            Some("OAuth logout requires an agent directory."@)
        } else if f.auth_in_progress {
            Some("Wait for the current OAuth login to finish."@)
        } else {
            None
        },
        SlashCommandOf::Compact { .. } => if !f.has_session {
            Some("Session compaction is not available in this interactive mode."@)
        } else if f.is_streaming {
            Some("Wait for the current response to finish before compacting."@)
        } else {
            None
        },
        SlashCommandOf::Reload => if f.is_streaming {
            Some("Wait for the current response to finish before reloading."@)
        } else if f.auth_in_progress {
            Some("Wait for the current OAuth login to finish."@)
        } else {
            transition_refusal(TransitionKind::Reload, f)
        },
        SlashCommandOf::Model { .. } => if f.is_streaming {
            Some("Model switching while a request is running is not supported in the Rust interactive CLI yet."@)
        } else {
            None
        },
    }
}

/// Decides `transition_refusal`.
pub fn check_transition(kind: TransitionKind, facts: &SlashFacts) -> (r: Option<String>)
    ensures
        opt_view(r) == transition_refusal(kind, *facts),
{
    if facts.is_streaming {
        Some(owned("Session switching while a request is running is not supported in the Rust interactive CLI yet."))
    } else if matches!(kind, TransitionKind::ForkPicker) && (!facts.has_session || !facts.has_fork_candidates) {
        Some(owned("No messages to fork from"))
    } else if matches!(kind, TransitionKind::TreePicker) && !facts.has_session {
        Some(owned("Session tree is not available in this interactive mode."))
    } else if matches!(kind, TransitionKind::TreePicker) && !facts.has_session_entries {
        Some(owned("No entries in session"))
    } else {
        None
    }
}

/// Decides `slash_refusal`.
pub fn check_slash_command(command: &SlashCommand, facts: &SlashFacts) -> (r: Option<String>)
    ensures
        opt_view(r) == slash_refusal(slash_view(*command), *facts),
{
    match command {
        SlashCommandOf::Quit | SlashCommandOf::Session | SlashCommandOf::Changelog | SlashCommandOf::Hotkeys => None,
        SlashCommandOf::Settings => check_transition(TransitionKind::SettingsPicker, facts),
        SlashCommandOf::New => check_transition(TransitionKind::NewSession, facts),
        SlashCommandOf::Resume => check_transition(TransitionKind::ResumePicker, facts),
        SlashCommandOf::Fork => check_transition(TransitionKind::ForkPicker, facts),
        SlashCommandOf::Tree { target } => if !facts.has_session {
            Some(owned("Session tree is not available in this interactive mode."))
        } else if target.is_none() {
            check_transition(TransitionKind::TreePicker, facts)
        } else if facts.is_streaming {
            Some(owned("Session switching while a request is running is not supported in the Rust interactive CLI yet."))
        } else {
            None
        },
        SlashCommandOf::ScopedModels { .. } => if !facts.has_available_models {
            Some(owned("No models available"))
        } else {
            check_transition(TransitionKind::ScopedModelsPicker, facts)
        },
        SlashCommandOf::Copy => if !facts.has_assistant_text {
            Some(owned("No assistant messages to copy yet."))
        } else {
            None
        },
        SlashCommandOf::Export { .. } => if !facts.has_session {
            Some(owned("Session export is not available in this interactive mode."))
        } else {
            None
        },
        SlashCommandOf::Share => if !facts.has_session {
            Some(owned("Session sharing is not available in this interactive mode."))
        } else {
            None
        },
        SlashCommandOf::Name { name } => match name {
            None => if facts.has_session_name {
                None
            } else {
                Some(owned("Usage: /name <name>"))
            },
            Some(_) => if !facts.has_session {
                Some(owned("Session naming is not supported in this interactive mode."))
            } else {
                None
            },
        },
        SlashCommandOf::Login { provider } => if facts.is_streaming {
            Some(owned("Wait for the current response to finish before logging in."))
        } else {
            match provider {
                None => if facts.auth_in_progress {
                    Some(owned("An OAuth login is already in progress."))
                } else if !facts.has_agent_dir {
                    Some(owned("OAuth login requires an agent directory."))
                } else if !facts.has_oauth_providers {
                    Some(owned("No OAuth providers available"))
                } else {
                    check_transition(TransitionKind::OAuthLogin, facts)
                },
                Some(p) => if !facts.oauth_provider_known {
                    let mut v = chars_of("Unknown OAuth provider: ");
                    crate::text::push_str_chars(&mut v, p.as_str());
                    Some(string_from_chars(&v))
                } else if !facts.has_agent_dir {
                    Some(owned("OAuth login requires an agent directory."))
                } else if facts.auth_in_progress {
                    Some(owned("An OAuth login is already in progress."))
                } else {
                    None
                },
            }
        },
        SlashCommandOf::Logout { .. } => if facts.is_streaming {
            Some(owned("Wait for the current response to finish before logging out."))
        } else if !facts.has_agent_dir {
            Some(owned("OAuth logout requires an agent directory."))
        } else if facts.auth_in_progress {
            Some(owned("Wait for the current OAuth login to finish."))
        } else {
            None
        },
        SlashCommandOf::Compact { .. } => if !facts.has_session {
            Some(owned("Session compaction is not available in this interactive mode."))
        } else if facts.is_streaming {
            Some(owned("Wait for the current response to finish before compacting."))
        } else {
            None
        },
        SlashCommandOf::Reload => if facts.is_streaming {
            Some(owned("Wait for the current response to finish before reloading."))
        } else if facts.auth_in_progress {
            Some(owned("Wait for the current OAuth login to finish."))
        } else {
            check_transition(TransitionKind::Reload, facts)
        },
        SlashCommandOf::Model { .. } => if facts.is_streaming {
            Some(
                owned(
                    "Model switching while a request is running is not supported in the Rust interactive CLI yet.",
                ),
            )
        } else {
            None
        },
    }
}

/// An entry of the slash-command menu.
pub struct SlashCommandInfo {
    pub name: String,
    pub description: Option<String>,
    /// The front end completes the command's argument (models for `/model`,
    /// OAuth providers for `/login` and `/logout`).
    pub completes_arguments: bool,
}

/// The abstract value of a menu entry.
pub open spec fn info_view(i: SlashCommandInfo) -> (Seq<char>, Option<Seq<char>>, bool) {
    (i.name@, opt_view(i.description), i.completes_arguments)
}

/// The built-in entries of the menu, in menu order.
pub open spec fn builtin_commands() -> Seq<(Seq<char>, Option<Seq<char>>, bool)> {
    seq![
        ("settings"@, Some("Open settings menu"@), false),
        ("model"@, Some("Select model"@), true),
        ("scoped-models"@, Some("Configure scoped models for Ctrl+P cycling"@), false),
        ("export"@, Some("Export session (HTML default, or specify .jsonl)"@), false),
        ("share"@, Some("Share session with an HTML preview link"@), false),
        ("copy"@, Some("Copy last assistant message to clipboard"@), false),
        ("name"@, Some("Set session display name"@), false),
        ("session"@, Some("Show session info and stats"@), false),
        ("changelog"@, Some("Show changelog entries"@), false),
        ("hotkeys"@, Some("Show keyboard shortcuts"@), false),
        ("fork"@, Some("Fork from a previous user message"@), false),
        ("tree"@, Some("Show or switch the session tree"@), false),
        ("login"@, Some("Login with OAuth provider"@), true),
        ("logout"@, Some("Logout from OAuth provider"@), true),
        ("new"@, Some("Start a new session"@), false),
        ("compact"@, Some("Compact the current session context"@), false),
        ("resume"@, Some("Resume a different session"@), false),
        ("reload"@, Some("Reload keybindings, skills, prompts, and settings"@), false),
        ("quit"@, Some("Quit pi"@), false),
    ]
}

/// The menu: the built-in commands, then each prompt template (`name`,
/// description unless empty), then each skill (`skill:name`).
pub open spec fn slash_menu(templates: Seq<(Seq<char>, Seq<char>)>, skills: Seq<(Seq<char>, Seq<char>)>) -> Seq<
    (Seq<char>, Option<Seq<char>>, bool),
> {
    builtin_commands() + templates.map_values(
        |t: (Seq<char>, Seq<char>)|
            (
                t.0,
                if t.1.len() == 0 {
                    None
                } else {
                    Some(t.1)
                },
                false,
            ),
    ) + skills.map_values(|s: (Seq<char>, Seq<char>)| ("skill:"@ + s.0, Some(s.1), false))
}

/// Adds a built-in entry.
fn push_builtin(out: &mut Vec<SlashCommandInfo>, name: &str, description: &str, completes: bool)
    ensures
        final(out)@.map_values(|i: SlashCommandInfo| info_view(i)) == old(out)@.map_values(
            |i: SlashCommandInfo| info_view(i),
        ).push((name@, Some(description@), completes)),
{
    let ghost before = out@;
    out.push(SlashCommandInfo {
        name: owned(name),
        description: Some(owned(description)),
        completes_arguments: completes,
    });
    assert(out@.map_values(|i: SlashCommandInfo| info_view(i)) =~= before.map_values(
        |i: SlashCommandInfo| info_view(i),
    ).push((name@, Some(description@), completes)));
}

/// The views of `(name, description)` pairs.
pub open spec fn pair_views(v: Seq<(String, String)>) -> Seq<(Seq<char>, Seq<char>)> {
    v.map_values(|p: (String, String)| (p.0@, p.1@))
}

/// Builds the slash-command menu from the prompt templates and skills,
/// each given as `(name, description)`.
#[verifier::rlimit(50)]
pub fn build_interactive_slash_commands(templates: &Vec<(String, String)>, skills: &Vec<(String, String)>) -> (r: Vec<
    SlashCommandInfo,
>)
    ensures
        r@.map_values(|i: SlashCommandInfo| info_view(i)) == slash_menu(pair_views(templates@), pair_views(skills@)),
{
    let mut r: Vec<SlashCommandInfo> = Vec::new();
    push_builtin(&mut r, "settings", "Open settings menu", false);
    push_builtin(&mut r, "model", "Select model", true);
    push_builtin(&mut r, "scoped-models", "Configure scoped models for Ctrl+P cycling", false);
    push_builtin(&mut r, "export", "Export session (HTML default, or specify .jsonl)", false);
    push_builtin(&mut r, "share", "Share session with an HTML preview link", false);
    push_builtin(&mut r, "copy", "Copy last assistant message to clipboard", false);
    push_builtin(&mut r, "name", "Set session display name", false);
    push_builtin(&mut r, "session", "Show session info and stats", false);
    push_builtin(&mut r, "changelog", "Show changelog entries", false);
    push_builtin(&mut r, "hotkeys", "Show keyboard shortcuts", false);
    push_builtin(&mut r, "fork", "Fork from a previous user message", false);
    push_builtin(&mut r, "tree", "Show or switch the session tree", false);
    push_builtin(&mut r, "login", "Login with OAuth provider", true);
    push_builtin(&mut r, "logout", "Logout from OAuth provider", true);
    push_builtin(&mut r, "new", "Start a new session", false);
    push_builtin(&mut r, "compact", "Compact the current session context", false);
    push_builtin(&mut r, "resume", "Resume a different session", false);
    push_builtin(&mut r, "reload", "Reload keybindings, skills, prompts, and settings", false);
    push_builtin(&mut r, "quit", "Quit pi", false);
    let ghost base = r@.map_values(|i: SlashCommandInfo| info_view(i));
    assert(base =~= builtin_commands());
    let ghost tv = pair_views(templates@).map_values(
        |t: (Seq<char>, Seq<char>)|
            (
                t.0,
                if t.1.len() == 0 {
                    None
                } else {
                    Some(t.1)
                },
                false,
            ),
    );
    let mut i: usize = 0;
    while i < templates.len()
        invariant
            0 <= i <= templates@.len(),
            base == builtin_commands(),
            tv.len() == templates@.len(),
            forall|k: int| 0 <= k < templates@.len() ==> #[trigger] tv[k] == (
                templates@[k].0@,
                if templates@[k].1@.len() == 0 {
                    None
                } else {
                    Some(templates@[k].1@)
                },
                false,
            ),
            r@.map_values(|i: SlashCommandInfo| info_view(i)) == base + tv.take(i as int),
        decreases templates@.len() - i,
    {
        let d = chars_of(templates[i].1.as_str());
        let description = if d.len() == 0 {
            None
        } else {
            Some(templates[i].1.clone())
        };
        let ghost before = r@;
        r.push(SlashCommandInfo {
            name: templates[i].0.clone(),
            description,
            completes_arguments: false,
        });
        assert(r@.map_values(|i: SlashCommandInfo| info_view(i)) =~= before.map_values(
            |i: SlashCommandInfo| info_view(i),
        ).push(tv[i as int]));
        assert(tv.take(i + 1) =~= tv.take(i as int).push(tv[i as int]));
        i = i + 1;
    }
    assert(tv.take(tv.len() as int) =~= tv);
    let ghost mid = base + tv;
    let ghost sv = pair_views(skills@).map_values(
        |s: (Seq<char>, Seq<char>)| ("skill:"@ + s.0, Some(s.1), false),
    );
    let mut j: usize = 0;
    while j < skills.len()
        invariant
            0 <= j <= skills@.len(),
            sv.len() == skills@.len(),
            forall|k: int| 0 <= k < skills@.len() ==> #[trigger] sv[k] == (
                "skill:"@ + skills@[k].0@,
                Some(skills@[k].1@),
                false,
            ),
            r@.map_values(|i: SlashCommandInfo| info_view(i)) == mid + sv.take(j as int),
        decreases skills@.len() - j,
    {
        let mut name = chars_of("skill:");
        crate::text::push_str_chars(&mut name, skills[j].0.as_str());
        let ghost before = r@;
        r.push(SlashCommandInfo {
            name: string_from_chars(&name),
            description: Some(skills[j].1.clone()),
            completes_arguments: false,
        });
        assert(r@.map_values(|i: SlashCommandInfo| info_view(i)) =~= before.map_values(
            |i: SlashCommandInfo| info_view(i),
        ).push(sv[j as int]));
        assert(sv.take(j + 1) =~= sv.take(j as int).push(sv[j as int]));
        j = j + 1;
    }
    assert(sv.take(sv.len() as int) =~= sv);
    r
}

/// The index of the model after (or before) the current one in a list of
/// `len` candidates; `None` when there is at most one candidate. An unknown
/// current model counts as the first.
pub open spec fn cycled_model_index(current: Option<nat>, len: nat, backward: bool) -> Option<nat> {
    if len <= 1 {
        None
    } else {
        let i = match current {
            Some(k) => k,
            None => 0,
        };
        if backward {
            Some(((i + len - 1) % (len as int)) as nat)
        } else {
            Some(((i + 1) % len) as nat)
        }
    }
}

/// Computes `cycled_model_index`.
pub fn cycle_model_index(current: Option<usize>, len: usize, backward: bool) -> (r: Option<usize>)
    requires
        current matches Some(k) ==> k < len,
    ensures
        match r {
            Some(k) => cycled_model_index(
                match current {
                    Some(c) => Some(c as nat),
                    None => None,
                },
                len as nat,
                backward,
            ) == Some(k as nat) && k < len,
            None => cycled_model_index(
                match current {
                    Some(c) => Some(c as nat),
                    None => None,
                },
                len as nat,
                backward,
            ) is None,
        },
{
    if len <= 1 {
        return None;
    }
    let i = match current {
        Some(k) => k,
        None => 0,
    };
    if backward {
        proof {
            if i == 0 {
                vstd::arithmetic::div_mod::lemma_small_mod((len - 1) as nat, len as nat);
            } else {
                vstd::arithmetic::div_mod::lemma_mod_add_multiples_vanish(i - 1, len as int);
                vstd::arithmetic::div_mod::lemma_small_mod((i - 1) as nat, len as nat);
            }
        }
        Some(if i == 0 {
            len - 1
        } else {
            i - 1
        })
    } else {
        Some((i + 1) % len)
    }
}

/// The status after cycling models: the new model (its name, or its id when
/// it has none) and, for a reasoning model with thinking on, the level; or
/// why there was nothing to cycle to.
pub open spec fn model_cycle_status(
    switched: Option<(Seq<char>, Seq<char>, bool, crate::args::ThinkingLevel)>,
    scoped: bool,
) -> Seq<char> {
    match switched {
        Some((name, id, reasoning, level)) => "Switched to "@ + (if name.len() == 0 {
            id
        } else {
            name
        }) + (if reasoning && level != crate::args::ThinkingLevel::Off {
            " (thinking: "@ + crate::thinking::level_name(level) + ")"@
        } else {
            seq![]
        }),
        None => if scoped {
            "Only one model in scope"@
        } else {
            "Only one model available"@
        },
    }
}

/// Builds `model_cycle_status`.
pub fn model_cycle_status_message(
    switched: Option<(&str, &str, bool, crate::args::ThinkingLevel)>,
    scoped: bool,
) -> (r: String)
    ensures
        r@ == model_cycle_status(
            match switched {
                Some((n, i, re, l)) => Some((n@, i@, re, l)),
                None => None,
            },
            scoped,
        ),
{
    match switched {
        Some((name, id, reasoning, level)) => {
            let mut v = chars_of("Switched to ");
            let nc = chars_of(name);
            if nc.len() == 0 {
                crate::text::push_str_chars(&mut v, id);
            } else {
                crate::text::extend_chars(&mut v, &nc);
            }
            if reasoning && !matches!(level, crate::args::ThinkingLevel::Off) {
                crate::text::push_str_chars(&mut v, " (thinking: ");
                crate::text::push_str_chars(&mut v, crate::thinking::thinking_level_label(level));
                crate::text::push_str_chars(&mut v, ")");
            }
            string_from_chars(&v)
        },
        None => if scoped {
            owned("Only one model in scope")
        } else {
            owned("Only one model available")
        },
    }
}


/// How a slash command that ran came out, for the message that follows.
pub enum SlashOutcome {
    /// `/export`: the file written, or the error.
    Exported(Result<String, String>),
    /// `/share`: the preview and gist links, or the error.
    Shared(Result<(String, String), String>),
    /// `/copy`: whether the clipboard took the text.
    Copied(Result<(), String>),
    /// `/name` without a name: the session's current name.
    NameShown(String),
    /// `/name <name>`: the name recorded, or the error.
    NameSet(Result<String, String>),
    /// `/compact`: whether anything was compacted, or the error.
    Compacted(Result<bool, String>),
    /// `/tree <target>`: the entry the session now ends at (`None` for the
    /// root) and the note on a model that could not be restored, or the error.
    TreeSwitched(Result<(Option<String>, Option<String>), String>),
}

/// The message after a slash command ran.
pub open spec fn slash_outcome_text(o: SlashOutcome) -> Seq<char> {
    match o {
        SlashOutcome::Exported(Ok(path)) => "Session exported to: "@ + path@,
        SlashOutcome::Shared(Ok((preview, gist))) => "Share URL: "@ + preview@ + "\nGist: "@ + gist@,
        SlashOutcome::Copied(Ok(())) => "Copied last assistant message to clipboard"@,
        SlashOutcome::NameShown(name) => "Session name: "@ + name@,
        SlashOutcome::NameSet(Ok(name)) => "Session name set: "@ + name@,
        SlashOutcome::Compacted(Ok(true)) => "Compacted session context"@,
        SlashOutcome::Compacted(Ok(false)) => "Nothing to compact"@,
        SlashOutcome::Exported(Err(e)) => "Error: "@ + e@,
        SlashOutcome::Shared(Err(e)) => "Error: "@ + e@,
        SlashOutcome::Copied(Err(e)) => "Error: "@ + e@,
        SlashOutcome::NameSet(Err(e)) => "Error: "@ + e@,
        SlashOutcome::Compacted(Err(e)) => "Error: "@ + e@,
        SlashOutcome::TreeSwitched(Ok((leaf, note))) => "Switched to "@ + (match leaf {
            Some(id) => id@,
            None => "root"@,
        }) + (match note {
            Some(n) => ". "@ + n@,
            None => seq![],
        }),
        SlashOutcome::TreeSwitched(Err(e)) => "Error: "@ + e@,
    }
}

/// `label` followed by `value`.
fn labelled_text(label: &str, value: &str) -> (r: String)
    ensures
        r@ == label@ + value@,
{
    let mut v = chars_of(label);
    push_str_chars(&mut v, value);
    string_from_chars(&v)
}

/// Builds `slash_outcome_text`.
pub fn slash_outcome_message(outcome: &SlashOutcome) -> (r: String)
    ensures
        r@ == slash_outcome_text(*outcome),
{
    match outcome {
        SlashOutcome::Exported(Ok(path)) => labelled_text("Session exported to: ", path.as_str()),
        SlashOutcome::Shared(Ok((preview, gist))) => {
            let mut v = chars_of("Share URL: ");
            push_str_chars(&mut v, preview.as_str());
            push_str_chars(&mut v, "\nGist: ");
            push_str_chars(&mut v, gist.as_str());
            string_from_chars(&v)
        },
        SlashOutcome::Copied(Ok(())) => owned("Copied last assistant message to clipboard"),
        SlashOutcome::NameShown(name) => labelled_text("Session name: ", name.as_str()),
        SlashOutcome::NameSet(Ok(name)) => labelled_text("Session name set: ", name.as_str()),
        SlashOutcome::Compacted(Ok(true)) => owned("Compacted session context"),
        SlashOutcome::Compacted(Ok(false)) => owned("Nothing to compact"),
        SlashOutcome::Exported(Err(e)) => labelled_text("Error: ", e.as_str()),
        SlashOutcome::Shared(Err(e)) => labelled_text("Error: ", e.as_str()),
        SlashOutcome::Copied(Err(e)) => labelled_text("Error: ", e.as_str()),
        SlashOutcome::NameSet(Err(e)) => labelled_text("Error: ", e.as_str()),
        SlashOutcome::Compacted(Err(e)) => labelled_text("Error: ", e.as_str()),
        SlashOutcome::TreeSwitched(Ok((leaf, note))) => {
            let mut v = chars_of("Switched to ");
            match leaf {
                Some(id) => push_str_chars(&mut v, id.as_str()),
                None => push_str_chars(&mut v, "root"),
            }
            match note {
                Some(n) => {
                    push_str_chars(&mut v, ". ");
                    push_str_chars(&mut v, n.as_str());
                },
                None => {},
            }
            string_from_chars(&v)
        },
        SlashOutcome::TreeSwitched(Err(e)) => labelled_text("Error: ", e.as_str()),
    }
}

/// Where `/tree <target>` moves the session.
#[derive(Clone, Debug, PartialEq, Eq)]
pub enum TreeSwitch {
    /// Back to the root: the target is `root`, in any case.
    ToRoot,
    /// To the entry with this id.
    ToEntry(String),
}

/// `s` with its ASCII letters in lower case.
pub open spec fn ascii_lowercase_seq(s: Seq<char>) -> Seq<char> {
    s.map_values(|c: char| crate::text::ascii_lower_char(c))
}

/// Whether a `/tree` target names the root: `root` in any case.
pub open spec fn names_root(target: Seq<char>) -> bool {
    ascii_lowercase_seq(target) == "root"@
}

/// Decides where `/tree <target>` moves the session.
pub fn tree_switch_of(target: &str) -> (r: TreeSwitch)
    ensures
        match r {
            TreeSwitch::ToRoot => names_root(target@),
            TreeSwitch::ToEntry(id) => !names_root(target@) && id@ == target@,
        },
{
    let cs = chars_of(target);
    proof {
        reveal_strlit("root");
    }
    let is_root = cs.len() == 4 && crate::text::to_ascii_lower(cs[0]) == 'r' && crate::text::to_ascii_lower(cs[1])
        == 'o' && crate::text::to_ascii_lower(cs[2]) == 'o' && crate::text::to_ascii_lower(cs[3]) == 't';
    let ghost lowered = ascii_lowercase_seq(cs@);
    if is_root {
        assert(lowered =~= "root"@);
        TreeSwitch::ToRoot
    } else {
        proof {
            if names_root(target@) {
                assert(cs@ == target@);
                assert(lowered == "root"@);
                assert(cs@.len() == 4);
                assert(lowered[0] == 'r' && lowered[1] == 'o' && lowered[2] == 'o' && lowered[3] == 't');
                assert(lowered[0] == crate::text::ascii_lower_char(cs@[0]));
                assert(lowered[1] == crate::text::ascii_lower_char(cs@[1]));
                assert(lowered[2] == crate::text::ascii_lower_char(cs@[2]));
                assert(lowered[3] == crate::text::ascii_lower_char(cs@[3]));
                assert(is_root);
            }
        }
        TreeSwitch::ToEntry(owned(target))
    }
}


/// The view a slash command that may run replaces the session view with:
/// a picker, a new or reloaded session; none for the commands that act in
/// place (and for `/tree`, `/login` and `/logout` given an argument).
pub open spec fn slash_transition_of(c: SlashCommandModel) -> Option<TransitionKind> {
    match c {
        SlashCommandOf::Settings => Some(TransitionKind::SettingsPicker),
        SlashCommandOf::New => Some(TransitionKind::NewSession),
        SlashCommandOf::Resume => Some(TransitionKind::ResumePicker),
        SlashCommandOf::Fork => Some(TransitionKind::ForkPicker),
        SlashCommandOf::Tree { target: None } => Some(TransitionKind::TreePicker),
        SlashCommandOf::ScopedModels { .. } => Some(TransitionKind::ScopedModelsPicker),
        SlashCommandOf::Login { provider: None } => Some(TransitionKind::OAuthLogin),
        SlashCommandOf::Logout { provider: None } => Some(TransitionKind::OAuthLogout),
        SlashCommandOf::Reload => Some(TransitionKind::Reload),
        _ => None,
    }
}

/// Decides `slash_transition_of`.
pub fn slash_transition(command: &SlashCommand) -> (r: Option<TransitionKind>)
    ensures
        r == slash_transition_of(slash_view(*command)),
{
    match command {
        SlashCommandOf::Settings => Some(TransitionKind::SettingsPicker),
        SlashCommandOf::New => Some(TransitionKind::NewSession),
        SlashCommandOf::Resume => Some(TransitionKind::ResumePicker),
        SlashCommandOf::Fork => Some(TransitionKind::ForkPicker),
        SlashCommandOf::Tree { target: None } => Some(TransitionKind::TreePicker),
        SlashCommandOf::ScopedModels { .. } => Some(TransitionKind::ScopedModelsPicker),
        SlashCommandOf::Login { provider: None } => Some(TransitionKind::OAuthLogin),
        SlashCommandOf::Logout { provider: None } => Some(TransitionKind::OAuthLogout),
        SlashCommandOf::Reload => Some(TransitionKind::Reload),
        _ => None,
    }
}

} // verus!
