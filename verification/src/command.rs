//! What the user's lines ask for.

use vstd::prelude::*;
use crate::action::{words1, words2, words4};
use crate::text::{
    after, cat2, cat3, cat4, peel, peeled, same, split_words, starts, starts_with, strip_prefix,
    texts, trim, trimmed, words,
};

verus! {

/// What a line on the Agent tab asks for.
pub enum AgentCommand {
    Help,
    Quit,
    /// A permission mode.
    Mode(String),
    Stop,
    Clear,
    /// A model.
    Model(String),
    /// The canned task that boots QuantumOS.
    Qos { graphical: bool },
    Unknown(String),
    /// A task in the user's own words.
    Task(String),
}

/// What an [`AgentCommand`] says.
pub ghost enum AgentCommandModel {
    Help,
    Quit,
    Mode(Seq<char>),
    Stop,
    Clear,
    Model(Seq<char>),
    Qos { graphical: bool },
    Unknown(Seq<char>),
    Task(Seq<char>),
}

impl View for AgentCommand {
    type V = AgentCommandModel;

    open spec fn view(&self) -> AgentCommandModel {
        match *self {
            AgentCommand::Help => AgentCommandModel::Help,
            AgentCommand::Quit => AgentCommandModel::Quit,
            AgentCommand::Mode(m) => AgentCommandModel::Mode(m@),
            AgentCommand::Stop => AgentCommandModel::Stop,
            AgentCommand::Clear => AgentCommandModel::Clear,
            AgentCommand::Model(m) => AgentCommandModel::Model(m@),
            AgentCommand::Qos { graphical } => AgentCommandModel::Qos { graphical },
            AgentCommand::Unknown(c) => AgentCommandModel::Unknown(c@),
            AgentCommand::Task(t) => AgentCommandModel::Task(t@),
        }
    }
}

/// What `s` holds behind `p`, trimmed; empty where it does not start so.
pub open spec fn rest_of(s: Seq<char>, p: Seq<char>) -> Seq<char> {
    match after(s, p) {
        Some(r) => trim(r),
        None => Seq::empty(),
    }
}

/// What `s` holds behind `p` ([`rest_of`]).
fn rest(s: &str, p: &str) -> (r: String)
    ensures
        r@ == rest_of(s@, p@),
{
    match strip_prefix(s, p) {
        Some(t) => trimmed(t.as_str()),
        None => String::new(),
    }
}

/// Whether the words behind `qos` ask for a graphical display.
pub open spec fn is_graphical(words: Seq<char>) -> bool {
    words == "--graphical"@ || words == "-g"@ || words == "graphical"@
}

/// The command `c`, written behind a slash on the Agent tab.
pub open spec fn slash_command(c: Seq<char>) -> AgentCommandModel {
    if c == "help"@ || c == "?"@ {
        AgentCommandModel::Help
    } else if c == "quit"@ || c == "exit"@ || c == "q"@ {
        AgentCommandModel::Quit
    } else if c == "yolo"@ || c == "plan"@ || c == "default"@ {
        AgentCommandModel::Mode(c)
    } else if c == "auto"@ || c == "auto-edit"@ {
        AgentCommandModel::Mode("auto-edit"@)
    } else if c == "stop"@ || c == "cancel"@ {
        AgentCommandModel::Stop
    } else if c == "clear"@ {
        AgentCommandModel::Clear
    } else if starts(c, "mode "@) {
        AgentCommandModel::Mode(rest_of(c, "mode "@))
    } else if starts(c, "model "@) {
        AgentCommandModel::Model(rest_of(c, "model "@))
    } else if c == "qos"@ || starts(c, "qos "@) {
        AgentCommandModel::Qos { graphical: is_graphical(rest_of(c, "qos"@)) }
    } else {
        AgentCommandModel::Unknown(c)
    }
}

/// What the line `input` asks for on the Agent tab: a command behind a slash, else
/// a task.
pub open spec fn agent_command(input: Seq<char>) -> AgentCommandModel {
    match after(input, "/"@) {
        Some(c) => slash_command(trim(c)),
        None => AgentCommandModel::Task(input),
    }
}

/// What a line asks for on the Agent tab ([`agent_command`]).
pub fn read_agent_command(input: &str) -> (r: AgentCommand)
    ensures
        r@ == agent_command(input@),
{
    let c = match strip_prefix(input, "/") {
        Some(c) => trimmed(c.as_str()),
        None => {
            return AgentCommand::Task(input.to_owned());
        },
    };
    let s = c.as_str();
    if same(s, "help") || same(s, "?") {
        AgentCommand::Help
    } else if same(s, "quit") || same(s, "exit") || same(s, "q") {
        AgentCommand::Quit
    } else if same(s, "yolo") || same(s, "plan") || same(s, "default") {
        AgentCommand::Mode(c)
    } else if same(s, "auto") || same(s, "auto-edit") {
        AgentCommand::Mode("auto-edit".to_owned())
    } else if same(s, "stop") || same(s, "cancel") {
        AgentCommand::Stop
    } else if same(s, "clear") {
        AgentCommand::Clear
    } else if starts_with(s, "mode ") {
        AgentCommand::Mode(rest(s, "mode "))
    } else if starts_with(s, "model ") {
        AgentCommand::Model(rest(s, "model "))
    } else if same(s, "qos") || starts_with(s, "qos ") {
        let w = rest(s, "qos");
        let graphical = same(w.as_str(), "--graphical") || same(w.as_str(), "-g") || same(
            w.as_str(),
            "graphical",
        );
        AgentCommand::Qos { graphical }
    } else {
        AgentCommand::Unknown(c)
    }
}

/// What a line in the command bar asks for.
pub enum Command {
    Remember(String),
    Recall(String),
    Forget(String),
    /// A dream in the given mode.
    Dream(String),
    /// Fresh figures.
    Refresh,
    /// Nothing, but a word on how to write it.
    Usage(String),
    /// A subcommand of the binary, with its time limit in seconds.
    Pass { label: String, args: Vec<String>, secs: u64 },
    Cosmos,
    Help,
    Quit,
    /// A turn of the chat.
    Chat,
}

/// What a [`Command`] says.
pub ghost enum CommandModel {
    Remember(Seq<char>),
    Recall(Seq<char>),
    Forget(Seq<char>),
    Dream(Seq<char>),
    Refresh,
    Usage(Seq<char>),
    Pass { label: Seq<char>, args: Seq<Seq<char>>, secs: u64 },
    Cosmos,
    Help,
    Quit,
    Chat,
}

impl View for Command {
    type V = CommandModel;

    open spec fn view(&self) -> CommandModel {
        match *self {
            Command::Remember(t) => CommandModel::Remember(t@),
            Command::Recall(t) => CommandModel::Recall(t@),
            Command::Forget(t) => CommandModel::Forget(t@),
            Command::Dream(m) => CommandModel::Dream(m@),
            Command::Refresh => CommandModel::Refresh,
            Command::Usage(t) => CommandModel::Usage(t@),
            Command::Pass { label, args, secs } => CommandModel::Pass {
                label: label@,
                args: texts(args@),
                secs,
            },
            Command::Cosmos => CommandModel::Cosmos,
            Command::Help => CommandModel::Help,
            Command::Quit => CommandModel::Quit,
            Command::Chat => CommandModel::Chat,
        }
    }
}

/// Whether `c` is the word `verb`, alone or with more behind a blank.
pub open spec fn is_verb(c: Seq<char>, verb: Seq<char>) -> bool {
    c == verb || starts(c, verb + " "@)
}

/// What stands behind `p` in `c`, without quotes round it.
pub open spec fn unquoted(c: Seq<char>, p: Seq<char>) -> Seq<char> {
    peel(rest_of(c, p), '"')
}

/// `verb "q"`.
pub open spec fn quoted(verb: Seq<char>, q: Seq<char>) -> Seq<char> {
    verb + " \""@ + q + "\""@
}

/// A subcommand whose words are those of the line.
pub open spec fn whole(c: Seq<char>, secs: u64) -> CommandModel {
    CommandModel::Pass { label: c, args: split_words(c), secs }
}

/// A subcommand with one quoted argument.
pub open spec fn with_query(c: Seq<char>, verb: Seq<char>, secs: u64) -> CommandModel {
    let q = unquoted(c, verb + " "@);
    CommandModel::Pass { label: quoted(verb, q), args: seq![verb, q], secs }
}

/// A subcommand that takes in a file, with the word on how to write it.
pub open spec fn with_file(
    c: Seq<char>,
    verb: Seq<char>,
    p: Seq<char>,
    usage: Seq<char>,
) -> CommandModel {
    let r = rest_of(c, p);
    if r.len() == 0 {
        CommandModel::Usage(usage)
    } else {
        CommandModel::Pass {
            label: verb + " "@ + r,
            args: seq![verb] + split_words(r),
            secs: 300,
        }
    }
}

/// The mode of the dream that `c` asks for.
pub open spec fn dream_mode(c: Seq<char>) -> Seq<char> {
    if rest_of(c, "dream"@) == "lite"@ {
        "lite"@
    } else {
        "deep"@
    }
}

/// What the command `c` asks for.
pub open spec fn verb_command(c: Seq<char>) -> CommandModel {
    if starts(c, "remember "@) {
        CommandModel::Remember(unquoted(c, "remember "@))
    } else if starts(c, "recall "@) {
        CommandModel::Recall(unquoted(c, "recall "@))
    } else if starts(c, "forget "@) {
        CommandModel::Forget(rest_of(c, "forget "@))
    } else if is_verb(c, "dream"@) {
        CommandModel::Dream(dream_mode(c))
    } else if c == "status"@ || c == "observe"@ {
        CommandModel::Refresh
    } else if is_verb(c, "hear"@) {
        with_file(c, "hear"@, "hear"@, "Usage: hear <file-or-url> [--secs N]"@)
    } else if starts(c, "ask "@) {
        let q = unquoted(c, "ask "@);
        CommandModel::Pass {
            label: quoted("ask"@, q),
            args: seq!["ask"@, "--no-tools"@, "--quiet-tools"@, q],
            secs: 600,
        }
    } else if starts(c, "search "@) {
        with_query(c, "search"@, 30)
    } else if starts(c, "boost "@) {
        let id = rest_of(c, "boost "@);
        CommandModel::Pass { label: "boost "@ + id, args: seq!["boost"@, id], secs: 30 }
    } else if c == "assess"@ {
        CommandModel::Pass { label: c, args: seq![c], secs: 60 }
    } else if c == "stats"@ {
        CommandModel::Pass { label: c, args: seq![c], secs: 30 }
    } else if c == "cmf"@ {
        CommandModel::Pass { label: c, args: seq![c], secs: 60 }
    } else if is_verb(c, "invariant"@) {
        whole(c, 60)
    } else if starts(c, "voice"@) {
        whole(c, 300)
    } else if is_verb(c, "swarm"@) {
        whole(c, 60)
    } else if starts(c, "relate "@) {
        with_query(c, "relate"@, 60)
    } else if starts(c, "neighbors "@) {
        with_query(c, "neighbors"@, 60)
    } else if is_verb(c, "clusters"@) {
        whole(c, 60)
    } else if c == "topology"@ {
        CommandModel::Pass { label: c, args: seq![c], secs: 60 }
    } else if is_verb(c, "market"@) {
        whole(c, 30)
    } else if starts(c, "see "@) {
        with_file(c, "see"@, "see "@, "Usage: see <file-or-url>"@)
    } else if c == "constellation"@ || c == "cosmos"@ || c == "apps"@ || is_verb(c, "radio"@) {
        CommandModel::Cosmos
    } else if c == "help"@ || c == "?"@ {
        CommandModel::Help
    } else if c == "quit"@ || c == "exit"@ || c == "q"@ {
        CommandModel::Quit
    } else {
        CommandModel::Chat
    }
}

/// What the line `input` asks for in the command bar. A slash before the command
/// is allowed.
pub open spec fn bar_command(input: Seq<char>) -> CommandModel {
    match after(input, "/"@) {
        Some(c) => verb_command(c),
        None => verb_command(input),
    }
}

/// Whether `c` is the word `verb`, alone or with more behind it ([`is_verb`]).
fn has_verb(c: &str, verb: &str) -> (r: bool)
    ensures
        r == is_verb(c@, verb@),
{
    same(c, verb) || starts_with(c, cat2(verb, " ").as_str())
}

/// What stands behind `p` in `c` ([`unquoted`]).
fn unquote(c: &str, p: &str) -> (r: String)
    ensures
        r@ == unquoted(c@, p@),
{
    peeled(rest(c, p).as_str(), '"')
}

/// A subcommand that is one word.
fn pass_word(c: &str, secs: u64) -> (r: Command)
    ensures
        r@ == (CommandModel::Pass { label: c@, args: seq![c@], secs }),
{
    Command::Pass { label: c.to_owned(), args: words1(c), secs }
}

/// A subcommand whose words are those of the line ([`whole`]).
fn pass_whole(c: &str, secs: u64) -> (r: Command)
    ensures
        r@ == whole(c@, secs),
{
    Command::Pass { label: c.to_owned(), args: words(c), secs }
}

/// A subcommand with one quoted argument ([`with_query`]).
fn pass_query(c: &str, verb: &str, secs: u64) -> (r: Command)
    ensures
        r@ == with_query(c@, verb@, secs),
{
    let q = unquote(c, cat2(verb, " ").as_str());
    let args = words2(verb, q.as_str());
    Command::Pass { label: cat4(verb, " \"", q.as_str(), "\""), args, secs }
}

/// A subcommand that takes in a file ([`with_file`]).
fn pass_file(c: &str, verb: &str, p: &str, usage: &str) -> (r: Command)
    ensures
        r@ == with_file(c@, verb@, p@, usage@),
{
    let w = rest(c, p);
    if w.as_str().is_empty() {
        return Command::Usage(usage.to_owned());
    }
    let mut args: Vec<String> = words1(verb);
    let mut more: Vec<String> = words(w.as_str());
    let ghost a = args@;
    let ghost b = more@;
    args.append(&mut more);
    assert(texts(args@) =~= texts(a) + texts(b));
    Command::Pass { label: cat3(verb, " ", w.as_str()), args, secs: 300 }
}

/// What a line asks for in the command bar ([`bar_command`]).
pub fn read_command(input: &str) -> (r: Command)
    ensures
        r@ == bar_command(input@),
{
    match strip_prefix(input, "/") {
        Some(c) => read_verb(c.as_str()),
        None => read_verb(input),
    }
}

/// What a command asks for ([`verb_command`]).
fn read_verb(c: &str) -> (r: Command)
    ensures
        r@ == verb_command(c@),
{
    if starts_with(c, "remember ") {
        Command::Remember(unquote(c, "remember "))
    } else if starts_with(c, "recall ") {
        Command::Recall(unquote(c, "recall "))
    } else if starts_with(c, "forget ") {
        Command::Forget(rest(c, "forget "))
    } else if has_verb(c, "dream") {
        if same(rest(c, "dream").as_str(), "lite") {
            Command::Dream("lite".to_owned())
        } else {
            Command::Dream("deep".to_owned())
        }
    } else if same(c, "status") || same(c, "observe") {
        Command::Refresh
    } else if has_verb(c, "hear") {
        pass_file(c, "hear", "hear", "Usage: hear <file-or-url> [--secs N]")
    } else if starts_with(c, "ask ") {
        let q = unquote(c, "ask ");
        let args = words4("ask", "--no-tools", "--quiet-tools", q.as_str());
        Command::Pass { label: cat4("ask", " \"", q.as_str(), "\""), args, secs: 600 }
    } else if starts_with(c, "search ") {
        pass_query(c, "search", 30)
    } else if starts_with(c, "boost ") {
        let id = rest(c, "boost ");
        let args = words2("boost", id.as_str());
        Command::Pass { label: cat2("boost ", id.as_str()), args, secs: 30 }
    } else if same(c, "assess") {
        pass_word(c, 60)
    } else if same(c, "stats") {
        pass_word(c, 30)
    } else if same(c, "cmf") {
        pass_word(c, 60)
    } else if has_verb(c, "invariant") {
        pass_whole(c, 60)
    } else if starts_with(c, "voice") {
        pass_whole(c, 300)
    } else if has_verb(c, "swarm") {
        pass_whole(c, 60)
    } else if starts_with(c, "relate ") {
        pass_query(c, "relate", 60)
    } else if starts_with(c, "neighbors ") {
        pass_query(c, "neighbors", 60)
    } else if has_verb(c, "clusters") {
        pass_whole(c, 60)
    } else if same(c, "topology") {
        pass_word(c, 60)
    } else if has_verb(c, "market") {
        pass_whole(c, 30)
    } else if starts_with(c, "see ") {
        pass_file(c, "see", "see ", "Usage: see <file-or-url>")
    } else if same(c, "constellation") || same(c, "cosmos") || same(c, "apps") || has_verb(
        c,
        "radio",
    ) {
        Command::Cosmos
    } else if same(c, "help") || same(c, "?") {
        Command::Help
    } else if same(c, "quit") || same(c, "exit") || same(c, "q") {
        Command::Quit
    } else {
        Command::Chat
    }
}

} // verus!
