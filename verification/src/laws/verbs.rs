//! What holds of the lines of the command bar: what each verb asks for.

use vstd::prelude::*;
use crate::action::{job_args, job_secs, ActionModel, JobModel};
use crate::app::{AppModel, Tab};
use crate::command::{bar_command, verb_command, CommandModel};
use crate::laws::words::{
    are_words, is_word, law_peel_undoes_quoting, law_trim_undoes_padding, law_words_undo_blanks,
    lemma_join_front, neat,
};
use crate::text::{after, join, starts, trim, white};

verus! {

/// Whether a text has nothing at its ends that a command takes off: no white space and no
/// quotation mark.
pub open spec fn is_bare(t: Seq<char>) -> bool {
    t.len() > 0 ==> !white(t[0]) && !white(t.last()) && t[0] != '"' && t.last() != '"'
}

/// A text in quotation marks.
pub open spec fn in_quotes(t: Seq<char>) -> Seq<char> {
    seq!['"'] + t + seq!['"']
}

proof fn lemma_starts_at(c: Seq<char>, p: Seq<char>)
    ensures
        starts(c, p) ==> c.len() >= p.len(),
        starts(c, p) && p.len() > 0 ==> c[0] == p[0],
        starts(c, p) && p.len() > 1 ==> c[1] == p[1],
        starts(c, p) && p.len() > 2 ==> c[2] == p[2],
        starts(c, p) && p.len() > 3 ==> c[3] == p[3],
{
    if starts(c, p) {
        let s = c.subrange(0, p.len() as int);
        assert(p.len() > 0 ==> c[0] == s[0]);
        assert(p.len() > 1 ==> c[1] == s[1]);
        assert(p.len() > 2 ==> c[2] == s[2]);
        assert(p.len() > 3 ==> c[3] == s[3]);
    }
}

proof fn lemma_behind(p: Seq<char>, t: Seq<char>)
    ensures
        starts(p + t, p),
        after(p + t, p) == Some(t),
{
    let c = p + t;
    assert(c.subrange(0, p.len() as int) =~= p);
    assert(c.subrange(p.len() as int, c.len() as int) =~= t);
}

proof fn lemma_verbs()
    ensures
        "remember "@.len() == 9 && "remember "@[0] == 'r' && "remember "@[1] == 'e' && "remember "@[2] == 'm' && "remember "@[3] == 'e',
        "recall "@.len() == 7 && "recall "@[0] == 'r' && "recall "@[1] == 'e' && "recall "@[2] == 'c' && "recall "@[3] == 'a',
        "forget "@.len() == 7 && "forget "@[0] == 'f' && "forget "@[1] == 'o' && "forget "@[2] == 'r' && "forget "@[3] == 'g',
        "ask "@.len() == 4 && "ask "@[0] == 'a' && "ask "@[1] == 's' && "ask "@[2] == 'k' && "ask "@[3] == ' ',
        "search "@.len() == 7 && "search "@[0] == 's' && "search "@[1] == 'e' && "search "@[2] == 'a' && "search "@[3] == 'r',
        "boost "@.len() == 6 && "boost "@[0] == 'b' && "boost "@[1] == 'o' && "boost "@[2] == 'o' && "boost "@[3] == 's',
        "relate "@.len() == 7 && "relate "@[0] == 'r' && "relate "@[1] == 'e' && "relate "@[2] == 'l' && "relate "@[3] == 'a',
        "neighbors "@.len() == 10 && "neighbors "@[0] == 'n' && "neighbors "@[1] == 'e' && "neighbors "@[2] == 'i' && "neighbors "@[3] == 'g',
        "see "@.len() == 4 && "see "@[0] == 's' && "see "@[1] == 'e' && "see "@[2] == 'e' && "see "@[3] == ' ',
        "voice"@.len() == 5 && "voice"@[0] == 'v' && "voice"@[1] == 'o' && "voice"@[2] == 'i' && "voice"@[3] == 'c',
        "status"@.len() == 6 && "status"@[0] == 's' && "status"@[1] == 't' && "status"@[2] == 'a' && "status"@[3] == 't',
        "observe"@.len() == 7 && "observe"@[0] == 'o' && "observe"@[1] == 'b' && "observe"@[2] == 's' && "observe"@[3] == 'e',
        "assess"@.len() == 6 && "assess"@[0] == 'a' && "assess"@[1] == 's' && "assess"@[2] == 's' && "assess"@[3] == 'e',
        "stats"@.len() == 5 && "stats"@[0] == 's' && "stats"@[1] == 't' && "stats"@[2] == 'a' && "stats"@[3] == 't',
        "cmf"@.len() == 3 && "cmf"@[0] == 'c' && "cmf"@[1] == 'm' && "cmf"@[2] == 'f',
        "topology"@.len() == 8 && "topology"@[0] == 't' && "topology"@[1] == 'o' && "topology"@[2] == 'p' && "topology"@[3] == 'o',
        "constellation"@.len() == 13 && "constellation"@[0] == 'c' && "constellation"@[1] == 'o' && "constellation"@[2] == 'n' && "constellation"@[3] == 's',
        "cosmos"@.len() == 6 && "cosmos"@[0] == 'c' && "cosmos"@[1] == 'o' && "cosmos"@[2] == 's' && "cosmos"@[3] == 'm',
        "apps"@.len() == 4 && "apps"@[0] == 'a' && "apps"@[1] == 'p' && "apps"@[2] == 'p' && "apps"@[3] == 's',
        "help"@.len() == 4 && "help"@[0] == 'h' && "help"@[1] == 'e' && "help"@[2] == 'l' && "help"@[3] == 'p',
        "?"@.len() == 1 && "?"@[0] == '?',
        "quit"@.len() == 4 && "quit"@[0] == 'q' && "quit"@[1] == 'u' && "quit"@[2] == 'i' && "quit"@[3] == 't',
        "exit"@.len() == 4 && "exit"@[0] == 'e' && "exit"@[1] == 'x' && "exit"@[2] == 'i' && "exit"@[3] == 't',
        "q"@.len() == 1 && "q"@[0] == 'q',
        "dream"@.len() == 5 && "dream"@[0] == 'd' && "dream"@[1] == 'r' && "dream"@[2] == 'e' && "dream"@[3] == 'a',
        "hear"@.len() == 4 && "hear"@[0] == 'h' && "hear"@[1] == 'e' && "hear"@[2] == 'a' && "hear"@[3] == 'r',
        "invariant"@.len() == 9 && "invariant"@[0] == 'i' && "invariant"@[1] == 'n' && "invariant"@[2] == 'v' && "invariant"@[3] == 'a',
        "swarm"@.len() == 5 && "swarm"@[0] == 's' && "swarm"@[1] == 'w' && "swarm"@[2] == 'a' && "swarm"@[3] == 'r',
        "clusters"@.len() == 8 && "clusters"@[0] == 'c' && "clusters"@[1] == 'l' && "clusters"@[2] == 'u' && "clusters"@[3] == 's',
        "market"@.len() == 6 && "market"@[0] == 'm' && "market"@[1] == 'a' && "market"@[2] == 'r' && "market"@[3] == 'k',
        "radio"@.len() == 5 && "radio"@[0] == 'r' && "radio"@[1] == 'a' && "radio"@[2] == 'd' && "radio"@[3] == 'i',
        " "@.len() == 1 && " "@[0] == ' ',
{
    reveal_strlit("remember ");
    reveal_strlit("recall ");
    reveal_strlit("forget ");
    reveal_strlit("ask ");
    reveal_strlit("search ");
    reveal_strlit("boost ");
    reveal_strlit("relate ");
    reveal_strlit("neighbors ");
    reveal_strlit("see ");
    reveal_strlit("voice");
    reveal_strlit("status");
    reveal_strlit("observe");
    reveal_strlit("assess");
    reveal_strlit("stats");
    reveal_strlit("cmf");
    reveal_strlit("topology");
    reveal_strlit("constellation");
    reveal_strlit("cosmos");
    reveal_strlit("apps");
    reveal_strlit("help");
    reveal_strlit("?");
    reveal_strlit("quit");
    reveal_strlit("exit");
    reveal_strlit("q");
    reveal_strlit("dream");
    reveal_strlit("hear");
    reveal_strlit("invariant");
    reveal_strlit("swarm");
    reveal_strlit("clusters");
    reveal_strlit("market");
    reveal_strlit("radio");
    reveal_strlit(" ");
}

/// The first letters tell the verbs apart.
proof fn lemma_verb_of(c: Seq<char>)
    ensures
        starts(c, "remember "@) ==> c.len() >= 9 && c[0] == 'r' && c[1] == 'e' && c[2] == 'm' && c[3] == 'e',
        starts(c, "recall "@) ==> c.len() >= 7 && c[0] == 'r' && c[1] == 'e' && c[2] == 'c' && c[3] == 'a',
        starts(c, "forget "@) ==> c.len() >= 7 && c[0] == 'f' && c[1] == 'o' && c[2] == 'r' && c[3] == 'g',
        starts(c, "ask "@) ==> c.len() >= 4 && c[0] == 'a' && c[1] == 's' && c[2] == 'k' && c[3] == ' ',
        starts(c, "search "@) ==> c.len() >= 7 && c[0] == 's' && c[1] == 'e' && c[2] == 'a' && c[3] == 'r',
        starts(c, "boost "@) ==> c.len() >= 6 && c[0] == 'b' && c[1] == 'o' && c[2] == 'o' && c[3] == 's',
        starts(c, "relate "@) ==> c.len() >= 7 && c[0] == 'r' && c[1] == 'e' && c[2] == 'l' && c[3] == 'a',
        starts(c, "neighbors "@) ==> c.len() >= 10 && c[0] == 'n' && c[1] == 'e' && c[2] == 'i' && c[3] == 'g',
        starts(c, "see "@) ==> c.len() >= 4 && c[0] == 's' && c[1] == 'e' && c[2] == 'e' && c[3] == ' ',
        starts(c, "voice"@) ==> c.len() >= 5 && c[0] == 'v' && c[1] == 'o' && c[2] == 'i' && c[3] == 'c',
        c == "status"@ ==> c.len() == 6 && c[0] == 's' && c[1] == 't' && c[2] == 'a' && c[3] == 't',
        c == "observe"@ ==> c.len() == 7 && c[0] == 'o' && c[1] == 'b' && c[2] == 's' && c[3] == 'e',
        c == "assess"@ ==> c.len() == 6 && c[0] == 'a' && c[1] == 's' && c[2] == 's' && c[3] == 'e',
        c == "stats"@ ==> c.len() == 5 && c[0] == 's' && c[1] == 't' && c[2] == 'a' && c[3] == 't',
        c == "cmf"@ ==> c.len() == 3 && c[0] == 'c' && c[1] == 'm' && c[2] == 'f',
        c == "topology"@ ==> c.len() == 8 && c[0] == 't' && c[1] == 'o' && c[2] == 'p' && c[3] == 'o',
        c == "constellation"@ ==> c.len() == 13 && c[0] == 'c' && c[1] == 'o' && c[2] == 'n' && c[3] == 's',
        c == "cosmos"@ ==> c.len() == 6 && c[0] == 'c' && c[1] == 'o' && c[2] == 's' && c[3] == 'm',
        c == "apps"@ ==> c.len() == 4 && c[0] == 'a' && c[1] == 'p' && c[2] == 'p' && c[3] == 's',
        c == "help"@ ==> c.len() == 4 && c[0] == 'h' && c[1] == 'e' && c[2] == 'l' && c[3] == 'p',
        c == "?"@ ==> c.len() == 1 && c[0] == '?',
        c == "quit"@ ==> c.len() == 4 && c[0] == 'q' && c[1] == 'u' && c[2] == 'i' && c[3] == 't',
        c == "exit"@ ==> c.len() == 4 && c[0] == 'e' && c[1] == 'x' && c[2] == 'i' && c[3] == 't',
        c == "q"@ ==> c.len() == 1 && c[0] == 'q',
        c == "dream"@ || starts(c, "dream"@ + " "@) ==> c.len() >= 5 && c[0] == 'd' && c[1] == 'r' && c[2] == 'e' && c[3] == 'a',
        c == "hear"@ || starts(c, "hear"@ + " "@) ==> c.len() >= 4 && c[0] == 'h' && c[1] == 'e' && c[2] == 'a' && c[3] == 'r',
        c == "invariant"@ || starts(c, "invariant"@ + " "@) ==> c.len() >= 9 && c[0] == 'i' && c[1] == 'n' && c[2] == 'v' && c[3] == 'a',
        c == "swarm"@ || starts(c, "swarm"@ + " "@) ==> c.len() >= 5 && c[0] == 's' && c[1] == 'w' && c[2] == 'a' && c[3] == 'r',
        c == "clusters"@ || starts(c, "clusters"@ + " "@) ==> c.len() >= 8 && c[0] == 'c' && c[1] == 'l' && c[2] == 'u' && c[3] == 's',
        c == "market"@ || starts(c, "market"@ + " "@) ==> c.len() >= 6 && c[0] == 'm' && c[1] == 'a' && c[2] == 'r' && c[3] == 'k',
        c == "radio"@ || starts(c, "radio"@ + " "@) ==> c.len() >= 5 && c[0] == 'r' && c[1] == 'a' && c[2] == 'd' && c[3] == 'i',
{
    lemma_verbs();
    lemma_starts_at(c, "remember "@);
    lemma_starts_at(c, "recall "@);
    lemma_starts_at(c, "forget "@);
    lemma_starts_at(c, "ask "@);
    lemma_starts_at(c, "search "@);
    lemma_starts_at(c, "boost "@);
    lemma_starts_at(c, "relate "@);
    lemma_starts_at(c, "neighbors "@);
    lemma_starts_at(c, "see "@);
    lemma_starts_at(c, "voice"@);
    lemma_starts_at(c, "dream"@ + " "@);
    lemma_starts_at(c, "hear"@ + " "@);
    lemma_starts_at(c, "invariant"@ + " "@);
    lemma_starts_at(c, "swarm"@ + " "@);
    lemma_starts_at(c, "clusters"@ + " "@);
    lemma_starts_at(c, "market"@ + " "@);
    lemma_starts_at(c, "radio"@ + " "@);
}

/// A line without a slash before it is read as the command that it is, and one with a slash
/// as what stands behind it.
proof fn lemma_slash(c: Seq<char>)
    ensures
        c.len() > 0 && c[0] != '/' ==> bar_command(c) == verb_command(c),
        bar_command("/"@ + c) == verb_command(c),
{
    reveal_strlit("/");
    lemma_starts_at(c, "/"@);
    lemma_behind("/"@, c);
}

proof fn lemma_bare(t: Seq<char>)
    requires
        is_bare(t),
    ensures
        trim(t) == t,
        crate::text::peel(trim(t), '"') == t,
        crate::text::peel(trim(in_quotes(t)), '"') == t,
{
    law_trim_undoes_padding(Seq::empty(), t, Seq::empty());
    law_trim_undoes_padding(Seq::empty(), in_quotes(t), Seq::empty());
    law_peel_undoes_quoting(t, '"');
}

/// `remember t` and `remember "t"` ask to remember `t`, whole however long it is, with or
/// without a slash before it.
pub proof fn law_remember_takes_the_whole_text(t: Seq<char>)
    requires
        is_bare(t),
    ensures
        bar_command("remember "@ + t) == CommandModel::Remember(t),
        bar_command("remember "@ + in_quotes(t)) == CommandModel::Remember(t),
        bar_command("/"@ + ("remember "@ + t)) == CommandModel::Remember(t),
        bar_command("/"@ + ("remember "@ + in_quotes(t))) == CommandModel::Remember(t),
{
    lemma_verbs();
    lemma_bare(t);
    lemma_behind("remember "@, t);
    lemma_behind("remember "@, in_quotes(t));
    lemma_slash("remember "@ + t);
    lemma_slash("remember "@ + in_quotes(t));
    lemma_verb_of("remember "@ + t);
    lemma_verb_of("remember "@ + in_quotes(t));
    assert("remember"@ + " "@ =~= "remember "@) by {
        reveal_strlit("remember");
        reveal_strlit(" ");
        reveal_strlit("remember ");
    }
}

/// `recall t` and `recall "t"` ask to recall `t`, whole however long it is, with or without a
/// slash before it.
pub proof fn law_recall_takes_the_whole_text(t: Seq<char>)
    requires
        is_bare(t),
    ensures
        bar_command("recall "@ + t) == CommandModel::Recall(t),
        bar_command("recall "@ + in_quotes(t)) == CommandModel::Recall(t),
        bar_command("/"@ + ("recall "@ + t)) == CommandModel::Recall(t),
        bar_command("/"@ + ("recall "@ + in_quotes(t))) == CommandModel::Recall(t),
{
    lemma_verbs();
    lemma_bare(t);
    lemma_behind("recall "@, t);
    lemma_behind("recall "@, in_quotes(t));
    lemma_slash("recall "@ + t);
    lemma_slash("recall "@ + in_quotes(t));
    lemma_verb_of("recall "@ + t);
    lemma_verb_of("recall "@ + in_quotes(t));
    assert("recall"@ + " "@ =~= "recall "@) by {
        reveal_strlit("recall");
        reveal_strlit(" ");
        reveal_strlit("recall ");
    }
}

/// `search t` and `search "t"` search for `t`, whole, for at most half a minute.
pub proof fn law_search_takes_the_whole_text(t: Seq<char>)
    requires
        is_bare(t),
    ensures
        bar_command("search "@ + t) == (CommandModel::Pass {
            label: "search"@ + " \""@ + t + "\""@,
            args: seq!["search"@, t],
            secs: 30,
        }),
        bar_command("search "@ + in_quotes(t)) == (CommandModel::Pass {
            label: "search"@ + " \""@ + t + "\""@,
            args: seq!["search"@, t],
            secs: 30,
        }),
        bar_command("/"@ + ("search "@ + t)) == (CommandModel::Pass {
            label: "search"@ + " \""@ + t + "\""@,
            args: seq!["search"@, t],
            secs: 30,
        }),
        bar_command("/"@ + ("search "@ + in_quotes(t))) == (CommandModel::Pass {
            label: "search"@ + " \""@ + t + "\""@,
            args: seq!["search"@, t],
            secs: 30,
        }),
{
    lemma_verbs();
    lemma_bare(t);
    lemma_behind("search "@, t);
    lemma_behind("search "@, in_quotes(t));
    lemma_slash("search "@ + t);
    lemma_slash("search "@ + in_quotes(t));
    lemma_verb_of("search "@ + t);
    lemma_verb_of("search "@ + in_quotes(t));
    assert("search"@ + " "@ =~= "search "@) by {
        reveal_strlit("search");
        reveal_strlit(" ");
        reveal_strlit("search ");
    }
}

/// `relate t` and `relate "t"` relate `t`, whole, for at most a minute.
pub proof fn law_relate_takes_the_whole_text(t: Seq<char>)
    requires
        is_bare(t),
    ensures
        bar_command("relate "@ + t) == (CommandModel::Pass {
            label: "relate"@ + " \""@ + t + "\""@,
            args: seq!["relate"@, t],
            secs: 60,
        }),
        bar_command("relate "@ + in_quotes(t)) == (CommandModel::Pass {
            label: "relate"@ + " \""@ + t + "\""@,
            args: seq!["relate"@, t],
            secs: 60,
        }),
        bar_command("/"@ + ("relate "@ + t)) == (CommandModel::Pass {
            label: "relate"@ + " \""@ + t + "\""@,
            args: seq!["relate"@, t],
            secs: 60,
        }),
        bar_command("/"@ + ("relate "@ + in_quotes(t))) == (CommandModel::Pass {
            label: "relate"@ + " \""@ + t + "\""@,
            args: seq!["relate"@, t],
            secs: 60,
        }),
{
    lemma_verbs();
    lemma_bare(t);
    lemma_behind("relate "@, t);
    lemma_behind("relate "@, in_quotes(t));
    lemma_slash("relate "@ + t);
    lemma_slash("relate "@ + in_quotes(t));
    lemma_verb_of("relate "@ + t);
    lemma_verb_of("relate "@ + in_quotes(t));
    assert("relate"@ + " "@ =~= "relate "@) by {
        reveal_strlit("relate");
        reveal_strlit(" ");
        reveal_strlit("relate ");
    }
}

/// `neighbors t` and `neighbors "t"` ask for what is near `t`, whole, for at most a minute.
pub proof fn law_neighbors_takes_the_whole_text(t: Seq<char>)
    requires
        is_bare(t),
    ensures
        bar_command("neighbors "@ + t) == (CommandModel::Pass {
            label: "neighbors"@ + " \""@ + t + "\""@,
            args: seq!["neighbors"@, t],
            secs: 60,
        }),
        bar_command("neighbors "@ + in_quotes(t)) == (CommandModel::Pass {
            label: "neighbors"@ + " \""@ + t + "\""@,
            args: seq!["neighbors"@, t],
            secs: 60,
        }),
        bar_command("/"@ + ("neighbors "@ + t)) == (CommandModel::Pass {
            label: "neighbors"@ + " \""@ + t + "\""@,
            args: seq!["neighbors"@, t],
            secs: 60,
        }),
        bar_command("/"@ + ("neighbors "@ + in_quotes(t))) == (CommandModel::Pass {
            label: "neighbors"@ + " \""@ + t + "\""@,
            args: seq!["neighbors"@, t],
            secs: 60,
        }),
{
    lemma_verbs();
    lemma_bare(t);
    lemma_behind("neighbors "@, t);
    lemma_behind("neighbors "@, in_quotes(t));
    lemma_slash("neighbors "@ + t);
    lemma_slash("neighbors "@ + in_quotes(t));
    lemma_verb_of("neighbors "@ + t);
    lemma_verb_of("neighbors "@ + in_quotes(t));
    assert("neighbors"@ + " "@ =~= "neighbors "@) by {
        reveal_strlit("neighbors");
        reveal_strlit(" ");
        reveal_strlit("neighbors ");
    }
}

/// `ask t` and `ask "t"` ask `t`, whole, without tools, for at most ten minutes.
pub proof fn law_ask_takes_the_whole_text(t: Seq<char>)
    requires
        is_bare(t),
    ensures
        bar_command("ask "@ + t) == (CommandModel::Pass {
            label: "ask"@ + " \""@ + t + "\""@,
            args: seq!["ask"@, "--no-tools"@, "--quiet-tools"@, t],
            secs: 600,
        }),
        bar_command("ask "@ + in_quotes(t)) == (CommandModel::Pass {
            label: "ask"@ + " \""@ + t + "\""@,
            args: seq!["ask"@, "--no-tools"@, "--quiet-tools"@, t],
            secs: 600,
        }),
        bar_command("/"@ + ("ask "@ + t)) == (CommandModel::Pass {
            label: "ask"@ + " \""@ + t + "\""@,
            args: seq!["ask"@, "--no-tools"@, "--quiet-tools"@, t],
            secs: 600,
        }),
        bar_command("/"@ + ("ask "@ + in_quotes(t))) == (CommandModel::Pass {
            label: "ask"@ + " \""@ + t + "\""@,
            args: seq!["ask"@, "--no-tools"@, "--quiet-tools"@, t],
            secs: 600,
        }),
{
    lemma_verbs();
    lemma_bare(t);
    lemma_behind("ask "@, t);
    lemma_behind("ask "@, in_quotes(t));
    lemma_slash("ask "@ + t);
    lemma_slash("ask "@ + in_quotes(t));
    lemma_verb_of("ask "@ + t);
    lemma_verb_of("ask "@ + in_quotes(t));
    assert("ask"@ + " "@ =~= "ask "@) by {
        reveal_strlit("ask");
        reveal_strlit(" ");
        reveal_strlit("ask ");
    }
}

/// `forget t` asks to forget `t`, as it stands.
pub proof fn law_forget_takes_the_whole_text(t: Seq<char>)
    requires
        neat(t),
    ensures
        bar_command("forget "@ + t) == CommandModel::Forget(t),
        bar_command("/"@ + ("forget "@ + t)) == CommandModel::Forget(t),
{
    lemma_verbs();
    law_trim_undoes_padding(Seq::empty(), t, Seq::empty());
    lemma_behind("forget "@, t);
    lemma_slash("forget "@ + t);
    lemma_verb_of("forget "@ + t);
}

/// `boost t` boosts `t`, as it stands, for at most half a minute.
pub proof fn law_boost_takes_the_whole_text(t: Seq<char>)
    requires
        neat(t),
    ensures
        bar_command("boost "@ + t) == (CommandModel::Pass {
            label: "boost "@ + t,
            args: seq!["boost"@, t],
            secs: 30,
        }),
        bar_command("/"@ + ("boost "@ + t)) == (CommandModel::Pass {
            label: "boost "@ + t,
            args: seq!["boost"@, t],
            secs: 30,
        }),
{
    lemma_verbs();
    law_trim_undoes_padding(Seq::empty(), t, Seq::empty());
    lemma_behind("boost "@, t);
    lemma_slash("boost "@ + t);
    lemma_verb_of("boost "@ + t);
}

proof fn lemma_joined(w: Seq<char>, ws: Seq<Seq<char>>)
    requires
        is_word(w),
        are_words(ws),
    ensures
        crate::text::split_words(join(seq![w] + ws, " "@)) == seq![w] + ws,
        ws.len() > 0 ==> join(seq![w] + ws, " "@) == w + " "@ + join(ws, " "@),
        ws.len() == 0 ==> join(seq![w] + ws, " "@) == w,
        crate::text::split_words(join(ws, " "@)) == ws,
        neat(join(ws, " "@)),
        ws.len() > 0 ==> join(ws, " "@).len() > 0,
{
    let all = seq![w] + ws;
    assert forall|i: int| 0 <= i < all.len() implies is_word(#[trigger] all[i]) by {
        if i > 0 {
            assert(all[i] == ws[i - 1]);
        }
    }
    law_words_undo_blanks(all);
    law_words_undo_blanks(ws);
    assert(all.skip(1) =~= ws);
    if ws.len() > 0 {
        lemma_join_front(all, " "@);
    }
    lemma_joined_is_neat(ws);
}

proof fn lemma_joined_is_neat(ws: Seq<Seq<char>>)
    requires
        are_words(ws),
    ensures
        neat(join(ws, " "@)),
        ws.len() > 0 ==> join(ws, " "@).len() > 0 && join(ws, " "@)[0] == ws[0][0],
    decreases ws.len(),
{
    if ws.len() == 1 {
        assert(is_word(ws[0]));
    } else if ws.len() > 1 {
        let front = ws.drop_last();
        assert forall|i: int| 0 <= i < front.len() implies is_word(#[trigger] front[i]) by {
            assert(front[i] == ws[i]);
        }
        lemma_joined_is_neat(front);
        assert(is_word(ws.last()));
        assert(is_word(ws[0]));
        let s = join(ws, " "@);
        assert(s.last() == ws.last().last());
        assert(s[0] == join(front, " "@)[0]);
    }
}

/// `swarm` with any words passes all of them on, in their order.
pub proof fn law_swarm_passes_its_words_on(ws: Seq<Seq<char>>)
    requires
        are_words(ws),
    ensures
        ({
            let c = join(seq!["swarm"@] + ws, " "@);
            let r = CommandModel::Pass { label: c, args: seq!["swarm"@] + ws, secs: 60 };
            bar_command(c) == r && bar_command("/"@ + c) == r
        }),
{
    lemma_verbs();
    reveal_strlit("swarm");
    assert(is_word("swarm"@));
    lemma_joined("swarm"@, ws);
    let c = join(seq!["swarm"@] + ws, " "@);
    if ws.len() > 0 {
        lemma_behind("swarm"@ + " "@, join(ws, " "@));
        assert(c =~= "swarm"@ + (" "@ + join(ws, " "@)));
        lemma_behind("swarm"@, " "@ + join(ws, " "@));
    } else {
        assert(c.subrange(0, c.len() as int) =~= c);
    }
    lemma_slash(c);
    lemma_verb_of(c);
}

/// `invariant` with any words passes all of them on, in their order.
pub proof fn law_invariant_passes_its_words_on(ws: Seq<Seq<char>>)
    requires
        are_words(ws),
    ensures
        ({
            let c = join(seq!["invariant"@] + ws, " "@);
            let r = CommandModel::Pass { label: c, args: seq!["invariant"@] + ws, secs: 60 };
            bar_command(c) == r && bar_command("/"@ + c) == r
        }),
{
    lemma_verbs();
    reveal_strlit("invariant");
    assert(is_word("invariant"@));
    lemma_joined("invariant"@, ws);
    let c = join(seq!["invariant"@] + ws, " "@);
    if ws.len() > 0 {
        lemma_behind("invariant"@ + " "@, join(ws, " "@));
        assert(c =~= "invariant"@ + (" "@ + join(ws, " "@)));
        lemma_behind("invariant"@, " "@ + join(ws, " "@));
    } else {
        assert(c.subrange(0, c.len() as int) =~= c);
    }
    lemma_slash(c);
    lemma_verb_of(c);
}

/// `clusters` with any words passes all of them on, in their order.
pub proof fn law_clusters_passes_its_words_on(ws: Seq<Seq<char>>)
    requires
        are_words(ws),
    ensures
        ({
            let c = join(seq!["clusters"@] + ws, " "@);
            let r = CommandModel::Pass { label: c, args: seq!["clusters"@] + ws, secs: 60 };
            bar_command(c) == r && bar_command("/"@ + c) == r
        }),
{
    lemma_verbs();
    reveal_strlit("clusters");
    assert(is_word("clusters"@));
    lemma_joined("clusters"@, ws);
    let c = join(seq!["clusters"@] + ws, " "@);
    if ws.len() > 0 {
        lemma_behind("clusters"@ + " "@, join(ws, " "@));
        assert(c =~= "clusters"@ + (" "@ + join(ws, " "@)));
        lemma_behind("clusters"@, " "@ + join(ws, " "@));
    } else {
        assert(c.subrange(0, c.len() as int) =~= c);
    }
    lemma_slash(c);
    lemma_verb_of(c);
}

/// `market` with any words passes all of them on, in their order.
pub proof fn law_market_passes_its_words_on(ws: Seq<Seq<char>>)
    requires
        are_words(ws),
    ensures
        ({
            let c = join(seq!["market"@] + ws, " "@);
            let r = CommandModel::Pass { label: c, args: seq!["market"@] + ws, secs: 30 };
            bar_command(c) == r && bar_command("/"@ + c) == r
        }),
{
    lemma_verbs();
    reveal_strlit("market");
    assert(is_word("market"@));
    lemma_joined("market"@, ws);
    let c = join(seq!["market"@] + ws, " "@);
    if ws.len() > 0 {
        lemma_behind("market"@ + " "@, join(ws, " "@));
        assert(c =~= "market"@ + (" "@ + join(ws, " "@)));
        lemma_behind("market"@, " "@ + join(ws, " "@));
    } else {
        assert(c.subrange(0, c.len() as int) =~= c);
    }
    lemma_slash(c);
    lemma_verb_of(c);
}

/// A line that begins with `voice` passes all its words on, in their order, for at most five
/// minutes.
pub proof fn law_voice_passes_its_words_on(w: Seq<char>, ws: Seq<Seq<char>>)
    requires
        is_word(w),
        starts(w, "voice"@),
        are_words(ws),
    ensures
        ({
            let c = join(seq![w] + ws, " "@);
            let r = CommandModel::Pass { label: c, args: seq![w] + ws, secs: 300 };
            bar_command(c) == r && bar_command("/"@ + c) == r
        }),
{
    lemma_verbs();
    reveal_strlit("voice");
    lemma_joined(w, ws);
    let c = join(seq![w] + ws, " "@);
    lemma_starts_at(w, "voice"@);
    if ws.len() > 0 {
        assert(c =~= w + (" "@ + join(ws, " "@)));
    }
    assert(c.subrange(0, 5) =~= w.subrange(0, 5));
    lemma_slash(c);
    lemma_verb_of(c);
}

/// `hear` passes on all the words behind it, in their order, for at most five minutes;
/// without any it says how it is used.
pub proof fn law_hear_passes_its_words_on(ws: Seq<Seq<char>>)
    requires
        are_words(ws),
        ws.len() > 0,
    ensures
        bar_command("hear "@ + join(ws, " "@)) == (CommandModel::Pass {
            label: "hear "@ + join(ws, " "@),
            args: seq!["hear"@] + ws,
            secs: 300,
        }),
        bar_command("hear "@) == CommandModel::Usage("Usage: hear <file-or-url> [--secs N]"@),
        bar_command("hear"@) == CommandModel::Usage("Usage: hear <file-or-url> [--secs N]"@),
{
    lemma_verbs();
    reveal_strlit("hear ");
    reveal_strlit("hear");
    assert(is_word("hear"@));
    lemma_joined("hear"@, ws);
    let t = join(ws, " "@);
    let c = "hear "@ + t;
    assert("hear"@ + " "@ =~= "hear "@);
    assert("hear "@ + Seq::<char>::empty() =~= "hear "@);
    assert("hear"@ + Seq::<char>::empty() =~= "hear"@);
    assert(c =~= "hear"@ + (" "@ + t));
    law_trim_undoes_padding(" "@, t, Seq::empty());
    assert(" "@ + t + Seq::<char>::empty() =~= " "@ + t);
    law_trim_undoes_padding(" "@, Seq::empty(), Seq::empty());
    assert(" "@ + Seq::<char>::empty() + Seq::<char>::empty() =~= " "@);
    law_trim_undoes_padding(Seq::empty(), t, Seq::empty());
    law_trim_undoes_padding(Seq::empty(), Seq::empty(), Seq::empty());
    assert(Seq::<char>::empty() + Seq::<char>::empty() + Seq::<char>::empty() =~= Seq::empty());
    lemma_behind("hear "@, t);
    lemma_behind("hear "@, Seq::empty());
    lemma_behind("hear"@, " "@ + t);
    lemma_behind("hear"@, " "@);
    lemma_behind("hear"@, Seq::empty());
    lemma_slash(c);
    lemma_slash("hear "@);
    lemma_slash("hear"@);
    lemma_verb_of(c);
    lemma_verb_of("hear "@);
    lemma_verb_of("hear"@);
    assert("hear"@ + " "@ + t =~= c);
}

/// `see` passes on all the words behind it, in their order, for at most five minutes;
/// without any it says how it is used.
pub proof fn law_see_passes_its_words_on(ws: Seq<Seq<char>>)
    requires
        are_words(ws),
        ws.len() > 0,
    ensures
        bar_command("see "@ + join(ws, " "@)) == (CommandModel::Pass {
            label: "see "@ + join(ws, " "@),
            args: seq!["see"@] + ws,
            secs: 300,
        }),
        bar_command("see "@) == CommandModel::Usage("Usage: see <file-or-url>"@),
{
    lemma_verbs();
    reveal_strlit("see ");
    reveal_strlit("see");
    assert(is_word("see"@));
    lemma_joined("see"@, ws);
    let t = join(ws, " "@);
    let c = "see "@ + t;
    assert("see"@ + " "@ =~= "see "@);
    assert("see "@ + Seq::<char>::empty() =~= "see "@);
    assert("see"@ + Seq::<char>::empty() =~= "see"@);
    assert(c =~= "see"@ + (" "@ + t));
    law_trim_undoes_padding(" "@, t, Seq::empty());
    assert(" "@ + t + Seq::<char>::empty() =~= " "@ + t);
    law_trim_undoes_padding(" "@, Seq::empty(), Seq::empty());
    assert(" "@ + Seq::<char>::empty() + Seq::<char>::empty() =~= " "@);
    law_trim_undoes_padding(Seq::empty(), t, Seq::empty());
    law_trim_undoes_padding(Seq::empty(), Seq::empty(), Seq::empty());
    assert(Seq::<char>::empty() + Seq::<char>::empty() + Seq::<char>::empty() =~= Seq::empty());
    lemma_behind("see "@, t);
    lemma_behind("see "@, Seq::empty());
    lemma_behind("see"@, " "@ + t);
    lemma_behind("see"@, " "@);
    lemma_behind("see"@, Seq::empty());
    lemma_slash(c);
    lemma_slash("see "@);
    lemma_slash("see"@);
    lemma_verb_of(c);
    lemma_verb_of("see "@);
    lemma_verb_of("see"@);
    assert("see"@ + " "@ + t =~= c);
}

/// `dream` dreams deep, whatever stands behind it; only `dream lite` dreams lightly.
pub proof fn law_dream_is_deep_unless_asked(t: Seq<char>)
    requires
        neat(t),
    ensures
        bar_command("dream"@) == CommandModel::Dream("deep"@),
        t != "lite"@ ==> bar_command("dream "@ + t) == CommandModel::Dream("deep"@),
        bar_command("dream "@ + "lite"@) == CommandModel::Dream("lite"@),
{
    lemma_verbs();
    reveal_strlit("dream ");
    reveal_strlit("dream");
    reveal_strlit("lite");
    assert("dream"@ + " "@ =~= "dream "@);
    assert("dream "@ + t =~= "dream"@ + (" "@ + t));
    assert("dream "@ + "lite"@ =~= "dream"@ + (" "@ + "lite"@));
    assert("dream"@ + Seq::<char>::empty() =~= "dream"@);
    law_trim_undoes_padding(" "@, t, Seq::empty());
    assert(" "@ + t + Seq::<char>::empty() =~= " "@ + t);
    law_trim_undoes_padding(" "@, "lite"@, Seq::empty());
    assert(" "@ + "lite"@ + Seq::<char>::empty() =~= " "@ + "lite"@);
    law_trim_undoes_padding(Seq::empty(), Seq::empty(), Seq::empty());
    assert(Seq::<char>::empty() + Seq::<char>::empty() + Seq::<char>::empty() =~= Seq::empty());
    lemma_behind("dream "@, t);
    lemma_behind("dream "@, "lite"@);
    lemma_behind("dream"@, " "@ + t);
    lemma_behind("dream"@, " "@ + "lite"@);
    lemma_behind("dream"@, Seq::empty());
    lemma_slash("dream "@ + t);
    lemma_slash("dream "@ + "lite"@);
    lemma_slash("dream"@);
    lemma_verb_of("dream "@ + t);
    lemma_verb_of("dream "@ + "lite"@);
    lemma_verb_of("dream"@);
    assert("lite"@.len() == 4);
    assert("deep"@ != "lite"@) by {
        reveal_strlit("deep");
        assert("deep"@[0] != "lite"@[0]);
    }
}

/// The verbs that are one word, with or without a slash before them.
pub proof fn law_single_words()
    ensures
        bar_command("status"@) == CommandModel::Refresh,
        bar_command("/"@ + "status"@) == CommandModel::Refresh,
        bar_command("observe"@) == CommandModel::Refresh,
        bar_command("/"@ + "observe"@) == CommandModel::Refresh,
        bar_command("constellation"@) == CommandModel::Cosmos,
        bar_command("/"@ + "constellation"@) == CommandModel::Cosmos,
        bar_command("cosmos"@) == CommandModel::Cosmos,
        bar_command("/"@ + "cosmos"@) == CommandModel::Cosmos,
        bar_command("apps"@) == CommandModel::Cosmos,
        bar_command("/"@ + "apps"@) == CommandModel::Cosmos,
        bar_command("radio"@) == CommandModel::Cosmos,
        bar_command("/"@ + "radio"@) == CommandModel::Cosmos,
        bar_command("help"@) == CommandModel::Help,
        bar_command("/"@ + "help"@) == CommandModel::Help,
        bar_command("?"@) == CommandModel::Help,
        bar_command("/"@ + "?"@) == CommandModel::Help,
        bar_command("quit"@) == CommandModel::Quit,
        bar_command("/"@ + "quit"@) == CommandModel::Quit,
        bar_command("exit"@) == CommandModel::Quit,
        bar_command("/"@ + "exit"@) == CommandModel::Quit,
        bar_command("q"@) == CommandModel::Quit,
        bar_command("/"@ + "q"@) == CommandModel::Quit,
        bar_command("assess"@) == (CommandModel::Pass {
            label: "assess"@,
            args: seq!["assess"@],
            secs: 60,
        }),
        bar_command("/"@ + "assess"@) == (CommandModel::Pass {
            label: "assess"@,
            args: seq!["assess"@],
            secs: 60,
        }),
        bar_command("stats"@) == (CommandModel::Pass {
            label: "stats"@,
            args: seq!["stats"@],
            secs: 30,
        }),
        bar_command("/"@ + "stats"@) == (CommandModel::Pass {
            label: "stats"@,
            args: seq!["stats"@],
            secs: 30,
        }),
        bar_command("cmf"@) == (CommandModel::Pass {
            label: "cmf"@,
            args: seq!["cmf"@],
            secs: 60,
        }),
        bar_command("/"@ + "cmf"@) == (CommandModel::Pass {
            label: "cmf"@,
            args: seq!["cmf"@],
            secs: 60,
        }),
        bar_command("topology"@) == (CommandModel::Pass {
            label: "topology"@,
            args: seq!["topology"@],
            secs: 60,
        }),
        bar_command("/"@ + "topology"@) == (CommandModel::Pass {
            label: "topology"@,
            args: seq!["topology"@],
            secs: 60,
        }),
{
    lemma_verbs();
    lemma_slash("status"@);
    lemma_verb_of("status"@);
    lemma_slash("observe"@);
    lemma_verb_of("observe"@);
    lemma_slash("constellation"@);
    lemma_verb_of("constellation"@);
    lemma_slash("cosmos"@);
    lemma_verb_of("cosmos"@);
    lemma_slash("apps"@);
    lemma_verb_of("apps"@);
    lemma_slash("radio"@);
    lemma_verb_of("radio"@);
    lemma_slash("help"@);
    lemma_verb_of("help"@);
    lemma_slash("?"@);
    lemma_verb_of("?"@);
    lemma_slash("quit"@);
    lemma_verb_of("quit"@);
    lemma_slash("exit"@);
    lemma_verb_of("exit"@);
    lemma_slash("q"@);
    lemma_verb_of("q"@);
    lemma_slash("assess"@);
    lemma_verb_of("assess"@);
    lemma_slash("stats"@);
    lemma_verb_of("stats"@);
    lemma_slash("cmf"@);
    lemma_verb_of("cmf"@);
    lemma_slash("topology"@);
    lemma_verb_of("topology"@);
}

proof fn lemma_remember_alone()
    ensures
        bar_command("remember"@) == CommandModel::Chat,
{
    assert("remember"@.len() == 8 && "remember"@[0] == 'r' && "remember"@[1] == 'e' && "remember"@[2] == 'm' && "remember"@[3] == 'e') by {
        reveal_strlit("remember");
    }
    lemma_slash("remember"@);
    lemma_verb_of("remember"@);
}

proof fn lemma_recall_alone()
    ensures
        bar_command("recall"@) == CommandModel::Chat,
{
    assert("recall"@.len() == 6 && "recall"@[0] == 'r' && "recall"@[1] == 'e' && "recall"@[2] == 'c' && "recall"@[3] == 'a') by {
        reveal_strlit("recall");
    }
    lemma_slash("recall"@);
    lemma_verb_of("recall"@);
}

proof fn lemma_forget_alone()
    ensures
        bar_command("forget"@) == CommandModel::Chat,
{
    assert("forget"@.len() == 6 && "forget"@[0] == 'f' && "forget"@[1] == 'o' && "forget"@[2] == 'r' && "forget"@[3] == 'g') by {
        reveal_strlit("forget");
    }
    lemma_slash("forget"@);
    lemma_verb_of("forget"@);
}

proof fn lemma_ask_alone()
    ensures
        bar_command("ask"@) == CommandModel::Chat,
{
    assert("ask"@.len() == 3 && "ask"@[0] == 'a' && "ask"@[1] == 's' && "ask"@[2] == 'k') by {
        reveal_strlit("ask");
    }
    lemma_slash("ask"@);
    lemma_verb_of("ask"@);
}

proof fn lemma_search_alone()
    ensures
        bar_command("search"@) == CommandModel::Chat,
{
    assert("search"@.len() == 6 && "search"@[0] == 's' && "search"@[1] == 'e' && "search"@[2] == 'a' && "search"@[3] == 'r') by {
        reveal_strlit("search");
    }
    lemma_slash("search"@);
    lemma_verb_of("search"@);
}

proof fn lemma_boost_alone()
    ensures
        bar_command("boost"@) == CommandModel::Chat,
{
    assert("boost"@.len() == 5 && "boost"@[0] == 'b' && "boost"@[1] == 'o' && "boost"@[2] == 'o' && "boost"@[3] == 's') by {
        reveal_strlit("boost");
    }
    lemma_slash("boost"@);
    lemma_verb_of("boost"@);
}

proof fn lemma_relate_alone()
    ensures
        bar_command("relate"@) == CommandModel::Chat,
{
    assert("relate"@.len() == 6 && "relate"@[0] == 'r' && "relate"@[1] == 'e' && "relate"@[2] == 'l' && "relate"@[3] == 'a') by {
        reveal_strlit("relate");
    }
    lemma_slash("relate"@);
    lemma_verb_of("relate"@);
}

proof fn lemma_neighbors_alone()
    ensures
        bar_command("neighbors"@) == CommandModel::Chat,
{
    assert("neighbors"@.len() == 9 && "neighbors"@[0] == 'n' && "neighbors"@[1] == 'e' && "neighbors"@[2] == 'i' && "neighbors"@[3] == 'g') by {
        reveal_strlit("neighbors");
    }
    lemma_slash("neighbors"@);
    lemma_verb_of("neighbors"@);
}

proof fn lemma_see_alone()
    ensures
        bar_command("see"@) == CommandModel::Chat,
{
    assert("see"@.len() == 3 && "see"@[0] == 's' && "see"@[1] == 'e' && "see"@[2] == 'e') by {
        reveal_strlit("see");
    }
    lemma_slash("see"@);
    lemma_verb_of("see"@);
}

/// A verb without the text that it needs is no command.
pub proof fn law_verbs_without_a_text_are_chat()
    ensures
        bar_command("remember"@) == CommandModel::Chat,
        bar_command("recall"@) == CommandModel::Chat,
        bar_command("forget"@) == CommandModel::Chat,
        bar_command("ask"@) == CommandModel::Chat,
        bar_command("search"@) == CommandModel::Chat,
        bar_command("boost"@) == CommandModel::Chat,
        bar_command("relate"@) == CommandModel::Chat,
        bar_command("neighbors"@) == CommandModel::Chat,
        bar_command("see"@) == CommandModel::Chat,
{
    lemma_remember_alone();
    lemma_recall_alone();
    lemma_forget_alone();
    lemma_ask_alone();
    lemma_search_alone();
    lemma_boost_alone();
    lemma_relate_alone();
    lemma_neighbors_alone();
    lemma_see_alone();
}

/// A line that begins with no verb is no command.
pub proof fn law_other_lines_are_chat(c: Seq<char>)
    requires
        c.len() > 0 && c[0] != '/',
        !starts(c, "remember "@),
        !starts(c, "recall "@),
        !starts(c, "forget "@),
        !starts(c, "ask "@),
        !starts(c, "search "@),
        !starts(c, "boost "@),
        !starts(c, "relate "@),
        !starts(c, "neighbors "@),
        !starts(c, "see "@),
        !starts(c, "voice"@),
        c != "status"@,
        c != "observe"@,
        c != "assess"@,
        c != "stats"@,
        c != "cmf"@,
        c != "topology"@,
        c != "constellation"@,
        c != "cosmos"@,
        c != "apps"@,
        c != "help"@,
        c != "?"@,
        c != "quit"@,
        c != "exit"@,
        c != "q"@,
        c != "dream"@ && !starts(c, "dream "@),
        c != "hear"@ && !starts(c, "hear "@),
        c != "invariant"@ && !starts(c, "invariant "@),
        c != "swarm"@ && !starts(c, "swarm "@),
        c != "clusters"@ && !starts(c, "clusters "@),
        c != "market"@ && !starts(c, "market "@),
        c != "radio"@ && !starts(c, "radio "@),
    ensures
        bar_command(c) == CommandModel::Chat,
        bar_command("/"@ + c) == CommandModel::Chat,
{
    lemma_slash(c);
    reveal_strlit(" ");
    assert("dream"@ + " "@ =~= "dream "@) by {
        reveal_strlit("dream");
        reveal_strlit("dream ");
    }
    assert("hear"@ + " "@ =~= "hear "@) by {
        reveal_strlit("hear");
        reveal_strlit("hear ");
    }
    assert("invariant"@ + " "@ =~= "invariant "@) by {
        reveal_strlit("invariant");
        reveal_strlit("invariant ");
    }
    assert("swarm"@ + " "@ =~= "swarm "@) by {
        reveal_strlit("swarm");
        reveal_strlit("swarm ");
    }
    assert("clusters"@ + " "@ =~= "clusters "@) by {
        reveal_strlit("clusters");
        reveal_strlit("clusters ");
    }
    assert("market"@ + " "@ =~= "market "@) by {
        reveal_strlit("market");
        reveal_strlit("market ");
    }
    assert("radio"@ + " "@ =~= "radio "@) by {
        reveal_strlit("radio");
        reveal_strlit("radio ");
    }
}

/// `radio` opens the constellation, whatever stands behind it.
pub proof fn law_radio_opens_the_constellation(t: Seq<char>)
    ensures
        bar_command("radio "@ + t) == CommandModel::Cosmos,
{
    lemma_verbs();
    reveal_strlit("radio ");
    lemma_behind("radio "@, t);
    assert("radio"@ + " "@ =~= "radio "@) by {
        reveal_strlit("radio");
        reveal_strlit(" ");
    }
    lemma_slash("radio "@ + t);
    lemma_verb_of("radio "@ + t);
}

/// Each job runs its own subcommand with its own arguments, for its own time.
pub proof fn law_jobs_name_their_subcommand(t: Seq<char>, args: Seq<Seq<char>>, secs: u64)
    ensures
        job_args(JobModel::Remember(t)) == seq!["remember"@, t],
        job_args(JobModel::Recall(t)) == seq!["recall"@, t, "--top-k"@, "5"@],
        job_args(JobModel::Forget(t)) == seq!["forget"@, t],
        job_args(JobModel::Dream(t)) == seq!["dream"@, "--mode"@, t],
        job_args(JobModel::Status) == seq!["status"@, "--envelope"@],
        job_args(JobModel::Observe) == seq!["observe"@, "--json"@],
        job_args(JobModel::Constellation) == seq!["constellation"@],
        job_args(JobModel::Radio) == seq!["radio"@],
        job_args(JobModel::Pass { args, secs }) == args,
        job_secs(JobModel::Pass { args, secs }) == secs,
        job_secs(JobModel::Dream(t)) == 300,
        job_secs(JobModel::Constellation) == 30,
        job_secs(JobModel::Radio) == 15,
        job_secs(JobModel::Remember(t)) == 60,
        job_secs(JobModel::Recall(t)) == 60,
        job_secs(JobModel::Forget(t)) == 60,
        job_secs(JobModel::Status) == 60,
        job_secs(JobModel::Observe) == 60,
{
}

/// Whether a line is sent from a tab whose bar takes verbs, with nothing that holds the
/// command up.
pub open spec fn takes_verbs(s: AppModel) -> bool {
    s.tab != Tab::Agent && s.tab != Tab::Chat && !s.log.cmd_pending
}

/// Sending `remember t`, `recall t` or `forget t` from the command bar runs the subcommand
/// on `t`, whole, and on nothing else.
pub proof fn law_sent_memory_command_runs(s: AppModel, t: Seq<char>, now: u64)
    requires
        takes_verbs(s),
        is_bare(t),
        t.len() > 0,
    ensures
        s.bar.input == "remember "@ + t ==> s.submitted(now).1 == seq![
            ActionModel::Run(JobModel::Remember(t)),
        ],
        s.bar.input == "recall "@ + t ==> s.submitted(now).1 == seq![
            ActionModel::Run(JobModel::Recall(t)),
        ],
        s.bar.input == "forget "@ + t ==> s.submitted(now).1 == seq![
            ActionModel::Run(JobModel::Forget(t)),
        ],
{
    lemma_verbs();
    law_remember_takes_the_whole_text(t);
    law_recall_takes_the_whole_text(t);
    law_forget_takes_the_whole_text(t);
    law_trim_undoes_padding(Seq::empty(), "remember "@ + t, Seq::empty());
    law_trim_undoes_padding(Seq::empty(), "recall "@ + t, Seq::empty());
    law_trim_undoes_padding(Seq::empty(), "forget "@ + t, Seq::empty());
}

} // verus!
