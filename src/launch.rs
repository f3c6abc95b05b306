//! Launch intents: the program, its arguments and whether it needs a terminal,
//! derived from an entity's command or a chosen file.
use vstd::prelude::*;

use crate::words::{leading_word, skip_space, word_span, words};

verus! {

/// A desktop-entry field code such as `%u`: a word that begins with `%`.
pub open spec fn field_code(w: Seq<char>) -> bool {
    w.len() > 0 && w[0] == '%'
}

/// `field_code` negated, as a predicate for filtering.
pub open spec fn not_field_code() -> spec_fn(Seq<char>) -> bool {
    |w: Seq<char>| !field_code(w)
}

/// The words joined with single spaces.
pub open spec fn join_words(ws: Seq<Seq<char>>) -> Seq<char>
    decreases ws.len(),
{
    if ws.len() == 0 {
        Seq::empty()
    } else if ws.len() == 1 {
        ws[0]
    } else {
        join_words(ws.drop_last()) + seq![' '] + ws.last()
    }
}

/// The command with its field codes removed and its words joined by single spaces.
pub open spec fn clean_command(command: Seq<char>) -> Seq<char> {
    join_words(words(command).filter(not_field_code()))
}

/// How `shell_words::split` divides `s` into words with shell quoting rules;
/// `None` when the quoting is malformed.
pub uninterp spec fn shell_split(s: Seq<char>) -> Option<Seq<Seq<char>>>;

/// The views of a vector of strings.
pub open spec fn texts(v: Seq<String>) -> Seq<Seq<char>> {
    v.map_values(|s: String| s@)
}

/// Relies on `shell_words::split`: it depends on the text alone and fails only
/// on malformed quoting.
#[verifier::external_body]
fn split_shell(s: &str) -> (r: Option<Vec<String>>)
    ensures
        match r {
            Some(v) => shell_split(s@) == Some(texts(v@)),
            None => shell_split(s@) is None,
        },
{
    shell_words::split(s).ok()
}

/// The next word of `s` from position `from`, and where it ends; `None` when only
/// white space is left.
pub(crate) fn next_word(s: &str, n: usize, from: usize) -> (r: Option<(String, usize)>)
    requires
        n == s@.len(),
        from <= n,
    ensures
        match r {
            None => words(s@.skip(from as int)) == Seq::<Seq<char>>::empty(),
            Some((w, end)) => from < end <= n && words(s@.skip(from as int)) == seq![w@] + words(
                s@.skip(end as int),
            ),
        },
{
    let (a, b) = word_span(s, n, from);
    proof {
        crate::words::lemma_word_bounds(s@.skip(from as int));
    }
    if a == b {
        assert(s@.skip(a as int).len() == 0) by {
            if s@.skip(a as int).len() > 0 {
                assert(leading_word(s@.skip(a as int)).len() > 0);
            }
        }
        return None;
    }
    let w = s.substring_char(a, b).to_string();
    assert(s@.skip(a as int).skip(b - a) =~= s@.skip(b as int));
    Some((w, b))
}

/// `command` with the field codes removed and its words joined by single spaces.
pub fn strip_field_codes(command: &str) -> (r: String)
    ensures
        r@ == clean_command(command@),
{
    let n = command.unicode_len();
    let mut pos: usize = 0;
    let mut r = String::new();
    let mut count: usize = 0;
    let ghost seen: Seq<Seq<char>> = Seq::empty();
    assert(command@.skip(0) =~= command@);
    proof {
        reveal(Seq::filter);
    }
    loop
        invariant
            n == command@.len(),
            pos <= n,
            words(command@) == seen + words(command@.skip(pos as int)),
            r@ == join_words(seen.filter(not_field_code())),
            count as int == seen.filter(not_field_code()).len(),
            count <= pos,
        decreases n - pos,
    {
        match next_word(command, n, pos) {
            None => {
                assert(seen + Seq::<Seq<char>>::empty() =~= seen);
                return r;
            },
            Some((w, end)) => {
                let keep = w.as_str().is_empty() || w.as_str().get_char(0) != '%';
                proof {
                    reveal(Seq::filter);
                    assert(seen.push(w@).drop_last() =~= seen);
                    assert(seen + words(command@.skip(pos as int)) =~= seen.push(w@) + words(
                        command@.skip(end as int),
                    ));
                }
                if keep {
                    if count > 0 {
                        r.append(" ");
                    }
                    r.append(w.as_str());
                    proof {
                        reveal_strlit(" ");
                        let f = seen.filter(not_field_code());
                        assert(seen.push(w@).filter(not_field_code()) == f.push(w@));
                        assert(f.push(w@).drop_last() =~= f);
                        if count == 0 {
                            assert(f.len() == 0);
                            assert(join_words(f) =~= Seq::<char>::empty());
                            assert(r@ =~= join_words(f.push(w@)));
                        } else {
                            assert(r@ =~= join_words(f.push(w@)));
                        }
                    }
                    count = count + 1;
                } else {
                    assert(seen.push(w@).filter(not_field_code()) == seen.filter(not_field_code()));
                }
                proof {
                    seen = seen.push(w@);
                }
                pos = end;
            },
        }
    }
}

/// A launch intent: the program to start, its arguments, and whether it must
/// be wrapped in a terminal emulator.
pub struct LaunchCommand {
    pub program: String,
    pub args: Vec<String>,
    pub needs_terminal: bool,
}

/// The intent for an entity's command: the field codes are removed and the rest
/// is split with shell quoting rules; the first word is the program. There is
/// none when the quoting is malformed or no word is left.
pub open spec fn app_launch_spec(command: Seq<char>, needs_terminal: bool) -> Option<(Seq<char>, Seq<Seq<char>>, bool)> {
    match shell_split(clean_command(command)) {
        Some(ws) => if ws.len() > 0 {
            Some((ws[0], ws.drop_first(), needs_terminal))
        } else {
            None
        },
        None => None,
    }
}

/// The values of an intent.
pub open spec fn launch_view(l: LaunchCommand) -> (Seq<char>, Seq<Seq<char>>, bool) {
    (l.program@, texts(l.args@), l.needs_terminal)
}

/// The launch intent for an entity's command.
pub fn app_launch(command: &str, needs_terminal: bool) -> (r: Option<LaunchCommand>)
    ensures
        match r {
            Some(l) => app_launch_spec(command@, needs_terminal) == Some(launch_view(l)),
            None => app_launch_spec(command@, needs_terminal) is None,
        },
{
    let clean = strip_field_codes(command);
    let parts = match split_shell(clean.as_str()) {
        Some(v) => v,
        None => {
            return None;
        },
    };
    if parts.len() == 0 {
        return None;
    }
    let program = parts[0].clone();
    let mut args: Vec<String> = Vec::new();
    let mut i: usize = 1;
    while i < parts.len()
        invariant
            1 <= i <= parts@.len(),
            texts(args@) == texts(parts@).subrange(1, i as int),
        decreases parts@.len() - i,
    {
        let ghost prev = args@;
        let p = parts[i].clone();
        args.push(p);
        assert(args@ == prev.push(p));
        assert(texts(args@) =~= texts(prev).push(p@));
        assert(texts(args@) =~= texts(parts@).subrange(1, i + 1));
        i = i + 1;
    }
    assert(texts(parts@).subrange(1, i as int) =~= texts(parts@).drop_first());
    Some(LaunchCommand { program, args, needs_terminal })
}

/// The intent for a chosen file: open it in the editor inside a terminal window.
pub fn file_launch(path: &str) -> (r: LaunchCommand)
    ensures
        r.program@ == "kitty"@,
        texts(r.args@) == seq!["-e"@, "nvim"@, path@],
        !r.needs_terminal,
{
    let mut args: Vec<String> = Vec::new();
    args.push(String::from_str("-e"));
    args.push(String::from_str("nvim"));
    args.push(String::from_str(path));
    assert(texts(args@) =~= seq!["-e"@, "nvim"@, path@]);
    LaunchCommand { program: String::from_str("kitty"), args, needs_terminal: false }
}

/// What is actually started for an intent: the program itself, or a terminal
/// emulator that runs it when it needs a terminal.
pub fn spawn_line(l: &LaunchCommand) -> (r: (String, Vec<String>))
    ensures
        l.needs_terminal ==> r.0@ == "kitty"@ && texts(r.1@) == seq!["-e"@, l.program@] + texts(
            l.args@,
        ),
        !l.needs_terminal ==> r.0@ == l.program@ && texts(r.1@) == texts(l.args@),
{
    let mut args: Vec<String> = Vec::new();
    let ghost head: Seq<Seq<char>> = Seq::empty();
    if l.needs_terminal {
        args.push(String::from_str("-e"));
        args.push(l.program.clone());
        proof {
            head = seq!["-e"@, l.program@];
        }
        assert(texts(args@) =~= head);
    }
    let mut i: usize = 0;
    assert(texts(args@) =~= head + texts(l.args@).take(0));
    while i < l.args.len()
        invariant
            i <= l.args@.len(),
            texts(args@) == head + texts(l.args@).take(i as int),
        decreases l.args@.len() - i,
    {
        let ghost prev = args@;
        let a = l.args[i].clone();
        args.push(a);
        assert(args@ == prev.push(a));
        assert(texts(args@) =~= texts(prev).push(a@));
        assert(texts(args@) =~= head + texts(l.args@).take(i + 1));
        i = i + 1;
    }
    assert(texts(l.args@).take(i as int) =~= texts(l.args@));
    let program = if l.needs_terminal {
        String::from_str("kitty")
    } else {
        l.program.clone()
    };
    proof {
        if !l.needs_terminal {
            assert(head + texts(l.args@) =~= texts(l.args@));
        }
    }
    (program, args)
}

} // verus!
