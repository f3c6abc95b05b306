//! Bulk seeding: which programs a package listing gives the seed base score.
use vstd::prelude::*;

use crate::discovery::{file_name_of, path_file_name};
use crate::launch::{next_word, texts};
use crate::words::words;

verus! {

/// The base score that seeding gives each listed program.
pub const SEED_SCORE: i32 = 50;

/// The pieces of `s` between newline characters, the last one included even
/// when empty.
pub open spec fn pieces(s: Seq<char>) -> Seq<Seq<char>>
    decreases s.len(),
{
    if s.len() == 0 {
        seq![Seq::empty()]
    } else {
        let p = pieces(s.drop_last());
        if s.last() == '\n' {
            p.push(Seq::empty())
        } else {
            p.update(p.len() - 1, p.last().push(s.last()))
        }
    }
}

/// Relies on `str::split` with the separator `'\n'`: the pieces between
/// separators, in order, including empty ones at either end.
#[verifier::external_body]
fn split_lines(s: &str) -> (r: Vec<String>)
    ensures
        texts(r@) == pieces(s@),
{
    s.split('\n').map(|l| l.to_string()).collect()
}

/// The program that a line of the listing names: the file name of its second
/// word, when it has one.
pub open spec fn seed_name(line: Seq<char>) -> Option<Seq<char>> {
    let ws = words(line);
    if ws.len() >= 2 {
        path_file_name(ws[1])
    } else {
        None
    }
}

/// The programs that a listing names, in order.
pub open spec fn seed_targets(listing: Seq<char>) -> Seq<Seq<char>> {
    pieces(listing).filter_map(|l: Seq<char>| seed_name(l))
}

/// The program that one line names.
fn line_target(line: &str) -> (r: Option<String>)
    ensures
        match r {
            Some(n) => seed_name(line@) == Some(n@),
            None => seed_name(line@) is None,
        },
{
    let n = line.unicode_len();
    assert(line@.skip(0) =~= line@);
    let first = next_word(line, n, 0);
    match first {
        None => None,
        Some((_, e1)) => match next_word(line, n, e1) {
            None => None,
            Some((w2, _)) => {
                assert(words(line@)[1] == w2@);
                file_name_of(w2.as_str())
            },
        },
    }
}

/// The programs that a package listing names, one line each: the file name of
/// each line's second word.
pub fn seed_names(listing: &str) -> (r: Vec<String>)
    ensures
        texts(r@) == seed_targets(listing@),
{
    let lines = split_lines(listing);
    let ghost ls = texts(lines@);
    let mut r: Vec<String> = Vec::new();
    let mut i: usize = 0;
    assert(ls.take(0) =~= Seq::<Seq<char>>::empty());
    assert(texts(r@) =~= Seq::<Seq<char>>::empty());
    while i < lines.len()
        invariant
            i <= lines@.len(),
            ls == texts(lines@),
            ls == pieces(listing@),
            texts(r@) == ls.take(i as int).filter_map(|l: Seq<char>| seed_name(l)),
        decreases lines@.len() - i,
    {
        let ghost prev = r@;
        assert(ls.take(i + 1).drop_last() =~= ls.take(i as int));
        assert(ls.take(i + 1).last() == lines@[i as int]@);
        match line_target(lines[i].as_str()) {
            Some(n) => {
                r.push(n);
                assert(texts(r@) =~= texts(prev) + seq![n@]);
            },
            None => {},
        }
        i = i + 1;
    }
    assert(ls.take(i as int) =~= ls);
    r
}

} // verus!
