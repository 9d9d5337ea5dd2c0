use vstd::prelude::*;

use crate::artifact::{text_ends_with, texts};
use crate::fs_class::has_suffix;

verus! {

/// What `str::lines` splits a text into.
pub uninterp spec fn lines_of(s: Seq<char>) -> Seq<Seq<char>>;

/// What `str::split_whitespace` yields first for a line, if anything.
pub uninterp spec fn first_word_of(line: Seq<char>) -> Option<Seq<char>>;

/// Relies on `str::lines`: the lines of a text, a function of the text alone.
#[verifier::external_body]
fn split_lines(s: &str) -> (r: Vec<String>)
    ensures
        texts(r@) == lines_of(s@),
{
    s.lines().map(String::from).collect()
}

/// Relies on `str::split_whitespace`: its first item, a function of the line alone.
#[verifier::external_body]
fn first_word(line: &str) -> (r: Option<String>)
    ensures
        match r {
            Some(w) => first_word_of(line@) == Some(w@),
            None => first_word_of(line@) is None,
        },
{
    line.split_whitespace().next().map(String::from)
}

/// The first word of each line that has one, in order.
pub open spec fn words_of(lines: Seq<Seq<char>>) -> Seq<Seq<char>>
    decreases lines.len(),
{
    if lines.len() == 0 {
        Seq::empty()
    } else {
        let rest = words_of(lines.drop_last());
        match first_word_of(lines.last()) {
            Some(w) => rest.push(w),
            None => rest,
        }
    }
}

/// The file names of a storage listing: the first word of every line after the header.
pub open spec fn listed_names(listing: Seq<char>) -> Seq<Seq<char>> {
    let lines = lines_of(listing);
    words_of(lines.subrange(if lines.len() == 0 { 0 } else { 1 }, lines.len() as int))
}

/// The file names of a listing, after its header line, in order.
pub fn listed_file_names(listing: &str) -> (r: Vec<String>)
    ensures
        texts(r@) == listed_names(listing@),
{
    let lines = split_lines(listing);
    let ghost all = texts(lines@);
    let start: usize = if lines.len() == 0 {
        0
    } else {
        1
    };
    let mut names: Vec<String> = Vec::new();
    let mut i: usize = start;
    while i < lines.len()
        invariant
            start <= i <= lines@.len(),
            all == texts(lines@),
            start == (if lines@.len() == 0 {
                0int
            } else {
                1int
            }),
            texts(names@) == words_of(all.subrange(start as int, i as int)),
        decreases lines@.len() - i,
    {
        let ghost before = all.subrange(start as int, i as int);
        let ghost after = all.subrange(start as int, i + 1);
        assert(after.drop_last() == before);
        assert(after.last() == lines@[i as int]@);
        match first_word(lines[i].as_str()) {
            Some(w) => {
                names.push(w);
                assert(texts(names@) =~= words_of(after));
            },
            None => {},
        }
        i = i + 1;
    }
    names
}

/// The names that an export takes from a listing: those of data files.
pub open spec fn exported_names(listing: Seq<char>) -> Seq<Seq<char>> {
    listed_names(listing).filter(|n: Seq<char>| has_suffix(n, ".dat"@))
}

/// The data-file names of a listing, in order.
pub fn data_file_names(listing: &str) -> (r: Vec<String>)
    ensures
        texts(r@) == exported_names(listing@),
{
    let names = listed_file_names(listing);
    let ghost all = texts(names@);
    let mut kept: Vec<String> = Vec::new();
    let mut i: usize = 0;
    while i < names.len()
        invariant
            i <= names@.len(),
            all == texts(names@),
            texts(kept@) == all.subrange(0, i as int).filter(|n: Seq<char>| has_suffix(n, ".dat"@)),
        decreases names@.len() - i,
    {
        let ghost before = all.subrange(0, i as int);
        let ghost after = all.subrange(0, i + 1);
        assert(after.drop_last() == before);
        assert(after.last() == names@[i as int]@);
        reveal_with_fuel(Seq::filter, 1);
        if text_ends_with(names[i].as_str(), ".dat") {
            kept.push(names[i].clone());
            assert(texts(kept@) =~= before.filter(|n: Seq<char>| has_suffix(n, ".dat"@)).push(
                names@[i as int]@,
            ));
        } else {
            assert(texts(kept@) =~= before.filter(|n: Seq<char>| has_suffix(n, ".dat"@)));
        }
        i = i + 1;
    }
    assert(all.subrange(0, names@.len() as int) == all);
    kept
}

} // verus!
