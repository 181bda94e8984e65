//! Reading untracked files out of `git status --short` output.

use vstd::prelude::*;
use vstd::std_specs::iter::IteratorSpec;

verus! {

broadcast use vstd::string::axiom_spec_iter, vstd::string::next_postcondition;

/// The characters of `s`.
fn chars_of(s: &str) -> (r: Vec<char>)
    ensures
        r@ == s@,
{
    let mut it = s.chars();
    let mut out: Vec<char> = Vec::new();
    loop
        invariant
            out@ + it.remaining() == s@,
        ensures
            out@ == s@,
        decreases s@.len() - out@.len(),
    {
        match it.next() {
            Some(c) => {
                out.push(c);
            },
            None => {
                assert(out@ + it.remaining() =~= out@);
                break;
            },
        }
    }
    out
}


/// Strings as plain values.
pub open spec fn strings_view(v: Seq<String>) -> Seq<Seq<char>> {
    v.map_values(|s: String| s@)
}

/// The pieces of `s` between line feeds: one more than there are line feeds.
pub open spec fn pieces(s: Seq<char>) -> Seq<Seq<char>>
    decreases s.len(),
{
    if s.len() == 0 {
        seq![Seq::empty()]
    } else {
        let p = pieces(s.drop_last());
        if s.last() == '\n' {
            p.push(Seq::empty())
        } else {
            p.update(p.len() - 1, p.last().push(s.last()))
        }
    }
}

/// A line that ended in a line feed, without the carriage return that may
/// have stood before it.
pub open spec fn strip_cr(l: Seq<char>) -> Seq<char> {
    if l.len() > 0 && l.last() == '\r' {
        l.drop_last()
    } else {
        l
    }
}

/// The lines of `s`, split as `str::lines` splits them: at `\n` or `\r\n`,
/// with no empty line after a final line ending.
pub open spec fn lines_of(s: Seq<char>) -> Seq<Seq<char>> {
    let p = pieces(s);
    let ended = p.drop_last().map_values(|l: Seq<char>| strip_cr(l));
    if p.last().len() == 0 {
        ended
    } else {
        ended.push(p.last())
    }
}

/// What one line of `git status --short` says of untracked files: `Some(Some(path))`
/// for `?? path`, `Some(None)` for a line of another kind, `None` for a line
/// that starts with `??` without the space after it.
pub open spec fn line_entry(l: Seq<char>) -> Option<Option<Seq<char>>> {
    if l.len() >= 2 && l[0] == '?' && l[1] == '?' {
        if l.len() >= 3 && l[2] == ' ' {
            Some(Some(l.skip(3)))
        } else {
            None
        }
    } else {
        Some(None)
    }
}

/// The untracked paths that `lines` list, in order; `None` if a line is malformed.
pub open spec fn untracked_paths(lines: Seq<Seq<char>>) -> Option<Seq<Seq<char>>>
    decreases lines.len(),
{
    if lines.len() == 0 {
        Some(seq![])
    } else {
        match (untracked_paths(lines.drop_last()), line_entry(lines.last())) {
            (Some(rest), Some(Some(p))) => Some(rest.push(p)),
            (Some(rest), Some(None)) => Some(rest),
            _ => None,
        }
    }
}

/// `parts` joined with line feeds between them.
pub open spec fn joined(parts: Seq<Seq<char>>) -> Seq<char>
    decreases parts.len(),
{
    if parts.len() == 0 {
        seq![]
    } else if parts.len() == 1 {
        parts[0]
    } else {
        joined(parts.drop_last()) + seq!['\n'] + parts.last()
    }
}

/// An exec entry as plain values.
pub open spec fn entry_view(e: Option<Option<String>>) -> Option<Option<Seq<char>>> {
    match e {
        None => None,
        Some(None) => Some(None),
        Some(Some(p)) => Some(Some(p@)),
    }
}

/// What the line `status[lo..hi]` says of untracked files.
fn entry_of(status: &str, cs: &Vec<char>, lo: usize, hi: usize) -> (r: Option<Option<String>>)
    requires
        cs@ == status@,
        lo <= hi <= cs@.len(),
    ensures
        entry_view(r) == line_entry(cs@.subrange(lo as int, hi as int)),
{
    let ghost l = cs@.subrange(lo as int, hi as int);
    if hi - lo >= 2 && cs[lo] == '?' && cs[lo + 1] == '?' {
        if hi - lo >= 3 && cs[lo + 2] == ' ' {
            let path = status.substring_char(lo + 3, hi).to_owned();
            assert(path@ =~= l.skip(3));
            Some(Some(path))
        } else {
            None
        }
    } else {
        Some(None)
    }
}

/// The untracked paths that `git status --short` output lists, in order;
/// `None` if a line starts with `??` without the space that follows it.
pub fn untracked_files(status: &str) -> (r: Option<Vec<String>>)
    ensures
        match r {
            Some(v) => untracked_paths(lines_of(status@)) == Some(strings_view(v@)),
            None => untracked_paths(lines_of(status@)) is None,
        },
{
    let cs = chars_of(status);
    let n = cs.len();
    let mut start: usize = 0;
    let mut i: usize = 0;
    let mut out: Vec<String> = Vec::new();
    let mut malformed = false;
    let ghost mut done: Seq<Seq<char>> = seq![];
    assert(cs@.take(0) =~= Seq::<char>::empty());
    assert(done.push(cs@.subrange(0, 0)) =~= seq![Seq::<char>::empty()]);
    while i < n
        invariant
            start <= i <= n,
            n == cs@.len(),
            cs@ == status@,
            pieces(cs@.take(i as int)) == done.push(cs@.subrange(start as int, i as int)),
            untracked_paths(done.map_values(|l: Seq<char>| strip_cr(l))) == (if malformed {
                None
            } else {
                Some(strings_view(out@))
            }),
        decreases n - i,
    {
        let ghost before = cs@.take(i as int);
        assert(cs@.take(i + 1).drop_last() =~= before);
        assert(cs@.take(i + 1).last() == cs@[i as int]);
        if cs[i] == '\n' {
            let ghost piece = cs@.subrange(start as int, i as int);
            let hi = if i > start && cs[i - 1] == '\r' {
                i - 1
            } else {
                i
            };
            assert(cs@.subrange(start as int, hi as int) =~= strip_cr(piece));
            let ghost old_done = done;
            proof {
                done = done.push(piece);
                assert(done.map_values(|l: Seq<char>| strip_cr(l)) =~= old_done.map_values(
                    |l: Seq<char>| strip_cr(l),
                ).push(strip_cr(piece)));
                assert(done.map_values(|l: Seq<char>| strip_cr(l)).drop_last() =~= old_done.map_values(
                    |l: Seq<char>| strip_cr(l),
                ));
            }
            match entry_of(status, &cs, start, hi) {
                None => {
                    malformed = true;
                },
                Some(None) => {},
                Some(Some(p)) => {
                    if !malformed {
                        out.push(p);
                        assert(strings_view(out@) =~= strings_view(out@.drop_last()).push(
                            out@.last()@,
                        ));
                    }
                },
            }
            start = i + 1;
            assert(cs@.subrange(start as int, start as int) =~= Seq::<char>::empty());
        } else {
            assert(cs@.subrange(start as int, i + 1) =~= cs@.subrange(start as int, i as int).push(
                cs@[i as int],
            ));
            assert(done.push(cs@.subrange(start as int, i as int)).update(
                done.len() as int,
                cs@.subrange(start as int, i + 1),
            ) =~= done.push(cs@.subrange(start as int, i + 1)));
        }
        i = i + 1;
    }
    assert(cs@.take(n as int) =~= cs@);
    let ghost last = cs@.subrange(start as int, n as int);
    let ghost ended = done.map_values(|l: Seq<char>| strip_cr(l));
    assert(pieces(status@).drop_last() =~= done);
    if start < n {
        assert(lines_of(status@).drop_last() =~= ended);
        assert(lines_of(status@).last() == last);
        match entry_of(status, &cs, start, n) {
            None => {
                malformed = true;
            },
            Some(None) => {},
            Some(Some(p)) => {
                if !malformed {
                    out.push(p);
                    assert(strings_view(out@) =~= strings_view(out@.drop_last()).push(out@.last()@));
                }
            },
        }
    } else {
        assert(lines_of(status@) =~= ended);
    }
    if malformed {
        None
    } else {
        Some(out)
    }
}

/// `parts` joined with line feeds between them.
pub fn join_lines(parts: &Vec<String>) -> (r: String)
    ensures
        r@ == joined(strings_view(parts@)),
{
    let mut acc = String::new();
    let mut i: usize = 0;
    while i < parts.len()
        invariant
            i <= parts@.len(),
            acc@ == joined(strings_view(parts@).take(i as int)),
        decreases parts@.len() - i,
    {
        let ghost view = strings_view(parts@);
        assert(view.take(i + 1).drop_last() =~= view.take(i as int));
        let ghost prev = acc@;
        if i > 0 {
            acc.append("\n");
            proof {
                reveal_strlit("\n");
                assert("\n"@ =~= seq!['\n']);
            }
            assert(acc@ =~= prev + seq!['\n']);
        }
        acc.append(parts[i].as_str());
        proof {
            if i == 0 {
                assert(acc@ =~= view.take(1)[0]);
            } else {
                assert(acc@ =~= joined(view.take(i as int)) + seq!['\n'] + view[i as int]);
            }
        }
        i = i + 1;
    }
    assert(strings_view(parts@).take(parts@.len() as int) =~= strings_view(parts@));
    acc
}

} // verus!
