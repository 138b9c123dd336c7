//! Text helpers: substring tests, line splitting and the tail of a log.
use vstd::prelude::*;

verus! {

/// How many trailing lines of the helper's log a status snapshot shows.
pub const LOG_TAIL_LINES: usize = 10;

/// `needle` occurs in `hay` at some position.
pub open spec fn has_substring(hay: Seq<char>, needle: Seq<char>) -> bool {
    exists|i: int| 0 <= i <= hay.len() - needle.len() && #[trigger] hay.subrange(i, i + needle.len()) == needle
}

/// `s` cut at each `'\n'`; the last piece is what follows the last `'\n'`.
pub open spec fn split_at_newlines(s: Seq<char>) -> Seq<Seq<char>>
    decreases s.len(),
{
    if s.len() == 0 {
        seq![Seq::<char>::empty()]
    } else {
        let r = split_at_newlines(s.drop_last());
        if s.last() == '\n' {
            r.push(Seq::<char>::empty())
        } else {
            r.update(r.len() - 1, r.last().push(s.last()))
        }
    }
}

/// A line without the `'\r'` of a `"\r\n"` ending.
pub open spec fn strip_cr(l: Seq<char>) -> Seq<char> {
    if l.len() > 0 && l.last() == '\r' {
        l.drop_last()
    } else {
        l
    }
}

/// The lines of `s`, ended by `"\n"` or `"\r\n"`; the final line's ending is optional,
/// so an empty text has no lines.
pub open spec fn lines_of(s: Seq<char>) -> Seq<Seq<char>> {
    let parts = split_at_newlines(s);
    let ended = parts.drop_last().map_values(|l: Seq<char>| strip_cr(l));
    if parts.last().len() == 0 {
        ended
    } else {
        ended.push(parts.last())
    }
}

/// The last `n` elements of `s`, all of them if there are fewer.
pub open spec fn last_n(s: Seq<Seq<char>>, n: nat) -> Seq<Seq<char>> {
    if s.len() <= n {
        s
    } else {
        s.subrange(s.len() - n, s.len() as int)
    }
}

/// The lines joined with `'\n'` between them.
pub open spec fn join_lines(s: Seq<Seq<char>>) -> Seq<char>
    decreases s.len(),
{
    if s.len() == 0 {
        Seq::<char>::empty()
    } else if s.len() == 1 {
        s[0]
    } else {
        join_lines(s.drop_last()) + seq!['\n'] + s.last()
    }
}

/// The log tail shown in a status snapshot.
pub open spec fn tail_text(content: Seq<char>) -> Seq<char> {
    join_lines(last_n(lines_of(content), LOG_TAIL_LINES as nat))
}

pub open spec fn views(v: Seq<String>) -> Seq<Seq<char>> {
    v.map_values(|l: String| l@)
}

/// Relies on `str::contains` with a `&str` pattern: whether `needle` occurs in `hay`.
#[verifier::external_body]
fn str_contains(hay: &str, needle: &str) -> (r: bool)
    ensures
        r == has_substring(hay@, needle@),
{
    hay.contains(needle)
}

/// Relies on `str::lines`: the lines of `s`, ended by `"\n"` or `"\r\n"`.
#[verifier::external_body]
fn str_lines(s: &str) -> (r: Vec<String>)
    ensures
        views(r@) == lines_of(s@),
{
    s.lines().map(|l| l.to_string()).collect()
}

/// Whether `needle` occurs in `hay`.
pub fn contains_text(hay: &str, needle: &str) -> (r: bool)
    ensures
        r == has_substring(hay@, needle@),
{
    str_contains(hay, needle)
}

/// The lines of `s`, without their endings.
pub fn split_lines(s: &str) -> (r: Vec<String>)
    ensures
        views(r@) == lines_of(s@),
{
    str_lines(s)
}

/// The last `n` of `lines` (all if fewer), in their order, joined with `'\n'`.
pub fn join_last_lines(lines: &Vec<String>, n: usize) -> (r: String)
    ensures
        r@ == join_lines(last_n(views(lines@), n as nat)),
{
    let len = lines.len();
    let start: usize = if len > n {
        len - n
    } else {
        0
    };
    let ghost picked = last_n(views(lines@), n as nat);
    assert(picked =~= views(lines@).subrange(start as int, len as int));
    let mut out = String::new();
    let mut i: usize = start;
    while i < len
        invariant
            start <= i <= len,
            len == lines@.len(),
            picked =~= views(lines@).subrange(start as int, len as int),
            out@ == join_lines(picked.subrange(0, i - start)),
        decreases len - i,
    {
        let ghost done = picked.subrange(0, i - start);
        let ghost next = picked.subrange(0, i + 1 - start);
        assert(next.drop_last() =~= done);
        assert(next.last() == lines@[i as int]@);
        if i > start {
            proof {
                reveal_strlit("\n");
            }
            out.append("\n");
        }
        out.append(lines[i].as_str());
        assert(out@ == join_lines(next)) by {
            if i == start {
                assert(next.len() == 1);
            }
        }
        i = i + 1;
    }
    assert(picked.subrange(0, len - start) =~= picked);
    out
}

/// The last lines of a log text, oldest first, joined with `'\n'`.
pub fn log_tail(content: &str) -> (r: String)
    ensures
        r@ == tail_text(content@),
{
    let lines = split_lines(content);
    join_last_lines(&lines, LOG_TAIL_LINES)
}

/// A log tail holds every line of a short log and exactly the last lines of a long
/// one, in their original order.
pub proof fn lemma_log_tail_lines(content: Seq<char>)
    ensures
        lines_of(content).len() <= LOG_TAIL_LINES ==> tail_text(content) == join_lines(
            lines_of(content),
        ),
        lines_of(content).len() > LOG_TAIL_LINES ==> tail_text(content) == join_lines(
            lines_of(content).subrange(
                lines_of(content).len() - LOG_TAIL_LINES,
                lines_of(content).len() as int,
            ),
        ),
{
}

} // verus!
