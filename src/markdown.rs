//! Markdown to plain text, for copying a note out of the editor.
use vstd::prelude::*;
use crate::text::{chars_of, string_of, occurs_at, matches_at, first_at, find_from, push_range, trim, trim_range};

verus! {

/// Removes the first `d ... d` pair of delimiters, again and again, keeping
/// the text between them, until no closed pair is left.
pub open spec fn strip_pairs(s: Seq<char>, d: Seq<char>) -> Seq<char>
    decreases s.len(),
{
    let n = d.len() as int;
    match first_at(s, d, 0) {
        None => s,
        Some(a) => match first_at(s, d, a + n) {
            None => s,
            Some(b) => if n > 0 && 0 <= a && a + n <= b && b + n <= s.len() {
                strip_pairs(s.subrange(0, a) + s.subrange(a + n, b) + s.subrange(b + n, s.len() as int), d)
            } else {
                s
            },
        },
    }
}

/// Replaces the first `[text](target)` link by its text, again and again,
/// while the first `[` is followed by a `]`, a `(` right after it, and a `)`.
pub open spec fn strip_links(s: Seq<char>) -> Seq<char>
    decreases s.len(),
{
    match first_at(s, seq!['['], 0) {
        None => s,
        Some(a) => match first_at(s, seq![']'], a) {
            None => s,
            Some(b) => if b + 1 < s.len() && s[b + 1] == '(' {
                match first_at(s, seq![')'], b + 1) {
                    None => s,
                    Some(c) => if 0 <= a < b < c < s.len() {
                        strip_links(s.subrange(0, a) + s.subrange(a + 1, b) + s.subrange(c + 1, s.len() as int))
                    } else {
                        s
                    },
                }
            } else {
                s
            },
        },
    }
}

/// Inline markdown made plain: bold, italics, code spans and links lose their marks.
pub open spec fn clean_inline(s: Seq<char>) -> Seq<char> {
    strip_links(
        strip_pairs(
            strip_pairs(strip_pairs(strip_pairs(strip_pairs(s, seq!['*', '*']), seq!['_', '_']), seq!['*']), seq!['_']),
            seq!['`'],
        ),
    )
}

/// Removes every closed pair of the delimiter `d`, as `strip_pairs` says.
fn strip_pairs_of(s: Vec<char>, d: &Vec<char>) -> (r: Vec<char>)
    requires
        d@.len() > 0,
    ensures
        r@ == strip_pairs(s@, d@),
{
    let mut cur = s;
    let n = d.len();
    loop
        invariant
            n == d@.len(),
            n > 0,
            strip_pairs(cur@, d@) == strip_pairs(s@, d@),
        decreases cur@.len(),
    {
        let len = cur.len();
        let a = match find_from(&cur, d, 0) {
            None => return cur,
            Some(a) => a,
        };
        let b = match find_from(&cur, d, a + n) {
            None => return cur,
            Some(b) => b,
        };
        let mut next: Vec<char> = Vec::new();
        push_range(&mut next, &cur, 0, a);
        push_range(&mut next, &cur, a + n, b);
        push_range(&mut next, &cur, b + n, cur.len());
        proof {
            assert(next@ =~= cur@.subrange(0, a as int) + cur@.subrange(a + n, b as int) + cur@.subrange(
                b + n,
                cur@.len() as int,
            ));
        }
        cur = next;
    }
}

/// Replaces every link as `strip_links` says.
fn strip_links_of(s: Vec<char>) -> (r: Vec<char>)
    ensures
        r@ == strip_links(s@),
{
    let open = vec!['['];
    let close = vec![']'];
    let paren = vec![')'];
    proof {
        assert(open@ =~= seq!['[']);
        assert(close@ =~= seq![']']);
        assert(paren@ =~= seq![')']);
    }
    let mut cur = s;
    loop
        invariant
            open@ == seq!['['],
            close@ == seq![']'],
            paren@ == seq![')'],
            strip_links(cur@) == strip_links(s@),
        decreases cur@.len(),
    {
        let len = cur.len();
        let a = match find_from(&cur, &open, 0) {
            None => return cur,
            Some(a) => a,
        };
        let b = match find_from(&cur, &close, a) {
            None => return cur,
            Some(b) => b,
        };
        if !(b + 1 < cur.len() && cur[b + 1] == '(') {
            return cur;
        }
        let c = match find_from(&cur, &paren, b + 1) {
            None => return cur,
            Some(c) => c,
        };
        proof {
            assert(cur@.subrange(a as int, a + 1)[0] == '[');
            assert(cur@.subrange(b as int, b + 1)[0] == ']');
            assert(cur@.subrange(c as int, c + 1)[0] == ')');
            assert(cur@[a as int] == '[');
            assert(cur@[b as int] == ']');
            assert(cur@[c as int] == ')');
        }
        let mut next: Vec<char> = Vec::new();
        push_range(&mut next, &cur, 0, a);
        push_range(&mut next, &cur, a + 1, b);
        push_range(&mut next, &cur, c + 1, cur.len());
        proof {
            assert(next@ =~= cur@.subrange(0, a as int) + cur@.subrange(a + 1, b as int) + cur@.subrange(
                c + 1,
                cur@.len() as int,
            ));
        }
        cur = next;
    }
}

fn clean_inline_chars(s: Vec<char>) -> (r: Vec<char>)
    ensures
        r@ == clean_inline(s@),
{
    let bold_star = vec!['*', '*'];
    let bold_line = vec!['_', '_'];
    let star = vec!['*'];
    let line = vec!['_'];
    let tick = vec!['`'];
    proof {
        assert(bold_star@ =~= seq!['*', '*']);
        assert(bold_line@ =~= seq!['_', '_']);
        assert(star@ =~= seq!['*']);
        assert(line@ =~= seq!['_']);
        assert(tick@ =~= seq!['`']);
    }
    let t = strip_pairs_of(s, &bold_star);
    let t = strip_pairs_of(t, &bold_line);
    let t = strip_pairs_of(t, &star);
    let t = strip_pairs_of(t, &line);
    let t = strip_pairs_of(t, &tick);
    strip_links_of(t)
}

/// Plain text for a line of markdown: `**bold**`, `__bold__`, `*italic*`,
/// `_italic_` and `` `code` `` keep their text without the marks, and a link
/// `[text](target)` keeps its text.
pub fn clean_inline_formatting(text: &str) -> (r: String)
    ensures
        r@ == clean_inline(text@),
{
    let c = clean_inline_chars(chars_of(text));
    string_of(c.as_slice())
}

/// Whether `c` is an ASCII digit.
pub open spec fn is_digit(c: char) -> bool {
    '0' <= c && c <= '9'
}

/// A trimmed line of markdown as plain text, with its line break: headings
/// (`# `, `## `, `### `) stand alone between blank lines; `- item` and
/// numbered items (`1. item`) become bullets; other lines lose their inline marks.
pub open spec fn render_line(t: Seq<char>) -> Seq<char> {
    if t.len() == 0 {
        seq!['\n']
    } else if occurs_at(t, seq!['#', ' '], 0) {
        seq!['\n'] + t.skip(2) + seq!['\n', '\n']
    } else if occurs_at(t, seq!['#', '#', ' '], 0) {
        seq!['\n'] + t.skip(3) + seq!['\n', '\n']
    } else if occurs_at(t, seq!['#', '#', '#', ' '], 0) {
        seq!['\n'] + t.skip(4) + seq!['\n', '\n']
    } else if occurs_at(t, seq!['-', ' '], 0) {
        seq!['•', ' '] + clean_inline(t.skip(2)) + seq!['\n']
    } else if is_digit(t[0]) && first_at(t, seq!['.', ' '], 0) is Some {
        seq!['•', ' '] + clean_inline(t.skip(first_at(t, seq!['.', ' '], 0).unwrap() + 2)) + seq!['\n']
    } else {
        clean_inline(t) + seq!['\n']
    }
}

/// The lines of `s` from position `pos` on, each trimmed and rendered; a
/// line ends at a line feed (a carriage return before it is white space).
pub open spec fn render_from(s: Seq<char>, pos: int) -> Seq<char>
    decreases s.len() - pos,
{
    if pos < 0 || pos >= s.len() {
        Seq::empty()
    } else {
        match first_at(s, seq!['\n'], pos) {
            None => render_line(trim(s.subrange(pos, s.len() as int))),
            Some(i) => if pos <= i < s.len() {
                render_line(trim(s.subrange(pos, i))) + render_from(s, i + 1)
            } else {
                Seq::empty()
            },
        }
    }
}

/// A markdown note as plain text.
pub open spec fn markdown_text(s: Seq<char>) -> Seq<char> {
    trim(render_from(s, 0))
}

fn suffix_from(t: &Vec<char>, k: usize) -> (r: Vec<char>)
    requires
        k <= t@.len(),
    ensures
        r@ == t@.skip(k as int),
{
    let mut r: Vec<char> = Vec::new();
    push_range(&mut r, t, k, t.len());
    proof {
        assert(r@ =~= t@.skip(k as int));
    }
    r
}

fn render_line_of(t: &Vec<char>) -> (r: Vec<char>)
    ensures
        r@ == render_line(t@),
{
    let h1 = vec!['#', ' '];
    let h2 = vec!['#', '#', ' '];
    let h3 = vec!['#', '#', '#', ' '];
    let bullet = vec!['-', ' '];
    let dot = vec!['.', ' '];
    proof {
        assert(h1@ =~= seq!['#', ' ']);
        assert(h2@ =~= seq!['#', '#', ' ']);
        assert(h3@ =~= seq!['#', '#', '#', ' ']);
        assert(bullet@ =~= seq!['-', ' ']);
        assert(dot@ =~= seq!['.', ' ']);
    }
    let mut r: Vec<char> = Vec::new();
    if t.len() == 0 {
        r.push('\n');
        proof {
            assert(r@ =~= seq!['\n']);
        }
        return r;
    }
    let heading: usize = if matches_at(t, &h1, 0) {
        2
    } else if matches_at(t, &h2, 0) {
        3
    } else if matches_at(t, &h3, 0) {
        4
    } else {
        0
    };
    if heading > 0 {
        r.push('\n');
        push_range(&mut r, t, heading, t.len());
        r.push('\n');
        r.push('\n');
        proof {
            assert(r@ =~= seq!['\n'] + t@.skip(heading as int) + seq!['\n', '\n']);
        }
        return r;
    }
    let start: Option<usize> = if matches_at(t, &bullet, 0) {
        Some(2)
    } else if '0' <= t[0] && t[0] <= '9' {
        match find_from(t, &dot, 0) {
            Some(d) => Some(d + 2),
            None => None,
        }
    } else {
        None
    };
    match start {
        Some(k) => {
            r.push('•');
            r.push(' ');
            let body = clean_inline_chars(suffix_from(t, k));
            push_range(&mut r, &body, 0, body.len());
            r.push('\n');
            proof {
                assert(body@.subrange(0, body@.len() as int) =~= body@);
                assert(r@ =~= seq!['•', ' '] + body@ + seq!['\n']);
            }
            r
        },
        None => {
            let mut body = clean_inline_chars(suffix_from(t, 0));
            body.push('\n');
            proof {
                assert(t@.skip(0) =~= t@);
            }
            body
        },
    }
}

/// Plain text for a markdown note: each line is trimmed; headings stand
/// alone between blank lines, list items become `• ` bullets, inline marks
/// and links are dropped, and the whole is trimmed at the end.
pub fn simple_markdown_to_clean_text(markdown: &str) -> (r: String)
    ensures
        r@ == markdown_text(markdown@),
{
    let s = chars_of(markdown);
    let nl = vec!['\n'];
    proof {
        assert(nl@ =~= seq!['\n']);
    }
    let mut out: Vec<char> = Vec::new();
    let mut pos: usize = 0;
    while pos < s.len()
        invariant
            pos <= s@.len(),
            s@ == markdown@,
            nl@ == seq!['\n'],
            out@ + render_from(s@, pos as int) == render_from(s@, 0),
        decreases s.len() - pos,
    {
        let ghost before = out@;
        match find_from(&s, &nl, pos) {
            None => {
                let line = render_line_of(&trim_range(&s, pos, s.len()));
                push_range(&mut out, &line, 0, line.len());
                proof {
                    assert(line@.subrange(0, line@.len() as int) =~= line@);
                    assert(render_from(s@, s@.len() as int) =~= Seq::empty());
                    assert(out@ + render_from(s@, s@.len() as int) =~= before + render_from(s@, pos as int));
                }
                pos = s.len();
            },
            Some(e) => {
                let line = render_line_of(&trim_range(&s, pos, e));
                push_range(&mut out, &line, 0, line.len());
                proof {
                    assert(line@.subrange(0, line@.len() as int) =~= line@);
                    assert(out@ + render_from(s@, e + 1) =~= before + render_from(s@, pos as int));
                }
                pos = e + 1;
            },
        }
    }
    proof {
        assert(render_from(s@, pos as int) =~= Seq::empty());
        assert(out@ =~= render_from(s@, 0));
    }
    let t = trim_range(&out, 0, out.len());
    proof {
        assert(out@.subrange(0, out@.len() as int) =~= out@);
    }
    string_of(t.as_slice())
}

} // verus!
