//! Splitting a document's text into section headers and content lines.
use vstd::prelude::*;
use vstd::string::*;

verus! {

/// A non-blank line of a document.
#[derive(Debug, Clone, Hash, PartialEq)]
pub enum Token<'a> {
    /// A line starting with `[`, without its leading `[` and trailing `]`.
    SectionHeader(&'a str),
    /// Any other line, as it is.
    Line(&'a str),
}

impl<'a> Token<'a> {
    /// Whether the token is a section header, and its text.
    pub open spec fn model(&self) -> (bool, Seq<char>) {
        match self {
            Token::SectionHeader(s) => (true, s@),
            Token::Line(s) => (false, s@),
        }
    }
}

/// White space as Unicode defines it.
pub open spec fn is_white(c: char) -> bool {
    let u = c as u32;
    (0x09 <= u && u <= 0x0D) || u == 0x20 || u == 0x85 || u == 0xA0 || u == 0x1680 || (0x2000
        <= u && u <= 0x200A) || u == 0x2028 || u == 0x2029 || u == 0x202F || u == 0x205F || u
        == 0x3000
}

/// A line made of white space only, or empty.
pub open spec fn is_blank(l: Seq<char>) -> bool {
    forall|k: int| 0 <= k < l.len() ==> is_white(#[trigger] l[k])
}

/// The line without a carriage return that ends it.
pub open spec fn strip_cr(l: Seq<char>) -> Seq<char> {
    if l.len() > 0 && l.last() == '\r' {
        l.drop_last()
    } else {
        l
    }
}

/// The lines of `s` from the one starting at `start`, `i` being where the
/// search for its end goes on: split at each `\n`, a `\r` before it dropped,
/// no line after a final `\n`.
pub open spec fn lines_from(s: Seq<char>, start: int, i: int) -> Seq<Seq<char>>
    decreases s.len() - i,
{
    if i >= s.len() {
        if start < s.len() {
            seq![s.subrange(start, s.len() as int)]
        } else {
            Seq::empty()
        }
    } else if s[i] == '\n' {
        seq![strip_cr(s.subrange(start, i))] + lines_from(s, i + 1, i + 1)
    } else {
        lines_from(s, start, i + 1)
    }
}

/// The lines of `s`.
pub open spec fn lines(s: Seq<char>) -> Seq<Seq<char>> {
    lines_from(s, 0, 0)
}

/// `s` without the `[` that start it.
pub open spec fn strip_open(s: Seq<char>) -> Seq<char>
    decreases s.len(),
{
    if s.len() > 0 && s[0] == '[' {
        strip_open(s.drop_first())
    } else {
        s
    }
}

/// `s` without the `]` that end it.
pub open spec fn strip_close(s: Seq<char>) -> Seq<char>
    decreases s.len(),
{
    if s.len() > 0 && s.last() == ']' {
        strip_close(s.drop_last())
    } else {
        s
    }
}

/// The token of a non-blank line.
pub open spec fn line_model(l: Seq<char>) -> (bool, Seq<char>) {
    if l.len() > 0 && l[0] == '[' {
        (true, strip_close(strip_open(l)))
    } else {
        (false, l)
    }
}

/// The tokens of the non-blank lines, in order.
pub open spec fn tokens_of(ls: Seq<Seq<char>>) -> Seq<(bool, Seq<char>)>
    decreases ls.len(),
{
    if ls.len() == 0 {
        Seq::empty()
    } else if is_blank(ls.last()) {
        tokens_of(ls.drop_last())
    } else {
        tokens_of(ls.drop_last()).push(line_model(ls.last()))
    }
}

fn is_white_char(c: char) -> (r: bool)
    ensures
        r == is_white(c),
{
    let u = c as u32;
    (0x09 <= u && u <= 0x0D) || u == 0x20 || u == 0x85 || u == 0xA0 || u == 0x1680 || (0x2000
        <= u && u <= 0x200A) || u == 0x2028 || u == 0x2029 || u == 0x202F || u == 0x205F || u
        == 0x3000
}

/// The token of the characters `from..to` of `text`, none where they are
/// blank.
fn line_token<'a>(text: &'a str, from: usize, to: usize) -> (r: Option<Token<'a>>)
    requires
        from <= to <= text@.len(),
    ensures
        r is None <==> is_blank(text@.subrange(from as int, to as int)),
        r matches Some(t) ==> t.model() == line_model(text@.subrange(from as int, to as int)),
{
    let ghost l = text@.subrange(from as int, to as int);
    let mut k: usize = from;
    while k < to && is_white_char(text.get_char(k))
        invariant
            from <= k <= to <= text@.len(),
            l == text@.subrange(from as int, to as int),
            forall|j: int| 0 <= j < k - from ==> is_white(#[trigger] l[j]),
        decreases to - k,
    {
        k = k + 1;
    }
    if k == to {
        return None;
    }
    assert(!is_white(l[k - from]));
    assert(!is_blank(l));
    if text.get_char(from) != '[' {
        return Some(Token::Line(text.substring_char(from, to)));
    }
    let mut a: usize = from;
    while a < to && text.get_char(a) == '['
        invariant
            from <= a <= to <= text@.len(),
            strip_open(l) == strip_open(text@.subrange(a as int, to as int)),
        decreases to - a,
    {
        assert(text@.subrange(a as int, to as int).drop_first() =~= text@.subrange(
            a + 1,
            to as int,
        ));
        a = a + 1;
    }
    let ghost m = text@.subrange(a as int, to as int);
    let mut b: usize = to;
    while b > a && text.get_char(b - 1) == ']'
        invariant
            a <= b <= to <= text@.len(),
            strip_close(m) == strip_close(text@.subrange(a as int, b as int)),
        decreases b - a,
    {
        assert(text@.subrange(a as int, b as int).drop_last() =~= text@.subrange(
            a as int,
            b - 1,
        ));
        b = b - 1;
    }
    Some(Token::SectionHeader(text.substring_char(a, b)))
}

/// The non-blank lines of `text`, in order: those that start with `[` as
/// section headers without their brackets, the others as they are.
pub fn tokenize<'a>(text: &'a str) -> (r: Vec<Token<'a>>)
    ensures
        r@.map_values(|t: Token<'a>| t.model()) == tokens_of(lines(text@)),
{
    let n = text.unicode_len();
    let ghost s = text@;
    let mut out: Vec<Token<'a>> = Vec::new();
    let ghost mut done: Seq<Seq<char>> = Seq::empty();
    let mut start: usize = 0;
    let mut i: usize = 0;
    while i < n
        invariant
            n == s.len(),
            s == text@,
            start <= i <= n,
            lines(s) == done + lines_from(s, start as int, i as int),
            out@.map_values(|t: Token<'a>| t.model()) == tokens_of(done),
        decreases n - i,
    {
        if text.get_char(i) == '\n' {
            let mut e: usize = i;
            if e > start && text.get_char(e - 1) == '\r' {
                e = e - 1;
            }
            let ghost line = strip_cr(s.subrange(start as int, i as int));
            assert(s.subrange(start as int, e as int) =~= line);
            let t = line_token(text, start, e);
            proof {
                assert(lines_from(s, start as int, i as int) == seq![line] + lines_from(
                    s,
                    i + 1,
                    i + 1,
                ));
                assert(done + lines_from(s, start as int, i as int) =~= done.push(line)
                    + lines_from(s, i + 1, i + 1));
                assert(done.push(line).drop_last() =~= done);
            }
            match t {
                Some(t) => {
                    out.push(t);
                },
                None => {},
            }
            proof {
                done = done.push(line);
                assert(out@.map_values(|t: Token<'a>| t.model()) =~= tokens_of(done));
            }
            start = i + 1;
        }
        i = i + 1;
    }
    if start < n {
        let ghost line = s.subrange(start as int, n as int);
        let t = line_token(text, start, n);
        proof {
            assert(done + lines_from(s, start as int, n as int) =~= done.push(line));
            assert(done.push(line).drop_last() =~= done);
        }
        match t {
            Some(t) => {
                out.push(t);
            },
            None => {},
        }
        proof {
            done = done.push(line);
            assert(out@.map_values(|t: Token<'a>| t.model()) =~= tokens_of(done));
        }
    } else {
        assert(done + lines_from(s, start as int, n as int) =~= done);
    }
    out
}

} // verus!
