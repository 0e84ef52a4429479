//! A flat model of a Rust token stream.
//!
//! A group `( ... )` is written as an `Open` token, the group's tokens and a
//! `Close` token, so that a stream is a plain sequence.  Invisible delimiters
//! (the ones a `macro_rules!` fragment such as `$v:vis` is wrapped in) are kept
//! as tokens of their own and printed as nothing.
use vstd::prelude::*;

use crate::std_calls::push_char;

verus! {

/// The delimiter of a group.
#[derive(Clone, Copy, PartialEq, Eq, Debug, Structural)]
pub enum Delimiter {
    /// `( ... )`
    Parenthesis,
    /// `{ ... }`
    Brace,
    /// `[ ... ]`
    Bracket,
    /// A group without visible delimiters.
    Invisible,
}

/// Whether a punctuation character is glued to the punctuation that follows it
/// (`::` is a `:` that is `Joint` followed by a `:`).
#[derive(Clone, Copy, PartialEq, Eq, Debug, Structural)]
pub enum Spacing {
    Alone,
    Joint,
}

/// One token of a flat token stream.
#[derive(Debug, PartialEq, Eq)]
pub enum Tok {
    /// The opening delimiter of a group.
    Open(Delimiter),
    /// The closing delimiter of a group.
    Close(Delimiter),
    /// An identifier or keyword, as written (`Foo`, `pub`, `r#type`).
    Ident(String),
    /// A punctuation character.
    Punct(char, Spacing),
    /// A literal, as written (`"text"`, `42u8`).
    Literal(String),
}

/// The mathematical value of a [`Tok`].
pub enum TokenView {
    Open(Delimiter),
    Close(Delimiter),
    Ident(Seq<char>),
    Punct(char, Spacing),
    Literal(Seq<char>),
}

impl View for Tok {
    type V = TokenView;

    open spec fn view(&self) -> TokenView {
        match self {
            Tok::Open(d) => TokenView::Open(*d),
            Tok::Close(d) => TokenView::Close(*d),
            Tok::Ident(s) => TokenView::Ident(s@),
            Tok::Punct(c, sp) => TokenView::Punct(*c, *sp),
            Tok::Literal(s) => TokenView::Literal(s@),
        }
    }
}

/// The view of each token of a sequence.
pub open spec fn tokens_view(v: Seq<Tok>) -> Seq<TokenView> {
    Seq::new(v.len(), |i: int| v[i]@)
}

/// The text that one token is printed as.
pub open spec fn token_text(t: TokenView) -> Seq<char> {
    match t {
        TokenView::Open(Delimiter::Parenthesis) => seq!['('],
        TokenView::Open(Delimiter::Brace) => seq!['{'],
        TokenView::Open(Delimiter::Bracket) => seq!['['],
        TokenView::Open(Delimiter::Invisible) => seq![],
        TokenView::Close(Delimiter::Parenthesis) => seq![')'],
        TokenView::Close(Delimiter::Brace) => seq!['}'],
        TokenView::Close(Delimiter::Bracket) => seq![']'],
        TokenView::Close(Delimiter::Invisible) => seq![],
        TokenView::Ident(s) => s,
        TokenView::Punct(c, _) => seq![c],
        TokenView::Literal(s) => s,
    }
}

/// Whether printing `t` right before `u` would start a comment (`//` or
/// `/*`).
pub open spec fn starts_comment(t: TokenView, u: TokenView) -> bool {
    is_punct_view(t, '/') && (is_punct_view(u, '/') || is_punct_view(u, '*'))
}

/// The token is the punctuation character `c`, glued or not.
pub open spec fn is_punct_view(t: TokenView, c: char) -> bool {
    t matches TokenView::Punct(x, _) && x == c
}

/// What is printed between a token `t` and the next one `u`: nothing after a
/// joint punctuation character, unless the two would start a comment; a
/// space otherwise.
pub open spec fn gap_between(t: TokenView, u: TokenView) -> Seq<char> {
    if t matches TokenView::Punct(_, Spacing::Joint) && !starts_comment(t, u) {
        seq![]
    } else {
        seq![' ']
    }
}

/// The source text of a token sequence.
pub open spec fn print(s: Seq<TokenView>) -> Seq<char>
    decreases s.len(),
{
    if s.len() == 0 {
        seq![]
    } else if s.len() == 1 {
        token_text(s[0])
    } else {
        print(s.drop_last()) + gap_between(s[s.len() - 2], s.last()) + token_text(s.last())
    }
}

/// An opening or closing invisible delimiter.
pub open spec fn is_invisible_delimiter(t: TokenView) -> bool {
    ||| t matches TokenView::Open(Delimiter::Invisible)
    ||| t matches TokenView::Close(Delimiter::Invisible)
}

/// The sequence with its invisible delimiters left out, the order of the other
/// tokens kept.
pub open spec fn visible(s: Seq<TokenView>) -> Seq<TokenView>
    decreases s.len(),
{
    if s.len() == 0 {
        seq![]
    } else if is_invisible_delimiter(s.last()) {
        visible(s.drop_last())
    } else {
        visible(s.drop_last()).push(s.last())
    }
}

/// Scanning from index `k` with `depth` groups open, the index of the token
/// that closes the outermost of them, if the sequence holds one.
pub open spec fn scan_close(s: Seq<TokenView>, k: int, depth: nat) -> Option<int>
    decreases s.len() - k,
{
    if k < 0 || k >= s.len() || depth == 0 {
        None
    } else {
        match s[k] {
            TokenView::Open(_) => scan_close(s, k + 1, depth + 1),
            TokenView::Close(_) => if depth == 1 {
                Some(k)
            } else {
                scan_close(s, k + 1, (depth - 1) as nat)
            },
            _ => scan_close(s, k + 1, depth),
        }
    }
}

/// The index of the token that closes the group opened at index `open`.
pub open spec fn group_end(s: Seq<TokenView>, open: int) -> Option<int> {
    scan_close(s, open + 1, 1)
}

/// A closing index found by the scan lies at or after where it started, and
/// within the sequence.
pub proof fn lemma_scan_close_bounds(s: Seq<TokenView>, k: int, depth: nat)
    ensures
        scan_close(s, k, depth) matches Some(j) ==> k <= j < s.len(),
    decreases s.len() - k,
{
    if k < 0 || k >= s.len() || depth == 0 {
    } else {
        match s[k] {
            TokenView::Open(_) => lemma_scan_close_bounds(s, k + 1, depth + 1),
            TokenView::Close(_) => if depth != 1 {
                lemma_scan_close_bounds(s, k + 1, (depth - 1) as nat)
            },
            _ => lemma_scan_close_bounds(s, k + 1, depth),
        }
    }
}

/// A scan that finds its closing token before the end of `s` finds the same
/// one in any sequence that `s` is a prefix of.
pub proof fn lemma_scan_close_extend(s: Seq<TokenView>, t: Seq<TokenView>, k: int, depth: nat)
    requires
        scan_close(s, k, depth) is Some,
    ensures
        scan_close(s + t, k, depth) == scan_close(s, k, depth),
    decreases s.len() - k,
{
    let st = s + t;
    assert(k < s.len());
    assert(st[k] == s[k]);
    match s[k] {
        TokenView::Open(_) => lemma_scan_close_extend(s, t, k + 1, depth + 1),
        TokenView::Close(_) => if depth != 1 {
            lemma_scan_close_extend(s, t, k + 1, (depth - 1) as nat)
        },
        _ => lemma_scan_close_extend(s, t, k + 1, depth),
    }
}

impl Tok {
    /// A copy of the token.
    pub fn duplicate(&self) -> (r: Tok)
        ensures
            r@ == self@,
    {
        match self {
            Tok::Open(d) => Tok::Open(*d),
            Tok::Close(d) => Tok::Close(*d),
            Tok::Ident(s) => Tok::Ident(s.clone()),
            Tok::Punct(c, sp) => Tok::Punct(*c, *sp),
            Tok::Literal(s) => Tok::Literal(s.clone()),
        }
    }

    /// Whether the token is a joint punctuation character.
    pub fn is_joint(&self) -> (r: bool)
        ensures
            r == (self@ matches TokenView::Punct(_, Spacing::Joint)),
    {
        match self {
            Tok::Punct(_, Spacing::Joint) => true,
            _ => false,
        }
    }

    /// Whether the token is an opening or closing invisible delimiter.
    pub fn is_invisible_delimiter(&self) -> (r: bool)
        ensures
            r == is_invisible_delimiter(self@),
    {
        match self {
            Tok::Open(Delimiter::Invisible) => true,
            Tok::Close(Delimiter::Invisible) => true,
            _ => false,
        }
    }

    /// Whether the token is the punctuation character `c`, glued or not.
    pub fn is_punct(&self, c: char) -> (r: bool)
        ensures
            r == (self@ matches TokenView::Punct(x, _) && x == c),
    {
        match self {
            Tok::Punct(x, _) => *x == c,
            _ => false,
        }
    }

    /// Appends the text of the token to `out`.
    pub fn append_text(&self, out: &mut String)
        ensures
            final(out)@ == old(out)@ + token_text(self@),
    {
        let ghost before = out@;
        match self {
            Tok::Open(Delimiter::Parenthesis) => push_char(out, '('),
            Tok::Open(Delimiter::Brace) => push_char(out, '{'),
            Tok::Open(Delimiter::Bracket) => push_char(out, '['),
            Tok::Close(Delimiter::Parenthesis) => push_char(out, ')'),
            Tok::Close(Delimiter::Brace) => push_char(out, '}'),
            Tok::Close(Delimiter::Bracket) => push_char(out, ']'),
            Tok::Open(Delimiter::Invisible) => {},
            Tok::Close(Delimiter::Invisible) => {},
            Tok::Ident(s) => out.append(s.as_str()),
            Tok::Punct(c, _) => push_char(out, *c),
            Tok::Literal(s) => out.append(s.as_str()),
        }
        assert(out@ =~= before + token_text(self@));
    }
}

/// Appends copies of `src[lo..hi]` to `dst`.
pub fn append_copies(dst: &mut Vec<Tok>, src: &Vec<Tok>, lo: usize, hi: usize)
    requires
        lo <= hi <= src.len(),
    ensures
        tokens_view(final(dst)@) == tokens_view(old(dst)@) + tokens_view(src@).subrange(
            lo as int,
            hi as int,
        ),
{
    let ghost start = tokens_view(dst@);
    let mut k = lo;
    while k < hi
        invariant
            lo <= k <= hi <= src.len(),
            tokens_view(dst@) =~= start + tokens_view(src@).subrange(lo as int, k as int),
        decreases hi - k,
    {
        let t = src[k].duplicate();
        let ghost before = dst@;
        dst.push(t);
        assert(dst@ == before.push(t));
        assert(tokens_view(before).len() == before.len());
        assert(before.len() == start.len() + (k - lo));
        assert(dst@[before.len() as int] == t);
        assert(t@ == src@[k as int]@);
        assert forall|j: int| 0 <= j < dst@.len() implies tokens_view(dst@)[j] == (start
            + tokens_view(src@).subrange(lo as int, k + 1))[j] by {
            if j < before.len() {
                assert(tokens_view(before)[j] == (start + tokens_view(src@).subrange(
                    lo as int,
                    k as int,
                ))[j]);
            }
        }
        k = k + 1;
        assert(tokens_view(dst@) =~= start + tokens_view(src@).subrange(lo as int, k as int));
    }
}

/// The tokens of `v` without its invisible delimiters.
pub fn strip_invisible(v: &Vec<Tok>) -> (r: Vec<Tok>)
    ensures
        tokens_view(r@) == visible(tokens_view(v@)),
{
    let mut r: Vec<Tok> = Vec::new();
    for i in 0..v.len()
        invariant
            tokens_view(r@) == visible(tokens_view(v@).take(i as int)),
    {
        let ghost pre = tokens_view(v@).take(i as int);
        let ghost next = tokens_view(v@).take(i + 1);
        assert(next.drop_last() =~= pre);
        assert(next.last() == v@[i as int]@);
        if !v[i].is_invisible_delimiter() {
            r.push(v[i].duplicate());
            assert(tokens_view(r@) =~= visible(pre).push(v@[i as int]@));
        }
    }
    assert(tokens_view(v@).take(v.len() as int) =~= tokens_view(v@));
    r
}

/// The index of the token that closes the group opened at index `open`, if
/// the sequence holds one.
pub fn find_group_end(v: &Vec<Tok>, open: usize) -> (r: Option<usize>)
    requires
        open < v.len(),
    ensures
        match r {
            Some(j) => group_end(tokens_view(v@), open as int) == Some(j as int),
            None => group_end(tokens_view(v@), open as int) is None,
        },
{
    let ghost s = tokens_view(v@);
    let mut k = open + 1;
    let mut depth: usize = 1;
    while k < v.len()
        invariant
            open < k <= v.len(),
            1 <= depth <= k - open,
            s == tokens_view(v@),
            scan_close(s, k as int, depth as nat) == group_end(s, open as int),
        decreases v.len() - k,
    {
        assert(s[k as int] == v@[k as int]@);
        match &v[k] {
            Tok::Open(_) => {
                depth = depth + 1;
            },
            Tok::Close(_) => {
                if depth == 1 {
                    return Some(k);
                }
                depth = depth - 1;
            },
            _ => {},
        }
        k = k + 1;
    }
    None
}

/// The source text of `v[lo..hi]`.
pub fn print_range(v: &Vec<Tok>, lo: usize, hi: usize) -> (r: String)
    requires
        lo <= hi <= v.len(),
    ensures
        r@ == print(tokens_view(v@).subrange(lo as int, hi as int)),
{
    let ghost s = tokens_view(v@);
    let mut out = String::new();
    let mut k = lo;
    while k < hi
        invariant
            lo <= k <= hi <= v.len(),
            s == tokens_view(v@),
            out@ == print(s.subrange(lo as int, k as int)),
        decreases hi - k,
    {
        let ghost pre = s.subrange(lo as int, k as int);
        let ghost next = s.subrange(lo as int, k + 1);
        assert(next.drop_last() =~= pre);
        if k > lo {
            assert(next[next.len() - 2] == v@[k - 1]@);
            assert(next.last() == v@[k as int]@);
            let comment = v[k - 1].is_punct('/') && (v[k].is_punct('/') || v[k].is_punct('*'));
            if !v[k - 1].is_joint() || comment {
                push_char(&mut out, ' ');
            }
            assert(out@ =~= print(pre) + gap_between(next[next.len() - 2], next.last()));
        } else {
            assert(out@ =~= seq![]);
        }
        v[k].append_text(&mut out);
        k = k + 1;
        assert(out@ =~= print(next));
    }
    out
}

/// The source text of the whole sequence `v`.
pub fn print_tokens(v: &Vec<Tok>) -> (r: String)
    ensures
        r@ == print(tokens_view(v@)),
{
    let r = print_range(v, 0, v.len());
    assert(tokens_view(v@).subrange(0, v.len() as int) =~= tokens_view(v@));
    r
}

} // verus!
