//! The syntax of progress templates: literal text, `{tag}`s, and `{{` / `}}`
//! escapes; and the parts of a tag.
use vstd::prelude::*;
use crate::strs::{
    char_vecs, chars_of, find_char, first_index_of, lemma_first_index_of, split_chars, split_seq,
    string_of, strings, sub_chars, trim_chars, trim_seq,
};

verus! {

/// A piece of a template, by value.
pub enum PieceView {
    Text(Seq<char>),
    Tag(Seq<char>),
}

/// A piece of a template: literal text, or the inside of a `{tag}`.
#[derive(Debug, Clone)]
pub enum TemplatePiece {
    Text(String),
    Tag(String),
}

impl View for TemplatePiece {
    type V = PieceView;

    open spec fn view(&self) -> PieceView {
        match self {
            TemplatePiece::Text(s) => PieceView::Text(s@),
            TemplatePiece::Tag(s) => PieceView::Tag(s@),
        }
    }
}

/// The views of a sequence of pieces.
pub open spec fn piece_views(v: Seq<TemplatePiece>) -> Seq<PieceView> {
    v.map_values(|p: TemplatePiece| p@)
}

/// An occurrence of `c` at `k` means a first occurrence at or before `k`.
proof fn lemma_first_occurrence(s: Seq<char>, c: char, k: int)
    requires
        0 <= k < s.len(),
        s[k] == c,
    ensures
        exists|i: int| 0 <= i <= k && s[i] == c && forall|j: int| 0 <= j < i ==> s[j] != c,
    decreases k,
{
    if exists|j: int| 0 <= j < k && s[j] == c {
        let j = choose|j: int| 0 <= j < k && s[j] == c;
        lemma_first_occurrence(s, c, j);
    } else {
        assert(forall|j: int| 0 <= j < k ==> s[j] != c);
    }
}

/// The first index of `c`, when there is one, holds `c` and lies in `s`.
pub proof fn lemma_first_index_bounds(s: Seq<char>, c: char)
    ensures
        first_index_of(s, c) matches Some(j) ==> 0 <= j < s.len() && s[j] == c,
{
    if s.contains(c) {
        let k = choose|k: int| 0 <= k < s.len() && s[k] == c;
        lemma_first_occurrence(s, c, k);
    }
}

/// The pieces of template text `s`, from left to right: `{{` is a literal `{` and
/// `}}` a literal `}`; `{` up to the next `}` is a tag; a `{` with no `}` after it
/// is literal; every other character is literal.
pub open spec fn template_pieces(s: Seq<char>) -> Seq<PieceView>
    decreases s.len(),
{
    if s.len() == 0 {
        Seq::empty()
    } else if s[0] == '{' {
        if s.len() > 1 && s[1] == '{' {
            seq![PieceView::Text(seq!['{'])] + template_pieces(s.skip(2))
        } else {
            proof {
                lemma_first_index_bounds(s, '}');
            }
            match first_index_of(s, '}') {
                Some(j) => if 0 < j < s.len() {
                    seq![PieceView::Tag(s.subrange(1, j))] + template_pieces(s.skip(j + 1))
                } else {
                    Seq::empty()
                },
                None => seq![PieceView::Text(seq!['{'])] + template_pieces(s.skip(1)),
            }
        }
    } else if s[0] == '}' && s.len() > 1 && s[1] == '}' {
        seq![PieceView::Text(seq!['}'])] + template_pieces(s.skip(2))
    } else {
        seq![PieceView::Text(seq![s[0]])] + template_pieces(s.skip(1))
    }
}

fn text_piece(c: char) -> (r: TemplatePiece)
    ensures
        r@ == PieceView::Text(seq![c]),
{
    let mut s = String::new();
    crate::strs::push_char(&mut s, c);
    assert(s@ =~= seq![c]);
    TemplatePiece::Text(s)
}

/// The piece that starts at `i`, and where the next piece starts.
fn scan_step(chars: &Vec<char>, i: usize) -> (r: (TemplatePiece, usize))
    requires
        i < chars@.len(),
    ensures
        i < r.1 <= chars@.len(),
        template_pieces(chars@.skip(i as int)) == seq![r.0@] + template_pieces(chars@.skip(r.1 as int)),
{
    let n = chars.len();
    let ghost s = chars@.skip(i as int);
    assert(s[0] == chars@[i as int]);
    if chars[i] == '{' {
        if i + 1 < n && chars[i + 1] == '{' {
            assert(s[1] == chars@[i + 1]);
            assert(s.skip(2) =~= chars@.skip(i + 2));
            (text_piece('{'), i + 2)
        } else {
            if i + 1 < n {
                assert(s[1] == chars@[i + 1]);
            }
            let rest = sub_chars(chars.as_slice(), i + 1, n);
            match find_char(rest.as_slice(), '}') {
                Some(k) => {
                    let j = i + 1 + k;
                    proof {
                        assert forall|q: int| 0 <= q < j - i implies s[q] != '}' by {
                            if q > 0 {
                                assert(s[q] == rest@[q - 1]);
                            }
                        }
                        assert(s[j - i] == rest@[k as int]);
                        lemma_first_index_of(s, '}', j - i);
                    }
                    let tag = string_of(sub_chars(chars.as_slice(), i + 1, j).as_slice());
                    assert(tag@ =~= s.subrange(1, j - i));
                    assert(s.skip(j - i + 1) =~= chars@.skip(j + 1));
                    (TemplatePiece::Tag(tag), j + 1)
                },
                None => {
                    proof {
                        assert forall|q: int| 0 <= q < s.len() implies s[q] != '}' by {
                            if q > 0 {
                                assert(s[q] == rest@[q - 1]);
                                assert(!rest@.contains('}'));
                            }
                        }
                        assert(!s.contains('}'));
                    }
                    assert(s.skip(1) =~= chars@.skip(i + 1));
                    (text_piece('{'), i + 1)
                },
            }
        }
    } else if chars[i] == '}' && i + 1 < n && chars[i + 1] == '}' {
        assert(s[1] == chars@[i + 1]);
        assert(s.skip(2) =~= chars@.skip(i + 2));
        (text_piece('}'), i + 2)
    } else {
        if i + 1 < n {
            assert(s[1] == chars@[i + 1]);
        }
        assert(s.skip(1) =~= chars@.skip(i + 1));
        (text_piece(chars[i]), i + 1)
    }
}

/// Splits template text into its pieces.
pub fn scan_template(template: &str) -> (r: Vec<TemplatePiece>)
    ensures
        piece_views(r@) == template_pieces(template@),
{
    let chars = chars_of(template);
    let n = chars.len();
    let mut out: Vec<TemplatePiece> = Vec::new();
    let mut i: usize = 0;
    assert(chars@.skip(0) =~= chars@);
    assert(piece_views(out@) =~= Seq::<PieceView>::empty());
    while i < n
        invariant
            i <= n,
            n == chars@.len(),
            chars@ == template@,
            piece_views(out@) + template_pieces(chars@.skip(i as int)) == template_pieces(chars@),
        decreases n - i,
    {
        let ghost before = piece_views(out@);
        let (piece, next) = scan_step(&chars, i);
        out.push(piece);
        assert(piece_views(out@) =~= before.push(piece@));
        assert(piece_views(out@) + template_pieces(chars@.skip(next as int)) =~= before + (seq![piece@]
            + template_pieces(chars@.skip(next as int))));
        i = next;
    }
    assert(chars@.skip(n as int) =~= Seq::<char>::empty());
    assert(piece_views(out@) + Seq::<PieceView>::empty() =~= piece_views(out@));
    out
}

/// The parts of a tag: its variable name, and its format parameters when it has any.
pub struct TagSpec {
    pub name: String,
    pub formats: Option<Vec<String>>,
}

/// The parts of a tag by value: the text before the first `:`, trimmed; and the
/// text after it, trimmed and split at every `:`.
pub open spec fn tag_parts(tag: Seq<char>) -> (Seq<char>, Option<Seq<Seq<char>>>) {
    match first_index_of(tag, ':') {
        Some(k) => (trim_seq(tag.take(k)), Some(split_seq(trim_seq(tag.skip(k + 1)), ':'))),
        None => (trim_seq(tag), None),
    }
}

/// The parts of `tag`, as `tag_parts` says.
pub fn split_tag(tag: &str) -> (r: TagSpec)
    ensures
        (r.name@, match r.formats {
            Some(v) => Some(strings(v@)),
            None => None,
        }) == tag_parts(tag@),
{
    let chars = chars_of(tag);
    let n = chars.len();
    match find_char(chars.as_slice(), ':') {
        Some(k) => {
            proof {
                lemma_first_index_of(tag@, ':', k as int);
            }
            let head = sub_chars(chars.as_slice(), 0, k);
            assert(head@ =~= tag@.take(k as int));
            let name = string_of(trim_chars(head.as_slice()).as_slice());
            let tail = sub_chars(chars.as_slice(), k + 1, n);
            assert(tail@ =~= tag@.skip(k as int + 1));
            let spec_chars = trim_chars(tail.as_slice());
            let pieces = split_chars(spec_chars.as_slice(), ':');
            let mut formats: Vec<String> = Vec::new();
            let mut i: usize = 0;
            while i < pieces.len()
                invariant
                    i <= pieces@.len(),
                    strings(formats@) == char_vecs(pieces@).take(i as int),
                decreases pieces@.len() - i,
            {
                let f = string_of(pieces[i].as_slice());
                let ghost before = strings(formats@);
                formats.push(f);
                assert(strings(formats@) =~= before.push(f@));
                assert(char_vecs(pieces@).take(i as int + 1) =~= char_vecs(pieces@).take(i as int).push(
                    pieces@[i as int]@,
                ));
                i = i + 1;
            }
            assert(char_vecs(pieces@).take(pieces@.len() as int) =~= char_vecs(pieces@));
            TagSpec { name, formats: Some(formats) }
        },
        None => {
            let name = string_of(trim_chars(chars.as_slice()).as_slice());
            TagSpec { name, formats: None }
        },
    }
}

/// Text without braces is all literal: each character is a piece of its own.
pub proof fn law_plain_text(s: Seq<char>)
    requires
        !s.contains('{'),
        !s.contains('}'),
    ensures
        template_pieces(s) == s.map_values(|c: char| PieceView::Text(seq![c])),
    decreases s.len(),
{
    if s.len() > 0 {
        let t = s.skip(1);
        assert(s[0] != '{' && s[0] != '}') by {
            assert(s.contains(s[0]));
        }
        assert(!t.contains('{') && !t.contains('}')) by {
            if t.contains('{') {
                let k = choose|k: int| 0 <= k < t.len() && t[k] == '{';
                assert(s[k + 1] == '{');
            }
            if t.contains('}') {
                let k = choose|k: int| 0 <= k < t.len() && t[k] == '}';
                assert(s[k + 1] == '}');
            }
        }
        law_plain_text(t);
        assert(template_pieces(s) == seq![PieceView::Text(seq![s[0]])] + template_pieces(t));
        assert(seq![PieceView::Text(seq![s[0]])] + t.map_values(|c: char| PieceView::Text(seq![c])) =~= s.map_values(
            |c: char| PieceView::Text(seq![c]),
        ));
    } else {
        assert(s.map_values(|c: char| PieceView::Text(seq![c])) =~= Seq::<PieceView>::empty());
    }
}

/// `{{` and `}}` stand for literal braces.
pub proof fn law_escaped_braces(rest: Seq<char>)
    ensures
        template_pieces(seq!['{', '{'] + rest) == seq![PieceView::Text(seq!['{'])] + template_pieces(rest),
        template_pieces(seq!['}', '}'] + rest) == seq![PieceView::Text(seq!['}'])] + template_pieces(rest),
{
    assert((seq!['{', '{'] + rest).skip(2) =~= rest);
    assert((seq!['}', '}'] + rest).skip(2) =~= rest);
}

} // verus!
