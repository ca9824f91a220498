//! Rendering a line from the matches found in it.
use vstd::prelude::*;
use vstd::string::StringSliceAdditionalSpecFns;
use vstd::utf8::{
    encode_utf8, is_char_boundary, length_of_first_scalar, pop_first_scalar, valid_utf8,
};

use crate::matcher::{captures_fit, span_fits, view_captures, whole};
use crate::rules::reset_seq;

verus! {

broadcast use vstd::utf8::encode_utf8_valid_utf8, vstd::utf8::encode_utf8_decode_utf8;

/// Encoding text as UTF-8 distributes over concatenation.
pub proof fn lemma_encode_concat(a: Seq<char>, b: Seq<char>)
    ensures
        encode_utf8(a + b) == encode_utf8(a) + encode_utf8(b),
    decreases a.len(),
{
    if a.len() == 0 {
        assert(a + b =~= b);
        assert(encode_utf8(a) =~= Seq::<u8>::empty());
        assert(encode_utf8(a) + encode_utf8(b) =~= encode_utf8(b));
    } else {
        assert((a + b).drop_first() =~= a.drop_first() + b);
        assert((a + b)[0] == a[0]);
        lemma_encode_concat(a.drop_first(), b);
        let h = vstd::utf8::encode_scalar(a[0] as u32);
        assert(h + (encode_utf8(a.drop_first()) + encode_utf8(b)) =~= (h + encode_utf8(
            a.drop_first(),
        )) + encode_utf8(b));
    }
}

/// A character boundary at or after another one is still a boundary of
/// the bytes that follow the first.
pub proof fn lemma_boundary_of_suffix(bytes: Seq<u8>, i: int, j: int)
    requires
        valid_utf8(bytes),
        0 <= i <= j <= bytes.len(),
        is_char_boundary(bytes, i),
        is_char_boundary(bytes, j),
    ensures
        valid_utf8(bytes.subrange(i, bytes.len() as int)),
        is_char_boundary(bytes.subrange(i, bytes.len() as int), j - i),
    decreases bytes.len(),
{
    if i == 0 {
        assert(bytes.subrange(0, bytes.len() as int) =~= bytes);
    } else {
        let l = length_of_first_scalar(bytes);
        let rest = pop_first_scalar(bytes);
        assert(0 < l <= bytes.len());
        assert(valid_utf8(rest));
        assert(is_char_boundary(rest, i - l));
        assert(is_char_boundary(rest, j - l));
        assert(rest.len() == bytes.len() - l);
        assert(0 <= i - l);
        assert(rest.subrange(i - l, rest.len() as int) =~= bytes.subrange(i, bytes.len() as int));
        lemma_boundary_of_suffix(rest, i - l, j - l);
    }
}

/// The bytes of `s` from `start` on.
fn byte_suffix(s: &str, start: usize) -> (r: &str)
    requires
        start <= s.spec_bytes().len(),
        is_char_boundary(s.spec_bytes(), start as int),
    ensures
        r.spec_bytes() == s.spec_bytes().subrange(start as int, s.spec_bytes().len() as int),
{
    let (_, tail) = s.split_at(start);
    tail
}

/// The bytes of `s` from `start` up to `end`.
fn byte_slice(s: &str, start: usize, end: usize) -> (r: &str)
    requires
        start <= end <= s.spec_bytes().len(),
        is_char_boundary(s.spec_bytes(), start as int),
        is_char_boundary(s.spec_bytes(), end as int),
    ensures
        r.spec_bytes() == s.spec_bytes().subrange(start as int, end as int),
{
    let tail = byte_suffix(s, start);
    proof {
        lemma_boundary_of_suffix(s.spec_bytes(), start as int, end as int);
    }
    let (piece, _) = tail.split_at(end - start);
    assert(piece.spec_bytes() =~= s.spec_bytes().subrange(start as int, end as int));
    piece
}

/// Every slot that stands for a rule names one of the `n` rules.
pub open spec fn table_fits(table: Seq<Option<usize>>, n: nat) -> bool {
    forall|j: int| 0 <= j < table.len() && #[trigger] table[j] is Some ==> table[j]->Some_0 < n
}

/// The first slot at or after `j` that stands for a rule and took part in the match.
pub open spec fn first_hit(groups: Seq<Option<(usize, usize)>>, table: Seq<Option<usize>>, j: int) -> Option<int>
    decreases table.len() - j,
{
    if j < 0 || j >= table.len() {
        None
    } else if table[j] is Some && j < groups.len() && groups[j] is Some {
        Some(j)
    } else {
        first_hit(groups, table, j + 1)
    }
}

/// The rendering of one match: the text of the winning slot between its
/// rule's color and the reset sequence; nothing where no slot stands for a rule.
pub open spec fn colored(
    text: Seq<u8>,
    groups: Seq<Option<(usize, usize)>>,
    table: Seq<Option<usize>>,
    colors: Seq<Seq<char>>,
) -> Seq<u8> {
    match first_hit(groups, table, 0) {
        Some(j) => encode_utf8(colors[table[j]->Some_0 as int]) + text.subrange(
            groups[j]->Some_0.0 as int,
            groups[j]->Some_0.1 as int,
        ) + encode_utf8(reset_seq()),
        None => Seq::empty(),
    }
}

/// Where the text after the first `k` matches begins.
pub open spec fn end_of_first(caps: Seq<Seq<Option<(usize, usize)>>>, k: int) -> int {
    if k <= 0 {
        0
    } else {
        whole(caps, k - 1).1 as int
    }
}

/// The rendering of the text up to the end of the first `k` matches.
pub open spec fn rendered_prefix(
    text: Seq<u8>,
    caps: Seq<Seq<Option<(usize, usize)>>>,
    table: Seq<Option<usize>>,
    colors: Seq<Seq<char>>,
    k: nat,
) -> Seq<u8>
    decreases k,
{
    if k == 0 {
        Seq::empty()
    } else {
        rendered_prefix(text, caps, table, colors, (k - 1) as nat) + text.subrange(
            end_of_first(caps, k - 1),
            whole(caps, k - 1).0 as int,
        ) + colored(text, caps[k - 1], table, colors)
    }
}

/// The rendering of a whole line: each match colored, all text between and
/// after the matches copied as it stands.
pub open spec fn rendered(
    text: Seq<u8>,
    caps: Seq<Seq<Option<(usize, usize)>>>,
    table: Seq<Option<usize>>,
    colors: Seq<Seq<char>>,
) -> Seq<u8> {
    rendered_prefix(text, caps, table, colors, caps.len()) + text.subrange(
        end_of_first(caps, caps.len() as int),
        text.len() as int,
    )
}

/// The texts of the color sequences.
pub open spec fn view_colors(colors: Seq<String>) -> Seq<Seq<char>> {
    colors.map_values(|s: String| s@)
}

/// Finds the slot that decides a match's color: the first, in slot order,
/// that stands for a rule and took part in the match.
fn find_hit(groups: &Vec<Option<(usize, usize)>>, table: &Vec<Option<usize>>) -> (r: Option<usize>)
    ensures
        r matches Some(j) ==> first_hit(groups@, table@, 0) == Some(j as int) && j < table@.len()
            && j < groups@.len() && groups@[j as int] is Some && table@[j as int] is Some,
        r is None ==> first_hit(groups@, table@, 0) is None,
{
    let mut j: usize = 0;
    while j < table.len()
        invariant
            j <= table@.len(),
            first_hit(groups@, table@, 0) == first_hit(groups@, table@, j as int),
        decreases table@.len() - j,
    {
        if table[j].is_some() && j < groups.len() && groups[j].is_some() {
            return Some(j);
        }
        j = j + 1;
    }
    None
}

/// Appends `s` to `out`, in terms of the UTF-8 bytes of both.
fn push_text(out: &mut String, s: &str)
    ensures
        final(out)@ == old(out)@ + s@,
        encode_utf8(final(out)@) == encode_utf8(old(out)@) + s.spec_bytes(),
{
    out.append(s);
    proof {
        lemma_encode_concat(old(out)@, s@);
    }
}

/// Renders a line from the matches found in it: every byte outside the
/// matches is copied, and each match is wrapped in the color of its rule.
pub fn render_captures(
    input: &str,
    caps: &Vec<Vec<Option<(usize, usize)>>>,
    table: &Vec<Option<usize>>,
    colors: &Vec<String>,
    output: &mut String,
)
    requires
        captures_fit(view_captures(caps@), input.spec_bytes()),
        table_fits(table@, colors@.len()),
    ensures
        encode_utf8(final(output)@) == rendered(
            input.spec_bytes(),
            view_captures(caps@),
            table@,
            view_colors(colors@),
        ),
{
    let ghost text = input.spec_bytes();
    let ghost c = view_captures(caps@);
    let ghost cols = view_colors(colors@);
    *output = String::new();
    let reset = "\x1b[0m";
    let mut last: usize = 0;
    let mut k: usize = 0;
    while k < caps.len()
        invariant
            text == input.spec_bytes(),
            c == view_captures(caps@),
            cols == view_colors(colors@),
            captures_fit(c, text),
            table_fits(table@, colors@.len()),
            reset@ == reset_seq(),
            k <= caps@.len(),
            last as int == end_of_first(c, k as int),
            last <= text.len(),
            is_char_boundary(text, last as int),
            encode_utf8(output@) == rendered_prefix(text, c, table@, cols, k as nat),
        decreases caps@.len() - k,
    {
        let groups = &caps[k];
        assert(c[k as int] == groups@);
        assert(groups@[0] is Some);
        let (start, end) = match groups[0] {
            Some(span) => span,
            None => (0, 0),
        };
        assert(whole(c, k as int) == (start, end));
        proof {
            if k > 0 {
                assert(whole(c, k - 1).1 <= whole(c, k as int).0);
            }
        }
        push_text(output, byte_slice(input, last, start));
        match find_hit(groups, table) {
            Some(j) => {
                assert(groups@[j as int] is Some);
                let (gs, ge) = match groups[j] {
                    Some(span) => span,
                    None => (0, 0),
                };
                assert(span_fits(c[k as int][j as int]->Some_0, text));
                let ri = match table[j] {
                    Some(ri) => ri,
                    None => 0,
                };
                assert(table@[j as int] is Some);
                let cs = colors[ri].as_str();
                assert(cs@ == cols[ri as int]);
                push_text(output, cs);
                push_text(output, byte_slice(input, gs, ge));
                push_text(output, reset);
            },
            None => {},
        }
        proof {
            let prev = rendered_prefix(text, c, table@, cols, k as nat);
            assert(rendered_prefix(text, c, table@, cols, (k + 1) as nat) == prev + text.subrange(
                end_of_first(c, k as int),
                whole(c, k as int).0 as int,
            ) + colored(text, c[k as int], table@, cols));
            assert(encode_utf8(output@) =~= rendered_prefix(text, c, table@, cols, (k + 1) as nat));
        }
        last = end;
        k = k + 1;
    }
    push_text(output, byte_suffix(input, last));
    assert(encode_utf8(output@) =~= rendered(text, c, table@, cols));
}

} // verus!
