//! Text helpers: whitespace splitting, joining and decimal formatting.
use vstd::prelude::*;

verus! {

/// The views of a sequence of strings.
pub open spec fn views(v: Seq<String>) -> Seq<Seq<char>> {
    v.map_values(|s: String| s@)
}

/// Unicode `White_Space`, the set of characters that separate words of a
/// command line.
pub open spec fn is_white_space(c: char) -> bool {
    let u = c as u32;
    (0x9 <= u && u <= 0xd) || u == 0x20 || u == 0x85 || u == 0xa0 || u == 0x1680 || (0x2000 <= u
        && u <= 0x200a) || u == 0x2028 || u == 0x2029 || u == 0x202f || u == 0x205f || u == 0x3000
}

/// Tells whether `c` separates words.
pub fn is_white_space_char(c: char) -> (r: bool)
    ensures
        r == is_white_space(c),
{
    let u = c as u32;
    (0x9 <= u && u <= 0xd) || u == 0x20 || u == 0x85 || u == 0xa0 || u == 0x1680 || (0x2000 <= u
        && u <= 0x200a) || u == 0x2028 || u == 0x2029 || u == 0x202f || u == 0x205f || u == 0x3000
}

/// The maximal runs of non-whitespace characters of `s`, in order.
pub open spec fn words(s: Seq<char>) -> Seq<Seq<char>>
    decreases s.len(),
{
    if s.len() == 0 {
        seq![]
    } else {
        let p = s.drop_last();
        let c = s.last();
        let w = words(p);
        if is_white_space(c) {
            w
        } else if p.len() > 0 && !is_white_space(p.last()) {
            w.update(w.len() - 1, w.last().push(c))
        } else {
            w.push(seq![c])
        }
    }
}

/// A text that ends in a word character has at least one word.
proof fn lemma_words_nonempty(s: Seq<char>)
    requires
        s.len() > 0,
        !is_white_space(s.last()),
    ensures
        words(s).len() > 0,
    decreases s.len(),
{
    let p = s.drop_last();
    if p.len() > 0 && !is_white_space(p.last()) {
        lemma_words_nonempty(p);
    }
}

/// Splits a command line into its words (program first, then arguments).
pub fn split_command(command: &str) -> (r: Vec<String>)
    ensures
        views(r@) == words(command@),
{
    let n = command.unicode_len();
    let mut out: Vec<String> = Vec::new();
    let mut i: usize = 0;
    let mut in_word = false;
    while i < n
        invariant
            n == command@.len(),
            i <= n,
            views(out@) == words(command@.take(i as int)),
            in_word == (i > 0 && !is_white_space(command@[i - 1])),
        decreases n - i,
    {
        let c = command.get_char(i);
        let ghost before = command@.take(i as int);
        let ghost after = command@.take(i + 1);
        assert(after.drop_last() =~= before);
        assert(after.last() == c);
        if !is_white_space_char(c) {
            let piece = command.substring_char(i, i + 1);
            assert(piece@ =~= seq![c]);
            if in_word {
                assert(before.last() == command@[i - 1]);
                proof {
                    lemma_words_nonempty(before);
                }
                let ghost w = views(out@);
                let ghost old_out = out@;
                let mut last = out.pop().unwrap();
                assert(last@ == w.last());
                last.append(piece);
                out.push(last);
                assert(out@ == old_out.drop_last().push(last));
                assert(out@.len() == w.len());
                assert forall|k: int| 0 <= k < w.len() - 1 implies views(out@)[k] == w[k] by {
                    assert(out@[k] == old_out[k]);
                }
                assert(views(out@)[w.len() - 1] == w.last().push(c));
                assert(views(out@) =~= w.update(w.len() - 1, w.last().push(c)));
                assert(views(out@) =~= words(after));
            } else {
                out.push(String::from_str(piece));
                assert(views(out@) =~= words(after));
            }
            in_word = true;
        } else {
            in_word = false;
        }
        i += 1;
    }
    assert(command@.take(n as int) =~= command@);
    out
}

/// The words of `ws` with one space between each two.
pub open spec fn joined(ws: Seq<Seq<char>>) -> Seq<char>
    decreases ws.len(),
{
    if ws.len() == 0 {
        seq![]
    } else if ws.len() == 1 {
        ws[0]
    } else {
        joined(ws.drop_last()) + seq![' '] + ws.last()
    }
}

/// Joins words with single spaces, as a command line is shown to a user.
pub fn join_words(parts: &Vec<String>) -> (r: String)
    ensures
        r@ == joined(views(parts@)),
{
    let mut out = String::new();
    let mut i: usize = 0;
    while i < parts.len()
        invariant
            i <= parts.len(),
            out@ == joined(views(parts@).take(i as int)),
        decreases parts.len() - i,
    {
        let ghost ws = views(parts@);
        assert(ws.take(i + 1).drop_last() =~= ws.take(i as int));
        if i > 0 {
            proof {
                reveal_strlit(" ");
            }
            out.append(" ");
        }
        out.append(parts[i].as_str());
        assert(ws.take(i + 1).last() == parts@[i as int]@);
        assert(out@ =~= joined(ws.take(i + 1)));
        i += 1;
    }
    assert(views(parts@).take(parts.len() as int) =~= views(parts@));
    out
}

/// The decimal digit for `d`.
pub open spec fn digit_char(d: nat) -> char {
    "0123456789"@[d as int]
}

/// The decimal representation of `n`, without leading zeros.
pub open spec fn decimal(n: nat) -> Seq<char>
    decreases n,
{
    if n < 10 {
        seq![digit_char(n)]
    } else {
        decimal(n / 10) + seq![digit_char(n % 10)]
    }
}

/// Appends the decimal digit `d` to `out`.
fn push_digit(out: &mut String, d: u8)
    requires
        d < 10,
    ensures
        final(out)@ == old(out)@.push(digit_char(d as nat)),
{
    let digits = "0123456789";
    proof {
        reveal_strlit("0123456789");
    }
    let piece = digits.substring_char(d as usize, d as usize + 1);
    assert(piece@ =~= seq![digit_char(d as nat)]);
    out.append(piece);
}

/// Appends the decimal representation of `n` to `out`.
pub fn push_decimal(out: &mut String, n: u64)
    ensures
        final(out)@ == old(out)@ + decimal(n as nat),
    decreases n,
{
    if n >= 10 {
        push_decimal(out, n / 10);
    }
    push_digit(out, (n % 10) as u8);
    assert(out@ =~= old(out)@ + decimal(n as nat));
}

/// Writes `n` in decimal.
pub fn decimal_text(n: u64) -> (r: String)
    ensures
        r@ == decimal(n as nat),
{
    let mut out = String::new();
    push_decimal(&mut out, n);
    assert(out@ =~= decimal(n as nat));
    out
}

/// Appends `s` to a list of words.
pub fn push_word(v: &mut Vec<String>, s: &str)
    ensures
        views(final(v)@) == views(old(v)@).push(s@),
{
    v.push(String::from_str(s));
    assert(views(final(v)@) =~= views(old(v)@).push(s@));
}

} // verus!
