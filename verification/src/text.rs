//! Text helpers: character access, whitespace splitting, splitting on a
//! delimiter, decimal numbers.

use vstd::prelude::*;
use vstd::std_specs::iter::IteratorSpec;

verus! {

broadcast use vstd::string::group_string_axioms;

/// Appends one character to a string (`String::push`).
#[verifier::external_body]
pub(crate) fn push_char(s: &mut String, c: char)
    ensures
        final(s)@ == old(s)@.push(c),
{
    s.push(c);
}

/// The characters of `s`, in order.
pub fn chars_of(s: &str) -> (res: Vec<char>)
    ensures
        res@ == s@,
{
    let mut res: Vec<char> = Vec::new();
    let mut it = s.chars();
    let ghost all = s@;
    loop
        invariant
            it.obeys_prophetic_iter_laws(),
            it.decrease() is Some,
            all == s@,
            res@ + it.remaining() == all,
        ensures
            res@ == all,
        decreases it.decrease()->0,
    {
        match it.next() {
            Some(c) => {
                res.push(c);
            },
            None => {
                break;
            },
        }
    }
    res
}

} // verus!

verus! {

/// Rust's `char::is_whitespace`: the Unicode `White_Space` property.
pub open spec fn is_whitespace(c: char) -> bool {
    let v = c as u32;
    ||| 0x09 <= v <= 0x0d
    ||| v == 0x20
    ||| v == 0x85
    ||| v == 0xa0
    ||| v == 0x1680
    ||| 0x2000 <= v <= 0x200a
    ||| v == 0x2028
    ||| v == 0x2029
    ||| v == 0x202f
    ||| v == 0x205f
    ||| v == 0x3000
}

/// Whether `c` is whitespace (`char::is_whitespace`).
pub fn char_is_whitespace(c: char) -> (res: bool)
    ensures
        res == is_whitespace(c),
{
    let v = c as u32;
    (0x09 <= v && v <= 0x0d) || v == 0x20 || v == 0x85 || v == 0xa0 || v == 0x1680 || (0x2000
        <= v && v <= 0x200a) || v == 0x2028 || v == 0x2029 || v == 0x202f || v == 0x205f || v
        == 0x3000
}

/// Number of bytes of `c` in UTF-8 (`char::len_utf8`).
pub open spec fn utf8_len(c: char) -> nat {
    let v = c as u32;
    if v < 0x80 {
        1
    } else if v < 0x800 {
        2
    } else if v < 0x10000 {
        3
    } else {
        4
    }
}

/// Number of bytes of a character sequence in UTF-8 (`str::len`).
pub open spec fn byte_len(s: Seq<char>) -> nat
    decreases s.len(),
{
    if s.len() == 0 {
        0
    } else {
        byte_len(s.drop_last()) + utf8_len(s.last())
    }
}

/// Scanning `s` from the left for `split_whitespace`: the words already
/// closed by a whitespace character, and the word still being read.
pub open spec fn words_scan(s: Seq<char>) -> (Seq<Seq<char>>, Seq<char>)
    decreases s.len(),
{
    if s.len() == 0 {
        (Seq::empty(), Seq::empty())
    } else {
        let (done, cur) = words_scan(s.drop_last());
        let c = s.last();
        if is_whitespace(c) {
            if cur.len() > 0 {
                (done.push(cur), Seq::empty())
            } else {
                (done, Seq::empty())
            }
        } else {
            (done, cur.push(c))
        }
    }
}

/// `str::split_whitespace`: the maximal non-empty runs of non-whitespace
/// characters of `s`, in order.
pub open spec fn words(s: Seq<char>) -> Seq<Seq<char>> {
    let (done, cur) = words_scan(s);
    if cur.len() > 0 {
        done.push(cur)
    } else {
        done
    }
}

/// Line breaking of a description, word by word: each word is followed by
/// a space; the byte lengths of the words (without spaces) are added up,
/// and when the sum passes 30 a line break goes before the word and the
/// sum starts again from 0. Gives the text so far and the running sum.
pub open spec fn wrap_scan(ws: Seq<Seq<char>>) -> (Seq<char>, nat)
    decreases ws.len(),
{
    if ws.len() == 0 {
        (Seq::empty(), 0)
    } else {
        let (out, count) = wrap_scan(ws.drop_last());
        let w = ws.last();
        if count + byte_len(w) > 30 {
            (out + seq!['\n'] + w + seq![' '], 0)
        } else {
            (out + w + seq![' '], count + byte_len(w))
        }
    }
}

/// The wrapped form of a text: its words, each followed by a space, with a
/// line break as `wrap_scan` places them.
pub open spec fn wrapped(s: Seq<char>) -> Seq<char> {
    wrap_scan(words(s)).0
}

proof fn lemma_wrap_scan_count(ws: Seq<Seq<char>>)
    ensures
        wrap_scan(ws).1 <= 30,
    decreases ws.len(),
{
    if ws.len() > 0 {
        lemma_wrap_scan_count(ws.drop_last());
    }
}

/// Byte length of `w`, or 31 where it is larger than 30.
fn capped_byte_len(w: &Vec<char>) -> (res: usize)
    ensures
        res == if byte_len(w@) > 30 { 31 } else { byte_len(w@) },
{
    let mut n: usize = 0;
    let mut i: usize = 0;
    while i < w.len()
        invariant
            i <= w.len(),
            n == if byte_len(w@.take(i as int)) > 30 { 31 } else { byte_len(w@.take(i as int)) },
        decreases w.len() - i,
    {
        let c = w[i];
        let v = c as u32;
        let l: usize = if v < 0x80 {
            1
        } else if v < 0x800 {
            2
        } else if v < 0x10000 {
            3
        } else {
            4
        };
        assert(w@.take(i + 1).drop_last() =~= w@.take(i as int));
        if n + l > 30 {
            n = 31;
        } else {
            n = n + l;
        }
        i = i + 1;
    }
    assert(w@.take(w.len() as int) =~= w@);
    n
}

/// Appends the characters of `w` to `s`.
fn push_all(s: &mut String, w: &Vec<char>)
    ensures
        final(s)@ == old(s)@ + w@,
{
    let mut i: usize = 0;
    while i < w.len()
        invariant
            i <= w.len(),
            s@ == old(s)@ + w@.take(i as int),
        decreases w.len() - i,
    {
        push_char(s, w[i]);
        assert(w@.take(i + 1) =~= w@.take(i as int).push(w@[i as int]));
        i = i + 1;
    }
    assert(w@.take(w.len() as int) =~= w@);
}

/// Adds one closed word to the wrapped output.
fn wrap_word(out: &mut String, count: &mut usize, w: &Vec<char>, Ghost(ws): Ghost<Seq<Seq<char>>>)
    requires
        old(out)@ == wrap_scan(ws).0,
        *old(count) == wrap_scan(ws).1,
    ensures
        final(out)@ == wrap_scan(ws.push(w@)).0,
        *final(count) == wrap_scan(ws.push(w@)).1,
{
    proof {
        lemma_wrap_scan_count(ws);
    }
    assert(ws.push(w@).drop_last() =~= ws);
    let l = capped_byte_len(w);
    if l > 30 - *count {
        push_char(out, '\n');
        push_all(out, w);
        push_char(out, ' ');
        *count = 0;
    } else {
        push_all(out, w);
        push_char(out, ' ');
        *count = *count + l;
    }
}

/// Puts a line break before a word whenever the byte lengths of the words
/// so far pass 30, and a space after every word (see `wrapped`).
pub fn wrap_text(text: &str) -> (res: String)
    ensures
        res@ == wrapped(text@),
{
    let cs = chars_of(text);
    let mut out = String::new();
    let mut count: usize = 0;
    let mut cur: Vec<char> = Vec::new();
    let ghost mut done: Seq<Seq<char>> = Seq::empty();
    let mut i: usize = 0;
    while i < cs.len()
        invariant
            i <= cs.len(),
            (done, cur@) == words_scan(cs@.take(i as int)),
            out@ == wrap_scan(done).0,
            count == wrap_scan(done).1,
        decreases cs.len() - i,
    {
        let c = cs[i];
        assert(cs@.take(i + 1).drop_last() =~= cs@.take(i as int));
        if char_is_whitespace(c) {
            if cur.len() > 0 {
                wrap_word(&mut out, &mut count, &cur, Ghost(done));
                proof {
                    done = done.push(cur@);
                }
                cur = Vec::new();
            }
        } else {
            cur.push(c);
        }
        i = i + 1;
    }
    assert(cs@.take(cs.len() as int) =~= cs@);
    if cur.len() > 0 {
        wrap_word(&mut out, &mut count, &cur, Ghost(done));
    }
    out
}


/// A word as `split_whitespace` gives it: not empty, no whitespace in it.
pub open spec fn plain_word(w: Seq<char>) -> bool {
    w.len() > 0 && forall|i: int| 0 <= i < w.len() ==> !is_whitespace(#[trigger] w[i])
}

/// The words one after the other, each followed by a space.
pub open spec fn spaced(ws: Seq<Seq<char>>) -> Seq<char>
    decreases ws.len(),
{
    if ws.len() == 0 {
        Seq::empty()
    } else {
        spaced(ws.drop_last()) + ws.last() + seq![' ']
    }
}

/// The byte lengths of the words added up.
pub open spec fn words_bytes(ws: Seq<Seq<char>>) -> nat
    decreases ws.len(),
{
    if ws.len() == 0 {
        0
    } else {
        words_bytes(ws.drop_last()) + byte_len(ws.last())
    }
}

/// The text with its line breaks taken out.
pub open spec fn drop_newlines(s: Seq<char>) -> Seq<char>
    decreases s.len(),
{
    if s.len() == 0 {
        Seq::empty()
    } else if s.last() == '\n' {
        drop_newlines(s.drop_last())
    } else {
        drop_newlines(s.drop_last()).push(s.last())
    }
}

proof fn lemma_drop_newlines_append(a: Seq<char>, b: Seq<char>)
    ensures
        drop_newlines(a + b) == drop_newlines(a) + drop_newlines(b),
    decreases b.len(),
{
    if b.len() == 0 {
        assert(a + b =~= a);
        assert(drop_newlines(a) + drop_newlines(b) =~= drop_newlines(a));
    } else {
        lemma_drop_newlines_append(a, b.drop_last());
        assert((a + b).drop_last() =~= a + b.drop_last());
        assert((a + b).last() == b.last());
        if b.last() != '\n' {
            assert(drop_newlines(a) + drop_newlines(b.drop_last()).push(b.last())
                =~= (drop_newlines(a) + drop_newlines(b.drop_last())).push(b.last()));
        }
    }
}

proof fn lemma_drop_newlines_plain(w: Seq<char>)
    requires
        forall|i: int| 0 <= i < w.len() ==> !is_whitespace(#[trigger] w[i]),
    ensures
        drop_newlines(w) == w,
    decreases w.len(),
{
    if w.len() > 0 {
        let v = w.drop_last();
        assert forall|i: int| 0 <= i < v.len() implies !is_whitespace(#[trigger] v[i]) by {
            assert(v[i] == w[i]);
        }
        lemma_drop_newlines_plain(v);
        assert(!is_whitespace(w[w.len() - 1]));
        assert(w.last() != '\n');
        assert(v.push(w.last()) =~= w);
    }
}

proof fn lemma_words_scan_plain(s: Seq<char>)
    ensures
        forall|i: int| 0 <= i < words_scan(s).0.len() ==> plain_word(#[trigger] words_scan(s).0[i]),
        forall|i: int| 0 <= i < words_scan(s).1.len() ==> !is_whitespace(#[trigger] words_scan(s).1[i]),
    decreases s.len(),
{
    if s.len() > 0 {
        lemma_words_scan_plain(s.drop_last());
        let (done, cur) = words_scan(s.drop_last());
        if !is_whitespace(s.last()) {
            let c2 = cur.push(s.last());
            assert forall|i: int| 0 <= i < c2.len() implies !is_whitespace(#[trigger] c2[i]) by {
                if i < cur.len() {
                    assert(c2[i] == cur[i]);
                }
            }
        } else if cur.len() > 0 {
            let d2 = done.push(cur);
            assert forall|i: int| 0 <= i < d2.len() implies plain_word(#[trigger] d2[i]) by {
                if i < done.len() {
                    assert(d2[i] == done[i]);
                }
            }
        }
    }
}

/// The words of a text are plain words.
proof fn lemma_words_plain(s: Seq<char>)
    ensures
        forall|i: int| 0 <= i < words(s).len() ==> plain_word(#[trigger] words(s)[i]),
{
    lemma_words_scan_plain(s);
    let (done, cur) = words_scan(s);
    if cur.len() > 0 {
        let d2 = done.push(cur);
        assert forall|i: int| 0 <= i < d2.len() implies plain_word(#[trigger] d2[i]) by {
            if i < done.len() {
                assert(d2[i] == done[i]);
            }
        }
    }
}

proof fn lemma_plain_prefix(ws: Seq<Seq<char>>)
    requires
        ws.len() > 0,
        forall|i: int| 0 <= i < ws.len() ==> plain_word(#[trigger] ws[i]),
    ensures
        forall|i: int| 0 <= i < ws.drop_last().len() ==> plain_word(#[trigger] ws.drop_last()[i]),
        plain_word(ws.last()),
{
    assert forall|i: int| 0 <= i < ws.drop_last().len() implies plain_word(#[trigger] ws.drop_last()[i]) by {
        assert(ws.drop_last()[i] == ws[i]);
    }
    assert(plain_word(ws[ws.len() - 1]));
}

proof fn lemma_wrap_drop_newlines(ws: Seq<Seq<char>>)
    requires
        forall|i: int| 0 <= i < ws.len() ==> plain_word(#[trigger] ws[i]),
    ensures
        drop_newlines(wrap_scan(ws).0) == spaced(ws),
    decreases ws.len(),
{
    if ws.len() > 0 {
        lemma_plain_prefix(ws);
        let prev = ws.drop_last();
        let w = ws.last();
        lemma_wrap_drop_newlines(prev);
        let (out, count) = wrap_scan(prev);
        lemma_drop_newlines_plain(w);
        assert(drop_newlines(seq![' ']) =~= seq![' ']) by {
            let sp = seq![' '];
            assert(sp.drop_last() =~= Seq::<char>::empty());
            assert(sp.last() == ' ');
            assert(drop_newlines(sp.drop_last()) =~= Seq::<char>::empty());
            assert(Seq::<char>::empty().push(' ') =~= sp);
        }
        assert(drop_newlines(seq!['\n']) =~= Seq::<char>::empty()) by {
            let nl = seq!['\n'];
            assert(nl.drop_last() =~= Seq::<char>::empty());
            assert(nl.last() == '\n');
            assert(drop_newlines(nl.drop_last()) =~= Seq::<char>::empty());
        }
        if count + byte_len(w) > 30 {
            lemma_drop_newlines_append(out, seq!['\n']);
            lemma_drop_newlines_append(out + seq!['\n'], w);
            lemma_drop_newlines_append(out + seq!['\n'] + w, seq![' ']);
            assert(drop_newlines(out) + Seq::<char>::empty() =~= drop_newlines(out));
        } else {
            lemma_drop_newlines_append(out, w);
            lemma_drop_newlines_append(out + w, seq![' ']);
        }
    }
}

proof fn lemma_wrap_newline(ws: Seq<Seq<char>>)
    requires
        forall|i: int| 0 <= i < ws.len() ==> plain_word(#[trigger] ws[i]),
    ensures
        words_bytes(ws) <= 30 ==> !contains_char(wrap_scan(ws).0, '\n') && wrap_scan(ws).1 == words_bytes(ws),
        words_bytes(ws) > 30 ==> contains_char(wrap_scan(ws).0, '\n'),
    decreases ws.len(),
{
    if ws.len() > 0 {
        lemma_plain_prefix(ws);
        let prev = ws.drop_last();
        let w = ws.last();
        lemma_wrap_newline(prev);
        let (out, count) = wrap_scan(prev);
        let res = wrap_scan(ws).0;
        if words_bytes(prev) <= 30 {
            if count + byte_len(w) > 30 {
                assert(res[out.len() as int] == '\n');
            } else {
                assert(res =~= out + w + seq![' ']);
                assert forall|i: int| 0 <= i < res.len() implies #[trigger] res[i] != '\n' by {
                    if i < out.len() {
                        assert(res[i] == out[i]);
                    } else if i < out.len() + w.len() {
                        assert(res[i] == w[i - out.len()]);
                        assert(!is_whitespace(w[i - out.len()]));
                    }
                }
            }
        } else {
            let k = choose|k: int| 0 <= k < out.len() && out[k] == '\n';
            assert(res[k] == out[k]);
        }
    }
}

proof fn lemma_words_scan_append_plain(x: Seq<char>, w: Seq<char>)
    requires
        forall|i: int| 0 <= i < w.len() ==> !is_whitespace(#[trigger] w[i]),
    ensures
        words_scan(x + w) == (words_scan(x).0, words_scan(x).1 + w),
    decreases w.len(),
{
    if w.len() == 0 {
        assert(x + w =~= x);
        assert(words_scan(x).1 + w =~= words_scan(x).1);
    } else {
        let v = w.drop_last();
        assert forall|i: int| 0 <= i < v.len() implies !is_whitespace(#[trigger] v[i]) by {
            assert(v[i] == w[i]);
        }
        lemma_words_scan_append_plain(x, v);
        assert((x + w).drop_last() =~= x + v);
        assert((x + w).last() == w.last());
        assert(!is_whitespace(w[w.len() - 1]));
        assert(words_scan(x).1 + v + seq![w.last()] =~= words_scan(x).1 + w);
    }
}

proof fn lemma_words_of_wrapped(ws: Seq<Seq<char>>)
    requires
        forall|i: int| 0 <= i < ws.len() ==> plain_word(#[trigger] ws[i]),
    ensures
        words_scan(wrap_scan(ws).0) == (ws, Seq::<char>::empty()),
    decreases ws.len(),
{
    if ws.len() == 0 {
        assert(words_scan(Seq::<char>::empty()) == (Seq::<Seq<char>>::empty(), Seq::<char>::empty()));
        assert(ws =~= Seq::<Seq<char>>::empty());
    } else {
        lemma_plain_prefix(ws);
        let prev = ws.drop_last();
        let w = ws.last();
        lemma_words_of_wrapped(prev);
        let (out, count) = wrap_scan(prev);
        let base = if count + byte_len(w) > 30 { out + seq!['\n'] } else { out };
        if count + byte_len(w) > 30 {
            assert(base.drop_last() =~= out);
            assert(base.last() == '\n');
            assert(is_whitespace('\n'));
        }
        assert(words_scan(base) == (prev, Seq::<char>::empty()));
        lemma_words_scan_append_plain(base, w);
        assert(Seq::<char>::empty() + w =~= w);
        let full = base + w + seq![' '];
        assert(full.drop_last() =~= base + w);
        assert(full.last() == ' ');
        assert(is_whitespace(' '));
        assert(full =~= wrap_scan(ws).0);
        assert(prev.push(w) =~= ws);
    }
}

/// The laws of the wrapped form of a text: wrapping it again changes
/// nothing; without its line breaks it is the words each followed by a
/// space; and it has a line break exactly where the words have more than
/// 30 bytes in all.
pub proof fn lemma_wrapped(s: Seq<char>)
    ensures
        wrapped(wrapped(s)) == wrapped(s),
        drop_newlines(wrapped(s)) == spaced(words(s)),
        contains_char(wrapped(s), '\n') <==> words_bytes(words(s)) > 30,
{
    lemma_words_plain(s);
    let ws = words(s);
    lemma_wrap_drop_newlines(ws);
    lemma_wrap_newline(ws);
    lemma_words_of_wrapped(ws);
    assert(words(wrapped(s)) == ws);
}

} // verus!

verus! {

/// Scanning `s` from the left for `str::split(d)`: the pieces already closed
/// by a delimiter, and the piece still being read.
pub open spec fn split_scan(s: Seq<char>, d: char) -> (Seq<Seq<char>>, Seq<char>)
    decreases s.len(),
{
    if s.len() == 0 {
        (Seq::empty(), Seq::empty())
    } else {
        let (done, cur) = split_scan(s.drop_last(), d);
        if s.last() == d {
            (done.push(cur), Seq::empty())
        } else {
            (done, cur.push(s.last()))
        }
    }
}

/// `str::split(d)`: the pieces of `s` between the occurrences of `d`; one
/// more piece than there are delimiters, some possibly empty.
pub open spec fn split_on(s: Seq<char>, d: char) -> Seq<Seq<char>> {
    let (done, cur) = split_scan(s, d);
    done.push(cur)
}

/// The text before the first `d` (all of `s` where it has none).
pub open spec fn first_field(s: Seq<char>, d: char) -> Seq<char> {
    split_on(s, d)[0]
}

/// The text after the last `d` (all of `s` where it has none).
pub open spec fn last_field(s: Seq<char>, d: char) -> Seq<char> {
    split_on(s, d).last()
}

fn string_of(w: &Vec<char>) -> (res: String)
    ensures
        res@ == w@,
{
    let mut s = String::new();
    push_all(&mut s, w);
    s
}

/// `text.split(d).map(String::from).collect()`.
pub fn split_string(text: &str, d: char) -> (res: Vec<String>)
    ensures
        res@.len() == split_on(text@, d).len(),
        forall|i: int| 0 <= i < res@.len() ==> #[trigger] res@[i]@ == split_on(text@, d)[i],
{
    let cs = chars_of(text);
    let mut res: Vec<String> = Vec::new();
    let mut cur: Vec<char> = Vec::new();
    let ghost mut done: Seq<Seq<char>> = Seq::empty();
    let mut i: usize = 0;
    while i < cs.len()
        invariant
            i <= cs.len(),
            (done, cur@) == split_scan(cs@.take(i as int), d),
            res@.len() == done.len(),
            forall|j: int| 0 <= j < res@.len() ==> #[trigger] res@[j]@ == done[j],
        decreases cs.len() - i,
    {
        let c = cs[i];
        assert(cs@.take(i + 1).drop_last() =~= cs@.take(i as int));
        if c == d {
            let piece = string_of(&cur);
            res.push(piece);
            proof {
                done = done.push(cur@);
            }
            cur = Vec::new();
        } else {
            cur.push(c);
        }
        i = i + 1;
    }
    assert(cs@.take(cs.len() as int) =~= cs@);
    let piece = string_of(&cur);
    res.push(piece);
    res
}

/// `text.split(d).next().unwrap()`: the text before the first `d`.
pub fn first_field_of(text: &str, d: char) -> (res: String)
    ensures
        res@ == first_field(text@, d),
{
    let pieces = split_string(text, d);
    pieces[0].clone()
}

/// `text.split(d).last().unwrap()`: the text after the last `d`.
pub fn last_field_of(text: &str, d: char) -> (res: String)
    ensures
        res@ == last_field(text@, d),
{
    let pieces = split_string(text, d);
    pieces[pieces.len() - 1].clone()
}

/// Each item followed by the terminator `t`, all in one text.
pub open spec fn join_terminated(items: Seq<String>, t: char) -> Seq<char>
    decreases items.len(),
{
    if items.len() == 0 {
        Seq::empty()
    } else {
        join_terminated(items.drop_last(), t) + items.last()@ + seq![t]
    }
}

/// Appends each item of `items` to `s`, followed by `t`.
pub fn push_terminated(s: &mut String, items: &Vec<String>, t: char)
    ensures
        final(s)@ == old(s)@ + join_terminated(items@, t),
{
    let mut i: usize = 0;
    while i < items.len()
        invariant
            i <= items.len(),
            s@ == old(s)@ + join_terminated(items@.take(i as int), t),
        decreases items.len() - i,
    {
        assert(items@.take(i + 1).drop_last() =~= items@.take(i as int));
        s.append(items[i].as_str());
        push_char(s, t);
        i = i + 1;
    }
    assert(items@.take(items.len() as int) =~= items@);
}

} // verus!

verus! {

/// An ASCII decimal digit.
pub open spec fn is_digit(c: char) -> bool {
    '0' <= c <= '9'
}

/// The value of a decimal digit.
pub open spec fn digit_value(c: char) -> int {
    c as int - '0' as int
}

/// Every character of `ds` is a decimal digit.
pub open spec fn all_digits(ds: Seq<char>) -> bool {
    forall|i: int| 0 <= i < ds.len() ==> is_digit(#[trigger] ds[i])
}

/// The number that the decimal digits `ds` write.
pub open spec fn digits_value(ds: Seq<char>) -> int
    decreases ds.len(),
{
    if ds.len() == 0 {
        0
    } else {
        digits_value(ds.drop_last()) * 10 + digit_value(ds.last())
    }
}

/// `str::parse::<i32>`: an optional `+` or `-`, then one or more ASCII
/// digits, whose value fits in an `i32`; `None` for anything else.
pub open spec fn parse_i32(s: Seq<char>) -> Option<i32> {
    let neg = s.len() > 0 && s[0] == '-';
    let signed = s.len() > 0 && (s[0] == '-' || s[0] == '+');
    let ds = if signed { s.drop_first() } else { s };
    let v = if neg { -digits_value(ds) } else { digits_value(ds) };
    if ds.len() > 0 && all_digits(ds) && i32::MIN <= v <= i32::MAX {
        Some(v as i32)
    } else {
        None
    }
}

proof fn lemma_digits_value_monotone(ds: Seq<char>, k: int)
    requires
        all_digits(ds),
        0 <= k <= ds.len(),
    ensures
        0 <= digits_value(ds.take(k)) <= digits_value(ds),
    decreases ds.len(),
{
    if ds.len() > 0 {
        if k == ds.len() {
            assert(ds.take(k) =~= ds);
            lemma_digits_value_monotone(ds.drop_last(), k - 1);
            assert(ds.drop_last().take(k - 1) =~= ds.drop_last());
        } else {
            lemma_digits_value_monotone(ds.drop_last(), k);
            assert(ds.drop_last().take(k) =~= ds.take(k));
            lemma_digits_value_monotone(ds.drop_last(), ds.len() - 1);
            assert(ds.drop_last().take(ds.len() - 1) =~= ds.drop_last());
        }
    }
}

/// `text.parse::<i32>().ok()`.
pub fn parse_i32_of(text: &str) -> (res: Option<i32>)
    ensures
        res == parse_i32(text@),
{
    let cs = chars_of(text);
    let n = cs.len();
    let neg = n > 0 && cs[0] == '-';
    let signed = n > 0 && (cs[0] == '-' || cs[0] == '+');
    let start: usize = if signed { 1 } else { 0 };
    let ghost ds = if signed { cs@.drop_first() } else { cs@ };
    assert(ds =~= cs@.subrange(start as int, n as int));
    if start == n {
        return None;
    }
    let mut value: i64 = 0;
    let mut i: usize = start;
    while i < n
        invariant
            n == cs@.len(),
            cs@ == text@,
            neg == (n > 0 && cs@[0] == '-'),
            signed == (n > 0 && (cs@[0] == '-' || cs@[0] == '+')),
            start == (if signed { 1usize } else { 0usize }),
            ds == (if signed { cs@.drop_first() } else { cs@ }),
            start <= i <= n,
            ds =~= cs@.subrange(start as int, n as int),
            all_digits(ds.take(i - start)),
            value == digits_value(ds.take(i - start)),
            0 <= value <= 0x8000_0000,
        decreases n - i,
    {
        let c = cs[i];
        assert(ds.take(i + 1 - start).drop_last() =~= ds.take(i - start));
        assert(ds[i - start] == c);
        if !('0' <= c && c <= '9') {
            assert(!is_digit(ds[i - start]));
            return None;
        }
        let d = (c as u32 - '0' as u32) as i64;
        let next = value * 10 + d;
        assert(all_digits(ds.take(i + 1 - start)));
        if next > 0x8000_0000 {
            proof {
                if all_digits(ds) {
                    lemma_digits_value_monotone(ds, i + 1 - start);
                }
            }
            return None;
        }
        value = next;
        i = i + 1;
    }
    assert(ds.take(n - start) =~= ds);
    if neg {
        Some((-value) as i32)
    } else if value <= 0x7fff_ffff {
        Some(value as i32)
    } else {
        None
    }
}

/// The decimal digits of `n`, most significant first.
pub open spec fn decimal_digits(n: nat) -> Seq<char>
    decreases n,
{
    if n < 10 {
        seq![(n + '0' as nat) as char]
    } else {
        decimal_digits(n / 10).push(((n % 10) + '0' as nat) as char)
    }
}

/// The `Display` form of an integer: a `-` for negatives, then its digits.
pub open spec fn decimal(n: int) -> Seq<char> {
    if n < 0 {
        seq!['-'] + decimal_digits((-n) as nat)
    } else {
        decimal_digits(n as nat)
    }
}

fn push_decimal_digits(s: &mut String, n: u64)
    ensures
        final(s)@ == old(s)@ + decimal_digits(n as nat),
    decreases n,
{
    if n >= 10 {
        push_decimal_digits(s, n / 10);
    }
    let c = match n % 10 {
        0 => '0',
        1 => '1',
        2 => '2',
        3 => '3',
        4 => '4',
        5 => '5',
        6 => '6',
        7 => '7',
        8 => '8',
        _ => '9',
    };
    push_char(s, c);
}

/// `n.to_string()` for an `i64`.
pub fn i64_to_decimal(n: i64) -> (res: String)
    ensures
        res@ == decimal(n as int),
{
    let mut s = String::new();
    if n < 0 {
        push_char(&mut s, '-');
        let m: u64 = if n == i64::MIN { 0x8000_0000_0000_0000 } else { (-n) as u64 };
        push_decimal_digits(&mut s, m);
    } else {
        push_decimal_digits(&mut s, n as u64);
    }
    s
}

} // verus!

verus! {

/// The `Debug` form of a text, as std writes it: in double quotes, with
/// quotes, backslashes and special characters escaped.
pub uninterp spec fn debug_text(s: Seq<char>) -> Seq<char>;

/// `format!("{:?}", s)`: the `Debug` form of `s`.
#[verifier::external_body]
pub(crate) fn debug_string(s: &str) -> (r: String)
    ensures
        r@ == debug_text(s@),
{
    format!("{:?}", s)
}

} // verus!

verus! {

proof fn lemma_decimal_digits(n: nat)
    ensures
        decimal_digits(n).len() > 0,
        all_digits(decimal_digits(n)),
        digits_value(decimal_digits(n)) == n,
        !contains_char(decimal_digits(n), ';'),
    decreases n,
{
    if n >= 10 {
        lemma_decimal_digits(n / 10);
        let ds = decimal_digits(n);
        assert(ds.drop_last() =~= decimal_digits(n / 10));
        assert(digit_value(ds.last()) == n % 10);
        assert(n == (n / 10) * 10 + n % 10);
        assert(digits_value(ds) == digits_value(ds.drop_last()) * 10 + digit_value(ds.last()));
        assert forall|i: int| 0 <= i < ds.len() implies is_digit(#[trigger] ds[i]) by {
            if i < ds.len() - 1 {
                assert(ds[i] == decimal_digits(n / 10)[i]);
            }
        }
        assert forall|i: int| 0 <= i < ds.len() implies #[trigger] ds[i] != ';' by {
            if i < ds.len() - 1 {
                assert(ds[i] == decimal_digits(n / 10)[i]);
            }
        }
    } else {
        let ds = decimal_digits(n);
        assert(ds.drop_last() =~= Seq::<char>::empty());
        assert(digit_value(ds.last()) == n);
        assert(digits_value(Seq::<char>::empty()) == 0);
        assert(digits_value(ds) == digits_value(ds.drop_last()) * 10 + digit_value(ds.last()));
    }
}

/// Whether `s` holds the character `c`.
pub open spec fn contains_char(s: Seq<char>, c: char) -> bool {
    exists|i: int| 0 <= i < s.len() && s[i] == c
}

/// Reading back the decimal form of an `i32` gives the number.
pub proof fn lemma_parse_decimal(n: i32)
    ensures
        parse_i32(decimal(n as int)) == Some(n),
        !contains_char(decimal(n as int), ';'),
{
    if n < 0 {
        let m = (-n) as nat;
        lemma_decimal_digits(m);
        let s = decimal(n as int);
        assert(s.drop_first() =~= decimal_digits(m));
        assert(s[0] == '-');
        assert forall|i: int| 0 <= i < s.len() implies #[trigger] s[i] != ';' by {
            if i > 0 {
                assert(s[i] == decimal_digits(m)[i - 1]);
            }
        }
    } else {
        lemma_decimal_digits(n as nat);
        let s = decimal(n as int);
        assert(is_digit(s[0]));
    }
}

proof fn lemma_split_scan_append(x: Seq<char>, y: Seq<char>, d: char)
    requires
        !contains_char(y, d),
    ensures
        split_scan(x + y, d) == (split_scan(x, d).0, split_scan(x, d).1 + y),
    decreases y.len(),
{
    if y.len() == 0 {
        assert(x + y =~= x);
        assert(split_scan(x, d).1 + y =~= split_scan(x, d).1);
    } else {
        let y0 = y.drop_last();
        assert(!contains_char(y0, d)) by {
            if contains_char(y0, d) {
                let i = choose|i: int| 0 <= i < y0.len() && y0[i] == d;
                assert(y[i] == d);
            }
        }
        lemma_split_scan_append(x, y0, d);
        assert((x + y).drop_last() =~= x + y0);
        assert((x + y).last() == y.last());
        assert(y.last() != d) by {
            assert(y[y.len() - 1] == y.last());
        }
        assert(split_scan(x, d).1 + y0 + seq![y.last()] =~= split_scan(x, d).1 + y);
    }
}

/// A text made of two parts around one delimiter, neither holding it,
/// splits into exactly those two parts.
pub proof fn lemma_split_two(a: Seq<char>, b: Seq<char>, d: char)
    requires
        !contains_char(a, d),
        !contains_char(b, d),
    ensures
        split_on(a + seq![d] + b, d) == seq![a, b],
        first_field(a + seq![d] + b, d) == a,
        last_field(a + seq![d] + b, d) == b,
{
    lemma_split_scan_append(Seq::empty(), a, d);
    assert(Seq::<char>::empty() + a =~= a);
    let ad = a + seq![d];
    assert(ad.drop_last() =~= a);
    assert(split_scan(ad, d) == (seq![a], Seq::<char>::empty()));
    lemma_split_scan_append(ad, b, d);
    assert(Seq::<char>::empty() + b =~= b);
    assert(split_on(a + seq![d] + b, d) =~= seq![a, b]);
}

/// Each item followed by the terminator, split at the terminator again,
/// gives the items back with one empty text after them (where no item
/// holds the terminator).
pub proof fn lemma_split_join_terminated(items: Seq<String>, d: char)
    requires
        forall|i: int| 0 <= i < items.len() ==> !contains_char(#[trigger] items[i]@, d),
    ensures
        split_scan(join_terminated(items, d), d) == (items.map_values(|s: String| s@), Seq::<char>::empty()),
        split_on(join_terminated(items, d), d) == items.map_values(|s: String| s@).push(Seq::<char>::empty()),
    decreases items.len(),
{
    if items.len() == 0 {
        assert(items.map_values(|s: String| s@) =~= Seq::<Seq<char>>::empty());
    } else {
        let prefix = items.drop_last();
        assert forall|i: int| 0 <= i < prefix.len() implies !contains_char(#[trigger] prefix[i]@, d) by {
            assert(prefix[i] == items[i]);
        }
        lemma_split_join_terminated(prefix, d);
        let last = items.last();
        assert(!contains_char(last@, d)) by {
            assert(items[items.len() - 1] == last);
        }
        let j = join_terminated(prefix, d);
        lemma_split_scan_append(j, last@, d);
        assert(split_scan(j, d).1 + last@ =~= last@);
        let full = join_terminated(items, d);
        assert(full == j + last@ + seq![d]);
        assert(full.drop_last() =~= j + last@);
        assert(items.map_values(|s: String| s@) =~= prefix.map_values(|s: String| s@).push(last@));
    }
}

} // verus!
