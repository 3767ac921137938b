//! Text: UTF-8 byte lengths, splitting into words, word wrapping,
//! truncating messages, the decorative horizontal bar and decimal numbers.
use vstd::prelude::*;
use vstd::utf8::*;

verus! {

broadcast use vstd::string::group_string_axioms;

/// Number of bytes in the UTF-8 encoding of a character sequence
/// (what `str::len` reports).
pub open spec fn byte_len(s: Seq<char>) -> nat {
    encode_utf8(s).len()
}

/// Number of bytes in the UTF-8 encoding of one character.
pub open spec fn char_byte_len(c: char) -> nat {
    encode_scalar(c as u32).len()
}

/// A character takes one to four bytes.
pub proof fn lemma_char_byte_len_bounds(c: char)
    ensures
        1 <= char_byte_len(c) <= 4,
{
}

/// The bytes of two texts one after the other add up.
pub proof fn lemma_byte_len_concat(a: Seq<char>, b: Seq<char>)
    ensures
        byte_len(a + b) == byte_len(a) + byte_len(b),
    decreases a.len(),
{
    if a.len() == 0 {
        assert(a + b =~= b);
    } else {
        assert((a + b).drop_first() =~= a.drop_first() + b);
        lemma_byte_len_concat(a.drop_first(), b);
    }
}

/// Appending a character adds its bytes.
pub proof fn lemma_byte_len_push(a: Seq<char>, c: char)
    ensures
        byte_len(a.push(c)) == byte_len(a) + char_byte_len(c),
{
    assert(a.push(c) =~= a + seq![c]);
    lemma_byte_len_concat(a, seq![c]);
    assert(seq![c].drop_first() =~= Seq::<char>::empty());
    assert(encode_utf8(seq![c]) =~= encode_scalar(c as u32) + encode_utf8(Seq::<char>::empty()));
}

/// A text takes at least one byte per character.
pub proof fn lemma_byte_len_at_least_len(a: Seq<char>)
    ensures
        byte_len(a) >= a.len(),
    decreases a.len(),
{
    if a.len() > 0 {
        lemma_byte_len_at_least_len(a.drop_first());
    }
}

/// A prefix takes no more bytes than the whole text.
pub proof fn lemma_byte_len_prefix(a: Seq<char>, i: int)
    requires
        0 <= i <= a.len(),
    ensures
        byte_len(a.take(i)) <= byte_len(a),
{
    assert(a =~= a.take(i) + a.skip(i));
    lemma_byte_len_concat(a.take(i), a.skip(i));
}

/// Number of bytes that `c` takes in UTF-8.
pub fn char_utf8_width(c: char) -> (n: usize)
    ensures
        n == char_byte_len(c),
{
    proof {
        vstd::utf8::char_is_scalar(c);
    }
    let u = c as u32;
    if u <= 0x7F {
        1
    } else if u <= 0x7FF {
        2
    } else if u <= 0xFFFF {
        3
    } else {
        4
    }
}

/// Whether `c` has the Unicode `White_Space` property (the definition that
/// `char::is_whitespace` and `str::split_whitespace` use).
pub open spec fn is_white_space(c: char) -> bool {
    let u = c as u32;
    ||| 0x09 <= u <= 0x0D
    ||| u == 0x20
    ||| u == 0x85
    ||| u == 0xA0
    ||| u == 0x1680
    ||| 0x2000 <= u <= 0x200A
    ||| u == 0x2028
    ||| u == 0x2029
    ||| u == 0x202F
    ||| u == 0x205F
    ||| u == 0x3000
}

/// Decides `is_white_space`.
pub fn is_white_space_char(c: char) -> (b: bool)
    ensures
        b == is_white_space(c),
{
    let u = c as u32;
    (0x09 <= u && u <= 0x0D) || u == 0x20 || u == 0x85 || u == 0xA0 || u == 0x1680 || (0x2000
        <= u && u <= 0x200A) || u == 0x2028 || u == 0x2029 || u == 0x202F || u == 0x205F || u
        == 0x3000
}

/// Left-to-right scan that splits a text at whitespace: the words completed so
/// far, and the word being read.
pub open spec fn scan_words(s: Seq<char>) -> (Seq<Seq<char>>, Seq<char>)
    decreases s.len(),
{
    if s.len() == 0 {
        (Seq::empty(), Seq::empty())
    } else {
        let (done, cur) = scan_words(s.drop_last());
        let c = s.last();
        if is_white_space(c) {
            if cur.len() > 0 {
                (done.push(cur), Seq::empty())
            } else {
                (done, Seq::empty())
            }
        } else {
            (done, cur.push(c))
        }
    }
}

/// The maximal runs of non-whitespace characters of `s`, in order
/// (what `str::split_whitespace` yields).
pub open spec fn words_of(s: Seq<char>) -> Seq<Seq<char>> {
    let (done, cur) = scan_words(s);
    if cur.len() > 0 {
        done.push(cur)
    } else {
        done
    }
}

/// One step of greedy line filling: put word `w` on the current line when the
/// line, a space and the word fit in `max` bytes, else start a new line.
pub open spec fn wrap_step(state: (Seq<Seq<char>>, Seq<char>), w: Seq<char>, max: nat) -> (
    Seq<Seq<char>>,
    Seq<char>,
) {
    let (lines, cur) = state;
    if cur.len() == 0 {
        (lines, w)
    } else if byte_len(cur) + 1 + byte_len(w) <= max {
        (lines, cur + seq![' '] + w)
    } else {
        (lines.push(cur), w)
    }
}

/// Greedy line filling over a sequence of words: the finished lines and the
/// line being filled.
pub open spec fn wrap_scan(ws: Seq<Seq<char>>, max: nat) -> (Seq<Seq<char>>, Seq<char>)
    decreases ws.len(),
{
    if ws.len() == 0 {
        (Seq::empty(), Seq::empty())
    } else {
        wrap_step(wrap_scan(ws.drop_last(), max), ws.last(), max)
    }
}

/// The lines that word wrapping `text` at `max` bytes produces.
pub open spec fn wrapped_lines(text: Seq<char>, max: nat) -> Seq<Seq<char>> {
    let (lines, cur) = wrap_scan(words_of(text), max);
    if cur.len() > 0 {
        lines.push(cur)
    } else {
        lines
    }
}

/// Bytes taken by a list of words, counting one separator after each.
pub open spec fn words_bytes(ws: Seq<Seq<char>>) -> nat
    decreases ws.len(),
{
    if ws.len() == 0 {
        0
    } else {
        words_bytes(ws.drop_last()) + byte_len(ws.last()) + 1
    }
}

proof fn lemma_scan_words_bytes(s: Seq<char>)
    ensures
        words_bytes(scan_words(s).0) + byte_len(scan_words(s).1) <= byte_len(s),
        forall|i: int|
            0 <= i < scan_words(s).0.len() ==> #[trigger] scan_words(s).0[i].len() > 0,
    decreases s.len(),
{
    if s.len() > 0 {
        let p = s.drop_last();
        lemma_scan_words_bytes(p);
        assert(s =~= p.push(s.last()));
        lemma_byte_len_push(p, s.last());
        lemma_char_byte_len_bounds(s.last());
        let (done, cur) = scan_words(p);
        lemma_byte_len_push(cur, s.last());
        if is_white_space(s.last()) && cur.len() > 0 {
            assert(done.push(cur).drop_last() =~= done);
        }
    }
}

proof fn lemma_wrap_scan_bytes(ws: Seq<Seq<char>>, max: nat)
    requires
        forall|i: int| 0 <= i < ws.len() ==> #[trigger] ws[i].len() > 0,
    ensures
        ws.len() > 0 ==> wrap_scan(ws, max).1.len() > 0 && byte_len(wrap_scan(ws, max).1) + 1
            <= words_bytes(ws),
        ws.len() == 0 ==> wrap_scan(ws, max).1.len() == 0,
    decreases ws.len(),
{
    if ws.len() > 0 {
        let p = ws.drop_last();
        assert forall|i: int| 0 <= i < p.len() implies #[trigger] p[i].len() > 0 by {
            assert(p[i] == ws[i]);
        }
        lemma_wrap_scan_bytes(p, max);
        let (lines, cur) = wrap_scan(p, max);
        let w = ws.last();
        assert(w == ws[ws.len() - 1]);
        if cur.len() != 0 && byte_len(cur) + 1 + byte_len(w) <= max {
            lemma_byte_len_concat(cur, seq![' ']);
            lemma_byte_len_concat(cur + seq![' '], w);
            lemma_byte_len_push(Seq::<char>::empty(), ' ');
            assert(Seq::<char>::empty().push(' ') =~= seq![' ']);
        }
    }
}

/// No character of `s` is whitespace.
pub open spec fn no_white_space(s: Seq<char>) -> bool {
    forall|i: int| 0 <= i < s.len() ==> !is_white_space(#[trigger] s[i])
}

/// The words of each line, one line after the other.
pub open spec fn words_of_lines(lines: Seq<Seq<char>>) -> Seq<Seq<char>>
    decreases lines.len(),
{
    if lines.len() == 0 {
        Seq::empty()
    } else {
        words_of_lines(lines.drop_last()) + words_of(lines.last())
    }
}

proof fn lemma_scan_words_clean(s: Seq<char>)
    ensures
        no_white_space(scan_words(s).1),
        forall|i: int|
            0 <= i < scan_words(s).0.len() ==> #[trigger] scan_words(s).0[i].len() > 0
                && no_white_space(scan_words(s).0[i]),
    decreases s.len(),
{
    if s.len() > 0 {
        lemma_scan_words_clean(s.drop_last());
    }
}

/// Every word of `s` is non-empty and free of whitespace.
pub proof fn lemma_words_of_clean(s: Seq<char>)
    ensures
        forall|i: int|
            0 <= i < words_of(s).len() ==> #[trigger] words_of(s)[i].len() > 0 && no_white_space(
                words_of(s)[i],
            ),
{
    lemma_scan_words_clean(s);
}

proof fn lemma_scan_words_concat(p: Seq<char>, q: Seq<char>)
    requires
        scan_words(p).1.len() == 0,
    ensures
        scan_words(p + q) == (scan_words(p).0 + scan_words(q).0, scan_words(q).1),
    decreases q.len(),
{
    if q.len() == 0 {
        assert(p + q =~= p);
        assert(scan_words(p).0 + scan_words(q).0 =~= scan_words(p).0);
    } else {
        let q0 = q.drop_last();
        lemma_scan_words_concat(p, q0);
        assert((p + q).drop_last() =~= p + q0);
        assert((p + q).last() == q.last());
        let (dq, cq) = scan_words(q0);
        assert((scan_words(p).0 + dq).push(cq) =~= scan_words(p).0 + dq.push(cq));
    }
}

proof fn lemma_scan_words_single_word(w: Seq<char>)
    requires
        no_white_space(w),
    ensures
        scan_words(w) == (Seq::<Seq<char>>::empty(), w),
    decreases w.len(),
{
    if w.len() == 0 {
        assert(w =~= Seq::<char>::empty());
    } else {
        let w0 = w.drop_last();
        assert(no_white_space(w0));
        lemma_scan_words_single_word(w0);
        assert(w0.push(w.last()) =~= w);
        assert(!is_white_space(w[w.len() - 1]));
    }
}

proof fn lemma_words_of_joined(cur: Seq<char>, w: Seq<char>)
    requires
        no_white_space(w),
        w.len() > 0,
    ensures
        words_of(cur + seq![' '] + w) == words_of(cur).push(w),
{
    let p = cur + seq![' '];
    assert(p.drop_last() =~= cur);
    assert(p.last() == ' ');
    assert(is_white_space(' '));
    assert(scan_words(p).1.len() == 0);
    assert(scan_words(p).0 == words_of(cur));
    lemma_scan_words_concat(p, w);
    lemma_scan_words_single_word(w);
    assert(scan_words(p).0 + Seq::<Seq<char>>::empty() =~= scan_words(p).0);
}

proof fn lemma_words_of_single(w: Seq<char>)
    requires
        no_white_space(w),
        w.len() > 0,
    ensures
        words_of(w) == seq![w],
{
    lemma_scan_words_single_word(w);
    assert(Seq::<Seq<char>>::empty().push(w) =~= seq![w]);
}

/// What the line filling keeps at every step: lines are non-empty, each
/// line fits in `max` bytes or is a single word, and reading the words of the
/// lines (then of the line being filled) gives back the words placed so far.
proof fn lemma_wrap_scan_props(ws: Seq<Seq<char>>, max: nat)
    requires
        forall|i: int| 0 <= i < ws.len() ==> #[trigger] ws[i].len() > 0 && no_white_space(ws[i]),
    ensures
        ({
            let (lines, cur) = wrap_scan(ws, max);
            &&& (cur.len() > 0 <==> ws.len() > 0)
            &&& (byte_len(cur) <= max || no_white_space(cur))
            &&& forall|i: int|
                0 <= i < lines.len() ==> #[trigger] lines[i].len() > 0 && (byte_len(lines[i])
                    <= max || no_white_space(lines[i]))
            &&& words_of_lines(lines) + words_of(cur) == ws
        }),
    decreases ws.len(),
{
    if ws.len() == 0 {
        assert(scan_words(Seq::<char>::empty()).0.len() == 0);
        assert(words_of(Seq::<char>::empty()) =~= Seq::<Seq<char>>::empty());
        assert(Seq::<Seq<char>>::empty() + Seq::<Seq<char>>::empty() =~= ws);
    } else {
        let p = ws.drop_last();
        let w = ws.last();
        assert(w == ws[ws.len() - 1]);
        assert forall|i: int| 0 <= i < p.len() implies #[trigger] p[i].len() > 0
            && no_white_space(p[i]) by {
            assert(p[i] == ws[i]);
        }
        lemma_wrap_scan_props(p, max);
        let (lines, cur) = wrap_scan(p, max);
        lemma_words_of_single(w);
        if cur.len() == 0 {
            assert(p.len() == 0);
            assert(lines.len() == 0) by {
                assert(wrap_scan(p, max) == (Seq::<Seq<char>>::empty(), Seq::<char>::empty()));
            }
            assert(words_of_lines(lines) =~= Seq::<Seq<char>>::empty());
            assert(words_of_lines(lines) + seq![w] =~= ws);
        } else if byte_len(cur) + 1 + byte_len(w) <= max {
            let joined = cur + seq![' '] + w;
            lemma_byte_len_concat(cur, seq![' ']);
            lemma_byte_len_concat(cur + seq![' '], w);
            lemma_words_of_joined(cur, w);
            lemma_byte_len_push(Seq::<char>::empty(), ' ');
            assert(Seq::<char>::empty().push(' ') =~= seq![' ']);
            assert(byte_len(joined) <= max);
            assert(words_of_lines(lines) + words_of(cur).push(w) =~= (words_of_lines(lines)
                + words_of(cur)).push(w));
            assert(p.push(w) =~= ws);
        } else {
            let nl = lines.push(cur);
            assert(nl.drop_last() =~= lines);
            assert(nl.last() == cur);
            assert(words_of_lines(nl) == words_of_lines(lines) + words_of(cur));
            assert(words_of_lines(nl) + seq![w] =~= p.push(w));
            assert(p.push(w) =~= ws);
            assert forall|i: int| 0 <= i < nl.len() implies #[trigger] nl[i].len() > 0 && (
            byte_len(nl[i]) <= max || no_white_space(nl[i])) by {
                if i < lines.len() {
                    assert(nl[i] == lines[i]);
                }
            }
        }
    }
}

/// Law of word wrapping: every line is non-empty; every line fits in
/// `max_width` bytes unless it is a single word longer than that; and the
/// words of the lines, read in order, are exactly the words of the text.
pub proof fn lemma_word_wrap_laws(text: Seq<char>, max_width: nat)
    ensures
        forall|i: int|
            0 <= i < wrapped_lines(text, max_width).len() ==> #[trigger] wrapped_lines(
                text,
                max_width,
            )[i].len() > 0 && (byte_len(wrapped_lines(text, max_width)[i]) <= max_width
                || no_white_space(wrapped_lines(text, max_width)[i])),
        words_of_lines(wrapped_lines(text, max_width)) == words_of(text),
{
    lemma_words_of_clean(text);
    let ws = words_of(text);
    lemma_wrap_scan_props(ws, max_width);
    let (lines, cur) = wrap_scan(ws, max_width);
    if cur.len() > 0 {
        let nl = lines.push(cur);
        assert(nl.drop_last() =~= lines);
        assert(nl.last() == cur);
        assert forall|i: int| 0 <= i < nl.len() implies #[trigger] nl[i].len() > 0 && (
        byte_len(nl[i]) <= max_width || no_white_space(nl[i])) by {
            if i < lines.len() {
                assert(nl[i] == lines[i]);
            }
        }
    } else {
        assert(scan_words(cur).0.len() == 0);
        assert(words_of(cur) =~= Seq::<Seq<char>>::empty());
        assert(words_of_lines(lines) + words_of(cur) =~= words_of_lines(lines));
    }
}

/// The character sequences of a list of strings.
pub open spec fn string_views(v: Seq<String>) -> Seq<Seq<char>> {
    v.map_values(|l: String| l@)
}

/// `String::push`: appends one character.
#[verifier::external_body]
pub(crate) fn push_char(s: &mut String, c: char)
    ensures
        final(s)@ == old(s)@.push(c),
{
    s.push(c);
}

/// Places one word on the lines being built (one `wrap_step`).
fn place_word(lines: &mut Vec<String>, current_line: &mut String, word: String, max_width: usize)
    requires
        old(current_line)@.len() > 0 ==> byte_len(old(current_line)@) + 1 + byte_len(word@)
            <= usize::MAX,
    ensures
        string_views(final(lines)@) == wrap_step(
            (string_views(old(lines)@), old(current_line)@),
            word@,
            max_width as nat,
        ).0,
        final(current_line)@ == wrap_step(
            (string_views(old(lines)@), old(current_line)@),
            word@,
            max_width as nat,
        ).1,
{
    let ghost old_lines = string_views(lines@);
    if current_line.as_str().is_empty() {
        *current_line = word;
    } else {
        let cl = current_line.as_str().len();
        let wl = word.as_str().len();
        if cl + 1 + wl <= max_width {
            push_char(current_line, ' ');
            current_line.append(word.as_str());
        } else {
            let mut finished = word;
            std::mem::swap(&mut finished, current_line);
            lines.push(finished);
            assert(string_views(lines@) =~= old_lines.push(old(current_line)@));
        }
    }
}

/// Greedy word wrap: splits `text` at whitespace and fills lines of at most
/// `max_width` bytes, joining words with single spaces; a word longer than
/// the width stands on a line of its own.
pub fn word_wrap(text: &str, max_width: usize) -> (lines: Vec<String>)
    requires
        byte_len(text@) <= usize::MAX,
    ensures
        string_views(lines@) == wrapped_lines(text@, max_width as nat),
{
    let mut lines: Vec<String> = Vec::new();
    let mut current_line = String::new();
    let mut word = String::new();
    let ghost max = max_width as nat;
    let ghost mut done: Seq<Seq<char>> = Seq::empty();
    for c in it: text.chars()
        invariant
            it.seq() == text@,
            max == max_width as nat,
            byte_len(text@) <= usize::MAX,
            scan_words(text@.take(it.index() as int)) == (done, word@),
            wrap_scan(done, max) == (string_views(lines@), current_line@),
    {
        let ghost i = it.index() as int;
        let ghost prefix = text@.take(i);
        proof {
            assert(c == text@[i]);
            assert(text@.take(i + 1).drop_last() =~= prefix);
            assert(text@.take(i + 1) =~= prefix.push(c));
            lemma_scan_words_bytes(prefix);
            assert(scan_words(prefix).0 == done);
            assert forall|k: int| 0 <= k < done.len() implies #[trigger] done[k].len() > 0 by {
                assert(scan_words(prefix).0[k] == done[k]);
            }
            lemma_wrap_scan_bytes(done, max);
            assert(words_bytes(done) + byte_len(word@) <= byte_len(prefix));
            lemma_byte_len_prefix(text@, i + 1);
            lemma_byte_len_push(prefix, c);
            lemma_char_byte_len_bounds(c);
        }
        if is_white_space_char(c) {
            if !word.as_str().is_empty() {
                let mut w = String::new();
                std::mem::swap(&mut w, &mut word);
                let ghost wv = w@;
                let ghost st = (string_views(lines@), current_line@);
                assert(wrap_scan(done, max) == st);
                assert(current_line@.len() > 0 ==> byte_len(current_line@) + 1 <= words_bytes(done));
                assert(byte_len(prefix.push(c)) <= byte_len(text@));
                place_word(&mut lines, &mut current_line, w, max_width);
                assert((string_views(lines@), current_line@) == wrap_step(st, wv, max));
                proof {
                    assert(done.push(wv).drop_last() =~= done);
                    assert(done.push(wv).last() == wv);
                    assert(wrap_scan(done.push(wv), max) == wrap_step(wrap_scan(done, max), wv, max));
                    done = done.push(wv);
                }
                assert(wrap_scan(done, max) == (string_views(lines@), current_line@));
            } else {
                assert(wrap_scan(done, max) == (string_views(lines@), current_line@));
            }
        } else {
            push_char(&mut word, c);
            assert(wrap_scan(done, max) == (string_views(lines@), current_line@));
        }
    }
    proof {
        assert(text@.take(text@.len() as int) =~= text@);
        lemma_scan_words_bytes(text@);
        assert(scan_words(text@).0 == done);
        assert forall|k: int| 0 <= k < done.len() implies #[trigger] done[k].len() > 0 by {
            assert(scan_words(text@).0[k] == done[k]);
        }
        lemma_wrap_scan_bytes(done, max);
    }
    if !word.as_str().is_empty() {
        let ghost w = word@;
        place_word(&mut lines, &mut current_line, word, max_width);
        proof {
            assert(done.push(w).drop_last() =~= done);
            assert(done.push(w).last() == w);
        }
    }
    if !current_line.as_str().is_empty() {
        lines.push(current_line);
    }
    lines
}

/// The words of `text`, in order (what `str::split_whitespace` yields).
pub fn split_words(text: &str) -> (words: Vec<String>)
    ensures
        string_views(words@) == words_of(text@),
{
    let mut words: Vec<String> = Vec::new();
    let mut word = String::new();
    for c in it: text.chars()
        invariant
            it.seq() == text@,
            scan_words(text@.take(it.index() as int)) == (string_views(words@), word@),
    {
        let ghost i = it.index() as int;
        let ghost prefix = text@.take(i);
        let ghost before = string_views(words@);
        proof {
            assert(c == text@[i]);
            assert(text@.take(i + 1).drop_last() =~= prefix);
            assert(text@.take(i + 1) =~= prefix.push(c));
        }
        if is_white_space_char(c) {
            if !word.as_str().is_empty() {
                let mut w = String::new();
                std::mem::swap(&mut w, &mut word);
                words.push(w);
                assert(string_views(words@) =~= before.push(scan_words(prefix).1));
            }
        } else {
            push_char(&mut word, c);
        }
    }
    proof {
        assert(text@.take(text@.len() as int) =~= text@);
    }
    if !word.as_str().is_empty() {
        let ghost before = string_views(words@);
        let ghost w = word@;
        words.push(word);
        assert(string_views(words@) =~= before.push(w));
    }
    words
}

/// The byte offset `k` falls between two characters of `s`.
pub open spec fn is_char_cut(s: Seq<char>, k: nat) -> bool {
    exists|j: int| 0 <= j <= s.len() && byte_len(#[trigger] s.take(j)) == k
}

proof fn lemma_byte_len_take_mono(s: Seq<char>, i: int, j: int)
    requires
        0 <= i <= j <= s.len(),
    ensures
        byte_len(s.take(i)) <= byte_len(s.take(j)),
        i < j ==> byte_len(s.take(i)) < byte_len(s.take(j)),
{
    assert(s.take(j).take(i) =~= s.take(i));
    assert(s.take(j) =~= s.take(i) + s.take(j).skip(i));
    lemma_byte_len_concat(s.take(i), s.take(j).skip(i));
    if i < j {
        lemma_byte_len_at_least_len(s.take(j).skip(i));
    }
}

/// Shortens `msg` for display in `max_len` bytes: a message that fits is kept
/// whole; a longer one is cut after `max_len - 3` bytes (0 when `max_len < 3`)
/// and "..." is appended.
pub fn truncate_message(msg: &str, max_len: usize) -> (r: String)
    requires
        byte_len(msg@) <= usize::MAX,
        byte_len(msg@) > max_len ==> is_char_cut(
            msg@,
            (if max_len >= 3 {
                max_len - 3
            } else {
                0
            }) as nat,
        ),
    ensures
        byte_len(msg@) <= max_len ==> r@ == msg@,
        byte_len(msg@) > max_len ==> exists|j: int|
            0 <= j <= msg@.len() && byte_len(#[trigger] msg@.take(j)) == (if max_len >= 3 {
                max_len - 3
            } else {
                0
            }) && r@ == msg@.take(j) + seq!['.', '.', '.'],
{
    if msg.len() <= max_len {
        return msg.to_owned();
    }
    let cut = max_len.saturating_sub(3);
    let ghost k = cut as nat;
    let ghost jc = choose|j: int| 0 <= j <= msg@.len() && byte_len(#[trigger] msg@.take(j)) == k;
    let mut r = String::new();
    let mut b: usize = 0;
    let ghost mut n: int = 0;
    for c in it: msg.chars()
        invariant
            it.seq() == msg@,
            cut == k,
            0 <= jc <= msg@.len(),
            byte_len(msg@.take(jc)) == k,
            0 <= n <= it.index(),
            r@ == msg@.take(n),
            b == byte_len(msg@.take(n)),
            b <= k,
            n < it.index() ==> b == k,
    {
        let ghost i = it.index() as int;
        if b < cut {
            proof {
                assert(c == msg@[i]);
                assert(n == i);
                if jc <= n {
                    lemma_byte_len_take_mono(msg@, jc, n);
                }
                lemma_byte_len_take_mono(msg@, n + 1, jc);
                assert(msg@.take(n + 1) =~= msg@.take(n).push(c));
                lemma_byte_len_push(msg@.take(n), c);
            }
            push_char(&mut r, c);
            b = b + char_utf8_width(c);
            proof {
                n = n + 1;
            }
        }
    }
    proof {
        assert(msg@.take(msg@.len() as int) =~= msg@);
        if n == msg@.len() {
            assert(false);
        }
        reveal_strlit("...");
    }
    r.append("...");
    assert(r@ == msg@.take(n) + seq!['.', '.', '.']);
    r
}

/// Character `i` of the decorative horizontal bar of width `width`: "-."
/// then the pattern "_.-=-." repeated (cut to fit) then "_.-"; a bar
/// narrower than 5 is all dashes.
pub open spec fn horizontal_bar_char(width: nat, i: int) -> char {
    if width < 5 {
        '-'
    } else if i < 2 {
        if i == 0 {
            '-'
        } else {
            '.'
        }
    } else if i >= width - 3 {
        let k = i - (width - 3);
        if k == 0 {
            '_'
        } else if k == 1 {
            '.'
        } else {
            '-'
        }
    } else {
        let k = (i - 2) % 6;
        if k == 0 {
            '_'
        } else if k == 1 || k == 5 {
            '.'
        } else if k == 2 || k == 4 {
            '-'
        } else {
            '='
        }
    }
}

/// Builds the decorative horizontal bar that fills `width` columns.
pub fn generate_horizontal_bar(width: usize) -> (bar: String)
    ensures
        bar@ == Seq::new(width as nat, |i: int| horizontal_bar_char(width as nat, i)),
{
    let mut bar = String::new();
    for i in 0..width
        invariant
            bar@ == Seq::new(i as nat, |j: int| horizontal_bar_char(width as nat, j)),
    {
        let c = if width < 5 {
            '-'
        } else if i < 2 {
            if i == 0 {
                '-'
            } else {
                '.'
            }
        } else if i >= width - 3 {
            let k = i - (width - 3);
            if k == 0 {
                '_'
            } else if k == 1 {
                '.'
            } else {
                '-'
            }
        } else {
            let k = (i - 2) % 6;
            if k == 0 {
                '_'
            } else if k == 1 || k == 5 {
                '.'
            } else if k == 2 || k == 4 {
                '-'
            } else {
                '='
            }
        };
        push_char(&mut bar, c);
        assert(bar@ =~= Seq::new((i + 1) as nat, |j: int| horizontal_bar_char(width as nat, j)));
    }
    bar
}

/// The decimal digit character for `d` (0 to 9).
pub open spec fn digit_char(d: nat) -> char {
    (48 + d) as char
}

/// Decimal notation of `n`, without leading zeros.
pub open spec fn decimal(n: nat) -> Seq<char>
    decreases n,
{
    if n < 10 {
        seq![digit_char(n)]
    } else {
        decimal(n / 10).push(digit_char(n % 10))
    }
}

/// Decimal notation of a signed number: a minus sign before negative ones.
pub open spec fn signed_decimal(n: int) -> Seq<char> {
    if n < 0 {
        seq!['-'] + decimal((-n) as nat)
    } else {
        decimal(n as nat)
    }
}

/// Appends the decimal notation of `n` to `s` (as `{}` formats it).
pub fn push_decimal(s: &mut String, n: u64)
    ensures
        final(s)@ == old(s)@ + decimal(n as nat),
    decreases n,
{
    if n >= 10 {
        push_decimal(s, n / 10);
    }
    let d = (n % 10) as u8;
    let c = (48u8 + d) as char;
    assert(c == digit_char((n % 10) as nat));
    push_char(s, c);
    proof {
        if n >= 10 {
            assert(old(s)@ + decimal((n / 10) as nat) + seq![c] =~= old(s)@ + decimal((n / 10) as nat).push(c));
        } else {
            assert(old(s)@.push(c) =~= old(s)@ + seq![c]);
        }
    }
}

/// Appends the decimal notation of the signed `n` to `s` (as `{}` formats
/// it).
pub fn push_signed_decimal(s: &mut String, n: i64)
    ensures
        final(s)@ == old(s)@ + signed_decimal(n as int),
{
    if n < 0 {
        push_char(s, '-');
        let magnitude: u64 = if n == i64::MIN {
            9223372036854775808u64
        } else {
            (-n) as u64
        };
        push_decimal(s, magnitude);
        assert(old(s)@.push('-') + decimal(magnitude as nat) =~= old(s)@ + (seq!['-'] + decimal((-(n as int)) as nat)));
    } else {
        push_decimal(s, n as u64);
    }
}

/// Appends `t` to `s`.
pub fn push_str(s: &mut String, t: &str)
    ensures
        final(s)@ == old(s)@ + t@,
{
    s.append(t);
}

/// `String::pop`: removes and returns the last character, if any.
#[verifier::external_body]
pub(crate) fn pop_char(s: &mut String) -> (c: Option<char>)
    ensures
        old(s)@.len() == 0 ==> c == None::<char> && final(s)@ == old(s)@,
        old(s)@.len() > 0 ==> c == Some(old(s)@.last()) && final(s)@ == old(s)@.drop_last(),
{
    s.pop()
}

/// Whether `c` is alphabetic or numeric in the Unicode sense (what
/// `char::is_alphanumeric` answers).
pub uninterp spec fn is_alphanumeric(c: char) -> bool;

/// `char::is_alphanumeric`.
#[verifier::external_body]
pub(crate) fn char_is_alphanumeric(c: char) -> (b: bool)
    ensures
        b == is_alphanumeric(c),
{
    c.is_alphanumeric()
}

} // verus!
