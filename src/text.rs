//! Small text utilities: Pig Latin, first words, first lines and lengths.
use vstd::prelude::*;
use vstd::string::{StringExecFns, StringSliceAdditionalSpecFns};

verus! {

/// Relies on String::push: the character is appended at the end.
#[verifier::external_body]
pub(crate) fn push_char(s: &mut String, c: char)
    ensures
        final(s)@ == old(s)@.push(c),
{
    s.push(c)
}

/// Characters with the Unicode White_Space property.
pub open spec fn is_white_space(c: char) -> bool {
    ||| ('\u{9}' <= c && c <= '\u{d}')
    ||| c == ' '
    ||| c == '\u{85}'
    ||| c == '\u{a0}'
    ||| c == '\u{1680}'
    ||| ('\u{2000}' <= c && c <= '\u{200a}')
    ||| c == '\u{2028}'
    ||| c == '\u{2029}'
    ||| c == '\u{202f}'
    ||| c == '\u{205f}'
    ||| c == '\u{3000}'
}

/// Whether `c` is white space (the Unicode White_Space property).
pub fn white_space(c: char) -> (r: bool)
    ensures
        r == is_white_space(c),
{
    ('\u{9}' <= c && c <= '\u{d}') || c == ' ' || c == '\u{85}' || c == '\u{a0}' || c == '\u{1680}'
        || ('\u{2000}' <= c && c <= '\u{200a}') || c == '\u{2028}' || c == '\u{2029}' || c == '\u{202f}'
        || c == '\u{205f}' || c == '\u{3000}'
}

/// The words of `s`: its maximal runs of characters that are not white space.
pub open spec fn words(s: Seq<char>) -> Seq<Seq<char>>
    decreases s.len(),
{
    if s.len() == 0 {
        Seq::empty()
    } else {
        let before = words(s.drop_last());
        let c = s.last();
        if is_white_space(c) {
            before
        } else if s.len() >= 2 && !is_white_space(s[s.len() - 2]) {
            before.drop_last().push(before.last().push(c))
        } else {
            before.push(seq![c])
        }
    }
}

/// The lowercase vowels.
pub open spec fn is_vowel(c: char) -> bool {
    c == 'a' || c == 'e' || c == 'i' || c == 'o' || c == 'u'
}

/// One word in Pig Latin: a word that starts with a vowel gets `-hay`; any
/// other word moves its first character to the end, as `-<first>ay`.
pub open spec fn pig_word(w: Seq<char>) -> Seq<char> {
    if is_vowel(w[0]) {
        w + seq!['-', 'h', 'a', 'y']
    } else {
        w.drop_first() + seq!['-', w[0], 'a', 'y']
    }
}

/// The words turned to Pig Latin, joined by single spaces.
pub open spec fn pig_words(ws: Seq<Seq<char>>) -> Seq<char>
    decreases ws.len(),
{
    if ws.len() == 0 {
        Seq::empty()
    } else if ws.len() == 1 {
        pig_word(ws[0])
    } else {
        pig_words(ws.drop_last()) + seq![' '] + pig_word(ws.last())
    }
}

proof fn lemma_pig_words_empty(ws: Seq<Seq<char>>)
    requires
        forall|k: int| 0 <= k < ws.len() ==> (#[trigger] ws[k]).len() > 0,
    ensures
        pig_words(ws).len() == 0 <==> ws.len() == 0,
{
    if ws.len() == 1 {
        if is_vowel(ws[0][0]) {
        }
    } else if ws.len() > 1 {
    }
}

fn append_pig_word(out: &mut String, first: char, rest: &String)
    ensures
        final(out)@ == old(out)@ + pig_word(seq![first] + rest@),
{
    let ghost w = seq![first] + rest@;
    if first == 'a' || first == 'e' || first == 'i' || first == 'o' || first == 'u' {
        push_char(out, first);
        out.append(rest.as_str());
        push_char(out, '-');
        push_char(out, 'h');
        push_char(out, 'a');
        push_char(out, 'y');
        assert(final(out)@ =~= old(out)@ + pig_word(w)) by {
            assert(w[0] == first);
        }
    } else {
        out.append(rest.as_str());
        push_char(out, '-');
        push_char(out, first);
        push_char(out, 'a');
        push_char(out, 'y');
        assert(w.drop_first() =~= rest@);
        assert(final(out)@ =~= old(out)@ + pig_word(w));
    }
}

/// Turns every word of `s` into Pig Latin and joins the results with single
/// spaces.
pub fn pig_latin(s: &str) -> (r: String)
    ensures
        r@ == pig_words(words(s@)),
{
    let mut out = String::new();
    let mut first: Option<char> = None;
    let mut rest = String::new();
    let ghost mut done: Seq<Seq<char>> = Seq::empty();
    for c in it: s.chars()
        invariant
            it.seq() == s@,
            first is None ==> words(s@.subrange(0, it.index() as int)) == done,
            first is None ==> it.index() > 0 ==> is_white_space(s@[it.index() - 1]),
            first is None ==> rest@.len() == 0,
            first is Some ==> words(s@.subrange(0, it.index() as int)) == done.push(seq![first->Some_0] + rest@),
            first is Some ==> it.index() > 0 && !is_white_space(s@[it.index() - 1]),
            out@ == pig_words(done),
            forall|k: int| 0 <= k < done.len() ==> (#[trigger] done[k]).len() > 0,
    {
        proof {
            lemma_pig_words_empty(done);
        }
        let ghost i = it.index();
        assert(s@.subrange(0, i + 1).drop_last() =~= s@.subrange(0, i as int));
        if white_space(c) {
            match first {
                Some(f) => {
                    if !out.as_str().is_empty() {
                        push_char(&mut out, ' ');
                    }
                    append_pig_word(&mut out, f, &rest);
                    proof {
                        let w = seq![f] + rest@;
                        let nd = done.push(w);
                        assert(nd.drop_last() =~= done);
                        if done.len() == 0 {
                            assert(out@ =~= pig_words(nd));
                        } else {
                            assert(out@ =~= pig_words(nd));
                        }
                        done = nd;
                    }
                    first = None;
                    rest = String::new();
                },
                None => {},
            }
        } else {
            match first {
                Some(_) => {
                    push_char(&mut rest, c);
                    assert(s@[i as int] == c);
                },
                None => {
                    first = Some(c);
                    assert(s@[i as int] == c);
                    assert(rest@ =~= Seq::<char>::empty());
                    assert(seq![c] + rest@ =~= seq![c]);
                },
            }
        }
    }
    proof {
        lemma_pig_words_empty(done);
    }
    assert(s@.subrange(0, s@.len() as int) =~= s@);
    if let Some(f) = first {
        if !out.as_str().is_empty() {
            push_char(&mut out, ' ');
        }
        append_pig_word(&mut out, f, &rest);
        proof {
            let w = seq![f] + rest@;
            let nd = done.push(w);
            assert(nd.drop_last() =~= done);
            assert(out@ =~= pig_words(nd));
        }
    }
    out
}

/// The first word of `s`: its bytes up to, not including, the first space,
/// or all of `s` when it has no space.
pub fn first_word(s: &str) -> (r: &str)
    ensures
        r.spec_bytes().len() <= s.spec_bytes().len(),
        r.spec_bytes() == s.spec_bytes().subrange(0, r.spec_bytes().len() as int),
        forall|i: int| 0 <= i < r.spec_bytes().len() ==> r.spec_bytes()[i] != 32u8,
        r.spec_bytes().len() < s.spec_bytes().len() ==> s.spec_bytes()[r.spec_bytes().len() as int] == 32u8,
{
    let bytes = s.as_bytes();
    let mut i: usize = 0;
    while i < bytes.len()
        invariant
            bytes@ == s.spec_bytes(),
            i <= bytes.len(),
            forall|j: int| 0 <= j < i ==> bytes@[j] != 32u8,
        decreases bytes.len() - i,
    {
        if bytes[i] == 32u8 {
            proof {
                vstd::utf8::encode_utf8_valid_utf8(s@);
                vstd::utf8::is_char_boundary_iff_not_is_continuation_byte(s.spec_bytes(), i as int);
            }
            let (head, _) = s.split_at(i);
            return head;
        }
        i = i + 1;
    }
    s
}

/// The characters of `s` before its first line feed (all of `s` if none).
pub open spec fn until_newline(s: Seq<char>) -> Seq<char>
    decreases s.len(),
{
    if s.len() == 0 || s[0] == '\n' {
        Seq::empty()
    } else {
        seq![s[0]] + until_newline(s.drop_first())
    }
}

/// The first line of `s`: the text before the first line feed, without the
/// carriage return of a `\r\n` ending.
pub open spec fn first_line(s: Seq<char>) -> Seq<char> {
    let l = until_newline(s);
    if l.len() < s.len() && l.len() > 0 && l.last() == '\r' {
        l.drop_last()
    } else {
        l
    }
}

proof fn lemma_until_newline(s: Seq<char>, i: int)
    requires
        0 <= i <= s.len(),
        forall|j: int| 0 <= j < i ==> s[j] != '\n',
        i == s.len() || s[i] == '\n',
    ensures
        until_newline(s) == s.subrange(0, i),
    decreases i,
{
    if i == 0 {
        assert(s.subrange(0, 0) =~= Seq::<char>::empty());
    } else {
        lemma_until_newline(s.drop_first(), i - 1);
        assert(seq![s[0]] + s.drop_first().subrange(0, i - 1) =~= s.subrange(0, i));
    }
}

/// The last character of the first line of `text`, if that line is not empty.
pub fn last_char_of_first_line(text: &str) -> (r: Option<char>)
    ensures
        r == (if first_line(text@).len() == 0 { None } else { Some(first_line(text@).last()) }),
{
    let mut last: Option<char> = None;
    let mut before_last: Option<char> = None;
    for c in it: text.chars()
        invariant
            it.seq() == text@,
            forall|j: int| 0 <= j < it.index() ==> text@[j] != '\n',
            last == (if it.index() > 0 { Some(text@[it.index() - 1]) } else { None::<char> }),
            before_last == (if it.index() > 1 { Some(text@[it.index() - 2]) } else { None::<char> }),
    {
        let ghost i = it.index();
        assert(text@[i as int] == c);
        if c == '\n' {
            proof {
                lemma_until_newline(text@, i as int);
            }
            if last == Some('\r') {
                return before_last;
            }
            return last;
        }
        before_last = last;
        last = Some(c);
    }
    proof {
        lemma_until_newline(text@, text@.len() as int);
        assert(text@.subrange(0, text@.len() as int) =~= text@);
    }
    last
}

/// Of two strings, the one with more bytes; `y` when they are equally long.
pub fn longest<'a>(x: &'a str, y: &'a str) -> (r: &'a str)
    ensures
        r == (if x.len() > y.len() { x } else { y }),
{
    if x.len() > y.len() {
        x
    } else {
        y
    }
}

/// The length of `s` in bytes.
pub fn calculate_length(s: &String) -> (r: usize)
    ensures
        r == vstd::utf8::encode_utf8(s@).len() as usize,
{
    s.as_str().len()
}

/// Appends `, world`.
pub fn change(some_string: &mut String)
    ensures
        final(some_string)@ == old(some_string)@ + ", world"@,
{
    some_string.append(", world");
}

/// A freshly made string, `yours`.
pub fn gives_ownership() -> (r: String)
    ensures
        r@ == "yours"@,
{
    String::from_str("yours")
}

/// Hands its argument back.
pub fn takes_and_gives_back(a_string: String) -> (r: String)
    ensures
        r == a_string,
{
    a_string
}

} // verus!
