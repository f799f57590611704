//! Which modules a source text declares.

use vstd::prelude::*;

verus! {

/// `String::push` of the standard library: appends one character.
pub assume_specification[ String::push ](s: &mut String, c: char)
    ensures
        final(s)@ == old(s)@.push(c),
;

/// The characters of a text.
pub fn chars_of(text: &str) -> (chars: Vec<char>)
    ensures
        chars@ == text@,
{
    let mut chars: Vec<char> = Vec::new();
    for c in it: text.chars()
        invariant
            it.seq() == text@,
            chars@ == text@.take(it.index()),
    {
        chars.push(c);
        assert(chars@ =~= text@.take(it.index() + 1));
    }
    assert(text@.take(text@.len() as int) =~= text@);
    chars
}

/// Where the scanner of comments is.
#[derive(Clone, Copy, Debug, PartialEq, Eq, Structural)]
pub enum Place {
    Code,
    LineComment,
    BlockComment,
}

/// The text `s`, read from `place` on, without its comments. The line break
/// that ends a line comment stays.
pub open spec fn stripped(s: Seq<char>, place: Place) -> Seq<char>
    decreases s.len(),
{
    if s.len() == 0 {
        Seq::empty()
    } else {
        let rest = s.skip(1);
        let pair = s.len() >= 2;
        match place {
            Place::LineComment => if s[0] == '\n' {
                seq!['\n'] + stripped(rest, Place::Code)
            } else {
                stripped(rest, Place::LineComment)
            },
            Place::BlockComment => if pair && s[0] == '*' && s[1] == '/' {
                stripped(s.skip(2), Place::Code)
            } else {
                stripped(rest, Place::BlockComment)
            },
            Place::Code => if pair && s[0] == '/' && s[1] == '/' {
                stripped(s.skip(2), Place::LineComment)
            } else if pair && s[0] == '/' && s[1] == '*' {
                stripped(s.skip(2), Place::BlockComment)
            } else {
                seq![s[0]] + stripped(rest, Place::Code)
            },
        }
    }
}

/// Take line and block comments out of a text. String literals are not looked
/// at: a declaration cannot stand in one.
pub fn strip_comments(src: &str) -> (out: String)
    ensures
        out@ == stripped(src@, Place::Code),
{
    let chars: Vec<char> = chars_of(src);
    let mut out = String::new();
    let mut place = Place::Code;
    let mut i: usize = 0;
    assert(src@.skip(0) =~= src@);
    assert(out@ + stripped(src@, Place::Code) =~= stripped(src@, Place::Code));
    while i < chars.len()
        invariant
            i <= chars.len(),
            chars@ == src@,
            out@ + stripped(src@.skip(i as int), place) == stripped(src@, Place::Code),
        decreases chars.len() - i,
    {
        let ghost here = src@.skip(i as int);
        let c: char = chars[i];
        let pair: bool = chars.len() - i >= 2;
        proof {
            assert(here.skip(1) =~= src@.skip(i + 1));
            if pair {
                assert(here.skip(2) =~= src@.skip(i + 2));
            }
        }
        match place {
            Place::LineComment => {
                if c == '\n' {
                    let ghost before = out@;
                    place = Place::Code;
                    out.push('\n');
                    proof {
                        let tail = stripped(src@.skip(i + 1), Place::Code);
                        assert(before.push('\n') + tail =~= before + (seq!['\n'] + tail));
                    }
                }
                i += 1;
            },
            Place::BlockComment => {
                if pair && c == '*' && chars[i + 1] == '/' {
                    place = Place::Code;
                    i += 2;
                } else {
                    i += 1;
                }
            },
            Place::Code => {
                if pair && c == '/' && chars[i + 1] == '/' {
                    place = Place::LineComment;
                    i += 2;
                } else if pair && c == '/' && chars[i + 1] == '*' {
                    place = Place::BlockComment;
                    i += 2;
                } else {
                    let ghost before = out@;
                    out.push(c);
                    proof {
                        let tail = stripped(src@.skip(i + 1), Place::Code);
                        assert(before.push(c) + tail =~= before + (seq![c] + tail));
                    }
                    i += 1;
                }
            },
        }
    }
    assert(src@.skip(i as int) =~= Seq::<char>::empty());
    assert(out@ + Seq::<char>::empty() =~= out@);
    out
}

/// A character that identifiers are made of.
pub open spec fn word_char(c: char) -> bool {
    'a' <= c <= 'z' || 'A' <= c <= 'Z' || '0' <= c <= '9' || c == '_'
}

/// A character that is a token of its own.
pub open spec fn structural(c: char) -> bool {
    c == ';' || c == '{' || c == '}'
}

fn is_word_char(c: char) -> (b: bool)
    ensures
        b == word_char(c),
{
    ('a' <= c && c <= 'z') || ('A' <= c && c <= 'Z') || ('0' <= c && c <= '9') || c == '_'
}

/// A word as a list of tokens: none where it is empty.
pub open spec fn flushed(word: Seq<char>) -> Seq<Seq<char>> {
    if word.len() == 0 {
        Seq::empty()
    } else {
        seq![word]
    }
}

/// The tokens of `s` after the beginning `word` of a word: maximal words, and
/// structural characters; everything else only separates.
pub open spec fn tokens_of(s: Seq<char>, word: Seq<char>) -> Seq<Seq<char>>
    decreases s.len(),
{
    if s.len() == 0 {
        flushed(word)
    } else if word_char(s[0]) {
        tokens_of(s.skip(1), word.push(s[0]))
    } else {
        flushed(word) + (if structural(s[0]) {
            seq![seq![s[0]]]
        } else {
            Seq::empty()
        }) + tokens_of(s.skip(1), Seq::empty())
    }
}

/// The contents of a list of strings.
pub open spec fn views(list: Seq<String>) -> Seq<Seq<char>> {
    Seq::new(list.len(), |i: int| list[i]@)
}

proof fn lemma_views_push(list: Seq<String>, s: String)
    ensures
        views(list.push(s)) == views(list).push(s@),
{
    assert(views(list.push(s)) =~= views(list).push(s@));
}

/// Split a text into words and the structural characters `;`, `{` and `}`.
pub fn tokenize(src: &str) -> (tokens: Vec<String>)
    ensures
        views(tokens@) == tokens_of(src@, Seq::empty()),
{
    let chars: Vec<char> = chars_of(src);
    let mut tokens: Vec<String> = Vec::new();
    let mut cur = String::new();
    let mut i: usize = 0;
    assert(src@.skip(0) =~= src@);
    assert(views(tokens@) + tokens_of(src@, Seq::empty()) =~= tokens_of(src@, Seq::empty()));
    while i < chars.len()
        invariant
            i <= chars.len(),
            chars@ == src@,
            views(tokens@) + tokens_of(src@.skip(i as int), cur@) == tokens_of(
                src@,
                Seq::empty(),
            ),
        decreases chars.len() - i,
    {
        let c: char = chars[i];
        let ghost here = src@.skip(i as int);
        proof {
            assert(here.skip(1) =~= src@.skip(i + 1));
        }
        if is_word_char(c) {
            cur.push(c);
        } else {
            let ghost start = views(tokens@);
            let ghost word = cur@;
            let ghost rest = tokens_of(src@.skip(i + 1), Seq::empty());
            if cur.as_str().unicode_len() > 0 {
                proof {
                    lemma_views_push(tokens@, cur);
                }
                tokens.push(cur);
                cur = String::new();
            }
            assert(cur@ =~= Seq::empty());
            assert(views(tokens@) =~= start + flushed(word));
            let ghost middle = views(tokens@);
            if c == ';' || c == '{' || c == '}' {
                let mut one = String::new();
                one.push(c);
                assert(one@ =~= seq![c]);
                proof {
                    lemma_views_push(tokens@, one);
                }
                tokens.push(one);
                assert(views(tokens@) =~= middle + seq![seq![c]]);
                assert(views(tokens@) + rest =~= start + (flushed(word) + seq![seq![c]] + rest));
            } else {
                assert(views(tokens@) + rest =~= start + (flushed(word) + Seq::<Seq<char>>::empty()
                    + rest));
            }
        }
        i += 1;
    }
    assert(src@.skip(i as int) =~= Seq::<char>::empty());
    if cur.as_str().unicode_len() > 0 {
        let ghost start = views(tokens@);
        proof {
            lemma_views_push(tokens@, cur);
            assert(start.push(cur@) =~= start + seq![cur@]);
        }
        tokens.push(cur);
    } else {
        assert(views(tokens@) + Seq::<Seq<char>>::empty() =~= views(tokens@));
    }
    tokens
}

/// `s` is an identifier: word characters, the first of them no digit.
pub open spec fn ident(s: Seq<char>) -> bool {
    &&& s.len() > 0
    &&& forall|i: int| 0 <= i < s.len() ==> word_char(#[trigger] s[i])
    &&& !('0' <= s[0] <= '9')
}

/// Whether a text is an identifier.
pub fn is_ident(s: &str) -> (b: bool)
    ensures
        b == ident(s@),
{
    let chars: Vec<char> = chars_of(s);
    if chars.len() == 0 {
        return false;
    }
    let mut i: usize = 0;
    while i < chars.len()
        invariant
            i <= chars.len(),
            chars@ == s@,
            forall|j: int| 0 <= j < i ==> word_char(#[trigger] s@[j]),
        decreases chars.len() - i,
    {
        if !is_word_char(chars[i]) {
            assert(!word_char(s@[i as int]));
            return false;
        }
        i += 1;
    }
    !('0' <= chars[0] && chars[0] <= '9')
}

/// Brace depth after `token`.
pub open spec fn depth_after(depth: int, token: Seq<char>) -> int {
    if token == "{"@ {
        depth + 1
    } else if token == "}"@ {
        depth - 1
    } else {
        depth
    }
}

/// A declaration `mod NAME ;` stands at place `i`.
pub open spec fn declares_at(tokens: Seq<Seq<char>>, i: int) -> bool {
    i + 2 < tokens.len() && tokens[i] == "mod"@ && ident(tokens[i + 1]) && tokens[i + 2] == ";"@
}

/// The names that are declared outside of all braces, from place `i` on, where
/// the brace depth is `depth`.
pub open spec fn names_from(tokens: Seq<Seq<char>>, i: int, depth: int) -> Seq<Seq<char>>
    decreases tokens.len() - i,
{
    if i < 0 || i >= tokens.len() {
        Seq::empty()
    } else {
        (if depth == 0 && declares_at(tokens, i) {
            seq![tokens[i + 1]]
        } else {
            Seq::empty()
        }) + names_from(tokens, i + 1, depth_after(depth, tokens[i]))
    }
}

/// The module names that a source text declares by file, in order.
pub open spec fn declared(src: Seq<char>) -> Seq<Seq<char>> {
    names_from(tokens_of(stripped(src, Place::Code), Seq::empty()), 0, 0)
}

fn is_text(s: &String, text: &str) -> (b: bool)
    ensures
        b == (s@ == text@),
{
    *s == text.to_owned()
}

/// The names declared by `mod NAME;` outside of all braces and comments.
///
/// An inline `mod NAME { .. }` refers to no file, and a declaration inside one
/// is not looked at. A declaration behind an attribute counts like any other.
pub fn declared_mods(src: &str) -> (names: Vec<String>)
    ensures
        views(names@) == declared(src@),
{
    let cleaned: String = strip_comments(src);
    let tokens: Vec<String> = tokenize(cleaned.as_str());
    let mut names: Vec<String> = Vec::new();
    let mut depth: i128 = 0;
    let mut i: usize = 0;
    let ghost all = views(tokens@);
    proof {
        reveal_strlit("mod");
        reveal_strlit("{");
        reveal_strlit("}");
        assert("mod"@.len() == 3 && "{"@.len() == 1 && "}"@.len() == 1);
        assert("{"@[0] != "}"@[0]);
    }
    assert(views(names@) + names_from(all, 0, 0) =~= names_from(all, 0, 0));
    while i < tokens.len()
        invariant
            i <= tokens.len(),
            -(i as int) <= depth <= i,
            all == views(tokens@),
            views(names@) + names_from(all, i as int, depth as int) == names_from(all, 0, 0),
            "mod"@ != "{"@,
            "mod"@ != "}"@,
            "{"@ != "}"@,
        decreases tokens.len() - i,
    {
        let ghost before = views(names@);
        let ghost rest = names_from(all, i + 1, depth_after(depth as int, all[i as int]));
        if is_text(&tokens[i], "{") {
            depth += 1;
            assert(before + (Seq::<Seq<char>>::empty() + rest) =~= before + rest);
        } else if is_text(&tokens[i], "}") {
            depth -= 1;
            assert(before + (Seq::<Seq<char>>::empty() + rest) =~= before + rest);
        } else if depth == 0 && is_text(&tokens[i], "mod") && tokens.len() - i > 2 && is_ident(
            tokens[i + 1].as_str(),
        ) && is_text(&tokens[i + 2], ";") {
            let name: String = tokens[i + 1].clone();
            proof {
                lemma_views_push(names@, name);
                assert(before.push(name@) + rest =~= before + (seq![name@] + rest));
            }
            names.push(name);
        } else {
            assert(before + (Seq::<Seq<char>>::empty() + rest) =~= before + rest);
        }
        i += 1;
    }
    assert(views(names@) + Seq::<Seq<char>>::empty() =~= views(names@));
    names
}

} // verus!
