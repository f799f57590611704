//! What holds of the scanner on every text.

use vstd::prelude::*;

use crate::module_tree_check::scanner;
use crate::module_tree_check::scanner::Place;

verus! {

/// No comment starts in `text`.
pub open spec fn plain(text: Seq<char>) -> bool {
    forall|i: int|
        0 <= i < text.len() - 1 && #[trigger] text[i] == '/' ==> text[i + 1] != '/' && text[i + 1]
            != '*'
}

/// A text without comments stays as it is.
pub proof fn law_plain_text_stays(text: Seq<char>)
    requires
        plain(text),
    ensures
        scanner::stripped(text, Place::Code) == text,
    decreases text.len(),
{
    if text.len() > 0 {
        let rest = text.skip(1);
        assert(plain(rest)) by {
            assert forall|i: int| 0 <= i < rest.len() - 1 && #[trigger] rest[i] == '/' implies rest[i
                + 1] != '/' && rest[i + 1] != '*' by {
                assert(text[i + 1] == '/');
            }
        }
        law_plain_text_stays(rest);
        assert(text =~= seq![text[0]] + rest);
        assert(text[0] == '/' && text.len() >= 2 ==> text[1] != '/' && text[1] != '*');
    } else {
        assert(text =~= Seq::empty());
    }
}

/// What stands before a comment, or before anything else, stays.
proof fn lemma_plain_start(start: Seq<char>, rest: Seq<char>)
    requires
        plain(start),
        start.len() > 0 ==> start.last() != '/',
    ensures
        scanner::stripped(start + rest, Place::Code) == start + scanner::stripped(
            rest,
            Place::Code,
        ),
    decreases start.len(),
{
    let all = start + rest;
    if start.len() > 0 {
        let tail = start.skip(1);
        assert(plain(tail)) by {
            assert forall|i: int| 0 <= i < tail.len() - 1 && #[trigger] tail[i] == '/' implies tail[i
                + 1] != '/' && tail[i + 1] != '*' by {
                assert(start[i + 1] == '/');
            }
        }
        if tail.len() > 0 {
            assert(tail.last() == start.last());
        }
        lemma_plain_start(tail, rest);
        assert(all.skip(1) =~= tail + rest);
        assert(all[0] == start[0]);
        if start[0] == '/' {
            assert(start.len() >= 2);
            assert(all[1] == start[1]);
        }
        assert(seq![start[0]] + (tail + scanner::stripped(rest, Place::Code)) =~= start
            + scanner::stripped(rest, Place::Code));
    } else {
        assert(all =~= rest);
        assert(start + scanner::stripped(rest, Place::Code) =~= scanner::stripped(
            rest,
            Place::Code,
        ));
    }
}

proof fn lemma_line(comment: Seq<char>, rest: Seq<char>)
    requires
        forall|i: int| 0 <= i < comment.len() ==> comment[i] != '\n',
    ensures
        scanner::stripped(comment + seq!['\n'] + rest, Place::LineComment) == seq!['\n']
            + scanner::stripped(rest, Place::Code),
    decreases comment.len(),
{
    let all = comment + seq!['\n'] + rest;
    if comment.len() > 0 {
        assert(all[0] == comment[0]);
        lemma_line(comment.skip(1), rest);
        assert(all.skip(1) =~= comment.skip(1) + seq!['\n'] + rest);
    } else {
        assert(all[0] == '\n');
        assert(all.skip(1) =~= rest);
    }
}

proof fn lemma_block(comment: Seq<char>, rest: Seq<char>)
    requires
        forall|i: int|
            0 <= i < comment.len() - 1 && #[trigger] comment[i] == '*' ==> comment[i + 1] != '/',
    ensures
        scanner::stripped(comment + seq!['*', '/'] + rest, Place::BlockComment)
            == scanner::stripped(rest, Place::Code),
    decreases comment.len(),
{
    let all = comment + seq!['*', '/'] + rest;
    if comment.len() > 0 {
        let tail = comment.skip(1);
        assert(all[0] == comment[0]);
        assert forall|i: int| 0 <= i < tail.len() - 1 && #[trigger] tail[i] == '*' implies tail[i
            + 1] != '/' by {
            assert(comment[i + 1] == '*');
        }
        lemma_block(tail, rest);
        assert(all.skip(1) =~= tail + seq!['*', '/'] + rest);
        if comment.len() >= 2 {
            assert(all[1] == comment[1]);
        } else {
            assert(all[1] == '*');
        }
    } else {
        assert(all[0] == '*' && all[1] == '/');
        assert(all.skip(2) =~= rest);
    }
}

/// A line comment goes, up to its line break, which stays; what stands before it
/// stays, and what follows is read as code.
pub proof fn law_line_comments_go(start: Seq<char>, comment: Seq<char>, rest: Seq<char>)
    requires
        plain(start),
        start.len() > 0 ==> start.last() != '/',
        forall|i: int| 0 <= i < comment.len() ==> comment[i] != '\n',
    ensures
        scanner::stripped(start + seq!['/', '/'] + comment + seq!['\n'] + rest, Place::Code)
            == start + seq!['\n'] + scanner::stripped(rest, Place::Code),
{
    let commented = seq!['/', '/'] + (comment + seq!['\n'] + rest);
    lemma_plain_start(start, commented);
    lemma_line(comment, rest);
    assert(commented[0] == '/' && commented[1] == '/');
    assert(commented.skip(2) =~= comment + seq!['\n'] + rest);
    assert(start + seq!['/', '/'] + comment + seq!['\n'] + rest =~= start + commented);
    assert(start + (seq!['\n'] + scanner::stripped(rest, Place::Code)) =~= start + seq!['\n']
        + scanner::stripped(rest, Place::Code));
}

/// A block comment goes as a whole; what stands before it stays, and what follows
/// is read as code.
pub proof fn law_block_comments_go(start: Seq<char>, comment: Seq<char>, rest: Seq<char>)
    requires
        plain(start),
        start.len() > 0 ==> start.last() != '/',
        forall|i: int|
            0 <= i < comment.len() - 1 && #[trigger] comment[i] == '*' ==> comment[i + 1] != '/',
    ensures
        scanner::stripped(start + seq!['/', '*'] + comment + seq!['*', '/'] + rest, Place::Code)
            == start + scanner::stripped(rest, Place::Code),
{
    let commented = seq!['/', '*'] + (comment + seq!['*', '/'] + rest);
    lemma_plain_start(start, commented);
    lemma_block(comment, rest);
    assert(commented[0] == '/' && commented[1] == '*');
    assert(commented.skip(2) =~= comment + seq!['*', '/'] + rest);
    assert(start + seq!['/', '*'] + comment + seq!['*', '/'] + rest =~= start + commented);
}

/// A comment that nothing ends goes with all that follows.
pub proof fn law_open_comments_go(start: Seq<char>, line: Seq<char>, block: Seq<char>)
    requires
        plain(start),
        start.len() > 0 ==> start.last() != '/',
        forall|i: int| 0 <= i < line.len() ==> line[i] != '\n',
        forall|i: int|
            0 <= i < block.len() - 1 && #[trigger] block[i] == '*' ==> block[i + 1] != '/',
    ensures
        scanner::stripped(start + seq!['/', '/'] + line, Place::Code) == start,
        scanner::stripped(start + seq!['/', '*'] + block, Place::Code) == start,
{
    let with_line = seq!['/', '/'] + line;
    lemma_plain_start(start, with_line);
    lemma_open_line(line);
    assert(with_line[0] == '/' && with_line[1] == '/');
    assert(with_line.skip(2) =~= line);
    assert(start + seq!['/', '/'] + line =~= start + with_line);
    let with_block = seq!['/', '*'] + block;
    lemma_plain_start(start, with_block);
    lemma_open_block(block);
    assert(with_block[0] == '/' && with_block[1] == '*');
    assert(with_block.skip(2) =~= block);
    assert(start + seq!['/', '*'] + block =~= start + with_block);
    assert(start + Seq::<char>::empty() =~= start);
}

proof fn lemma_open_line(comment: Seq<char>)
    requires
        forall|i: int| 0 <= i < comment.len() ==> comment[i] != '\n',
    ensures
        scanner::stripped(comment, Place::LineComment) == Seq::<char>::empty(),
    decreases comment.len(),
{
    if comment.len() > 0 {
        lemma_open_line(comment.skip(1));
    }
}

proof fn lemma_open_block(comment: Seq<char>)
    requires
        forall|i: int|
            0 <= i < comment.len() - 1 && #[trigger] comment[i] == '*' ==> comment[i + 1] != '/',
    ensures
        scanner::stripped(comment, Place::BlockComment) == Seq::<char>::empty(),
    decreases comment.len(),
{
    if comment.len() > 0 {
        let tail = comment.skip(1);
        assert forall|i: int| 0 <= i < tail.len() - 1 && #[trigger] tail[i] == '*' implies tail[i
            + 1] != '/' by {
            assert(comment[i + 1] == '*');
        }
        lemma_open_block(tail);
        assert(comment[0] == '*' && comment.len() >= 2 ==> comment[1] != '/');
    }
}

/// A letter, a digit or an underscore.
pub open spec fn of_words(c: char) -> bool {
    ('a' <= c && c <= 'z') || ('A' <= c && c <= 'Z') || ('0' <= c && c <= '9') || c == '_'
}

/// A text of letters, digits and underscores is one token, the empty one none.
pub proof fn law_words_are_tokens(word: Seq<char>)
    requires
        forall|i: int| 0 <= i < word.len() ==> of_words(#[trigger] word[i]),
    ensures
        word.len() == 0 ==> scanner::tokens_of(word, Seq::empty()).len() == 0,
        word.len() > 0 ==> scanner::tokens_of(word, Seq::empty()) == seq![word],
{
    lemma_word(word, Seq::empty());
    assert(Seq::<char>::empty() + word =~= word);
}

proof fn lemma_word(word: Seq<char>, begun: Seq<char>)
    requires
        forall|i: int| 0 <= i < word.len() ==> of_words(#[trigger] word[i]),
    ensures
        scanner::tokens_of(word, begun) == scanner::flushed(begun + word),
    decreases word.len(),
{
    if word.len() > 0 {
        let tail = word.skip(1);
        assert(of_words(word[0]));
        assert forall|i: int| 0 <= i < tail.len() implies of_words(#[trigger] tail[i]) by {
            assert(of_words(word[i + 1]));
        }
        lemma_word(tail, begun.push(word[0]));
        assert(begun.push(word[0]) + tail =~= begun + word);
    } else {
        assert(begun + word =~= begun);
    }
}

/// Every other character separates: the tokens are those before it and those
/// behind it, and between them the character itself if it is a semicolon or a
/// brace.
pub proof fn law_separators_split_tokens(before: Seq<char>, c: char, behind: Seq<char>)
    requires
        !of_words(c),
    ensures
        scanner::tokens_of(before + seq![c] + behind, Seq::empty()) == scanner::tokens_of(
            before,
            Seq::empty(),
        ) + (if c == ';' || c == '{' || c == '}' {
            seq![seq![c]]
        } else {
            Seq::empty()
        }) + scanner::tokens_of(behind, Seq::empty()),
{
    lemma_split(before, Seq::empty(), c, behind);
}

proof fn lemma_split(before: Seq<char>, begun: Seq<char>, c: char, behind: Seq<char>)
    requires
        !of_words(c),
    ensures
        scanner::tokens_of(before + seq![c] + behind, begun) == scanner::tokens_of(before, begun)
            + (if c == ';' || c == '{' || c == '}' {
            seq![seq![c]]
        } else {
            Seq::empty()
        }) + scanner::tokens_of(behind, Seq::empty()),
    decreases before.len(),
{
    let all = before + seq![c] + behind;
    let own: Seq<Seq<char>> = if c == ';' || c == '{' || c == '}' {
        seq![seq![c]]
    } else {
        Seq::empty()
    };
    let end = scanner::tokens_of(behind, Seq::empty());
    if before.len() == 0 {
        assert(all[0] == c);
        assert(all.skip(1) =~= behind);
    } else {
        let tail = before.skip(1);
        assert(all[0] == before[0]);
        assert(all.skip(1) =~= tail + seq![c] + behind);
        if scanner::word_char(before[0]) {
            lemma_split(tail, begun.push(before[0]), c, behind);
        } else {
            lemma_split(tail, Seq::empty(), c, behind);
            let first = scanner::flushed(begun);
            let mid: Seq<Seq<char>> = if scanner::structural(before[0]) {
                seq![seq![before[0]]]
            } else {
                Seq::empty()
            };
            let inner = scanner::tokens_of(tail, Seq::empty());
            assert(first + mid + (inner + own + end) =~= (first + mid + inner) + own + end);
        }
    }
}

/// A name is a word that starts with a letter or an underscore.
pub proof fn law_names(text: Seq<char>)
    ensures
        scanner::ident(text) <==> text.len() > 0 && !('0' <= text[0] && text[0] <= '9') && forall|
            i: int,
        |
            0 <= i < text.len() ==> of_words(#[trigger] text[i]),
{
    if forall|i: int| 0 <= i < text.len() ==> of_words(#[trigger] text[i]) {
        assert forall|i: int| 0 <= i < text.len() implies scanner::word_char(
            #[trigger] text[i],
        ) by {
            assert(of_words(text[i]));
        }
    }
    if scanner::ident(text) {
        assert forall|i: int| 0 <= i < text.len() implies of_words(#[trigger] text[i]) by {
            assert(scanner::word_char(text[i]));
        }
    }
}

/// How many opening braces stand in `tokens` beyond the closing ones.
pub open spec fn level(tokens: Seq<Seq<char>>) -> int
    decreases tokens.len(),
{
    if tokens.len() == 0 {
        0
    } else {
        level(tokens.drop_last()) + (if tokens.last() == seq!['{'] {
            1int
        } else if tokens.last() == seq!['}'] {
            -1
        } else {
            0
        })
    }
}

/// At place `i` stands `mod NAME ;`, outside of all braces.
pub open spec fn top_level_at(tokens: Seq<Seq<char>>, i: int) -> bool {
    &&& 0 <= i < tokens.len() - 2
    &&& tokens[i] == seq!['m', 'o', 'd']
    &&& scanner::ident(tokens[i + 1])
    &&& tokens[i + 2] == seq![';']
    &&& level(tokens.take(i)) == 0
}

/// The names that a list of tokens declares.
pub open spec fn names(tokens: Seq<Seq<char>>) -> Seq<Seq<char>> {
    scanner::names_from(tokens, 0, 0)
}

proof fn lemma_literals()
    ensures
        "mod"@ =~= seq!['m', 'o', 'd'],
        ";"@ =~= seq![';'],
        "{"@ =~= seq!['{'],
        "}"@ =~= seq!['}'],
        !scanner::ident(seq!['{']),
        !scanner::ident(seq!['}']),
        seq!['{'] != seq!['}'],
        seq!['{'] != seq![';'],
        seq!['}'] != seq![';'],
        seq!['m', 'o', 'd'] != seq!['{'],
        seq!['m', 'o', 'd'] != seq!['}'],
        seq!['m', 'o', 'd'] != seq![';'],
{
    reveal_strlit("mod");
    reveal_strlit(";");
    reveal_strlit("{");
    reveal_strlit("}");
    assert(seq!['{'][0] == '{' && seq!['}'][0] == '}' && seq![';'][0] == ';');
    assert(seq!['m', 'o', 'd'].len() == 3 && seq!['{'].len() == 1);
    assert(!scanner::word_char(seq!['{'][0]) && !scanner::word_char(seq!['}'][0]));
}

proof fn lemma_level_step(tokens: Seq<Seq<char>>, i: int)
    requires
        0 <= i < tokens.len(),
    ensures
        level(tokens.take(i + 1)) == scanner::depth_after(level(tokens.take(i)), tokens[i]),
{
    lemma_literals();
    assert(tokens.take(i + 1).drop_last() =~= tokens.take(i));
    assert(tokens.take(i + 1).last() == tokens[i]);
}

proof fn lemma_level_add(a: Seq<Seq<char>>, b: Seq<Seq<char>>)
    ensures
        level(a + b) == level(a) + level(b),
    decreases b.len(),
{
    if b.len() > 0 {
        lemma_level_add(a, b.drop_last());
        assert((a + b).drop_last() =~= a + b.drop_last());
        assert((a + b).last() == b.last());
    } else {
        assert(a + b =~= a);
    }
}

proof fn lemma_names_at(tokens: Seq<Seq<char>>, i: int, name: Seq<char>)
    requires
        0 <= i <= tokens.len(),
    ensures
        scanner::names_from(tokens, i, level(tokens.take(i))).contains(name) <==> exists|k: int|
            i <= k && #[trigger] top_level_at(tokens, k) && tokens[k + 1] == name,
    decreases tokens.len() - i,
{
    lemma_literals();
    if i < tokens.len() {
        lemma_level_step(tokens, i);
        lemma_names_at(tokens, i + 1, name);
        let depth = level(tokens.take(i));
        let rest = scanner::names_from(tokens, i + 1, level(tokens.take(i + 1)));
        let here: Seq<Seq<char>> = if depth == 0 && scanner::declares_at(tokens, i) {
            seq![tokens[i + 1]]
        } else {
            Seq::empty()
        };
        let all = scanner::names_from(tokens, i, depth);
        assert(all == here + rest);
        assert(top_level_at(tokens, i) <==> depth == 0 && scanner::declares_at(tokens, i));
        if all.contains(name) {
            let j = choose|j: int| 0 <= j < all.len() && all[j] == name;
            if j < here.len() {
                assert(top_level_at(tokens, i) && tokens[i + 1] == name);
            } else {
                assert(rest[j - here.len()] == name);
                assert(rest.contains(name));
                let k = choose|k: int|
                    i + 1 <= k && #[trigger] top_level_at(tokens, k) && tokens[k + 1] == name;
                assert(i <= k && top_level_at(tokens, k));
            }
        }
        if exists|k: int| i <= k && #[trigger] top_level_at(tokens, k) && tokens[k + 1] == name {
            let k = choose|k: int|
                i <= k && #[trigger] top_level_at(tokens, k) && tokens[k + 1] == name;
            if k == i {
                assert(all[0] == name);
            } else {
                assert(i + 1 <= k && top_level_at(tokens, k));
                assert(rest.contains(name));
                let j = choose|j: int| 0 <= j < rest.len() && rest[j] == name;
                assert(all[here.len() + j] == name);
            }
        }
    }
}

/// What is declared: exactly the names that stand in `mod NAME ;` where as many
/// braces were closed as were opened.
pub proof fn law_declared_is_top_level(tokens: Seq<Seq<char>>, name: Seq<char>)
    ensures
        names(tokens).contains(name) <==> exists|i: int| #[trigger]
            top_level_at(tokens, i) && tokens[i + 1] == name,
{
    assert(tokens.take(0) =~= Seq::empty());
    lemma_names_at(tokens, 0, name);
    if exists|i: int| #[trigger] top_level_at(tokens, i) && tokens[i + 1] == name {
        let i = choose|i: int| #[trigger] top_level_at(tokens, i) && tokens[i + 1] == name;
        assert(0 <= i && top_level_at(tokens, i));
    }
}

/// Places in the second of two lists.
proof fn lemma_names_shifted(a: Seq<Seq<char>>, b: Seq<Seq<char>>, j: int, depth: int)
    requires
        0 <= j <= b.len(),
    ensures
        scanner::names_from(a + b, a.len() + j, depth) == scanner::names_from(b, j, depth),
    decreases b.len() - j,
{
    if j < b.len() {
        let all = a + b;
        assert(all[a.len() + j] == b[j]);
        lemma_names_shifted(a, b, j + 1, scanner::depth_after(depth, b[j]));
        if j + 2 < b.len() {
            assert(all[a.len() + j + 1] == b[j + 1] && all[a.len() + j + 2] == b[j + 2]);
        }
        assert(scanner::declares_at(all, a.len() + j) <==> scanner::declares_at(b, j));
    }
}

/// `b` goes on with nothing that would complete a declaration begun in `a`.
pub open spec fn no_overlap(a: Seq<Seq<char>>, b: Seq<Seq<char>>) -> bool {
    &&& a.len() >= 1 && a.last() == seq!['m', 'o', 'd'] ==> !(b.len() >= 2 && scanner::ident(b[0])
        && b[1] == seq![';'])
    &&& a.len() >= 2 && a[a.len() - 2] == seq!['m', 'o', 'd'] && scanner::ident(a.last()) ==> !(
    b.len() >= 1 && b[0] == seq![';'])
}

proof fn lemma_names_from_first(a: Seq<Seq<char>>, b: Seq<Seq<char>>, i: int)
    requires
        0 <= i <= a.len(),
        no_overlap(a, b),
    ensures
        scanner::names_from(a + b, i, level(a.take(i))) == scanner::names_from(
            a,
            i,
            level(a.take(i)),
        ) + scanner::names_from(a + b, a.len() as int, level(a)),
    decreases a.len() - i,
{
    let all = a + b;
    let end = scanner::names_from(all, a.len() as int, level(a));
    if i < a.len() {
        lemma_literals();
        lemma_level_step(a, i);
        lemma_names_from_first(a, b, i + 1);
        assert(all[i] == a[i]);
        if i + 1 < a.len() {
            assert(all[i + 1] == a[i + 1]);
        } else if b.len() > 0 {
            assert(all[i + 1] == b[0]);
            if b.len() > 1 {
                assert(all[i + 2] == b[1]);
            }
        }
        if i + 2 < a.len() {
            assert(all[i + 2] == a[i + 2]);
        } else if i + 2 == a.len() && b.len() > 0 {
            assert(all[i + 2] == b[0]);
        }
        assert(scanner::declares_at(all, i) <==> scanner::declares_at(a, i));
        let depth = level(a.take(i));
        let here: Seq<Seq<char>> = if depth == 0 && scanner::declares_at(a, i) {
            seq![a[i + 1]]
        } else {
            Seq::empty()
        };
        let rest = scanner::names_from(a, i + 1, level(a.take(i + 1)));
        assert(here + (rest + end) =~= (here + rest) + end);
    } else {
        assert(a.take(i) =~= a);
        assert(Seq::<Seq<char>>::empty() + end =~= end);
    }
}

/// What is declared in two parts of a file, one behind the other, is what the
/// first declares and then what the second does, if all braces of the first are
/// closed and no declaration goes across.
pub proof fn law_parts_declare_on_their_own(a: Seq<Seq<char>>, b: Seq<Seq<char>>)
    requires
        level(a) == 0,
        no_overlap(a, b),
    ensures
        names(a + b) == names(a) + names(b),
{
    assert(a.take(0) =~= Seq::empty());
    lemma_names_from_first(a, b, 0);
    lemma_names_shifted(a, b, 0, 0);
}

proof fn lemma_inside(tokens: Seq<Seq<char>>, i: int, depth: int)
    requires
        0 <= i <= tokens.len(),
        forall|j: int|
            i <= j <= tokens.len() ==> depth + #[trigger] level(tokens.take(j)) - level(
                tokens.take(i),
            ) > 0 || j == tokens.len(),
    ensures
        scanner::names_from(tokens, i, depth).len() == 0,
    decreases tokens.len() - i,
{
    if i < tokens.len() {
        lemma_literals();
        lemma_level_step(tokens, i);
        let next = scanner::depth_after(depth, tokens[i]);
        assert(depth + level(tokens.take(i)) - level(tokens.take(i)) > 0);
        assert(next - depth == level(tokens.take(i + 1)) - level(tokens.take(i)));
        assert forall|j: int| i + 1 <= j <= tokens.len() implies next + #[trigger] level(
            tokens.take(j),
        ) - level(tokens.take(i + 1)) > 0 || j == tokens.len() by {
            assert(depth + level(tokens.take(j)) - level(tokens.take(i)) > 0 || j == tokens.len());
        }
        lemma_inside(tokens, i + 1, next);
    }
}

/// `inner` opens what it closes.
pub open spec fn closed(inner: Seq<Seq<char>>) -> bool {
    level(inner) == 0 && forall|j: int|
        0 <= j <= inner.len() ==> #[trigger] level(inner.take(j)) >= 0
}

proof fn lemma_block_level(inner: Seq<Seq<char>>)
    requires
        closed(inner),
    ensures
        ({
            let block = seq![seq!['{']] + inner + seq![seq!['}']];
            level(block) == 0 && names(block).len() == 0
        }),
{
    lemma_literals();
    let open = seq![seq!['{']];
    let shut = seq![seq!['}']];
    let block = open + inner + shut;
    assert(open.drop_last() =~= Seq::empty() && shut.drop_last() =~= Seq::empty());
    assert(open.last() == seq!['{'] && shut.last() == seq!['}']);
    assert(level(open) == 1) by {
        reveal_with_fuel(level, 2);
    }
    assert(level(shut) == -1) by {
        reveal_with_fuel(level, 2);
    }
    lemma_level_add(open, inner);
    lemma_level_add(open + inner, shut);
    assert(block.take(1) =~= open);
    assert forall|j: int| 1 <= j <= block.len() implies 1 + #[trigger] level(block.take(j)) - level(
        block.take(1),
    ) > 0 || j == block.len() by {
        if j < block.len() {
            assert(block.take(j) =~= open + inner.take(j - 1));
            lemma_level_add(open, inner.take(j - 1));
        }
    }
    lemma_inside(block, 1, 1);
    assert(block[0] == seq!['{']);
    assert(!scanner::declares_at(block, 0));
    assert(scanner::depth_after(0, block[0]) == 1);
}

/// A block in braces, with whatever it holds, leaves the depth as it was: what
/// stands before it and behind it declares the same as without it, and nothing
/// inside it does.
pub proof fn law_blocks_declare_nothing(
    a: Seq<Seq<char>>,
    inner: Seq<Seq<char>>,
    b: Seq<Seq<char>>,
)
    requires
        level(a) == 0,
        closed(inner),
    ensures
        names(a + (seq![seq!['{']] + inner + seq![seq!['}']]) + b) == names(a) + names(b),
        no_overlap(a, b) ==> names(a + (seq![seq!['{']] + inner + seq![seq!['}']]) + b) == names(
            a + b,
        ),
{
    lemma_literals();
    let open = seq![seq!['{']];
    let shut = seq![seq!['}']];
    let block = open + inner + shut;
    lemma_block_level(inner);
    let behind = block + b;
    assert(behind[0] == seq!['{']);
    assert(a + block + b =~= a + behind);
    law_parts_declare_on_their_own(a, behind);
    assert(block.last() == seq!['}']);
    assert(block.len() >= 2);
    assert(no_overlap(block, b));
    law_parts_declare_on_their_own(block, b);
    assert(names(a) + (Seq::<Seq<char>>::empty() + names(b)) =~= names(a) + names(b));
    assert(names(block) =~= Seq::empty());
    if no_overlap(a, b) {
        law_parts_declare_on_their_own(a, b);
    }
}

/// How many opening braces stand in `text` beyond the closing ones.
pub open spec fn braces(text: Seq<char>) -> int
    decreases text.len(),
{
    if text.len() == 0 {
        0
    } else {
        (if text[0] == '{' {
            1int
        } else if text[0] == '}' {
            -1
        } else {
            0
        }) + braces(text.skip(1))
    }
}

proof fn lemma_level_of_text(text: Seq<char>, begun: Seq<char>)
    requires
        forall|i: int| 0 <= i < begun.len() ==> of_words(#[trigger] begun[i]),
    ensures
        level(scanner::tokens_of(text, begun)) == braces(text),
    decreases text.len(),
{
    lemma_literals();
    let first = scanner::flushed(begun);
    assert(level(first) == 0) by {
        if begun.len() > 0 {
            assert(of_words(begun[0]));
            assert(begun[0] != '{' && begun[0] != '}');
            assert(begun != seq!['{'] && begun != seq!['}']) by {
                assert(seq!['{'][0] == '{' && seq!['}'][0] == '}');
            }
            assert(first.last() == begun);
            assert(first.drop_last() =~= Seq::empty());
            reveal_with_fuel(level, 2);
        }
    }
    if text.len() > 0 {
        let c = text[0];
        if scanner::word_char(c) {
            let longer = begun.push(c);
            assert forall|i: int| 0 <= i < longer.len() implies of_words(#[trigger] longer[i]) by {
                if i < begun.len() {
                    assert(of_words(begun[i]));
                }
            }
            lemma_level_of_text(text.skip(1), longer);
        } else {
            lemma_level_of_text(text.skip(1), Seq::empty());
            let mid: Seq<Seq<char>> = if scanner::structural(c) {
                seq![seq![c]]
            } else {
                Seq::empty()
            };
            let rest = scanner::tokens_of(text.skip(1), Seq::empty());
            lemma_level_add(first, mid);
            lemma_level_add(first + mid, rest);
            if scanner::structural(c) {
                assert(mid.last() == seq![c]);
                assert(mid.drop_last() =~= Seq::empty());
                assert(seq![c][0] == c);
                assert(seq!['{'][0] == '{' && seq!['}'][0] == '}');
                reveal_with_fuel(level, 2);
            }
        }
    }
}

/// A top-level declaration is found wherever it stands among the items of a file:
/// behind any text whose braces are all closed and that ends an item, and before
/// any other. A file without comments declares what stands before, the name, and
/// what stands behind.
pub proof fn law_top_level_declarations_are_found(
    before: Seq<char>,
    name: Seq<char>,
    behind: Seq<char>,
)
    requires
        plain(before + "mod "@ + name + ";"@ + behind),
        braces(before) == 0,
        before.len() > 0 ==> before.last() == ';' || before.last() == '}',
        scanner::ident(name),
    ensures
        scanner::declared(before + "mod "@ + name + ";"@ + behind) == scanner::declared(before)
            + seq![name] + scanner::declared(behind),
{
    lemma_literals();
    reveal_strlit("mod ");
    let keyword = seq!['m', 'o', 'd'];
    assert("mod "@ =~= keyword + seq![' ']);
    let text = before + "mod "@ + name + ";"@ + behind;
    law_plain_text_stays(text);
    assert(plain(before)) by {
        assert forall|i: int|
            0 <= i < before.len() - 1 && #[trigger] before[i] == '/' implies before[i + 1] != '/'
            && before[i + 1] != '*' by {
            assert(text[i] == '/' && text[i + 1] == before[i + 1]);
        }
    }
    assert(plain(behind)) by {
        let n = text.len() - behind.len();
        assert forall|i: int|
            0 <= i < behind.len() - 1 && #[trigger] behind[i] == '/' implies behind[i + 1] != '/'
            && behind[i + 1] != '*' by {
            assert(text[n + i] == '/' && text[n + i + 1] == behind[i + 1]);
        }
    }
    law_plain_text_stays(before);
    law_plain_text_stays(behind);
    let none = Seq::<char>::empty();
    let first = scanner::tokens_of(before, none);
    let last = scanner::tokens_of(behind, none);
    // The tokens of the declaration.
    law_names(name);
    assert forall|i: int| 0 <= i < keyword.len() implies of_words(#[trigger] keyword[i]) by {}
    law_words_are_tokens(keyword);
    law_words_are_tokens(name);
    law_separators_split_tokens(keyword, ' ', name);
    let item = keyword + seq![' '] + name;
    let declaration = seq![keyword, name];
    assert(scanner::tokens_of(item, none) =~= declaration);
    law_separators_split_tokens(item, ';', behind);
    let from_item = item + seq![';'] + behind;
    let item_tokens = declaration + seq![seq![';']] + last;
    assert(scanner::tokens_of(from_item, none) == item_tokens);
    // The tokens of the whole file.
    assert(text =~= before + from_item);
    let all = scanner::tokens_of(text, none);
    if before.len() == 0 {
        assert(text =~= from_item);
        assert(first.len() == 0);
        assert(all =~= first + item_tokens);
    } else {
        let start = before.drop_last();
        let c = before.last();
        assert(before =~= start + seq![c] + none);
        assert(text =~= start + seq![c] + from_item);
        law_separators_split_tokens(start, c, none);
        law_separators_split_tokens(start, c, from_item);
        assert(scanner::tokens_of(none, none).len() == 0);
        assert(first =~= scanner::tokens_of(start, none) + seq![seq![c]]);
        assert(all =~= first + item_tokens);
        assert(first.last() == seq![c]);
        assert(seq![c][0] == c);
        assert(!scanner::word_char(c));
        assert(!scanner::ident(first.last())) by {
            assert(!scanner::word_char(first.last()[0]));
        }
        assert(first.last() != keyword) by {
            assert(first.last().len() == 1);
        }
    }
    lemma_level_of_text(before, none);
    assert(item_tokens[0] == keyword);
    law_parts_declare_on_their_own(first, item_tokens);
    let three = declaration + seq![seq![';']];
    assert(item_tokens =~= three + last);
    lemma_three(name);
    law_parts_declare_on_their_own(three, last);
    assert(names(first) + (seq![name] + names(last)) =~= names(first) + seq![name] + names(last));
}

proof fn lemma_three(name: Seq<char>)
    requires
        scanner::ident(name),
    ensures
        ({
            let three = seq![seq!['m', 'o', 'd'], name] + seq![seq![';']];
            &&& level(three) == 0
            &&& names(three) == seq![name]
            &&& three.last() == seq![';']
            &&& three.last() != seq!['m', 'o', 'd']
            &&& !scanner::ident(three.last())
        }),
{
    lemma_literals();
    let three = seq![seq!['m', 'o', 'd'], name] + seq![seq![';']];
    assert(three =~= seq![seq!['m', 'o', 'd'], name, seq![';']]);
    assert(scanner::word_char(name[0]));
    assert(name != seq!['{'] && name != seq!['}']) by {
        assert(seq!['{'][0] == '{' && seq!['}'][0] == '}');
    }
    assert(three.drop_last() =~= seq![seq!['m', 'o', 'd'], name]);
    assert(three.drop_last().drop_last() =~= seq![seq!['m', 'o', 'd']]);
    assert(three.drop_last().drop_last().drop_last() =~= Seq::empty());
    reveal_with_fuel(level, 4);
    reveal_with_fuel(scanner::names_from, 4);
    assert(scanner::declares_at(three, 0));
    assert(!scanner::declares_at(three, 1) && !scanner::declares_at(three, 2));
    assert(names(three) =~= seq![name]);
    assert(seq![';'][0] == ';' && !scanner::word_char(';'));
    assert(!scanner::word_char(three.last()[0]));
}

/// Comments declare nothing, whatever they say: a text declares the same without
/// them.
pub proof fn law_comments_declare_nothing(
    start: Seq<char>,
    line: Seq<char>,
    block: Seq<char>,
    rest: Seq<char>,
)
    requires
        plain(start),
        start.len() > 0 ==> start.last() != '/',
        forall|i: int| 0 <= i < line.len() ==> line[i] != '\n',
        forall|i: int|
            0 <= i < block.len() - 1 && #[trigger] block[i] == '*' ==> block[i + 1] != '/',
    ensures
        scanner::declared(start + seq!['/', '/'] + line + seq!['\n'] + rest) == scanner::declared(
            start + seq!['\n'] + rest,
        ),
        scanner::declared(start + seq!['/', '*'] + block + seq!['*', '/'] + rest)
            == scanner::declared(start + rest),
{
    law_line_comments_go(start, line, rest);
    law_block_comments_go(start, block, rest);
    lemma_plain_start(start, rest);
    let longer = start + seq!['\n'];
    assert(plain(longer)) by {
        assert forall|i: int|
            0 <= i < longer.len() - 1 && #[trigger] longer[i] == '/' implies longer[i + 1] != '/'
            && longer[i + 1] != '*' by {
            assert(start[i] == '/');
            if i < start.len() - 1 {
                assert(longer[i + 1] == start[i + 1]);
            }
        }
    }
    assert(longer.last() == '\n');
    lemma_plain_start(longer, rest);
}

} // verus!
