//! Character-level building blocks of the command grammar.
//!
//! A command line is modelled as a `Seq<char>`. This module says what it
//! means to strip the line terminator, to split a line on single spaces and
//! to fold ASCII letters, and offers executable counterparts of each that
//! work on `Vec<char>`.

use vstd::prelude::*;

verus! {

/// Carriage return and line feed, the two characters that terminate a line.
pub open spec fn is_line_end(c: char) -> bool {
    c == '\r' || c == '\n'
}

/// Length of `line` once every trailing line-end character is dropped.
pub open spec fn content_len(line: Seq<char>) -> nat
    decreases line.len(),
{
    if line.len() > 0 && is_line_end(line.last()) {
        content_len(line.drop_last())
    } else {
        line.len()
    }
}

/// `line` without its trailing run of line-end characters.
pub open spec fn strip_line_end(line: Seq<char>) -> Seq<char> {
    line.take(content_len(line) as int)
}

/// Whether `s` holds no space.
pub open spec fn space_free(s: Seq<char>) -> bool {
    forall|i: int| 0 <= i < s.len() ==> s[i] != ' '
}

/// Whether `s` holds no line-end character.
pub open spec fn line_end_free(s: Seq<char>) -> bool {
    forall|i: int| 0 <= i < s.len() ==> !is_line_end(#[trigger] s[i])
}

/// The tokens of `s`: the maximal space-free pieces between single spaces.
///
/// Every space separates two tokens, so two spaces in a row, a leading or a
/// trailing space each give an empty token, and the empty line is one empty
/// token. The tokens are the one list of space-free texts that joins back
/// to `s`: see [`lemma_split_tokens`], [`lemma_join_split`] and
/// [`lemma_split_join`].
pub open spec fn split_spaces(s: Seq<char>) -> Seq<Seq<char>>
    decreases s.len(),
{
    if s.len() == 0 {
        seq![Seq::<char>::empty()]
    } else {
        let before = split_spaces(s.drop_last());
        if s.last() == ' ' {
            before.push(Seq::<char>::empty())
        } else {
            before.drop_last().push(before.last().push(s.last()))
        }
    }
}

/// The tokens written out again with one space between neighbours.
pub open spec fn join_spaces(tokens: Seq<Seq<char>>) -> Seq<char>
    decreases tokens.len(),
{
    if tokens.len() == 0 {
        Seq::<char>::empty()
    } else if tokens.len() == 1 {
        tokens[0]
    } else {
        join_spaces(tokens.drop_last()) + seq![' '] + tokens.last()
    }
}

/// Upper-case form of an ASCII letter; every other character is itself.
pub open spec fn ascii_upper(c: char) -> char {
    if 'a' <= c && c <= 'z' {
        ((c as int) - 32) as char
    } else {
        c
    }
}

/// Lower-case form of an ASCII letter; every other character is itself.
pub open spec fn ascii_lower(c: char) -> char {
    if 'A' <= c && c <= 'Z' {
        ((c as int) + 32) as char
    } else {
        c
    }
}

/// `s` with each character folded to upper case.
pub open spec fn upper(s: Seq<char>) -> Seq<char> {
    Seq::new(s.len(), |i: int| ascii_upper(s[i]))
}

/// `s` with each character folded to lower case.
pub open spec fn lower(s: Seq<char>) -> Seq<char> {
    Seq::new(s.len(), |i: int| ascii_lower(s[i]))
}

/// What a vector of tokens holds, each token as a text.
pub open spec fn texts(tokens: Seq<Vec<char>>) -> Seq<Seq<char>> {
    Seq::new(tokens.len(), |k: int| tokens[k]@)
}

/// Whether `token` begins with `keyword`, letters compared without case.
/// `keyword` is expected in upper case.
pub open spec fn starts_with_keyword(token: Seq<char>, keyword: Seq<char>) -> bool {
    token.len() >= keyword.len() && upper(token.take(keyword.len() as int)) == keyword
}

/// Appends one character to a string, by `String::push`: the text after
/// the call is the text before it followed by `c`.
#[verifier::external_body]
fn push_char(s: &mut String, c: char)
    ensures
        final(s)@ == old(s)@.push(c),
{
    s.push(c)
}

/// Whether `c` is a carriage return or a line feed.
pub fn is_line_end_char(c: char) -> (b: bool)
    ensures
        b == is_line_end(c),
{
    c == '\r' || c == '\n'
}

/// `c` in upper case, if it is an ASCII letter.
pub fn to_ascii_upper(c: char) -> (r: char)
    ensures
        r == ascii_upper(c),
{
    if 'a' <= c && c <= 'z' {
        ((c as u8) - 32u8) as char
    } else {
        c
    }
}

/// `c` in lower case, if it is an ASCII letter.
pub fn to_ascii_lower(c: char) -> (r: char)
    ensures
        r == ascii_lower(c),
{
    if 'A' <= c && c <= 'Z' {
        ((c as u8) + 32u8) as char
    } else {
        c
    }
}

/// The characters of `s`, in order.
pub fn chars_of(s: &str) -> (chars: Vec<char>)
    ensures
        chars@ == s@,
{
    let mut chars: Vec<char> = Vec::new();
    for c in it: s.chars()
        invariant
            chars@ == it.seq().take(it.index() as int),
    {
        chars.push(c);
    }
    chars
}

/// The string made of the characters of `chars`.
pub fn string_of(chars: &Vec<char>) -> (s: String)
    ensures
        s@ == chars@,
{
    let mut s = String::new();
    let mut i: usize = 0;
    while i < chars.len()
        invariant
            i <= chars.len(),
            s@ == chars@.take(i as int),
        decreases chars.len() - i,
    {
        push_char(&mut s, chars[i]);
        i += 1;
        assert(chars@.take(i as int) =~= chars@.take(i - 1).push(chars@[i - 1]));
    }
    assert(chars@.take(chars.len() as int) =~= chars@);
    s
}

/// The characters `chars[from..to]` as a vector of their own.
pub(crate) fn slice_of(chars: &Vec<char>, from: usize, to: usize) -> (piece: Vec<char>)
    requires
        from <= to <= chars.len(),
    ensures
        piece@ == chars@.subrange(from as int, to as int),
{
    let mut piece: Vec<char> = Vec::new();
    let mut i: usize = from;
    while i < to
        invariant
            from <= i <= to <= chars.len(),
            piece@ == chars@.subrange(from as int, i as int),
        decreases to - i,
    {
        piece.push(chars[i]);
        i += 1;
        assert(chars@.subrange(from as int, i as int) =~= chars@.subrange(from as int, i - 1).push(
            chars@[i - 1],
        ));
    }
    piece
}

/// The string made of `chars`, each folded to lower case.
pub fn lower_string_of(chars: &Vec<char>) -> (s: String)
    ensures
        s@ == lower(chars@),
{
    let mut s = String::new();
    let mut i: usize = 0;
    while i < chars.len()
        invariant
            i <= chars.len(),
            s@ == lower(chars@.take(i as int)),
        decreases chars.len() - i,
    {
        push_char(&mut s, to_ascii_lower(chars[i]));
        i += 1;
        assert(lower(chars@.take(i as int)) =~= lower(chars@.take(i - 1)).push(
            ascii_lower(chars@[i - 1]),
        ));
    }
    assert(chars@.take(chars.len() as int) =~= chars@);
    s
}

/// Number of leading characters of `chars` that are left once the trailing
/// run of line-end characters is dropped.
pub fn trimmed_len(chars: &Vec<char>) -> (n: usize)
    ensures
        n == content_len(chars@),
        n <= chars.len(),
{
    let mut n: usize = chars.len();
    assert(chars@.take(n as int) =~= chars@);
    while n > 0 && is_line_end_char(chars[n - 1])
        invariant
            n <= chars.len(),
            content_len(chars@) == content_len(chars@.take(n as int)),
        decreases n,
    {
        assert(chars@.take(n as int).drop_last() =~= chars@.take(n - 1));
        n -= 1;
    }
    n
}

/// Drops the trailing run of line-end characters from `chars`.
pub fn drop_line_end(chars: &mut Vec<char>)
    ensures
        final(chars)@ == strip_line_end(old(chars)@),
{
    let n = trimmed_len(chars);
    chars.truncate(n);
    assert(chars@ =~= strip_line_end(old(chars)@));
}

/// The tokens of `chars`.
pub fn split_at_spaces(chars: &Vec<char>) -> (tokens: Vec<Vec<char>>)
    ensures
        texts(tokens@) == split_spaces(chars@),
{
    let mut tokens: Vec<Vec<char>> = Vec::new();
    let mut current: Vec<char> = Vec::new();
    let mut i: usize = 0;
    assert(texts(tokens@).push(current@) =~= split_spaces(chars@.take(0)));
    while i < chars.len()
        invariant
            i <= chars.len(),
            texts(tokens@).push(current@) == split_spaces(chars@.take(i as int)),
        decreases chars.len() - i,
    {
        let c = chars[i];
        let ghost before = texts(tokens@).push(current@);
        assert(chars@.take(i + 1).drop_last() =~= chars@.take(i as int));
        if c == ' ' {
            tokens.push(current);
            current = Vec::new();
            assert(texts(tokens@) =~= before);
            assert(current@ =~= Seq::<char>::empty());
        } else {
            current.push(c);
            assert(texts(tokens@).push(current@) =~= before.drop_last().push(
                before.last().push(c),
            ));
        }
        i += 1;
    }
    tokens.push(current);
    assert(chars@.take(chars.len() as int) =~= chars@);
    assert(texts(tokens@) =~= split_spaces(chars@));
    tokens
}

/// Whether `token` is at least as long as `keyword` and begins with it,
/// letters compared without case.
pub fn has_keyword_prefix(token: &Vec<char>, keyword: &str) -> (b: bool)
    ensures
        b == starts_with_keyword(token@, keyword@),
{
    let n = keyword.unicode_len();
    if token.len() < n {
        return false;
    }
    let mut i: usize = 0;
    while i < n
        invariant
            i <= n <= token.len(),
            n == keyword@.len(),
            forall|j: int| 0 <= j < i ==> ascii_upper(token@[j]) == keyword@[j],
        decreases n - i,
    {
        if to_ascii_upper(token[i]) != keyword.get_char(i) {
            assert(upper(token@.take(n as int))[i as int] != keyword@[i as int]);
            return false;
        }
        i += 1;
    }
    assert(upper(token@.take(n as int)) =~= keyword@);
    true
}

/// Whether `token`, letters compared without case, is `keyword`.
pub fn is_keyword(token: &Vec<char>, keyword: &str) -> (b: bool)
    ensures
        b == (upper(token@) == keyword@),
{
    let n = keyword.unicode_len();
    if token.len() != n {
        return false;
    }
    assert(token@.take(n as int) =~= token@);
    has_keyword_prefix(token, keyword)
}

/// The stripped line is a prefix of the line, does not end in a line-end
/// character, and everything that was dropped is a line-end character.
pub proof fn lemma_strip_line_end(line: Seq<char>)
    ensures
        content_len(line) <= line.len(),
        strip_line_end(line) == line.take(content_len(line) as int),
        content_len(line) > 0 ==> !is_line_end(line[content_len(line) - 1]),
        forall|i: int| content_len(line) <= i < line.len() ==> is_line_end(#[trigger] line[i]),
    decreases line.len(),
{
    if line.len() > 0 && is_line_end(line.last()) {
        let shorter = line.drop_last();
        lemma_strip_line_end(shorter);
        assert forall|i: int| content_len(line) <= i < line.len() implies is_line_end(
            #[trigger] line[i],
        ) by {
            if i < shorter.len() {
                assert(line[i] == shorter[i]);
            }
        }
    }
}

/// A line that does not end in a line-end character is left as it is.
pub proof fn lemma_strip_nothing(line: Seq<char>)
    requires
        line.len() == 0 || !is_line_end(line.last()),
    ensures
        content_len(line) == line.len(),
        strip_line_end(line) == line,
{
    assert(line.take(line.len() as int) =~= line);
}

/// Stripping drops a terminator that was appended to a line which did not
/// itself end in a line-end character.
pub proof fn lemma_strip_appended(body: Seq<char>, ending: Seq<char>)
    requires
        body.len() == 0 || !is_line_end(body.last()),
        forall|i: int| 0 <= i < ending.len() ==> is_line_end(#[trigger] ending[i]),
    ensures
        content_len(body + ending) == body.len(),
        strip_line_end(body + ending) == body,
    decreases ending.len(),
{
    let line = body + ending;
    if ending.len() == 0 {
        assert(line =~= body);
        lemma_strip_nothing(body);
    } else {
        assert(is_line_end(ending[ending.len() - 1]));
        assert(line.last() == ending.last());
        assert(line.drop_last() =~= body + ending.drop_last());
        lemma_strip_appended(body, ending.drop_last());
        assert(line.take(body.len() as int) =~= body);
    }
}

/// A text in front of a line, free of line-end characters, stays in front
/// when the line terminator is stripped.
pub proof fn lemma_strip_prefixed(head: Seq<char>, s: Seq<char>)
    requires
        line_end_free(head),
    ensures
        strip_line_end(head + s) == head + strip_line_end(s),
    decreases s.len(),
{
    let whole = head + s;
    if s.len() > 0 && is_line_end(s.last()) {
        assert(whole.last() == s.last());
        assert(whole.drop_last() =~= head + s.drop_last());
        lemma_strip_prefixed(head, s.drop_last());
        lemma_strip_line_end(s.drop_last());
        lemma_strip_line_end(whole.drop_last());
        assert(strip_line_end(whole) =~= strip_line_end(whole.drop_last()));
        assert(strip_line_end(s) =~= strip_line_end(s.drop_last()));
    } else {
        if whole.len() > 0 {
            if s.len() > 0 {
                assert(whole.last() == s.last());
            } else {
                assert(whole.last() == head.last());
                assert(!is_line_end(head[head.len() - 1]));
            }
        }
        lemma_strip_nothing(whole);
        lemma_strip_nothing(s);
    }
}

/// There is always at least one token, and no token holds a space.
pub proof fn lemma_split_tokens(s: Seq<char>)
    ensures
        split_spaces(s).len() >= 1,
        forall|k: int| 0 <= k < split_spaces(s).len() ==> space_free(#[trigger] split_spaces(s)[k]),
    decreases s.len(),
{
    if s.len() > 0 {
        lemma_split_tokens(s.drop_last());
        let before = split_spaces(s.drop_last());
        assert(space_free(before.last()));
    }
}

/// Joining the tokens of a line with single spaces gives the line back.
pub proof fn lemma_join_split(s: Seq<char>)
    ensures
        join_spaces(split_spaces(s)) == s,
    decreases s.len(),
{
    if s.len() == 0 {
        assert(join_spaces(split_spaces(s)) =~= s);
    } else {
        let rest = s.drop_last();
        let before = split_spaces(rest);
        lemma_split_tokens(rest);
        lemma_join_split(rest);
        if s.last() == ' ' {
            let all = before.push(Seq::<char>::empty());
            assert(all.drop_last() =~= before);
            assert(join_spaces(all) =~= rest + seq![' ']);
            assert(rest + seq![' '] =~= s);
        } else {
            let grown = before.last().push(s.last());
            let all = before.drop_last().push(grown);
            if before.len() == 1 {
                assert(before[0] == rest);
                assert(join_spaces(all) == grown);
                assert(grown =~= s);
            } else {
                assert(all.drop_last() =~= before.drop_last());
                assert(join_spaces(before) == join_spaces(before.drop_last()) + seq![' ']
                    + before.last());
                assert(join_spaces(all) == join_spaces(before.drop_last()) + seq![' '] + grown);
                assert(join_spaces(all) =~= (join_spaces(before.drop_last()) + seq![' ']
                    + before.last()).push(s.last()));
                assert(rest.push(s.last()) =~= s);
            }
        }
    }
}

/// A space-free text is its own single token.
pub proof fn lemma_split_single(token: Seq<char>)
    requires
        space_free(token),
    ensures
        split_spaces(token) == seq![token],
    decreases token.len(),
{
    if token.len() == 0 {
        assert(token =~= Seq::<char>::empty());
    } else {
        lemma_split_single(token.drop_last());
        assert(split_spaces(token) =~= seq![token.drop_last().push(token.last())]);
        assert(token.drop_last().push(token.last()) =~= token);
    }
}

/// Text put in front of a line, itself free of spaces, only lengthens the
/// first token.
pub proof fn lemma_split_prefixed(head: Seq<char>, s: Seq<char>)
    requires
        space_free(head),
    ensures
        split_spaces(head + s).len() == split_spaces(s).len(),
        split_spaces(head + s)[0] == head + split_spaces(s)[0],
        forall|k: int|
            1 <= k < split_spaces(s).len() ==> split_spaces(head + s)[k] == #[trigger] split_spaces(
                s,
            )[k],
    decreases s.len(),
{
    let whole = head + s;
    lemma_split_tokens(s);
    if s.len() == 0 {
        assert(whole =~= head);
        lemma_split_single(head);
        assert(head + Seq::<char>::empty() =~= head);
    } else {
        lemma_split_prefixed(head, s.drop_last());
        lemma_split_tokens(s.drop_last());
        assert(whole.drop_last() =~= head + s.drop_last());
        assert(whole.last() == s.last());
        let before = split_spaces(s.drop_last());
        if s.last() != ' ' && before.len() == 1 {
            assert((head + before[0]).push(s.last()) =~= head + before[0].push(s.last()));
        }
    }
}

/// Splitting undoes joining: a line written as tokens with single spaces
/// between them splits into exactly those tokens.
pub proof fn lemma_split_join(tokens: Seq<Seq<char>>)
    requires
        tokens.len() >= 1,
        forall|k: int| 0 <= k < tokens.len() ==> space_free(#[trigger] tokens[k]),
    ensures
        split_spaces(join_spaces(tokens)) == tokens,
    decreases tokens.len(),
{
    if tokens.len() == 1 {
        lemma_split_single(tokens[0]);
        assert(seq![tokens[0]] =~= tokens);
    } else {
        let front = tokens.drop_last();
        assert forall|k: int| 0 <= k < front.len() implies space_free(#[trigger] front[k]) by {
            assert(front[k] == tokens[k]);
        }
        lemma_split_join(front);
        lemma_split_appended(join_spaces(front), tokens.last());
        assert(front.push(tokens.last()) =~= tokens);
    }
}

/// A space and a space-free text put behind a line add that text as one
/// more token.
pub proof fn lemma_split_appended(s: Seq<char>, token: Seq<char>)
    requires
        space_free(token),
    ensures
        split_spaces(s + seq![' '] + token) == split_spaces(s).push(token),
    decreases token.len(),
{
    let whole = s + seq![' '] + token;
    if token.len() == 0 {
        assert(whole.drop_last() =~= s);
        assert(token =~= Seq::<char>::empty());
    } else {
        lemma_split_appended(s, token.drop_last());
        assert(whole.drop_last() =~= s + seq![' '] + token.drop_last());
        assert(whole.last() == token.last());
        let before = split_spaces(s).push(token.drop_last());
        assert(before.drop_last() =~= split_spaces(s));
        assert(token.drop_last().push(token.last()) =~= token);
    }
}

/// Folding distributes over concatenation.
pub proof fn lemma_upper_concat(a: Seq<char>, b: Seq<char>)
    ensures
        upper(a + b) == upper(a) + upper(b),
{
    assert(upper(a + b) =~= upper(a) + upper(b));
}

/// Folding to upper case twice is folding once, and a text already in
/// lower case is unchanged by folding to lower case.
pub proof fn lemma_fold_idempotent(s: Seq<char>)
    ensures
        upper(upper(s)) == upper(s),
        lower(lower(s)) == lower(s),
{
    assert(upper(upper(s)) =~= upper(s));
    assert(lower(lower(s)) =~= lower(s));
}

/// Upper and lower case of a text have the same upper-case form: case is
/// all that folding removes.
pub proof fn lemma_upper_ignores_case(s: Seq<char>)
    ensures
        upper(lower(s)) == upper(s),
        lower(upper(s)) == lower(s),
{
    assert(upper(lower(s)) =~= upper(s));
    assert(lower(upper(s)) =~= lower(s));
}

} // verus!
