use vstd::prelude::*;

verus! {

/// The characters that Telegram's MarkdownV2 format reserves and that must be
/// preceded by a backslash to appear literally.
pub open spec fn is_markdown_special(c: char) -> bool {
    ||| c == '\\'
    ||| c == '_'
    ||| c == '*'
    ||| c == '['
    ||| c == ']'
    ||| c == '('
    ||| c == ')'
    ||| c == '~'
    ||| c == '`'
    ||| c == '!'
    ||| c == '.'
    ||| c == '>'
    ||| c == '#'
    ||| c == '+'
    ||| c == '-'
    ||| c == '='
    ||| c == '|'
    ||| c == '{'
    ||| c == '}'
}

/// How one character is written in escaped text.
pub open spec fn escape_char(c: char) -> Seq<char> {
    if is_markdown_special(c) {
        seq!['\\', c]
    } else {
        seq![c]
    }
}

/// The escaped form of a whole text: every character escaped in turn.
pub open spec fn escaped(s: Seq<char>) -> Seq<char>
    decreases s.len(),
{
    if s.len() == 0 {
        Seq::empty()
    } else {
        escaped(s.drop_last()) + escape_char(s.last())
    }
}

fn is_special(c: char) -> (b: bool)
    ensures
        b == is_markdown_special(c),
{
    c == '\\' || c == '_' || c == '*' || c == '[' || c == ']' || c == '(' || c == ')' || c == '~'
        || c == '`' || c == '!' || c == '.' || c == '>' || c == '#' || c == '+' || c == '-'
        || c == '=' || c == '|' || c == '{' || c == '}'
}

/// Escapes `text` for Telegram's MarkdownV2: each reserved character gets a
/// backslash in front of it, every other character is kept.
pub fn escape_markdown(text: &str) -> (res: String)
    ensures
        res@ == escaped(text@),
{
    let mut res = String::new();
    let ghost s = text@;
    for c in it: text.chars()
        invariant
            it.seq() == s,
            res@ == escaped(s.take(it.index() as int)),
    {
        let ghost i = it.index() as int;
        assert(s.take(i + 1).drop_last() =~= s.take(i));
        if is_special(c) {
            res.push('\\');
        }
        res.push(c);
        assert(res@ =~= escaped(s.take(i + 1)));
    }
    assert(s.take(s.len() as int) =~= s);
    res
}

/// Reads escaped text back: a backslash followed by a character stands for
/// that character.
pub open spec fn unescaped(s: Seq<char>) -> Seq<char>
    decreases s.len(),
{
    if s.len() == 0 {
        s
    } else if s[0] == '\\' && s.len() >= 2 {
        seq![s[1]] + unescaped(s.skip(2))
    } else {
        seq![s[0]] + unescaped(s.skip(1))
    }
}

/// Text in which every reserved character is escaped: it is a sequence of
/// ordinary characters and of backslashes each followed by a reserved
/// character.
pub open spec fn well_escaped(s: Seq<char>) -> bool
    decreases s.len(),
{
    if s.len() == 0 {
        true
    } else if s[0] == '\\' {
        s.len() >= 2 && is_markdown_special(s[1]) && well_escaped(s.skip(2))
    } else {
        !is_markdown_special(s[0]) && well_escaped(s.skip(1))
    }
}

/// Escaping works character by character.
pub proof fn lemma_escaped_concat(a: Seq<char>, b: Seq<char>)
    ensures
        escaped(a + b) == escaped(a) + escaped(b),
    decreases b.len(),
{
    if b.len() == 0 {
        assert(a + b =~= a);
        assert(escaped(a) + escaped(b) =~= escaped(a));
    } else {
        lemma_escaped_concat(a, b.drop_last());
        assert((a + b).drop_last() =~= a + b.drop_last());
        assert(escaped(a + b) =~= escaped(a) + escaped(b));
    }
}

proof fn lemma_escaped_cons(c: char, t: Seq<char>)
    ensures
        escaped(seq![c] + t) == escape_char(c) + escaped(t),
{
    lemma_escaped_concat(seq![c], t);
    assert(seq![c].drop_last() =~= Seq::<char>::empty());
    assert(escaped(Seq::<char>::empty()) =~= Seq::<char>::empty());
    assert(escaped(seq![c]) =~= escaped(seq![c].drop_last()) + escape_char(c));
    assert(escaped(seq![c]) =~= escape_char(c));
}

/// Escaping loses nothing: reading the escaped text back gives the original
/// text, so different texts never escape to the same message.
pub proof fn lemma_escape_round_trip(s: Seq<char>)
    ensures
        unescaped(escaped(s)) == s,
    decreases s.len(),
{
    if s.len() > 0 {
        let c = s[0];
        let t = s.skip(1);
        assert(s =~= seq![c] + t);
        lemma_escaped_cons(c, t);
        lemma_escape_round_trip(t);
        let e = escaped(s);
        if is_markdown_special(c) {
            assert(e.skip(2) =~= escaped(t));
        } else {
            assert(e.skip(1) =~= escaped(t));
        }
        assert(unescaped(e) =~= s);
    }
}

/// Every reserved character of the original text comes out escaped.
pub proof fn lemma_escaped_is_well_escaped(s: Seq<char>)
    ensures
        well_escaped(escaped(s)),
    decreases s.len(),
{
    if s.len() > 0 {
        let c = s[0];
        let t = s.skip(1);
        assert(s =~= seq![c] + t);
        lemma_escaped_cons(c, t);
        lemma_escaped_is_well_escaped(t);
        let e = escaped(s);
        if is_markdown_special(c) {
            assert(e.skip(2) =~= escaped(t));
        } else {
            assert(e.skip(1) =~= escaped(t));
        }
    }
}

/// The reserved characters in the order in which the escaping replaces them,
/// the backslash first.
pub open spec fn special_at(i: int) -> char {
    if i == 0 { '\\' }
    else if i == 1 { '_' }
    else if i == 2 { '*' }
    else if i == 3 { '[' }
    else if i == 4 { ']' }
    else if i == 5 { '(' }
    else if i == 6 { ')' }
    else if i == 7 { '~' }
    else if i == 8 { '`' }
    else if i == 9 { '!' }
    else if i == 10 { '.' }
    else if i == 11 { '>' }
    else if i == 12 { '#' }
    else if i == 13 { '+' }
    else if i == 14 { '-' }
    else if i == 15 { '=' }
    else if i == 16 { '|' }
    else if i == 17 { '{' }
    else { '}' }
}

/// How many characters are reserved.
pub open spec fn special_count() -> int {
    19
}

/// The position of `c` in the replacement order, or -1.
pub open spec fn special_index(c: char) -> int {
    if c == '\\' { 0 }
    else if c == '_' { 1 }
    else if c == '*' { 2 }
    else if c == '[' { 3 }
    else if c == ']' { 4 }
    else if c == '(' { 5 }
    else if c == ')' { 6 }
    else if c == '~' { 7 }
    else if c == '`' { 8 }
    else if c == '!' { 9 }
    else if c == '.' { 10 }
    else if c == '>' { 11 }
    else if c == '#' { 12 }
    else if c == '+' { 13 }
    else if c == '-' { 14 }
    else if c == '=' { 15 }
    else if c == '|' { 16 }
    else if c == '{' { 17 }
    else if c == '}' { 18 }
    else { -1 }
}

/// Replaces every `c` in `s` by a backslash followed by `c`, as
/// `str::replace(c, "\\c")` does.
pub open spec fn replace_escaping(s: Seq<char>, c: char) -> Seq<char>
    decreases s.len(),
{
    if s.len() == 0 {
        s
    } else {
        replace_escaping(s.drop_last(), c) + (if s.last() == c {
            seq!['\\', c]
        } else {
            seq![s.last()]
        })
    }
}

/// The first `k` replacements of the escaping, applied one after another.
pub open spec fn replace_chain(s: Seq<char>, k: nat) -> Seq<char>
    decreases k,
{
    if k == 0 {
        s
    } else {
        replace_escaping(replace_chain(s, (k - 1) as nat), special_at(k - 1))
    }
}

proof fn lemma_special_index(c: char, i: int)
    ensures
        0 <= i < special_count() ==> special_index(special_at(i)) == i,
        0 <= special_index(c) ==> special_at(special_index(c)) == c,
        special_index(c) < special_count(),
        is_markdown_special(c) <==> 0 <= special_index(c),
{
}

proof fn lemma_replace_concat(a: Seq<char>, b: Seq<char>, c: char)
    ensures
        replace_escaping(a + b, c) == replace_escaping(a, c) + replace_escaping(b, c),
    decreases b.len(),
{
    if b.len() == 0 {
        assert(a + b =~= a);
        assert(replace_escaping(a, c) + replace_escaping(b, c) =~= replace_escaping(a, c));
    } else {
        lemma_replace_concat(a, b.drop_last(), c);
        assert((a + b).drop_last() =~= a + b.drop_last());
        assert(replace_escaping(a + b, c) =~= replace_escaping(a, c) + replace_escaping(b, c));
    }
}

proof fn lemma_replace_single(x: char, c: char)
    ensures
        replace_escaping(seq![x], c) == (if x == c { seq!['\\', c] } else { seq![x] }),
{
    assert(seq![x].drop_last() =~= Seq::<char>::empty());
    assert(replace_escaping(Seq::<char>::empty(), c) =~= Seq::<char>::empty());
    assert(seq![x].last() == x);
    assert(replace_escaping(seq![x], c) =~= (if x == c { seq!['\\', c] } else { seq![x] }));
}

proof fn lemma_chain_concat(a: Seq<char>, b: Seq<char>, k: nat)
    ensures
        replace_chain(a + b, k) == replace_chain(a, k) + replace_chain(b, k),
    decreases k,
{
    if k > 0 {
        lemma_chain_concat(a, b, (k - 1) as nat);
        lemma_replace_concat(
            replace_chain(a, (k - 1) as nat),
            replace_chain(b, (k - 1) as nat),
            special_at(k - 1),
        );
    }
}

proof fn lemma_chain_single(x: char, k: nat)
    requires
        k <= special_count(),
    ensures
        replace_chain(seq![x], k) == (if 0 <= special_index(x) < k {
            seq!['\\', x]
        } else {
            seq![x]
        }),
    decreases k,
{
    if k > 0 {
        let km = (k - 1) as nat;
        let c = special_at(km as int);
        lemma_chain_single(x, km);
        lemma_special_index(x, km as int);
        lemma_special_index(c, km as int);
        lemma_special_index('\\', 0);
        if 0 <= special_index(x) < km {
            lemma_replace_concat(seq!['\\'], seq![x], c);
            assert(seq!['\\'] + seq![x] =~= seq!['\\', x]);
            lemma_replace_single('\\', c);
            lemma_replace_single(x, c);
            assert(replace_chain(seq![x], k) =~= seq!['\\', x]);
        } else {
            lemma_replace_single(x, c);
        }
    }
}

/// Escaping in one pass gives the same text as replacing the reserved
/// characters one after another, each by a backslash and itself, starting
/// with the backslash: the later replacements never touch the backslashes
/// that the earlier ones inserted.
pub proof fn lemma_escape_is_replace_chain(s: Seq<char>)
    ensures
        replace_chain(s, special_count() as nat) == escaped(s),
    decreases s.len(),
{
    if s.len() == 0 {
        lemma_chain_empty(special_count() as nat);
        assert(s =~= Seq::<char>::empty());
    } else {
        let x = s.last();
        lemma_escape_is_replace_chain(s.drop_last());
        assert(s =~= s.drop_last() + seq![x]);
        lemma_chain_concat(s.drop_last(), seq![x], special_count() as nat);
        lemma_chain_single(x, special_count() as nat);
        lemma_special_index(x, 0);
        assert(escaped(s) == escaped(s.drop_last()) + escape_char(x));
    }
}

proof fn lemma_chain_empty(k: nat)
    ensures
        replace_chain(Seq::<char>::empty(), k) == Seq::<char>::empty(),
    decreases k,
{
    if k > 0 {
        lemma_chain_empty((k - 1) as nat);
    }
}

} // verus!
