//! Text as sequences of characters: searching, splitting, trimming and joining.
//!
//! Every operation is a spec function over `Seq<char>` with an executable
//! counterpart whose contract names it.

use vstd::prelude::*;
use vstd::slice::slice_subrange;

verus! {

// ---------------------------------------------------------------------------
// Conversions
// ---------------------------------------------------------------------------

/// `String::push` appends one character to the string.
pub assume_specification[ String::push ](s: &mut String, c: char)
    ensures
        final(s)@ == old(s)@.push(c),
;

/// The views of a list of strings.
pub open spec fn texts(v: Seq<String>) -> Seq<Seq<char>> {
    v.map_values(|s: String| s@)
}

/// The view of an optional string.
pub open spec fn text_opt(o: Option<String>) -> Option<Seq<char>> {
    match o {
        Some(s) => Some(s@),
        None => None,
    }
}

/// The characters of `s`.
pub fn chars_of(s: &str) -> (v: Vec<char>)
    ensures
        v@ == s@,
{
    let mut v: Vec<char> = Vec::new();
    for c in it: s.chars()
        invariant
            it.seq() == s@,
            v@ == s@.take(it.index() as int),
    {
        v.push(c);
    }
    assert(s@.take(s@.len() as int) == s@);
    v
}

/// The string made of `chars`.
pub fn string_of(chars: &[char]) -> (s: String)
    ensures
        s@ == chars@,
{
    let mut s = String::new();
    let mut i: usize = 0;
    while i < chars.len()
        invariant
            i <= chars@.len(),
            s@ == chars@.take(i as int),
        decreases chars@.len() - i,
    {
        s.push(chars[i]);
        i += 1;
        assert(chars@.take(i as int) == chars@.take(i - 1).push(chars@[i - 1]));
    }
    assert(chars@.take(chars@.len() as int) == chars@);
    s
}

/// A copy of an optional string.
pub fn copy_opt(o: &Option<String>) -> (r: Option<String>)
    ensures
        r == *o,
{
    match o {
        Some(s) => Some(s.clone()),
        None => None,
    }
}

/// A copy of a list of strings.
pub fn copy_all(v: &Vec<String>) -> (r: Vec<String>)
    ensures
        r@ == v@,
{
    let mut r: Vec<String> = Vec::new();
    let mut i: usize = 0;
    while i < v.len()
        invariant
            i <= v@.len(),
            r@ == v@.take(i as int),
        decreases v@.len() - i,
    {
        r.push(v[i].clone());
        i += 1;
    }
    assert(v@.take(v@.len() as int) == v@);
    r
}

/// Appends one string to a list of strings.
pub fn push_text(v: &mut Vec<String>, s: String)
    ensures
        texts(final(v)@) == texts(old(v)@).push(s@),
        final(v)@ == old(v)@.push(s),
{
    v.push(s);
    assert(texts(v@) =~= texts(old(v)@).push(s@));
}

/// Appends a copy of one string slice to a list of strings.
pub fn push_str(v: &mut Vec<String>, s: &str)
    ensures
        texts(final(v)@) == texts(old(v)@).push(s@),
{
    push_text(v, s.to_owned());
}

/// A list holding no strings.
pub fn no_texts() -> (v: Vec<String>)
    ensures
        texts(v@) == Seq::<Seq<char>>::empty(),
        v@ == Seq::<String>::empty(),
{
    let v: Vec<String> = Vec::new();
    assert(texts(v@) =~= Seq::<Seq<char>>::empty());
    v
}

/// Appends copies of `more` to a list of strings.
pub fn push_all(v: &mut Vec<String>, more: &Vec<String>)
    ensures
        texts(final(v)@) == texts(old(v)@) + texts(more@),
{
    let ghost before = texts(v@);
    let mut i: usize = 0;
    assert(before =~= before + texts(more@).take(0));
    while i < more.len()
        invariant
            i <= more@.len(),
            texts(v@) == before + texts(more@).take(i as int),
        decreases more@.len() - i,
    {
        push_text(v, more[i].clone());
        i += 1;
        assert(texts(more@).take(i as int) =~= texts(more@).take(i - 1).push(texts(more@)[i - 1]));
        assert(texts(v@) =~= before + texts(more@).take(i as int));
    }
    assert(texts(more@).take(more@.len() as int) =~= texts(more@));
}

/// The views of a list of string slices.
pub open spec fn strs(v: Seq<&str>) -> Seq<Seq<char>> {
    v.map_values(|s: &str| s@)
}

/// Copies of the given texts.
pub fn list(v: &[&str]) -> (r: Vec<String>)
    ensures
        texts(r@) == strs(v@),
{
    let mut r = no_texts();
    let mut i: usize = 0;
    while i < v.len()
        invariant
            i <= v@.len(),
            texts(r@) =~= strs(v@).take(i as int),
        decreases v@.len() - i,
    {
        push_str(&mut r, v[i]);
        i += 1;
    }
    assert(texts(r@) =~= strs(v@));
    r
}

/// A list of 1 text.
pub fn list1(a: &str) -> (r: Vec<String>)
    ensures
        texts(r@) == seq![a@],
{
    let r = list(&[a]);
    assert(texts(r@) =~= seq![a@]);
    r
}

/// A list of 2 texts.
pub fn list2(a: &str, b: &str) -> (r: Vec<String>)
    ensures
        texts(r@) == seq![a@, b@],
{
    let r = list(&[a, b]);
    assert(texts(r@) =~= seq![a@, b@]);
    r
}

/// A list of 3 texts.
pub fn list3(a: &str, b: &str, c: &str) -> (r: Vec<String>)
    ensures
        texts(r@) == seq![a@, b@, c@],
{
    let r = list(&[a, b, c]);
    assert(texts(r@) =~= seq![a@, b@, c@]);
    r
}

/// A list of 4 texts.
pub fn list4(a: &str, b: &str, c: &str, d: &str) -> (r: Vec<String>)
    ensures
        texts(r@) == seq![a@, b@, c@, d@],
{
    let r = list(&[a, b, c, d]);
    assert(texts(r@) =~= seq![a@, b@, c@, d@]);
    r
}

/// A list of 5 texts.
pub fn list5(a: &str, b: &str, c: &str, d: &str, e: &str) -> (r: Vec<String>)
    ensures
        texts(r@) == seq![a@, b@, c@, d@, e@],
{
    let r = list(&[a, b, c, d, e]);
    assert(texts(r@) =~= seq![a@, b@, c@, d@, e@]);
    r
}

/// A list of 6 texts.
pub fn list6(a: &str, b: &str, c: &str, d: &str, e: &str, f: &str) -> (r: Vec<String>)
    ensures
        texts(r@) == seq![a@, b@, c@, d@, e@, f@],
{
    let r = list(&[a, b, c, d, e, f]);
    assert(texts(r@) =~= seq![a@, b@, c@, d@, e@, f@]);
    r
}

/// A list of 7 texts.
pub fn list7(a: &str, b: &str, c: &str, d: &str, e: &str, f: &str, g: &str) -> (r: Vec<String>)
    ensures
        texts(r@) == seq![a@, b@, c@, d@, e@, f@, g@],
{
    let r = list(&[a, b, c, d, e, f, g]);
    assert(texts(r@) =~= seq![a@, b@, c@, d@, e@, f@, g@]);
    r
}

/// A list of 8 texts.
pub fn list8(a: &str, b: &str, c: &str, d: &str, e: &str, f: &str, g: &str, h: &str) -> (r: Vec<String>)
    ensures
        texts(r@) == seq![a@, b@, c@, d@, e@, f@, g@, h@],
{
    let r = list(&[a, b, c, d, e, f, g, h]);
    assert(texts(r@) =~= seq![a@, b@, c@, d@, e@, f@, g@, h@]);
    r
}

/// A list of 9 texts.
pub fn list9(a: &str, b: &str, c: &str, d: &str, e: &str, f: &str, g: &str, h: &str, i: &str) -> (r: Vec<String>)
    ensures
        texts(r@) == seq![a@, b@, c@, d@, e@, f@, g@, h@, i@],
{
    let r = list(&[a, b, c, d, e, f, g, h, i]);
    assert(texts(r@) =~= seq![a@, b@, c@, d@, e@, f@, g@, h@, i@]);
    r
}

/// A list of 10 texts.
pub fn list10(a: &str, b: &str, c: &str, d: &str, e: &str, f: &str, g: &str, h: &str, i: &str, j: &str) -> (r: Vec<String>)
    ensures
        texts(r@) == seq![a@, b@, c@, d@, e@, f@, g@, h@, i@, j@],
{
    let r = list(&[a, b, c, d, e, f, g, h, i, j]);
    assert(texts(r@) =~= seq![a@, b@, c@, d@, e@, f@, g@, h@, i@, j@]);
    r
}

/// Appends 1 text to a list.
pub fn more1(v: &mut Vec<String>, a: &str)
    ensures
        texts(final(v)@) == texts(old(v)@).push(a@),
{
    push_str(v, a);
}

/// Appends 2 texts to a list.
pub fn more2(v: &mut Vec<String>, a: &str, b: &str)
    ensures
        texts(final(v)@) == texts(old(v)@).push(a@).push(b@),
{
    push_str(v, a);
    push_str(v, b);
}

/// Appends 3 texts to a list.
pub fn more3(v: &mut Vec<String>, a: &str, b: &str, c: &str)
    ensures
        texts(final(v)@) == texts(old(v)@).push(a@).push(b@).push(c@),
{
    push_str(v, a);
    push_str(v, b);
    push_str(v, c);
}

/// Appends 4 texts to a list.
pub fn more4(v: &mut Vec<String>, a: &str, b: &str, c: &str, d: &str)
    ensures
        texts(final(v)@) == texts(old(v)@).push(a@).push(b@).push(c@).push(d@),
{
    push_str(v, a);
    push_str(v, b);
    push_str(v, c);
    push_str(v, d);
}

/// Appends 5 texts to a list.
pub fn more5(v: &mut Vec<String>, a: &str, b: &str, c: &str, d: &str, e: &str)
    ensures
        texts(final(v)@) == texts(old(v)@).push(a@).push(b@).push(c@).push(d@).push(e@),
{
    push_str(v, a);
    push_str(v, b);
    push_str(v, c);
    push_str(v, d);
    push_str(v, e);
}

/// Appends 6 texts to a list.
pub fn more6(v: &mut Vec<String>, a: &str, b: &str, c: &str, d: &str, e: &str, f: &str)
    ensures
        texts(final(v)@) == texts(old(v)@).push(a@).push(b@).push(c@).push(d@).push(e@).push(f@),
{
    push_str(v, a);
    push_str(v, b);
    push_str(v, c);
    push_str(v, d);
    push_str(v, e);
    push_str(v, f);
}

/// Appends 7 texts to a list.
pub fn more7(v: &mut Vec<String>, a: &str, b: &str, c: &str, d: &str, e: &str, f: &str, g: &str)
    ensures
        texts(final(v)@) == texts(old(v)@).push(a@).push(b@).push(c@).push(d@).push(e@).push(f@).push(g@),
{
    push_str(v, a);
    push_str(v, b);
    push_str(v, c);
    push_str(v, d);
    push_str(v, e);
    push_str(v, f);
    push_str(v, g);
}

/// Appends 8 texts to a list.
pub fn more8(v: &mut Vec<String>, a: &str, b: &str, c: &str, d: &str, e: &str, f: &str, g: &str, h: &str)
    ensures
        texts(final(v)@) == texts(old(v)@).push(a@).push(b@).push(c@).push(d@).push(e@).push(f@).push(g@).push(h@),
{
    push_str(v, a);
    push_str(v, b);
    push_str(v, c);
    push_str(v, d);
    push_str(v, e);
    push_str(v, f);
    push_str(v, g);
    push_str(v, h);
}

/// Two pieces put together.
pub fn cat2(a: &str, b: &str) -> (s: String)
    ensures
        s@ == a@ + b@,
{
    let mut s = a.to_owned();
    s.append(b);
    s
}

/// Three pieces put together.
pub fn cat3(a: &str, b: &str, c: &str) -> (s: String)
    ensures
        s@ == a@ + b@ + c@,
{
    let mut s = cat2(a, b);
    s.append(c);
    s
}

/// Four pieces put together.
pub fn cat4(a: &str, b: &str, c: &str, d: &str) -> (s: String)
    ensures
        s@ == a@ + b@ + c@ + d@,
{
    let mut s = cat3(a, b, c);
    s.append(d);
    s
}

/// Five pieces put together.
pub fn cat5(a: &str, b: &str, c: &str, d: &str, e: &str) -> (s: String)
    ensures
        s@ == a@ + b@ + c@ + d@ + e@,
{
    let mut s = cat4(a, b, c, d);
    s.append(e);
    s
}

// ---------------------------------------------------------------------------
// Comparison
// ---------------------------------------------------------------------------

/// Whether two character slices hold the same characters.
pub fn same_chars(a: &[char], b: &[char]) -> (r: bool)
    ensures
        r == (a@ == b@),
{
    if a.len() != b.len() {
        return false;
    }
    let mut i: usize = 0;
    while i < a.len()
        invariant
            a@.len() == b@.len(),
            i <= a@.len(),
            forall|j: int| 0 <= j < i ==> a@[j] == b@[j],
        decreases a@.len() - i,
    {
        if a[i] != b[i] {
            return false;
        }
        i += 1;
    }
    assert(a@ =~= b@);
    true
}

/// Whether two strings hold the same characters.
pub fn same(a: &str, b: &str) -> (r: bool)
    ensures
        r == (a@ == b@),
{
    let x = chars_of(a);
    let y = chars_of(b);
    same_chars(x.as_slice(), y.as_slice())
}

/// Whether the list holds a string with the text `s`.
pub fn list_has(v: &Vec<String>, s: &str) -> (r: bool)
    ensures
        r == texts(v@).contains(s@),
{
    let mut i: usize = 0;
    while i < v.len()
        invariant
            i <= v@.len(),
            forall|j: int| 0 <= j < i ==> texts(v@)[j] != s@,
        decreases v@.len() - i,
    {
        if same(v[i].as_str(), s) {
            assert(texts(v@)[i as int] == s@);
            return true;
        }
        i += 1;
    }
    false
}

// ---------------------------------------------------------------------------
// Character classes
// ---------------------------------------------------------------------------

/// The characters with the Unicode `White_Space` property.
pub open spec fn is_white(c: char) -> bool {
    ||| '\u{9}' <= c <= '\u{d}'
    ||| c == ' '
    ||| c == '\u{85}'
    ||| c == '\u{a0}'
    ||| c == '\u{1680}'
    ||| '\u{2000}' <= c <= '\u{200a}'
    ||| c == '\u{2028}'
    ||| c == '\u{2029}'
    ||| c == '\u{202f}'
    ||| c == '\u{205f}'
    ||| c == '\u{3000}'
}

/// Executable form of [`is_white`].
pub fn white(c: char) -> (r: bool)
    ensures
        r == is_white(c),
{
    ('\u{9}' <= c && c <= '\u{d}') || c == ' ' || c == '\u{85}' || c == '\u{a0}' || c == '\u{1680}'
        || ('\u{2000}' <= c && c <= '\u{200a}') || c == '\u{2028}' || c == '\u{2029}'
        || c == '\u{202f}' || c == '\u{205f}' || c == '\u{3000}'
}

/// ASCII letters and digits.
pub open spec fn is_alnum(c: char) -> bool {
    ||| '0' <= c <= '9'
    ||| 'a' <= c <= 'z'
    ||| 'A' <= c <= 'Z'
}

/// Executable form of [`is_alnum`].
pub fn alnum(c: char) -> (r: bool)
    ensures
        r == is_alnum(c),
{
    ('0' <= c && c <= '9') || ('a' <= c && c <= 'z') || ('A' <= c && c <= 'Z')
}

/// ASCII decimal digits.
pub open spec fn is_digit(c: char) -> bool {
    '0' <= c <= '9'
}

/// An ASCII capital as its small letter, any other character as it is.
pub open spec fn lower(c: char) -> char {
    if 'A' <= c <= 'Z' {
        (c as u32 + 32) as char
    } else {
        c
    }
}

/// Executable form of [`lower`].
pub fn to_lower(c: char) -> (r: char)
    ensures
        r == lower(c),
{
    if 'A' <= c && c <= 'Z' {
        (c as u8 + 32) as char
    } else {
        c
    }
}

/// An ASCII small letter as its capital, any other character as it is.
pub open spec fn upper(c: char) -> char {
    if 'a' <= c <= 'z' {
        (c as u32 - 32) as char
    } else {
        c
    }
}

/// Executable form of [`upper`].
pub fn to_upper(c: char) -> (r: char)
    ensures
        r == upper(c),
{
    if 'a' <= c && c <= 'z' {
        (c as u8 - 32) as char
    } else {
        c
    }
}

/// A class of characters.
#[derive(Clone, Copy, PartialEq, Eq, Structural)]
pub enum Class {
    /// Unicode white space.
    White,
    /// Anything but Unicode white space.
    NotWhite,
    /// One character.
    Is(char),
    /// Anything but one character.
    IsNot(char),
    /// ASCII decimal digits and the full stop.
    DigitOrDot,
    /// The closing bracket and both quotation marks.
    CloseOrQuote,
    /// Anything but the two quotation marks.
    NotQuote,
    /// Anything that ends no part of a name: neither white space, nor `.`, nor `@`.
    NamePart,
}

impl Class {
    /// Whether `c` belongs to the class.
    pub open spec fn spec_has(self, c: char) -> bool {
        match self {
            Class::White => is_white(c),
            Class::NotWhite => !is_white(c),
            Class::Is(x) => c == x,
            Class::IsNot(x) => c != x,
            Class::DigitOrDot => is_digit(c) || c == '.',
            Class::CloseOrQuote => c == ')' || c == '\'' || c == '"',
            Class::NotQuote => c != '\'' && c != '"',
            Class::NamePart => !is_white(c) && c != '.' && c != '@',
        }
    }

    /// Executable form of [`Class::spec_has`].
    pub fn holds(&self, c: char) -> (r: bool)
        ensures
            r == self.spec_has(c),
    {
        match self {
            Class::White => white(c),
            Class::NotWhite => !white(c),
            Class::Is(x) => c == *x,
            Class::IsNot(x) => c != *x,
            Class::DigitOrDot => ('0' <= c && c <= '9') || c == '.',
            Class::CloseOrQuote => c == ')' || c == '\'' || c == '"',
            Class::NotQuote => c != '\'' && c != '"',
            Class::NamePart => !white(c) && c != '.' && c != '@',
        }
    }
}

// ---------------------------------------------------------------------------
// Searching
// ---------------------------------------------------------------------------

/// `pat` stands in `s` at position `i`.
pub open spec fn occurs_at(s: Seq<char>, pat: Seq<char>, i: int) -> bool {
    0 <= i && i + pat.len() <= s.len() && s.subrange(i, i + pat.len()) == pat
}

/// `pat` stands somewhere in `s`.
pub open spec fn has(s: Seq<char>, pat: Seq<char>) -> bool {
    exists|i: int| #[trigger] occurs_at(s, pat, i)
}

/// The first position at or after `from` at which `pat` stands in `s`.
pub open spec fn find_from(s: Seq<char>, pat: Seq<char>, from: int) -> Option<int>
    decreases s.len() + 1 - from,
{
    if from < 0 || from + pat.len() > s.len() {
        None
    } else if occurs_at(s, pat, from) {
        Some(from)
    } else {
        find_from(s, pat, from + 1)
    }
}

/// The first position at which `pat` stands in `s`.
pub open spec fn find(s: Seq<char>, pat: Seq<char>) -> Option<int> {
    find_from(s, pat, 0)
}

/// `s` begins with `pat`.
pub open spec fn starts_with(s: Seq<char>, pat: Seq<char>) -> bool {
    occurs_at(s, pat, 0)
}

/// What follows `pat` at the beginning of `s`.
pub open spec fn strip_prefix(s: Seq<char>, pat: Seq<char>) -> Option<Seq<char>> {
    if starts_with(s, pat) {
        Some(s.skip(pat.len() as int))
    } else {
        None
    }
}

/// What [`find_from`] finds is the first occurrence, and it finds one if there is one.
pub proof fn lemma_find_from(s: Seq<char>, pat: Seq<char>, from: int)
    requires
        0 <= from,
    ensures
        match find_from(s, pat, from) {
            Some(i) => from <= i && occurs_at(s, pat, i) && forall|j: int|
                from <= j < i ==> !occurs_at(s, pat, j),
            None => forall|j: int| from <= j ==> !occurs_at(s, pat, j),
        },
    decreases s.len() + 1 - from,
{
    if from + pat.len() > s.len() {
    } else if occurs_at(s, pat, from) {
    } else {
        lemma_find_from(s, pat, from + 1);
    }
}

/// A text holds a pattern just when the pattern is found in it.
pub proof fn lemma_find_has(s: Seq<char>, pat: Seq<char>)
    ensures
        has(s, pat) <==> find(s, pat) is Some,
{
    lemma_find_from(s, pat, 0);
}

/// Whether `pat` stands in `s` at position `i`.
pub fn at(s: &[char], pat: &[char], i: usize) -> (r: bool)
    ensures
        r == occurs_at(s@, pat@, i as int),
{
    if i > s.len() || pat.len() > s.len() - i {
        return false;
    }
    same_chars(slice_subrange(s, i, i + pat.len()), pat)
}

/// Executable form of [`find`].
pub fn find_at(s: &[char], pat: &[char]) -> (r: Option<usize>)
    ensures
        match r {
            Some(i) => find(s@, pat@) == Some(i as int) && occurs_at(s@, pat@, i as int),
            None => find(s@, pat@) is None,
        },
{
    let mut i: usize = 0;
    while i <= s.len() && pat.len() <= s.len() - i
        invariant
            i <= s@.len() + 1,
            find(s@, pat@) == find_from(s@, pat@, i as int),
        decreases s@.len() + 1 - i,
    {
        if at(s, pat, i) {
            return Some(i);
        }
        if i == s.len() {
            assert(find_from(s@, pat@, i + 1) is None);
            return None;
        }
        i += 1;
    }
    None
}

/// Executable form of [`has`].
pub fn has_chars(s: &[char], pat: &[char]) -> (r: bool)
    ensures
        r == has(s@, pat@),
{
    proof {
        lemma_find_has(s@, pat@);
    }
    find_at(s, pat).is_some()
}

/// Executable form of [`has`] on strings.
pub fn has_text(s: &str, pat: &str) -> (r: bool)
    ensures
        r == has(s@, pat@),
{
    let a = chars_of(s);
    let b = chars_of(pat);
    has_chars(a.as_slice(), b.as_slice())
}

/// Whether the character `c` stands in `s`.
pub fn has_char(s: &[char], c: char) -> (r: bool)
    ensures
        r == s@.contains(c),
{
    let mut i: usize = 0;
    while i < s.len()
        invariant
            i <= s@.len(),
            forall|j: int| 0 <= j < i ==> s@[j] != c,
        decreases s@.len() - i,
    {
        if s[i] == c {
            return true;
        }
        i += 1;
    }
    false
}

/// Executable form of [`starts_with`].
pub fn begins(s: &[char], pat: &str) -> (r: bool)
    ensures
        r == starts_with(s@, pat@),
{
    let p = chars_of(pat);
    at(s, p.as_slice(), 0)
}

/// Executable form of [`strip_prefix`].
pub fn after_prefix<'a>(s: &'a [char], pat: &str) -> (r: Option<&'a [char]>)
    ensures
        match r {
            Some(t) => strip_prefix(s@, pat@) == Some(t@),
            None => strip_prefix(s@, pat@) is None,
        },
{
    let p = chars_of(pat);
    if at(s, p.as_slice(), 0) {
        Some(slice_subrange(s, p.len(), s.len()))
    } else {
        None
    }
}

// ---------------------------------------------------------------------------
// Prefixes and suffixes of one class of characters
// ---------------------------------------------------------------------------

/// The length of the longest prefix of `s` made of `class`.
pub open spec fn prefix_len(s: Seq<char>, class: Class) -> int
    decreases s.len(),
{
    if s.len() > 0 && class.spec_has(s[0]) {
        1 + prefix_len(s.drop_first(), class)
    } else {
        0
    }
}

/// The length of the longest suffix of `s` made of `class`.
pub open spec fn suffix_len(s: Seq<char>, class: Class) -> int
    decreases s.len(),
{
    if s.len() > 0 && class.spec_has(s.last()) {
        1 + suffix_len(s.drop_last(), class)
    } else {
        0
    }
}

/// A prefix is no longer than the text; it is made of the class, and what follows it is not.
pub proof fn lemma_prefix_len(s: Seq<char>, class: Class)
    ensures
        0 <= prefix_len(s, class) <= s.len(),
        forall|i: int| 0 <= i < prefix_len(s, class) ==> class.spec_has(#[trigger] s[i]),
        prefix_len(s, class) < s.len() ==> !class.spec_has(s[prefix_len(s, class)]),
    decreases s.len(),
{
    if s.len() > 0 && class.spec_has(s[0]) {
        let t = s.drop_first();
        lemma_prefix_len(t, class);
        assert forall|i: int| 0 <= i < prefix_len(s, class) implies class.spec_has(
            #[trigger] s[i],
        ) by {
            if i > 0 {
                assert(t[i - 1] == s[i]);
            }
        }
        if prefix_len(s, class) < s.len() {
            assert(t[prefix_len(t, class)] == s[prefix_len(s, class)]);
        }
    }
}

/// The longest prefix is where the class ends for the first time.
pub proof fn lemma_prefix_len_is(s: Seq<char>, class: Class, n: int)
    requires
        0 <= n <= s.len(),
        forall|i: int| 0 <= i < n ==> class.spec_has(#[trigger] s[i]),
        n < s.len() ==> !class.spec_has(s[n]),
    ensures
        prefix_len(s, class) == n,
{
    lemma_prefix_len(s, class);
    let m = prefix_len(s, class);
    if m < n {
        assert(class.spec_has(s[m]));
    }
    if n < m {
        assert(class.spec_has(s[n]));
    }
}

/// A suffix is no longer than the text.
pub proof fn lemma_suffix_len(s: Seq<char>, class: Class)
    ensures
        0 <= suffix_len(s, class) <= s.len(),
    decreases s.len(),
{
    if s.len() > 0 && class.spec_has(s.last()) {
        lemma_suffix_len(s.drop_last(), class);
    }
}

/// `s` without its longest prefix of `class`.
pub open spec fn trim_start(s: Seq<char>, class: Class) -> Seq<char> {
    s.skip(prefix_len(s, class))
}

/// `s` without its longest suffix of `class`.
pub open spec fn trim_end(s: Seq<char>, class: Class) -> Seq<char> {
    s.take(s.len() - suffix_len(s, class))
}

/// `s` without `class` at either end.
pub open spec fn trim(s: Seq<char>, class: Class) -> Seq<char> {
    trim_end(trim_start(s, class), class)
}

/// Executable form of [`prefix_len`].
pub fn prefix(s: &[char], class: Class) -> (n: usize)
    ensures
        n == prefix_len(s@, class),
        n <= s@.len(),
{
    let mut n: usize = 0;
    while n < s.len() && class.holds(s[n])
        invariant
            n <= s@.len(),
            forall|i: int| 0 <= i < n ==> class.spec_has(#[trigger] s@[i]),
        decreases s@.len() - n,
    {
        n += 1;
    }
    proof {
        lemma_prefix_len_is(s@, class, n as int);
    }
    n
}

/// Executable form of [`suffix_len`].
pub fn suffix(s: &[char], class: Class) -> (n: usize)
    ensures
        n == suffix_len(s@, class),
        n <= s@.len(),
{
    let mut n: usize = 0;
    assert(s@.take(s@.len() as int) == s@);
    while n < s.len() && class.holds(s[s.len() - 1 - n])
        invariant
            n <= s@.len(),
            suffix_len(s@, class) == n + suffix_len(s@.take(s@.len() - n), class),
        decreases s@.len() - n,
    {
        assert(s@.take(s@.len() - n).drop_last() =~= s@.take(s@.len() - n - 1));
        n += 1;
    }
    n
}

/// Executable form of [`trim_start`].
pub fn trimmed_start(s: &[char], class: Class) -> (r: &[char])
    ensures
        r@ == trim_start(s@, class),
{
    let n = prefix(s, class);
    slice_subrange(s, n, s.len())
}

/// Executable form of [`trim_end`].
pub fn trimmed_end(s: &[char], class: Class) -> (r: &[char])
    ensures
        r@ == trim_end(s@, class),
{
    let n = suffix(s, class);
    slice_subrange(s, 0, s.len() - n)
}

/// Executable form of [`trim`].
pub fn trimmed(s: &[char], class: Class) -> (r: &[char])
    ensures
        r@ == trim(s@, class),
{
    trimmed_end(trimmed_start(s, class), class)
}

/// `s` without white space at either end.
pub fn trimmed_text(s: &str) -> (r: String)
    ensures
        r@ == trim(s@, Class::White),
{
    let c = chars_of(s);
    string_of(trimmed(c.as_slice(), Class::White))
}

// ---------------------------------------------------------------------------
// Splitting
// ---------------------------------------------------------------------------

/// The views of a list of lists of characters.
pub open spec fn rows(v: Seq<Vec<char>>) -> Seq<Seq<char>> {
    v.map_values(|s: Vec<char>| s@)
}

/// What stands before and after the first `c`.
pub open spec fn split_once(s: Seq<char>, c: char) -> Option<(Seq<char>, Seq<char>)> {
    let n = prefix_len(s, Class::IsNot(c));
    if n < s.len() {
        Some((s.take(n), s.skip(n + 1)))
    } else {
        None
    }
}

/// The pieces of `s` between the occurrences of `c`.
pub open spec fn split(s: Seq<char>, c: char) -> Seq<Seq<char>>
    decreases s.len(),
{
    let n = prefix_len(s, Class::IsNot(c));
    if 0 <= n < s.len() {
        seq![s.take(n)] + split(s.skip(n + 1), c)
    } else {
        seq![s]
    }
}

/// `s` without one carriage return at its end.
pub open spec fn strip_cr(s: Seq<char>) -> Seq<char> {
    if s.len() > 0 && s.last() == '\r' {
        s.drop_last()
    } else {
        s
    }
}

/// The lines of `s`: pieces ended by a line feed, or by a carriage return and a
/// line feed; a last piece that nothing ends is a line when it is not empty.
pub open spec fn lines(s: Seq<char>) -> Seq<Seq<char>>
    decreases s.len(),
{
    let n = prefix_len(s, Class::IsNot('\n'));
    if s.len() == 0 {
        Seq::empty()
    } else if 0 <= n < s.len() {
        seq![strip_cr(s.take(n))] + lines(s.skip(n + 1))
    } else {
        seq![s]
    }
}

/// The pieces of `s` between white space, none of them empty.
pub open spec fn words(s: Seq<char>) -> Seq<Seq<char>>
    decreases s.len(),
{
    let t = trim_start(s, Class::White);
    let n = prefix_len(t, Class::NotWhite);
    if 0 < n <= t.len() <= s.len() {
        seq![t.take(n)] + words(t.skip(n))
    } else {
        Seq::empty()
    }
}

/// Appends one list of characters to a list.
fn push_row(v: &mut Vec<Vec<char>>, row: &[char])
    ensures
        rows(final(v)@) == rows(old(v)@).push(row@),
{
    let mut copy: Vec<char> = Vec::new();
    let mut i: usize = 0;
    while i < row.len()
        invariant
            i <= row@.len(),
            copy@ == row@.take(i as int),
        decreases row@.len() - i,
    {
        copy.push(row[i]);
        i += 1;
    }
    assert(copy@ =~= row@);
    v.push(copy);
    assert(rows(v@) =~= rows(old(v)@).push(row@));
}

/// A list holding no rows.
fn no_rows() -> (v: Vec<Vec<char>>)
    ensures
        rows(v@) == Seq::<Seq<char>>::empty(),
{
    let v: Vec<Vec<char>> = Vec::new();
    assert(rows(v@) =~= Seq::<Seq<char>>::empty());
    v
}

/// Executable form of [`split_once`].
pub fn cut(s: &[char], c: char) -> (r: Option<(&[char], &[char])>)
    ensures
        match r {
            Some((a, b)) => split_once(s@, c) == Some((a@, b@)),
            None => split_once(s@, c) is None,
        },
{
    let n = prefix(s, Class::IsNot(c));
    if n < s.len() {
        Some((slice_subrange(s, 0, n), slice_subrange(s, n + 1, s.len())))
    } else {
        None
    }
}

/// Executable form of [`split`].
pub fn pieces(s: &[char], c: char) -> (r: Vec<Vec<char>>)
    ensures
        rows(r@) == split(s@, c),
{
    let mut out = no_rows();
    let mut from: usize = 0;
    assert(s@.skip(0) =~= s@);
    loop
        invariant
            from <= s@.len(),
            split(s@, c) == rows(out@) + split(s@.skip(from as int), c),
        decreases s@.len() - from,
    {
        let rest = slice_subrange(s, from, s.len());
        assert(rest@ =~= s@.skip(from as int));
        let n = prefix(rest, Class::IsNot(c));
        if n < rest.len() {
            let ghost before = rows(out@);
            push_row(&mut out, slice_subrange(rest, 0, n));
            assert(rest@.skip(n + 1) =~= s@.skip(from + n + 1));
            assert(rows(out@) + split(s@.skip(from + n + 1), c) =~= before + (seq![rest@.take(
                n as int,
            )] + split(rest@.skip(n + 1), c)));
            from += n + 1;
        } else {
            let ghost before = rows(out@);
            push_row(&mut out, rest);
            assert(rows(out@) =~= before + seq![rest@]);
            return out;
        }
    }
}

/// Executable form of [`lines`].
pub fn lines_of(s: &[char]) -> (r: Vec<Vec<char>>)
    ensures
        rows(r@) == lines(s@),
{
    let mut out = no_rows();
    let mut from: usize = 0;
    assert(s@.skip(0) =~= s@);
    while from < s.len()
        invariant
            from <= s@.len(),
            lines(s@) == rows(out@) + lines(s@.skip(from as int)),
        decreases s@.len() - from,
    {
        let rest = slice_subrange(s, from, s.len());
        assert(rest@ =~= s@.skip(from as int));
        let n = prefix(rest, Class::IsNot('\n'));
        let ghost before = rows(out@);
        if n < rest.len() {
            let line = slice_subrange(rest, 0, n);
            if n > 0 && line[n - 1] == '\r' {
                push_row(&mut out, slice_subrange(line, 0, n - 1));
                assert(line@.drop_last() =~= line@.take(n - 1));
            } else {
                push_row(&mut out, line);
            }
            assert(rest@.skip(n + 1) =~= s@.skip(from + n + 1));
            assert(rows(out@) + lines(s@.skip(from + n + 1)) =~= before + (seq![strip_cr(
                rest@.take(n as int),
            )] + lines(rest@.skip(n + 1))));
            from += n + 1;
        } else {
            push_row(&mut out, rest);
            assert(rows(out@) =~= before + seq![rest@]);
            return out;
        }
    }
    assert(rows(out@) + lines(s@.skip(from as int)) =~= rows(out@));
    out
}

/// Executable form of [`words`].
pub fn words_of(s: &[char]) -> (r: Vec<Vec<char>>)
    ensures
        rows(r@) == words(s@),
{
    let mut out = no_rows();
    let mut from: usize = 0;
    assert(s@.skip(0) =~= s@);
    loop
        invariant
            from <= s@.len(),
            words(s@) == rows(out@) + words(s@.skip(from as int)),
        decreases s@.len() - from,
    {
        let rest = slice_subrange(s, from, s.len());
        assert(rest@ =~= s@.skip(from as int));
        let gap = prefix(rest, Class::White);
        let tail = slice_subrange(rest, gap, rest.len());
        assert(tail@ =~= trim_start(rest@, Class::White));
        let n = prefix(tail, Class::NotWhite);
        if n > 0 {
            let ghost before = rows(out@);
            push_row(&mut out, slice_subrange(tail, 0, n));
            assert(tail@.skip(n as int) =~= s@.skip(from + gap + n));
            assert(rows(out@) + words(s@.skip(from + gap + n)) =~= before + (seq![tail@.take(
                n as int,
            )] + words(tail@.skip(n as int))));
            from += gap + n;
        } else {
            assert(rows(out@) + words(rest@) =~= rows(out@));
            return out;
        }
    }
}

// ---------------------------------------------------------------------------
// Joining and replacing
// ---------------------------------------------------------------------------

/// The texts put together with `sep` between them.
pub open spec fn join(v: Seq<Seq<char>>, sep: Seq<char>) -> Seq<char>
    decreases v.len(),
{
    if v.len() == 0 {
        Seq::empty()
    } else if v.len() == 1 {
        v[0]
    } else {
        join(v.drop_last(), sep) + sep + v.last()
    }
}

/// Executable form of [`join`].
pub fn joined(v: &Vec<String>, sep: &str) -> (s: String)
    ensures
        s@ == join(texts(v@), sep@),
{
    let mut s = String::new();
    let mut i: usize = 0;
    while i < v.len()
        invariant
            i <= v@.len(),
            s@ == join(texts(v@).take(i as int), sep@),
        decreases v@.len() - i,
    {
        let ghost next = texts(v@).take(i + 1);
        assert(next.drop_last() =~= texts(v@).take(i as int));
        assert(next.last() == v@[i as int]@);
        if i > 0 {
            s.append(sep);
        }
        s.append(v[i].as_str());
        assert(s@ =~= join(next, sep@));
        i += 1;
    }
    assert(texts(v@).take(v@.len() as int) =~= texts(v@));
    s
}

/// `s` with every `c` replaced by the text `with`.
pub open spec fn replace(s: Seq<char>, c: char, with: Seq<char>) -> Seq<char>
    decreases s.len(),
{
    if s.len() == 0 {
        Seq::empty()
    } else if s.last() == c {
        replace(s.drop_last(), c, with) + with
    } else {
        replace(s.drop_last(), c, with).push(s.last())
    }
}

/// Replacing works from the front as well as from the end.
pub proof fn lemma_replace_front(s: Seq<char>, c: char, with: Seq<char>)
    requires
        s.len() > 0,
    ensures
        replace(s, c, with) == (if s[0] == c {
            with
        } else {
            seq![s[0]]
        }) + replace(s.drop_first(), c, with),
    decreases s.len(),
{
    let t = s.drop_first();
    let head = if s[0] == c {
        with
    } else {
        seq![s[0]]
    };
    if s.len() == 1 {
        assert(s.drop_last() =~= Seq::<char>::empty());
        assert(t =~= Seq::<char>::empty());
        assert(replace(s, c, with) =~= head + replace(t, c, with));
    } else {
        lemma_replace_front(s.drop_last(), c, with);
        assert(s.drop_last().drop_first() =~= t.drop_last());
        assert(t.last() == s.last());
        assert(replace(s, c, with) =~= head + replace(t, c, with));
    }
}

/// Executable form of [`replace`].
pub fn replaced(s: &str, c: char, with: &str) -> (r: String)
    ensures
        r@ == replace(s@, c, with@),
{
    let cs = chars_of(s);
    let mut r = String::new();
    let mut i: usize = 0;
    while i < cs.len()
        invariant
            cs@ == s@,
            i <= cs@.len(),
            r@ == replace(s@.take(i as int), c, with@),
        decreases cs@.len() - i,
    {
        assert(s@.take(i + 1).drop_last() =~= s@.take(i as int));
        if cs[i] == c {
            r.append(with);
        } else {
            r.push(cs[i]);
        }
        i += 1;
    }
    assert(s@.take(s@.len() as int) =~= s@);
    r
}

/// `s` with every `a` turned into `b`.
pub open spec fn swap(s: Seq<char>, a: char, b: char) -> Seq<char> {
    s.map_values(|c: char| if c == a { b } else { c })
}

/// Executable form of [`swap`].
pub fn swapped(s: &str, a: char, b: char) -> (r: String)
    ensures
        r@ == swap(s@, a, b),
{
    let cs = chars_of(s);
    let mut r = String::new();
    let mut i: usize = 0;
    while i < cs.len()
        invariant
            cs@ == s@,
            i <= cs@.len(),
            r@ =~= swap(s@, a, b).take(i as int),
        decreases cs@.len() - i,
    {
        if cs[i] == a {
            r.push(b);
        } else {
            r.push(cs[i]);
        }
        i += 1;
    }
    assert(r@ =~= swap(s@, a, b));
    r
}

/// `s` with its ASCII capitals as small letters.
pub open spec fn lowered(s: Seq<char>) -> Seq<char> {
    s.map_values(|c: char| lower(c))
}

/// Executable form of [`lowered`].
pub fn lowered_chars(s: &[char]) -> (r: String)
    ensures
        r@ == lowered(s@),
{
    let mut r = String::new();
    let mut i: usize = 0;
    while i < s.len()
        invariant
            i <= s@.len(),
            r@ =~= lowered(s@).take(i as int),
        decreases s@.len() - i,
    {
        r.push(to_lower(s[i]));
        i += 1;
    }
    assert(r@ =~= lowered(s@));
    r
}

/// The length of `s` in UTF-8.
pub open spec fn byte_len(s: Seq<char>) -> nat {
    vstd::utf8::encode_utf8(s).len()
}

/// A character takes four bytes at most.
pub proof fn lemma_byte_len(s: Seq<char>)
    ensures
        byte_len(s) <= 4 * s.len(),
    decreases s.len(),
{
    if s.len() > 0 {
        lemma_byte_len(s.drop_first());
    }
}

/// The length of a string in UTF-8.
pub fn bytes_in(s: &str) -> (n: usize)
    ensures
        n == byte_len(s@),
{
    s.as_bytes().len()
}

/// The first `n` characters of a text, or all of them where there are fewer.
pub open spec fn first(s: Seq<char>, n: int) -> Seq<char> {
    if n < s.len() {
        s.take(n)
    } else {
        s
    }
}

/// Executable form of [`first`].
pub fn front(s: &str, n: usize) -> (r: String)
    ensures
        r@ == first(s@, n as int),
{
    let cs = chars_of(s);
    if n < cs.len() {
        string_of(slice_subrange(cs.as_slice(), 0, n))
    } else {
        s.to_owned()
    }
}

/// Every character is in ASCII.
pub open spec fn is_ascii(s: Seq<char>) -> bool {
    vstd::utf8::is_ascii_chars(s)
}

/// Whether a character is in ASCII.
fn ascii(c: char) -> (r: bool)
    ensures
        r == ('\0' <= c <= '\u{7f}'),
{
    c <= '\u{7f}'
}

/// A text in small letters, as `str::to_lowercase` writes it.
pub uninterp spec fn unicode_lowercase(s: Seq<char>) -> Seq<char>;

/// Calls `str::to_lowercase`: the result depends on the text alone.
#[verifier::external_body]
fn to_unicode_lowercase(s: &str) -> (r: String)
    ensures
        r@ == unicode_lowercase(s@),
{
    s.to_lowercase()
}

/// A text in small letters.
pub open spec fn lowercase(s: Seq<char>) -> Seq<char> {
    if is_ascii(s) {
        lowered(s)
    } else {
        unicode_lowercase(s)
    }
}

/// Executable form of [`lowercase`].
pub fn in_lowercase(s: &str) -> (r: String)
    ensures
        r@ == lowercase(s@),
{
    let cs = chars_of(s);
    let mut i: usize = 0;
    while i < cs.len()
        invariant
            i <= cs@.len(),
            cs@ == s@,
            forall|j: int| 0 <= j < i ==> '\0' <= #[trigger] cs@[j] <= '\u{7f}',
        decreases cs@.len() - i,
    {
        if !ascii(cs[i]) {
            assert(!is_ascii(s@));
            return to_unicode_lowercase(s);
        }
        i += 1;
    }
    lowered_chars(cs.as_slice())
}

} // verus!
