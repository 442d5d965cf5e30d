//! Splitting text into fields: the words of a header, the segments of a token.

use vstd::prelude::*;
use vstd::string::*;

verus! {

/// What separates the fields of a text.
#[derive(Clone, Copy, Debug, PartialEq, Eq)]
pub enum Separator {
    /// Any character with the Unicode property `White_Space`.
    Whitespace,
    /// The full stop between the segments of a token.
    Dot,
}

/// The characters with the Unicode property `White_Space`.
pub open spec fn is_space(c: char) -> bool {
    let n = c as u32;
    ||| 0x09 <= n <= 0x0D
    ||| n == 0x20
    ||| n == 0x85
    ||| n == 0xA0
    ||| n == 0x1680
    ||| 0x2000 <= n <= 0x200A
    ||| n == 0x2028
    ||| n == 0x2029
    ||| n == 0x202F
    ||| n == 0x205F
    ||| n == 0x3000
}

/// Whether `c` is white space.
pub fn is_whitespace(c: char) -> (r: bool)
    ensures
        r == is_space(c),
{
    let n: u32 = c as u32;
    (0x09 <= n && n <= 0x0D) || n == 0x20 || n == 0x85 || n == 0xA0 || n == 0x1680 || (0x2000 <= n
        && n <= 0x200A) || n == 0x2028 || n == 0x2029 || n == 0x202F || n == 0x205F || n == 0x3000
}

impl Separator {
    /// Whether `c` ends one field and starts the next.
    pub open spec fn separates(self, c: char) -> bool {
        match self {
            Separator::Whitespace => is_space(c),
            Separator::Dot => c == '.',
        }
    }

    /// Whether `c` ends one field and starts the next.
    pub fn is_separator(self, c: char) -> (r: bool)
        ensures
            r == self.separates(c),
    {
        match self {
            Separator::Whitespace => is_whitespace(c),
            Separator::Dot => c == '.',
        }
    }
}

/// The fields of `s`: the runs of characters between separators, in order.
/// A text with `k` separators has `k + 1` fields, some of which may be empty.
pub open spec fn fields(s: Seq<char>, sep: Separator) -> Seq<Seq<char>>
    decreases s.len(),
{
    if s.len() == 0 {
        seq![Seq::<char>::empty()]
    } else {
        let before = fields(s.drop_last(), sep);
        if sep.separates(s.last()) {
            before.push(Seq::<char>::empty())
        } else {
            before.drop_last().push(before.last().push(s.last()))
        }
    }
}

/// The members of `fs` that hold at least one character, in order.
pub open spec fn non_empty(fs: Seq<Seq<char>>) -> Seq<Seq<char>>
    decreases fs.len(),
{
    if fs.len() == 0 {
        fs
    } else if fs.last().len() > 0 {
        non_empty(fs.drop_last()).push(fs.last())
    } else {
        non_empty(fs.drop_last())
    }
}

/// The fields of `s` that hold at least one character.
pub open spec fn words(s: Seq<char>, sep: Separator) -> Seq<Seq<char>> {
    non_empty(fields(s, sep))
}

/// The texts that a vector of strings holds.
pub open spec fn texts(v: Seq<String>) -> Seq<Seq<char>> {
    Seq::new(v.len(), |i: int| v[i]@)
}

/// The characters of `text`, in order.
pub fn characters(text: &str) -> (chars: Vec<char>)
    ensures
        chars@ == text@,
{
    let mut chars: Vec<char> = Vec::new();
    for c in it: text.chars()
        invariant
            it.seq() == text@,
            chars@ == text@.take(it.index() as int),
    {
        chars.push(c);
    }
    chars
}

/// A text always has a first field.
pub proof fn lemma_fields_nonempty(s: Seq<char>, sep: Separator)
    ensures
        fields(s, sep).len() >= 1,
    decreases s.len(),
{
    if s.len() > 0 {
        lemma_fields_nonempty(s.drop_last(), sep);
    }
}

/// A text that holds no separator is its own single field.
pub proof fn lemma_fields_plain(w: Seq<char>, sep: Separator)
    requires
        forall|i: int| 0 <= i < w.len() ==> !sep.separates(#[trigger] w[i]),
    ensures
        fields(w, sep) == seq![w],
    decreases w.len(),
{
    if w.len() == 0 {
        assert(w == Seq::<char>::empty());
    } else {
        lemma_fields_plain(w.drop_last(), sep);
        assert(w.drop_last().push(w.last()) == w);
        assert(seq![w.drop_last()].last() == w.drop_last());
        assert(seq![w.drop_last()].drop_last() == Seq::<Seq<char>>::empty());
        assert(seq![w.drop_last()].drop_last().push(w.drop_last().push(w.last())) == seq![w]);
    }
}

/// A separator between two texts keeps their fields apart: the fields of
/// the whole are those of the left text followed by those of the right.
pub proof fn lemma_fields_joined(a: Seq<char>, c: char, b: Seq<char>, sep: Separator)
    requires
        sep.separates(c),
    ensures
        fields(a.push(c) + b, sep) == fields(a, sep) + fields(b, sep),
    decreases b.len(),
{
    let whole = a.push(c) + b;
    if b.len() == 0 {
        assert(whole == a.push(c));
        assert(whole.drop_last() == a);
        assert(fields(a, sep).push(Seq::<char>::empty()) == fields(a, sep) + fields(b, sep));
    } else {
        let shorter = b.drop_last();
        lemma_fields_joined(a, c, shorter, sep);
        lemma_fields_nonempty(shorter, sep);
        assert(whole.drop_last() == a.push(c) + shorter);
        assert(whole.last() == b.last());
        let left = fields(a, sep);
        let right = fields(shorter, sep);
        if sep.separates(b.last()) {
            assert((left + right).push(Seq::<char>::empty()) == left + right.push(
                Seq::<char>::empty(),
            ));
        } else {
            assert((left + right).drop_last() == left + right.drop_last());
            assert((left + right).last() == right.last());
            assert((left + right.drop_last()).push(right.last().push(b.last())) == left
                + right.drop_last().push(right.last().push(b.last())));
        }
    }
}

/// Where no member is empty, none is left out.
pub proof fn lemma_non_empty_all(fs: Seq<Seq<char>>)
    requires
        forall|i: int| 0 <= i < fs.len() ==> (#[trigger] fs[i]).len() > 0,
    ensures
        non_empty(fs) == fs,
    decreases fs.len(),
{
    if fs.len() > 0 {
        lemma_non_empty_all(fs.drop_last());
        assert(fs.drop_last().push(fs.last()) == fs);
    }
}

/// Splits `text` at every separator.
pub fn split(text: &str, sep: Separator) -> (parts: Vec<String>)
    ensures
        texts(parts@) == fields(text@, sep),
{
    let chars = characters(text);
    let n: usize = chars.len();
    let mut parts: Vec<String> = Vec::new();
    let mut start: usize = 0;
    let mut i: usize = 0;
    assert(text@.take(0) == Seq::<char>::empty());
    assert(texts(parts@).push(text@.subrange(0, 0)) == seq![Seq::<char>::empty()]);
    while i < n
        invariant
            n == text@.len(),
            chars@ == text@,
            start <= i <= n,
            fields(text@.take(i as int), sep) == texts(parts@).push(
                text@.subrange(start as int, i as int),
            ),
        decreases n - i,
    {
        let ghost done = texts(parts@);
        let ghost seen = text@.take(i as int + 1);
        assert(seen.drop_last() == text@.take(i as int));
        assert(seen.last() == text@[i as int]);
        if sep.is_separator(chars[i]) {
            let piece = String::from_str(text.substring_char(start, i));
            parts.push(piece);
            assert(texts(parts@) == done.push(text@.subrange(start as int, i as int)));
            start = i + 1;
            assert(text@.subrange(start as int, i as int + 1) == Seq::<char>::empty());
        } else {
            assert(done.push(text@.subrange(start as int, i as int)).drop_last() == done);
            assert(text@.subrange(start as int, i as int).push(text@[i as int]) == text@.subrange(
                start as int,
                i as int + 1,
            ));
        }
        i = i + 1;
    }
    assert(text@.take(n as int) == text@);
    let ghost done = texts(parts@);
    let piece = String::from_str(text.substring_char(start, n));
    parts.push(piece);
    assert(texts(parts@) == done.push(text@.subrange(start as int, n as int)));
    parts
}

/// Splits `text` at every separator and keeps the fields that are not empty.
pub fn split_words(text: &str, sep: Separator) -> (kept: Vec<String>)
    ensures
        texts(kept@) == words(text@, sep),
{
    let parts = split(text, sep);
    let ghost all = texts(parts@);
    let mut kept: Vec<String> = Vec::new();
    let n: usize = parts.len();
    let mut i: usize = 0;
    assert(all.take(0) == Seq::<Seq<char>>::empty());
    while i < n
        invariant
            n == parts@.len(),
            i <= n,
            all == texts(parts@),
            all == fields(text@, sep),
            texts(kept@) == non_empty(all.take(i as int)),
        decreases n - i,
    {
        let ghost before = texts(kept@);
        assert(all.take(i as int + 1).drop_last() == all.take(i as int));
        assert(all.take(i as int + 1).last() == parts@[i as int]@);
        if parts[i].as_str().unicode_len() > 0 {
            let word = parts[i].clone();
            kept.push(word);
            assert(texts(kept@) == before.push(parts@[i as int]@));
        }
        i = i + 1;
    }
    assert(all.take(n as int) == all);
    kept
}

} // verus!
