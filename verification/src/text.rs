//! Character-level text helpers shared by the parsers of this crate.
//!
//! Text is handled as sequences of `char`; a `String` is viewed as its `Seq<char>`.
use vstd::prelude::*;

verus! {

/// Splits `s` at every occurrence of `sep`, like `str::split` with a `char` pattern:
/// the result always holds one more piece than `s` holds separators.
pub open spec fn split_spec(s: Seq<char>, sep: char) -> Seq<Seq<char>>
    decreases s.len(),
{
    if s.len() == 0 {
        seq![Seq::<char>::empty()]
    } else {
        let rest = split_spec(s.drop_last(), sep);
        if s.last() == sep {
            rest.push(Seq::<char>::empty())
        } else {
            rest.update(rest.len() - 1, rest.last().push(s.last()))
        }
    }
}

/// The number of times `c` occurs in `s`.
pub open spec fn count_char(s: Seq<char>, c: char) -> nat
    decreases s.len(),
{
    if s.len() == 0 {
        0
    } else {
        count_char(s.drop_last(), c) + if s.last() == c {
            1nat
        } else {
            0nat
        }
    }
}

/// The texts held by a list of character vectors.
pub open spec fn pieces_view(v: Seq<Vec<char>>) -> Seq<Seq<char>> {
    Seq::new(v.len(), |i: int| v[i]@)
}

/// `split_spec` never returns an empty list, and yields one piece more than there are separators.
pub proof fn lemma_split_len(s: Seq<char>, sep: char)
    ensures
        split_spec(s, sep).len() == count_char(s, sep) + 1,
    decreases s.len(),
{
    if s.len() > 0 {
        lemma_split_len(s.drop_last(), sep);
    }
}

/// No piece of a split holds the separator.
pub proof fn lemma_split_pieces_free_of_sep(s: Seq<char>, sep: char)
    ensures
        forall|i: int|
            0 <= i < split_spec(s, sep).len() ==> !(#[trigger] split_spec(s, sep)[i]).contains(sep),
    decreases s.len(),
{
    if s.len() > 0 {
        lemma_split_pieces_free_of_sep(s.drop_last(), sep);
        lemma_split_len(s.drop_last(), sep);
        let rest = split_spec(s.drop_last(), sep);
        if s.last() != sep {
            assert forall|i: int| 0 <= i < split_spec(s, sep).len() implies !(
            #[trigger] split_spec(s, sep)[i]).contains(sep) by {
                if i == rest.len() - 1 {
                    let p = rest.last().push(s.last());
                    assert(!rest[i].contains(sep));
                    if p.contains(sep) {
                        let k = choose|k: int| 0 <= k < p.len() && p[k] == sep;
                        assert(rest[i][k] == sep);
                    }
                }
            }
        } else {
            assert forall|i: int| 0 <= i < split_spec(s, sep).len() implies !(
            #[trigger] split_spec(s, sep)[i]).contains(sep) by {
                if i < rest.len() {
                    assert(split_spec(s, sep)[i] == rest[i]);
                }
            }
        }
    }
}

/// A text without the separator splits into itself alone.
pub proof fn lemma_split_without_sep(s: Seq<char>, sep: char)
    requires
        !s.contains(sep),
    ensures
        split_spec(s, sep) == seq![s],
    decreases s.len(),
{
    if s.len() == 0 {
        assert(s =~= Seq::<char>::empty());
        assert(split_spec(s, sep) =~= seq![s]);
    } else {
        assert(!s.drop_last().contains(sep)) by {
            if s.drop_last().contains(sep) {
                let k = choose|k: int| 0 <= k < s.drop_last().len() && s.drop_last()[k] == sep;
                assert(s[k] == sep);
            }
        }
        lemma_split_without_sep(s.drop_last(), sep);
        assert(s.last() != sep) by {
            assert(s[s.len() - 1] == s.last());
        }
        assert(s.drop_last().push(s.last()) =~= s);
        assert(split_spec(s, sep) =~= seq![s]);
    }
}

/// Appending text without separators extends the last piece only.
pub proof fn lemma_split_append_plain(p: Seq<char>, y: Seq<char>, sep: char)
    requires
        !y.contains(sep),
    ensures
        split_spec(p + y, sep) == split_spec(p, sep).update(
            split_spec(p, sep).len() - 1,
            split_spec(p, sep).last() + y,
        ),
    decreases y.len(),
{
    lemma_split_len(p, sep);
    if y.len() == 0 {
        assert(p + y =~= p);
        assert(split_spec(p, sep).last() + y =~= split_spec(p, sep).last());
        assert(split_spec(p, sep).update(split_spec(p, sep).len() - 1, split_spec(p, sep).last())
            =~= split_spec(p, sep));
    } else {
        let y0 = y.drop_last();
        assert(!y0.contains(sep)) by {
            if y0.contains(sep) {
                let k = choose|k: int| 0 <= k < y0.len() && y0[k] == sep;
                assert(y[k] == sep);
            }
        }
        assert(y.last() != sep) by {
            assert(y[y.len() - 1] == y.last());
        }
        lemma_split_append_plain(p, y0, sep);
        assert((p + y).drop_last() =~= p + y0);
        assert((p + y).last() == y.last());
        lemma_split_len(p + y0, sep);
        assert(split_spec(p + y, sep) =~= split_spec(p, sep).update(
            split_spec(p, sep).len() - 1,
            split_spec(p, sep).last() + y,
        )) by {
            let big = split_spec(p, sep);
            let rest = split_spec(p + y0, sep);
            assert(rest == big.update(big.len() - 1, big.last() + y0));
            assert(rest.len() == big.len());
            assert(rest.last() == big.last() + y0);
            assert(split_spec(p + y, sep) == rest.update(rest.len() - 1, rest.last().push(y.last())));
            assert((big.last() + y0).push(y.last()) =~= big.last() + y);
        }
    }
}

/// Two separator-free texts joined by one separator split back into the two texts.
pub proof fn lemma_split_two(x: Seq<char>, y: Seq<char>, sep: char)
    requires
        !x.contains(sep),
        !y.contains(sep),
    ensures
        split_spec(x + seq![sep] + y, sep) == seq![x, y],
{
    let p = x + seq![sep];
    lemma_split_without_sep(x, sep);
    assert(p.drop_last() =~= x);
    assert(p.last() == sep);
    assert(split_spec(p, sep) =~= seq![x, Seq::<char>::empty()]);
    lemma_split_append_plain(p, y, sep);
    assert(Seq::<char>::empty() + y =~= y);
    assert(split_spec(p + y, sep) =~= seq![x, y]);
}

/// A text free of a character, joined from two such texts around another character.
pub proof fn lemma_concat_free(x: Seq<char>, y: Seq<char>, mid: char, c: char)
    requires
        !x.contains(c),
        !y.contains(c),
        mid != c,
    ensures
        !(x + seq![mid] + y).contains(c),
{
    let z = x + seq![mid] + y;
    if z.contains(c) {
        let k = choose|k: int| 0 <= k < z.len() && z[k] == c;
        if k < x.len() {
            assert(x[k] == c);
        } else if k == x.len() {
        } else {
            assert(y[k - x.len() - 1] == c);
        }
    }
}

/// Copies the characters of `s` into a vector.
pub fn chars_of(s: &str) -> (res: Vec<char>)
    ensures
        res@ == s@,
{
    let mut res: Vec<char> = Vec::new();
    for c in it: s.chars()
        invariant
            res@ == it.seq().take(it.index() as int),
            it.seq() == s@,
    {
        res.push(c);
    }
    res
}

/// Builds a `String` from a sequence of characters by collecting them
/// (`Iterator::collect` into `String`); the contract claims that the text is exactly the
/// characters, in order.
#[verifier::external_body]
pub(crate) fn string_of(v: &Vec<char>) -> (res: String)
    ensures
        res@ == v@,
{
    v.iter().collect()
}

/// The characters of `s` as a vector.
pub fn chars_of_string(s: &String) -> (res: Vec<char>)
    ensures
        res@ == s@,
{
    chars_of(s.as_str())
}

/// Splits `v` at every `sep`, as `str::split` does.
pub fn split_at_char(v: &Vec<char>, sep: char) -> (res: Vec<Vec<char>>)
    ensures
        pieces_view(res@) == split_spec(v@, sep),
{
    let mut pieces: Vec<Vec<char>> = Vec::new();
    let mut cur: Vec<char> = Vec::new();
    let mut i: usize = 0;
    assert(v@.take(0) =~= Seq::<char>::empty());
    while i < v.len()
        invariant
            0 <= i <= v.len(),
            pieces_view(pieces@).push(cur@) =~= split_spec(v@.take(i as int), sep),
        decreases v.len() - i,
    {
        let c = v[i];
        let ghost old_pieces = pieces_view(pieces@);
        let ghost old_cur = cur@;
        assert(v@.take(i as int + 1).drop_last() =~= v@.take(i as int));
        assert(v@.take(i as int + 1).last() == c);
        if c == sep {
            let done = cur;
            pieces.push(done);
            cur = Vec::new();
            assert(pieces_view(pieces@) =~= old_pieces.push(old_cur));
        } else {
            cur.push(c);
            assert(pieces_view(pieces@) =~= old_pieces);
        }
        i = i + 1;
    }
    assert(v@.take(v.len() as int) =~= v@);
    let ghost before = pieces_view(pieces@);
    pieces.push(cur);
    assert(pieces_view(pieces@) =~= before.push(cur@));
    pieces
}

/// Whether `v` holds the character `c`.
pub fn contains_char(v: &Vec<char>, c: char) -> (res: bool)
    ensures
        res == v@.contains(c),
{
    let mut i: usize = 0;
    while i < v.len()
        invariant
            0 <= i <= v.len(),
            forall|k: int| 0 <= k < i ==> v@[k] != c,
        decreases v.len() - i,
    {
        if v[i] == c {
            assert(v@[i as int] == c);
            return true;
        }
        i = i + 1;
    }
    false
}

/// Whether the two character sequences are equal.
pub fn chars_equal(a: &Vec<char>, b: &Vec<char>) -> (res: bool)
    ensures
        res == (a@ == b@),
{
    if a.len() != b.len() {
        return false;
    }
    let mut i: usize = 0;
    while i < a.len()
        invariant
            0 <= i <= a.len(),
            a.len() == b.len(),
            forall|k: int| 0 <= k < i ==> a@[k] == b@[k],
        decreases a.len() - i,
    {
        if a[i] != b[i] {
            return false;
        }
        i = i + 1;
    }
    assert(a@ =~= b@);
    true
}

/// Whether `v` starts with `prefix`.
pub fn starts_with_chars(v: &Vec<char>, prefix: &Vec<char>) -> (res: bool)
    ensures
        res == (prefix@.len() <= v@.len() && v@.subrange(0, prefix@.len() as int) == prefix@),
{
    if prefix.len() > v.len() {
        return false;
    }
    let mut i: usize = 0;
    while i < prefix.len()
        invariant
            0 <= i <= prefix.len(),
            prefix.len() <= v.len(),
            forall|k: int| 0 <= k < i ==> v@[k] == prefix@[k],
        decreases prefix.len() - i,
    {
        if v[i] != prefix[i] {
            assert(v@.subrange(0, prefix@.len() as int)[i as int] != prefix@[i as int]);
            return false;
        }
        i = i + 1;
    }
    assert(v@.subrange(0, prefix@.len() as int) =~= prefix@);
    true
}

/// Appends all characters of `b` to a copy of `a`.
pub fn concat_chars(a: &Vec<char>, b: &Vec<char>) -> (res: Vec<char>)
    ensures
        res@ == a@ + b@,
{
    let mut res: Vec<char> = Vec::new();
    let mut i: usize = 0;
    while i < a.len()
        invariant
            0 <= i <= a.len(),
            res@ == a@.take(i as int),
        decreases a.len() - i,
    {
        res.push(a[i]);
        i = i + 1;
        assert(res@ =~= a@.take(i as int));
    }
    let mut j: usize = 0;
    assert(a@.take(a.len() as int) =~= a@);
    while j < b.len()
        invariant
            0 <= j <= b.len(),
            res@ == a@ + b@.take(j as int),
        decreases b.len() - j,
    {
        res.push(b[j]);
        j = j + 1;
        assert(res@ =~= a@ + b@.take(j as int));
    }
    assert(b@.take(b.len() as int) =~= b@);
    res
}

/// Index of the first `c` in `s`, or the length of `s` when there is none.
pub open spec fn first_index_of(s: Seq<char>, c: char) -> nat
    decreases s.len(),
{
    if s.len() == 0 {
        0
    } else if s[0] == c {
        0
    } else {
        1 + first_index_of(s.drop_first(), c)
    }
}

/// `first_index_of` points at the first occurrence, or past the end when there is none.
pub proof fn lemma_first_index_of(s: Seq<char>, c: char)
    ensures
        first_index_of(s, c) <= s.len(),
        first_index_of(s, c) < s.len() ==> s[first_index_of(s, c) as int] == c,
        forall|j: int| 0 <= j < first_index_of(s, c) ==> s[j] != c,
        first_index_of(s, c) == s.len() <==> !s.contains(c),
    decreases s.len(),
{
    if s.len() > 0 && s[0] != c {
        lemma_first_index_of(s.drop_first(), c);
        assert forall|j: int| 0 <= j < first_index_of(s, c) implies s[j] != c by {
            if j > 0 {
                assert(s[j] == s.drop_first()[j - 1]);
            }
        }
        if s.contains(c) {
            let k = choose|k: int| 0 <= k < s.len() && s[k] == c;
            assert(s.drop_first()[k - 1] == c);
        }
        if s.drop_first().contains(c) {
            let k = choose|k: int| 0 <= k < s.drop_first().len() && s.drop_first()[k] == c;
            assert(s[k + 1] == c);
        }
    }
}

/// Index of the first `c` in `v`, or its length when there is none.
pub fn find_char(v: &Vec<char>, c: char) -> (res: usize)
    ensures
        res == first_index_of(v@, c),
{
    proof {
        lemma_first_index_of(v@, c);
    }
    let mut i: usize = 0;
    while i < v.len()
        invariant
            0 <= i <= v.len(),
            forall|k: int| 0 <= k < i ==> v@[k] != c,
            first_index_of(v@, c) <= v@.len(),
            first_index_of(v@, c) < v@.len() ==> v@[first_index_of(v@, c) as int] == c,
            forall|j: int| 0 <= j < first_index_of(v@, c) ==> v@[j] != c,
        decreases v.len() - i,
    {
        if v[i] == c {
            return i;
        }
        i = i + 1;
    }
    i
}

/// The characters of `v` from `from` up to, not including, `to`.
pub fn subrange_chars(v: &Vec<char>, from: usize, to: usize) -> (res: Vec<char>)
    requires
        from <= to <= v@.len(),
    ensures
        res@ == v@.subrange(from as int, to as int),
{
    let mut res: Vec<char> = Vec::new();
    let mut i: usize = from;
    while i < to
        invariant
            from <= i <= to,
            to <= v@.len(),
            res@ == v@.subrange(from as int, i as int),
        decreases to - i,
    {
        res.push(v[i]);
        i = i + 1;
        assert(res@ =~= v@.subrange(from as int, i as int));
    }
    res
}

/// A `String` holding the text of a string literal or slice.
pub fn string_from(s: &str) -> (res: String)
    ensures
        res@ == s@,
{
    string_of(&chars_of(s))
}

/// `a` to `z`.
pub open spec fn is_ascii_lower(c: char) -> bool {
    'a' <= c <= 'z'
}

/// `A` to `Z`.
pub open spec fn is_ascii_upper(c: char) -> bool {
    'A' <= c <= 'Z'
}

/// `0` to `9`.
pub open spec fn is_ascii_digit(c: char) -> bool {
    '0' <= c <= '9'
}

/// An ASCII letter.
pub open spec fn is_ascii_alpha(c: char) -> bool {
    is_ascii_lower(c) || is_ascii_upper(c)
}

/// An ASCII letter or digit.
pub open spec fn is_ascii_alnum(c: char) -> bool {
    is_ascii_alpha(c) || is_ascii_digit(c)
}

/// Whether `c` is an ASCII lower case letter.
pub fn ascii_lower(c: char) -> (res: bool)
    ensures
        res == is_ascii_lower(c),
{
    'a' <= c && c <= 'z'
}

/// Whether `c` is an ASCII letter.
pub fn ascii_alpha(c: char) -> (res: bool)
    ensures
        res == is_ascii_alpha(c),
{
    ('a' <= c && c <= 'z') || ('A' <= c && c <= 'Z')
}

/// Whether `c` is an ASCII letter or digit.
pub fn ascii_alnum(c: char) -> (res: bool)
    ensures
        res == is_ascii_alnum(c),
{
    ('a' <= c && c <= 'z') || ('A' <= c && c <= 'Z') || ('0' <= c && c <= '9')
}

/// The text of an optional `String`.
pub open spec fn opt_view(o: Option<String>) -> Option<Seq<char>> {
    match o {
        Some(s) => Some(s@),
        None => None,
    }
}

/// Whether `a` holds the text of `lit`.
pub fn chars_eq_str(a: &Vec<char>, lit: &str) -> (res: bool)
    ensures
        res == (a@ == lit@),
{
    chars_equal(a, &chars_of(lit))
}

/// Appending `name` to the path `base`, as `Path::join` does on Unix: an absolute `name`
/// replaces `base`, otherwise a `/` is put between them unless `base` is empty or already
/// ends with one.
pub open spec fn join_path_spec(base: Seq<char>, name: Seq<char>) -> Seq<char> {
    if name.len() > 0 && name[0] == '/' {
        name
    } else if base.len() == 0 || base.last() == '/' {
        base + name
    } else {
        base + seq!['/'] + name
    }
}

/// Appends `name` to the path `base`, as `Path::join` does on Unix.
pub fn join_path(base: &str, name: &str) -> (res: String)
    ensures
        res@ == join_path_spec(base@, name@),
{
    let b = chars_of(base);
    let n = chars_of(name);
    if n.len() > 0 && n[0] == '/' {
        return string_of(&n);
    }
    if b.len() == 0 || b[b.len() - 1] == '/' {
        return string_of(&concat_chars(&b, &n));
    }
    let mut slash: Vec<char> = Vec::new();
    slash.push('/');
    assert(slash@ =~= seq!['/']);
    string_of(&concat_chars(&concat_chars(&b, &slash), &n))
}

/// The text of `a` followed by that of `b`.
pub fn concat_strings(a: &String, b: &String) -> (res: String)
    ensures
        res@ == a@ + b@,
{
    string_of(&concat_chars(&chars_of_string(a), &chars_of_string(b)))
}

/// Whether `a` comes before `b` in the order of `str`: by code points, and a proper prefix
/// before the longer text.
pub open spec fn text_less(a: Seq<char>, b: Seq<char>) -> bool
    decreases a.len(),
{
    if a.len() == 0 {
        b.len() > 0
    } else if b.len() == 0 {
        false
    } else if a[0] != b[0] {
        (a[0] as int) < (b[0] as int)
    } else {
        text_less(a.drop_first(), b.drop_first())
    }
}

/// No text comes before itself.
pub proof fn lemma_text_less_irreflexive(a: Seq<char>)
    ensures
        !text_less(a, a),
    decreases a.len(),
{
    if a.len() > 0 {
        lemma_text_less_irreflexive(a.drop_first());
    }
}

/// The order of texts is transitive.
pub proof fn lemma_text_less_transitive(a: Seq<char>, b: Seq<char>, c: Seq<char>)
    requires
        text_less(a, b),
        text_less(b, c),
    ensures
        text_less(a, c),
    decreases a.len(),
{
    if a.len() > 0 && b.len() > 0 && c.len() > 0 && a[0] == b[0] && b[0] == c[0] {
        lemma_text_less_transitive(a.drop_first(), b.drop_first(), c.drop_first());
    }
}

/// Of two different texts one comes first, and never both.
pub proof fn lemma_text_less_total(a: Seq<char>, b: Seq<char>)
    ensures
        a != b ==> (text_less(a, b) || text_less(b, a)),
        !(text_less(a, b) && text_less(b, a)),
    decreases a.len(),
{
    if a.len() > 0 && b.len() > 0 {
        lemma_text_less_total(a.drop_first(), b.drop_first());
        if a[0] == b[0] && a.drop_first() == b.drop_first() {
            assert(a =~= seq![a[0]] + a.drop_first());
            assert(b =~= seq![b[0]] + b.drop_first());
        }
        if a[0] != b[0] {
            assert((a[0] as int) != (b[0] as int));
        }
    } else if a.len() == 0 && b.len() == 0 {
        assert(a =~= b);
    }
}

/// Whether `a` comes before `b` in the order of `str`.
pub fn is_text_less(a: &Vec<char>, b: &Vec<char>) -> (res: bool)
    ensures
        res == text_less(a@, b@),
{
    let mut i: usize = 0;
    assert(a@.skip(0) =~= a@);
    assert(b@.skip(0) =~= b@);
    while i < a.len() && i < b.len()
        invariant
            i <= a.len(),
            i <= b.len(),
            text_less(a@, b@) == text_less(a@.skip(i as int), b@.skip(i as int)),
        decreases a.len() - i,
    {
        assert(a@.skip(i as int)[0] == a@[i as int]);
        assert(b@.skip(i as int)[0] == b@[i as int]);
        let x = a[i];
        let y = b[i];
        if x != y {
            return x < y;
        }
        assert(a@.skip(i as int).drop_first() =~= a@.skip(i + 1));
        assert(b@.skip(i as int).drop_first() =~= b@.skip(i + 1));
        i = i + 1;
    }
    i < b.len()
}

/// `c` is white space as `char::is_whitespace` defines it (the Unicode `White_Space`
/// property).
pub open spec fn is_white_space(c: char) -> bool {
    let v = c as u32;
    ||| 0x09 <= v <= 0x0d
    ||| v == 0x20
    ||| v == 0x85
    ||| v == 0xa0
    ||| v == 0x1680
    ||| 0x2000 <= v <= 0x200a
    ||| v == 0x2028
    ||| v == 0x2029
    ||| v == 0x202f
    ||| v == 0x205f
    ||| v == 0x3000
}

/// Whether `c` is white space, as `char::is_whitespace` answers.
pub fn white_space(c: char) -> (res: bool)
    ensures
        res == is_white_space(c),
{
    let v = c as u32;
    (0x09 <= v && v <= 0x0d) || v == 0x20 || v == 0x85 || v == 0xa0 || v == 0x1680 || (0x2000
        <= v && v <= 0x200a) || v == 0x2028 || v == 0x2029 || v == 0x202f || v == 0x205f || v
        == 0x3000
}

/// `s` without its white space.
pub open spec fn drop_white_space(s: Seq<char>) -> Seq<char>
    decreases s.len(),
{
    if s.len() == 0 {
        s
    } else if is_white_space(s.last()) {
        drop_white_space(s.drop_last())
    } else {
        drop_white_space(s.drop_last()).push(s.last())
    }
}

/// No character of `s` is white space.
pub open spec fn free_of_white_space(s: Seq<char>) -> bool {
    forall|i: int| 0 <= i < s.len() ==> !is_white_space(#[trigger] s[i])
}

/// Text without white space keeps all its characters when white space is dropped.
pub proof fn lemma_drop_white_space_of_free(s: Seq<char>)
    requires
        free_of_white_space(s),
    ensures
        drop_white_space(s) == s,
    decreases s.len(),
{
    if s.len() > 0 {
        assert(!is_white_space(s[s.len() - 1]));
        assert(free_of_white_space(s.drop_last())) by {
            assert forall|i: int| 0 <= i < s.drop_last().len() implies !is_white_space(
                #[trigger] s.drop_last()[i],
            ) by {
                assert(s.drop_last()[i] == s[i]);
            }
        }
        lemma_drop_white_space_of_free(s.drop_last());
        assert(s.drop_last().push(s.last()) =~= s);
    }
}

/// Dropping white space leaves none.
pub proof fn lemma_drop_white_space_free(s: Seq<char>)
    ensures
        free_of_white_space(drop_white_space(s)),
    decreases s.len(),
{
    if s.len() > 0 {
        lemma_drop_white_space_free(s.drop_last());
    }
}

/// The pieces of a text without white space have none either.
pub proof fn lemma_split_free_of_white_space(s: Seq<char>, sep: char)
    requires
        free_of_white_space(s),
    ensures
        forall|i: int|
            0 <= i < split_spec(s, sep).len() ==> free_of_white_space(
                #[trigger] split_spec(s, sep)[i],
            ),
    decreases s.len(),
{
    if s.len() > 0 {
        assert(free_of_white_space(s.drop_last())) by {
            assert forall|i: int| 0 <= i < s.drop_last().len() implies !is_white_space(
                #[trigger] s.drop_last()[i],
            ) by {
                assert(s.drop_last()[i] == s[i]);
            }
        }
        lemma_split_free_of_white_space(s.drop_last(), sep);
        lemma_split_len(s.drop_last(), sep);
        let rest = split_spec(s.drop_last(), sep);
        assert(!is_white_space(s[s.len() - 1]));
        assert forall|i: int| 0 <= i < split_spec(s, sep).len() implies free_of_white_space(
            #[trigger] split_spec(s, sep)[i],
        ) by {
            if i < rest.len() {
                assert(free_of_white_space(rest[i]));
            }
        }
    }
}

/// Pieces without white space, joined by a separator that is no white space, give text
/// without white space.
pub proof fn lemma_join_free_of_white_space(pieces: Seq<Seq<char>>, sep: char)
    requires
        !is_white_space(sep),
        forall|i: int| 0 <= i < pieces.len() ==> free_of_white_space(#[trigger] pieces[i]),
    ensures
        free_of_white_space(join_spec(pieces, sep)),
    decreases pieces.len(),
{
    if pieces.len() > 1 {
        assert(free_of_white_space(pieces[pieces.len() - 1]));
        assert forall|i: int| 0 <= i < pieces.drop_last().len() implies free_of_white_space(
            #[trigger] pieces.drop_last()[i],
        ) by {
            assert(pieces.drop_last()[i] == pieces[i]);
        }
        lemma_join_free_of_white_space(pieces.drop_last(), sep);
    } else if pieces.len() == 1 {
        assert(free_of_white_space(pieces[0]));
    }
}

/// The characters of `s` that are no white space.
pub fn without_white_space(s: &str) -> (res: Vec<char>)
    ensures
        res@ == drop_white_space(s@),
{
    let chars = chars_of(s);
    let mut res: Vec<char> = Vec::new();
    let mut i: usize = 0;
    while i < chars.len()
        invariant
            i <= chars.len(),
            chars@ == s@,
            res@ == drop_white_space(chars@.take(i as int)),
        decreases chars.len() - i,
    {
        assert(chars@.take(i + 1).drop_last() =~= chars@.take(i as int));
        if !white_space(chars[i]) {
            res.push(chars[i]);
        }
        i = i + 1;
    }
    assert(chars@.take(i as int) =~= chars@);
    res
}

/// The pieces joined into one text, with `sep` between each two.
pub open spec fn join_spec(pieces: Seq<Seq<char>>, sep: char) -> Seq<char>
    decreases pieces.len(),
{
    if pieces.len() == 0 {
        Seq::<char>::empty()
    } else if pieces.len() == 1 {
        pieces[0]
    } else {
        join_spec(pieces.drop_last(), sep).push(sep) + pieces.last()
    }
}

/// Joins the pieces with `sep` between each two, as `join` does on a slice of texts.
pub fn join_chars(pieces: &Vec<Vec<char>>, sep: char) -> (res: Vec<char>)
    ensures
        res@ == join_spec(pieces_view(pieces@), sep),
{
    let mut res: Vec<char> = Vec::new();
    let mut i: usize = 0;
    while i < pieces.len()
        invariant
            i <= pieces.len(),
            res@ == join_spec(pieces_view(pieces@).take(i as int), sep),
        decreases pieces.len() - i,
    {
        let ghost before = res@;
        assert(pieces_view(pieces@).take(i + 1).drop_last() =~= pieces_view(pieces@).take(
            i as int,
        ));
        if i > 0 {
            res.push(sep);
        }
        let mut j: usize = 0;
        let ghost mid = res@;
        while j < pieces[i].len()
            invariant
                i < pieces.len(),
                j <= pieces[i as int]@.len(),
                res@ == mid + pieces[i as int]@.take(j as int),
            decreases pieces[i as int]@.len() - j,
        {
            res.push(pieces[i][j]);
            assert(pieces[i as int]@.take(j + 1) =~= pieces[i as int]@.take(j as int).push(
                pieces[i as int]@[j as int],
            ));
            j = j + 1;
        }
        assert(pieces[i as int]@.take(j as int) =~= pieces[i as int]@);
        if i == 0 {
            assert(res@ =~= join_spec(pieces_view(pieces@).take(1), sep));
        } else {
            assert(res@ =~= join_spec(pieces_view(pieces@).take(i + 1), sep));
        }
        i = i + 1;
    }
    assert(pieces_view(pieces@).take(i as int) =~= pieces_view(pieces@));
    res
}

/// Texts without the separator, joined by it, split back into the same texts.
pub proof fn lemma_split_join(pieces: Seq<Seq<char>>, sep: char)
    requires
        pieces.len() > 0,
        forall|i: int| 0 <= i < pieces.len() ==> !(#[trigger] pieces[i]).contains(sep),
    ensures
        split_spec(join_spec(pieces, sep), sep) == pieces,
    decreases pieces.len(),
{
    if pieces.len() == 1 {
        lemma_split_without_sep(pieces[0], sep);
        assert(pieces =~= seq![pieces[0]]);
    } else {
        let q = pieces.drop_last();
        lemma_split_join(q, sep);
        let x = join_spec(q, sep).push(sep);
        assert(x.drop_last() =~= join_spec(q, sep));
        assert(split_spec(x, sep) == q.push(Seq::<char>::empty()));
        lemma_split_append_plain(x, pieces.last(), sep);
        assert(Seq::<char>::empty() + pieces.last() =~= pieces.last());
        assert(split_spec(join_spec(pieces, sep), sep) =~= pieces);
    }
}

} // verus!
