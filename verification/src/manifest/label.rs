//! Container labels, written `name` or `name=value`.
use crate::text::{
    ascii_alnum, ascii_lower, chars_of, contains_char, find_char, first_index_of, is_ascii_alnum,
    is_ascii_lower, lemma_first_index_of, opt_view, string_of, subrange_chars,
};
use vstd::prelude::*;

verus! {

/// A label of a container, with an optional value.
#[derive(Debug, Clone, PartialEq, Eq)]
pub struct Label {
    pub label: String,
    pub value: Option<String>,
}

/// The text is no label.
#[derive(Debug, Clone, Copy, PartialEq, Eq)]
pub struct InvalidLabel;

/// `-` and `.` may stand between the letters and digits of a label name.
pub open spec fn is_label_separator(c: char) -> bool {
    c == '-' || c == '.'
}

/// A label name: ASCII letters, digits, `-` and `.`, starting and ending with a lower case
/// letter, with no two separators next to each other.
pub open spec fn label_name_ok(l: Seq<char>) -> bool {
    &&& l.len() >= 1
    &&& is_ascii_lower(l[0])
    &&& is_ascii_lower(l.last())
    &&& forall|i: int| 0 <= i < l.len() ==> is_ascii_alnum(#[trigger] l[i]) || is_label_separator(l[i])
    &&& forall|i: int|
        0 <= i < l.len() - 1 ==> !(is_label_separator(#[trigger] l[i]) && is_label_separator(
            l[i + 1],
        ))
}

/// Name and value of the label written as `text`: the name runs up to the first `=`, and
/// the value, if any, follows it and holds no line break.
pub open spec fn parse_label_spec(text: Seq<char>) -> Option<(Seq<char>, Option<Seq<char>>)> {
    let k = first_index_of(text, '=');
    let name = text.take(k as int);
    if !label_name_ok(name) {
        None
    } else if k == text.len() {
        Some((name, None))
    } else {
        let value = text.skip(k as int + 1);
        if value.contains('\n') {
            None
        } else {
            Some((name, Some(value)))
        }
    }
}

fn is_label_name(l: &Vec<char>) -> (res: bool)
    ensures
        res == label_name_ok(l@),
{
    let n = l.len();
    if n == 0 {
        return false;
    }
    if !ascii_lower(l[0]) || !ascii_lower(l[n - 1]) {
        return false;
    }
    let mut i: usize = 0;
    while i < n
        invariant
            0 <= i <= n,
            n == l.len(),
            forall|k: int| 0 <= k < i ==> is_ascii_alnum(#[trigger] l@[k]) || is_label_separator(l@[k]),
            forall|k: int|
                0 <= k < i && k < n - 1 ==> !(is_label_separator(#[trigger] l@[k])
                    && is_label_separator(l@[k + 1])),
        decreases n - i,
    {
        let c = l[i];
        let sep = c == '-' || c == '.';
        if !ascii_alnum(c) && !sep {
            return false;
        }
        if sep && i + 1 < n {
            let d = l[i + 1];
            if d == '-' || d == '.' {
                return false;
            }
        }
        i = i + 1;
    }
    true
}

impl Label {
    /// Reads a label written as `name` or `name=value`.
    pub fn from_str(s: &str) -> (res: Result<Self, InvalidLabel>)
        ensures
            match res {
                Ok(l) => parse_label_spec(s@) == Some((l.label@, opt_view(l.value))),
                Err(_) => parse_label_spec(s@) is None,
            },
    {
        let text = chars_of(s);
        proof {
            lemma_first_index_of(text@, '=');
        }
        let k = find_char(&text, '=');
        let name = subrange_chars(&text, 0, k);
        assert(name@ == text@.take(k as int));
        if !is_label_name(&name) {
            return Err(InvalidLabel);
        }
        if k == text.len() {
            return Ok(Label { label: string_of(&name), value: None });
        }
        let value = subrange_chars(&text, k + 1, text.len());
        assert(value@ =~= text@.skip(k + 1));
        if contains_char(&value, '\n') {
            return Err(InvalidLabel);
        }
        Ok(Label { label: string_of(&name), value: Some(string_of(&value)) })
    }
}

/// A name of lower case letters in which single dots or dashes may stand between letters:
/// it starts and ends with a letter, and no two dots or dashes follow each other.
pub open spec fn dotted_lower_name(n: Seq<char>) -> bool {
    &&& n.len() >= 1
    &&& 'a' <= n[0] <= 'z'
    &&& 'a' <= n[n.len() - 1] <= 'z'
    &&& forall|i: int| 0 <= i < n.len() ==> ('a' <= #[trigger] n[i] <= 'z' || n[i] == '.' || n[i] == '-')
    &&& forall|i: int|
        0 <= i < n.len() - 1 ==> !((#[trigger] n[i] == '.' || n[i] == '-') && (n[i + 1] == '.'
            || n[i + 1] == '-'))
}

/// Every name of lower case letters with single dots or dashes between them is a label
/// name: alone it is a label without value, and followed by `=` and a value without a line
/// break it is that label with that value.
pub proof fn law_dotted_names_are_labels(name: Seq<char>, value: Seq<char>)
    requires
        dotted_lower_name(name),
    ensures
        parse_label_spec(name) == Some((name, None::<Seq<char>>)),
        !value.contains('\n') ==> parse_label_spec(name + seq!['='] + value) == Some(
            (name, Some(value)),
        ),
{
    assert(label_name_ok(name)) by {
        assert forall|i: int| 0 <= i < name.len() implies is_ascii_alnum(#[trigger] name[i])
            || is_label_separator(name[i]) by {}
        assert forall|i: int| 0 <= i < name.len() - 1 implies !(is_label_separator(#[trigger] name[i])
            && is_label_separator(name[i + 1])) by {}
    }
    assert(!name.contains('=')) by {
        if name.contains('=') {
            let k = choose|k: int| 0 <= k < name.len() && name[k] == '=';
            assert('a' <= name[k] <= 'z' || name[k] == '.' || name[k] == '-');
        }
    }
    lemma_first_index_of(name, '=');
    assert(name.take(name.len() as int) =~= name);
    let text = name + seq!['='] + value;
    lemma_first_index_of(text, '=');
    let k = first_index_of(text, '=');
    assert(text[name.len() as int] == '=');
    if k < name.len() {
        assert(text[k as int] == name[k as int]);
    }
    assert(k == name.len());
    assert(text.take(k as int) =~= name);
    assert(text.skip(k as int + 1) =~= value);
}

} // verus!
