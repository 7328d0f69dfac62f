//! Environment variables of containers, written `NAME`, `NAME=value` or `NAME:=value`.
use crate::text::{
    ascii_alnum, ascii_alpha, chars_of, chars_of_string, concat_chars, contains_char,
    is_ascii_alnum, is_ascii_alpha, opt_view, string_of, subrange_chars,
};
use vstd::prelude::*;

verus! {

/// An environment variable with an optional value.
#[derive(Debug, Clone, PartialEq, Eq)]
pub struct EnvironmentVariable {
    pub name: String,
    pub value: Option<String>,
}

/// The text is no environment variable.
#[derive(Debug, Clone, Copy, PartialEq, Eq)]
pub struct InvalidEnvironmentVariable;

/// Characters a variable name may hold after its first letter.
pub open spec fn is_env_name_char(c: char) -> bool {
    is_ascii_alnum(c) || c == '_' || c == '-' || c == '\\' || c == '.'
}

/// Length of the longest prefix of `s` made of name characters.
pub open spec fn env_name_len(s: Seq<char>) -> nat
    decreases s.len(),
{
    if s.len() == 0 {
        0
    } else if is_env_name_char(s[0]) {
        1 + env_name_len(s.drop_first())
    } else {
        0
    }
}

/// Name and value of the variable written as `text`: a name that starts with an ASCII
/// letter, then nothing, or `=` or `:=` and a value without line breaks.
pub open spec fn parse_env_spec(text: Seq<char>) -> Option<(Seq<char>, Option<Seq<char>>)> {
    let k = env_name_len(text);
    let name = text.take(k as int);
    let rest = text.skip(k as int);
    if k == 0 || !is_ascii_alpha(text[0]) {
        None
    } else if rest.len() == 0 {
        Some((name, None))
    } else if rest[0] == '=' && !rest.skip(1).contains('\n') {
        Some((name, Some(rest.skip(1))))
    } else if rest.len() >= 2 && rest[0] == ':' && rest[1] == '=' && !rest.skip(2).contains('\n') {
        Some((name, Some(rest.skip(2))))
    } else {
        None
    }
}

/// The text of a variable: `name` or `name=value`.
pub open spec fn env_text(name: Seq<char>, value: Option<Seq<char>>) -> Seq<char> {
    match value {
        None => name,
        Some(v) => name + seq!['='] + v,
    }
}

proof fn lemma_env_name_len(s: Seq<char>)
    ensures
        env_name_len(s) <= s.len(),
        forall|j: int| 0 <= j < env_name_len(s) ==> is_env_name_char(#[trigger] s[j]),
        env_name_len(s) < s.len() ==> !is_env_name_char(s[env_name_len(s) as int]),
    decreases s.len(),
{
    if s.len() > 0 && is_env_name_char(s[0]) {
        lemma_env_name_len(s.drop_first());
        assert forall|j: int| 0 <= j < env_name_len(s) implies is_env_name_char(#[trigger] s[j]) by {
            if j > 0 {
                assert(s[j] == s.drop_first()[j - 1]);
            }
        }
    }
}

fn name_char(c: char) -> (res: bool)
    ensures
        res == is_env_name_char(c),
{
    ascii_alnum(c) || c == '_' || c == '-' || c == '\\' || c == '.'
}

impl EnvironmentVariable {
    /// Reads a variable written as `NAME`, `NAME=value` or `NAME:=value`.
    pub fn from_str(s: &str) -> (res: Result<Self, InvalidEnvironmentVariable>)
        ensures
            match res {
                Ok(e) => parse_env_spec(s@) == Some((e.name@, opt_view(e.value))),
                Err(_) => parse_env_spec(s@) is None,
            },
    {
        let text = chars_of(s);
        let n = text.len();
        proof {
            lemma_env_name_len(text@);
        }
        let mut k: usize = 0;
        while k < n && name_char(text[k])
            invariant
                0 <= k <= n,
                n == text.len(),
                forall|j: int| 0 <= j < k ==> is_env_name_char(#[trigger] text@[j]),
                env_name_len(text@) <= text@.len(),
                forall|j: int| 0 <= j < env_name_len(text@) ==> is_env_name_char(#[trigger] text@[j]),
                env_name_len(text@) < text@.len() ==> !is_env_name_char(
                    text@[env_name_len(text@) as int],
                ),
            decreases n - k,
        {
            k = k + 1;
        }
        assert(k == env_name_len(text@)) by {
            if k < env_name_len(text@) {
                assert(is_env_name_char(text@[k as int]));
            }
            if k > env_name_len(text@) {
                assert(is_env_name_char(text@[env_name_len(text@) as int]));
            }
        }
        if k == 0 || !ascii_alpha(text[0]) {
            return Err(InvalidEnvironmentVariable);
        }
        let name = subrange_chars(&text, 0, k);
        assert(name@ =~= text@.take(k as int));
        let rest = subrange_chars(&text, k, n);
        assert(rest@ =~= text@.skip(k as int));
        if rest.len() == 0 {
            return Ok(EnvironmentVariable { name: string_of(&name), value: None });
        }
        if rest[0] == '=' {
            let value = subrange_chars(&rest, 1, rest.len());
            assert(value@ =~= rest@.skip(1));
            if !contains_char(&value, '\n') {
                return Ok(EnvironmentVariable { name: string_of(&name), value: Some(string_of(&value)) });
            }
            return Err(InvalidEnvironmentVariable);
        }
        if rest.len() >= 2 && rest[0] == ':' && rest[1] == '=' {
            let value = subrange_chars(&rest, 2, rest.len());
            assert(value@ =~= rest@.skip(2));
            if !contains_char(&value, '\n') {
                return Ok(EnvironmentVariable { name: string_of(&name), value: Some(string_of(&value)) });
            }
        }
        Err(InvalidEnvironmentVariable)
    }

    /// The variable as text: `name` or `name=value`.
    pub fn to_string(&self) -> (res: String)
        ensures
            res@ == env_text(self.name@, opt_view(self.value)),
    {
        let name = chars_of_string(&self.name);
        match &self.value {
            None => string_of(&name),
            Some(value) => {
                let mut eq: Vec<char> = Vec::new();
                eq.push('=');
                assert(eq@ =~= seq!['=']);
                let left = concat_chars(&name, &eq);
                let v = chars_of_string(value);
                string_of(&concat_chars(&left, &v))
            },
        }
    }
}

/// A name made of name characters, followed by something that does not start with one.
proof fn lemma_env_name_len_prefix(name: Seq<char>, rest: Seq<char>)
    requires
        forall|j: int| 0 <= j < name.len() ==> is_env_name_char(#[trigger] name[j]),
        rest.len() == 0 || !is_env_name_char(rest[0]),
    ensures
        env_name_len(name + rest) == name.len(),
    decreases name.len(),
{
    if name.len() == 0 {
        assert(name + rest =~= rest);
    } else {
        assert((name + rest).drop_first() =~= name.drop_first() + rest);
        assert((name + rest)[0] == name[0]);
        assert forall|j: int| 0 <= j < name.drop_first().len() implies is_env_name_char(
            #[trigger] name.drop_first()[j],
        ) by {
            assert(name.drop_first()[j] == name[j + 1]);
        }
        lemma_env_name_len_prefix(name.drop_first(), rest);
    }
}

/// A variable whose name follows the grammar and whose value holds no line break reads back
/// from its text unchanged.
pub proof fn law_env_text_roundtrip(name: Seq<char>, value: Option<Seq<char>>)
    requires
        name.len() >= 1,
        is_ascii_alpha(name[0]),
        forall|j: int| 0 <= j < name.len() ==> is_env_name_char(#[trigger] name[j]),
        value matches Some(v) ==> !v.contains('\n'),
    ensures
        parse_env_spec(env_text(name, value)) == Some((name, value)),
{
    match value {
        None => {
            lemma_env_name_len_prefix(name, Seq::<char>::empty());
            assert(name + Seq::<char>::empty() =~= name);
            assert(name.take(name.len() as int) =~= name);
            assert(name.skip(name.len() as int) =~= Seq::<char>::empty());
        },
        Some(v) => {
            let rest = seq!['='] + v;
            let t = name + rest;
            assert(env_text(name, value) =~= t);
            lemma_env_name_len_prefix(name, rest);
            assert(t.take(name.len() as int) =~= name);
            assert(t.skip(name.len() as int) =~= rest);
            assert(rest.skip(1) =~= v);
            assert(t[0] == name[0]);
        },
    }
}

} // verus!
