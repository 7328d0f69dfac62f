//! The parts of app manifests: ports, mounts, environment, labels, devices, config files,
//! features and dependencies.
pub mod port;
pub mod label;
pub mod environment_variable;
pub mod mount;
pub mod device;
pub mod config_file;
pub mod providers;
pub mod multi;
pub mod app_manifest;

use crate::text::{
    is_text_less, join_chars, join_spec, lemma_split_join, lemma_split_len,
    lemma_split_pieces_free_of_sep, lemma_text_less_irreflexive, lemma_text_less_total,
    lemma_text_less_transitive, pieces_view, split_at_char, split_spec, string_of,
    subrange_chars, chars_of_string, drop_white_space, text_less, without_white_space, chars_of,
    free_of_white_space, is_white_space, lemma_drop_white_space_free, lemma_drop_white_space_of_free,
    lemma_join_free_of_white_space, lemma_split_free_of_white_space,
};
use crate::json::{object_get, object_index, JsonValue};
use vstd::prelude::*;

verus! {

broadcast use vstd::seq_lib::group_to_multiset_ensures;

/// Where `x` goes into the sorted list `s`: behind every text that does not come after it.
pub open spec fn insert_position(s: Seq<Seq<char>>, x: Seq<char>) -> nat
    decreases s.len(),
{
    if s.len() == 0 {
        0
    } else if text_less(x, s[0]) {
        0
    } else {
        1 + insert_position(s.drop_first(), x)
    }
}

/// The texts in the order of `str`, equal texts kept in their order: what sorting a list of
/// texts gives.
pub open spec fn sort_texts(s: Seq<Seq<char>>) -> Seq<Seq<char>>
    decreases s.len(),
{
    if s.len() == 0 {
        s
    } else {
        let r = sort_texts(s.drop_last());
        r.insert(insert_position(r, s.last()) as int, s.last())
    }
}

/// No text of the list comes before one in front of it.
pub open spec fn texts_sorted(s: Seq<Seq<char>>) -> bool {
    forall|i: int, j: int| 0 <= i < j < s.len() ==> !text_less(s[j], s[i])
}

proof fn lemma_insert_position(s: Seq<Seq<char>>, x: Seq<char>)
    ensures
        insert_position(s, x) <= s.len(),
        forall|j: int| 0 <= j < insert_position(s, x) ==> !text_less(x, #[trigger] s[j]),
        insert_position(s, x) < s.len() ==> text_less(x, s[insert_position(s, x) as int]),
    decreases s.len(),
{
    if s.len() > 0 && !text_less(x, s[0]) {
        lemma_insert_position(s.drop_first(), x);
        assert forall|j: int| 0 <= j < insert_position(s, x) implies !text_less(
            x,
            #[trigger] s[j],
        ) by {
            if j > 0 {
                assert(s[j] == s.drop_first()[j - 1]);
            }
        }
    }
}

proof fn lemma_insert_keeps_sorted(s: Seq<Seq<char>>, x: Seq<char>)
    requires
        texts_sorted(s),
    ensures
        texts_sorted(s.insert(insert_position(s, x) as int, x)),
{
    let p = insert_position(s, x) as int;
    lemma_insert_position(s, x);
    let t = s.insert(p, x);
    assert forall|i: int, j: int| 0 <= i < j < t.len() implies !text_less(t[j], t[i]) by {
        if i == p {
            let sj = s[j - 1];
            lemma_text_less_total(s[p], sj);
            if s[p] != sj {
                lemma_text_less_transitive(x, s[p], sj);
            }
            lemma_text_less_total(x, sj);
        } else if j == p {
            assert(t[i] == s[i]);
        } else {
            let si = if i < p { i } else { i - 1 };
            let sj = if j < p { j } else { j - 1 };
            assert(t[i] == s[si]);
            assert(t[j] == s[sj]);
        }
    }
}

/// Sorting gives a sorted list with the same texts, each as often as before.
pub proof fn lemma_sort_texts(s: Seq<Seq<char>>)
    ensures
        texts_sorted(sort_texts(s)),
        sort_texts(s).to_multiset() == s.to_multiset(),
        sort_texts(s).len() == s.len(),
    decreases s.len(),
{
    if s.len() > 0 {
        let r = sort_texts(s.drop_last());
        lemma_sort_texts(s.drop_last());
        lemma_insert_position(r, s.last());
        lemma_insert_keeps_sorted(r, s.last());
        assert(s.drop_last().push(s.last()) =~= s);
    }
}

fn position_in_sorted(v: &Vec<Vec<char>>, x: &Vec<char>) -> (res: usize)
    ensures
        res == insert_position(pieces_view(v@), x@),
        res <= v@.len(),
{
    let ghost s = pieces_view(v@);
    proof {
        lemma_insert_position(s, x@);
    }
    let mut k: usize = 0;
    assert(s.skip(0) =~= s);
    while k < v.len() && !is_text_less(x, &v[k])
        invariant
            k <= v.len(),
            s == pieces_view(v@),
            insert_position(s, x@) == k + insert_position(s.skip(k as int), x@),
        decreases v.len() - k,
    {
        assert(s.skip(k as int)[0] == v@[k as int]@);
        assert(s.skip(k as int).drop_first() =~= s.skip(k + 1));
        k = k + 1;
    }
    if k < v.len() {
        assert(s.skip(k as int)[0] == v@[k as int]@);
    }
    k
}

/// Sorts texts in the order of `str`.
pub fn sort_pieces(v: &Vec<Vec<char>>) -> (res: Vec<Vec<char>>)
    ensures
        pieces_view(res@) == sort_texts(pieces_view(v@)),
{
    let mut res: Vec<Vec<char>> = Vec::new();
    let mut i: usize = 0;
    while i < v.len()
        invariant
            i <= v.len(),
            pieces_view(res@) == sort_texts(pieces_view(v@).take(i as int)),
        decreases v.len() - i,
    {
        let x = subrange_chars(&v[i], 0, v[i].len());
        assert(x@ =~= v@[i as int]@);
        let k = position_in_sorted(&res, &x);
        let ghost before = pieces_view(res@);
        res.insert(k, x);
        assert(pieces_view(v@).take(i + 1).drop_last() =~= pieces_view(v@).take(i as int));
        assert(pieces_view(res@) =~= before.insert(k as int, x@));
        i = i + 1;
    }
    assert(pieces_view(v@).take(i as int) =~= pieces_view(v@));
    res
}

/// Whether `text` matches the pattern of feature names, `^([\w.-]+)$`: one or more word
/// characters (in the Unicode sense of the `regex` crate), dots and dashes.
pub uninterp spec fn is_feature_name(text: Seq<char>) -> bool;

/// Matches `text` against `^([\w.-]+)$` with the `regex` crate; the contract claims the
/// answer `is_feature_name` names, which depends on the text alone.
#[verifier::external_body]
fn matches_feature_pattern(text: &str) -> (res: bool)
    ensures
        res == is_feature_name(text@),
{
    regex::Regex::new(r"^([\w.-]+)$").unwrap().is_match(text)
}

/// The name of a feature that apps provide and depend on.
#[derive(Debug, Clone, PartialEq, Eq, Hash)]
pub struct FeatureKey(String);

impl View for FeatureKey {
    type V = Seq<char>;

    closed spec fn view(&self) -> Seq<char> {
        self.0@
    }
}

impl FeatureKey {
    /// Reads a feature name; it fails unless the whole text is made of word characters, dots
    /// and dashes, and is not empty.
    pub fn from_str(s: &str) -> (res: Result<Self, ()>)
        ensures
            match res {
                Ok(k) => is_feature_name(s@) && k@ == s@,
                Err(_) => !is_feature_name(s@),
            },
    {
        if matches_feature_pattern(s) {
            Ok(FeatureKey(crate::text::string_from(s)))
        } else {
            Err(())
        }
    }

    /// The feature of authentication providers, `auth`.
    pub fn auth() -> (res: Self)
        ensures
            res@ == seq!['a', 'u', 't', 'h'],
    {
        proof {
            reveal_strlit("auth");
        }
        FeatureKey(crate::text::string_from("auth"))
    }

    /// The name.
    pub fn as_str(&self) -> (res: &str)
        ensures
            res@ == self@,
    {
        self.0.as_str()
    }

    /// The name.
    pub fn to_string(&self) -> (res: String)
        ensures
            res@ == self@,
    {
        self.0.clone()
    }
}

/// The text a dependency key is kept as: the key without white space, its alternatives
/// (separated by `|`) sorted and joined again by `|`.
pub open spec fn dependency_key_text(s: Seq<char>) -> Seq<char> {
    join_spec(sort_texts(split_spec(drop_white_space(s), '|')), '|')
}

/// The features a dependency may be met by, one of them enough.
#[derive(Debug, Clone, PartialEq, Eq, Hash)]
pub struct DependencyKey(String);

impl View for DependencyKey {
    type V = Seq<char>;

    closed spec fn view(&self) -> Seq<char> {
        self.0@
    }
}

impl DependencyKey {
    /// The key of `s`, written in one normal form whatever white space and order of
    /// alternatives `s` has.
    pub fn new(s: &str) -> (res: Self)
        ensures
            res@ == dependency_key_text(s@),
    {
        let value = without_white_space(s);
        let pieces = split_at_char(&value, '|');
        let sorted = sort_pieces(&pieces);
        DependencyKey(string_of(&join_chars(&sorted, '|')))
    }

    /// The features of the key, in the order of the key.
    pub fn features(&self) -> (res: Vec<FeatureKey>)
        ensures
            res@.len() == split_spec(self@, '|').len(),
            forall|i: int| 0 <= i < res@.len() ==> (#[trigger] res@[i])@ == split_spec(self@, '|')[i],
    {
        let pieces = split_at_char(&chars_of_string(&self.0), '|');
        let mut res: Vec<FeatureKey> = Vec::new();
        let mut i: usize = 0;
        while i < pieces.len()
            invariant
                i <= pieces.len(),
                pieces_view(pieces@) == split_spec(self@, '|'),
                res@.len() == i,
                forall|k: int| 0 <= k < i ==> (#[trigger] res@[k])@ == pieces@[k]@,
            decreases pieces.len() - i,
        {
            res.push(FeatureKey(string_of(&pieces[i])));
            i = i + 1;
        }
        res
    }

    /// The key as text.
    pub fn as_str(&self) -> (res: &str)
        ensures
            res@ == self@,
    {
        self.0.as_str()
    }

    /// The key as text.
    pub fn to_string(&self) -> (res: String)
        ensures
            res@ == self@,
    {
        self.0.clone()
    }
}

/// The features of a dependency key are the alternatives it was written with, without white
/// space and sorted: reading a key never loses, adds or merges alternatives.
pub proof fn law_dependency_key_features(s: Seq<char>)
    ensures
        split_spec(dependency_key_text(s), '|') == sort_texts(split_spec(drop_white_space(s), '|')),
        texts_sorted(split_spec(dependency_key_text(s), '|')),
        split_spec(dependency_key_text(s), '|').to_multiset() == split_spec(
            drop_white_space(s),
            '|',
        ).to_multiset(),
{
    let p = split_spec(drop_white_space(s), '|');
    let q = sort_texts(p);
    lemma_sort_texts(p);
    lemma_split_len(drop_white_space(s), '|');
    lemma_split_pieces_free_of_sep(drop_white_space(s), '|');
    assert forall|i: int| 0 <= i < q.len() implies !(#[trigger] q[i]).contains('|') by {
        assert(q.to_multiset().count(q[i]) > 0);
        assert(p.to_multiset().count(q[i]) > 0);
        let k = choose|k: int| 0 <= k < p.len() && p[k] == q[i];
        assert(!p[k].contains('|'));
    }
    lemma_split_join(q, '|');
}

/// Two sorted lists of texts that hold the same texts as often are the same list.
proof fn lemma_sorted_same_multiset(p: Seq<Seq<char>>, q: Seq<Seq<char>>)
    requires
        texts_sorted(p),
        texts_sorted(q),
        p.to_multiset() == q.to_multiset(),
    ensures
        p == q,
    decreases p.len(),
{
    assert(p.len() == q.len()) by {
        assert(p.len() == p.to_multiset().len());
        assert(q.len() == q.to_multiset().len());
    }
    if p.len() == 0 {
        assert(p =~= q);
    } else {
        assert(p.to_multiset().count(p[0]) > 0);
        assert(q.contains(p[0]));
        let k = choose|k: int| 0 <= k < q.len() && q[k] == p[0];
        assert(q.to_multiset().count(q[0]) > 0);
        assert(p.contains(q[0]));
        let m = choose|m: int| 0 <= m < p.len() && p[m] == q[0];
        lemma_text_less_total(p[0], q[0]);
        if p[0] != q[0] {
            if text_less(p[0], q[0]) {
                assert(k != 0);
                assert(!text_less(q[k], q[0]));
            } else {
                assert(m != 0);
                assert(!text_less(p[m], p[0]));
            }
        }
        let p1 = p.remove(0);
        let q1 = q.remove(0);
        assert(p1.to_multiset() == p.to_multiset().remove(p[0]));
        assert(q1.to_multiset() == q.to_multiset().remove(q[0]));
        assert(texts_sorted(p1)) by {
            assert forall|i: int, j: int| 0 <= i < j < p1.len() implies !text_less(p1[j], p1[i]) by {
                assert(p1[i] == p[i + 1] && p1[j] == p[j + 1]);
            }
        }
        assert(texts_sorted(q1)) by {
            assert forall|i: int, j: int| 0 <= i < j < q1.len() implies !text_less(q1[j], q1[i]) by {
                assert(q1[i] == q[i + 1] && q1[j] == q[j + 1]);
            }
        }
        lemma_sorted_same_multiset(p1, q1);
        assert(p =~= seq![p[0]] + p1);
        assert(q =~= seq![q[0]] + q1);
    }
}

/// Two keys written with the same alternatives, as often each, in whatever order and with
/// whatever white space, are the same key.
pub proof fn law_dependency_key_same_features(s: Seq<char>, t: Seq<char>)
    requires
        split_spec(drop_white_space(s), '|').to_multiset() == split_spec(
            drop_white_space(t),
            '|',
        ).to_multiset(),
    ensures
        dependency_key_text(s) == dependency_key_text(t),
{
    let p = split_spec(drop_white_space(s), '|');
    let q = split_spec(drop_white_space(t), '|');
    lemma_sort_texts(p);
    lemma_sort_texts(q);
    lemma_sorted_same_multiset(sort_texts(p), sort_texts(q));
}

/// Reading the text of a key again gives the same key.
pub proof fn law_dependency_key_text_stable(s: Seq<char>)
    ensures
        dependency_key_text(dependency_key_text(s)) == dependency_key_text(s),
{
    let w = drop_white_space(s);
    let p = split_spec(w, '|');
    let q = sort_texts(p);
    let k = dependency_key_text(s);
    law_dependency_key_features(s);
    lemma_sort_texts(p);
    lemma_drop_white_space_free(s);
    lemma_split_free_of_white_space(w, '|');
    assert forall|i: int| 0 <= i < q.len() implies free_of_white_space(#[trigger] q[i]) by {
        assert(q.to_multiset().count(q[i]) > 0);
        assert(p.contains(q[i]));
        let j = choose|j: int| 0 <= j < p.len() && p[j] == q[i];
        assert(free_of_white_space(p[j]));
    }
    assert(!is_white_space('|'));
    lemma_join_free_of_white_space(q, '|');
    lemma_drop_white_space_of_free(k);
    assert(split_spec(k, '|') == q);
    lemma_sort_texts(q);
    lemma_sorted_same_multiset(sort_texts(q), q);
}

/// The texts of `s` without repetitions, each where it first occurs.
pub open spec fn distinct_texts(s: Seq<Seq<char>>) -> Seq<Seq<char>>
    decreases s.len(),
{
    if s.len() == 0 {
        s
    } else {
        let r = distinct_texts(s.drop_last());
        if r.contains(s.last()) {
            r
        } else {
            r.push(s.last())
        }
    }
}

/// The first of `features` that names no entry of `entries`.
pub open spec fn first_missing(entries: Seq<(String, JsonValue)>, features: Seq<Seq<char>>) -> Option<
    Seq<char>,
>
    decreases features.len(),
{
    if features.len() == 0 {
        None
    } else if object_get(entries, features[0]) is None {
        Some(features[0])
    } else {
        first_missing(entries, features.drop_first())
    }
}

/// How a dependency can be met.
#[derive(Debug, PartialEq, Eq)]
pub enum Dependency {
    /// By any one of the features, each with its configuration.
    OneOf(Vec<(FeatureKey, JsonValue)>),
    /// By the one feature, with the configuration.
    One(FeatureKey, JsonValue),
}

/// Why the configuration of a dependency does not fit its key.
#[derive(Debug, Clone, PartialEq, Eq)]
pub enum ParseDependencyError {
    /// A key of several features needs an object of configurations.
    NoProperties,
    /// The object does not hold one configuration per feature.
    FeaturesNotMatchingProperties,
    /// The feature has no configuration.
    NoMatchingProperty(String),
}

proof fn lemma_object_get_remove(entries: Seq<(String, JsonValue)>, i: int, key: Seq<char>)
    requires
        0 <= i < entries.len(),
        entries[i].0@ != key,
    ensures
        object_get(entries.remove(i), key) == object_get(entries, key),
    decreases entries.len(),
{
    if i > 0 {
        lemma_object_get_remove(entries.drop_first(), i - 1, key);
        assert(entries.remove(i).drop_first() =~= entries.drop_first().remove(i - 1));
    } else {
        assert(entries.remove(0) =~= entries.drop_first());
    }
}

/// What reading the configuration `value` of the dependency with key text `key` gives:
/// for a single feature that feature with any value; for several an object with one entry
/// per feature, each feature (once, where it is named first) taking its entry; else the
/// error of the first thing that does not fit.
pub open spec fn dependency_result(
    key: Seq<char>,
    value: JsonValue,
    res: Result<Dependency, ParseDependencyError>,
) -> bool {
    let fs = split_spec(key, '|');
    if fs.len() == 1 {
        res matches Ok(Dependency::One(f, v)) && f@ == fs[0] && v == value
    } else {
        match value {
            JsonValue::Object(entries) => if entries@.len() != fs.len() {
                res matches Err(ParseDependencyError::FeaturesNotMatchingProperties)
            } else {
                match first_missing(entries@, fs) {
                    Some(f) => res matches Err(ParseDependencyError::NoMatchingProperty(n)) && n@
                        == f,
                    None => res matches Ok(Dependency::OneOf(list)) && list@.len()
                        == distinct_texts(fs).len() && forall|k: int|
                        0 <= k < list@.len() ==> (#[trigger] list@[k]).0@ == distinct_texts(fs)[k]
                            && Some(list@[k].1) == object_get(entries@, distinct_texts(fs)[k]),
                }
            },
            _ => res matches Err(ParseDependencyError::NoProperties),
        }
    }
}

impl Dependency {
    /// Reads the configuration of the dependency `key`: for a single feature any value; for
    /// several an object with one entry per feature, each feature taking its entry.
    pub fn try_from(key: &DependencyKey, value: JsonValue) -> (res: Result<Self, ParseDependencyError>)
        ensures
            dependency_result(key@, value, res),
    {
        let features = key.features();
        let ghost fs = split_spec(key@, '|');
        if features.len() == 1 {
            return Ok(Dependency::One(FeatureKey(features[0].to_string()), value));
        }
        let mut entries = match value {
            JsonValue::Object(entries) => entries,
            _ => return Err(ParseDependencyError::NoProperties),
        };
        let ghost orig = entries@;
        if entries.len() != features.len() {
            return Err(ParseDependencyError::FeaturesNotMatchingProperties);
        }
        let mut list: Vec<(FeatureKey, JsonValue)> = Vec::new();
        let mut taken: Vec<Vec<char>> = Vec::new();
        let mut i: usize = 0;
        assert(fs.take(0) =~= Seq::<Seq<char>>::empty());
        assert(fs.skip(0) =~= fs);
        assert(pieces_view(taken@) =~= Seq::<Seq<char>>::empty());
        while i < features.len()
            invariant
                i <= features@.len(),
                features@.len() == fs.len(),
                fs == split_spec(key@, '|'),
                fs.len() != 1,
                value matches JsonValue::Object(e) && e@ == orig,
                orig.len() == fs.len(),
                forall|k: int| 0 <= k < features@.len() ==> (#[trigger] features@[k])@ == fs[k],
                pieces_view(taken@) == distinct_texts(fs.take(i as int)),
                list@.len() == taken@.len(),
                forall|k: int|
                    0 <= k < list@.len() ==> (#[trigger] list@[k]).0@ == taken@[k]@ && Some(
                        list@[k].1,
                    ) == object_get(orig, taken@[k]@),
                forall|g: Seq<char>|
                    !distinct_texts(fs.take(i as int)).contains(g) ==> object_get(entries@, g)
                        == object_get(orig, g),
                first_missing(orig, fs) == first_missing(orig, fs.skip(i as int)),
            decreases features@.len() - i,
        {
            let f = chars_of(features[i].as_str());
            let ghost fi = fs[i as int];
            assert(fs.take(i + 1).drop_last() =~= fs.take(i as int));
            assert(fs.skip(i as int)[0] == fi);
            assert(fs.skip(i as int).drop_first() =~= fs.skip(i + 1));
            if contains_text(&taken, &f) {
                assert(object_get(orig, fi) is Some) by {
                    let k = choose|k: int| 0 <= k < taken@.len() && pieces_view(taken@)[k] == fi;
                    assert(list@[k].0@ == taken@[k]@);
                }
                assert(distinct_texts(fs.take(i + 1)) == distinct_texts(fs.take(i as int)));
            } else {
                match object_index(&entries, features[i].as_str()) {
                    None => {
                        assert(!distinct_texts(fs.take(i as int)).contains(fi));
                        assert(object_get(orig, fi) is None);
                        assert(first_missing(orig, fs) == Some(fi));
                        return Err(ParseDependencyError::NoMatchingProperty(features[i].to_string()));
                    },
                    Some(j) => {
                        let ghost before = entries@;
                        let (_, v) = entries.remove(j);
                        assert forall|g: Seq<char>|
                            !distinct_texts(fs.take(i + 1)).contains(g) implies object_get(
                                entries@,
                                g,
                            ) == object_get(orig, g) by {
                            assert(distinct_texts(fs.take(i + 1)) == distinct_texts(
                                fs.take(i as int),
                            ).push(fi));
                            if g != fi {
                                lemma_object_get_remove(before, j as int, g);
                                assert(!distinct_texts(fs.take(i as int)).contains(g)) by {
                                    if distinct_texts(fs.take(i as int)).contains(g) {
                                        let k = choose|k: int|
                                            0 <= k < distinct_texts(fs.take(i as int)).len()
                                                && distinct_texts(fs.take(i as int))[k] == g;
                                        assert(distinct_texts(fs.take(i + 1))[k] == g);
                                    }
                                }
                            } else {
                                assert(distinct_texts(fs.take(i + 1))[distinct_texts(
                                    fs.take(i as int),
                                ).len() as int] == g);
                            }
                        }
                        list.push((FeatureKey(string_of(&f)), v));
                        taken.push(f);
                        assert(pieces_view(taken@) =~= distinct_texts(fs.take(i + 1)));
                    },
                }
            }
            i = i + 1;
        }
        assert(fs.take(i as int) =~= fs);
        assert(fs.skip(i as int) =~= Seq::<Seq<char>>::empty());
        Ok(Dependency::OneOf(list))
    }
}

/// Whether `v` holds the text `x`.
fn contains_text(v: &Vec<Vec<char>>, x: &Vec<char>) -> (res: bool)
    ensures
        res == pieces_view(v@).contains(x@),
{
    let mut i: usize = 0;
    while i < v.len()
        invariant
            i <= v.len(),
            forall|k: int| 0 <= k < i ==> pieces_view(v@)[k] != x@,
        decreases v.len() - i,
    {
        if crate::text::chars_equal(&v[i], x) {
            assert(pieces_view(v@)[i as int] == x@);
            return true;
        }
        i = i + 1;
    }
    false
}

/// Whether the configuration `value` fits a dependency key with the text `key`.
pub open spec fn dependency_fits(key: Seq<char>, value: JsonValue) -> bool {
    let fs = split_spec(key, '|');
    fs.len() == 1 || match value {
        JsonValue::Object(entries) => entries@.len() == fs.len() && first_missing(entries@, fs) is None,
        _ => false,
    }
}

impl Dependency {
    /// The configuration of the dependency as one object: each feature with its
    /// configuration, in order.
    pub fn config_json(self) -> (res: JsonValue)
        ensures
            res matches JsonValue::Object(entries) && match self {
                Dependency::One(f, v) => entries@.len() == 1 && entries@[0].0@ == f@ && entries@[0].1 == v,
                Dependency::OneOf(list) => entries@.len() == list@.len() && forall|k: int|
                    0 <= k < list@.len() ==> (#[trigger] entries@[k]).0@ == list@[k].0@
                        && entries@[k].1 == list@[k].1,
            },
    {
        match self {
            Dependency::One(feature, config) => {
                let mut entries: Vec<(String, JsonValue)> = Vec::new();
                entries.push((feature.to_string(), config));
                JsonValue::Object(entries)
            },
            Dependency::OneOf(list) => {
                let ghost all = list@;
                let mut list = list;
                let mut entries: Vec<(String, JsonValue)> = Vec::new();
                while list.len() > 0
                    invariant
                        entries@.len() + list@.len() == all.len(),
                        list@ == all.skip(entries@.len() as int),
                        forall|k: int|
                            0 <= k < entries@.len() ==> (#[trigger] entries@[k]).0@ == all[k].0@
                                && entries@[k].1 == all[k].1,
                    decreases list@.len(),
                {
                    let (feature, config) = list.remove(0);
                    assert((feature, config) == all[entries@.len() as int]);
                    assert(list@ =~= all.skip(entries@.len() as int + 1));
                    entries.push((feature.to_string(), config));
                }
                JsonValue::Object(entries)
            },
        }
    }
}

/// The entry `i` is the last of the first `n` entries of `depends` whose key reads as `key`.
pub open spec fn last_entry_for(
    depends: Seq<(String, JsonValue)>,
    n: int,
    key: Seq<char>,
    i: int,
) -> bool {
    &&& 0 <= i < n
    &&& dependency_key_text(depends[i].0@) == key
    &&& forall|k: int| i < k < n ==> dependency_key_text((#[trigger] depends[k]).0@) != key
}

/// No key occurs twice in `list`.
pub open spec fn keys_distinct(list: Seq<(DependencyKey, Dependency)>) -> bool {
    forall|a: int, b: int|
        0 <= a < list.len() && 0 <= b < list.len() && a != b ==> (#[trigger] list[a]).0@ != (
        #[trigger] list[b]).0@
}

/// Some entry of `list` has the key text `key`.
pub open spec fn key_listed(list: Seq<(DependencyKey, Dependency)>, key: Seq<char>) -> bool {
    exists|j: int| 0 <= j < list.len() && (#[trigger] list[j]).0@ == key
}

/// `entry` is the key and dependency of the last of the first `n` entries of `depends`
/// whose key reads as that key.
pub open spec fn from_last_entry(
    depends: Seq<(String, JsonValue)>,
    n: int,
    entry: (DependencyKey, Dependency),
) -> bool {
    exists|i: int|
        #[trigger] last_entry_for(depends, n, entry.0@, i) && dependency_result(
            entry.0@,
            depends[i].1,
            Ok(entry.1),
        )
}

/// The dependencies of `depends`, as far as `n` entries were read: each key once, with the
/// dependency of the last entry whose key reads as it, and every key read there.
pub open spec fn dependencies_of(
    depends: Seq<(String, JsonValue)>,
    n: int,
    list: Seq<(DependencyKey, Dependency)>,
) -> bool {
    &&& keys_distinct(list)
    &&& forall|i: int|
        0 <= i < n ==> key_listed(list, dependency_key_text((#[trigger] depends[i]).0@))
    &&& forall|j: int| 0 <= j < list.len() ==> from_last_entry(depends, n, #[trigger] list[j])
}

/// Where the key text `key` stands in `list`.
fn position_of_key(list: &Vec<(DependencyKey, Dependency)>, key: &DependencyKey) -> (res: Option<
    usize,
>)
    ensures
        match res {
            Some(j) => j < list@.len() && list@[j as int].0@ == key@,
            None => forall|j: int| 0 <= j < list@.len() ==> (#[trigger] list@[j]).0@ != key@,
        },
{
    let wanted = chars_of(key.as_str());
    let mut j: usize = 0;
    while j < list.len()
        invariant
            j <= list@.len(),
            wanted@ == key@,
            forall|k: int| 0 <= k < j ==> (#[trigger] list@[k]).0@ != key@,
        decreases list@.len() - j,
    {
        let other = chars_of(list[j].0.as_str());
        if crate::text::chars_equal(&other, &wanted) {
            return Some(j);
        }
        j = j + 1;
    }
    None
}

/// Reads the dependencies of a manifest, each given by its key as written and its
/// configuration, which must fit the key. Keys that read the same are one key, and the
/// later entry is the one that counts.
pub fn parse_depends(depends: Vec<(String, JsonValue)>) -> (res: Result<
    Vec<(DependencyKey, Dependency)>,
    ParseDependencyError,
>)
    requires
        forall|i: int|
            0 <= i < depends@.len() ==> dependency_fits(
                dependency_key_text((#[trigger] depends@[i]).0@),
                depends@[i].1,
            ),
    ensures
        res matches Ok(list) && dependencies_of(depends@, depends@.len() as int, list@),
{
    let ghost all = depends@;
    let mut depends = depends;
    let mut list: Vec<(DependencyKey, Dependency)> = Vec::new();
    let mut n: usize = 0;
    assert(all.len() == depends.len());
    while depends.len() > 0
        invariant
            n + depends@.len() == all.len(),
            all.len() <= usize::MAX,
            depends@ == all.skip(n as int),
            forall|i: int|
                0 <= i < all.len() ==> dependency_fits(
                    dependency_key_text((#[trigger] all[i]).0@),
                    all[i].1,
                ),
            dependencies_of(all, n as int, list@),
        decreases depends@.len(),
    {
        let (text, config) = depends.remove(0);
        let ghost at = n as int;
        let ghost old_list = list@;
        assert((text, config) == all[at]);
        assert(depends@ =~= all.skip(at + 1));
        let key = DependencyKey::new(text.as_str());
        let ghost kt = key@;
        let dependency = match Dependency::try_from(&key, config) {
            Ok(dependency) => dependency,
            Err(e) => {
                assert(dependency_fits(dependency_key_text(all[at].0@), all[at].1));
                return Err(e);
            },
        };
        let ghost entry = (key, dependency);
        assert(dependency_result(kt, all[at].1, Ok(entry.1)));
        match position_of_key(&list, &key) {
            Some(j) => {
                list.set(j, (key, dependency));
                assert(list@ == old_list.update(j as int, entry));
                assert forall|a: int, b: int|
                    0 <= a < list@.len() && 0 <= b < list@.len() && a != b implies (#[trigger] list@[a]).0@
                        != (#[trigger] list@[b]).0@ by {
                    assert(old_list[a].0@ != old_list[b].0@);
                }
                assert forall|i: int| 0 <= i < at + 1 implies key_listed(
                    list@,
                    dependency_key_text((#[trigger] all[i]).0@),
                ) by {
                    if i < at {
                        assert(key_listed(old_list, dependency_key_text(all[i].0@)));
                        let m = choose|m: int|
                            0 <= m < old_list.len() && (#[trigger] old_list[m]).0@
                                == dependency_key_text(all[i].0@);
                        assert(list@[m].0@ == old_list[m].0@);
                    } else {
                        assert(list@[j as int].0@ == dependency_key_text(all[i].0@));
                    }
                }
                assert forall|m: int| 0 <= m < list@.len() implies from_last_entry(
                    all,
                    at + 1,
                    #[trigger] list@[m],
                ) by {
                    if m == j {
                        assert(last_entry_for(all, at + 1, list@[m].0@, at));
                    } else {
                        assert(old_list[m].0@ != old_list[j as int].0@);
                        assert(from_last_entry(all, at, old_list[m]));
                        let i = choose|i: int|
                            #[trigger] last_entry_for(all, at, old_list[m].0@, i)
                                && dependency_result(old_list[m].0@, all[i].1, Ok(old_list[m].1));
                        assert(last_entry_for(all, at + 1, list@[m].0@, i));
                    }
                }
            },
            None => {
                list.push((key, dependency));
                assert(list@ == old_list.push(entry));
                assert forall|a: int, b: int|
                    0 <= a < list@.len() && 0 <= b < list@.len() && a != b implies (#[trigger] list@[a]).0@
                        != (#[trigger] list@[b]).0@ by {
                    if a < old_list.len() && b < old_list.len() {
                        assert(old_list[a].0@ != old_list[b].0@);
                    } else if a < old_list.len() {
                        assert(old_list[a].0@ != kt);
                    } else {
                        assert(old_list[b].0@ != kt);
                    }
                }
                assert forall|i: int| 0 <= i < at + 1 implies key_listed(
                    list@,
                    dependency_key_text((#[trigger] all[i]).0@),
                ) by {
                    if i < at {
                        assert(key_listed(old_list, dependency_key_text(all[i].0@)));
                        let m = choose|m: int|
                            0 <= m < old_list.len() && (#[trigger] old_list[m]).0@
                                == dependency_key_text(all[i].0@);
                        assert(list@[m].0@ == old_list[m].0@);
                    } else {
                        assert(list@[old_list.len() as int].0@ == dependency_key_text(all[i].0@));
                    }
                }
                assert forall|m: int| 0 <= m < list@.len() implies from_last_entry(
                    all,
                    at + 1,
                    #[trigger] list@[m],
                ) by {
                    if m == old_list.len() {
                        assert(last_entry_for(all, at + 1, list@[m].0@, at));
                    } else {
                        assert(from_last_entry(all, at, old_list[m]));
                        let i = choose|i: int|
                            #[trigger] last_entry_for(all, at, old_list[m].0@, i)
                                && dependency_result(old_list[m].0@, all[i].1, Ok(old_list[m].1));
                        assert(last_entry_for(all, at + 1, list@[m].0@, i));
                    }
                }
            },
        }
        assert(dependencies_of(all, at + 1, list@));
        n = n + 1;
    }
    Ok(list)
}

} // verus!
