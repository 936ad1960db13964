//! Version triples, and the staged file names that carry them.

use vstd::prelude::*;
use crate::text::{
    after_last, chars_of, ends_with, find_first_in, first_index_of, has_prefix, has_suffix,
    lemma_first_index_of, starts_with, text_after_last,
};

verus! {

/// A plugin version: major, minor and patch number.
#[derive(Clone, Copy, Debug, PartialEq, Eq, Structural)]
pub struct VersionTriple {
    pub major: u32,
    pub minor: u32,
    pub patch: u32,
}

impl VersionTriple {
    /// The order of versions: by major number, then minor, then patch.
    pub open spec fn precedes(self, other: VersionTriple) -> bool {
        self.major < other.major || (self.major == other.major && (self.minor < other.minor || (
        self.minor == other.minor && self.patch < other.patch)))
    }

    pub fn new(major: u32, minor: u32, patch: u32) -> (v: VersionTriple)
        ensures
            v == (VersionTriple { major, minor, patch }),
    {
        VersionTriple { major, minor, patch }
    }

    /// Whether this version comes before `other`.
    pub fn less_than(&self, other: &VersionTriple) -> (r: bool)
        ensures
            r == self.precedes(*other),
    {
        self.major < other.major || (self.major == other.major && (self.minor < other.minor || (
        self.minor == other.minor && self.patch < other.patch)))
    }
}

pub open spec fn is_digit(c: char) -> bool {
    '0' <= c && c <= '9'
}

pub open spec fn digit_value(c: char) -> nat {
    if is_digit(c) {
        (c as u32 - '0' as u32) as nat
    } else {
        0
    }
}

fn digit_of(c: char) -> (r: Option<u32>)
    ensures
        r is Some == is_digit(c),
        r matches Some(d) ==> d == digit_value(c) && d <= 9,
{
    if c >= '0' && c <= '9' {
        Some(c as u32 - '0' as u32)
    } else {
        None
    }
}


/// The number that the digits of `s` write in base ten.
pub open spec fn decimal_value(s: Seq<char>) -> nat
    decreases s.len(),
{
    if s.len() == 0 {
        0
    } else {
        decimal_value(s.drop_last()) * 10 + digit_value(s.last())
    }
}

pub open spec fn all_digits(s: Seq<char>) -> bool {
    forall|i: int| 0 <= i < s.len() ==> is_digit(#[trigger] s[i])
}

/// The number written by `s`, where `s` is one or more decimal digits and the
/// number fits in 32 bits.
pub open spec fn numeral(s: Seq<char>) -> Option<u32> {
    if s.len() > 0 && all_digits(s) && decimal_value(s) <= u32::MAX {
        Some(decimal_value(s) as u32)
    } else {
        None
    }
}

/// The version written as `<major>.<minor>.<patch>`.
pub open spec fn dotted_triple(body: Seq<char>) -> Option<VersionTriple> {
    let i = first_index_of(body, '.');
    let rest = body.skip(i + 1);
    let j = first_index_of(rest, '.');
    if i < body.len() && j < rest.len() {
        match (numeral(body.take(i)), numeral(rest.take(j)), numeral(rest.skip(j + 1))) {
            (Some(major), Some(minor), Some(patch)) => Some(VersionTriple { major, minor, patch }),
            _ => None,
        }
    } else {
        None
    }
}

pub open spec fn staged_prefix() -> Seq<char> {
    seq!['p', 'l', 'u', 'g', 'i', 'n', '_']
}

pub open spec fn staged_suffix() -> Seq<char> {
    seq!['.', 'w', 'a', 's', 'm']
}

/// The version that a staged file name carries: the name has the form
/// `plugin_<major>.<minor>.<patch>.wasm`. Other names carry none.
pub open spec fn staged_version(name: Seq<char>) -> Option<VersionTriple> {
    if name.len() >= 12 && has_prefix(name, staged_prefix()) && has_suffix(name, staged_suffix()) {
        dotted_triple(name.subrange(7, name.len() - 5))
    } else {
        None
    }
}

/// Every name of the form `plugin_<major>.<minor>.<patch>.wasm`, where the
/// three parts are numerals, carries the version that the numerals write.
pub proof fn lemma_staged_name_carries_its_version(
    major: Seq<char>,
    minor: Seq<char>,
    patch: Seq<char>,
)
    requires
        numeral(major) is Some,
        numeral(minor) is Some,
        numeral(patch) is Some,
    ensures
        staged_version(
            staged_prefix() + major + seq!['.'] + minor + seq!['.'] + patch + staged_suffix(),
        ) == Some(
            VersionTriple {
                major: numeral(major).unwrap(),
                minor: numeral(minor).unwrap(),
                patch: numeral(patch).unwrap(),
            },
        ),
{
    let name = staged_prefix() + major + seq!['.'] + minor + seq!['.'] + patch + staged_suffix();
    let body = name.subrange(7, name.len() - 5);
    assert(name.subrange(0, 7) =~= staged_prefix());
    assert(name.subrange(name.len() - 5, name.len() as int) =~= staged_suffix());
    assert(body =~= major + seq!['.'] + minor + seq!['.'] + patch);
    assert forall|k: int| 0 <= k < major.len() implies body[k] != '.' by {
        assert(is_digit(major[k]));
    }
    lemma_first_index_of(body, '.', major.len() as int);
    let rest = body.skip(major.len() as int + 1);
    assert(rest =~= minor + seq!['.'] + patch);
    assert forall|k: int| 0 <= k < minor.len() implies rest[k] != '.' by {
        assert(is_digit(minor[k]));
    }
    lemma_first_index_of(rest, '.', minor.len() as int);
    assert(body.take(major.len() as int) =~= major);
    assert(rest.take(minor.len() as int) =~= minor);
    assert(rest.skip(minor.len() as int + 1) =~= patch);
}

/// A longer numeral is worth at least what its beginning is worth.
pub proof fn lemma_decimal_value_grows(s: Seq<char>, k: int)
    requires
        0 <= k <= s.len(),
    ensures
        decimal_value(s.take(k)) <= decimal_value(s),
    decreases s.len() - k,
{
    if k == s.len() {
        assert(s.take(k) =~= s);
    } else {
        lemma_decimal_value_grows(s.drop_last(), k);
        assert(s.drop_last().take(k) =~= s.take(k));
    }
}

fn parse_numeral(chars: &Vec<char>, from: usize, to: usize) -> (r: Option<u32>)
    requires
        from <= to <= chars.len(),
    ensures
        r == numeral(chars@.subrange(from as int, to as int)),
{
    let ghost part = chars@.subrange(from as int, to as int);
    if from == to {
        return None;
    }
    let mut acc: u64 = 0;
    let mut i: usize = from;
    while i < to
        invariant
            from <= i <= to <= chars.len(),
            part == chars@.subrange(from as int, to as int),
            all_digits(part.take(i - from)),
            acc == decimal_value(part.take(i - from)),
            acc <= u32::MAX,
        decreases to - i,
    {
        let ghost seen = part.take(i - from);
        let ghost next = part.take(i - from + 1);
        assert(next.drop_last() =~= seen);
        assert(next.last() == chars@[i as int]);
        match digit_of(chars[i]) {
            None => {
                assert(!is_digit(part[i - from]));
                return None;
            },
            Some(d) => {
                acc = acc * 10 + d as u64;
                if acc > u32::MAX as u64 {
                    proof {
                        lemma_decimal_value_grows(part, i - from + 1);
                    }
                    return None;
                }
                assert forall|k: int| 0 <= k < next.len() implies is_digit(#[trigger] next[k]) by {
                    if k < seen.len() {
                        assert(next[k] == seen[k]);
                    }
                }
            },
        }
        i = i + 1;
    }
    assert(part.take(to - from) =~= part);
    Some(acc as u32)
}

fn parse_dotted_triple(chars: &Vec<char>, from: usize, to: usize) -> (r: Option<VersionTriple>)
    requires
        from <= to <= chars.len(),
    ensures
        r == dotted_triple(chars@.subrange(from as int, to as int)),
{
    let ghost body = chars@.subrange(from as int, to as int);
    let i = find_first_in(chars, from, to, '.');
    if from + i >= to {
        return None;
    }
    let second: usize = from + i + 1;
    let ghost rest = body.skip(i + 1);
    assert(rest =~= chars@.subrange(second as int, to as int));
    let j = find_first_in(chars, second, to, '.');
    if second + j >= to {
        return None;
    }
    let third: usize = second + j + 1;
    assert(body.take(i as int) =~= chars@.subrange(from as int, from + i));
    assert(rest.take(j as int) =~= chars@.subrange(second as int, second + j));
    assert(rest.skip(j + 1) =~= chars@.subrange(third as int, to as int));
    let major = parse_numeral(chars, from, from + i);
    let minor = parse_numeral(chars, second, second + j);
    let patch = parse_numeral(chars, third, to);
    match (major, minor, patch) {
        (Some(major), Some(minor), Some(patch)) => Some(VersionTriple { major, minor, patch }),
        _ => None,
    }
}

/// Reads the version out of a staged file name.
pub fn parse_staged_name(name: &str) -> (r: Option<VersionTriple>)
    ensures
        r == staged_version(name@),
{
    let chars = chars_of(name);
    let prefix = chars_of("plugin_");
    let suffix = chars_of(".wasm");
    proof {
        reveal_strlit("plugin_");
        reveal_strlit(".wasm");
        assert(prefix@ =~= staged_prefix());
        assert(suffix@ =~= staged_suffix());
    }
    if chars.len() >= 12 && starts_with(&chars, &prefix) && ends_with(&chars, &suffix) {
        parse_dotted_triple(&chars, 7, chars.len() - 5)
    } else {
        None
    }
}


/// Whether entry `i` of `names` is the latest staged file: it carries a
/// version, no entry carries a later one, and every entry before it carries an
/// earlier one or none.
pub open spec fn is_latest(names: Seq<Seq<char>>, i: int) -> bool {
    &&& 0 <= i < names.len()
    &&& staged_version(names[i]) is Some
    &&& forall|j: int|
        0 <= j < names.len() && (#[trigger] staged_version(names[j])) is Some ==> !staged_version(
            names[i],
        ).unwrap().precedes(staged_version(names[j]).unwrap())
    &&& forall|j: int|
        0 <= j < i && (#[trigger] staged_version(names[j])) is Some ==> staged_version(
            names[j],
        ).unwrap().precedes(staged_version(names[i]).unwrap())
}

/// Whether no entry of `names` carries a version.
pub open spec fn none_staged(names: Seq<Seq<char>>) -> bool {
    forall|j: int| 0 <= j < names.len() ==> (#[trigger] staged_version(names[j])) is None
}

/// The position of the latest staged file among `names`, if any entry carries
/// a version.
pub open spec fn latest_index(names: Seq<Seq<char>>) -> Option<int> {
    if exists|i: int| is_latest(names, i) {
        Some(choose|i: int| is_latest(names, i))
    } else {
        None
    }
}

/// The latest version among the staged files `names`.
pub open spec fn latest_version(names: Seq<Seq<char>>) -> Option<VersionTriple> {
    match latest_index(names) {
        Some(i) => staged_version(names[i]),
        None => None,
    }
}

/// What stands for a file name when no staged file carries a version.
pub const NO_VERSION_MESSAGE: &'static str = "No files found with the pattern 'plugin_X.Y.Z'";

/// The name of the latest staged file among `names`, or the text that says
/// there is none.
pub open spec fn latest_name(names: Seq<Seq<char>>) -> Seq<char> {
    match latest_index(names) {
        Some(i) => names[i],
        None => NO_VERSION_MESSAGE@,
    }
}

/// At most one entry is the latest.
pub proof fn lemma_latest_unique(names: Seq<Seq<char>>, i: int, j: int)
    requires
        is_latest(names, i),
        is_latest(names, j),
    ensures
        i == j,
{
    if i < j {
        assert(staged_version(names[i]) is Some);
    } else if j < i {
        assert(staged_version(names[j]) is Some);
    }
}

/// An entry known to be the latest is what `latest_index` names.
pub proof fn lemma_latest_index_is(names: Seq<Seq<char>>, i: int)
    requires
        is_latest(names, i),
    ensures
        latest_index(names) == Some(i),
{
    lemma_latest_unique(names, i, choose|k: int| is_latest(names, k));
}

/// Where no entry carries a version there is no latest.
pub proof fn lemma_latest_index_none(names: Seq<Seq<char>>)
    requires
        none_staged(names),
    ensures
        latest_index(names) is None,
{
    if exists|i: int| is_latest(names, i) {
        let i = choose|i: int| is_latest(names, i);
        assert(staged_version(names[i]) is Some);
    }
}

/// The position of the latest staged file among `names`.
pub fn latest_staged(names: &Vec<String>) -> (r: Option<usize>)
    ensures
        match r {
            Some(i) => latest_index(names.deep_view()) == Some(i as int) && i < names.len(),
            None => latest_index(names.deep_view()) is None,
        },
{
    let ghost views = names.deep_view();
    let mut best: Option<(usize, VersionTriple)> = None;
    let mut i: usize = 0;
    while i < names.len()
        invariant
            i <= names.len(),
            views == names.deep_view(),
            match best {
                Some((b, v)) => b < i && is_latest(views.take(i as int), b as int) && staged_version(
                    views[b as int],
                ) == Some(v),
                None => none_staged(views.take(i as int)),
            },
        decreases names.len() - i,
    {
        let ghost before = views.take(i as int);
        let ghost after = views.take(i + 1);
        assert(views[i as int] == names@[i as int]@);
        assert(forall|j: int| 0 <= j < i ==> after[j] == before[j]);
        assert(after[i as int] == views[i as int]);
        let found = parse_staged_name(names[i].as_str());
        match found {
            None => {
                match best {
                    Some((b, v)) => {
                        assert(is_latest(after, b as int));
                    },
                    None => {
                        assert(none_staged(after));
                    },
                }
            },
            Some(w) => {
                match best {
                    Some((b, v)) => {
                        if v.less_than(&w) {
                            best = Some((i, w));
                            assert(is_latest(after, i as int)) by {
                                assert forall|j: int|
                                    0 <= j < i && (#[trigger] staged_version(after[j])) is Some
                                    implies staged_version(after[j]).unwrap().precedes(w) by {
                                    assert(staged_version(before[j]) is Some);
                                }
                            }
                        } else {
                            assert(is_latest(after, b as int));
                        }
                    },
                    None => {
                        best = Some((i, w));
                        assert(is_latest(after, i as int)) by {
                            assert forall|j: int| 0 <= j < i implies (#[trigger] staged_version(
                                after[j],
                            )) is None by {
                                assert(staged_version(before[j]) is None);
                            }
                        }
                    },
                }
            },
        }
        i = i + 1;
    }
    assert(views.take(names.len() as int) =~= views);
    match best {
        Some((b, v)) => {
            proof {
                lemma_latest_index_is(views, b as int);
            }
            Some(b)
        },
        None => {
            proof {
                lemma_latest_index_none(views);
            }
            None
        },
    }
}

/// The latest version among the staged files `names`, or `None` where no name
/// carries a version.
pub fn determine_current_version(names: &Vec<String>) -> (r: Option<VersionTriple>)
    ensures
        r == latest_version(names.deep_view()),
{
    match latest_staged(names) {
        Some(i) => {
            assert(names.deep_view()[i as int] == names@[i as int]@);
            parse_staged_name(names[i].as_str())
        },
        None => None,
    }
}

/// The name of the latest staged file among `names`, or `NO_VERSION_MESSAGE`
/// where no name carries a version.
pub fn find_latest_version(names: &Vec<String>) -> (r: String)
    ensures
        r@ == latest_name(names.deep_view()),
{
    match latest_staged(names) {
        Some(i) => {
            assert(names.deep_view()[i as int] == names@[i as int]@);
            names[i].clone()
        },
        None => NO_VERSION_MESSAGE.to_owned(),
    }
}

/// The part of a file name that is sent to the update service as the current
/// version: what follows the last underscore.
pub fn trim_version(file_name: &str) -> (r: String)
    ensures
        r@ == after_last(file_name@, '_'),
{
    text_after_last(file_name, '_')
}

/// No version comes before itself.
pub proof fn lemma_precedes_irreflexive(a: VersionTriple)
    ensures
        !a.precedes(a),
{
}

/// The order of versions is transitive.
pub proof fn lemma_precedes_transitive(a: VersionTriple, b: VersionTriple, c: VersionTriple)
    requires
        a.precedes(b),
        b.precedes(c),
    ensures
        a.precedes(c),
{
}

/// Of two versions exactly one of these holds: the first comes before the
/// second, they are equal, or the second comes before the first.
pub proof fn lemma_precedes_total(a: VersionTriple, b: VersionTriple)
    ensures
        a.precedes(b) || a == b || b.precedes(a),
        !(a.precedes(b) && b.precedes(a)),
        a == b ==> !a.precedes(b) && !b.precedes(a),
{
}

} // verus!
