//! The dependency listing that cargo prints for one package, one package per
//! line, and how its lines are matched with the packages of the metadata
//! record.
//!
//! A line names a package by its first two fields, the name and the version
//! written with a leading `v`; fields are separated by spaces or tabs. The two
//! fields written together are the key under which the package is found.

use vstd::prelude::*;
use crate::metadata::{Package, PackageView, package_views};
use crate::text::{chars_eq, first_index, last_match, lemma_first_index_is, lemma_last_match, to_chars};

verus! {

/// The key of a package: its name, the letter `v`, its version.
pub open spec fn package_key(p: PackageView) -> Seq<char> {
    p.name + seq!['v'] + p.version
}

/// A character that separates the fields of a line.
pub open spec fn is_blank(c: char) -> bool {
    c == ' ' || c == '\t'
}

/// How many separators `s` starts with.
pub open spec fn blank_run(s: Seq<char>) -> int
    decreases s.len(),
{
    if s.len() > 0 && is_blank(s[0]) {
        1 + blank_run(s.skip(1))
    } else {
        0
    }
}

/// How many characters of a field `s` starts with.
pub open spec fn field_run(s: Seq<char>) -> int
    decreases s.len(),
{
    if s.len() > 0 && !is_blank(s[0]) {
        1 + field_run(s.skip(1))
    } else {
        0
    }
}

/// The first field of `s`, which may be empty, and what follows it.
pub open spec fn split_field(s: Seq<char>) -> (Seq<char>, Seq<char>) {
    let t = s.skip(blank_run(s));
    (t.take(field_run(t)), t.skip(field_run(t)))
}

/// The key that a line names: its first two fields written together. A line
/// with fewer than two fields names none.
pub open spec fn line_key(line: Seq<char>) -> Option<Seq<char>> {
    let (name, rest) = split_field(line);
    let (version, _) = split_field(rest);
    if version.len() == 0 {
        None
    } else {
        Some(name + version)
    }
}

/// A line without the carriage return that it may end with.
pub open spec fn strip_cr(line: Seq<char>) -> Seq<char> {
    if line.len() > 0 && line.last() == '\r' {
        line.drop_last()
    } else {
        line
    }
}

/// The lines of a text. A line ends with a line feed, or with a carriage
/// return and a line feed; neither belongs to the line. The last line need not
/// be ended, and an ended last line is followed by no empty one.
pub open spec fn lines(text: Seq<char>) -> Seq<Seq<char>>
    decreases text.len(),
{
    if text.len() == 0 {
        Seq::empty()
    } else {
        let n = first_index(text, '\n');
        if 0 <= n < text.len() {
            seq![strip_cr(text.take(n))] + lines(text.skip(n + 1))
        } else {
            seq![text]
        }
    }
}

/// The keys of the packages, in the order of the packages.
pub open spec fn package_keys(packages: Seq<PackageView>) -> Seq<Seq<char>> {
    Seq::new(packages.len(), |i: int| package_key(packages[i]))
}

/// The position of the last package with the given key, if there is one.
/// Where two packages share a key, the later one is found.
pub open spec fn find_key(packages: Seq<PackageView>, key: Seq<char>) -> Option<int> {
    last_match(package_keys(packages), key)
}

/// The dependency that a line stands for: the package that its key finds,
/// unless that is `p` itself.
pub open spec fn resolve(packages: Seq<PackageView>, p: PackageView, line: Seq<char>) -> Option<
    PackageView,
> {
    match line_key(line) {
        None => None,
        Some(key) => match find_key(packages, key) {
            None => None,
            Some(i) => if packages[i] == p {
                None
            } else {
                Some(packages[i])
            },
        },
    }
}

/// The dependencies that the lines stand for, in the order of the lines. A
/// line that stands for none adds nothing; a package named twice is listed
/// twice.
pub open spec fn resolve_lines(
    packages: Seq<PackageView>,
    p: PackageView,
    ls: Seq<Seq<char>>,
) -> Seq<PackageView>
    decreases ls.len(),
{
    if ls.len() == 0 {
        Seq::empty()
    } else {
        let head = match resolve(packages, p, ls[0]) {
            Some(d) => seq![d],
            None => Seq::empty(),
        };
        head + resolve_lines(packages, p, ls.skip(1))
    }
}

/// The dependencies of `p` that a listing names.
pub open spec fn tree_deps(packages: Seq<PackageView>, p: PackageView, text: Seq<char>) -> Seq<
    PackageView,
> {
    resolve_lines(packages, p, lines(text))
}

/// The texts of a list of character lists, in order.
pub open spec fn char_texts(v: Seq<Vec<char>>) -> Seq<Seq<char>> {
    Seq::new(v.len(), |i: int| v[i]@)
}

/// The views of the packages that a list refers to, in order.
pub open spec fn ref_views(v: Seq<&Package>) -> Seq<PackageView> {
    Seq::new(v.len(), |i: int| v[i]@)
}

proof fn lemma_blank_run(s: Seq<char>)
    ensures
        0 <= blank_run(s) <= s.len(),
        forall|j: int| 0 <= j < blank_run(s) ==> is_blank(s[j]),
        blank_run(s) < s.len() ==> !is_blank(s[blank_run(s)]),
    decreases s.len(),
{
    if s.len() > 0 && is_blank(s[0]) {
        let t = s.skip(1);
        lemma_blank_run(t);
        assert forall|j: int| 0 <= j < blank_run(s) implies is_blank(s[j]) by {
            if j > 0 {
                assert(s[j] == t[j - 1]);
            }
        }
    }
}

proof fn lemma_blank_run_is(s: Seq<char>, i: int)
    requires
        0 <= i <= s.len(),
        forall|j: int| 0 <= j < i ==> is_blank(s[j]),
        i < s.len() ==> !is_blank(s[i]),
    ensures
        blank_run(s) == i,
{
    lemma_blank_run(s);
}

proof fn lemma_field_run(s: Seq<char>)
    ensures
        0 <= field_run(s) <= s.len(),
        forall|j: int| 0 <= j < field_run(s) ==> !is_blank(s[j]),
        field_run(s) < s.len() ==> is_blank(s[field_run(s)]),
    decreases s.len(),
{
    if s.len() > 0 && !is_blank(s[0]) {
        let t = s.skip(1);
        lemma_field_run(t);
        assert forall|j: int| 0 <= j < field_run(s) implies !is_blank(s[j]) by {
            if j > 0 {
                assert(s[j] == t[j - 1]);
            }
        }
    }
}

proof fn lemma_field_run_is(s: Seq<char>, i: int)
    requires
        0 <= i <= s.len(),
        forall|j: int| 0 <= j < i ==> !is_blank(s[j]),
        i < s.len() ==> is_blank(s[i]),
    ensures
        field_run(s) == i,
{
    lemma_field_run(s);
}

/// The first field at or after `from`: where it starts and where it ends.
fn scan_field(line: &Vec<char>, from: usize) -> (r: (usize, usize))
    requires
        from <= line.len(),
    ensures
        from <= r.0 <= r.1 <= line.len(),
        split_field(line@.skip(from as int)) == (
            line@.subrange(r.0 as int, r.1 as int),
            line@.skip(r.1 as int),
        ),
{
    let ghost s = line@.skip(from as int);
    let mut a: usize = from;
    while a < line.len() && (line[a] == ' ' || line[a] == '\t')
        invariant
            from <= a <= line.len(),
            forall|j: int| from <= j < a ==> is_blank(line@[j]),
        decreases line.len() - a,
    {
        a += 1;
    }
    proof {
        lemma_blank_run_is(s, a - from);
    }
    let ghost t = s.skip(a - from);
    let mut b: usize = a;
    while b < line.len() && !(line[b] == ' ' || line[b] == '\t')
        invariant
            a <= b <= line.len(),
            forall|j: int| a <= j < b ==> !is_blank(line@[j]),
        decreases line.len() - b,
    {
        b += 1;
    }
    proof {
        lemma_field_run_is(t, b - a);
    }
    (a, b)
}

/// The key that a line names, if it names one.
pub fn key_of_line(line: &Vec<char>) -> (r: Option<Vec<char>>)
    ensures
        r is Some <==> line_key(line@) is Some,
        r matches Some(key) ==> Some(key@) == line_key(line@),
{
    assert(line@.skip(0) =~= line@);
    let (a, b) = scan_field(line, 0);
    let (c, d) = scan_field(line, b);
    if c == d {
        return None;
    }
    let mut key: Vec<char> = Vec::new();
    let mut i: usize = a;
    while i < b
        invariant
            a <= i <= b <= line.len(),
            key@ == line@.subrange(a as int, i as int),
        decreases b - i,
    {
        key.push(line[i]);
        i += 1;
    }
    let mut j: usize = c;
    while j < d
        invariant
            c <= j <= d <= line.len(),
            key@ == line@.subrange(a as int, b as int) + line@.subrange(c as int, j as int),
        decreases d - j,
    {
        key.push(line[j]);
        j += 1;
    }
    Some(key)
}

/// The line that starts at `pos`, and where the next one starts.
fn next_line(chars: &Vec<char>, pos: usize) -> (r: (Vec<char>, usize))
    requires
        pos < chars.len(),
    ensures
        pos < r.1 <= chars.len(),
        lines(chars@.skip(pos as int)) == seq![r.0@] + lines(chars@.skip(r.1 as int)),
{
    let ghost t = chars@.skip(pos as int);
    let mut end: usize = pos;
    while end < chars.len() && chars[end] != '\n'
        invariant
            pos <= end <= chars.len(),
            forall|j: int| pos <= j < end ==> chars@[j] != '\n',
        decreases chars.len() - end,
    {
        end += 1;
    }
    proof {
        lemma_first_index_is(t, '\n', end - pos);
    }
    let ended = end < chars.len();
    let stop: usize = if ended && end > pos && chars[end - 1] == '\r' {
        end - 1
    } else {
        end
    };
    let mut line: Vec<char> = Vec::new();
    let mut i: usize = pos;
    while i < stop
        invariant
            pos <= i <= stop <= chars.len(),
            line@ == chars@.subrange(pos as int, i as int),
        decreases stop - i,
    {
        line.push(chars[i]);
        i += 1;
    }
    if ended {
        proof {
            let whole = t.take(end - pos);
            assert(strip_cr(whole) =~= chars@.subrange(pos as int, stop as int));
            assert(t.skip(end - pos + 1) =~= chars@.skip(end + 1));
        }
        (line, end + 1)
    } else {
        (line, end)
    }
}

/// The key of a package.
pub fn key_of_package(p: &Package) -> (r: String)
    ensures
        r@ == package_key(p@),
{
    let mut r = p.name.clone();
    proof {
        reveal_strlit("v");
    }
    r.append("v");
    r.append(p.version.as_str());
    r
}

/// The keys of the packages, in the order of the packages.
fn key_index(packages: &Vec<Package>) -> (keys: Vec<Vec<char>>)
    ensures
        char_texts(keys@) == package_keys(package_views(packages@)),
{
    let mut keys: Vec<Vec<char>> = Vec::new();
    let mut i: usize = 0;
    while i < packages.len()
        invariant
            i <= packages.len(),
            keys.len() == i,
            forall|j: int| 0 <= j < i ==> keys@[j]@ == package_key(packages@[j]@),
        decreases packages.len() - i,
    {
        let key = key_of_package(&packages[i]);
        keys.push(to_chars(key.as_str()));
        i += 1;
    }
    keys
}

/// The position of the last key of the index that equals `key`.
fn last_with_key(keys: &Vec<Vec<char>>, key: &Vec<char>) -> (r: Option<usize>)
    ensures
        r is Some <==> last_match(char_texts(keys@), key@) is Some,
        r matches Some(i) ==> i < keys.len() && last_match(char_texts(keys@), key@) == Some(
            i as int,
        ),
{
    let ghost items = char_texts(keys@);
    let mut i: usize = keys.len();
    while i > 0
        invariant
            i <= keys.len(),
            items == char_texts(keys@),
            forall|j: int| i <= j < keys.len() ==> items[j] != key@,
        decreases i,
    {
        i -= 1;
        if chars_eq(&keys[i], key) {
            proof {
                assert(items[i as int] == key@);
                lemma_last_match(items, key@);
            }
            return Some(i);
        }
    }
    proof {
        lemma_last_match(items, key@);
    }
    None
}

proof fn lemma_resolve_lines_first(
    packages: Seq<PackageView>,
    p: PackageView,
    line: Seq<char>,
    rest: Seq<Seq<char>>,
)
    ensures
        resolve_lines(packages, p, seq![line] + rest) == (match resolve(packages, p, line) {
            Some(d) => seq![d],
            None => Seq::empty(),
        }) + resolve_lines(packages, p, rest),
{
    let ls = seq![line] + rest;
    assert(ls.skip(1) =~= rest);
}

/// The dependencies of `p` that a listing names: for each line whose key
/// finds a package other than `p`, that package, in the order of the lines.
pub fn deps_in_tree<'a>(packages: &'a Vec<Package>, p: &Package, text: &str) -> (r: Vec<
    &'a Package,
>)
    ensures
        ref_views(r@) == tree_deps(package_views(packages@), p@, text@),
{
    let chars = to_chars(text);
    let keys = key_index(packages);
    let ghost pv = package_views(packages@);
    let mut found: Vec<&'a Package> = Vec::new();
    let mut pos: usize = 0;
    assert(chars@.skip(0) =~= chars@);
    while pos < chars.len()
        invariant
            pos <= chars.len(),
            chars@ == text@,
            pv == package_views(packages@),
            char_texts(keys@) == package_keys(pv),
            ref_views(found@) + tree_deps(pv, p@, chars@.skip(pos as int)) == tree_deps(
                pv,
                p@,
                chars@,
            ),
        decreases chars.len() - pos,
    {
        let ghost before = ref_views(found@);
        let (line, next) = next_line(&chars, pos);
        if let Some(key) = key_of_line(&line) {
            if let Some(i) = last_with_key(&keys, &key) {
                let q = &packages[i];
                if !q.same(p) {
                    found.push(q);
                }
            }
        }
        proof {
            let head = match resolve(pv, p@, line@) {
                Some(d) => seq![d],
                None => Seq::empty(),
            };
            assert(ref_views(found@) =~= before + head);
            lemma_resolve_lines_first(pv, p@, line@, lines(chars@.skip(next as int)));
        }
        pos = next;
    }
    found
}

proof fn lemma_resolved_are_other_packages(
    packages: Seq<PackageView>,
    p: PackageView,
    ls: Seq<Seq<char>>,
)
    ensures
        forall|i: int|
            0 <= i < resolve_lines(packages, p, ls).len() ==> {
                let d = #[trigger] resolve_lines(packages, p, ls)[i];
                d != p && packages.contains(d)
            },
    decreases ls.len(),
{
    if ls.len() > 0 {
        lemma_resolved_are_other_packages(packages, p, ls.skip(1));
        match line_key(ls[0]) {
            Some(key) => lemma_last_match(package_keys(packages), key),
            None => {},
        }
        let rest = resolve_lines(packages, p, ls.skip(1));
        let all = resolve_lines(packages, p, ls);
        assert forall|i: int| 0 <= i < all.len() implies all[i] != p && packages.contains(
            all[i],
        ) by {
            if all.len() > rest.len() && i > 0 {
                assert(all[i] == rest[i - 1]);
            }
        }
    }
}

/// Whatever a listing says, no package is its own dependency, and every
/// dependency is a package of the record.
pub proof fn deps_are_other_packages(packages: Seq<PackageView>, p: PackageView, text: Seq<char>)
    ensures
        !tree_deps(packages, p, text).contains(p),
        forall|i: int|
            0 <= i < tree_deps(packages, p, text).len() ==> packages.contains(
                #[trigger] tree_deps(packages, p, text)[i],
            ),
{
    lemma_resolved_are_other_packages(packages, p, lines(text));
}

} // verus!
