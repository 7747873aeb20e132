//! Unix path text: the file name of a path, replacing it, and joining a
//! relative name, with the meaning that `std::path` gives them on Unix.

use vstd::prelude::*;
use crate::text::{chars_of, string_from_chars, take_chars};

verus! {

/// The index of the last `/` in `s`, or -1 if there is none.
pub open spec fn last_slash(s: Seq<char>) -> int
    decreases s.len(),
{
    if s.len() == 0 {
        -1
    } else if s.last() == '/' {
        s.len() - 1
    } else {
        last_slash(s.drop_last())
    }
}

pub open spec fn is_dot(seg: Seq<char>) -> bool {
    seg =~= seq!['.']
}

pub open spec fn is_dot_dot(seg: Seq<char>) -> bool {
    seg =~= seq!['.', '.']
}

/// Splits a path at its final component when that component is a name
/// (not `..`, not the root, not a leading `.`): the text before the name
/// (up to and including the `/` that precedes it) and the name itself.
/// Trailing `/` and `.` components are passed over, as `Path::file_name` does.
pub open spec fn split_file_name(s: Seq<char>) -> Option<(Seq<char>, Seq<char>)>
    decreases s.len(),
{
    if s.len() == 0 {
        None
    } else if s.last() == '/' {
        split_file_name(s.drop_last())
    } else {
        let k = last_slash(s);
        let seg = s.skip(k + 1);
        if is_dot(seg) {
            if k < 0 {
                None
            } else {
                proof {
                    lemma_last_slash(s);
                }
                split_file_name(s.take(k))
            }
        } else if is_dot_dot(seg) {
            None
        } else {
            Some((s.take(k + 1), seg))
        }
    }
}

/// `Path::file_name`: the final component of a path when it is a name.
pub open spec fn file_name(s: Seq<char>) -> Option<Seq<char>> {
    match split_file_name(s) {
        Some((_, name)) => Some(name),
        None => None,
    }
}

/// How much of `s` remains once trailing `/` and `.` components are
/// dropped, keeping a lone root `/` and a leading `.`.
pub open spec fn kept_len(s: Seq<char>) -> int
    decreases s.len(),
{
    if s.len() == 0 {
        0
    } else if s.last() == '/' {
        if s.len() == 1 {
            1
        } else {
            kept_len(s.drop_last())
        }
    } else {
        let k = last_slash(s);
        if k >= 0 && is_dot(s.skip(k + 1)) {
            proof {
                lemma_last_slash(s);
            }
            kept_len(s.take(k + 1))
        } else {
            s.len() as int
        }
    }
}

/// `PathBuf::push` of a relative component `name`: a `/` goes between them
/// unless `s` is empty or already ends in one.
pub open spec fn push_component(s: Seq<char>, name: Seq<char>) -> Seq<char> {
    if s.len() == 0 || s.last() == '/' {
        s + name
    } else {
        s + seq!['/'] + name
    }
}

/// `Path::with_file_name` for a relative `name`: the final name is replaced
/// (the parent, with trailing separators dropped, gets `name` pushed), or,
/// where the path has no final name, `name` is pushed onto it.
pub open spec fn with_file_name(s: Seq<char>, name: Seq<char>) -> Seq<char> {
    match split_file_name(s) {
        Some((dir, _)) => push_component(dir.take(kept_len(dir)), name),
        None => push_component(s, name),
    }
}

/// The name of the temporary sibling of a file: `.` + its name + `.new`.
pub open spec fn temp_sibling_name(target: Seq<char>) -> Seq<char> {
    let name = match file_name(target) {
        Some(n) => n,
        None => Seq::<char>::empty(),
    };
    seq!['.'] + name + seq!['.', 'n', 'e', 'w']
}

/// `last_slash` is -1 or the position of a `/`, and no `/` follows it.
pub proof fn lemma_last_slash(s: Seq<char>)
    ensures
        -1 <= last_slash(s) < s.len(),
        last_slash(s) >= 0 ==> s[last_slash(s)] == '/',
        forall|j: int| last_slash(s) < j < s.len() ==> s[j] != '/',
    decreases s.len(),
{
    if s.len() > 0 && s.last() != '/' {
        lemma_last_slash(s.drop_last());
        assert forall|j: int| last_slash(s) < j < s.len() implies s[j] != '/' by {
            if j < s.len() - 1 {
                assert(s[j] == s.drop_last()[j]);
            }
        }
    }
}

proof fn lemma_split_file_name(s: Seq<char>)
    ensures
        split_file_name(s) matches Some((dir, name)) ==> {
            &&& dir.len() + name.len() <= s.len()
            &&& dir =~= s.take(dir.len() as int)
            &&& name =~= s.subrange(dir.len() as int, (dir.len() + name.len()) as int)
            &&& name.len() > 0
            &&& (dir.len() == 0 || dir.last() == '/')
            &&& !name.contains('/')
        },
    decreases s.len(),
{
    if s.len() == 0 {
    } else if s.last() == '/' {
        lemma_split_file_name(s.drop_last());
        if let Some((dir, name)) = split_file_name(s.drop_last()) {
            assert(dir =~= s.take(dir.len() as int));
            assert(name =~= s.subrange(dir.len() as int, (dir.len() + name.len()) as int));
        }
    } else {
        lemma_last_slash(s);
        let k = last_slash(s);
        let seg = s.skip(k + 1);
        if is_dot(seg) {
            if k >= 0 {
                lemma_split_file_name(s.take(k));
                if let Some((dir, name)) = split_file_name(s.take(k)) {
                    assert(dir =~= s.take(dir.len() as int));
                    assert(name =~= s.subrange(dir.len() as int, (dir.len() + name.len()) as int));
                }
            }
        } else if !is_dot_dot(seg) {
            if seg.contains('/') {
                let j = choose|j: int| 0 <= j < seg.len() && seg[j] == '/';
                assert(s[k + 1 + j] == '/');
            }
        }
    }
}

proof fn lemma_last_slash_append(a: Seq<char>, b: Seq<char>)
    requires
        !b.contains('/'),
    ensures
        last_slash(a + b) == last_slash(a),
    decreases b.len(),
{
    if b.len() == 0 {
        assert(a + b =~= a);
    } else {
        assert((a + b).last() == b.last());
        if b.last() == '/' {
            assert(b.contains('/'));
        }
        assert((a + b).drop_last() =~= a + b.drop_last());
        if b.drop_last().contains('/') {
            let j = choose|j: int| 0 <= j < b.drop_last().len() && b.drop_last()[j] == '/';
            assert(b[j] == '/');
        }
        lemma_last_slash_append(a, b.drop_last());
    }
}

/// A name that `Path::file_name` gives back as it is: not empty, no `/`, not `.` or `..`.
pub open spec fn plain_name(n: Seq<char>) -> bool {
    n.len() > 0 && !n.contains('/') && !is_dot(n) && !is_dot_dot(n)
}

/// Pushing a plain name makes it the file name: `file_name(push(s, n)) == n`,
/// and what precedes it is `s` followed by a separator where one is needed.
pub proof fn lemma_push_then_file_name(s: Seq<char>, n: Seq<char>)
    requires
        plain_name(n),
    ensures
        split_file_name(push_component(s, n)) == Some((push_component(s, n).take(push_component(s, n).len() - n.len()), n)),
        file_name(push_component(s, n)) == Some(n),
{
    let a = if s.len() == 0 || s.last() == '/' { s } else { s + seq!['/'] };
    let r = push_component(s, n);
    assert(r =~= a + n);
    lemma_last_slash_append(a, n);
    if a.len() > 0 {
        assert(a.last() == '/');
        assert(last_slash(a) == a.len() - 1);
    } else {
        assert(last_slash(a) == -1);
    }
    assert(r.last() == n.last());
    if n.last() == '/' {
        assert(n.contains('/'));
    }
    assert(r.skip(last_slash(r) + 1) =~= n);
    assert(r.take(last_slash(r) + 1) =~= r.take(r.len() - n.len()));
}

/// Replacing the file name of any path with a plain name makes it the file name.
pub proof fn lemma_with_file_name_sets_name(s: Seq<char>, n: Seq<char>)
    requires
        plain_name(n),
    ensures
        file_name(with_file_name(s, n)) == Some(n),
{
    match split_file_name(s) {
        Some((dir, _)) => lemma_push_then_file_name(dir.take(kept_len(dir)), n),
        None => lemma_push_then_file_name(s, n),
    }
}

/// The temporary sibling of any path is named `.` + its file name + `.new`.
pub proof fn lemma_temp_sibling_name(target: Seq<char>)
    ensures
        file_name(with_file_name(target, temp_sibling_name(target))) == Some(temp_sibling_name(target)),
{
    let n = temp_sibling_name(target);
    lemma_split_file_name(target);
    let name = match file_name(target) {
        Some(x) => x,
        None => Seq::<char>::empty(),
    };
    assert(n =~= seq!['.'] + name + seq!['.', 'n', 'e', 'w']);
    if n.contains('/') {
        let j = choose|j: int| 0 <= j < n.len() && n[j] == '/';
        if 1 <= j < 1 + name.len() {
            assert(name[j - 1] == '/');
            assert(name.contains('/'));
        }
    }
    assert(n.len() >= 5);
    lemma_with_file_name_sets_name(target, n);
}

/// `Path::parent` of a path that has a final name: what precedes the name,
/// with trailing separators dropped; `None` for a path without a final name.
pub open spec fn name_parent(s: Seq<char>) -> Option<Seq<char>> {
    match split_file_name(s) {
        Some((dir, _)) => Some(dir.take(kept_len(dir))),
        None => None,
    }
}

proof fn lemma_kept_len_idempotent(x: Seq<char>)
    ensures
        0 <= kept_len(x) <= x.len(),
        kept_len(x.take(kept_len(x))) == kept_len(x),
    decreases x.len(),
{
    if x.len() == 0 {
    } else if x.last() == '/' {
        if x.len() == 1 {
            assert(x.take(1) =~= x);
        } else {
            let y = x.drop_last();
            lemma_kept_len_idempotent(y);
            assert(x.take(kept_len(y)) =~= y.take(kept_len(y)));
        }
    } else {
        lemma_last_slash(x);
        let k = last_slash(x);
        if k >= 0 && is_dot(x.skip(k + 1)) {
            let y = x.take(k + 1);
            lemma_kept_len_idempotent(y);
            assert(x.take(kept_len(y)) =~= y.take(kept_len(y)));
        } else {
            assert(x.take(x.len() as int) =~= x);
        }
    }
}

/// Replacing the final name keeps the parent: a path with a final name and
/// the same path with that name replaced by a plain name have the same parent.
pub proof fn lemma_with_file_name_keeps_parent(s: Seq<char>, n: Seq<char>)
    requires
        plain_name(n),
        file_name(s) is Some,
    ensures
        name_parent(with_file_name(s, n)) == name_parent(s),
{
    let (dir, _) = split_file_name(s).unwrap();
    let d = dir.take(kept_len(dir));
    lemma_kept_len_idempotent(dir);
    assert(kept_len(d) == d.len());
    let r = push_component(d, n);
    lemma_push_then_file_name(d, n);
    let p = r.take(r.len() - n.len());
    if d.len() == 0 {
        assert(p =~= d);
    } else if d.last() == '/' {
        assert(p =~= d);
        if d.len() > 1 {
            assert(d.drop_last().len() < d.len());
            lemma_kept_len_idempotent(d.drop_last());
        }
        assert(p.take(kept_len(p)) =~= d);
    } else {
        assert(p =~= d + seq!['/']);
        assert(p.drop_last() =~= d);
        assert(p.take(kept_len(p)) =~= d);
    }
}

/// The temporary sibling of a file lies in the same directory as the file.
pub proof fn lemma_temp_sibling_same_parent(target: Seq<char>)
    requires
        file_name(target) is Some,
    ensures
        name_parent(with_file_name(target, temp_sibling_name(target))) == name_parent(target),
{
    let n = temp_sibling_name(target);
    lemma_split_file_name(target);
    let name = file_name(target).unwrap();
    assert(n =~= seq!['.'] + name + seq!['.', 'n', 'e', 'w']);
    if n.contains('/') {
        let j = choose|j: int| 0 <= j < n.len() && n[j] == '/';
        if 1 <= j < 1 + name.len() {
            assert(name[j - 1] == '/');
            assert(name.contains('/'));
        }
    }
    lemma_with_file_name_keeps_parent(target, n);
}

/// Index one past the last `/` among the first `end` characters of `v` (0 if none).
fn after_last_slash(v: &[char], end: usize) -> (r: usize)
    requires
        end <= v@.len(),
    ensures
        r == last_slash(v@.take(end as int)) + 1,
        r <= end,
{
    let mut i = end;
    while i > 0
        invariant
            i <= end <= v@.len(),
            last_slash(v@.take(end as int)) == last_slash(v@.take(i as int)),
        decreases i,
    {
        if v[i - 1] == '/' {
            return i;
        }
        assert(v@.take(i as int).drop_last() =~= v@.take(i - 1));
        i = i - 1;
    }
    i
}

fn segment_is(v: &[char], start: usize, end: usize, dots: usize) -> (r: bool)
    requires
        start <= end <= v@.len(),
        dots == 1 || dots == 2,
    ensures
        dots == 1 ==> r == is_dot(v@.subrange(start as int, end as int)),
        dots == 2 ==> r == is_dot_dot(v@.subrange(start as int, end as int)),
{
    if end - start != dots {
        return false;
    }
    if dots == 1 {
        let r = v[start] == '.';
        assert(v@.subrange(start as int, end as int)[0] == v@[start as int]);
        assert(r ==> v@.subrange(start as int, end as int) =~= seq!['.']);
        r
    } else {
        let r = v[start] == '.' && v[start + 1] == '.';
        assert(v@.subrange(start as int, end as int)[0] == v@[start as int]);
        assert(v@.subrange(start as int, end as int)[1] == v@[start + 1]);
        assert(r ==> v@.subrange(start as int, end as int) =~= seq!['.', '.']);
        r
    }
}

/// Where the final name of the first `end` characters of `v` lies:
/// `Some((a, b))` when that prefix splits into `v[..a]` and the name `v[a..b]`.
fn name_bounds(v: &[char], end: usize) -> (r: Option<(usize, usize)>)
    requires
        end <= v@.len(),
    ensures
        match split_file_name(v@.take(end as int)) {
            None => r is None,
            Some((dir, name)) => r matches Some((a, b)) && a <= b <= end && dir == v@.take(a as int)
                && name == v@.subrange(a as int, b as int),
        },
    decreases end,
{
    let ghost s = v@.take(end as int);
    if end == 0 {
        return None;
    }
    if v[end - 1] == '/' {
        assert(s.drop_last() =~= v@.take(end - 1));
        return name_bounds(v, end - 1);
    }
    let a = after_last_slash(v, end);
    assert(s.skip(a as int) =~= v@.subrange(a as int, end as int));
    if segment_is(v, a, end, 1) {
        if a == 0 {
            return None;
        }
        assert(s.take(a - 1) =~= v@.take(a - 1));
        return name_bounds(v, a - 1);
    }
    if segment_is(v, a, end, 2) {
        return None;
    }
    assert(s.take(a as int) =~= v@.take(a as int));
    Some((a, end))
}

/// `kept_len` of the first `end` characters of `v`.
fn kept_prefix(v: &[char], end: usize) -> (r: usize)
    requires
        end <= v@.len(),
    ensures
        r == kept_len(v@.take(end as int)),
        r <= end,
    decreases end,
{
    let ghost s = v@.take(end as int);
    if end == 0 {
        return 0;
    }
    if v[end - 1] == '/' {
        if end == 1 {
            return 1;
        }
        assert(s.drop_last() =~= v@.take(end - 1));
        return kept_prefix(v, end - 1);
    }
    let a = after_last_slash(v, end);
    assert(s.skip(a as int) =~= v@.subrange(a as int, end as int));
    if a >= 1 && segment_is(v, a, end, 1) {
        assert(s.take(a as int) =~= v@.take(a as int));
        return kept_prefix(v, a);
    }
    end
}

fn push_component_chars(s: &mut Vec<char>, name: &[char])
    ensures
        final(s)@ == push_component(old(s)@, name@),
{
    let n = s.len();
    if n > 0 && s[n - 1] != '/' {
        s.push('/');
    }
    let m = name.len();
    let ghost base = s@;
    for i in 0..m
        invariant
            m == name@.len(),
            s@ == base + name@.take(i as int),
    {
        s.push(name[i]);
        assert(name@.take(i + 1) =~= name@.take(i as int).push(name@[i as int]));
    }
    assert(name@.take(m as int) =~= name@);
    assert(final(s)@ =~= push_component(old(s)@, name@));
}

/// `Path::file_name` of `path`, as text.
pub fn path_file_name(path: &str) -> (r: Option<String>)
    ensures
        match file_name(path@) {
            None => r is None,
            Some(n) => r matches Some(x) && x@ == n,
        },
{
    let v = chars_of(path);
    assert(v@.take(v@.len() as int) =~= v@);
    match name_bounds(v.as_slice(), v.len()) {
        None => None,
        Some((a, b)) => {
            let mut name: Vec<char> = Vec::new();
            for i in a..b
                invariant
                    a <= b <= v@.len(),
                    name@ == v@.subrange(a as int, i as int),
            {
                name.push(v[i]);
                assert(v@.subrange(a as int, i + 1) =~= v@.subrange(a as int, i as int).push(v@[i as int]));
            }
            Some(string_from_chars(name.as_slice()))
        },
    }
}

/// `Path::with_file_name(path, name)` for a relative `name`.
pub fn path_with_file_name(path: &str, name: &str) -> (r: String)
    ensures
        r@ == with_file_name(path@, name@),
{
    let v = chars_of(path);
    let nm = chars_of(name);
    assert(v@.take(v@.len() as int) =~= v@);
    match name_bounds(v.as_slice(), v.len()) {
        Some((a, _b)) => {
            let k = kept_prefix(v.as_slice(), a);
            let ghost dir = v@.take(a as int);
            assert(dir.take(k as int) =~= v@.take(k as int));
            let mut out = take_chars(v.as_slice(), k);
            push_component_chars(&mut out, nm.as_slice());
            string_from_chars(out.as_slice())
        },
        None => {
            let mut out = v;
            push_component_chars(&mut out, nm.as_slice());
            string_from_chars(out.as_slice())
        },
    }
}

/// The path of the temporary file that is written beside `target` before it
/// is renamed over it: the same directory, named `.` + the file name + `.new`.
pub fn temp_sibling(target: &str) -> (r: String)
    ensures
        r@ == with_file_name(target@, temp_sibling_name(target@)),
{
    let file_name = match path_file_name(target) {
        Some(n) => n,
        None => String::new(),
    };
    let mut name: Vec<char> = Vec::new();
    name.push('.');
    let fv = chars_of(file_name.as_str());
    let m = fv.len();
    for i in 0..m
        invariant
            m == fv@.len(),
            name@ == seq!['.'] + fv@.take(i as int),
    {
        name.push(fv[i]);
        assert(fv@.take(i + 1) =~= fv@.take(i as int).push(fv@[i as int]));
    }
    name.push('.');
    name.push('n');
    name.push('e');
    name.push('w');
    assert(fv@.take(m as int) =~= fv@);
    assert(name@ =~= temp_sibling_name(target@));
    let name = string_from_chars(name.as_slice());
    path_with_file_name(target, name.as_str())
}

/// The index of the last `.` in `s`, or -1 if there is none.
pub open spec fn last_dot(s: Seq<char>) -> int
    decreases s.len(),
{
    if s.len() == 0 {
        -1
    } else if s.last() == '.' {
        s.len() - 1
    } else {
        last_dot(s.drop_last())
    }
}

/// `Path::file_stem` of a file name: the text before its last `.`, or the
/// whole name when it has no `.` other than a leading one.
pub open spec fn file_stem(name: Seq<char>) -> Seq<char> {
    if last_dot(name) > 0 {
        name.take(last_dot(name))
    } else {
        name
    }
}

/// `Path::with_extension(s, ext)`: the final name is cut after its stem and
/// `.` + `ext` appended (nothing when `ext` is empty); a path with no final
/// name is left as it is.
pub open spec fn with_extension(s: Seq<char>, ext: Seq<char>) -> Seq<char> {
    match split_file_name(s) {
        Some((dir, name)) => dir + file_stem(name) + (if ext.len() > 0 {
            seq!['.'] + ext
        } else {
            Seq::<char>::empty()
        }),
        None => s,
    }
}

fn last_dot_in(v: &[char], start: usize, end: usize) -> (r: Option<usize>)
    requires
        start <= end <= v@.len(),
    ensures
        match r {
            Some(i) => start <= i < end && last_dot(v@.subrange(start as int, end as int)) == i - start,
            None => last_dot(v@.subrange(start as int, end as int)) == -1,
        },
{
    let mut i = end;
    while i > start
        invariant
            start <= i <= end <= v@.len(),
            last_dot(v@.subrange(start as int, end as int)) == last_dot(v@.subrange(start as int, i as int)),
        decreases i,
    {
        if v[i - 1] == '.' {
            return Some(i - 1);
        }
        assert(v@.subrange(start as int, i as int).drop_last() =~= v@.subrange(start as int, i - 1));
        i = i - 1;
    }
    assert(v@.subrange(start as int, i as int) =~= Seq::<char>::empty());
    None
}

/// `Path::with_extension(path, ext)`.
pub fn path_with_extension(path: &str, ext: &str) -> (r: String)
    ensures
        r@ == with_extension(path@, ext@),
{
    let v = chars_of(path);
    assert(v@.take(v@.len() as int) =~= v@);
    match name_bounds(v.as_slice(), v.len()) {
        None => string_from_chars(v.as_slice()),
        Some((a, b)) => {
            let ghost name = v@.subrange(a as int, b as int);
            let stem_end = match last_dot_in(v.as_slice(), a, b) {
                Some(i) => if i > a { i } else { b },
                None => b,
            };
            assert(v@.take(stem_end as int) =~= v@.take(a as int) + file_stem(name));
            let mut out = take_chars(v.as_slice(), stem_end);
            let e = chars_of(ext);
            if e.len() > 0 {
                out.push('.');
                let m = e.len();
                let ghost base = out@;
                for i in 0..m
                    invariant
                        m == e@.len(),
                        out@ == base + e@.take(i as int),
                {
                    out.push(e[i]);
                    assert(e@.take(i + 1) =~= e@.take(i as int).push(e@[i as int]));
                }
                assert(e@.take(m as int) =~= e@);
            }
            assert(out@ =~= with_extension(path@, ext@));
            string_from_chars(out.as_slice())
        },
    }
}

/// `Path::join(base, name)` for a relative `name`.
pub fn join(base: &str, name: &str) -> (r: String)
    ensures
        r@ == push_component(base@, name@),
{
    let mut out = chars_of(base);
    let nm = chars_of(name);
    push_component_chars(&mut out, nm.as_slice());
    string_from_chars(out.as_slice())
}

} // verus!
