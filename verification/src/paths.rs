//! Paths on disk: where uploaded images go and which name a new file gets.
//! Paths are held as text; `std::path` does the joining and splitting.

use crate::text::{chars_of, decimal, is_digit, push_char, push_decimal, string_from_chars};
pub mod disk;

pub use self::disk::{answers, path_exists, DiskAnswer};
use std::path::Path;
use vstd::prelude::*;

verus! {

/// The final component of a Unix path, as `Path::file_name` reads it:
/// trailing separators and `.` components at the end are passed over, a
/// path that ends in `..` (or is `.`, `..`, `/` or empty) has none.
pub open spec fn final_component(path: Seq<char>) -> Option<Seq<char>>
    decreases path.len(),
{
    if path.len() == 0 {
        None
    } else if path.last() == '/' {
        final_component(path.drop_last())
    } else if path.contains('/') {
        let i = last_index(path, '/');
        let seg = path.skip(i + 1);
        if seg == seq!['.'] {
            proof {
                lemma_last_index_exists(path, '/');
            }
            final_component(path.take(i))
        } else if seg == seq!['.', '.'] {
            None
        } else {
            Some(seg)
        }
    } else if path == seq!['.'] || path == seq!['.', '.'] {
        None
    } else {
        Some(path)
    }
}

/// A Unix path adjoined to another, as `Path::join` does it: an absolute
/// `part` replaces `base`; otherwise `part` follows `base`, with a `/`
/// between them unless `base` is empty or already ends in one.
pub open spec fn joined_path(base: Seq<char>, part: Seq<char>) -> Seq<char> {
    if is_absolute(part) {
        part
    } else if base.len() == 0 || base.last() == '/' {
        base + part
    } else {
        base + seq!['/'] + part
    }
}

/// A single normal path component: not empty, no `/`, and neither `.` nor `..`.
pub open spec fn is_plain_component(n: Seq<char>) -> bool {
    &&& n.len() > 0
    &&& !n.contains('/')
    &&& n != seq!['.']
    &&& n != seq!['.', '.']
}

/// `Path::file_name` (then `OsStr::to_str`, which cannot fail on a path made
/// from text): the final component of `path`. The contract claims that the
/// result is that component as `final_component` reads it on Unix.
#[verifier::external_body]
pub fn file_name_of(path: &str) -> (res: Option<String>)
    ensures
        match res {
            Some(n) => final_component(path@) == Some(n@),
            None => final_component(path@) is None,
        },
{
    Path::new(path).file_name().and_then(|n| n.to_str()).map(|n| n.to_string())
}

/// `Path::join` (then the path as text, which is lossless on a path made
/// from text): `part` adjoined to `base`. The contract claims that the
/// result is `joined_path` of the two on Unix.
#[verifier::external_body]
pub fn join_path(base: &str, part: &str) -> (res: String)
    ensures
        res@ == joined_path(base@, part@),
{
    Path::new(base).join(part).to_string_lossy().into_owned()
}

/// A final component is a single normal component.
pub proof fn lemma_final_component_plain(p: Seq<char>)
    ensures
        final_component(p) matches Some(n) ==> is_plain_component(n),
    decreases p.len(),
{
    if p.len() == 0 {
    } else if p.last() == '/' {
        lemma_final_component_plain(p.drop_last());
    } else if p.contains('/') {
        lemma_last_index_exists(p, '/');
        let i = last_index(p, '/');
        let seg = p.skip(i + 1);
        assert(i < p.len() - 1);
        if seg == seq!['.'] {
            lemma_final_component_plain(p.take(i));
        } else if seg != seq!['.', '.'] {
            assert(seg.len() > 0);
            if seg.contains('/') {
                let j = choose|j: int| 0 <= j < seg.len() && seg[j] == '/';
                assert(p[i + 1 + j] == '/');
            }
        }
    }
}

/// Adjoining a plain name to a folder gives a path whose final component is
/// that name.
pub proof fn lemma_join_plain(base: Seq<char>, n: Seq<char>)
    requires
        is_plain_component(n),
    ensures
        final_component(joined_path(base, n)) == Some(n),
{
    if n[0] == '/' {
        assert(n.contains('/'));
    }
    assert(!is_absolute(n));
    let j = joined_path(base, n);
    let at = if base.len() == 0 || base.last() == '/' { base.len() - 1 } else { base.len() as int };
    assert(j.last() == n.last());
    if n.last() == '/' {
        assert(n.contains('/'));
    }
    if base.len() == 0 {
        assert(j == n);
    } else {
        assert(j[at] == '/');
        assert forall|k: int| at < k < j.len() implies j[k] != '/' by {
            assert(j[k] == n[k - at - 1]);
            if n[k - at - 1] == '/' {
                assert(n.contains('/'));
            }
        }
        lemma_last_index_unique(j, '/', at);
        assert(j.skip(at + 1) == n);
    }
}


/// On Unix a path is absolute exactly when it starts with `/`.
pub open spec fn is_absolute(p: Seq<char>) -> bool {
    p.len() > 0 && p[0] == '/'
}

/// Whether a path is absolute (Unix: it starts with the root `/`).
pub fn is_absolute_path(p: &str) -> (b: bool)
    ensures
        b == is_absolute(p@),
{
    let cs = chars_of(p);
    cs.len() > 0 && cs[0] == '/'
}

// ---------------------------------------------------------------------------
// Stem and extension of a file name
// ---------------------------------------------------------------------------

pub open spec fn is_last_index(s: Seq<char>, c: char, i: int) -> bool {
    &&& 0 <= i < s.len()
    &&& s[i] == c
    &&& forall|j: int| i < j < s.len() ==> s[j] != c
}

pub open spec fn last_index(s: Seq<char>, c: char) -> int {
    choose|i: int| is_last_index(s, c, i)
}

/// The stem and extension of a file name, as `Path::file_stem` and
/// `Path::extension` describe them: without a `.` after the first character
/// the whole name is the stem and there is no extension; otherwise the name
/// splits at its last `.`.
pub open spec fn stem_and_extension(name: Seq<char>) -> (Seq<char>, Option<Seq<char>>) {
    if name.contains('.') && last_index(name, '.') > 0 {
        let i = last_index(name, '.');
        (name.take(i), Some(name.skip(i + 1)))
    } else {
        (name, None)
    }
}

pub proof fn lemma_last_index_unique(s: Seq<char>, c: char, i: int)
    requires
        is_last_index(s, c, i),
    ensures
        last_index(s, c) == i,
        s.contains(c),
{
    let k = last_index(s, c);
    assert(is_last_index(s, c, k));
    if k < i {
        assert(s[i] != c);
    } else if k > i {
        assert(s[k] != c);
    }
}

/// Splits a file name into stem and extension.
pub fn split_stem_extension(name: &str) -> (res: (String, Option<String>))
    ensures
        res.0@ == stem_and_extension(name@).0,
        match res.1 {
            Some(e) => stem_and_extension(name@).1 == Some(e@),
            None => stem_and_extension(name@).1 is None,
        },
{
    let cs = chars_of(name);
    let n = cs.len();
    let mut i = n;
    while i > 0
        invariant
            i <= n == cs@.len(),
            cs@ == name@,
            forall|j: int| i <= j < n ==> cs@[j] != '.',
        decreases i,
    {
        if cs[i - 1] == '.' {
            proof {
                lemma_last_index_unique(cs@, '.', i - 1);
            }
            if i - 1 == 0 {
                return (string_from_chars(&cs, 0, n), None);
            }
            let stem = string_from_chars(&cs, 0, i - 1);
            let ext = string_from_chars(&cs, i, n);
            assert(ext@ == name@.skip(i as int));
            return (stem, Some(ext));
        }
        i = i - 1;
    }
    assert(!name@.contains('.'));
    (string_from_chars(&cs, 0, n), None)
}

// ---------------------------------------------------------------------------
// Names for uploaded files
// ---------------------------------------------------------------------------

/// The stem that an uploaded file keeps: that of its final component, or
/// `file` where the name has none.
pub open spec fn upload_stem(filename: Seq<char>) -> Seq<char> {
    match final_component(filename) {
        Some(n) => stem_and_extension(n).0,
        None => seq!['f', 'i', 'l', 'e'],
    }
}

/// The extension that an uploaded file keeps, if any.
pub open spec fn upload_extension(filename: Seq<char>) -> Option<Seq<char>> {
    match final_component(filename) {
        Some(n) => stem_and_extension(n).1,
        None => None,
    }
}

/// The `k`-th name tried for a file: `stem.ext` first, then `stem_k.ext`
/// (without `.ext` where there is no extension).
pub open spec fn numbered_name(stem: Seq<char>, ext: Option<Seq<char>>, k: nat) -> Seq<char> {
    let base = if k == 0 { stem } else { stem + seq!['_'] + decimal(k) };
    match ext {
        Some(e) => base + seq!['.'] + e,
        None => base,
    }
}

/// A stem and extension that make plain names: the stem is not empty and
/// neither part holds `/`; an extension-free stem is itself a plain name,
/// and a stem with an extension joins to one.
pub open spec fn plain_parts(stem: Seq<char>, ext: Option<Seq<char>>) -> bool {
    &&& stem.len() > 0
    &&& !stem.contains('/')
    &&& match ext {
        Some(e) => !e.contains('/') && is_plain_component(stem + seq!['.'] + e),
        None => is_plain_component(stem),
    }
}

proof fn lemma_no_char_concat(a: Seq<char>, b: Seq<char>, c: char)
    requires
        !a.contains(c),
        !b.contains(c),
    ensures
        !(a + b).contains(c),
{
    if (a + b).contains(c) {
        let i = choose|i: int| 0 <= i < (a + b).len() && (a + b)[i] == c;
        if i < a.len() {
            assert(a[i] == c);
        } else {
            assert(b[i - a.len()] == c);
        }
    }
}

proof fn lemma_decimal_digits(n: nat)
    ensures
        forall|i: int| 0 <= i < decimal(n).len() ==> is_digit(#[trigger] decimal(n)[i]),
        decimal(n).len() > 0,
    decreases n,
{
    if n >= 10 {
        lemma_decimal_digits(n / 10);
    }
}

proof fn lemma_no_slash_in_decimal(n: nat)
    ensures
        !decimal(n).contains('/'),
{
    lemma_decimal_digits(n);
    if decimal(n).contains('/') {
        let i = choose|i: int| 0 <= i < decimal(n).len() && decimal(n)[i] == '/';
        assert(is_digit(decimal(n)[i]));
    }
}

proof fn lemma_single_no_slash(c: char)
    requires
        c != '/',
    ensures
        !seq![c].contains('/'),
{
    if seq![c].contains('/') {
        let i = choose|i: int| 0 <= i < seq![c].len() && seq![c][i] == '/';
        assert(seq![c][i] == c);
    }
}

proof fn lemma_subrange_no_char(s: Seq<char>, lo: int, hi: int, c: char)
    requires
        0 <= lo <= hi <= s.len(),
        !s.contains(c),
    ensures
        !s.subrange(lo, hi).contains(c),
{
    if s.subrange(lo, hi).contains(c) {
        let i = choose|i: int| 0 <= i < s.subrange(lo, hi).len() && s.subrange(lo, hi)[i] == c;
        assert(s[lo + i] == c);
    }
}

pub proof fn lemma_last_index_exists(s: Seq<char>, c: char)
    requires
        s.contains(c),
    ensures
        is_last_index(s, c, last_index(s, c)),
    decreases s.len(),
{
    if s.last() == c {
        assert(is_last_index(s, c, s.len() - 1));
    } else {
        let i = choose|i: int| 0 <= i < s.len() && s[i] == c;
        assert(s.drop_last()[i] == c);
        lemma_last_index_exists(s.drop_last(), c);
        let j = last_index(s.drop_last(), c);
        assert forall|k: int| j < k < s.len() implies s[k] != c by {
            if k < s.len() - 1 {
                assert(s.drop_last()[k] == s[k]);
            }
        }
        assert(is_last_index(s, c, j));
    }
}

/// The stem and extension of a plain name make plain names.
pub proof fn lemma_split_plain(n: Seq<char>)
    requires
        is_plain_component(n),
    ensures
        plain_parts(stem_and_extension(n).0, stem_and_extension(n).1),
{
    if n.contains('.') && last_index(n, '.') > 0 {
        let i = last_index(n, '.');
        lemma_last_index_exists(n, '.');
        let stem = n.take(i);
        let ext = n.skip(i + 1);
        lemma_subrange_no_char(n, 0, i, '/');
        lemma_subrange_no_char(n, i + 1, n.len() as int, '/');
        assert(stem == n.subrange(0, i));
        assert(ext == n.subrange(i + 1, n.len() as int));
        assert(stem + seq!['.'] + ext == n);
    }
}

/// Every numbered name made of plain parts is a plain name.
pub proof fn lemma_numbered_plain(stem: Seq<char>, ext: Option<Seq<char>>, k: nat)
    requires
        plain_parts(stem, ext),
    ensures
        is_plain_component(numbered_name(stem, ext, k)),
{
    if k > 0 {
        let base = stem + seq!['_'] + decimal(k);
        lemma_decimal_digits(k);
        lemma_no_slash_in_decimal(k);
        lemma_single_no_slash('_');
        lemma_no_char_concat(stem, seq!['_'], '/');
        lemma_no_char_concat(stem + seq!['_'], decimal(k), '/');
        assert(base.len() >= 3);
        match ext {
            Some(e) => {
                lemma_single_no_slash('.');
                lemma_no_char_concat(base, seq!['.'], '/');
                lemma_no_char_concat(base + seq!['.'], e, '/');
                let name = base + seq!['.'] + e;
                assert(name.len() >= 4);
                assert(name != seq!['.']);
                assert(name != seq!['.', '.']);
            },
            None => {
                assert(base != seq!['.']);
                assert(base != seq!['.', '.']);
            },
        }
    }
}

fn numbered_name_string(stem: &String, ext: &Option<String>, k: u64) -> (s: String)
    ensures
        s@ == numbered_name(stem@, match ext { Some(e) => Some(e@), None => None }, k as nat),
{
    let mut s = stem.clone();
    if k > 0 {
        push_char(&mut s, '_');
        push_decimal(&mut s, k);
    }
    match ext {
        Some(e) => {
            push_char(&mut s, '.');
            s.append(e.as_str());
        },
        None => {},
    }
    s
}

/// The highest number that a candidate name gets (the counter is an `i32`).
pub const MAX_COLLISION_COUNTER: u64 = 2147483647;

/// One step of the search for a free name: after probing the candidate with
/// number `counter`, the search goes on to the next number exactly when that
/// candidate was taken and the counter has not reached its limit; otherwise
/// it stops at this candidate.
pub fn collision_step(counter: u64, taken: bool) -> (next: Option<u64>)
    ensures
        next == (if taken && counter < MAX_COLLISION_COUNTER {
            Some((counter + 1) as u64)
        } else {
            None
        }),
{
    if taken && counter < MAX_COLLISION_COUNTER {
        Some(counter + 1)
    } else {
        None
    }
}

/// A record of the probes of a search for a free name in `dir`, each the
/// path looked at and whether something was there, that ends as the search
/// does: the paths are the numbered candidates in order from `0`, every one
/// but the last was found taken, and the last was found free unless the
/// counter reached its limit.
pub open spec fn probes_settled(
    dir: Seq<char>,
    stem: Seq<char>,
    ext: Option<Seq<char>>,
    probes: Seq<(Seq<char>, bool)>,
) -> bool {
    &&& 1 <= probes.len() <= MAX_COLLISION_COUNTER + 1
    &&& forall|i: int|
        #![trigger probes[i]]
        0 <= i < probes.len() ==> probes[i].0 == joined_path(dir, numbered_name(stem, ext, i as nat))
    &&& forall|i: int| #![trigger probes[i]] 0 <= i < probes.len() - 1 ==> probes[i].1
    &&& !probes.last().1 || probes.len() == MAX_COLLISION_COUNTER + 1
}

/// A path in `dir` for a file called `filename` that nothing on disk holds:
/// `dir/stem.ext` where that is free, else `dir/stem_1.ext`, `dir/stem_2.ext`,
/// ..., the first one found free. The stem and extension are those of the
/// final component of `filename` (`file` and none where it has none).
/// Beside the path come the disk's answers, in the order they were asked
/// for: which candidate was looked at and whether something lay there. Each
/// answer is a `DiskAnswer`, which only asking the disk can make, so the
/// record shows what the disk said. The counter stops at `i32::MAX`: that
/// candidate is returned whatever the disk answered.
pub fn resolve_filename_collision(dir: &str, filename: &str) -> (r: (String, Vec<DiskAnswer>))
    ensures
        probes_settled(dir@, upload_stem(filename@), upload_extension(filename@), answers(r.1@)),
        r.0@ == r.1@.last()@.0,
        is_plain_component(
            numbered_name(upload_stem(filename@), upload_extension(filename@), (r.1@.len() - 1) as nat),
        ),
        final_component(r.0@) == Some(
            numbered_name(upload_stem(filename@), upload_extension(filename@), (r.1@.len() - 1) as nat),
        ),
{
    let (stem, ext) = match file_name_of(filename) {
        Some(n) => {
            let r = split_stem_extension(n.as_str());
            proof {
                lemma_final_component_plain(filename@);
                lemma_split_plain(n@);
            }
            r
        },
        None => {
            let mut d = String::new();
            push_char(&mut d, 'f');
            push_char(&mut d, 'i');
            push_char(&mut d, 'l');
            push_char(&mut d, 'e');
            assert(d@ == seq!['f', 'i', 'l', 'e']);
            proof {
                assert(!d@.contains('/')) by {
                    if d@.contains('/') {
                        let i = choose|i: int| 0 <= i < d@.len() && d@[i] == '/';
                        assert(d@[i] != '/');
                    }
                }
            }
            (d, None)
        },
    };
    let ghost gstem = upload_stem(filename@);
    let ghost gext = upload_extension(filename@);
    assert(stem@ == gstem);
    assert((match ext { Some(e) => Some(e@), None => None::<Seq<char>> }) == gext);
    assert(plain_parts(gstem, gext));
    let mut k: u64 = 0;
    let mut probes: Vec<DiskAnswer> = Vec::new();
    loop
        invariant
            k <= MAX_COLLISION_COUNTER,
            probes@.len() == k,
            forall|i: int|
                #![trigger probes@[i]]
                0 <= i < k ==> probes@[i]@.0 == joined_path(dir@, numbered_name(gstem, gext, i as nat))
                    && probes@[i]@.1,
            gstem == upload_stem(filename@),
            gext == upload_extension(filename@),
            stem@ == gstem,
            (match ext { Some(e) => Some(e@), None => None::<Seq<char>> }) == gext,
            plain_parts(gstem, gext),
        decreases MAX_COLLISION_COUNTER - k,
    {
        let name = numbered_name_string(&stem, &ext, k);
        proof {
            lemma_numbered_plain(gstem, gext, k as nat);
            lemma_join_plain(dir@, name@);
        }
        let candidate = join_path(dir, name.as_str());
        let answer = path_exists(candidate.as_str());
        let taken = answer.found();
        match collision_step(k, taken) {
            Some(next) => {
                probes.push(answer);
                k = next;
            },
            None => {
                let path = answer.path().clone();
                probes.push(answer);
                proof {
                    let rec = answers(probes@);
                    assert(rec.len() == probes@.len());
                    assert forall|i: int| 0 <= i < rec.len() implies #[trigger] rec[i] == probes@[i]@ by {}
                    assert(probes@.last() == probes@[k as int]);
                }
                return (path, probes);
            },
        }
    }
}

} // verus!
