//! Where the output file goes.
//!
//! The output stands beside the input: in the input's directory, under the
//! input's file stem, an optional suffix, a point and the extension asked
//! for. Nothing is looked up on disk; a path is read as text, with `/`
//! between its components.
//!
//! A path is read from its end. Separators at the end, and components that
//! are a lone `.`, name nothing and are passed over. The component before
//! them is the file name, unless it is `..` or there is none.

use vstd::prelude::*;
use vstd::string::StrSliceExecFns;
use vstd::string::StringExecFns;
use crate::text::chars_of;

verus! {

/// Where the components of `p` begin: behind the root `/`, or behind a
/// leading `.` that stands for the current directory.
pub open spec fn body_start(p: Seq<char>) -> int {
    if p.len() > 0 && p[0] == '/' {
        1
    } else if p.len() > 0 && p[0] == '.' && (p.len() == 1 || p[1] == '/') {
        1
    } else {
        0
    }
}

/// The end of `p[..e]` once the separators and lone `.` components at its
/// end are passed over.
pub open spec fn trim_end(p: Seq<char>, e: int) -> int
    decreases e,
{
    if e <= body_start(p) || e > p.len() {
        e
    } else if p[e - 1] == '/' {
        trim_end(p, e - 1)
    } else if p[e - 1] == '.' && e - 1 == body_start(p) {
        e - 1
    } else if p[e - 1] == '.' && p[e - 2] == '/' {
        trim_end(p, e - 2)
    } else {
        e
    }
}

/// Where the component of `p` that ends at `e` begins.
pub open spec fn component_start(p: Seq<char>, e: int) -> int
    decreases e,
{
    if e <= body_start(p) || e > p.len() || p[e - 1] == '/' {
        e
    } else {
        component_start(p, e - 1)
    }
}

/// Where the file name of `p` ends.
pub open spec fn name_end(p: Seq<char>) -> int {
    trim_end(p, p.len() as int)
}

/// Where the file name of `p` begins.
pub open spec fn name_start(p: Seq<char>) -> int {
    component_start(p, name_end(p))
}

/// Whether `p` has a file name: a last component that is not `..`.
pub open spec fn has_file_name(p: Seq<char>) -> bool {
    name_end(p) > body_start(p) && p.subrange(name_start(p), name_end(p)) != seq!['.', '.']
}

/// The file name of `p`, where it has one.
pub open spec fn file_name(p: Seq<char>) -> Option<Seq<char>> {
    if has_file_name(p) {
        Some(p.subrange(name_start(p), name_end(p)))
    } else {
        None
    }
}

/// Where the directory of `p` ends, for a `p` that has a file name: the
/// file name and the separator before it are taken off, and then whatever
/// names nothing at the new end.
pub open spec fn parent_end(p: Seq<char>) -> int {
    let b = name_start(p);
    if b > body_start(p) {
        trim_end(p, b - 1)
    } else {
        trim_end(p, b)
    }
}

/// The directory of `p`, where it has a file name.
pub open spec fn parent(p: Seq<char>) -> Option<Seq<char>> {
    if has_file_name(p) {
        Some(p.take(parent_end(p)))
    } else {
        None
    }
}

/// The index of the last point in `name[..e]`, or 0 where it holds none.
pub open spec fn last_point(name: Seq<char>, e: int) -> int
    decreases e,
{
    if e <= 0 || e > name.len() {
        0
    } else if name[e - 1] == '.' {
        e - 1
    } else {
        last_point(name, e - 1)
    }
}

/// The stem of a file name: what stands before its last point. A name
/// without a point, or with none but the one it begins with, is its own
/// stem.
pub open spec fn stem_of(name: Seq<char>) -> Seq<char> {
    let point = last_point(name, name.len() as int);
    if point > 0 {
        name.take(point)
    } else {
        name
    }
}

/// The file stem of `p`; empty where `p` has no file name.
pub open spec fn file_stem(p: Seq<char>) -> Seq<char> {
    match file_name(p) {
        Some(name) => stem_of(name),
        None => Seq::empty(),
    }
}

/// `base` with the file name `name` put behind it, and a separator between
/// the two where `base` is not empty and does not end in one.
pub open spec fn join(base: Seq<char>, name: Seq<char>) -> Seq<char> {
    if base.len() > 0 && base.last() != '/' {
        base + seq!['/'] + name
    } else {
        base + name
    }
}

/// `p` with its file name replaced by `name`. Where `p` has no file name,
/// `name` is put behind the whole of `p`.
pub open spec fn with_file_name(p: Seq<char>, name: Seq<char>) -> Seq<char> {
    match parent(p) {
        Some(directory) => join(directory, name),
        None => join(p, name),
    }
}

/// The path derived from `input`: in the same directory, the file stem of
/// `input`, then `suffix`, a point, and `extension`.
pub open spec fn derived_path(input: Seq<char>, suffix: Seq<char>, extension: Seq<char>) -> Seq<
    char,
> {
    with_file_name(input, file_stem(input) + suffix + seq!['.'] + extension)
}

/// Finds where the components of `p` begin.
fn find_body_start(p: &Vec<char>) -> (s: usize)
    ensures
        s == body_start(p@),
        s <= p.len(),
{
    if p.len() > 0 && p[0] == '/' {
        1
    } else if p.len() > 0 && p[0] == '.' && (p.len() == 1 || p[1] == '/') {
        1
    } else {
        0
    }
}

/// Passes over what names nothing at the end of `p[..e]`.
fn find_trim_end(p: &Vec<char>, start: usize, e: usize) -> (r: usize)
    requires
        start == body_start(p@),
        e <= p.len(),
    ensures
        r == trim_end(p@, e as int),
        r <= e,
{
    let mut i: usize = e;
    loop
        invariant
            start == body_start(p@),
            i <= e <= p.len(),
            trim_end(p@, e as int) == trim_end(p@, i as int),
        ensures
            i == trim_end(p@, e as int),
            i <= e,
        decreases i,
    {
        if i <= start {
            break ;
        } else if p[i - 1] == '/' {
            i = i - 1;
        } else if p[i - 1] == '.' && i - 1 == start {
            i = i - 1;
            break ;
        } else if p[i - 1] == '.' && p[i - 2] == '/' {
            i = i - 2;
        } else {
            break ;
        }
    }
    i
}

/// Finds where the component that ends at `e` begins.
fn find_component_start(p: &Vec<char>, start: usize, e: usize) -> (r: usize)
    requires
        start == body_start(p@),
        e <= p.len(),
    ensures
        r == component_start(p@, e as int),
        r <= e,
        e >= start ==> r >= start,
{
    let mut i: usize = e;
    while i > start && p[i - 1] != '/'
        invariant
            start == body_start(p@),
            i <= e <= p.len(),
            e >= start ==> i >= start,
            component_start(p@, e as int) == component_start(p@, i as int),
        decreases i,
    {
        i = i - 1;
    }
    i
}

/// Finds where the stem of the file name `p[b..e]` ends.
fn find_stem_end(p: &Vec<char>, b: usize, e: usize) -> (r: usize)
    requires
        b <= e <= p.len(),
    ensures
        b <= r <= e,
        p@.subrange(b as int, r as int) == stem_of(p@.subrange(b as int, e as int)),
{
    let ghost name = p@.subrange(b as int, e as int);
    let mut i: usize = e;
    while i > b && p[i - 1] != '.'
        invariant
            b <= i <= e <= p.len(),
            name == p@.subrange(b as int, e as int),
            last_point(name, e - b) == last_point(name, i - b),
        decreases i,
    {
        proof {
            assert(name[i - 1 - b] == p@[i - 1]);
        }
        i = i - 1;
    }
    proof {
        if i > b {
            assert(name[i - 1 - b] == p@[i - 1]);
        }
    }
    if i - b > 1 {
        proof {
            assert(name.take(i - 1 - b) == p@.subrange(b as int, i - 1));
        }
        i - 1
    } else {
        e
    }
}

/// The two points of a file name.
fn is_parent_dir(p: &Vec<char>, b: usize, e: usize) -> (r: bool)
    requires
        b <= e <= p.len(),
    ensures
        r == (p@.subrange(b as int, e as int) == seq!['.', '.']),
{
    if e - b == 2 && p[b] == '.' && p[b + 1] == '.' {
        proof {
            assert(p@.subrange(b as int, e as int) =~= seq!['.', '.']);
        }
        true
    } else {
        proof {
            if e - b == 2 {
                assert(p@.subrange(b as int, e as int)[0] == p@[b as int]);
                assert(p@.subrange(b as int, e as int)[1] == p@[b + 1]);
                assert(seq!['.', '.'][0] == '.');
                assert(seq!['.', '.'][1] == '.');
            } else {
                assert(seq!['.', '.'].len() == 2);
            }
        }
        false
    }
}

/// Derives the path of an output file from the path of its input.
pub fn derive_path(input: &str, suffix: &str, extension: &str) -> (r: String)
    ensures
        r@ == derived_path(input@, suffix@, extension@),
{
    let p = chars_of(input);
    let start = find_body_start(&p);
    let e = find_trim_end(&p, start, p.len());
    let b = find_component_start(&p, start, e);
    let named = e > start && !is_parent_dir(&p, b, e);
    let base_end = if named {
        let cut = if b > start {
            b - 1
        } else {
            b
        };
        find_trim_end(&p, start, cut)
    } else {
        p.len()
    };
    let mut out = String::from_str(input.substring_char(0, base_end));
    proof {
        assert(input@.subrange(0, base_end as int) == input@.take(base_end as int));
        if !named {
            assert(input@.take(base_end as int) == input@);
        }
    }
    if base_end > 0 && p[base_end - 1] != '/' {
        out.append("/");
        proof {
            reveal_strlit("/");
            assert("/"@ =~= seq!['/']);
        }
    }
    let ghost base = input@.take(base_end as int);
    let ghost joint = out@;
    if named {
        let stem_end = find_stem_end(&p, b, e);
        out.append(input.substring_char(b, stem_end));
    }
    out.append(suffix);
    out.append(".");
    out.append(extension);
    proof {
        reveal_strlit(".");
        assert("."@ =~= seq!['.']);
        let name = file_stem(input@) + suffix@ + seq!['.'] + extension@;
        assert(out@ =~= joint + name);
    }
    out
}

} // verus!
