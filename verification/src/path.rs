//! Paths as character sequences with `/` as the separator: joining, final components and
//! extensions.

use crate::text::{chars_of, same_chars};
use vstd::prelude::*;
use vstd::string::{StrSliceExecFns, StringExecFns};

verus! {

/// `base` extended by `child`: an absolute `child` replaces `base`; otherwise one separator
/// stands between the two unless `base` is empty or already ends in one.
pub open spec fn joined(base: Seq<char>, child: Seq<char>) -> Seq<char> {
    if child.len() > 0 && child[0] == '/' {
        child
    } else if base.len() == 0 || base.last() == '/' {
        base + child
    } else {
        base + seq!['/'] + child
    }
}

/// `path` without its trailing separators and trailing `.` components.
pub open spec fn trimmed(path: Seq<char>) -> Seq<char>
    decreases path.len(),
{
    if path.len() == 0 {
        path
    } else if path.last() == '/' {
        trimmed(path.drop_last())
    } else if path.last() == '.' && (path.len() == 1 || path[path.len() - 2] == '/') {
        trimmed(path.drop_last())
    } else {
        path
    }
}

/// The index just behind the last separator of `path`, 0 where it has none.
pub open spec fn name_start(path: Seq<char>) -> int
    decreases path.len(),
{
    if path.len() == 0 {
        0
    } else if path.last() == '/' {
        path.len() as int
    } else {
        name_start(path.drop_last())
    }
}

/// The index of the last `.` of `name`, -1 where it has none.
pub open spec fn last_dot(name: Seq<char>) -> int
    decreases name.len(),
{
    if name.len() == 0 {
        -1
    } else if name.last() == '.' {
        name.len() - 1
    } else {
        last_dot(name.drop_last())
    }
}

/// The final component of `path`: what follows the last separator once trailing separators
/// and `.` components are dropped. Empty where the path ends in `..` or has no component.
pub open spec fn file_name(path: Seq<char>) -> Seq<char> {
    let t = trimmed(path);
    let name = t.subrange(name_start(t), t.len() as int);
    if name == seq!['.', '.'] {
        Seq::empty()
    } else {
        name
    }
}

/// The extensions of source files.
pub open spec fn is_source_extension(ext: Seq<char>) -> bool {
    ext == "codon"@ || ext == "py"@ || ext == "seq"@
}

/// `path` cut off at the end of its file stem where the final component carries a source
/// extension behind a non-empty stem, and `path` itself otherwise.
pub open spec fn without_source_extension(path: Seq<char>) -> Seq<char> {
    let t = trimmed(path);
    let start = name_start(t);
    let name = t.subrange(start, t.len() as int);
    let dot = last_dot(name);
    if dot > 0 && is_source_extension(name.subrange(dot + 1, name.len() as int)) {
        t.subrange(0, start + dot)
    } else {
        path
    }
}

/// The final component starts inside the path and holds no separator.
pub proof fn lemma_name_start(path: Seq<char>)
    ensures
        0 <= name_start(path) <= path.len(),
        name_start(path) > 0 ==> path[name_start(path) - 1] == '/',
        forall|i: int| name_start(path) <= i < path.len() ==> path[i] != '/',
    decreases path.len(),
{
    if path.len() > 0 && path.last() != '/' {
        let shorter = path.drop_last();
        lemma_name_start(shorter);
        assert forall|i: int| name_start(path) <= i < path.len() implies path[i] != '/' by {
            if i < shorter.len() {
                assert(path[i] == shorter[i]);
            }
        }
    }
}

/// The last dot lies inside the name and no dot follows it.
pub proof fn lemma_last_dot(name: Seq<char>)
    ensures
        -1 <= last_dot(name) < name.len(),
        last_dot(name) >= 0 ==> name[last_dot(name)] == '.',
        forall|i: int| last_dot(name) < i < name.len() ==> name[i] != '.',
    decreases name.len(),
{
    if name.len() > 0 && name.last() != '.' {
        let shorter = name.drop_last();
        lemma_last_dot(shorter);
        assert forall|i: int| last_dot(name) < i < name.len() implies name[i] != '.' by {
            if i < shorter.len() {
                assert(name[i] == shorter[i]);
            }
        }
    }
}

/// The final component of a path holds no separator.
pub proof fn file_name_holds_no_separator(path: Seq<char>)
    ensures
        forall|i: int| 0 <= i < file_name(path).len() ==> file_name(path)[i] != '/',
{
    let t = trimmed(path);
    lemma_name_start(t);
    let name = t.subrange(name_start(t), t.len() as int);
    assert forall|i: int| 0 <= i < file_name(path).len() implies file_name(path)[i] != '/' by {
        assert(name[i] == t[name_start(t) + i]);
    }
}

/// Behind a separator that is followed by none, the final component begins.
proof fn lemma_name_start_behind(dir: Seq<char>, name: Seq<char>)
    requires
        forall|i: int| 0 <= i < name.len() ==> name[i] != '/',
    ensures
        name_start(dir + seq!['/'] + name) == dir.len() + 1,
    decreases name.len(),
{
    let path = dir + seq!['/'] + name;
    if name.len() == 0 {
        assert(path.last() == '/');
    } else {
        assert(path.last() == name.last());
        assert(path.drop_last() =~= dir + seq!['/'] + name.drop_last());
        lemma_name_start_behind(dir, name.drop_last());
    }
}

/// A dot that is followed by none is the last dot.
proof fn lemma_last_dot_before(stem: Seq<char>, ext: Seq<char>)
    requires
        forall|i: int| 0 <= i < ext.len() ==> ext[i] != '.',
    ensures
        last_dot(stem + seq!['.'] + ext) == stem.len(),
    decreases ext.len(),
{
    let name = stem + seq!['.'] + ext;
    if ext.len() == 0 {
        assert(name.last() == '.');
    } else {
        assert(name.last() == ext.last());
        assert(name.drop_last() =~= stem + seq!['.'] + ext.drop_last());
        lemma_last_dot_before(stem, ext.drop_last());
    }
}

/// A source file `stem.ext` in the directory `dir` is built to `stem` in `dir`: the source
/// extension goes, and with it the dot before it.
pub proof fn source_extension_is_stripped(dir: Seq<char>, stem: Seq<char>, ext: Seq<char>)
    requires
        is_source_extension(ext),
        stem.len() > 0,
        forall|i: int| 0 <= i < stem.len() ==> stem[i] != '/',
    ensures
        without_source_extension(dir + seq!['/'] + stem + seq!['.'] + ext) == dir + seq!['/']
            + stem,
{
    reveal_strlit("codon");
    reveal_strlit("py");
    reveal_strlit("seq");
    let name = stem + seq!['.'] + ext;
    let path = dir + seq!['/'] + name;
    assert(path =~= dir + seq!['/'] + stem + seq!['.'] + ext);
    assert(ext.len() > 0);
    assert(forall|i: int| 0 <= i < ext.len() ==> ext[i] != '.' && ext[i] != '/');
    assert(path.last() == ext.last());
    assert(trimmed(path) == path);
    assert forall|i: int| 0 <= i < name.len() implies name[i] != '/' by {
        if i < stem.len() {
            assert(name[i] == stem[i]);
        } else if i > stem.len() {
            assert(name[i] == ext[i - stem.len() - 1]);
        }
    }
    lemma_name_start_behind(dir, name);
    let start: int = dir.len() as int + 1;
    assert(path.subrange(start, path.len() as int) =~= name);
    lemma_last_dot_before(stem, ext);
    assert(name.subrange(stem.len() as int + 1, name.len() as int) =~= ext);
    assert(path.subrange(0, start + stem.len() as int) =~= dir + seq!['/'] + stem);
}

/// Length of `trimmed` applied to the first `chars.len()` characters.
pub(crate) fn trimmed_len(chars: &[char]) -> (end: usize)
    ensures
        end <= chars.len(),
        chars@.subrange(0, end as int) == trimmed(chars@),
{
    let mut end: usize = chars.len();
    proof {
        assert(chars@.subrange(0, end as int) == chars@);
    }
    loop
        invariant_except_break
            end <= chars.len(),
            trimmed(chars@.subrange(0, end as int)) == trimmed(chars@),
        ensures
            end <= chars.len(),
            chars@.subrange(0, end as int) == trimmed(chars@),
        decreases end,
    {
        let ghost cur = chars@.subrange(0, end as int);
        if end == 0 {
            break;
        }
        let last = chars[end - 1];
        let drop = last == '/' || (last == '.' && (end == 1 || chars[end - 2] == '/'));
        proof {
            assert(cur.last() == last);
            assert(end >= 2 ==> cur[end - 2] == chars@[end - 2]);
            assert(cur.drop_last() == chars@.subrange(0, end - 1));
        }
        if !drop {
            break;
        }
        end -= 1;
    }
    end
}

/// Index just behind the last separator among the first `end` characters.
fn name_start_of(chars: &[char], end: usize) -> (start: usize)
    requires
        end <= chars.len(),
    ensures
        start == name_start(chars@.subrange(0, end as int)),
        start <= end,
{
    let mut start: usize = end;
    loop
        invariant_except_break
            start <= end <= chars.len(),
            name_start(chars@.subrange(0, start as int)) == name_start(
                chars@.subrange(0, end as int),
            ),
        ensures
            start <= end,
            start == name_start(chars@.subrange(0, end as int)),
        decreases start,
    {
        let ghost cur = chars@.subrange(0, start as int);
        if start == 0 {
            break;
        }
        proof {
            assert(cur.last() == chars@[start - 1]);
            assert(cur.drop_last() == chars@.subrange(0, start - 1));
        }
        if chars[start - 1] == '/' {
            break;
        }
        start -= 1;
    }
    start
}

/// Index of the last `.` in `chars[start..end]`, relative to `start`.
fn last_dot_of(chars: &[char], start: usize, end: usize) -> (dot: Option<usize>)
    requires
        start <= end <= chars.len(),
    ensures
        match dot {
            Some(d) => d == last_dot(chars@.subrange(start as int, end as int)),
            None => last_dot(chars@.subrange(start as int, end as int)) == -1,
        },
{
    let mut at: usize = end;
    while at > start
        invariant
            start <= at <= end <= chars.len(),
            last_dot(chars@.subrange(start as int, at as int)) == last_dot(
                chars@.subrange(start as int, end as int),
            ),
        decreases at,
    {
        proof {
            let cur = chars@.subrange(start as int, at as int);
            assert(cur.last() == chars@[at - 1]);
            assert(cur.drop_last() == chars@.subrange(start as int, at - 1));
        }
        if chars[at - 1] == '.' {
            return Some(at - 1 - start);
        }
        at -= 1;
    }
    None
}

/// Joins `child` onto `base`.
pub fn join(base: &str, child: &str) -> (path: String)
    ensures
        path@ == joined(base@, child@),
{
    let b = chars_of(base);
    let c = chars_of(child);
    if c.len() > 0 && c[0] == '/' {
        String::from_str(child)
    } else if b.len() == 0 || b[b.len() - 1] == '/' {
        String::from_str(base).concat(child)
    } else {
        proof {
            reveal_strlit("/");
            assert("/"@ == seq!['/']);
        }
        String::from_str(base).concat("/").concat(child)
    }
}

/// Extracts the final component of `path`.
pub fn file_name_of(path: &str) -> (name: String)
    ensures
        name@ == file_name(path@),
{
    let chars = chars_of(path);
    let end = trimmed_len(chars.as_slice());
    let start = name_start_of(chars.as_slice(), end);
    proof {
        let t = trimmed(path@);
        assert(t.subrange(start as int, end as int) == path@.subrange(start as int, end as int));
    }
    if end - start == 2 && chars[start] == '.' && chars[start + 1] == '.' {
        proof {
            assert(path@.subrange(start as int, end as int) == seq!['.', '.']);
        }
        String::new()
    } else {
        proof {
            let name = path@.subrange(start as int, end as int);
            if name == seq!['.', '.'] {
                assert(name.len() == 2);
                assert(name[0] == '.' && name[1] == '.');
            }
        }
        String::from_str(path.substring_char(start, end))
    }
}

/// Tests whether `chars[from..to]` is one of the source extensions.
fn is_source_extension_at(chars: &[char], from: usize, to: usize) -> (r: bool)
    requires
        from <= to <= chars.len(),
    ensures
        r == is_source_extension(chars@.subrange(from as int, to as int)),
{
    let codon = chars_of("codon");
    let py = chars_of("py");
    let seq = chars_of("seq");
    let mut ext: Vec<char> = Vec::new();
    let mut i: usize = from;
    while i < to
        invariant
            from <= i <= to <= chars.len(),
            ext@ == chars@.subrange(from as int, i as int),
        decreases to - i,
    {
        ext.push(chars[i]);
        proof {
            assert(chars@.subrange(from as int, i + 1) == chars@.subrange(
                from as int,
                i as int,
            ).push(chars@[i as int]));
        }
        i += 1;
    }
    same_chars(ext.as_slice(), codon.as_slice()) || same_chars(ext.as_slice(), py.as_slice())
        || same_chars(ext.as_slice(), seq.as_slice())
}

/// Strips a source extension (`.codon`, `.py`, `.seq`) from the final component of `path`.
pub fn strip_source_extension(path: &str) -> (stripped: String)
    ensures
        stripped@ == without_source_extension(path@),
{
    let chars = chars_of(path);
    let end = trimmed_len(chars.as_slice());
    let start = name_start_of(chars.as_slice(), end);
    proof {
        let t = trimmed(path@);
        assert(t.subrange(start as int, end as int) == path@.subrange(start as int, end as int));
        lemma_last_dot(path@.subrange(start as int, end as int));
    }
    match last_dot_of(chars.as_slice(), start, end) {
        Some(dot) => {
            proof {
                let t = trimmed(path@);
                let name = t.subrange(start as int, end as int);
                assert(name.subrange(dot + 1, name.len() as int) == path@.subrange(
                    start + dot + 1,
                    end as int,
                ));
                assert(t.subrange(0, start + dot) == path@.subrange(0, start + dot));
            }
            if dot > 0 && is_source_extension_at(chars.as_slice(), start + dot + 1, end) {
                String::from_str(path.substring_char(0, start + dot))
            } else {
                String::from_str(path)
            }
        },
        None => String::from_str(path),
    }
}

} // verus!
