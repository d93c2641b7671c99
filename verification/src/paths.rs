//! Paths as text: file names, extensions, and where an output goes.
//!
//! A path is a sequence of characters in which `/` separates directories.
//! The file name is what follows the last `/`. A file name has an extension
//! when it holds a `.` that is not its first character; the extension is what
//! follows the last `.`, and the stem is what comes before it.

use vstd::prelude::*;
use vstd::string::{StrSliceExecFns, StringExecFns};

verus! {

/// The position of the last `c` in `s`, or -1 where `s` holds none.
pub open spec fn last_index(s: Seq<char>, c: char) -> int
    decreases s.len(),
{
    if s.len() == 0 {
        -1
    } else if s.last() == c {
        s.len() - 1
    } else {
        last_index(s.drop_last(), c)
    }
}

/// `last_index` finds a `c`, and no `c` stands behind the one it finds.
pub proof fn lemma_last_index(s: Seq<char>, c: char)
    ensures
        -1 <= last_index(s, c) < s.len(),
        last_index(s, c) >= 0 ==> s[last_index(s, c)] == c,
        forall|j: int| last_index(s, c) < j < s.len() ==> s[j] != c,
    decreases s.len(),
{
    if s.len() > 0 && s.last() != c {
        lemma_last_index(s.drop_last(), c);
        assert forall|j: int| last_index(s, c) < j < s.len() implies s[j] != c by {
            if j < s.len() - 1 {
                assert(s.drop_last()[j] == s[j]);
            }
        }
    }
}

/// Where the file name of a path begins.
pub open spec fn name_start(path: Seq<char>) -> int {
    last_index(path, '/') + 1
}

/// The file name of a path: what follows its last `/`.
pub open spec fn file_name_of(path: Seq<char>) -> Seq<char> {
    path.subrange(name_start(path), path.len() as int)
}

/// The extension of a path's file name, if it has one.
pub open spec fn extension_of(path: Seq<char>) -> Option<Seq<char>> {
    let name = file_name_of(path);
    let dot = last_index(name, '.');
    if dot <= 0 {
        None
    } else {
        Some(name.subrange(dot + 1, name.len() as int))
    }
}

/// The stem of a path's file name: the name without its extension.
pub open spec fn stem_of(path: Seq<char>) -> Seq<char> {
    let name = file_name_of(path);
    let dot = last_index(name, '.');
    if dot <= 0 {
        name
    } else {
        name.subrange(0, dot)
    }
}

/// A path with the extension of its file name replaced by `ext`. An empty
/// `ext` removes the extension together with its `.`.
pub open spec fn with_extension_of(path: Seq<char>, ext: Seq<char>) -> Seq<char> {
    let base = path.subrange(0, name_start(path)) + stem_of(path);
    if ext.len() == 0 {
        base
    } else {
        base + seq!['.'] + ext
    }
}

/// The path of `name` inside the directory `dir`.
pub open spec fn joined(dir: Seq<char>, name: Seq<char>) -> Seq<char> {
    if dir.len() == 0 {
        name
    } else if dir.last() == '/' {
        dir + name
    } else {
        dir + seq!['/'] + name
    }
}

/// A file name is its stem, then, where it has an extension, a `.` and the
/// extension.
pub proof fn lemma_name_parts(path: Seq<char>)
    ensures
        match extension_of(path) {
            Some(ext) => file_name_of(path) == stem_of(path) + seq!['.'] + ext && stem_of(
                path,
            ).len() > 0,
            None => file_name_of(path) == stem_of(path),
        },
{
    let name = file_name_of(path);
    lemma_last_index(name, '.');
    lemma_last_index(path, '/');
    if let Some(ext) = extension_of(path) {
        assert(name =~= stem_of(path) + seq!['.'] + ext);
    }
}

/// A file name without `/` keeps its stem when it is put into a directory:
/// the file name of the joined path is the name itself.
pub proof fn lemma_joined_file_name(dir: Seq<char>, name: Seq<char>)
    requires
        !name.contains('/'),
    ensures
        file_name_of(joined(dir, name)) == name,
        extension_of(joined(dir, name)) == extension_of(name),
{
    let path = joined(dir, name);
    lemma_last_index(path, '/');
    lemma_last_index(name, '/');
    let k = last_index(path, '/');
    let offset = path.len() - name.len();
    assert forall|j: int| offset <= j < path.len() implies path[j] != '/' by {
        assert(path[j] == name[j - offset]);
        assert(name.contains(name[j - offset]));
    }
    if dir.len() > 0 {
        assert(path[offset - 1] == '/');
        assert(k == offset - 1) by {
            if k < offset - 1 {
                assert(path[offset - 1] != '/');
            }
        }
    } else {
        assert(k == -1) by {
            if k >= 0 {
                assert(path[k] == '/');
            }
        }
    }
    assert(last_index(name, '/') == -1) by {
        let i = last_index(name, '/');
        if i >= 0 {
            assert(name.contains(name[i]));
        }
    }
    assert(file_name_of(path) =~= name);
    assert(file_name_of(name) =~= name);
}

/// A text without `c` has no last `c`.
pub proof fn lemma_last_index_absent(s: Seq<char>, c: char)
    requires
        !s.contains(c),
    ensures
        last_index(s, c) == -1,
{
    lemma_last_index(s, c);
    if last_index(s, c) >= 0 {
        assert(s.contains(s[last_index(s, c)]));
    }
}

/// The last `c` of two texts put together is the last `c` of the second,
/// or, where the second has none, the last `c` of the first.
pub proof fn lemma_last_index_concat(s: Seq<char>, t: Seq<char>, c: char)
    ensures
        last_index(s + t, c) == if last_index(t, c) >= 0 {
            s.len() + last_index(t, c)
        } else {
            last_index(s, c)
        },
    decreases t.len(),
{
    if t.len() == 0 {
        assert(s + t =~= s);
    } else {
        assert((s + t).last() == t.last());
        assert((s + t).drop_last() =~= s + t.drop_last());
        if t.last() != c {
            lemma_last_index_concat(s, t.drop_last(), c);
        }
    }
}

/// Replacing the extension of a file that has a stem by a text without `.`
/// and `/` gives a path with that text as its extension, in the same
/// directory and with the same stem.
pub proof fn lemma_with_extension_sets_extension(path: Seq<char>, ext: Seq<char>)
    requires
        ext.len() > 0,
        !ext.contains('.'),
        !ext.contains('/'),
        stem_of(path).len() > 0,
    ensures
        extension_of(with_extension_of(path, ext)) == Some(ext),
        stem_of(with_extension_of(path, ext)) == stem_of(path),
        name_start(with_extension_of(path, ext)) == name_start(path),
{
    let out = with_extension_of(path, ext);
    let dir = path.subrange(0, name_start(path));
    let stem = stem_of(path);
    let dotted = stem + seq!['.'];
    let tail = dotted + ext;
    lemma_last_index(path, '/');
    lemma_last_index(file_name_of(path), '.');
    assert(out =~= dir + tail);
    assert(!tail.contains('/')) by {
        if tail.contains('/') {
            let i = choose|i: int| 0 <= i < tail.len() && tail[i] == '/';
            if i < stem.len() {
                assert(stem[i] == path[name_start(path) + i]);
            } else if i > stem.len() {
                assert(ext.contains(ext[i - stem.len() - 1]));
            }
        }
    }
    lemma_last_index_absent(tail, '/');
    lemma_last_index_concat(dir, tail, '/');
    assert(last_index(dir, '/') == name_start(path) - 1) by {
        if dir.len() > 0 {
            assert(dir.last() == '/');
        }
    }
    assert(file_name_of(out) =~= tail);
    lemma_last_index_absent(ext, '.');
    lemma_last_index_concat(dotted, ext, '.');
    assert(dotted.last() == '.');
    assert(last_index(tail, '.') == stem.len());
    assert(tail.subrange(stem.len() as int + 1, tail.len() as int) =~= ext);
    assert(tail.subrange(0, stem.len() as int) =~= stem);
}

/// The position of the last `c` in `s`.
fn find_last(s: &str, c: char) -> (found: Option<usize>)
    ensures
        match found {
            Some(i) => last_index(s@, c) == i,
            None => last_index(s@, c) == -1,
        },
{
    let n: usize = s.unicode_len();
    let mut i: usize = n;
    assert(s@.subrange(0, n as int) =~= s@);
    while i > 0
        invariant
            i <= n,
            n == s@.len(),
            last_index(s@, c) == last_index(s@.subrange(0, i as int), c),
        decreases i,
    {
        let ghost prefix = s@.subrange(0, i as int);
        if s.get_char(i - 1) == c {
            assert(prefix.last() == c);
            return Some(i - 1);
        }
        assert(prefix.drop_last() =~= s@.subrange(0, i - 1));
        i = i - 1;
    }
    None
}

/// The file name of `path`.
pub fn file_name(path: &str) -> (name: &str)
    ensures
        name@ == file_name_of(path@),
{
    let n: usize = path.unicode_len();
    proof {
        lemma_last_index(path@, '/');
    }
    let start: usize = match find_last(path, '/') {
        Some(i) => i + 1,
        None => 0,
    };
    path.substring_char(start, n)
}

/// The extension of `path`, if its file name has one.
pub fn extension(path: &str) -> (ext: Option<&str>)
    ensures
        match ext {
            Some(e) => extension_of(path@) == Some(e@),
            None => extension_of(path@) is None,
        },
{
    let name = file_name(path);
    let n: usize = name.unicode_len();
    proof {
        lemma_last_index(name@, '.');
    }
    match find_last(name, '.') {
        Some(dot) => {
            if dot == 0 {
                None
            } else {
                Some(name.substring_char(dot + 1, n))
            }
        },
        None => None,
    }
}

/// `path` with the extension of its file name replaced by `ext`.
pub fn with_extension(path: &str, ext: &str) -> (out: String)
    ensures
        out@ == with_extension_of(path@, ext@),
{
    let n: usize = path.unicode_len();
    proof {
        lemma_last_index(path@, '/');
    }
    let start: usize = match find_last(path, '/') {
        Some(i) => i + 1,
        None => 0,
    };
    let name = path.substring_char(start, n);
    let len: usize = name.unicode_len();
    proof {
        lemma_last_index(name@, '.');
    }
    let stem_len: usize = match find_last(name, '.') {
        Some(dot) => if dot == 0 {
            len
        } else {
            dot
        },
        None => len,
    };
    let base = path.substring_char(0, start + stem_len);
    assert(base@ =~= path@.subrange(0, name_start(path@)) + stem_of(path@));
    let out = String::from_str(base);
    if ext.unicode_len() == 0 {
        out
    } else {
        proof {
            reveal_strlit(".");
            assert("."@ =~= seq!['.']);
        }
        out.concat(".").concat(ext)
    }
}

/// The path of the file `name` inside the directory `dir`.
pub fn join(dir: &str, name: &str) -> (path: String)
    ensures
        path@ == joined(dir@, name@),
{
    let n: usize = dir.unicode_len();
    if n == 0 {
        String::from_str(name)
    } else if dir.get_char(n - 1) == '/' {
        String::from_str(dir).concat(name)
    } else {
        proof {
            reveal_strlit("/");
            assert("/"@ =~= seq!['/']);
        }
        String::from_str(dir).concat("/").concat(name)
    }
}

} // verus!
