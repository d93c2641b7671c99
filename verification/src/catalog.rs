//! The format catalog: which encodings are supported, and under which names.
//!
//! Names are compared without regard to ASCII case, so `JPG`, `Jpg` and `jpg`
//! all name JPEG.

use crate::error::{Error, ErrorView};
use vstd::prelude::*;
use vstd::string::{StrSliceExecFns, StringExecFns};

verus! {

/// A supported image encoding.
#[derive(Clone, Copy, Debug, PartialEq, Eq, Structural)]
pub enum Format {
    Jpeg,
    Png,
    Gif,
    WebP,
}

/// A character with an ASCII capital replaced by its small letter.
pub open spec fn lower(c: char) -> char {
    if 'A' <= c && c <= 'Z' {
        ((c as u32) + 32) as char
    } else {
        c
    }
}

/// A text with every ASCII capital replaced by its small letter.
pub open spec fn lowercase(s: Seq<char>) -> Seq<char> {
    Seq::new(s.len(), |i: int| lower(s[i]))
}

/// The five recognized names, in the order in which they are listed.
pub open spec fn supported_names() -> Seq<Seq<char>> {
    seq![
        seq!['j', 'p', 'g'],
        seq!['j', 'p', 'e', 'g'],
        seq!['p', 'n', 'g'],
        seq!['g', 'i', 'f'],
        seq!['w', 'e', 'b', 'p'],
    ]
}

/// The format that a name stands for, if it is one of the recognized names in
/// any mix of upper and lower case.
pub open spec fn format_named(name: Seq<char>) -> Option<Format> {
    let n = lowercase(name);
    if n == supported_names()[0] || n == supported_names()[1] {
        Some(Format::Jpeg)
    } else if n == supported_names()[2] {
        Some(Format::Png)
    } else if n == supported_names()[3] {
        Some(Format::Gif)
    } else if n == supported_names()[4] {
        Some(Format::WebP)
    } else {
        None
    }
}

/// Whether a file extension marks a supported image.
pub open spec fn supported(ext: Seq<char>) -> bool {
    supported_names().contains(lowercase(ext))
}

/// An extension is supported exactly when it names a format.
pub proof fn lemma_supported_iff_named(ext: Seq<char>)
    ensures
        supported(ext) <==> format_named(ext) is Some,
{
    let names = supported_names();
    let n = lowercase(ext);
    if format_named(ext) is Some {
        let i: int = if n == names[0] {
            0
        } else if n == names[1] {
            1
        } else if n == names[2] {
            2
        } else if n == names[3] {
            3
        } else {
            4
        };
        assert(names[i] == n);
    }
}

/// Names that differ only in the case of their ASCII letters stand for the
/// same format, and a name stands for the format of its lowercase form.
pub proof fn lemma_format_ignores_case(a: Seq<char>, b: Seq<char>)
    ensures
        lowercase(a) == lowercase(b) ==> format_named(a) == format_named(b),
        format_named(lowercase(a)) == format_named(a),
{
    assert(lowercase(lowercase(a)) =~= lowercase(a));
}

/// A recognized name is three or four characters long and holds neither a
/// `.` nor a `/`.
pub proof fn lemma_format_name_is_plain(name: Seq<char>)
    requires
        format_named(name) is Some,
    ensures
        3 <= name.len() <= 4,
        !name.contains('.'),
        !name.contains('/'),
{
    let n = lowercase(name);
    let names = supported_names();
    let k: int = if n == names[0] {
        0
    } else if n == names[1] {
        1
    } else if n == names[2] {
        2
    } else if n == names[3] {
        3
    } else {
        4
    };
    assert(n == names[k]);
    assert(n.len() == name.len());
    assert forall|i: int| 0 <= i < name.len() implies name[i] != '.' && name[i] != '/' by {
        assert(n[i] == lower(name[i]));
        assert(names[k][i] != '.' && names[k][i] != '/');
    }
}

/// The code point of `lower(c)`.
fn lower_code(c: char) -> (code: u32)
    ensures
        code == lower(c) as u32,
{
    let n: u32 = c as u32;
    if 65 <= n && n <= 90 {
        n + 32
    } else {
        n
    }
}

/// Whether two texts are equal without regard to ASCII case.
pub fn same_ignoring_case(a: &str, b: &str) -> (same: bool)
    ensures
        same == (lowercase(a@) == lowercase(b@)),
{
    let n: usize = a.unicode_len();
    if n != b.unicode_len() {
        assert(lowercase(a@).len() != lowercase(b@).len());
        return false;
    }
    let mut i: usize = 0;
    while i < n
        invariant
            i <= n,
            n == a@.len(),
            n == b@.len(),
            forall|j: int| 0 <= j < i ==> lower(a@[j]) == lower(b@[j]),
        decreases n - i,
    {
        if lower_code(a.get_char(i)) != lower_code(b.get_char(i)) {
            assert(lowercase(a@)[i as int] != lowercase(b@)[i as int]);
            return false;
        }
        i = i + 1;
    }
    assert(lowercase(a@) =~= lowercase(b@));
    true
}

/// The recognized file extensions, in small letters.
pub fn supported_extensions() -> (names: Vec<&'static str>)
    ensures
        names@.len() == supported_names().len(),
        forall|i: int| 0 <= i < names@.len() ==> names@[i]@ == supported_names()[i],
{
    proof {
        reveal_literals();
    }
    vec!["jpg", "jpeg", "png", "gif", "webp"]
}

/// What the five string literals hold.
proof fn reveal_literals()
    ensures
        "jpg"@ == supported_names()[0],
        "jpeg"@ == supported_names()[1],
        "png"@ == supported_names()[2],
        "gif"@ == supported_names()[3],
        "webp"@ == supported_names()[4],
        forall|i: int| 0 <= i < 5 ==> lowercase(#[trigger] supported_names()[i]) == supported_names()[i],
{
    reveal_strlit("jpg");
    reveal_strlit("jpeg");
    reveal_strlit("png");
    reveal_strlit("gif");
    reveal_strlit("webp");
    assert("jpg"@ =~= supported_names()[0]);
    assert("jpeg"@ =~= supported_names()[1]);
    assert("png"@ =~= supported_names()[2]);
    assert("gif"@ =~= supported_names()[3]);
    assert("webp"@ =~= supported_names()[4]);
    assert forall|i: int| 0 <= i < 5 implies lowercase(#[trigger] supported_names()[i])
        == supported_names()[i] by {
        assert(lowercase(supported_names()[i]) =~= supported_names()[i]);
    }
}

/// The format that `name` stands for, without regard to case.
pub fn find_format(name: &str) -> (found: Option<Format>)
    ensures
        found == format_named(name@),
{
    proof {
        reveal_literals();
    }
    if same_ignoring_case(name, "jpg") || same_ignoring_case(name, "jpeg") {
        Some(Format::Jpeg)
    } else if same_ignoring_case(name, "png") {
        Some(Format::Png)
    } else if same_ignoring_case(name, "gif") {
        Some(Format::Gif)
    } else if same_ignoring_case(name, "webp") {
        Some(Format::WebP)
    } else {
        None
    }
}

/// Whether `ext` is the extension of a supported image file.
pub fn is_supported_extension(ext: &str) -> (yes: bool)
    ensures
        yes == supported(ext@),
{
    proof {
        lemma_supported_iff_named(ext@);
    }
    find_format(ext).is_some()
}

/// The format requested under `name`, or `UnsupportedFormat` carrying the
/// name as it was given.
pub fn resolve_format(name: &str) -> (resolved: Result<Format, Error>)
    ensures
        match resolved {
            Ok(format) => format_named(name@) == Some(format),
            Err(e) => format_named(name@) is None && e@ == (ErrorView::UnsupportedFormat {
                name: name@,
            }),
        },
{
    match find_format(name) {
        Some(format) => Ok(format),
        None => Err(Error::UnsupportedFormat { name: String::from_str(name) }),
    }
}

} // verus!
