use vstd::prelude::*;
use vstd::std_specs::iter::IteratorSpec;

verus! {

/// Whether the text `s` ends with `suffix`.
pub open spec fn ends_with(s: Seq<char>, suffix: Seq<char>) -> bool {
    suffix.len() <= s.len() && s.subrange(s.len() - suffix.len(), s.len() as int) == suffix
}

/// Whether a file name names an asset: at least five bytes long, and ending in
/// `png`, `jpg`, `ico`, `svg`, `mp3` or `jpeg`.
pub open spec fn asset_name(name: &str) -> bool {
    &&& name.len() >= 5
    &&& {
        ||| ends_with(name@, "png"@)
        ||| ends_with(name@, "jpg"@)
        ||| ends_with(name@, "ico"@)
        ||| ends_with(name@, "svg"@)
        ||| ends_with(name@, "mp3"@)
        ||| ends_with(name@, "jpeg"@)
    }
}

/// Whether `s` ends with `suffix`.
pub fn text_ends_with(s: &str, suffix: &str) -> (r: bool)
    ensures
        r == ends_with(s@, suffix@),
{
    let n = s.unicode_len();
    let m = suffix.unicode_len();
    if m > n {
        return false;
    }
    let mut i: usize = 0;
    while i < m
        invariant
            n == s@.len(),
            m == suffix@.len(),
            m <= n,
            i <= m,
            forall|j: int| 0 <= j < i ==> s@[n - m + j] == #[trigger] suffix@[j],
        decreases m - i,
    {
        if s.get_char(n - m + i) != suffix.get_char(i) {
            assert(s@.subrange(n - m, n as int)[i as int] != suffix@[i as int]);
            return false;
        }
        i = i + 1;
    }
    assert(s@.subrange(n - m, n as int) =~= suffix@);
    true
}

/// Whether a file name, where there is one, names an asset.
pub fn is_asset(str_file_name: Option<&str>) -> (r: bool)
    ensures
        r == match str_file_name {
            Some(name) => asset_name(name),
            None => false,
        },
{
    match str_file_name {
        Some(s) => {
            if s.len() >= 5 {
                text_ends_with(s, "png") || text_ends_with(s, "jpg") || text_ends_with(s, "ico")
                    || text_ends_with(s, "svg") || text_ends_with(s, "mp3") || text_ends_with(
                    s,
                    "jpeg",
                )
            } else {
                false
            }
        },
        None => false,
    }
}

/// Whether a file extension is one of a PNG or JPEG image.
pub fn is_jpeg_or_png(ext: &str) -> (r: bool)
    ensures
        r == (ext@ == "png"@ || ext@ == "jpeg"@ || ext@ == "jpg"@),
{
    let e = String::from_str(ext);
    e == String::from_str("png") || e == String::from_str("jpeg") || e == String::from_str("jpg")
}

/// Whether a file name, where there is one, is hidden: it starts with a dot.
pub fn is_hidden(str_file_name: Option<&str>) -> (r: bool)
    ensures
        r == match str_file_name {
            Some(name) => name@.len() > 0 && name@[0] == '.',
            None => false,
        },
{
    match str_file_name {
        Some(s) => s.unicode_len() > 0 && s.get_char(0) == '.',
        None => false,
    }
}

/// Whether `pattern` occurs in `text`.
pub open spec fn occurs_in(text: Seq<char>, pattern: Seq<char>) -> bool {
    exists|i: int|
        0 <= i && i + pattern.len() <= text.len() && #[trigger] text.subrange(i, i + pattern.len())
            == pattern
}

/// The characters of `s`, in order.
pub fn chars_of(s: &str) -> (r: Vec<char>)
    ensures
        r@ == s@,
{
    broadcast use vstd::string::group_string_axioms;

    let mut it = s.chars();
    let mut r: Vec<char> = Vec::new();
    loop
        invariant
            it.remaining() == s@.subrange(r.len() as int, s@.len() as int),
            r@ == s@.subrange(0, r.len() as int),
            r.len() <= s@.len(),
        ensures
            r@ == s@,
        decreases s@.len() - r.len(),
    {
        let ghost before = it.remaining();
        match it.next() {
            Some(c) => {
                proof {
                    assert(before.len() > 0);
                    assert(c == s@[r.len() as int]);
                }
                r.push(c);
                assert(r@ =~= s@.subrange(0, r.len() as int));
                assert(it.remaining() =~= s@.subrange(r.len() as int, s@.len() as int));
            },
            None => {
                assert(before.len() == 0);
                assert(r.len() == s@.len());
                assert(r@ =~= s@);
                break;
            },
        }
    }
    r
}

/// Whether `pattern` occurs in `text` starting at `at`.
fn occurs_at(text: &Vec<char>, pattern: &Vec<char>, at: usize) -> (r: bool)
    requires
        at + pattern.len() <= text.len(),
    ensures
        r == (text@.subrange(at as int, at + pattern.len()) == pattern@),
{
    let mut j: usize = 0;
    while j < pattern.len()
        invariant
            at + pattern.len() <= text.len(),
            j <= pattern.len(),
            forall|k: int| 0 <= k < j ==> text@[at + k] == pattern@[k],
        decreases pattern.len() - j,
    {
        if text[at + j] != pattern[j] {
            assert(text@.subrange(at as int, at + pattern.len())[j as int] != pattern@[j as int]);
            return false;
        }
        j = j + 1;
    }
    assert(text@.subrange(at as int, at + pattern.len()) =~= pattern@);
    true
}

/// Whether `pattern` occurs in `text`.
pub fn text_contains(text: &Vec<char>, pattern: &Vec<char>) -> (r: bool)
    ensures
        r == occurs_in(text@, pattern@),
{
    if pattern.len() > text.len() {
        return false;
    }
    let last = text.len() - pattern.len();
    let mut i: usize = 0;
    while i <= last
        invariant
            last + pattern.len() == text.len(),
            i <= last,
            forall|k: int|
                0 <= k < i ==> #[trigger] text@.subrange(k, k + pattern.len()) != pattern@,
        ensures
            forall|k: int|
                0 <= k <= last ==> #[trigger] text@.subrange(k, k + pattern.len()) != pattern@,
        decreases last + 1 - i,
    {
        if occurs_at(text, pattern, i) {
            return true;
        }
        if i == last {
            break;
        }
        i = i + 1;
    }
    false
}

/// The names among `names`, in order, that do not occur in `content`.
pub open spec fn unreferenced_spec(names: Seq<String>, content: Seq<char>) -> Seq<Seq<char>>
    decreases names.len(),
{
    if names.len() == 0 {
        Seq::empty()
    } else if occurs_in(content, names.last()@) {
        unreferenced_spec(names.drop_last(), content)
    } else {
        unreferenced_spec(names.drop_last(), content).push(names.last()@)
    }
}

/// Keeps the asset names that the text of a file does not mention.
pub fn unreferenced(names: &Vec<String>, content: &str) -> (r: Vec<String>)
    ensures
        r@.map_values(|s: String| s@) == unreferenced_spec(names@, content@),
{
    let text = chars_of(content);
    let mut r: Vec<String> = Vec::new();
    let mut i: usize = 0;
    while i < names.len()
        invariant
            text@ == content@,
            i <= names.len(),
            r@.map_values(|s: String| s@) == unreferenced_spec(names@.subrange(0, i as int), content@),
        decreases names.len() - i,
    {
        let ghost pre = r@;
        let ghost next = names@.subrange(0, i + 1);
        proof {
            assert(next.drop_last() =~= names@.subrange(0, i as int));
            assert(next.last() == names@[i as int]);
        }
        let pattern = chars_of(names[i].as_str());
        if !text_contains(&text, &pattern) {
            r.push(names[i].clone());
            assert(r@.map_values(|s: String| s@) =~= pre.map_values(|s: String| s@).push(
                names@[i as int]@,
            ));
        }
        i = i + 1;
    }
    assert(names@.subrange(0, names.len() as int) =~= names@);
    r
}

/// Image formats that can be resized.
#[derive(PartialEq, Eq, Structural, Clone, Copy, Debug)]
pub enum ImageKind {
    Jpeg,
    Png,
}

/// The format of an image by its file extension: `jpg` and `jpeg` are JPEG,
/// `png` is PNG, anything else is no image that can be resized.
pub fn image_kind(ext: Option<&str>) -> (r: Option<ImageKind>)
    ensures
        r == match ext {
            Some(e) => if e@ == "jpg"@ || e@ == "jpeg"@ {
                Some(ImageKind::Jpeg)
            } else if e@ == "png"@ {
                Some(ImageKind::Png)
            } else {
                None
            },
            None => None,
        },
{
    match ext {
        Some(e) => {
            let e = String::from_str(e);
            if e == String::from_str("jpg") || e == String::from_str("jpeg") {
                Some(ImageKind::Jpeg)
            } else if e == String::from_str("png") {
                Some(ImageKind::Png)
            } else {
                None
            }
        },
        None => None,
    }
}

} // verus!
