//! Project slugs and session file names of the session JSONL store.
use vstd::prelude::*;
use crate::text::{chars_of, string_from_chars};
use vstd::string::StringExecFns;

verus! {

/// The slug under which a project's sessions are stored: every `/` of the
/// project path becomes `-`.
pub open spec fn slug_of(path: Seq<char>) -> Seq<char> {
    path.map_values(|c: char| if c == '/' { '-' } else { c })
}

/// The project path a slug stands for: a slug that begins with `-` has
/// every `-` turned back into `/`; any other slug is taken as it is.
pub open spec fn project_path_of(slug: Seq<char>) -> Seq<char> {
    if slug.len() > 0 && slug[0] == '-' {
        slug.map_values(|c: char| if c == '-' { '/' } else { c })
    } else {
        slug
    }
}

/// The number of bytes `c` takes in UTF-8.
pub open spec fn utf8_width(c: char) -> nat {
    let u = c as u32;
    if u < 0x80 {
        1
    } else if u < 0x800 {
        2
    } else if u < 0x10000 {
        3
    } else {
        4
    }
}

/// The number of bytes `s` takes in UTF-8 (`str::len`).
pub open spec fn utf8_len(s: Seq<char>) -> nat
    decreases s.len(),
{
    if s.len() == 0 {
        0
    } else {
        utf8_len(s.drop_last()) + utf8_width(s.last())
    }
}

/// Whether `s` ends with `suffix`.
pub open spec fn ends_with(s: Seq<char>, suffix: Seq<char>) -> bool {
    suffix.len() <= s.len() && s.subrange(s.len() - suffix.len(), s.len() as int) == suffix
}

/// `s` with every trailing repetition of a non-empty `suffix` removed
/// (`str::trim_end_matches`).
pub open spec fn strip_suffixes(s: Seq<char>, suffix: Seq<char>) -> Seq<char>
    decreases s.len(),
{
    if suffix.len() > 0 && ends_with(s, suffix) {
        strip_suffixes(s.subrange(0, s.len() - suffix.len()), suffix)
    } else {
        s
    }
}

/// The session id a file in a project folder names, if it is a session
/// log: a `.jsonl` file whose stem is 36 bytes long and holds a `-`.
pub open spec fn session_id_of(file_name: Seq<char>) -> Option<Seq<char>> {
    if ends_with(file_name, ".jsonl"@) {
        let id = strip_suffixes(file_name, ".jsonl"@);
        if utf8_len(id) == 36 && id.contains('-') {
            Some(id)
        } else {
            None
        }
    } else {
        None
    }
}

/// Whether a project folder is skipped: hidden folders (leading `.`) are.
pub open spec fn is_hidden(name: Seq<char>) -> bool {
    name.len() > 0 && name[0] == '.'
}

/// `base` joined with `part`, as `Path::join` joins them on Unix: an
/// absolute `part` replaces `base`; otherwise a `/` separates the two
/// unless `base` is empty or already ends with one.
pub open spec fn path_join(base: Seq<char>, part: Seq<char>) -> Seq<char> {
    if part.len() > 0 && part[0] == '/' {
        part
    } else if base.len() == 0 {
        part
    } else if base.last() == '/' {
        base + part
    } else {
        base + "/"@ + part
    }
}

/// The slug under which a project's sessions are stored.
pub fn path_to_slug(path: &str) -> (r: String)
    ensures
        r@ == slug_of(path@),
{
    let chars = chars_of(path);
    let mut out: Vec<char> = Vec::new();
    let mut i: usize = 0;
    while i < chars.len()
        invariant
            i <= chars.len(),
            chars@ == path@,
            out@ == slug_of(chars@.subrange(0, i as int)),
        decreases chars.len() - i,
    {
        let c = chars[i];
        out.push(if c == '/' { '-' } else { c });
        assert(slug_of(chars@.subrange(0, i + 1)) =~= slug_of(chars@.subrange(0, i as int)).push(
            if c == '/' { '-' } else { c },
        ));
        i = i + 1;
    }
    assert(chars@.subrange(0, chars.len() as int) =~= chars@);
    assert(out@.subrange(0, out@.len() as int) =~= out@);
    string_from_chars(&out, 0, out.len())
}

/// The project path a slug stands for.
pub fn slug_to_project_path(slug: &str) -> (r: String)
    ensures
        r@ == project_path_of(slug@),
{
    let chars = chars_of(slug);
    if chars.len() == 0 || chars[0] != '-' {
        assert(chars@.subrange(0, chars.len() as int) =~= chars@);
        return string_from_chars(&chars, 0, chars.len());
    }
    let mut out: Vec<char> = Vec::new();
    let mut i: usize = 0;
    while i < chars.len()
        invariant
            i <= chars.len(),
            out@ == chars@.subrange(0, i as int).map_values(
                |c: char|
                    if c == '-' {
                        '/'
                    } else {
                        c
                    },
            ),
        decreases chars.len() - i,
    {
        let c = chars[i];
        out.push(if c == '-' { '/' } else { c });
        assert(chars@.subrange(0, i + 1) =~= chars@.subrange(0, i as int).push(c));
        i = i + 1;
    }
    assert(chars@.subrange(0, chars.len() as int) =~= chars@);
    assert(out@.subrange(0, out@.len() as int) =~= out@);
    string_from_chars(&out, 0, out.len())
}

/// Whether a project folder name marks a hidden folder.
pub fn is_hidden_folder(name: &str) -> (b: bool)
    ensures
        b == is_hidden(name@),
{
    let chars = chars_of(name);
    chars.len() > 0 && chars[0] == '.'
}

/// Whether `s[..end]` ends with `suffix`.
fn ends_with_at(s: &Vec<char>, end: usize, suffix: &Vec<char>) -> (b: bool)
    requires
        end <= s.len(),
    ensures
        b == ends_with(s@.subrange(0, end as int), suffix@),
{
    if suffix.len() > end {
        return false;
    }
    let start = end - suffix.len();
    let mut i: usize = 0;
    while i < suffix.len()
        invariant
            i <= suffix.len(),
            start + suffix.len() == end <= s.len(),
            forall|k: int| 0 <= k < i ==> #[trigger] s@[start + k] == suffix@[k],
        decreases suffix.len() - i,
    {
        if s[start + i] != suffix[i] {
            proof {
                let p = s@.subrange(0, end as int);
                assert(p.subrange(p.len() - suffix.len(), p.len() as int)[i as int] == s@[start
                    + i]);
            }
            return false;
        }
        i = i + 1;
    }
    proof {
        let p = s@.subrange(0, end as int);
        assert forall|k: int| 0 <= k < suffix.len() implies #[trigger] p.subrange(
            p.len() - suffix.len(),
            p.len() as int,
        )[k] == suffix@[k] by {
            assert(s@[start + k] == suffix@[k]);
        }
        assert(p.subrange(p.len() - suffix.len(), p.len() as int) =~= suffix@);
    }
    true
}

/// The UTF-8 width of one character.
fn char_utf8_width(c: char) -> (w: usize)
    ensures
        w == utf8_width(c),
{
    let u = c as u32;
    if u < 0x80 {
        1
    } else if u < 0x800 {
        2
    } else if u < 0x10000 {
        3
    } else {
        4
    }
}

/// The session id named by a file in a project folder, if the file is a
/// session log.
pub fn session_id_from_file_name(file_name: &str) -> (r: Option<String>)
    ensures
        match r {
            Some(id) => session_id_of(file_name@) == Some(id@),
            None => session_id_of(file_name@) is None,
        },
{
    let chars = chars_of(file_name);
    let suffix = chars_of(".jsonl");
    assert(chars@.subrange(0, chars.len() as int) =~= chars@);
    if !ends_with_at(&chars, chars.len(), &suffix) {
        return None;
    }
    let mut end = chars.len();
    while ends_with_at(&chars, end, &suffix)
        invariant
            end <= chars.len(),
            suffix@ == ".jsonl"@,
            strip_suffixes(chars@, suffix@) == strip_suffixes(chars@.subrange(0, end as int), suffix@),
        decreases end,
    {
        proof {
            reveal_strlit(".jsonl");
            let p = chars@.subrange(0, end as int);
            assert(p.subrange(0, p.len() - suffix@.len()) =~= chars@.subrange(0, end - 6));
        }
        end = end - 6;
    }
    proof {
        reveal_strlit(".jsonl");
    }
    let ghost idv = chars@.subrange(0, end as int);
    let mut bytes: usize = 0;
    let mut has_dash = false;
    let mut i: usize = 0;
    while i < end
        invariant
            i <= end <= chars.len(),
            idv == chars@.subrange(0, end as int),
            utf8_len(idv.subrange(0, i as int)) <= 36 ==> bytes == utf8_len(idv.subrange(0, i as int)),
            utf8_len(idv.subrange(0, i as int)) > 36 ==> bytes == 37,
            has_dash == idv.subrange(0, i as int).contains('-'),
        decreases end - i,
    {
        proof {
            assert(idv.subrange(0, i + 1).drop_last() =~= idv.subrange(0, i as int));
            assert(idv.subrange(0, i + 1).last() == idv[i as int]);
        }
        let w = char_utf8_width(chars[i]);
        bytes = if bytes > 36 || bytes + w > 36 {
            37
        } else {
            bytes + w
        };
        has_dash = has_dash || chars[i] == '-';
        proof {
            if idv.subrange(0, i as int).contains('-') {
                let k = choose|k: int| 0 <= k < i && #[trigger] idv.subrange(0, i as int)[k] == '-';
                assert(idv.subrange(0, i + 1)[k] == '-');
            }
            if chars@[i as int] == '-' {
                assert(idv.subrange(0, i + 1)[i as int] == '-');
            }
            if idv.subrange(0, i + 1).contains('-') {
                let k = choose|k: int| 0 <= k < i + 1 && #[trigger] idv.subrange(0, i + 1)[k] == '-';
                if k < i {
                    assert(idv.subrange(0, i as int)[k] == '-');
                }
            }
        }
        i = i + 1;
    }
    assert(idv.subrange(0, end as int) =~= idv);
    assert(strip_suffixes(chars@.subrange(0, end as int), suffix@) == chars@.subrange(0, end as int));
    if bytes == 36 && has_dash {
        Some(string_from_chars(&chars, 0, end))
    } else {
        None
    }
}

/// The root of the session JSONL store: the store directory `store_dir`
/// under the given home directory; `None` when there is no home directory.
pub fn get_session_jsonl_root(home: Option<&str>, store_dir: &str) -> (r: Option<String>)
    ensures
        match home {
            Some(h) => r matches Some(root) && root@ == path_join(h@, store_dir@),
            None => r is None,
        },
{
    match home {
        Some(h) => {
            let part = chars_of(store_dir);
            if part.len() > 0 && part[0] == '/' {
                return Some(crate::tool_kind::owned(store_dir));
            }
            let chars = chars_of(h);
            if chars.len() == 0 {
                return Some(crate::tool_kind::owned(store_dir));
            }
            let mut out = crate::tool_kind::owned(h);
            if chars[chars.len() - 1] != '/' {
                out.append("/");
            }
            out.append(store_dir);
            proof {
                reveal_strlit("/");
                assert(chars@.last() == chars@[chars.len() - 1]);
            }
            Some(out)
        },
        None => None,
    }
}

/// An absolute project path without `-` survives the trip to its slug
/// and back.
pub proof fn law_slug_round_trip(path: Seq<char>)
    requires
        path.len() > 0,
        path[0] == '/',
        !path.contains('-'),
    ensures
        project_path_of(slug_of(path)) == path,
{
    let slug = slug_of(path);
    assert(slug[0] == '-');
    assert forall|i: int| 0 <= i < path.len() implies #[trigger] project_path_of(slug)[i] == path[i] by {
        if path[i] == '-' {
            assert(path.contains('-'));
        }
    }
    assert(project_path_of(slug) =~= path);
}

/// A slug that begins with `-` and holds no `/` survives the trip to its
/// project path and back.
pub proof fn law_project_path_round_trip(slug: Seq<char>)
    requires
        slug.len() > 0,
        slug[0] == '-',
        !slug.contains('/'),
    ensures
        slug_of(project_path_of(slug)) == slug,
{
    assert forall|i: int| 0 <= i < slug.len() implies #[trigger] slug_of(project_path_of(slug))[i]
        == slug[i] by {
        if slug[i] == '/' {
            assert(slug.contains('/'));
        }
    }
    assert(slug_of(project_path_of(slug)) =~= slug);
}

/// A slug never holds `/`.
pub proof fn law_slug_has_no_slash(path: Seq<char>)
    ensures
        !slug_of(path).contains('/'),
{
    if slug_of(path).contains('/') {
        let i = choose|i: int| 0 <= i < slug_of(path).len() && slug_of(path)[i] == '/';
        assert(slug_of(path)[i] == (if path[i] == '/' { '-' } else { path[i] }));
    }
}

} // verus!
