use vstd::prelude::*;
use vstd::string::StrSliceExecFns;
use vstd::string::StringExecFns;

verus! {

/// The Unicode lowercasing of a character sequence, as `str::to_lowercase`
/// computes it.
pub uninterp spec fn lower_of(s: Seq<char>) -> Seq<char>;

/// Relies on `str::to_lowercase`: the returned text is the lowercased
/// input, a function of the input characters alone.
#[verifier::external_body]
fn lowercase(s: &str) -> (r: String)
    ensures
        r@ == lower_of(s@),
{
    s.to_lowercase()
}

/// `needle` occurs contiguously somewhere in `hay`.
pub open spec fn is_substring(needle: Seq<char>, hay: Seq<char>) -> bool {
    exists|i: int|
        0 <= i && i + needle.len() <= hay.len() && #[trigger] hay.subrange(i, i + needle.len())
            == needle
}

/// Substring search: whether `needle` occurs in `hay`.
pub fn contains_str(hay: &str, needle: &str) -> (r: bool)
    ensures
        r == is_substring(needle@, hay@),
{
    let nlen: usize = needle.unicode_len();
    let hlen: usize = hay.unicode_len();
    if nlen > hlen {
        return false;
    }
    let mut i: usize = 0;
    while i <= hlen - nlen
        invariant
            nlen <= hlen,
            nlen == needle@.len(),
            hlen == hay@.len(),
            i <= hlen - nlen + 1,
            forall|k: int|
                0 <= k < i ==> #[trigger] hay@.subrange(k, k + needle@.len()) != needle@,
        decreases hlen - nlen + 1 - i,
    {
        let mut j: usize = 0;
        let mut ok = true;
        while ok && j < nlen
            invariant
                nlen == needle@.len(),
                hlen == hay@.len(),
                i + nlen <= hlen,
                j <= nlen,
                ok ==> forall|t: int| 0 <= t < j ==> hay@[i + t] == needle@[t],
                !ok ==> j < nlen && hay@[i as int + j as int] != needle@[j as int],
            decreases nlen - j + (if ok { 1int } else { 0int }),
        {
            if hay.get_char(i + j) != needle.get_char(j) {
                ok = false;
            } else {
                j = j + 1;
            }
        }
        if ok {
            proof {
                assert(hay@.subrange(i as int, i + needle@.len()) =~= needle@);
            }
            return true;
        }
        proof {
            assert(hay@.subrange(i as int, i + needle@.len())[j as int] != needle@[j as int]);
        }
        i = i + 1;
    }
    proof {
        assert forall|k: int|
            0 <= k && k + needle@.len() <= hay@.len() implies #[trigger] hay@.subrange(
            k,
            k + needle@.len(),
        ) != needle@ by {
            assert(k < i);
        }
    }
    false
}

/// A tool name matches a search query when the lowercased query occurs in
/// the lowercased name: a case-insensitive substring match.
pub open spec fn name_matches(name: Seq<char>, query: Seq<char>) -> bool {
    is_substring(lower_of(query), lower_of(name))
}

/// Case-insensitive substring match of a search query against a tool name.
pub fn matches_query(name: &str, query: &str) -> (r: bool)
    ensures
        r == name_matches(name@, query@),
{
    let lname = lowercase(name);
    let lquery = lowercase(query);
    contains_str(lname.as_str(), lquery.as_str())
}

/// Relies on `String`'s `FromIterator<char>` impl: collecting characters
/// yields the string of exactly those characters, in order.
#[verifier::external_body]
fn string_from_chars(v: &Vec<char>) -> (r: String)
    ensures
        r@ == v@,
{
    v.iter().collect()
}

/// The path prefix that is hidden in tooltips: `.\tools\`.
pub open spec fn tooltip_prefix() -> Seq<char> {
    seq!['.', '\\', 't', 'o', 'o', 'l', 's', '\\']
}

fn tooltip_prefix_chars() -> (v: Vec<char>)
    ensures
        v@ == tooltip_prefix(),
{
    let mut v: Vec<char> = Vec::new();
    v.push('.');
    v.push('\\');
    v.push('t');
    v.push('o');
    v.push('o');
    v.push('l');
    v.push('s');
    v.push('\\');
    proof {
        assert(v@ =~= tooltip_prefix());
    }
    v
}

/// `s` starts with the character sequence `prefix`.
pub open spec fn has_prefix(s: Seq<char>, prefix: Seq<char>) -> bool {
    s.len() >= prefix.len() && s.subrange(0, prefix.len() as int) == prefix
}

fn starts_with_chars(s: &str, prefix: &Vec<char>) -> (r: bool)
    ensures
        r == has_prefix(s@, prefix@),
{
    let slen: usize = s.unicode_len();
    let plen: usize = prefix.len();
    if slen < plen {
        return false;
    }
    let mut j: usize = 0;
    let mut ok = true;
    while ok && j < plen
        invariant
            plen == prefix@.len(),
            slen == s@.len(),
            plen <= slen,
            j <= plen,
            ok ==> forall|t: int| 0 <= t < j ==> s@[t] == prefix@[t],
            !ok ==> j < plen && s@[j as int] != prefix@[j as int],
        decreases plen - j + (if ok { 1int } else { 0int }),
    {
        if s.get_char(j) != prefix[j] {
            ok = false;
        } else {
            j = j + 1;
        }
    }
    proof {
        if ok {
            assert(s@.subrange(0, prefix@.len() as int) =~= prefix@);
        } else {
            assert(s@.subrange(0, prefix@.len() as int)[j as int] != prefix@[j as int]);
        }
    }
    ok
}

/// Every backslash replaced by a forward slash.
pub open spec fn slashes_of(p: Seq<char>) -> Seq<char> {
    p.map(|i: int, c: char| if c == '\\' { '/' } else { c })
}

/// The tooltip form of a tool path: a leading `.\tools\` is removed when
/// present, and every backslash becomes a forward slash.
pub open spec fn display_path_of(p: Seq<char>) -> Seq<char> {
    if has_prefix(p, tooltip_prefix()) {
        slashes_of(p.subrange(tooltip_prefix().len() as int, p.len() as int))
    } else {
        slashes_of(p)
    }
}

/// Renders a tool path for its tooltip.
pub fn display_path(path: &str) -> (r: String)
    ensures
        r@ == display_path_of(path@),
{
    let prefix = tooltip_prefix_chars();
    let stripped = starts_with_chars(path, &prefix);
    let start: usize = if stripped {
        prefix.len()
    } else {
        0
    };
    let plen: usize = path.unicode_len();
    let mut out: Vec<char> = Vec::new();
    let mut i: usize = start;
    while i < plen
        invariant
            start <= i <= plen,
            plen == path@.len(),
            out@ == slashes_of(path@.subrange(start as int, i as int)),
        decreases plen - i,
    {
        let c = path.get_char(i);
        if c == '\\' {
            out.push('/');
        } else {
            out.push(c);
        }
        proof {
            assert(out@ =~= slashes_of(path@.subrange(start as int, i + 1int)));
        }
        i = i + 1;
    }
    proof {
        assert(path@.subrange(start as int, plen as int) =~= if start == 0 {
            path@
        } else {
            path@.subrange(tooltip_prefix().len() as int, path@.len() as int)
        });
    }
    string_from_chars(&out)
}

/// The text of the launch-failure message: the tool's name and its
/// expected path, on two lines.
pub open spec fn launch_error_text(name: Seq<char>, path: Seq<char>) -> Seq<char> {
    "找不到工具："@ + name + "\n路径："@ + path
}

/// Composes the message shown when a tool's path does not exist.
pub fn compose_launch_error(name: &str, path: &str) -> (r: String)
    ensures
        r@ == launch_error_text(name@, path@),
{
    let mut r = String::from_str("找不到工具：");
    r.append(name);
    r.append("\n路径：");
    r.append(path);
    r
}

} // verus!
