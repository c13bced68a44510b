use vstd::prelude::*;

verus! {

/// The directive that must precede every other statement of a shader.
pub open spec fn version_tag() -> Seq<char> {
    seq!['#', 'v', 'e', 'r', 's', 'i', 'o', 'n']
}

/// What each injected line starts with.
pub open spec fn define_prefix() -> Seq<char> {
    seq!['#', 'd', 'e', 'f', 'i', 'n', 'e', ' ']
}

/// `p` is the first character of a line of `s` (or the end of a line that ends `s`).
pub open spec fn is_line_start(s: Seq<char>, p: int) -> bool {
    p == 0 || (0 < p <= s.len() && s[p - 1] == '\n')
}

/// A line of `s` starts at `p` with `#version`.
pub open spec fn version_at(s: Seq<char>, p: int) -> bool {
    &&& 0 <= p
    &&& p + 8 <= s.len()
    &&& is_line_start(s, p)
    &&& s.subrange(p, p + 8) == version_tag()
}

/// The start of the first line at or after `from` that begins with `#version`.
pub open spec fn first_version(s: Seq<char>, from: int) -> Option<int>
    decreases s.len() - from,
{
    if from < 0 || from >= s.len() {
        None
    } else if version_at(s, from) {
        Some(from)
    } else {
        first_version(s, from + 1)
    }
}

/// The index of the line break that ends the line holding `p`, or the length of `s`.
pub open spec fn line_end(s: Seq<char>, p: int) -> int
    decreases s.len() - p,
{
    if p < 0 || p >= s.len() {
        s.len() as int
    } else if s[p] == '\n' {
        p
    } else {
        line_end(s, p + 1)
    }
}

/// One `#define` line for each define, joined by line breaks.
pub open spec fn define_block(defs: Seq<Seq<char>>) -> Seq<char>
    decreases defs.len(),
{
    if defs.len() == 0 {
        Seq::empty()
    } else if defs.len() == 1 {
        define_prefix() + defs[0]
    } else {
        define_block(defs.drop_last()) + seq!['\n'] + define_prefix() + defs.last()
    }
}

/// The source with the define lines placed right after the first `#version` line, or in
/// front of the source when it has none; with no defines, the source itself.
pub open spec fn with_defines(s: Seq<char>, defs: Seq<Seq<char>>) -> Seq<char> {
    if defs.len() == 0 {
        s
    } else {
        match first_version(s, 0) {
        Some(p) => {
            let e = line_end(s, p);
            s.subrange(0, e) + seq!['\n'] + define_block(defs) + s.subrange(e, s.len() as int)
        },
            None => define_block(defs) + seq!['\n'] + s,
        }
    }
}

pub open spec fn strings_view(v: Seq<String>) -> Seq<Seq<char>> {
    v.map_values(|d: String| d@)
}

fn version_char(k: usize) -> (c: char)
    requires
        k < 8,
    ensures
        c == version_tag()[k as int],
{
    match k {
        0 => '#',
        1 => 'v',
        2 => 'e',
        3 => 'r',
        4 => 's',
        5 => 'i',
        6 => 'o',
        _ => 'n',
    }
}

/// Whether `#version` stands at character `p` of `s`.
fn tag_at(s: &str, n: usize, p: usize) -> (r: bool)
    requires
        n == s@.len(),
        p <= n,
    ensures
        r == (p + 8 <= n && s@.subrange(p as int, p + 8) == version_tag()),
{
    if n - p < 8 {
        return false;
    }
    let mut k: usize = 0;
    while k < 8
        invariant
            p + 8 <= n,
            n == s@.len(),
            k <= 8,
            forall|j: int| 0 <= j < k ==> s@[p + j] == version_tag()[j],
        decreases 8 - k,
    {
        if s.get_char(p + k) != version_char(k) {
            assert(s@.subrange(p as int, p + 8)[k as int] != version_tag()[k as int]);
            return false;
        }
        k = k + 1;
    }
    assert(s@.subrange(p as int, p + 8) =~= version_tag());
    true
}

/// The start of the first line of `s` that begins with `#version`.
fn find_version(s: &str, n: usize) -> (r: Option<usize>)
    requires
        n == s@.len(),
    ensures
        r matches Some(p) ==> first_version(s@, 0) == Some(p as int) && p < n,
        r is None ==> first_version(s@, 0) is None,
{
    let mut p: usize = 0;
    let mut at_start = true;
    let mut result: Option<usize> = None;
    while p < n && result.is_none()
        invariant
            n == s@.len(),
            p <= n,
            result is None ==> first_version(s@, 0) == first_version(s@, p as int),
            result is None ==> at_start == is_line_start(s@, p as int),
            result matches Some(q) ==> first_version(s@, 0) == Some(q as int) && q < n,
        decreases n - p,
    {
        if at_start && tag_at(s, n, p) {
            result = Some(p);
        }
        at_start = s.get_char(p) == '\n';
        p = p + 1;
    }
    result
}

/// The index of the line break that ends the line holding `p`, or `n`.
fn find_line_end(s: &str, n: usize, p: usize) -> (r: usize)
    requires
        n == s@.len(),
        p <= n,
    ensures
        r == line_end(s@, p as int),
        p <= r <= n,
{
    let mut q: usize = p;
    while q < n && s.get_char(q) != '\n'
        invariant
            n == s@.len(),
            p <= q <= n,
            line_end(s@, p as int) == line_end(s@, q as int),
        decreases n - q,
    {
        q = q + 1;
    }
    q
}

/// The `#define` lines for `defines`, joined by line breaks.
pub fn define_lines(defines: &Vec<String>) -> (r: String)
    ensures
        r@ == define_block(strings_view(defines@)),
{
    let ghost defs = strings_view(defines@);
    let mut r = String::new();
    let mut i: usize = 0;
    proof {
        reveal_strlit("\n");
        reveal_strlit("#define ");
        assert(defs.take(0) =~= Seq::<Seq<char>>::empty());
    }
    while i < defines.len()
        invariant
            i <= defines@.len(),
            defs == strings_view(defines@),
            r@ == define_block(defs.take(i as int)),
        decreases defines@.len() - i,
    {
        proof {
            reveal_strlit("\n");
            reveal_strlit("#define ");
        }
        if i > 0 {
            r.append("\n");
        }
        r.append("#define ");
        r.append(defines[i].as_str());
        proof {
            let t = defs.take(i + 1);
            assert(t.drop_last() =~= defs.take(i as int));
            assert(t.last() == defines@[i as int]@);
            assert("#define "@ =~= define_prefix());
            assert(r@ =~= define_block(t));
        }
        i = i + 1;
    }
    proof {
        assert(defs.take(defines@.len() as int) =~= defs);
    }
    r
}

/// Injects one `#define` line per define into a shader source: right after the first
/// line that starts with `#version`, which must stay the first statement, or in front
/// of the source when there is none. Lines are separated by `\n` and kept as they are;
/// with no defines the source comes back unchanged.
pub fn add_defines(source: &str, defines: &Vec<String>) -> (r: String)
    ensures
        r@ == with_defines(source@, strings_view(defines@)),
{
    if defines.len() == 0 {
        return String::from_str(source);
    }
    let block = define_lines(defines);
    let n = source.unicode_len();
    proof {
        reveal_strlit("\n");
    }
    match find_version(source, n) {
        Some(p) => {
            let e = find_line_end(source, n, p);
            let mut r = String::from_str(source.substring_char(0, e));
            r.append("\n");
            r.append(block.as_str());
            r.append(source.substring_char(e, n));
            proof {
                assert(r@ =~= with_defines(source@, strings_view(defines@)));
            }
            r
        },
        None => {
            let mut r = block;
            r.append("\n");
            r.append(source);
            proof {
                assert(r@ =~= with_defines(source@, strings_view(defines@)));
            }
            r
        },
    }
}

} // verus!
