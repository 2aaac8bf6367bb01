//! Names of the files that the native build writes its outputs to, next to
//! the sample input: `<stem>_<suffix>.<extension>`.
use vstd::prelude::*;
use vstd::string::*;

verus! {

/// The position of the last `c` in `s`, or -1 where there is none.
pub open spec fn last_index_of(s: Seq<char>, c: char) -> int
    decreases s.len(),
{
    if s.len() == 0 {
        -1
    } else if s.last() == c {
        s.len() - 1
    } else {
        last_index_of(s.drop_last(), c)
    }
}

proof fn lemma_last_index_of(s: Seq<char>, c: char)
    ensures
        -1 <= last_index_of(s, c) < s.len(),
        last_index_of(s, c) >= 0 ==> s[last_index_of(s, c)] == c,
        forall|j: int| last_index_of(s, c) < j < s.len() ==> s[j] != c,
    decreases s.len(),
{
    if s.len() > 0 && s.last() != c {
        lemma_last_index_of(s.drop_last(), c);
        assert forall|j: int| last_index_of(s, c) < j < s.len() implies s[j] != c by {
            if j < s.len() - 1 {
                assert(s[j] == s.drop_last()[j]);
            }
        }
    }
}

proof fn lemma_last_index_of_prefix(s: Seq<char>, c: char, i: int)
    requires
        0 <= i <= s.len(),
        forall|j: int| i <= j < s.len() ==> s[j] != c,
    ensures
        last_index_of(s, c) == last_index_of(s.subrange(0, i), c),
    decreases s.len() - i,
{
    if i < s.len() {
        assert(s[s.len() - 1] != c);
        assert(s.drop_last() =~= s.subrange(0, s.len() - 1));
        assert(s.subrange(0, s.len() - 1).subrange(0, i) =~= s.subrange(0, i));
        lemma_last_index_of_prefix(s.drop_last(), c, i);
    } else {
        assert(s.subrange(0, i) =~= s);
    }
}

/// The stem and the extension of a file name, as `Path::file_stem` and
/// `Path::extension` give them: split at the last `.`, unless the name has
/// no `.`, starts with its only `.`, or is `..`; then the stem is the whole
/// name and there is no extension.
pub open spec fn spec_stem_and_extension(name: Seq<char>) -> (Seq<char>, Option<Seq<char>>) {
    let d: int = last_index_of(name, '.');
    if name == seq!['.', '.'] || d <= 0 {
        (name, None)
    } else {
        (name.subrange(0, d), Some(name.subrange(d + 1, name.len() as int)))
    }
}

/// The position of the last `.` in `name`, if any.
fn find_last_dot(name: &str) -> (r: Option<usize>)
    ensures
        r is None ==> last_index_of(name@, '.') == -1,
        r matches Some(d) ==> d == last_index_of(name@, '.') && d < name@.len(),
{
    let n: usize = name.unicode_len();
    let mut i: usize = n;
    while i > 0
        invariant
            n == name@.len(),
            i <= n,
            forall|j: int| i <= j < n ==> name@[j] != '.',
        decreases i,
    {
        if name.get_char(i - 1) == '.' {
            proof {
                lemma_last_index_of_prefix(name@, '.', i as int);
                assert(name@.subrange(0, i as int).last() == '.');
            }
            return Some(i - 1);
        }
        i = i - 1;
    }
    proof {
        lemma_last_index_of_prefix(name@, '.', 0);
    }
    None
}

/// Splits a file name into its stem and its extension.
pub fn stem_and_extension(name: &str) -> (r: (String, Option<String>))
    ensures
        r.0@ == spec_stem_and_extension(name@).0,
        r.1 is None <==> spec_stem_and_extension(name@).1 is None,
        r.1 matches Some(e) ==> spec_stem_and_extension(name@).1 == Some(e@),
{
    let n: usize = name.unicode_len();
    let is_dotdot = n == 2 && name.get_char(0) == '.' && name.get_char(1) == '.';
    proof {
        if is_dotdot {
            assert(name@ =~= seq!['.', '.']);
        }
        if n == 2 && name@ == seq!['.', '.'] {
            assert(name@[0] == '.' && name@[1] == '.');
        }
    }
    match find_last_dot(name) {
        Some(d) => {
            if is_dotdot || d == 0 {
                (String::from_str(name), None)
            } else {
                let stem = name.substring_char(0, d);
                let ext = name.substring_char(d + 1, n);
                (String::from_str(stem), Some(String::from_str(ext)))
            }
        },
        None => (String::from_str(name), None),
    }
}

/// The name of an output file for the input file named `name`:
/// `<stem>_<suffix>.<extension>`.
pub open spec fn spec_output_file_name(name: Seq<char>, suffix: Seq<char>) -> Option<Seq<char>> {
    let (stem, ext) = spec_stem_and_extension(name);
    match ext {
        None => None,
        Some(e) => Some(stem + "_"@ + suffix + "."@ + e),
    }
}

/// The name of the output file with suffix `suffix` for the input file named
/// `name`; `None` where the input's name has no extension.
pub fn output_file_name(name: &str, suffix: &str) -> (r: Option<String>)
    ensures
        r is None <==> spec_output_file_name(name@, suffix@) is None,
        r matches Some(s) ==> spec_output_file_name(name@, suffix@) == Some(s@),
{
    let (stem, ext) = stem_and_extension(name);
    match ext {
        None => None,
        Some(e) => {
            let mut out = stem;
            out.append("_");
            out.append(suffix);
            out.append(".");
            out.append(e.as_str());
            Some(out)
        },
    }
}

/// Where a file name has an extension, the stem, a `.` and the extension
/// make up the name again, the extension holds no `.`, and the stem is not
/// empty.
pub proof fn lemma_stem_extension_rejoin(name: Seq<char>)
    requires
        spec_stem_and_extension(name).1 is Some,
    ensures
        spec_stem_and_extension(name).0 + "."@ + spec_stem_and_extension(name).1.unwrap() == name,
        !spec_stem_and_extension(name).1.unwrap().contains('.'),
        spec_stem_and_extension(name).0.len() > 0,
{
    lemma_last_index_of(name, '.');
    let d: int = last_index_of(name, '.');
    reveal_strlit(".");
    assert("."@ =~= seq!['.']);
    assert(name.subrange(0, d) + "."@ + name.subrange(d + 1, name.len() as int) =~= name);
    let e = name.subrange(d + 1, name.len() as int);
    assert forall|j: int| 0 <= j < e.len() implies e[j] != '.' by {
        assert(e[j] == name[d + 1 + j]);
    }
}

/// A file name has an extension exactly where it has a `.` after its first
/// character and is not `..`; without one, the stem is the whole name.
pub proof fn lemma_extension_exists(name: Seq<char>)
    ensures
        spec_stem_and_extension(name).1 is Some <==> (name != seq!['.', '.'] && exists|i: int|
            0 < i < name.len() && #[trigger] name[i] == '.'),
        spec_stem_and_extension(name).1 is None ==> spec_stem_and_extension(name).0 == name,
{
    lemma_last_index_of(name, '.');
    let d: int = last_index_of(name, '.');
    if exists|i: int| 0 < i < name.len() && #[trigger] name[i] == '.' {
        let i = choose|i: int| 0 < i < name.len() && #[trigger] name[i] == '.';
        assert(d >= i);
    }
}

/// The output name is the input's whole stem, `_`, the suffix, `.` and the
/// input's extension: where the input's name has an extension, it is split
/// as `stem.ext` with a non-empty stem and an extension without `.`, and the
/// output is `stem_suffix.ext`; where it has none, there is no output name.
pub proof fn lemma_output_file_name_shape(name: Seq<char>, suffix: Seq<char>)
    ensures
        spec_output_file_name(name, suffix) is Some <==> (name != seq!['.', '.'] && exists|i: int|
            0 < i < name.len() && #[trigger] name[i] == '.'),
        spec_output_file_name(name, suffix) matches Some(out) ==> exists|stem: Seq<char>, ext: Seq<char>|
            #![trigger stem + ext]
            name == stem + "."@ + ext && stem.len() > 0 && !ext.contains('.') && out == stem + "_"@
                + suffix + "."@ + ext,
{
    lemma_extension_exists(name);
    if spec_stem_and_extension(name).1 is Some {
        lemma_stem_extension_rejoin(name);
        let stem = spec_stem_and_extension(name).0;
        let ext = spec_stem_and_extension(name).1.unwrap();
        assert(name == stem + "."@ + ext && stem.len() > 0 && !ext.contains('.') && spec_output_file_name(
            name,
            suffix,
        ) == Some(stem + "_"@ + suffix + "."@ + ext));
        assert(stem + ext == stem + ext);
    }
}

} // verus!
