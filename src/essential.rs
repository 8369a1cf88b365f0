//! The static files shared by all generated documentation, named after the
//! toolchain version that produced them.
use vstd::prelude::*;

verus! {

/// The files that carry the toolchain's version token in their name.
pub open spec fn versioned_files() -> Seq<Seq<char>> {
    seq![
        "brush.svg"@, "wheel.svg"@, "down-arrow.svg"@, "dark.css"@, "light.css"@, "ayu.css"@,
        "main.js"@, "normalize.css"@, "rustdoc.css"@, "settings.css"@, "settings.js"@,
        "storage.js"@, "theme.js"@, "source-script.js"@, "noscript.css"@, "rust-logo.png"@,
    ]
}

/// The files copied under their own name.
pub open spec fn unversioned_files() -> Seq<Seq<char>> {
    seq![
        "FiraSans-Medium.woff"@, "FiraSans-Regular.woff"@, "SourceCodePro-Regular.woff"@,
        "SourceCodePro-Semibold.woff"@, "SourceSerifPro-Bold.ttf.woff"@,
        "SourceSerifPro-Regular.ttf.woff"@, "SourceSerifPro-It.ttf.woff"@,
    ]
}

/// The index of the last `.` of `s`, or -1.
pub open spec fn last_dot(s: Seq<char>) -> int
    decreases s.len(),
{
    if s.len() == 0 {
        -1
    } else if s.last() == '.' {
        s.len() - 1
    } else {
        last_dot(s.drop_last())
    }
}

/// `base.ext` becomes `base-<version>.ext`, splitting at the last dot.
pub open spec fn versioned_name(file: Seq<char>, version: Seq<char>) -> Seq<char> {
    let k = last_dot(file);
    file.take(k) + "-"@ + version + file.skip(k)
}

/// The names of all essential files for a toolchain version: the versioned
/// ones first, then the others.
pub open spec fn essential_names(version: Seq<char>) -> Seq<Seq<char>> {
    versioned_files().map_values(|f: Seq<char>| versioned_name(f, version)) + unversioned_files()
}

proof fn lemma_last_dot_bounds(s: Seq<char>)
    ensures
        -1 <= last_dot(s) < s.len(),
        last_dot(s) >= 0 ==> s[last_dot(s)] == '.',
    decreases s.len(),
{
    if s.len() > 0 && s.last() != '.' {
        lemma_last_dot_bounds(s.drop_last());
    }
}

/// Inserts the version token before the extension of `file`.
pub fn versioned_file_name(file: &str, version: &str) -> (r: String)
    requires
        last_dot(file@) >= 0,
    ensures
        r@ == versioned_name(file@, version@),
{
    let n = file.unicode_len();
    let mut dot: usize = 0;
    let mut found = false;
    let mut i: usize = 0;
    while i < n
        invariant
            n == file@.len(),
            i <= n,
            found ==> dot < i && dot as int == last_dot(file@.take(i as int)),
            !found ==> last_dot(file@.take(i as int)) == -1,
        decreases n - i,
    {
        assert(file@.take(i + 1).drop_last() == file@.take(i as int));
        if file.get_char(i) == '.' {
            dot = i;
            found = true;
        }
        i = i + 1;
    }
    assert(file@.take(n as int) == file@);
    let mut r = String::from_str(file.substring_char(0, dot));
    r.append("-");
    r.append(version);
    r.append(file.substring_char(dot, n));
    r
}

fn push_versioned(out: &mut Vec<String>, file: &str, version: &str)
    requires
        last_dot(file@) >= 0,
    ensures
        final(out)@ == old(out)@.push(final(out)@.last()),
        final(out)@.last()@ == versioned_name(file@, version@),
{
    out.push(versioned_file_name(file, version));
}

/// The names of the essential files to publish for `version`.
pub fn essential_file_names(version: &String) -> (r: Vec<String>)
    ensures
        r@.map_values(|s: String| s@) == essential_names(version@),
{
    let v = version.as_str();
    let versioned: Vec<&str> = vec![
        "brush.svg", "wheel.svg", "down-arrow.svg", "dark.css", "light.css", "ayu.css",
        "main.js", "normalize.css", "rustdoc.css", "settings.css", "settings.js", "storage.js",
        "theme.js", "source-script.js", "noscript.css", "rust-logo.png",
    ];
    let plain: Vec<&str> = vec![
        "FiraSans-Medium.woff", "FiraSans-Regular.woff", "SourceCodePro-Regular.woff",
        "SourceCodePro-Semibold.woff", "SourceSerifPro-Bold.ttf.woff",
        "SourceSerifPro-Regular.ttf.woff", "SourceSerifPro-It.ttf.woff",
    ];
    assert(versioned@.map_values(|s: &str| s@) =~= versioned_files());
    assert(plain@.map_values(|s: &str| s@) =~= unversioned_files());
    let mut r: Vec<String> = Vec::new();
    let mut i: usize = 0;
    while i < versioned.len()
        invariant
            i <= versioned@.len(),
            versioned@.len() == 16,
            v@ == version@,
            versioned@.map_values(|s: &str| s@) == versioned_files(),
            r@.map_values(|s: String| s@) == versioned_files().take(i as int).map_values(
                |f: Seq<char>| versioned_name(f, version@),
            ),
        decreases versioned@.len() - i,
    {
        proof {
            assert(versioned@[i as int]@ == versioned_files()[i as int]);
            lemma_versioned_have_dots(i as int);
        }
        let ghost before = r@;
        push_versioned(&mut r, versioned[i], v);
        assert(r@.map_values(|s: String| s@) =~= before.map_values(|s: String| s@).push(
            versioned_name(versioned_files()[i as int], version@),
        ));
        assert(r@.map_values(|s: String| s@) =~= versioned_files().take(i + 1).map_values(
            |f: Seq<char>| versioned_name(f, version@),
        ));
        i = i + 1;
    }
    assert(versioned_files().take(16) == versioned_files());
    let ghost head = r@.map_values(|s: String| s@);
    let mut j: usize = 0;
    while j < plain.len()
        invariant
            j <= plain@.len(),
            plain@.len() == 7,
            plain@.map_values(|s: &str| s@) == unversioned_files(),
            r@.map_values(|s: String| s@) == head + unversioned_files().take(j as int),
        decreases plain@.len() - j,
    {
        assert(plain@[j as int]@ == unversioned_files()[j as int]);
        let ghost before = r@;
        r.push(String::from_str(plain[j]));
        assert(r@.map_values(|s: String| s@) =~= before.map_values(|s: String| s@).push(
            unversioned_files()[j as int],
        ));
        assert(r@.map_values(|s: String| s@) =~= head + unversioned_files().take(j + 1));
        j = j + 1;
    }
    assert(unversioned_files().take(7) == unversioned_files());
    assert(r@.map_values(|s: String| s@) =~= essential_names(version@));
    r
}

proof fn lemma_dot_found(s: Seq<char>, k: int)
    requires
        0 <= k < s.len(),
        s[k] == '.',
    ensures
        last_dot(s) >= k,
    decreases s.len(),
{
    if s.last() != '.' {
        assert(s.drop_last()[k] == '.');
        lemma_dot_found(s.drop_last(), k);
    }
}

proof fn lemma_versioned_have_dots(i: int)
    requires
        0 <= i < 16,
    ensures
        last_dot(versioned_files()[i]) >= 0,
{
    let f = versioned_files()[i];
    reveal_strlit("brush.svg");
    reveal_strlit("wheel.svg");
    reveal_strlit("down-arrow.svg");
    reveal_strlit("dark.css");
    reveal_strlit("light.css");
    reveal_strlit("ayu.css");
    reveal_strlit("main.js");
    reveal_strlit("normalize.css");
    reveal_strlit("rustdoc.css");
    reveal_strlit("settings.css");
    reveal_strlit("settings.js");
    reveal_strlit("storage.js");
    reveal_strlit("theme.js");
    reveal_strlit("source-script.js");
    reveal_strlit("noscript.css");
    reveal_strlit("rust-logo.png");
    let k = f.len() - 4;
    if i == 3 || i == 4 || i == 5 || i == 7 || i == 8 || i == 9 || i == 14 {
        assert(f[k] == '.');
    } else if i == 6 || i == 10 || i == 11 || i == 12 || i == 13 {
        assert(f[k + 1] == '.');
        lemma_dot_found(f, k + 1);
    } else {
        assert(f[k] == '.');
    }
    if !(i == 6 || i == 10 || i == 11 || i == 12 || i == 13) {
        lemma_dot_found(f, k);
    }
}

} // verus!
