//! The candidate locations probed for the runner script, the development sources
//! and the built server script.
use vstd::prelude::*;
use crate::status::opt_chars;
use crate::text::strs;

verus! {

/// `rel` under `base`: a separator is put between them unless `base` is empty or
/// already ends with one.
pub open spec fn join_path(base: Seq<char>, rel: Seq<char>) -> Seq<char> {
    if base.len() == 0 || base.last() == '/' {
        base + rel
    } else {
        base + "/"@ + rel
    }
}

/// `rel` under `base`, where the base could be determined.
pub open spec fn opt_join(base: Option<Seq<char>>, rel: Seq<char>) -> Option<Seq<char>> {
    match base {
        Some(b) => Some(join_path(b, rel)),
        None => None,
    }
}

/// The characters of a sequence of optional strings.
pub open spec fn opt_strs(v: Seq<Option<String>>) -> Seq<Option<Seq<char>>> {
    v.map_values(|o: Option<String>| opt_chars(o))
}

/// Where the transpiling runner's script may be: under the working directory, then
/// beside the directory of the running executable.
pub open spec fn tsx_candidates_of(cwd: Option<Seq<char>>, exe_dir: Option<Seq<char>>) -> Seq<Option<Seq<char>>> {
    seq![
        opt_join(cwd, "node_modules/tsx/dist/cli.js"@),
        opt_join(exe_dir, "../node_modules/tsx/dist/cli.js"@),
    ]
}

/// Where the development entry source may be, relative to the working directory.
pub open spec fn dev_entry_candidates_of(cwd: Option<Seq<char>>) -> Seq<Option<Seq<char>>> {
    seq![
        opt_join(cwd, "packages/server/src/index.ts"@),
        opt_join(cwd, "../server/src/index.ts"@),
    ]
}

/// Built scripts relative to the workspace root.
pub open spec fn workspace_suffixes() -> Seq<Seq<char>> {
    seq![
        "packages/server/dist/bin.js"@,
        "packages/server/dist/index.js"@,
        "server/dist/bin.js"@,
        "server/dist/index.js"@,
    ]
}

/// Built scripts relative to a resource root of an installed bundle.
pub open spec fn bundle_suffixes() -> Seq<Seq<char>> {
    seq![
        "server/dist/bin.js"@,
        "server/dist/index.js"@,
        "server/dist/server/bin.js"@,
        "server/dist/server/index.js"@,
        "resources/server/dist/bin.js"@,
        "resources/server/dist/index.js"@,
        "resources/server/dist/server/bin.js"@,
        "resources/server/dist/server/index.js"@,
    ]
}

/// Every suffix under `base`.
pub open spec fn all_under(base: Option<Seq<char>>, suffixes: Seq<Seq<char>>) -> Seq<Option<Seq<char>>> {
    suffixes.map_values(|s: Seq<char>| opt_join(base, s))
}

/// Where the built server script may be: under the workspace root, then under the
/// bundle resource directory beside the executable's directory, then under the two
/// spellings of the installed-library root.
pub open spec fn dist_candidates_of(base: Option<Seq<char>>, exe_dir: Option<Seq<char>>) -> Seq<Option<Seq<char>>> {
    let ws = all_under(base, workspace_suffixes());
    match exe_dir {
        Some(d) => ws + all_under(Some(join_path(d, "../Resources"@)), bundle_suffixes())
            + all_under(Some(join_path(d, "../lib/CodeNomad"@)), bundle_suffixes())
            + all_under(Some(join_path(d, "../lib/codenomad"@)), bundle_suffixes()),
        None => ws,
    }
}

/// `rel` under `base`.
pub fn path_join(base: &str, rel: &str) -> (r: String)
    ensures
        r@ == join_path(base@, rel@),
{
    let n = base.unicode_len();
    let mut out = String::from_str(base);
    if n > 0 && base.get_char(n - 1) != '/' {
        out.append("/");
    }
    out.append(rel);
    proof {
        reveal_strlit("/");
    }
    out
}

fn opt_path_join(base: Option<&str>, rel: &str) -> (r: Option<String>)
    ensures
        opt_chars(r) == opt_join(
            match base {
                Some(b) => Some(b@),
                None => None,
            },
            rel@,
        ),
{
    match base {
        Some(b) => Some(path_join(b, rel)),
        None => None,
    }
}

fn push_under(out: &mut Vec<Option<String>>, base: Option<&str>, suffixes: &Vec<String>)
    ensures
        opt_strs(final(out)@) == opt_strs(old(out)@) + all_under(
            match base {
                Some(b) => Some(b@),
                None => None,
            },
            strs(suffixes@),
        ),
{
    let ghost bv = match base {
        Some(b) => Some(b@),
        None => None,
    };
    let ghost want = all_under(bv, strs(suffixes@));
    let mut i: usize = 0;
    assert(opt_strs(out@) =~= opt_strs(old(out)@) + want.subrange(0, 0));
    while i < suffixes.len()
        invariant
            i <= suffixes@.len(),
            want == all_under(bv, strs(suffixes@)),
            bv == match base {
                Some(b) => Some(b@),
                None => None::<Seq<char>>,
            },
            opt_strs(out@) == opt_strs(old(out)@) + want.subrange(0, i as int),
        decreases suffixes@.len() - i,
    {
        let p = opt_path_join(base, suffixes[i].as_str());
        let ghost before = out@;
        out.push(p);
        assert(strs(suffixes@)[i as int] == suffixes@[i as int]@);
        assert(want[i as int] == opt_chars(p));
        assert(opt_strs(out@) =~= opt_strs(before).push(opt_chars(p)));
        assert(want.subrange(0, i + 1) =~= want.subrange(0, i as int).push(opt_chars(p)));
        assert(opt_strs(out@) =~= opt_strs(old(out)@) + want.subrange(0, i + 1));
        i = i + 1;
    }
    assert(want.subrange(0, i as int) =~= want);
}

fn string_list(items: &Vec<&str>) -> (r: Vec<String>)
    ensures
        strs(r@) == items@.map_values(|s: &str| s@),
{
    let mut out: Vec<String> = Vec::new();
    let mut i: usize = 0;
    while i < items.len()
        invariant
            i <= items@.len(),
            strs(out@) == items@.map_values(|s: &str| s@).subrange(0, i as int),
        decreases items@.len() - i,
    {
        let ghost before = out@;
        let item = String::from_str(items[i]);
        out.push(item);
        assert(strs(out@) =~= strs(before).push(item@));
        assert(items@.map_values(|s: &str| s@)[i as int] == item@);
        assert(strs(out@) =~= items@.map_values(|s: &str| s@).subrange(0, i + 1));
        i = i + 1;
    }
    assert(items@.map_values(|s: &str| s@).subrange(0, i as int) =~= items@.map_values(|s: &str| s@));
    out
}

fn bundle_suffix_list() -> (r: Vec<String>)
    ensures
        strs(r@) == bundle_suffixes(),
{
    let items = vec![
        "server/dist/bin.js",
        "server/dist/index.js",
        "server/dist/server/bin.js",
        "server/dist/server/index.js",
        "resources/server/dist/bin.js",
        "resources/server/dist/index.js",
        "resources/server/dist/server/bin.js",
        "resources/server/dist/server/index.js",
    ];
    let r = string_list(&items);
    assert(strs(r@) =~= bundle_suffixes());
    r
}

fn workspace_suffix_list() -> (r: Vec<String>)
    ensures
        strs(r@) == workspace_suffixes(),
{
    let items = vec![
        "packages/server/dist/bin.js",
        "packages/server/dist/index.js",
        "server/dist/bin.js",
        "server/dist/index.js",
    ];
    let r = string_list(&items);
    assert(strs(r@) =~= workspace_suffixes());
    r
}

/// The candidate locations of the transpiling runner's script, given the working
/// directory and the executable's directory where they are known.
pub fn tsx_candidates(cwd: Option<&str>, exe_dir: Option<&str>) -> (r: Vec<Option<String>>)
    ensures
        opt_strs(r@) == tsx_candidates_of(
            match cwd {
                Some(c) => Some(c@),
                None => None,
            },
            match exe_dir {
                Some(d) => Some(d@),
                None => None,
            },
        ),
{
    let mut out: Vec<Option<String>> = Vec::new();
    out.push(opt_path_join(cwd, "node_modules/tsx/dist/cli.js"));
    out.push(opt_path_join(exe_dir, "../node_modules/tsx/dist/cli.js"));
    assert(opt_strs(out@) =~= tsx_candidates_of(
        match cwd {
            Some(c) => Some(c@),
            None => None,
        },
        match exe_dir {
            Some(d) => Some(d@),
            None => None,
        },
    ));
    out
}

/// The candidate locations of the development entry source, given the working
/// directory where it is known.
pub fn dev_entry_candidates(cwd: Option<&str>) -> (r: Vec<Option<String>>)
    ensures
        opt_strs(r@) == dev_entry_candidates_of(
            match cwd {
                Some(c) => Some(c@),
                None => None,
            },
        ),
{
    let mut out: Vec<Option<String>> = Vec::new();
    out.push(opt_path_join(cwd, "packages/server/src/index.ts"));
    out.push(opt_path_join(cwd, "../server/src/index.ts"));
    assert(opt_strs(out@) =~= dev_entry_candidates_of(
        match cwd {
            Some(c) => Some(c@),
            None => None,
        },
    ));
    out
}

/// The candidate locations of the built server script, given the workspace root and
/// the executable's directory where they are known.
pub fn dist_candidates(base: Option<&str>, exe_dir: Option<&str>) -> (r: Vec<Option<String>>)
    ensures
        opt_strs(r@) == dist_candidates_of(
            match base {
                Some(b) => Some(b@),
                None => None,
            },
            match exe_dir {
                Some(d) => Some(d@),
                None => None,
            },
        ),
{
    let mut out: Vec<Option<String>> = Vec::new();
    assert(opt_strs(out@) =~= Seq::<Option<Seq<char>>>::empty());
    push_under(&mut out, base, &workspace_suffix_list());
    assert(opt_strs(out@) =~= all_under(
        match base {
            Some(b) => Some(b@),
            None => None,
        },
        workspace_suffixes(),
    ));
    match exe_dir {
        Some(d) => {
            let bundle = bundle_suffix_list();
            let resources = path_join(d, "../Resources");
            push_under(&mut out, Some(resources.as_str()), &bundle);
            let upper = path_join(d, "../lib/CodeNomad");
            push_under(&mut out, Some(upper.as_str()), &bundle);
            let lower = path_join(d, "../lib/codenomad");
            push_under(&mut out, Some(lower.as_str()), &bundle);
        },
        None => {},
    }
    out
}

/// `s` without every leading `~/`.
pub open spec fn strip_home_prefix(s: Seq<char>) -> Seq<char>
    decreases s.len(),
{
    if s.len() >= 2 && s[0] == '~' && s[1] == '/' {
        strip_home_prefix(s.subrange(2, s.len() as int))
    } else {
        s
    }
}

/// A path with a leading `~/` put under the home directory, where that is known;
/// any other path as it is.
pub open spec fn home_expanded(path: Seq<char>, home: Option<Seq<char>>) -> Seq<char> {
    if path.len() >= 2 && path[0] == '~' && path[1] == '/' && home is Some {
        join_path(home->0, strip_home_prefix(path))
    } else {
        path
    }
}

/// Puts a path that starts with `~/` under the home directory `home`, where known.
pub fn expand_home(path: &str, home: Option<&str>) -> (r: String)
    ensures
        r@ == home_expanded(
            path@,
            match home {
                Some(h) => Some(h@),
                None => None,
            },
        ),
{
    let chars = crate::text::chars_vec(path);
    let n = chars.len();
    let starts = n >= 2 && chars[0] == '~' && chars[1] == '/';
    match home {
        Some(h) if starts => {
            let mut k: usize = 0;
            assert(path@.subrange(0, n as int) =~= path@);
            while n - k >= 2 && chars[k] == '~' && chars[k + 1] == '/'
                invariant
                    n == chars@.len(),
                    chars@ == path@,
                    k <= n,
                    strip_home_prefix(path@) == strip_home_prefix(path@.subrange(k as int, n as int)),
                decreases n - k,
            {
                let ghost sub = path@.subrange(k as int, n as int);
                assert(sub[0] == '~' && sub[1] == '/');
                assert(sub.subrange(2, sub.len() as int) =~= path@.subrange(k + 2, n as int));
                k = k + 2;
            }
            assert(strip_home_prefix(path@.subrange(k as int, n as int)) == path@.subrange(k as int, n as int));
            path_join(h, path.substring_char(k, n))
        },
        _ => String::from_str(path),
    }
}

} // verus!
