//! Where the pdfium library is looked for, in order of preference, and
//! whether a copy embedded in the executable must be written out again.

use vstd::prelude::*;
use crate::paths::opt_view;

verus! {

/// The path `base` with `name` appended as a further component, as
/// `Path::join` gives it.
pub uninterp spec fn path_join(base: Seq<char>, name: Seq<char>) -> Seq<char>;

/// `Path::join`, read back as a string.
/// Claims only that the result is `path_join` of the arguments.
#[verifier::external_body]
fn join_of(base: &str, name: &str) -> (r: String)
    ensures
        r@ == path_join(base@, name@),
{
    std::path::Path::new(base).join(name).to_string_lossy().into_owned()
}

/// The sequence holding the value, if there is one.
pub open spec fn opt_seq<T>(o: Option<T>) -> Seq<T> {
    match o {
        Some(v) => seq![v],
        None => Seq::empty(),
    }
}

/// Splitting `s` at each `:`, character by character: the parts finished so
/// far, and the part being read.
pub open spec fn split_state(s: Seq<char>) -> (Seq<Seq<char>>, Seq<char>)
    decreases s.len(),
{
    if s.len() == 0 {
        (Seq::empty(), Seq::empty())
    } else {
        let (done, cur) = split_state(s.drop_last());
        if s.last() == ':' {
            (done.push(cur), Seq::empty())
        } else {
            (done, cur.push(s.last()))
        }
    }
}

/// The directories of a `:`-separated search path such as `LD_LIBRARY_PATH`:
/// the parts between the separators, empty parts included.
pub open spec fn search_path_dirs(s: Seq<char>) -> Seq<Seq<char>> {
    split_state(s).0.push(split_state(s).1)
}

/// Splits a `:`-separated search path into its directories.
pub fn split_search_path(s: &str) -> (r: Vec<String>)
    ensures
        r@.map_values(|x: String| x@) == search_path_dirs(s@),
{
    let n = s.unicode_len();
    let mut done: Vec<String> = Vec::new();
    let mut start: usize = 0;
    let mut i: usize = 0;
    while i < n
        invariant
            n == s@.len(),
            start <= i <= n,
            done@.map_values(|x: String| x@) == split_state(s@.take(i as int)).0,
            s@.subrange(start as int, i as int) == split_state(s@.take(i as int)).1,
        decreases n - i,
    {
        let c = s.get_char(i);
        let ghost prev = done@;
        assert(s@.take(i + 1).drop_last() =~= s@.take(i as int));
        assert(s@.take(i + 1).last() == s@[i as int]);
        if c == ':' {
            let part = String::from_str(s.substring_char(start, i));
            done.push(part);
            assert(done@.map_values(|x: String| x@) =~= prev.map_values(|x: String| x@).push(
                part@,
            ));
            start = i + 1;
            assert(s@.subrange(start as int, i + 1) =~= Seq::<char>::empty());
        } else {
            assert(s@.subrange(start as int, i + 1) =~= s@.subrange(start as int, i as int).push(
                c,
            ));
        }
        i = i + 1;
    }
    let last = String::from_str(s.substring_char(start, n));
    let ghost prev = done@;
    done.push(last);
    proof {
        assert(s@.take(n as int) =~= s@);
        assert(done@.map_values(|x: String| x@) =~= prev.map_values(|x: String| x@).push(last@));
    }
    done
}

/// The places to look for the pdfium library, best first: the library
/// unpacked from the executable, if any; beside the executable; in the
/// current directory; in the directory that `PDFIUM_DYNAMIC_LIB_PATH` names,
/// if any; in each directory of the `LD_LIBRARY_PATH` search path, if any;
/// and in each system library directory.
pub open spec fn candidates_spec(
    embedded: Option<Seq<char>>,
    exe_dir: Option<Seq<char>>,
    env_dir: Option<Seq<char>>,
    search_path: Option<Seq<char>>,
    system_dirs: Seq<Seq<char>>,
    lib_name: Seq<char>,
) -> Seq<Seq<char>> {
    opt_seq(embedded) + opt_seq(
        match exe_dir {
            Some(d) => Some(path_join(d, lib_name)),
            None => None,
        },
    ) + seq![lib_name] + opt_seq(
        match env_dir {
            Some(d) => Some(path_join(d, lib_name)),
            None => None,
        },
    ) + match search_path {
        Some(p) => search_path_dirs(p).map_values(|d: Seq<char>| path_join(d, lib_name)),
        None => Seq::empty(),
    } + system_dirs.map_values(|d: Seq<char>| path_join(d, lib_name))
}

/// The system library directories are searched last, in the order given:
/// whatever else is looked at, the candidates end with each system directory
/// joined with the library name.
pub proof fn law_system_dirs_searched_last(
    embedded: Option<Seq<char>>,
    exe_dir: Option<Seq<char>>,
    env_dir: Option<Seq<char>>,
    search_path: Option<Seq<char>>,
    system_dirs: Seq<Seq<char>>,
    lib_name: Seq<char>,
)
    ensures
        ({
            let c = candidates_spec(embedded, exe_dir, env_dir, search_path, system_dirs, lib_name);
            let n = system_dirs.len();
            &&& n <= c.len()
            &&& forall|i: int|
                0 <= i < n ==> c[c.len() - n + i] == path_join(#[trigger] system_dirs[i], lib_name)
        }),
{
    let c = candidates_spec(embedded, exe_dir, env_dir, search_path, system_dirs, lib_name);
    let n = system_dirs.len();
    let tail = system_dirs.map_values(|d: Seq<char>| path_join(d, lib_name));
    assert(c.skip(c.len() - tail.len()) =~= tail);
    assert forall|i: int| 0 <= i < n implies c[c.len() - n + i] == path_join(
        #[trigger] system_dirs[i],
        lib_name,
    ) by {
        assert(c.skip(c.len() - tail.len())[i] == tail[i]);
    }
}

/// The directories of `LD_LIBRARY_PATH`, when it is set, are searched in
/// their order right before the system directories.
pub proof fn law_search_path_before_system_dirs(
    embedded: Option<Seq<char>>,
    exe_dir: Option<Seq<char>>,
    env_dir: Option<Seq<char>>,
    search_path: Seq<char>,
    system_dirs: Seq<Seq<char>>,
    lib_name: Seq<char>,
)
    ensures
        ({
            let c = candidates_spec(
                embedded,
                exe_dir,
                env_dir,
                Some(search_path),
                system_dirs,
                lib_name,
            );
            let n = system_dirs.len();
            let dirs = search_path_dirs(search_path);
            let k = dirs.len();
            &&& n + k <= c.len()
            &&& forall|i: int|
                0 <= i < k ==> c[c.len() - n - k + i] == path_join(#[trigger] dirs[i], lib_name)
        }),
{
    let c = candidates_spec(embedded, exe_dir, env_dir, Some(search_path), system_dirs, lib_name);
    let n = system_dirs.len();
    let dirs = search_path_dirs(search_path);
    let k = dirs.len();
    let mid = dirs.map_values(|d: Seq<char>| path_join(d, lib_name));
    let tail = system_dirs.map_values(|d: Seq<char>| path_join(d, lib_name));
    assert(c.subrange(c.len() - n - k, c.len() - n) =~= mid);
    assert forall|i: int| 0 <= i < k implies c[c.len() - n - k + i] == path_join(
        #[trigger] dirs[i],
        lib_name,
    ) by {
        assert(c.subrange(c.len() - n - k, c.len() - n)[i] == mid[i]);
    }
}

/// The first places looked at, in order: the library unpacked from the
/// executable, if any; then beside the executable, if its directory is
/// known; then the bare library name. Without `LD_LIBRARY_PATH`, what follows
/// is the directory `PDFIUM_DYNAMIC_LIB_PATH` names, if any, and then only
/// the system directories.
pub proof fn law_candidates_start(
    embedded: Option<Seq<char>>,
    exe_dir: Option<Seq<char>>,
    env_dir: Option<Seq<char>>,
    search_path: Option<Seq<char>>,
    system_dirs: Seq<Seq<char>>,
    lib_name: Seq<char>,
)
    ensures
        ({
            let c = candidates_spec(embedded, exe_dir, env_dir, search_path, system_dirs, lib_name);
            let e: int = if embedded is Some { 1 } else { 0 };
            let x: int = if exe_dir is Some { 1 } else { 0 };
            let v: int = if env_dir is Some { 1 } else { 0 };
            &&& e + x + 1 + v <= c.len()
            &&& embedded matches Some(p) ==> c[0] == p
            &&& exe_dir matches Some(d) ==> c[e] == path_join(d, lib_name)
            &&& c[e + x] == lib_name
            &&& env_dir matches Some(d) ==> c[e + x + 1] == path_join(d, lib_name)
            &&& search_path is None ==> c.len() == e + x + 1 + v + system_dirs.len()
        }),
{
}

/// Appends `dir` joined with `lib_name` for each directory of `dirs`.
fn push_joined(r: &mut Vec<String>, dirs: &Vec<String>, lib_name: &str)
    ensures
        final(r)@.map_values(|s: String| s@) == old(r)@.map_values(|s: String| s@)
            + dirs@.map_values(|s: String| s@).map_values(|d: Seq<char>| path_join(d, lib_name@)),
{
    let ghost head = r@.map_values(|s: String| s@);
    let n = dirs.len();
    let mut i: usize = 0;
    while i < n
        invariant
            n == dirs@.len(),
            i <= n,
            r@.map_values(|s: String| s@) == head + dirs@.take(i as int).map_values(
                |d: String| path_join(d@, lib_name@),
            ),
        decreases n - i,
    {
        let p = join_of(dirs[i].as_str(), lib_name);
        let ghost before = r@;
        r.push(p);
        proof {
            assert(dirs@.take(i + 1) =~= dirs@.take(i as int).push(dirs@[i as int]));
            assert(r@.map_values(|s: String| s@) =~= before.map_values(|s: String| s@).push(p@));
            assert(dirs@.take(i + 1).map_values(|d: String| path_join(d@, lib_name@))
                =~= dirs@.take(i as int).map_values(|d: String| path_join(d@, lib_name@)).push(
                path_join(dirs@[i as int]@, lib_name@),
            ));
        }
        i = i + 1;
    }
    proof {
        assert(dirs@.take(n as int) =~= dirs@);
        assert(dirs@.map_values(|s: String| s@).map_values(|d: Seq<char>| path_join(d, lib_name@))
            =~= dirs@.map_values(|d: String| path_join(d@, lib_name@)));
    }
}

/// Lists the places to look for the pdfium library named `lib_name`, best
/// first, as `candidates_spec` says; the first one that exists is used.
/// `search_path` is the value of `LD_LIBRARY_PATH`, if it is set.
pub fn pdfium_library_candidates(
    embedded: Option<String>,
    exe_dir: Option<String>,
    env_dir: Option<String>,
    search_path: Option<String>,
    system_dirs: &Vec<String>,
    lib_name: &str,
) -> (r: Vec<String>)
    ensures
        r@.map_values(|s: String| s@) == candidates_spec(
            opt_view(embedded),
            opt_view(exe_dir),
            opt_view(env_dir),
            opt_view(search_path),
            system_dirs@.map_values(|s: String| s@),
            lib_name@,
        ),
{
    let mut r: Vec<String> = Vec::new();
    match embedded {
        Some(p) => r.push(p),
        None => {},
    }
    match &exe_dir {
        Some(d) => r.push(join_of(d.as_str(), lib_name)),
        None => {},
    }
    r.push(String::from_str(lib_name));
    match &env_dir {
        Some(d) => r.push(join_of(d.as_str(), lib_name)),
        None => {},
    }
    let search_dirs: Vec<String> = match &search_path {
        Some(p) => split_search_path(p.as_str()),
        None => Vec::new(),
    };
    push_joined(&mut r, &search_dirs, lib_name);
    push_joined(&mut r, system_dirs, lib_name);
    proof {
        let joined = match opt_view(search_path) {
            Some(p) => search_path_dirs(p).map_values(|d: Seq<char>| path_join(d, lib_name@)),
            None => Seq::empty(),
        };
        assert(search_dirs@.map_values(|s: String| s@).map_values(
            |d: Seq<char>| path_join(d, lib_name@),
        ) =~= joined);
        assert(r@.map_values(|s: String| s@) =~= candidates_spec(
            opt_view(embedded),
            opt_view(exe_dir),
            opt_view(env_dir),
            opt_view(search_path),
            system_dirs@.map_values(|s: String| s@),
            lib_name@,
        ));
    }
    r
}


/// The first candidate that exists: the least index whose `exists` entry is
/// true, if there is one.
pub fn first_existing(candidates: &Vec<String>, exists: &Vec<bool>) -> (r: Option<usize>)
    requires
        exists.len() == candidates.len(),
    ensures
        match r {
            Some(i) => {
                &&& i < candidates.len()
                &&& exists@[i as int]
                &&& forall|j: int| 0 <= j < i ==> !exists@[j]
            },
            None => forall|j: int| 0 <= j < exists.len() ==> !exists@[j],
        },
{
    let n = exists.len();
    let mut i: usize = 0;
    while i < n
        invariant
            n == exists.len(),
            n == candidates.len(),
            i <= n,
            forall|j: int| 0 <= j < i ==> !exists@[j],
        decreases n - i,
    {
        if exists[i] {
            return Some(i);
        }
        i = i + 1;
    }
    None
}

/// Whether `c` has the Unicode `White_Space` property, which `str::trim`
/// removes.
pub open spec fn is_white_space(c: char) -> bool {
    let x = c as u32;
    ||| 9 <= x <= 13
    ||| x == 32
    ||| x == 0x85
    ||| x == 0xa0
    ||| x == 0x1680
    ||| 0x2000 <= x <= 0x200a
    ||| x == 0x2028
    ||| x == 0x2029
    ||| x == 0x202f
    ||| x == 0x205f
    ||| x == 0x3000
}

/// `s` without its leading white space.
pub open spec fn trim_start_spec(s: Seq<char>) -> Seq<char>
    decreases s.len(),
{
    if s.len() > 0 && is_white_space(s[0]) {
        trim_start_spec(s.drop_first())
    } else {
        s
    }
}

/// `s` without its trailing white space.
pub open spec fn trim_end_spec(s: Seq<char>) -> Seq<char>
    decreases s.len(),
{
    if s.len() > 0 && is_white_space(s.last()) {
        trim_end_spec(s.drop_last())
    } else {
        s
    }
}

/// `s` without its leading and trailing white space, as `str::trim` gives it.
pub open spec fn trim_spec(s: Seq<char>) -> Seq<char> {
    trim_end_spec(trim_start_spec(s))
}

/// Whether a character has the Unicode `White_Space` property.
pub fn is_white_space_exec(c: char) -> (r: bool)
    ensures
        r == is_white_space(c),
{
    let x = c as u32;
    (9 <= x && x <= 13) || x == 32 || x == 0x85 || x == 0xa0 || x == 0x1680 || (0x2000 <= x
        && x <= 0x200a) || x == 0x2028 || x == 0x2029 || x == 0x202f || x == 0x205f || x == 0x3000
}

/// The text without its leading and trailing white space.
pub fn trim(s: &str) -> (r: String)
    ensures
        r@ == trim_spec(s@),
{
    let n = s.unicode_len();
    let mut i: usize = 0;
    assert(s@.skip(0) =~= s@);
    while i < n && is_white_space_exec(s.get_char(i))
        invariant
            n == s@.len(),
            i <= n,
            trim_start_spec(s@) == trim_start_spec(s@.skip(i as int)),
        decreases n - i,
    {
        assert(s@.skip(i as int).drop_first() =~= s@.skip(i + 1));
        i = i + 1;
    }
    assert(s@.skip(i as int) =~= s@.subrange(i as int, n as int));
    let mut j: usize = n;
    while j > i && is_white_space_exec(s.get_char(j - 1))
        invariant
            n == s@.len(),
            i <= j <= n,
            trim_start_spec(s@) == s@.subrange(i as int, n as int),
            trim_end_spec(s@.subrange(i as int, n as int)) == trim_end_spec(
                s@.subrange(i as int, j as int),
            ),
        decreases j - i,
    {
        assert(s@.subrange(i as int, j as int).drop_last() =~= s@.subrange(i as int, j - 1));
        j = j - 1;
    }
    String::from_str(s.substring_char(i, j))
}

/// The decimal digit `d` (below ten) as a character.
pub open spec fn digit_char(d: nat) -> char {
    if d == 0 { '0' }
    else if d == 1 { '1' }
    else if d == 2 { '2' }
    else if d == 3 { '3' }
    else if d == 4 { '4' }
    else if d == 5 { '5' }
    else if d == 6 { '6' }
    else if d == 7 { '7' }
    else if d == 8 { '8' }
    else { '9' }
}

/// `n` written in decimal, without leading zeros, as `format!("{}", n)` gives it.
pub open spec fn decimal_spec(n: nat) -> Seq<char>
    decreases n,
{
    if n < 10 {
        seq![digit_char(n)]
    } else {
        decimal_spec(n / 10) + seq![digit_char(n % 10)]
    }
}

/// The digit `d` (below ten) as text.
fn digit_str(d: usize) -> (r: &'static str)
    requires
        d < 10,
    ensures
        r@ == seq![digit_char(d as nat)],
{
    match d {
        0 => {
            proof {
                reveal_strlit("0");
            }
            "0"
        },
        1 => {
            proof {
                reveal_strlit("1");
            }
            "1"
        },
        2 => {
            proof {
                reveal_strlit("2");
            }
            "2"
        },
        3 => {
            proof {
                reveal_strlit("3");
            }
            "3"
        },
        4 => {
            proof {
                reveal_strlit("4");
            }
            "4"
        },
        5 => {
            proof {
                reveal_strlit("5");
            }
            "5"
        },
        6 => {
            proof {
                reveal_strlit("6");
            }
            "6"
        },
        7 => {
            proof {
                reveal_strlit("7");
            }
            "7"
        },
        8 => {
            proof {
                reveal_strlit("8");
            }
            "8"
        },
        9 => {
            proof {
                reveal_strlit("9");
            }
            "9"
        },
        _ => {
            proof {
                reveal_strlit("9");
            }
            "9"
        },
    }
}

/// `n` written in decimal.
pub fn decimal(n: usize) -> (r: String)
    ensures
        r@ == decimal_spec(n as nat),
{
    let mut m: usize = n / 10;
    let mut out = String::from_str(digit_str(n % 10));
    while m > 0
        invariant
            decimal_spec(n as nat) == (if m == 0 {
                Seq::<char>::empty()
            } else {
                decimal_spec(m as nat)
            }) + out@,
        decreases m,
    {
        let d = String::from_str(digit_str(m % 10));
        let ghost old_out = out@;
        out = d.concat(out.as_str());
        assert(decimal_spec(m as nat) == (if m / 10 == 0 {
            Seq::<char>::empty()
        } else {
            decimal_spec((m / 10) as nat)
        }) + seq![digit_char((m % 10) as nat)]);
        m = m / 10;
    }
    proof {
        assert(Seq::<char>::empty() + out@ =~= out@);
    }
    out
}

/// Whether the library embedded in the executable must be written out again:
/// unless it exists already and the version file beside it (its text, when
/// it could be read) holds, around white space, the embedded library's size
/// in bytes in decimal.
pub fn needs_extract(lib_exists: bool, version_text: Option<String>, embedded_len: usize) -> (r:
    bool)
    ensures
        r == !(lib_exists && (version_text matches Some(v) && trim_spec(v@) == decimal_spec(
            embedded_len as nat,
        ))),
{
    if !lib_exists {
        return true;
    }
    match version_text {
        Some(v) => {
            let t = trim(v.as_str());
            let expected = decimal(embedded_len);
            !(t == expected)
        },
        None => true,
    }
}

} // verus!
