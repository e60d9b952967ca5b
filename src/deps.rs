//! Locating the external media tools the player needs, and the report and
//! remediation text produced when some are missing.

use vstd::prelude::*;
use crate::text::{opt_view, contains, join, join_strings, lemma_contains_within, lemma_join_contains, str_eq, views};

verus! {

/// Where and how one required tool was found.
#[derive(Debug, Clone)]
pub struct DependencyStatus {
    pub name: String,
    pub installed: bool,
    pub path: Option<String>,
    pub version: Option<String>,
}

/// The aggregate report over all required tools.
#[derive(Debug, Clone)]
pub struct DependencyCheckResult {
    pub all_satisfied: bool,
    pub dependencies: Vec<DependencyStatus>,
    pub platform: String,
    pub install_instructions: Option<String>,
}

/// A candidate location of a tool, and whether a version should be read from
/// the binary found there.
#[derive(Debug, Clone)]
pub struct Probe {
    pub path: String,
    pub read_version: bool,
}

/// The names of the tools the player needs, in the order they are checked.
pub open spec fn required_dep_names() -> Seq<Seq<char>> {
    seq!["mpv"@, "ffmpeg"@, "yt-dlp"@]
}

/// The names of the tools the player needs, in the order they are checked.
pub fn required_deps() -> (r: Vec<String>)
    ensures
        views(r@) == required_dep_names(),
{
    let r = vec![String::from_str("mpv"), String::from_str("ffmpeg"), String::from_str("yt-dlp")];
    assert(views(r@) =~= required_dep_names());
    r
}

/// The directories searched on macOS after the search path, in order.
pub open spec fn macos_dirs() -> Seq<Seq<char>> {
    seq!["/opt/homebrew/bin"@, "/usr/local/bin"@, "/opt/local/bin"@]
}

/// The fallback locations of `name` on `platform`, searched in order once the
/// search path has no match: the bundled `deps` folder beside the executable
/// on Windows, the package managers' directories on macOS, none elsewhere.
pub open spec fn fallback_paths(platform: Seq<char>, name: Seq<char>, exe_dir: Option<Seq<char>>) -> Seq<Seq<char>> {
    if platform == "windows"@ {
        match exe_dir {
            Some(d) => seq![d + "\\deps\\"@ + name + ".exe"@],
            None => Seq::empty(),
        }
    } else if platform == "macos"@ {
        macos_dirs().map_values(|dir: Seq<char>| dir + "/"@ + name)
    } else {
        Seq::empty()
    }
}

/// The fallback locations to probe for `name` on `platform`, in order. A
/// version is read from a binary found in a package manager's directory, not
/// from one in the bundled folder.
pub fn fallback_probes(platform: &str, name: &str, exe_dir: Option<String>) -> (r: Vec<Probe>)
    ensures
        r@.len() == fallback_paths(platform@, name@, opt_view(exe_dir)).len(),
        forall|i: int|
            0 <= i < r@.len() ==> r@[i].path@ == fallback_paths(
                platform@,
                name@,
                opt_view(exe_dir),
            )[i] && r@[i].read_version == (platform@ == "macos"@),
{
    let mut r: Vec<Probe> = Vec::new();
    if str_eq(platform, "windows") {
        if let Some(d) = exe_dir {
            let mut p = d;
            p.append("\\deps\\");
            p.append(name);
            p.append(".exe");
            r.push(Probe { path: p, read_version: false });
        }
        proof {
            reveal_strlit("windows");
            reveal_strlit("macos");
            assert("windows"@.len() != "macos"@.len());
        }
    } else if str_eq(platform, "macos") {
        let dirs = ["/opt/homebrew/bin", "/usr/local/bin", "/opt/local/bin"];
        let mut i: usize = 0;
        while i < 3
            invariant
                platform@ == "macos"@,
                dirs@ == seq!["/opt/homebrew/bin", "/usr/local/bin", "/opt/local/bin"],
                i <= 3,
                r@.len() == i,
                forall|k: int|
                    0 <= k < i ==> r@[k].path@ == macos_dirs()[k] + "/"@ + name@
                        && r@[k].read_version,
            decreases 3 - i,
        {
            let mut p = String::from_str(dirs[i]);
            p.append("/");
            p.append(name);
            r.push(Probe { path: p, read_version: true });
            i = i + 1;
        }
    }
    r
}

/// The first index below `n` at or after `i` whose entry in `present` holds.
pub open spec fn first_present(present: Seq<bool>, n: int, i: int) -> Option<int>
    decreases n - i,
{
    if i < 0 || i >= n || i >= present.len() {
        None
    } else if present[i] {
        Some(i)
    } else {
        first_present(present, n, i + 1)
    }
}

/// The first location that holds the tool: the search path's match wins, then
/// the first fallback probe whose file exists (`present[i]` for `fallbacks[i]`).
/// A version is read from a binary found on the search path.
pub fn locate_binary(on_path: Option<String>, fallbacks: &Vec<Probe>, present: &Vec<bool>) -> (r: Option<Probe>)
    ensures
        r == match on_path {
            Some(p) => Some(Probe { path: p, read_version: true }),
            None => match first_present(present@, fallbacks@.len() as int, 0) {
                Some(i) => Some(fallbacks@[i]),
                None => None,
            },
        },
{
    match on_path {
        Some(p) => Some(Probe { path: p, read_version: true }),
        None => {
            let mut i: usize = 0;
            while i < fallbacks.len() && i < present.len()
                invariant
                    on_path is None,
                    i <= fallbacks@.len(),
                    first_present(present@, fallbacks@.len() as int, 0) == first_present(
                        present@,
                        fallbacks@.len() as int,
                        i as int,
                    ),
                decreases fallbacks@.len() - i,
            {
                if present[i] {
                    return Some(
                        Probe { path: fallbacks[i].path.clone(), read_version: fallbacks[i].read_version },
                    );
                }
                i = i + 1;
            }
            None
        },
    }
}

/// Index of the first line break in `s` at or after `i`, or the length of `s`.
pub open spec fn line_end(s: Seq<char>, i: int) -> int
    decreases s.len() - i,
{
    if i < 0 || i >= s.len() {
        s.len() as int
    } else if s[i] == '\n' {
        i
    } else {
        line_end(s, i + 1)
    }
}

/// The first line of `s`, as `str::lines` yields it: without its `\n` and
/// without a `\r` right before that `\n`; none for an empty `s`.
pub open spec fn first_line(s: Seq<char>) -> Option<Seq<char>> {
    if s.len() == 0 {
        None
    } else {
        let e = line_end(s, 0);
        if e < s.len() && e > 0 && s[e - 1] == '\r' {
            Some(s.subrange(0, e - 1))
        } else {
            Some(s.subrange(0, e))
        }
    }
}

/// The version reported by a tool run with its version flag: the first line
/// of its output when it exited successfully, none otherwise.
pub fn get_version(success: bool, stdout: &str) -> (r: Option<String>)
    ensures
        match r {
            Some(v) => success && first_line(stdout@) == Some(v@),
            None => !success || first_line(stdout@) is None,
        },
{
    if !success {
        return None;
    }
    let n = stdout.unicode_len();
    if n == 0 {
        return None;
    }
    let mut e: usize = 0;
    while e < n && stdout.get_char(e) != '\n'
        invariant
            n == stdout@.len(),
            e <= n,
            line_end(stdout@, 0) == line_end(stdout@, e as int),
        decreases n - e,
    {
        e = e + 1;
    }
    let end = if e < n && e > 0 && stdout.get_char(e - 1) == '\r' {
        e - 1
    } else {
        e
    };
    Some(String::from_str(stdout.substring_char(0, end)))
}

/// The status of tool `name` given where it was found and, where a version
/// was read there, what the version probe returned.
pub fn check_binary(name: &str, found: Option<Probe>, version: Option<String>) -> (r: DependencyStatus)
    ensures
        r.name@ == name@,
        r.installed == found is Some,
        match found {
            Some(p) => r.path == Some(p.path) && r.version == (if p.read_version {
                version
            } else {
                None
            }),
            None => r.path is None && r.version is None,
        },
{
    match found {
        Some(p) => DependencyStatus {
            name: String::from_str(name),
            installed: true,
            path: Some(p.path),
            version: if p.read_version {
                version
            } else {
                None
            },
        },
        None => DependencyStatus {
            name: String::from_str(name),
            installed: false,
            path: None,
            version: None,
        },
    }
}

/// The remediation text for the tools `missing` on `platform`: empty when
/// nothing is missing; else the list of missing tools and the commands of
/// three of the platform's package managers, or a request to install them by
/// hand on other platforms.
pub open spec fn instructions(platform: Seq<char>, missing: Seq<Seq<char>>) -> Seq<char> {
    let listed = join(missing, ", "@);
    let args = join(missing, " "@);
    if missing.len() == 0 {
        Seq::empty()
    } else if platform == "macos"@ {
        "Missing dependencies: "@ + listed + "\n\nInstall using Homebrew:\nbrew install "@ + args
            + "\n\nOr using MacPorts:\nsudo port install "@ + args + "\n\nOr using Nix:\nnix-env -i "@
            + args
    } else if platform == "linux"@ {
        "Missing dependencies: "@ + listed + "\n\nDebian/Ubuntu:\nsudo apt install "@ + args
            + "\n\nFedora:\nsudo dnf install "@ + args + "\n\nArch Linux:\nsudo pacman -S "@ + args
    } else if platform == "windows"@ {
        "Missing dependencies: "@ + listed
            + "\n\nThese should be bundled with the installer.\nTry reinstalling the application, or install manually:\n\nUsing Scoop:\nscoop install "@
            + args + "\n\nUsing Chocolatey:\nchoco install "@ + args + "\n\nUsing winget:\nwinget install "@
            + args
    } else {
        "Missing dependencies: "@ + listed
            + "\n\nPlease install these manually for your platform."@
    }
}

/// The remediation text for the tools `missing` on `platform`.
pub fn get_install_instructions(platform: &str, missing: &Vec<String>) -> (r: String)
    ensures
        r@ == instructions(platform@, views(missing@)),
{
    if missing.len() == 0 {
        return String::new();
    }
    let listed = join_strings(missing, ", ");
    let args = join_strings(missing, " ");
    let mut r = String::from_str("Missing dependencies: ");
    r.append(listed.as_str());
    if str_eq(platform, "macos") {
        r.append("\n\nInstall using Homebrew:\nbrew install ");
        r.append(args.as_str());
        r.append("\n\nOr using MacPorts:\nsudo port install ");
        r.append(args.as_str());
        r.append("\n\nOr using Nix:\nnix-env -i ");
        r.append(args.as_str());
    } else if str_eq(platform, "linux") {
        r.append("\n\nDebian/Ubuntu:\nsudo apt install ");
        r.append(args.as_str());
        r.append("\n\nFedora:\nsudo dnf install ");
        r.append(args.as_str());
        r.append("\n\nArch Linux:\nsudo pacman -S ");
        r.append(args.as_str());
    } else if str_eq(platform, "windows") {
        r.append(
            "\n\nThese should be bundled with the installer.\nTry reinstalling the application, or install manually:\n\nUsing Scoop:\nscoop install ",
        );
        r.append(args.as_str());
        r.append("\n\nUsing Chocolatey:\nchoco install ");
        r.append(args.as_str());
        r.append("\n\nUsing winget:\nwinget install ");
        r.append(args.as_str());
    } else {
        r.append("\n\nPlease install these manually for your platform.");
    }
    r
}

/// The names of the tools in `s` that were not found, in order.
pub open spec fn missing_names(s: Seq<DependencyStatus>) -> Seq<Seq<char>>
    decreases s.len(),
{
    if s.len() == 0 {
        Seq::empty()
    } else if s.last().installed {
        missing_names(s.drop_last())
    } else {
        missing_names(s.drop_last()).push(s.last().name@)
    }
}

/// Every tool in `s` was found.
pub open spec fn all_installed(s: Seq<DependencyStatus>) -> bool {
    forall|i: int| 0 <= i < s.len() ==> #[trigger] s[i].installed
}

proof fn lemma_missing_empty(s: Seq<DependencyStatus>)
    ensures
        (missing_names(s).len() == 0) == all_installed(s),
    decreases s.len(),
{
    if s.len() > 0 {
        lemma_missing_empty(s.drop_last());
        if all_installed(s) {
            assert(all_installed(s.drop_last())) by {
                assert forall|i: int| 0 <= i < s.drop_last().len() implies #[trigger] s.drop_last()[i].installed by {
                    assert(s[i].installed);
                }
            }
            assert(s[s.len() - 1].installed);
        } else if s.last().installed {
            let i = choose|i: int| 0 <= i < s.len() && !(#[trigger] s[i].installed);
            assert(!s.drop_last()[i].installed);
        }
    }
}

/// The aggregate report over the given statuses on `platform`: satisfied
/// when every tool was found, and otherwise carrying the remediation text
/// for the missing ones.
fn report(platform: &str, statuses: Vec<DependencyStatus>) -> (r: DependencyCheckResult)
    ensures
        r.all_satisfied == all_installed(statuses@),
        r.dependencies@ == statuses@,
        r.platform@ == platform@,
        match r.install_instructions {
            Some(t) => !all_installed(statuses@) && t@ == instructions(
                platform@,
                missing_names(statuses@),
            ),
            None => all_installed(statuses@),
        },
{
    let mut missing: Vec<String> = Vec::new();
    let mut i: usize = 0;
    while i < statuses.len()
        invariant
            i <= statuses@.len(),
            views(missing@) == missing_names(statuses@.subrange(0, i as int)),
        decreases statuses@.len() - i,
    {
        proof {
            assert(statuses@.subrange(0, i + 1).drop_last() =~= statuses@.subrange(0, i as int));
        }
        if !statuses[i].installed {
            missing.push(statuses[i].name.clone());
            assert(views(missing@) =~= missing_names(statuses@.subrange(0, i + 1)));
        }
        i = i + 1;
    }
    assert(statuses@.subrange(0, statuses@.len() as int) =~= statuses@);
    proof {
        lemma_missing_empty(statuses@);
    }
    let all_satisfied = missing.len() == 0;
    let install_instructions = if all_satisfied {
        None
    } else {
        Some(get_install_instructions(platform, &missing))
    };
    DependencyCheckResult {
        all_satisfied,
        dependencies: statuses,
        platform: String::from_str(platform),
        install_instructions,
    }
}

/// Entry `i` of `v`, or none past its end.
pub open spec fn lookup_at<T>(v: Seq<Option<T>>, i: int) -> Option<T> {
    if 0 <= i < v.len() {
        v[i]
    } else {
        None
    }
}

/// Status `d` describes required tool `i` found at `found` (none when not
/// found), with `version` the output of its version probe.
pub open spec fn status_of(d: DependencyStatus, i: int, found: Option<Probe>, version: Option<String>) -> bool {
    &&& d.name@ == required_dep_names()[i]
    &&& d.installed == found is Some
    &&& match found {
        Some(p) => d.path == Some(p.path) && d.version == (if p.read_version {
            version
        } else {
            None
        }),
        None => d.path is None && d.version is None,
    }
}

fn copy_probe(o: &Option<Probe>) -> (r: Option<Probe>)
    ensures
        r == *o,
{
    match o {
        Some(p) => Some(Probe { path: p.path.clone(), read_version: p.read_version }),
        None => None,
    }
}

fn copy_version(o: &Option<String>) -> (r: Option<String>)
    ensures
        r == *o,
{
    match o {
        Some(v) => Some(v.clone()),
        None => None,
    }
}

/// Check all required tools on `platform`. `found[i]` is where required tool
/// `i` was found (entries past the end count as not found) and `versions[i]`
/// what its version probe returned. The report lists the tools in order,
/// each found one installed with its path; it is satisfied when every tool
/// was found, and otherwise carries the remediation text for the missing ones.
pub fn check_dependencies(platform: &str, found: &Vec<Option<Probe>>, versions: &Vec<Option<String>>) -> (r: DependencyCheckResult)
    ensures
        r.dependencies@.len() == 3,
        forall|i: int|
            0 <= i < 3 ==> status_of(
                #[trigger] r.dependencies@[i],
                i,
                lookup_at(found@, i),
                lookup_at(versions@, i),
            ),
        r.all_satisfied == all_installed(r.dependencies@),
        r.platform@ == platform@,
        match r.install_instructions {
            Some(t) => !all_installed(r.dependencies@) && t@ == instructions(
                platform@,
                missing_names(r.dependencies@),
            ),
            None => all_installed(r.dependencies@),
        },
{
    let names = required_deps();
    assert(names@.len() == views(names@).len());
    let mut statuses: Vec<DependencyStatus> = Vec::new();
    let mut i: usize = 0;
    while i < 3
        invariant
            views(names@) == required_dep_names(),
            names@.len() == 3,
            i <= 3,
            statuses@.len() == i,
            forall|j: int|
                0 <= j < i ==> status_of(
                    #[trigger] statuses@[j],
                    j,
                    lookup_at(found@, j),
                    lookup_at(versions@, j),
                ),
        decreases 3 - i,
    {
        let f = if i < found.len() {
            copy_probe(&found[i])
        } else {
            None
        };
        let v = if i < versions.len() {
            copy_version(&versions[i])
        } else {
            None
        };
        assert(names@[i as int]@ == views(names@)[i as int]);
        statuses.push(check_binary(names[i].as_str(), f, v));
        i = i + 1;
    }
    report(platform, statuses)
}

} // verus!

verus! {

/// An occurrence of `pat` in `a` is also one in `a + c`.
proof fn lemma_contains_extend(a: Seq<char>, c: Seq<char>, pat: Seq<char>)
    requires
        contains(a, pat),
    ensures
        contains(a + c, pat),
{
    lemma_contains_within(Seq::empty(), a, c, pat);
    assert(Seq::<char>::empty() + a + c =~= a + c);
}

/// A tool that was found is never among the missing ones, when the tools
/// have distinct names: no remediation text names it.
pub proof fn lemma_installed_not_missing(s: Seq<DependencyStatus>, k: int)
    requires
        0 <= k < s.len(),
        s[k].installed,
        forall|i: int, j: int| 0 <= i < j < s.len() ==> s[i].name@ != s[j].name@,
    ensures
        !missing_names(s).contains(s[k].name@),
    decreases s.len(),
{
    if k < s.len() - 1 {
        lemma_installed_not_missing(s.drop_last(), k);
        assert(s.last().name@ != s[k].name@);
        if !s.last().installed {
            assert(forall|i: int|
                0 <= i < missing_names(s.drop_last()).len() ==> missing_names(s)[i]
                    == missing_names(s.drop_last())[i]);
        }
    } else {
        lemma_missing_are_absent(s.drop_last(), s[k].name@);
    }
}

/// In a report over the required tools, a tool that was found is never
/// among the missing ones: no remediation text names it.
pub proof fn lemma_found_tool_not_missing(s: Seq<DependencyStatus>, k: int)
    requires
        s.len() == 3,
        forall|i: int| 0 <= i < 3 ==> #[trigger] s[i].name@ == required_dep_names()[i],
        0 <= k < 3,
        s[k].installed,
    ensures
        !missing_names(s).contains(s[k].name@),
{
    reveal_strlit("mpv");
    reveal_strlit("ffmpeg");
    reveal_strlit("yt-dlp");
    assert(s[0].name@ == "mpv"@ && s[1].name@ == "ffmpeg"@ && s[2].name@ == "yt-dlp"@);
    assert("ffmpeg"@[0] != "yt-dlp"@[0]);
    assert("mpv"@.len() != "ffmpeg"@.len());
    lemma_installed_not_missing(s, k);
}

/// A name that no tool of `s` bears is not among the missing ones.
proof fn lemma_missing_are_absent(s: Seq<DependencyStatus>, name: Seq<char>)
    requires
        forall|i: int| 0 <= i < s.len() ==> s[i].name@ != name,
    ensures
        !missing_names(s).contains(name),
    decreases s.len(),
{
    if s.len() > 0 {
        lemma_missing_are_absent(s.drop_last(), name);
        assert(s.last().name@ != name);
    }
}

/// When no tool was found, every tool is missing, in order.
proof fn lemma_none_installed(s: Seq<DependencyStatus>)
    requires
        forall|i: int| 0 <= i < s.len() ==> !(#[trigger] s[i].installed),
    ensures
        missing_names(s) == s.map_values(|d: DependencyStatus| d.name@),
    decreases s.len(),
{
    if s.len() > 0 {
        assert forall|i: int| 0 <= i < s.drop_last().len() implies !(#[trigger] s.drop_last()[i].installed) by {
            assert(!s[i].installed);
        }
        lemma_none_installed(s.drop_last());
        assert(!s[s.len() - 1].installed);
        assert(missing_names(s) =~= s.map_values(|d: DependencyStatus| d.name@));
    }
}

/// The remediation text for a non-empty list of missing tools is non-empty
/// and names each of them, on every platform.
pub proof fn lemma_instructions_name_missing(platform: Seq<char>, missing: Seq<Seq<char>>, k: int)
    requires
        0 <= k < missing.len(),
    ensures
        instructions(platform, missing).len() > 0,
        contains(instructions(platform, missing), missing[k]),
{
    reveal_strlit("Missing dependencies: ");
    let head = "Missing dependencies: "@;
    let listed = join(missing, ", "@);
    let args = join(missing, " "@);
    lemma_join_contains(missing, ", "@, k);
    lemma_contains_within(head, listed, Seq::empty(), missing[k]);
    assert(head + listed + Seq::<char>::empty() =~= head + listed);
    let t = instructions(platform, missing);
    if platform == "macos"@ {
        let tail = "\n\nInstall using Homebrew:\nbrew install "@ + args
            + "\n\nOr using MacPorts:\nsudo port install "@ + args + "\n\nOr using Nix:\nnix-env -i "@
            + args;
        assert(t =~= head + listed + tail);
        lemma_contains_extend(head + listed, tail, missing[k]);
    } else if platform == "linux"@ {
        let tail = "\n\nDebian/Ubuntu:\nsudo apt install "@ + args
            + "\n\nFedora:\nsudo dnf install "@ + args + "\n\nArch Linux:\nsudo pacman -S "@ + args;
        assert(t =~= head + listed + tail);
        lemma_contains_extend(head + listed, tail, missing[k]);
    } else if platform == "windows"@ {
        let tail = "\n\nThese should be bundled with the installer.\nTry reinstalling the application, or install manually:\n\nUsing Scoop:\nscoop install "@
            + args + "\n\nUsing Chocolatey:\nchoco install "@ + args + "\n\nUsing winget:\nwinget install "@
            + args;
        assert(t =~= head + listed + tail);
        lemma_contains_extend(head + listed, tail, missing[k]);
    } else {
        let tail = "\n\nPlease install these manually for your platform."@;
        assert(t =~= head + listed + tail);
        lemma_contains_extend(head + listed, tail, missing[k]);
    }
}

/// When none of the tools was found, the report is not satisfied and its
/// remediation text is non-empty and names every tool.
pub proof fn lemma_all_absent_report(platform: Seq<char>, s: Seq<DependencyStatus>, k: int)
    requires
        0 <= k < s.len(),
        forall|i: int| 0 <= i < s.len() ==> !(#[trigger] s[i].installed),
    ensures
        !all_installed(s),
        instructions(platform, missing_names(s)).len() > 0,
        contains(instructions(platform, missing_names(s)), s[k].name@),
{
    assert(!s[k].installed);
    lemma_none_installed(s);
    lemma_instructions_name_missing(platform, missing_names(s), k);
}

} // verus!
