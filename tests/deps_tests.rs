use beatstv::deps::{
    check_binary, check_dependencies, fallback_probes, get_install_instructions, get_version,
    locate_binary, required_deps, Probe,
};

fn path_hit(name: &str) -> Option<Probe> {
    locate_binary(Some(format!("/usr/bin/{}", name)), &Vec::new(), &Vec::new())
}

#[test]
fn required_deps_are_the_three_tools() {
    assert_eq!(required_deps(), vec!["mpv", "ffmpeg", "yt-dlp"]);
}

#[test]
fn tool_on_search_path_is_installed() {
    let names = required_deps();
    let found: Vec<Option<Probe>> = names.iter().map(|n| path_hit(n)).collect();
    let versions: Vec<Option<String>> = names.iter().map(|n| Some(format!("{} 1.0", n))).collect();
    let r = check_dependencies("linux", &found, &versions);
    assert!(r.all_satisfied);
    assert_eq!(r.install_instructions, None);
    assert_eq!(r.platform, "linux");
    assert_eq!(r.dependencies.len(), 3);
    for (s, n) in r.dependencies.iter().zip(names.iter()) {
        assert_eq!(&s.name, n);
        assert!(s.installed);
        assert_eq!(s.path, Some(format!("/usr/bin/{}", n)));
        assert_eq!(s.version, Some(format!("{} 1.0", n)));
    }
}

#[test]
fn one_missing_tool_is_the_only_one_named() {
    let found = vec![path_hit("mpv"), None, path_hit("yt-dlp")];
    let r = check_dependencies("linux", &found, &Vec::new());
    assert!(!r.all_satisfied);
    assert!(r.dependencies[0].installed);
    assert!(!r.dependencies[1].installed);
    assert_eq!(r.dependencies[1].path, None);
    assert_eq!(r.dependencies[0].version, None);
    let t = r.install_instructions.unwrap();
    assert!(t.contains("ffmpeg"));
    assert!(!t.contains("mpv"));
    assert!(!t.contains("yt-dlp"));
}

#[test]
fn short_lookup_list_counts_as_not_found() {
    let r = check_dependencies("macos", &vec![path_hit("mpv")], &Vec::new());
    assert!(!r.all_satisfied);
    assert_eq!(r.dependencies.len(), 3);
    assert!(r.dependencies[0].installed);
    let t = r.install_instructions.unwrap();
    assert!(t.contains("brew install ffmpeg yt-dlp"));
}

#[test]
fn all_absent_names_every_tool() {
    for platform in ["linux", "macos", "windows", "freebsd"] {
        let r = check_dependencies(platform, &vec![None, None, None], &Vec::new());
        assert!(!r.all_satisfied);
        assert!(r.dependencies.iter().all(|d| !d.installed && d.path.is_none()));
        let t = r.install_instructions.unwrap();
        assert!(!t.is_empty());
        for n in ["mpv", "ffmpeg", "yt-dlp"] {
            assert!(t.contains(n));
        }
    }
}

#[test]
fn linux_instructions_exact() {
    let missing = vec!["mpv".to_string(), "ffmpeg".to_string()];
    assert_eq!(
        get_install_instructions("linux", &missing),
        "Missing dependencies: mpv, ffmpeg\n\nDebian/Ubuntu:\nsudo apt install mpv ffmpeg\n\nFedora:\nsudo dnf install mpv ffmpeg\n\nArch Linux:\nsudo pacman -S mpv ffmpeg"
    );
}

#[test]
fn other_platform_instructions_exact() {
    let missing = vec!["mpv".to_string()];
    assert_eq!(
        get_install_instructions("haiku", &missing),
        "Missing dependencies: mpv\n\nPlease install these manually for your platform."
    );
    assert_eq!(get_install_instructions("linux", &Vec::new()), "");
}

#[test]
fn macos_and_windows_instructions_list_package_managers() {
    let missing = vec!["mpv".to_string(), "yt-dlp".to_string()];
    assert_eq!(
        get_install_instructions("macos", &missing),
        "Missing dependencies: mpv, yt-dlp\n\nInstall using Homebrew:\nbrew install mpv yt-dlp\n\nOr using MacPorts:\nsudo port install mpv yt-dlp\n\nOr using Nix:\nnix-env -i mpv yt-dlp"
    );
    let w = get_install_instructions("windows", &missing);
    assert!(w.contains("scoop install mpv yt-dlp"));
    assert!(w.contains("choco install mpv yt-dlp"));
    assert!(w.ends_with("winget install mpv yt-dlp"));
}

#[test]
fn fallback_probes_per_platform() {
    let mac = fallback_probes("macos", "mpv", None);
    let paths: Vec<&str> = mac.iter().map(|p| p.path.as_str()).collect();
    assert_eq!(paths, vec!["/opt/homebrew/bin/mpv", "/usr/local/bin/mpv", "/opt/local/bin/mpv"]);
    assert!(mac.iter().all(|p| p.read_version));
    let win = fallback_probes("windows", "ffmpeg", Some("C:\\App".to_string()));
    assert_eq!(win.len(), 1);
    assert_eq!(win[0].path, "C:\\App\\deps\\ffmpeg.exe");
    assert!(!win[0].read_version);
    assert!(fallback_probes("windows", "ffmpeg", None).is_empty());
    assert!(fallback_probes("linux", "mpv", Some("/x".to_string())).is_empty());
}

#[test]
fn locate_binary_takes_first_present_fallback() {
    let probes = vec![
        Probe { path: "/a/mpv".to_string(), read_version: true },
        Probe { path: "/b/mpv".to_string(), read_version: true },
        Probe { path: "/c/mpv".to_string(), read_version: true },
    ];
    let found = locate_binary(None, &probes, &vec![false, true, true]).unwrap();
    assert_eq!(found.path, "/b/mpv");
    assert!(locate_binary(None, &probes, &vec![false, false, false]).is_none());
    let p = locate_binary(Some("/usr/bin/mpv".to_string()), &probes, &vec![true, true, true]).unwrap();
    assert_eq!(p.path, "/usr/bin/mpv");
}

#[test]
fn bundled_binary_has_no_version() {
    let found = Some(Probe { path: "C:\\deps\\mpv.exe".to_string(), read_version: false });
    let s = check_binary("mpv", found, Some("mpv 0.38".to_string()));
    assert!(s.installed);
    assert_eq!(s.version, None);
}

#[test]
fn version_is_first_line_of_output() {
    assert_eq!(get_version(true, "mpv 0.38.0\r\nbuilt on x\n"), Some("mpv 0.38.0".to_string()));
    assert_eq!(get_version(true, "ffmpeg version 7"), Some("ffmpeg version 7".to_string()));
    assert_eq!(get_version(true, ""), None);
    assert_eq!(get_version(false, "mpv 0.38.0\n"), None);
    assert_eq!(get_version(true, "\nsecond"), Some(String::new()));
}
