use beatstv::install::{
    auto_install_dependency, binary_to_move, extraction_outcome, find_binary, select_asset,
    DownloadProgress, FileEntry, InstallError, InstallSource, ReleaseAsset, TopEntry,
};

#[test]
fn auto_install_off_windows_is_unsupported() {
    for platform in ["linux", "macos", "freebsd"] {
        for name in ["mpv", "ffmpeg", "yt-dlp", "vlc"] {
            assert!(matches!(
                auto_install_dependency(platform, name),
                Err(InstallError::UnsupportedPlatform)
            ));
        }
    }
}

#[test]
fn auto_install_plans_on_windows() {
    let mpv = auto_install_dependency("windows", "mpv").unwrap();
    assert_eq!(mpv.display_name, "MPV Player");
    assert_eq!(mpv.target_bin, "mpv.exe");
    assert!(matches!(
        mpv.source,
        InstallSource::ReleaseIndex { ref api_url }
            if api_url == "https://api.github.com/repos/mpv-player/mpv/releases/latest"
    ));
    let ff = auto_install_dependency("windows", "ffmpeg").unwrap();
    assert_eq!(ff.display_name, "FFmpeg");
    assert!(matches!(
        ff.source,
        InstallSource::Archive { ref url }
            if url == "https://www.gyan.dev/ffmpeg/builds/ffmpeg-release-essentials.zip"
    ));
    let yt = auto_install_dependency("windows", "yt-dlp").unwrap();
    assert_eq!(yt.target_bin, "yt-dlp.exe");
    assert!(matches!(
        yt.source,
        InstallSource::Binary { ref url }
            if url == "https://github.com/yt-dlp/yt-dlp/releases/latest/download/yt-dlp.exe"
    ));
}

#[test]
fn auto_install_unknown_tool_fails() {
    assert!(matches!(
        auto_install_dependency("windows", "vlc"),
        Err(InstallError::UnsupportedDependency(ref n)) if n == "vlc"
    ));
}

fn asset(name: &str, url: &str) -> ReleaseAsset {
    ReleaseAsset { name: Some(name.to_string()), browser_download_url: Some(url.to_string()) }
}

#[test]
fn select_asset_takes_first_fitting_zip() {
    let assets = vec![
        asset("mpv-x86_64-mingw32.7z", "u0"),
        asset("mpv-i686-mingw32.zip", "u1"),
        ReleaseAsset { name: Some("mpv-x86_64-mingw32-a.zip".to_string()), browser_download_url: None },
        asset("mpv-x86_64-mingw32-b.zip", "u3"),
        asset("mpv-x86_64-mingw32-c.zip", "u4"),
    ];
    assert_eq!(select_asset(Some(assets)).unwrap(), "u3");
}

#[test]
fn select_asset_errors() {
    assert!(matches!(select_asset(None), Err(InstallError::NoAssets)));
    assert!(matches!(
        select_asset(Some(vec![asset("mpv-aarch64.zip", "u")])),
        Err(InstallError::NoCompatibleAsset)
    ));
    assert!(matches!(select_asset(Some(Vec::new())), Err(InstallError::NoCompatibleAsset)));
}

#[test]
fn progress_with_known_size_rises_strictly() {
    let mut p = DownloadProgress::new(Some(1000));
    let mut seen = Vec::new();
    for len in [5u64, 5, 100, 0, 390, 1, 490, 300] {
        if let Some(x) = p.record_chunk(len) {
            seen.push(x);
        }
    }
    assert_eq!(seen, vec![1, 11, 50, 99, 100]);
    assert_eq!(p.downloaded, 1291);
    assert_eq!(p.last_emit, 100);
}

#[test]
fn progress_with_unknown_size_reports_nothing() {
    let mut p = DownloadProgress::new(None);
    for len in [10u64, 1000, 5] {
        assert_eq!(p.record_chunk(len), None);
    }
    assert_eq!(p.total, 0);
    assert_eq!(p.downloaded, 1015);
}

#[test]
fn progress_saturates_byte_count() {
    let mut p = DownloadProgress::new(Some(u64::MAX));
    assert_eq!(p.record_chunk(u64::MAX), Some(100));
    assert_eq!(p.record_chunk(u64::MAX), None);
    assert_eq!(p.downloaded, u64::MAX);
}

#[test]
fn extraction_outcome_cases() {
    assert!(extraction_outcome(true, None, "").is_ok());
    assert!(extraction_outcome(false, Some(true), "tar: bad").is_ok());
    assert!(matches!(
        extraction_outcome(false, Some(false), "tar: bad"),
        Err(InstallError::ExtractionFailed(ref e)) if e == "tar: bad"
    ));
    assert!(matches!(extraction_outcome(false, None, "x"), Err(InstallError::ExtractionFailed(_))));
}

fn file(path: &str, name: &str) -> FileEntry {
    FileEntry { path: path.to_string(), file_name: name.to_string(), is_file: true }
}

#[test]
fn find_binary_looks_one_level_deep() {
    let entries = vec![
        TopEntry { entry: file("d/readme.txt", "readme.txt"), is_dir: false, children: vec![] },
        TopEntry {
            entry: FileEntry { path: "d/ffmpeg-7".to_string(), file_name: "ffmpeg-7".to_string(), is_file: false },
            is_dir: true,
            children: vec![file("d/ffmpeg-7/LICENSE", "LICENSE"), file("d/ffmpeg-7/ffmpeg.exe", "ffmpeg.exe")],
        },
        TopEntry { entry: file("d/ffmpeg.exe", "ffmpeg.exe"), is_dir: false, children: vec![] },
    ];
    assert_eq!(find_binary(&entries, "ffmpeg.exe"), Some("d/ffmpeg-7/ffmpeg.exe".to_string()));
    assert_eq!(find_binary(&entries, "mpv.exe"), None);
}

#[test]
fn binary_to_move_only_when_elsewhere() {
    assert_eq!(binary_to_move(Some("d/x/mpv.exe".to_string()), "d/mpv.exe"), Some("d/x/mpv.exe".to_string()));
    assert_eq!(binary_to_move(Some("d/mpv.exe".to_string()), "d/mpv.exe"), None);
    assert_eq!(binary_to_move(None, "d/mpv.exe"), None);
}
