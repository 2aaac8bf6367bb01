use watchparty::paths::{output_file_name, stem_and_extension};

#[test]
fn stems_and_extensions() {
    assert_eq!(stem_and_extension("movie.mp4"), ("movie".to_string(), Some("mp4".to_string())));
    assert_eq!(stem_and_extension("a.tar.gz"), ("a.tar".to_string(), Some("gz".to_string())));
    assert_eq!(stem_and_extension("README"), ("README".to_string(), None));
    assert_eq!(stem_and_extension(".hidden"), (".hidden".to_string(), None));
    assert_eq!(stem_and_extension(".."), ("..".to_string(), None));
    assert_eq!(stem_and_extension("trailing."), ("trailing".to_string(), Some("".to_string())));
    assert_eq!(stem_and_extension("fïlm.webm"), ("fïlm".to_string(), Some("webm".to_string())));
}

#[test]
fn stems_match_std_path() {
    for name in ["movie.mp4", "a.tar.gz", "README", ".hidden", "x.", "..x", "é.ü"] {
        let p = std::path::Path::new(name);
        let (stem, ext) = stem_and_extension(name);
        assert_eq!(Some(stem.as_str()), p.file_stem().and_then(|s| s.to_str()), "{name}");
        assert_eq!(ext.as_deref(), p.extension().and_then(|s| s.to_str()), "{name}");
    }
}

#[test]
fn output_names() {
    assert_eq!(output_file_name("sample.webm", "audio"), Some("sample_audio.webm".to_string()));
    assert_eq!(output_file_name("sample.webm", "tag_2"), Some("sample_tag_2.webm".to_string()));
    assert_eq!(output_file_name("clip.v1.mp4", "video"), Some("clip.v1_video.mp4".to_string()));
    assert_eq!(output_file_name("noext", "audio"), None);
    assert_eq!(output_file_name(".hidden", "audio"), None);
}

#[test]
fn stem_and_extension_rejoin() {
    for name in ["movie.mp4", "a.tar.gz", "x.", "..x", "é.ü"] {
        let (stem, ext) = stem_and_extension(name);
        let ext = ext.unwrap();
        assert_eq!(format!("{stem}.{ext}"), name);
        assert!(!ext.contains('.'));
        assert!(!stem.is_empty());
    }
}
