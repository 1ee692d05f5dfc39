use camo::config::Cli;
use camo::server::config::Config;
use camo::server::content_types::{
    audio_type_list, image_type_list, is_allowed_content_type, is_allowed_image_type,
    is_allowed_media_type, listed, media_type, video_type_list,
};

fn config(allow_video: bool, allow_audio: bool) -> Config {
    let mut config = Config::default();
    config.allow_video = allow_video;
    config.allow_audio = allow_audio;
    config
}

#[test]
fn parameters_are_stripped_before_the_policy_is_asked() {
    assert!(is_allowed_image_type("image/png; charset=binary"));
    assert_eq!(media_type("image/png; charset=binary"), "image/png");
    assert!(is_allowed_image_type("image/png;charset=binary;x=y"));
    assert!(!is_allowed_image_type("text/html; image/png"));
    assert_eq!(media_type("text/html; image/png"), "text/html");
}

#[test]
fn media_type_is_trimmed() {
    assert_eq!(media_type("  image/png \t"), "image/png");
    assert_eq!(media_type(" image/png ; q=1"), "image/png");
    assert_eq!(media_type("\u{a0}image/png\u{2003}"), "image/png");
    assert_eq!(media_type("image / png"), "image / png");
    assert_eq!(media_type(";image/png"), "");
    assert_eq!(media_type("   "), "");
    assert_eq!(media_type(""), "");
}

#[test]
fn declared_type_is_lower_cased() {
    assert!(is_allowed_image_type("IMAGE/PNG"));
    assert!(is_allowed_image_type("Image/Svg+Xml; charset=utf-8"));
    assert!(is_allowed_content_type("VIDEO/MP4", true, false));
    // The Kelvin sign lower-cases to the letter k.
    assert!(is_allowed_image_type("image/x-quic\u{212a}time"));
}

#[test]
fn missing_or_unknown_types_are_refused() {
    assert!(!is_allowed_image_type(""));
    assert!(!is_allowed_image_type("image"));
    assert!(!is_allowed_image_type("image/"));
    assert!(!is_allowed_image_type("image/pngx"));
    assert!(!is_allowed_image_type("text/html"));
    assert!(!is_allowed_image_type("application/octet-stream"));
    assert!(!is_allowed_content_type("", true, true));
}

#[test]
fn video_and_audio_follow_their_flags() {
    assert!(!is_allowed_image_type("video/mp4"));
    assert!(!is_allowed_content_type("video/mp4", false, false));
    assert!(is_allowed_content_type("video/mp4", true, false));
    assert!(!is_allowed_content_type("video/mp4", false, true));
    assert!(!is_allowed_content_type("audio/flac", false, false));
    assert!(!is_allowed_content_type("audio/flac", true, false));
    assert!(is_allowed_content_type("audio/flac", false, true));
    assert!(is_allowed_content_type("image/gif", false, false));
    assert!(is_allowed_content_type("image/gif", true, true));
    assert!(is_allowed_media_type("audio/ogg", true, true));
    assert!(!is_allowed_media_type("Audio/ogg", true, true));
}

#[test]
fn the_lists_hold_the_known_types() {
    let images = image_type_list();
    assert_eq!(images.len(), 46);
    assert_eq!(images[0], "image/bmp");
    assert_eq!(images[9], "image/png");
    assert_eq!(images[45], "image/x-xwindowdump");
    for t in ["image/avif", "image/heic", "image/heif", "image/webp", "image/jpeg", "image/jpg"] {
        assert!(listed(&images, t));
    }
    assert_eq!(
        video_type_list(),
        vec!["video/mp4", "video/webm", "video/ogg", "video/quicktime", "video/x-msvideo"]
    );
    assert_eq!(
        audio_type_list(),
        vec!["audio/mpeg", "audio/ogg", "audio/wav", "audio/webm", "audio/flac"]
    );
    assert!(!listed(&images, "video/mp4"));
    assert!(!listed(&Vec::new(), "image/png"));
}

#[test]
fn config_policy_extends_with_the_flags() {
    assert_eq!(config(false, false).allowed_content_types().len(), 46);
    assert_eq!(config(true, false).allowed_content_types().len(), 51);
    assert_eq!(config(false, true).allowed_content_types().len(), 51);
    let all = config(true, true).allowed_content_types();
    assert_eq!(all.len(), 56);
    assert_eq!(all[46], "video/mp4");
    assert_eq!(all[51], "audio/mpeg");
    let audio_only = config(false, true).allowed_content_types();
    assert_eq!(audio_only[46], "audio/mpeg");
    assert!(config(true, false).is_allowed_content_type("video/webm; codecs=vp9"));
    assert!(!config(false, false).is_allowed_content_type("video/webm"));
    assert!(config(false, false).is_allowed_content_type("image/png"));
}

#[test]
fn cli_policy_is_the_same_policy() {
    let cli = Cli {
        command: None,
        key: Some("k".to_string()),
        listen: "0.0.0.0:8080".to_string(),
        max_size: 1,
        max_redirects: 4,
        timeout: 10,
        allow_video: true,
        allow_audio: false,
        block_private: true,
        metrics: false,
        log_level: "info".to_string(),
    };
    let types = cli.allowed_content_types();
    assert_eq!(types.len(), 51);
    assert_eq!(types[27], "image/webp");
    assert_eq!(types[28], "image/x-cmu-raster");
    assert_eq!(types[42], "image/x-xwindowdump");
    assert_eq!(&types[43..46], &["image/avif", "image/heic", "image/heif"]);
    assert_eq!(types[46], "video/mp4");
    let mut sorted = types[..46].to_vec();
    sorted.sort();
    let mut policy = camo::server::content_types::image_type_list();
    policy.sort();
    assert_eq!(sorted, policy);
    assert!(types.contains(&"image/png"));
    assert!(types.contains(&"video/ogg"));
    assert!(!types.contains(&"audio/ogg"));
}

#[test]
fn default_settings() {
    let config = Config::default();
    assert!(config.command.is_none());
    assert!(config.key.is_none());
    assert_eq!(config.listen, "0.0.0.0:8080");
    assert_eq!(config.max_size, 5 * 1024 * 1024);
    assert_eq!(config.max_redirects, 4);
    assert_eq!(config.timeout, 10);
    assert!(!config.allow_video);
    assert!(!config.allow_audio);
    assert!(config.block_private);
    assert!(!config.metrics);
    assert_eq!(config.log_level, "info");
    let copy = config.clone();
    assert_eq!(copy.listen, config.listen);
    assert_eq!(copy.max_size, config.max_size);
}
