//! The settings of the command-line program.
use vstd::prelude::*;
use crate::server::content_types::{
    allowed_types,
    audio_type_list,
    audio_types,
    image_types,
    lemma_contains_concat,
    video_type_list,
    video_types,
};

verus! {

broadcast use vstd::string::group_string_axioms;

/// What the program is asked to do.
#[derive(Debug, Clone)]
pub enum Command {
    /// Run the proxy server.
    Serve,
    /// Print the signed form of a URL.
    Sign {
        /// The URL to sign.
        url: String,
        /// The base URL of the proxy; empty to print the parts only.
        base: String,
        /// Whether to write the token in base64 instead of hexadecimal.
        base64: bool,
    },
}

/// The settings that the command line and the environment give the program.
#[derive(Debug, Clone)]
pub struct Cli {
    /// What to do; the server runs where nothing is named.
    pub command: Option<Command>,
    /// The key that digests are computed under.
    pub key: Option<String>,
    /// The address to listen on.
    pub listen: String,
    /// The size budget of a relayed body, in bytes.
    pub max_size: u64,
    /// How many redirects the fetch follows.
    pub max_redirects: u32,
    /// The socket timeout, in seconds.
    pub timeout: u64,
    /// Whether the policy holds the video types.
    pub allow_video: bool,
    /// Whether the policy holds the audio types.
    pub allow_audio: bool,
    /// Whether targets in private or reserved address space are refused.
    pub block_private: bool,
    /// Whether the metrics endpoint is served.
    pub metrics: bool,
    /// The log level.
    pub log_level: String,
}

/// The image types in the order the program lists them: the three newest types stand at
/// the end.
pub open spec fn listed_image_types() -> Seq<Seq<char>> {
    seq![
        "image/bmp"@,
        "image/cgm"@,
        "image/g3fax"@,
        "image/gif"@,
        "image/ief"@,
        "image/jp2"@,
        "image/jpeg"@,
        "image/jpg"@,
        "image/pict"@,
        "image/png"@,
        "image/prs.btif"@,
        "image/svg+xml"@,
        "image/tiff"@,
        "image/vnd.adobe.photoshop"@,
        "image/vnd.djvu"@,
        "image/vnd.dwg"@,
        "image/vnd.dxf"@,
        "image/vnd.fastbidsheet"@,
        "image/vnd.fpx"@,
        "image/vnd.fst"@,
        "image/vnd.fujixerox.edmics-mmr"@,
        "image/vnd.fujixerox.edmics-rlc"@,
        "image/vnd.microsoft.icon"@,
        "image/vnd.ms-modi"@,
        "image/vnd.net-fpx"@,
        "image/vnd.wap.wbmp"@,
        "image/vnd.xiff"@,
        "image/webp"@,
        "image/x-cmu-raster"@,
        "image/x-cmx"@,
        "image/x-icon"@,
        "image/x-macpaint"@,
        "image/x-pcx"@,
        "image/x-pict"@,
        "image/x-portable-anymap"@,
        "image/x-portable-bitmap"@,
        "image/x-portable-graymap"@,
        "image/x-portable-pixmap"@,
        "image/x-quicktime"@,
        "image/x-rgb"@,
        "image/x-xbitmap"@,
        "image/x-xpixmap"@,
        "image/x-xwindowdump"@,
        "image/avif"@,
        "image/heic"@,
        "image/heif"@,
    ]
}

/// The media types that the program lists under the two flags: the image types, then the
/// video types if allowed, then the audio types if allowed.
pub open spec fn listed_types(allow_video: bool, allow_audio: bool) -> Seq<Seq<char>> {
    listed_image_types() + (if allow_video {
        video_types()
    } else {
        Seq::empty()
    }) + (if allow_audio {
        audio_types()
    } else {
        Seq::empty()
    })
}

impl Cli {
    /// The media types of the policy under these settings: the image types, then the
    /// video types if allowed, then the audio types if allowed.
    pub fn allowed_content_types(&self) -> (types: Vec<&'static str>)
        ensures
            types.deep_view() == listed_types(self.allow_video, self.allow_audio),
    {
        let mut types = vec![
            "image/bmp",
            "image/cgm",
            "image/g3fax",
            "image/gif",
            "image/ief",
            "image/jp2",
            "image/jpeg",
            "image/jpg",
            "image/pict",
            "image/png",
            "image/prs.btif",
            "image/svg+xml",
            "image/tiff",
            "image/vnd.adobe.photoshop",
            "image/vnd.djvu",
            "image/vnd.dwg",
            "image/vnd.dxf",
            "image/vnd.fastbidsheet",
            "image/vnd.fpx",
            "image/vnd.fst",
            "image/vnd.fujixerox.edmics-mmr",
            "image/vnd.fujixerox.edmics-rlc",
            "image/vnd.microsoft.icon",
            "image/vnd.ms-modi",
            "image/vnd.net-fpx",
            "image/vnd.wap.wbmp",
            "image/vnd.xiff",
            "image/webp",
            "image/x-cmu-raster",
            "image/x-cmx",
            "image/x-icon",
            "image/x-macpaint",
            "image/x-pcx",
            "image/x-pict",
            "image/x-portable-anymap",
            "image/x-portable-bitmap",
            "image/x-portable-graymap",
            "image/x-portable-pixmap",
            "image/x-quicktime",
            "image/x-rgb",
            "image/x-xbitmap",
            "image/x-xpixmap",
            "image/x-xwindowdump",
            "image/avif",
            "image/heic",
            "image/heif",
        ];
        assert(types.deep_view() =~= listed_image_types());
        let ghost mut videos: Seq<Seq<char>> = Seq::empty();
        let ghost mut audios: Seq<Seq<char>> = Seq::empty();
        if self.allow_video {
            let mut more = video_type_list();
            proof {
                videos = more.deep_view();
            }
            types.append(&mut more);
        }
        assert(types.deep_view() =~= listed_image_types() + videos);
        if self.allow_audio {
            let mut more = audio_type_list();
            proof {
                audios = more.deep_view();
            }
            types.append(&mut more);
        }
        assert(types.deep_view() =~= listed_image_types() + videos + audios);
        types
    }
}

/// The program lists the image types of the policy, in another order.
pub proof fn lemma_listed_image_types()
    ensures
        listed_image_types() == image_types().take(28) + image_types().skip(31)
            + image_types().subrange(28, 31),
{
    assert(listed_image_types() =~= image_types().take(28) + image_types().skip(31)
        + image_types().subrange(28, 31));
}

/// The list of the program holds a media type exactly when the policy holds it.
pub proof fn law_listed_types_are_the_policy(
    allow_video: bool,
    allow_audio: bool,
    media: Seq<char>,
)
    ensures
        listed_types(allow_video, allow_audio).contains(media) <==> allowed_types(
            allow_video,
            allow_audio,
        ).contains(media),
{
    let videos = if allow_video {
        video_types()
    } else {
        Seq::empty()
    };
    let audios = if allow_audio {
        audio_types()
    } else {
        Seq::empty()
    };
    let head = image_types().take(28);
    let tail = image_types().skip(31);
    let new = image_types().subrange(28, 31);
    lemma_listed_image_types();
    assert(image_types() =~= head + new + tail);
    lemma_contains_concat(head, tail, media);
    lemma_contains_concat(head + tail, new, media);
    lemma_contains_concat(head, new, media);
    lemma_contains_concat(head + new, tail, media);
    lemma_contains_concat(listed_image_types(), videos, media);
    lemma_contains_concat(listed_image_types() + videos, audios, media);
    lemma_contains_concat(image_types(), videos, media);
    lemma_contains_concat(image_types() + videos, audios, media);
}

} // verus!
