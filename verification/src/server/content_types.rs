//! The content policy: which declared media types the proxy relays.
//!
//! A declared content type is lower-cased, cut at its first `;` and trimmed; what is left
//! is its media type. The policy always holds a fixed set of image types, and holds the
//! video and audio types where the configuration allows them. A media type outside the
//! policy, an empty one included, is refused.
use vstd::prelude::*;
use crate::text::{
    chars_of,
    find_char,
    lemma_offset_of,
    lowercase,
    offset_of,
    str_eq,
    to_lowercase,
    trim_bounds,
    trimmed,
};

verus! {

broadcast use vstd::string::group_string_axioms;

/// The image types, which the policy always holds.
pub open spec fn image_types() -> Seq<Seq<char>> {
    seq![
        "image/bmp"@,
        "image/cgm"@,
        "image/g3fax"@,
        "image/gif"@,
        "image/ief"@,
        "image/jp2"@,
        "image/jpeg"@,
        "image/jpg"@,
        "image/pict"@,
        "image/png"@,
        "image/prs.btif"@,
        "image/svg+xml"@,
        "image/tiff"@,
        "image/vnd.adobe.photoshop"@,
        "image/vnd.djvu"@,
        "image/vnd.dwg"@,
        "image/vnd.dxf"@,
        "image/vnd.fastbidsheet"@,
        "image/vnd.fpx"@,
        "image/vnd.fst"@,
        "image/vnd.fujixerox.edmics-mmr"@,
        "image/vnd.fujixerox.edmics-rlc"@,
        "image/vnd.microsoft.icon"@,
        "image/vnd.ms-modi"@,
        "image/vnd.net-fpx"@,
        "image/vnd.wap.wbmp"@,
        "image/vnd.xiff"@,
        "image/webp"@,
        "image/avif"@,
        "image/heic"@,
        "image/heif"@,
        "image/x-cmu-raster"@,
        "image/x-cmx"@,
        "image/x-icon"@,
        "image/x-macpaint"@,
        "image/x-pcx"@,
        "image/x-pict"@,
        "image/x-portable-anymap"@,
        "image/x-portable-bitmap"@,
        "image/x-portable-graymap"@,
        "image/x-portable-pixmap"@,
        "image/x-quicktime"@,
        "image/x-rgb"@,
        "image/x-xbitmap"@,
        "image/x-xpixmap"@,
        "image/x-xwindowdump"@,
    ]
}

/// The video types, which the policy holds where video is allowed.
pub open spec fn video_types() -> Seq<Seq<char>> {
    seq![
        "video/mp4"@,
        "video/webm"@,
        "video/ogg"@,
        "video/quicktime"@,
        "video/x-msvideo"@,
    ]
}

/// The audio types, which the policy holds where audio is allowed.
pub open spec fn audio_types() -> Seq<Seq<char>> {
    seq![
        "audio/mpeg"@,
        "audio/ogg"@,
        "audio/wav"@,
        "audio/webm"@,
        "audio/flac"@,
    ]
}

/// The policy: the image types, then the video types if allowed, then the audio types if
/// allowed.
pub open spec fn allowed_types(allow_video: bool, allow_audio: bool) -> Seq<Seq<char>> {
    image_types() + (if allow_video {
        video_types()
    } else {
        Seq::empty()
    }) + (if allow_audio {
        audio_types()
    } else {
        Seq::empty()
    })
}

/// The number of characters before the first `;` of a text, or its length if it has none.
pub open spec fn parameter_start(text: Seq<char>) -> int {
    offset_of(text, ';')
}

/// The media type of a lower-cased content type: what stands before the first `;`,
/// without the white space around it.
pub open spec fn media_type_of(lowered: Seq<char>) -> Seq<char> {
    trimmed(lowered.take(parameter_start(lowered)))
}

/// The media type that a content type declares.
pub open spec fn declared_type(content_type: Seq<char>) -> Seq<char> {
    media_type_of(lowercase(content_type))
}

/// The image types, in the order of the policy.
pub fn image_type_list() -> (types: Vec<&'static str>)
    ensures
        types.deep_view() == image_types(),
{
    let types = vec![
        "image/bmp",
        "image/cgm",
        "image/g3fax",
        "image/gif",
        "image/ief",
        "image/jp2",
        "image/jpeg",
        "image/jpg",
        "image/pict",
        "image/png",
        "image/prs.btif",
        "image/svg+xml",
        "image/tiff",
        "image/vnd.adobe.photoshop",
        "image/vnd.djvu",
        "image/vnd.dwg",
        "image/vnd.dxf",
        "image/vnd.fastbidsheet",
        "image/vnd.fpx",
        "image/vnd.fst",
        "image/vnd.fujixerox.edmics-mmr",
        "image/vnd.fujixerox.edmics-rlc",
        "image/vnd.microsoft.icon",
        "image/vnd.ms-modi",
        "image/vnd.net-fpx",
        "image/vnd.wap.wbmp",
        "image/vnd.xiff",
        "image/webp",
        "image/avif",
        "image/heic",
        "image/heif",
        "image/x-cmu-raster",
        "image/x-cmx",
        "image/x-icon",
        "image/x-macpaint",
        "image/x-pcx",
        "image/x-pict",
        "image/x-portable-anymap",
        "image/x-portable-bitmap",
        "image/x-portable-graymap",
        "image/x-portable-pixmap",
        "image/x-quicktime",
        "image/x-rgb",
        "image/x-xbitmap",
        "image/x-xpixmap",
        "image/x-xwindowdump",
    ];
    assert(types.deep_view() =~= image_types());
    types
}

/// The video types, in the order of the policy.
pub fn video_type_list() -> (types: Vec<&'static str>)
    ensures
        types.deep_view() == video_types(),
{
    let types = vec![
        "video/mp4",
        "video/webm",
        "video/ogg",
        "video/quicktime",
        "video/x-msvideo",
    ];
    assert(types.deep_view() =~= video_types());
    types
}

/// The audio types, in the order of the policy.
pub fn audio_type_list() -> (types: Vec<&'static str>)
    ensures
        types.deep_view() == audio_types(),
{
    let types = vec![
        "audio/mpeg",
        "audio/ogg",
        "audio/wav",
        "audio/webm",
        "audio/flac",
    ];
    assert(types.deep_view() =~= audio_types());
    types
}

/// The media type of a lower-cased content type.
pub fn media_type(lowered: &str) -> (media: &str)
    ensures
        media@ == media_type_of(lowered@),
{
    let chars = chars_of(lowered);
    let end = find_char(&chars, 0, ';');
    assert(chars@.skip(0) =~= chars@);
    let (start, stop) = trim_bounds(&chars, 0, end);
    assert(chars@.subrange(0, end as int) =~= chars@.take(end as int));
    lowered.substring_char(start, stop)
}

/// Whether a list of media types holds a media type.
pub fn listed(types: &Vec<&'static str>, media: &str) -> (found: bool)
    ensures
        found == types.deep_view().contains(media@),
{
    let mut i: usize = 0;
    while i < types.len()
        invariant
            i <= types.len(),
            forall|j: int| 0 <= j < i ==> #[trigger] types.deep_view()[j] != media@,
        decreases types.len() - i,
    {
        if str_eq(types[i], media) {
            assert(types.deep_view()[i as int] == media@);
            return true;
        }
        i += 1;
    }
    false
}

/// Whether the policy holds a media type.
pub fn is_allowed_media_type(media: &str, allow_video: bool, allow_audio: bool) -> (allowed: bool)
    ensures
        allowed == allowed_types(allow_video, allow_audio).contains(media@),
{
    let images = image_type_list();
    let videos = video_type_list();
    let audios = audio_type_list();
    let allowed = listed(&images, media) || (allow_video && listed(&videos, media))
        || (allow_audio && listed(&audios, media));
    proof {
        lemma_contains_concat(image_types(), video_types(), media@);
        lemma_contains_concat(image_types() + video_types(), audio_types(), media@);
        lemma_contains_concat(image_types(), Seq::empty(), media@);
        lemma_contains_concat(image_types() + Seq::<Seq<char>>::empty(), audio_types(), media@);
        lemma_contains_concat(image_types() + video_types(), Seq::empty(), media@);
        lemma_contains_concat(
            image_types() + Seq::<Seq<char>>::empty(),
            Seq::empty(),
            media@,
        );
    }
    allowed
}

/// A list put together from two holds what either of the two holds.
pub proof fn lemma_contains_concat(a: Seq<Seq<char>>, b: Seq<Seq<char>>, item: Seq<char>)
    ensures
        (a + b).contains(item) <==> a.contains(item) || b.contains(item),
{
    if a.contains(item) {
        let i = choose|i: int| 0 <= i < a.len() && a[i] == item;
        assert((a + b)[i] == item);
    }
    if b.contains(item) {
        let i = choose|i: int| 0 <= i < b.len() && b[i] == item;
        assert((a + b)[a.len() + i] == item);
    }
    if (a + b).contains(item) {
        let i = choose|i: int| 0 <= i < (a + b).len() && (a + b)[i] == item;
        if i < a.len() {
            assert(a[i] == item);
        } else {
            assert(b[i - a.len()] == item);
        }
    }
}

/// Whether the media type that a content type declares is an image type.
pub fn is_allowed_image_type(content_type: &str) -> (allowed: bool)
    ensures
        allowed == image_types().contains(declared_type(content_type@)),
{
    let lowered = to_lowercase(content_type);
    let media = media_type(lowered.as_str());
    listed(&image_type_list(), media)
}

/// Whether the policy holds the media type that a content type declares.
pub fn is_allowed_content_type(
    content_type: &str,
    allow_video: bool,
    allow_audio: bool,
) -> (allowed: bool)
    ensures
        allowed == allowed_types(allow_video, allow_audio).contains(declared_type(content_type@)),
{
    let lowered = to_lowercase(content_type);
    let media = media_type(lowered.as_str());
    is_allowed_media_type(media, allow_video, allow_audio)
}

/// What follows the first `;` of a content type has no part in its media type.
pub proof fn law_parameters_ignored(media: Seq<char>, parameters: Seq<char>)
    requires
        !media.contains(';'),
    ensures
        media_type_of(media + seq![';'] + parameters) == media_type_of(media),
{
    let whole = media + seq![';'] + parameters;
    assert forall|i: int| 0 <= i < media.len() implies #[trigger] whole[i] != ';' by {
        assert(media.contains(media[i]));
    }
    assert forall|i: int| 0 <= i < media.len() implies #[trigger] media[i] != ';' by {
        assert(media.contains(media[i]));
    }
    lemma_offset_of(whole, ';', media.len() as int);
    lemma_offset_of(media, ';', media.len() as int);
    assert(whole.take(media.len() as int) =~= media.take(media.len() as int));
}

/// The policy refuses a declaration without a media type: no type that it holds is
/// empty.
pub proof fn law_empty_media_type_refused(allow_video: bool, allow_audio: bool)
    ensures
        !allowed_types(allow_video, allow_audio).contains(Seq::empty()),
{
    reveal_strlit("image/bmp");
    reveal_strlit("image/cgm");
    reveal_strlit("image/g3fax");
    reveal_strlit("image/gif");
    reveal_strlit("image/ief");
    reveal_strlit("image/jp2");
    reveal_strlit("image/jpeg");
    reveal_strlit("image/jpg");
    reveal_strlit("image/pict");
    reveal_strlit("image/png");
    reveal_strlit("image/prs.btif");
    reveal_strlit("image/svg+xml");
    reveal_strlit("image/tiff");
    reveal_strlit("image/vnd.adobe.photoshop");
    reveal_strlit("image/vnd.djvu");
    reveal_strlit("image/vnd.dwg");
    reveal_strlit("image/vnd.dxf");
    reveal_strlit("image/vnd.fastbidsheet");
    reveal_strlit("image/vnd.fpx");
    reveal_strlit("image/vnd.fst");
    reveal_strlit("image/vnd.fujixerox.edmics-mmr");
    reveal_strlit("image/vnd.fujixerox.edmics-rlc");
    reveal_strlit("image/vnd.microsoft.icon");
    reveal_strlit("image/vnd.ms-modi");
    reveal_strlit("image/vnd.net-fpx");
    reveal_strlit("image/vnd.wap.wbmp");
    reveal_strlit("image/vnd.xiff");
    reveal_strlit("image/webp");
    reveal_strlit("image/avif");
    reveal_strlit("image/heic");
    reveal_strlit("image/heif");
    reveal_strlit("image/x-cmu-raster");
    reveal_strlit("image/x-cmx");
    reveal_strlit("image/x-icon");
    reveal_strlit("image/x-macpaint");
    reveal_strlit("image/x-pcx");
    reveal_strlit("image/x-pict");
    reveal_strlit("image/x-portable-anymap");
    reveal_strlit("image/x-portable-bitmap");
    reveal_strlit("image/x-portable-graymap");
    reveal_strlit("image/x-portable-pixmap");
    reveal_strlit("image/x-quicktime");
    reveal_strlit("image/x-rgb");
    reveal_strlit("image/x-xbitmap");
    reveal_strlit("image/x-xpixmap");
    reveal_strlit("image/x-xwindowdump");
    reveal_strlit("video/mp4");
    reveal_strlit("video/webm");
    reveal_strlit("video/ogg");
    reveal_strlit("video/quicktime");
    reveal_strlit("video/x-msvideo");
    reveal_strlit("audio/mpeg");
    reveal_strlit("audio/ogg");
    reveal_strlit("audio/wav");
    reveal_strlit("audio/webm");
    reveal_strlit("audio/flac");
    let policy = allowed_types(allow_video, allow_audio);
    assert forall|i: int| 0 <= i < policy.len() implies (#[trigger] policy[i]).len() > 0 by {
        if i < 46 {
            assert(policy[i] == image_types()[i]);
        }
    }
}

} // verus!
