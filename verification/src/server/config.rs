//! The settings of the proxy server. They are resolved once at start-up and never changed
//! afterwards, so every request reads the same values.
use vstd::prelude::*;
use crate::server::content_types::{
    allowed_types,
    audio_type_list,
    declared_type,
    image_type_list,
    is_allowed_content_type,
    video_type_list,
};

verus! {

broadcast use vstd::string::group_string_axioms;

/// What the program is asked to do.
#[derive(Debug)]
pub enum Command {
    /// Run the proxy server.
    Serve,
    /// Print the signed form of a URL.
    Sign {
        /// The URL to sign.
        url: String,
        /// The base URL of the proxy; empty to print the parts only.
        base: String,
        /// Whether to write the token in base64 instead of hexadecimal.
        base64: bool,
    },
}

impl Clone for Command {
    fn clone(&self) -> (copy: Self)
        ensures
            copy == *self,
    {
        match self {
            Command::Serve => Command::Serve,
            Command::Sign { url, base, base64 } => Command::Sign {
                url: url.clone(),
                base: base.clone(),
                base64: *base64,
            },
        }
    }
}

/// The settings of the proxy server.
#[derive(Debug)]
pub struct Config {
    /// What to do; the server runs where nothing is named.
    pub command: Option<Command>,
    /// The key that digests are computed under.
    pub key: Option<String>,
    /// The address to listen on.
    pub listen: String,
    /// The size budget of a relayed body, in bytes.
    pub max_size: u64,
    /// How many redirects the fetch follows.
    pub max_redirects: u32,
    /// The socket timeout, in seconds.
    pub timeout: u64,
    /// Whether the policy holds the video types.
    pub allow_video: bool,
    /// Whether the policy holds the audio types.
    pub allow_audio: bool,
    /// Whether targets in private or reserved address space are refused.
    pub block_private: bool,
    /// Whether the metrics endpoint is served.
    pub metrics: bool,
    /// The log level.
    pub log_level: String,
}

impl Clone for Config {
    fn clone(&self) -> (copy: Self)
        ensures
            copy == *self,
    {
        Config {
            command: match &self.command {
                Some(command) => Some(command.clone()),
                None => None,
            },
            key: match &self.key {
                Some(key) => Some(key.clone()),
                None => None,
            },
            listen: self.listen.clone(),
            max_size: self.max_size,
            max_redirects: self.max_redirects,
            timeout: self.timeout,
            allow_video: self.allow_video,
            allow_audio: self.allow_audio,
            block_private: self.block_private,
            metrics: self.metrics,
            log_level: self.log_level.clone(),
        }
    }
}

impl Default for Config {
    /// The settings of a server that was given none: five mebibytes, four redirects, ten
    /// seconds, images only, private targets refused.
    fn default() -> (config: Self)
        ensures
            config.command is None,
            config.key is None,
            config.listen@ == "0.0.0.0:8080"@,
            config.max_size == 5 * 1024 * 1024,
            config.max_redirects == 4,
            config.timeout == 10,
            !config.allow_video,
            !config.allow_audio,
            config.block_private,
            !config.metrics,
            config.log_level@ == "info"@,
    {
        Config {
            command: None,
            key: None,
            listen: String::from_str("0.0.0.0:8080"),
            max_size: 5242880,
            max_redirects: 4,
            timeout: 10,
            allow_video: false,
            allow_audio: false,
            block_private: true,
            metrics: false,
            log_level: String::from_str("info"),
        }
    }
}

/// The media types of the policy under the two flags, in order.
pub fn policy_type_list(allow_video: bool, allow_audio: bool) -> (types: Vec<&'static str>)
    ensures
        types.deep_view() == allowed_types(allow_video, allow_audio),
{
    let mut types = image_type_list();
    let ghost images = types.deep_view();
    let ghost mut videos: Seq<Seq<char>> = Seq::empty();
    let ghost mut audios: Seq<Seq<char>> = Seq::empty();
    if allow_video {
        let mut more = video_type_list();
        proof {
            videos = more.deep_view();
        }
        types.append(&mut more);
    }
    assert(types.deep_view() =~= images + videos);
    if allow_audio {
        let mut more = audio_type_list();
        proof {
            audios = more.deep_view();
        }
        types.append(&mut more);
    }
    assert(types.deep_view() =~= images + videos + audios);
    types
}

impl Config {
    /// The media types of the policy under these settings, in order.
    pub fn allowed_content_types(&self) -> (types: Vec<&'static str>)
        ensures
            types.deep_view() == allowed_types(self.allow_video, self.allow_audio),
    {
        policy_type_list(self.allow_video, self.allow_audio)
    }

    /// Whether the policy under these settings holds the media type that a content type
    /// declares.
    pub fn is_allowed_content_type(&self, content_type: &str) -> (allowed: bool)
        ensures
            allowed == allowed_types(self.allow_video, self.allow_audio).contains(
                declared_type(content_type@),
            ),
    {
        is_allowed_content_type(content_type, self.allow_video, self.allow_audio)
    }
}

} // verus!
