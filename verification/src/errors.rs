//! Error types of the player and the text each one reports.

use vstd::prelude::*;

verus! {

/// `std::io::Error`, carried through unopened.
#[verifier::external_type_specification]
#[verifier::external_body]
pub struct ExIoError(std::io::Error);

/// Errors of the player.
#[derive(Debug)]
pub enum PlayerError {
    /// Network-related errors
    Network(NetworkError),
    /// Audio-related errors
    Audio(AudioError),
    /// Configuration-related errors
    Config(ConfigError),
    /// UI-related errors
    UI(UIError),
    /// General I/O errors
    IO(std::io::Error),
    /// Parsing errors
    Parse(String),
}

#[derive(Debug)]
pub enum NetworkError {
    /// Failed to connect to SomaFM API
    ApiConnection(String),
    /// Failed to parse API response
    ApiParse(String),
    /// Failed to connect to stream
    StreamConnection(String),
    /// Invalid URL
    InvalidUrl(String),
    /// Network timeout
    Timeout,
}

#[derive(Debug)]
pub enum AudioError {
    /// Failed to initialize audio output
    OutputInit(String),
    /// Failed to create audio sink
    SinkCreation(String),
    /// Failed to decode audio stream
    DecodingError(String),
    /// Audio device not available
    DeviceUnavailable,
    /// Unsupported audio format
    UnsupportedFormat(String),
}

#[derive(Debug)]
pub enum ConfigError {
    /// Failed to create config directory
    DirectoryCreation(String),
    /// Failed to read config file
    FileRead(String),
    /// Failed to write config file
    FileWrite(String),
    /// Invalid configuration values
    InvalidValue(String),
    /// TOML parsing error
    TomlParse(String),
}

#[derive(Debug)]
pub enum UIError {
    /// Terminal setup failed
    TerminalInit(String),
    /// Failed to render UI
    RenderError(String),
    /// Event handling error
    EventError(String),
}

/// Result type of the player.
pub type PlayerResult<T> = Result<T, PlayerError>;

/// Joins two pieces of text.
pub fn join(head: &str, tail: &str) -> (text: String)
    ensures
        text@ == head@ + tail@,
{
    let mut text = head.to_owned();
    text.append(tail);
    text
}

impl NetworkError {
    /// The text this error reports.
    pub open spec fn text(&self) -> Seq<char> {
        match self {
            NetworkError::ApiConnection(msg) => "Failed to connect to SomaFM API: "@ + msg@,
            NetworkError::ApiParse(msg) => "Failed to parse API response: "@ + msg@,
            NetworkError::StreamConnection(msg) => "Failed to connect to stream: "@ + msg@,
            NetworkError::InvalidUrl(url) => "Invalid URL: "@ + url@,
            NetworkError::Timeout => "Network request timed out"@,
        }
    }

    /// Renders the error for display.
    pub fn to_string(&self) -> (text: String)
        ensures
            text@ == self.text(),
    {
        match self {
            NetworkError::ApiConnection(msg) => join("Failed to connect to SomaFM API: ", msg),
            NetworkError::ApiParse(msg) => join("Failed to parse API response: ", msg),
            NetworkError::StreamConnection(msg) => join("Failed to connect to stream: ", msg),
            NetworkError::InvalidUrl(url) => join("Invalid URL: ", url),
            NetworkError::Timeout => "Network request timed out".to_owned(),
        }
    }
}

impl AudioError {
    /// The text this error reports.
    pub open spec fn text(&self) -> Seq<char> {
        match self {
            AudioError::OutputInit(msg) => "Failed to initialize audio output: "@ + msg@,
            AudioError::SinkCreation(msg) => "Failed to create audio sink: "@ + msg@,
            AudioError::DecodingError(msg) => "Audio decoding error: "@ + msg@,
            AudioError::DeviceUnavailable => "Audio device is not available"@,
            AudioError::UnsupportedFormat(format) => "Unsupported audio format: "@ + format@,
        }
    }

    /// Renders the error for display.
    pub fn to_string(&self) -> (text: String)
        ensures
            text@ == self.text(),
    {
        match self {
            AudioError::OutputInit(msg) => join("Failed to initialize audio output: ", msg),
            AudioError::SinkCreation(msg) => join("Failed to create audio sink: ", msg),
            AudioError::DecodingError(msg) => join("Audio decoding error: ", msg),
            AudioError::DeviceUnavailable => "Audio device is not available".to_owned(),
            AudioError::UnsupportedFormat(format) => join("Unsupported audio format: ", format),
        }
    }
}

impl ConfigError {
    /// The text this error reports.
    pub open spec fn text(&self) -> Seq<char> {
        match self {
            ConfigError::DirectoryCreation(msg) => "Failed to create config directory: "@ + msg@,
            ConfigError::FileRead(msg) => "Failed to read config file: "@ + msg@,
            ConfigError::FileWrite(msg) => "Failed to write config file: "@ + msg@,
            ConfigError::InvalidValue(msg) => "Invalid configuration value: "@ + msg@,
            ConfigError::TomlParse(msg) => "Failed to parse TOML: "@ + msg@,
        }
    }

    /// Renders the error for display.
    pub fn to_string(&self) -> (text: String)
        ensures
            text@ == self.text(),
    {
        match self {
            ConfigError::DirectoryCreation(msg) => join("Failed to create config directory: ", msg),
            ConfigError::FileRead(msg) => join("Failed to read config file: ", msg),
            ConfigError::FileWrite(msg) => join("Failed to write config file: ", msg),
            ConfigError::InvalidValue(msg) => join("Invalid configuration value: ", msg),
            ConfigError::TomlParse(msg) => join("Failed to parse TOML: ", msg),
        }
    }
}

impl UIError {
    /// The text this error reports.
    pub open spec fn text(&self) -> Seq<char> {
        match self {
            UIError::TerminalInit(msg) => "Failed to initialize terminal: "@ + msg@,
            UIError::RenderError(msg) => "Failed to render UI: "@ + msg@,
            UIError::EventError(msg) => "Event handling error: "@ + msg@,
        }
    }

    /// Renders the error for display.
    pub fn to_string(&self) -> (text: String)
        ensures
            text@ == self.text(),
    {
        match self {
            UIError::TerminalInit(msg) => join("Failed to initialize terminal: ", msg),
            UIError::RenderError(msg) => join("Failed to render UI: ", msg),
            UIError::EventError(msg) => join("Event handling error: ", msg),
        }
    }
}

impl PlayerError {
    /// Whether `text` is what this error reports: a label for the kind of
    /// error, then the text of the error inside. An I/O error reports what
    /// the error it carries displays.
    pub open spec fn reports(&self, text: Seq<char>) -> bool {
        match self {
            PlayerError::Network(e) => text == "Network error: "@ + e.text(),
            PlayerError::Audio(e) => text == "Audio error: "@ + e.text(),
            PlayerError::Config(e) => text == "Configuration error: "@ + e.text(),
            PlayerError::UI(e) => text == "UI error: "@ + e.text(),
            PlayerError::IO(e) => exists|detail: String|
                #![trigger vstd::string::to_string_from_display_ensures::<std::io::Error>(e, detail)]
                vstd::string::to_string_from_display_ensures::<std::io::Error>(e, detail) && text
                    == "I/O error: "@ + detail@,
            PlayerError::Parse(msg) => text == "Parse error: "@ + msg@,
        }
    }

    /// Renders the error for display.
    pub fn to_string(&self) -> (text: String)
        ensures
            self.reports(text@),
    {
        match self {
            PlayerError::Network(e) => {
                let inner = e.to_string();
                join("Network error: ", inner.as_str())
            },
            PlayerError::Audio(e) => {
                let inner = e.to_string();
                join("Audio error: ", inner.as_str())
            },
            PlayerError::Config(e) => {
                let inner = e.to_string();
                join("Configuration error: ", inner.as_str())
            },
            PlayerError::UI(e) => {
                let inner = e.to_string();
                join("UI error: ", inner.as_str())
            },
            PlayerError::IO(e) => {
                let detail = e.to_string();
                join("I/O error: ", detail.as_str())
            },
            PlayerError::Parse(msg) => join("Parse error: ", msg),
        }
    }
}

impl vstd::std_specs::convert::FromSpecImpl<std::io::Error> for PlayerError {
    open spec fn obeys_from_spec() -> bool {
        true
    }

    open spec fn from_spec(error: std::io::Error) -> PlayerError {
        PlayerError::IO(error)
    }
}

impl From<std::io::Error> for PlayerError {
    fn from(error: std::io::Error) -> (converted: PlayerError) {
        PlayerError::IO(error)
    }
}

/// `reqwest::Error`, carried through unopened.
#[verifier::external_type_specification]
#[verifier::external_body]
pub struct ExReqwestError(reqwest::Error);

/// `toml::de::Error`, carried through unopened.
#[verifier::external_type_specification]
#[verifier::external_body]
pub struct ExTomlDeError(toml::de::Error);

/// `toml::ser::Error`, carried through unopened.
#[verifier::external_type_specification]
#[verifier::external_body]
pub struct ExTomlSerError(toml::ser::Error);

impl vstd::std_specs::convert::FromSpecImpl<reqwest::Error> for PlayerError {
    open spec fn obeys_from_spec() -> bool {
        false
    }

    open spec fn from_spec(error: reqwest::Error) -> PlayerError {
        arbitrary()
    }
}

impl From<reqwest::Error> for PlayerError {
    /// A failed request is a failure to reach the catalog, and reports what
    /// the request's error displays.
    fn from(error: reqwest::Error) -> (converted: PlayerError)
        ensures
            converted matches PlayerError::Network(NetworkError::ApiConnection(msg))
                && vstd::string::to_string_from_display_ensures::<reqwest::Error>(&error, msg),
    {
        PlayerError::Network(NetworkError::ApiConnection(error.to_string()))
    }
}

impl vstd::std_specs::convert::FromSpecImpl<toml::de::Error> for PlayerError {
    open spec fn obeys_from_spec() -> bool {
        false
    }

    open spec fn from_spec(error: toml::de::Error) -> PlayerError {
        arbitrary()
    }
}

impl From<toml::de::Error> for PlayerError {
    /// A document that does not parse is a configuration error, and reports
    /// what the parser's error displays.
    fn from(error: toml::de::Error) -> (converted: PlayerError)
        ensures
            converted matches PlayerError::Config(ConfigError::TomlParse(msg))
                && vstd::string::to_string_from_display_ensures::<toml::de::Error>(&error, msg),
    {
        PlayerError::Config(ConfigError::TomlParse(error.to_string()))
    }
}

impl vstd::std_specs::convert::FromSpecImpl<toml::ser::Error> for PlayerError {
    open spec fn obeys_from_spec() -> bool {
        false
    }

    open spec fn from_spec(error: toml::ser::Error) -> PlayerError {
        arbitrary()
    }
}

impl From<toml::ser::Error> for PlayerError {
    /// A value that cannot be written as a document is a configuration
    /// error, and reports what the writer's error displays.
    fn from(error: toml::ser::Error) -> (converted: PlayerError)
        ensures
            converted matches PlayerError::Config(ConfigError::TomlParse(msg))
                && vstd::string::to_string_from_display_ensures::<toml::ser::Error>(&error, msg),
    {
        PlayerError::Config(ConfigError::TomlParse(error.to_string()))
    }
}

/// The text `context: detail`.
pub open spec fn with_context(context: Seq<char>, detail: Seq<char>) -> Seq<char> {
    context + ": "@ + detail
}

/// Puts a context in front of a detail, with a colon between them.
pub fn contextualize(context: &str, detail: &str) -> (text: String)
    ensures
        text@ == with_context(context@, detail@),
{
    let mut text = join(context, ": ");
    text.append(detail);
    text
}

/// Whether `text` names `context` and then what `error` displays.
pub open spec fn reports_in_context<E: core::fmt::Display>(
    error: &E,
    context: Seq<char>,
    text: Seq<char>,
) -> bool {
    exists|detail: String|
        #![trigger vstd::string::to_string_from_display_ensures::<E>(error, detail)]
        vstd::string::to_string_from_display_ensures::<E>(error, detail) && text == with_context(
            context,
            detail@,
        )
}

/// Turns the error of a result into a [`PlayerError`] that names the context
/// in which it arose. A success passes through unchanged.
pub trait PlayerErrorExt<T> {
    fn with_network_context(self, context: &str) -> PlayerResult<T>;

    fn with_audio_context(self, context: &str) -> PlayerResult<T>;

    fn with_config_context(self, context: &str) -> PlayerResult<T>;

    fn with_ui_context(self, context: &str) -> PlayerResult<T>;
}

impl<T, E: core::fmt::Display> PlayerErrorExt<T> for Result<T, E> {
    fn with_network_context(self, context: &str) -> (result: PlayerResult<T>)
        ensures
            match self {
                Ok(value) => result matches Ok(kept) && kept == value,
                Err(error) => result matches Err(
                    PlayerError::Network(NetworkError::ApiConnection(msg)),
                ) && reports_in_context(&error, context@, msg@),
            },
    {
        match self {
            Ok(value) => Ok(value),
            Err(error) => {
                let detail = error.to_string();
                Err(
                    PlayerError::Network(
                        NetworkError::ApiConnection(contextualize(context, detail.as_str())),
                    ),
                )
            },
        }
    }

    fn with_audio_context(self, context: &str) -> (result: PlayerResult<T>)
        ensures
            match self {
                Ok(value) => result matches Ok(kept) && kept == value,
                Err(error) => result matches Err(PlayerError::Audio(AudioError::OutputInit(msg)))
                    && reports_in_context(&error, context@, msg@),
            },
    {
        match self {
            Ok(value) => Ok(value),
            Err(error) => {
                let detail = error.to_string();
                Err(
                    PlayerError::Audio(
                        AudioError::OutputInit(contextualize(context, detail.as_str())),
                    ),
                )
            },
        }
    }

    fn with_config_context(self, context: &str) -> (result: PlayerResult<T>)
        ensures
            match self {
                Ok(value) => result matches Ok(kept) && kept == value,
                Err(error) => result matches Err(PlayerError::Config(ConfigError::FileRead(msg)))
                    && reports_in_context(&error, context@, msg@),
            },
    {
        match self {
            Ok(value) => Ok(value),
            Err(error) => {
                let detail = error.to_string();
                Err(
                    PlayerError::Config(
                        ConfigError::FileRead(contextualize(context, detail.as_str())),
                    ),
                )
            },
        }
    }

    fn with_ui_context(self, context: &str) -> (result: PlayerResult<T>)
        ensures
            match self {
                Ok(value) => result matches Ok(kept) && kept == value,
                Err(error) => result matches Err(PlayerError::UI(UIError::TerminalInit(msg)))
                    && reports_in_context(&error, context@, msg@),
            },
    {
        match self {
            Ok(value) => Ok(value),
            Err(error) => {
                let detail = error.to_string();
                Err(PlayerError::UI(UIError::TerminalInit(contextualize(context, detail.as_str()))))
            },
        }
    }
}

/// Why a playback session could not be opened.
#[derive(Debug)]
pub enum PlaybackError {
    /// The channel lists no stream variant
    NoPlayableStream,
    /// The playlist file names no stream address
    InvalidPlaylistReference,
    /// The connection could not be set up
    Transport(String),
    /// The audio data is malformed or of an unsupported kind
    Decode(String),
    /// The local audio device is not available
    OutputDevice(String),
}

/// A [`PlaybackError`] with its text as a sequence.
pub enum PlaybackErrorView {
    NoPlayableStream,
    InvalidPlaylistReference,
    Transport(Seq<char>),
    Decode(Seq<char>),
    OutputDevice(Seq<char>),
}

impl View for PlaybackError {
    type V = PlaybackErrorView;

    open spec fn view(&self) -> PlaybackErrorView {
        match self {
            PlaybackError::NoPlayableStream => PlaybackErrorView::NoPlayableStream,
            PlaybackError::InvalidPlaylistReference => PlaybackErrorView::InvalidPlaylistReference,
            PlaybackError::Transport(msg) => PlaybackErrorView::Transport(msg@),
            PlaybackError::Decode(msg) => PlaybackErrorView::Decode(msg@),
            PlaybackError::OutputDevice(msg) => PlaybackErrorView::OutputDevice(msg@),
        }
    }
}

impl PlaybackErrorView {
    /// The text this error reports.
    pub open spec fn text(self) -> Seq<char> {
        match self {
            PlaybackErrorView::NoPlayableStream => "No playable stream URL found for this channel."@,
            PlaybackErrorView::InvalidPlaylistReference => "No valid stream URL found in .pls playlist"@,
            PlaybackErrorView::Transport(msg) => msg,
            PlaybackErrorView::Decode(msg) => msg,
            PlaybackErrorView::OutputDevice(msg) => msg,
        }
    }
}

impl PlaybackError {
    /// Renders the error for display.
    pub fn to_string(&self) -> (text: String)
        ensures
            text@ == self@.text(),
    {
        match self {
            PlaybackError::NoPlayableStream => "No playable stream URL found for this channel.".to_owned(),
            PlaybackError::InvalidPlaylistReference => "No valid stream URL found in .pls playlist".to_owned(),
            PlaybackError::Transport(msg) => msg.clone(),
            PlaybackError::Decode(msg) => msg.clone(),
            PlaybackError::OutputDevice(msg) => msg.clone(),
        }
    }
}

} // verus!
