use vstd::prelude::*;
use crate::text::joined;

verus! {

/// Why reading a playlist failed.
#[derive(Debug, PartialEq, Eq)]
pub enum M3u8Error {
    NetworkError(String),
    ParseError(String),
    InvalidUrl(String),
}

impl M3u8Error {
    /// The text shown for this error.
    pub open spec fn text(self) -> Seq<char> {
        match self {
            M3u8Error::NetworkError(msg) => "Network error: "@ + msg@,
            M3u8Error::ParseError(msg) => "Parse error: "@ + msg@,
            M3u8Error::InvalidUrl(msg) => "Invalid URL: "@ + msg@,
        }
    }

    /// The text shown for this error.
    pub fn describe(&self) -> (out: String)
        ensures
            out@ == self.text(),
    {
        match self {
            M3u8Error::NetworkError(msg) => joined("Network error: ", msg.as_str()),
            M3u8Error::ParseError(msg) => joined("Parse error: ", msg.as_str()),
            M3u8Error::InvalidUrl(msg) => joined("Invalid URL: ", msg.as_str()),
        }
    }
}

/// Why a run of the transcoder failed.
#[derive(Debug, PartialEq, Eq)]
pub enum FFmpegError {
    NotInstalled,
    CommandFailed(String),
    InvalidInput(String),
    OutputError(String),
}

impl FFmpegError {
    /// The text shown for this error.
    pub open spec fn text(self) -> Seq<char> {
        match self {
            FFmpegError::NotInstalled => "FFmpeg is not installed or not in PATH"@,
            FFmpegError::CommandFailed(msg) => "FFmpeg command failed: "@ + msg@,
            FFmpegError::InvalidInput(msg) => "Invalid input: "@ + msg@,
            FFmpegError::OutputError(msg) => "Output error: "@ + msg@,
        }
    }

    /// The text shown for this error.
    pub fn describe(&self) -> (out: String)
        ensures
            out@ == self.text(),
    {
        match self {
            FFmpegError::NotInstalled => String::from_str("FFmpeg is not installed or not in PATH"),
            FFmpegError::CommandFailed(msg) => joined("FFmpeg command failed: ", msg.as_str()),
            FFmpegError::InvalidInput(msg) => joined("Invalid input: ", msg.as_str()),
            FFmpegError::OutputError(msg) => joined("Output error: ", msg.as_str()),
        }
    }
}

/// How the transcoder is found and run.
#[derive(Debug, Clone, PartialEq, Eq)]
pub struct FFmpegConfig {
    pub ffmpeg_path: Option<String>,
    pub default_output_dir: String,
    pub timeout_seconds: u64,
}

impl FFmpegConfig {
    /// The configuration used where none is given: the transcoder is looked
    /// up by its plain name, a run may take an hour, and downloads go to
    /// `default_output_dir`.
    pub fn with_output_dir(default_output_dir: String) -> (c: FFmpegConfig)
        ensures
            c.ffmpeg_path is None,
            c.default_output_dir == default_output_dir,
            c.timeout_seconds == 3600,
    {
        FFmpegConfig { ffmpeg_path: None, default_output_dir, timeout_seconds: 3600 }
    }

    /// The command that runs the transcoder.
    pub fn get_ffmpeg_command(&self) -> (cmd: String)
        ensures
            cmd@ == match self.ffmpeg_path {
                Some(p) => p@,
                None => "ffmpeg"@,
            },
    {
        match &self.ffmpeg_path {
            Some(p) => p.clone(),
            None => String::from_str("ffmpeg"),
        }
    }
}

/// A line that a page wrote to its console.
#[derive(Debug, Clone, PartialEq, Eq)]
pub struct ConsoleMessage {
    pub level: String,
    pub text: String,
    /// Seconds since the Unix epoch.
    pub timestamp: u64,
}

} // verus!
