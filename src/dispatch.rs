use vstd::prelude::*;
use crate::text::{ends_with, has_suffix, same_text};

verus! {

/// The audio formats that the engine decodes.
#[derive(Debug, Clone, Copy, PartialEq, Eq, Structural)]
pub enum AudioFormat {
    Mp3,
    Wav,
    Opus,
    Flac,
}

/// Why a file was not given a decoder.
#[derive(Debug, Clone, Copy, PartialEq, Eq, Structural)]
pub enum FormatError {
    /// Neither its content nor its extension marks it as audio.
    NotAudio,
    /// It is audio of a kind that no decoder handles.
    Unsupported,
}

/// The MIME subtype guessed from a file name's extension.
pub open spec fn extension_subtype(name: Seq<char>) -> Option<Seq<char>> {
    if ends_with(name, ".mp3"@) {
        Some("mpeg"@)
    } else if ends_with(name, ".wav"@) {
        Some("wav"@)
    } else if ends_with(name, ".opus"@) {
        Some("ogg"@)
    } else {
        None
    }
}

/// The decoder for an audio MIME subtype.
pub open spec fn subtype_format(subtype: Seq<char>) -> Option<AudioFormat> {
    if subtype == "mpeg"@ {
        Some(AudioFormat::Mp3)
    } else if subtype == "wav"@ || subtype == "x-wav"@ {
        Some(AudioFormat::Wav)
    } else if subtype == "ogg"@ {
        Some(AudioFormat::Opus)
    } else if subtype == "flac"@ || subtype == "x-flac"@ {
        Some(AudioFormat::Flac)
    } else {
        None
    }
}

/// The format of a file from its detected MIME type and its name: the
/// detected subtype when the top-level type is audio, else the subtype that
/// the extension suggests.
pub open spec fn format_of(top: Seq<char>, subtype: Seq<char>, name: Seq<char>) -> Result<
    AudioFormat,
    FormatError,
> {
    let guessed = if top == "audio"@ {
        Some(subtype)
    } else {
        extension_subtype(name)
    };
    match guessed {
        None => Err(FormatError::NotAudio),
        Some(g) => match subtype_format(g) {
            Some(f) => Ok(f),
            None => Err(FormatError::Unsupported),
        },
    }
}

fn guess_from_extension(file_name: &str) -> (r: Option<&'static str>)
    ensures
        match (r, extension_subtype(file_name@)) {
            (Some(a), Some(b)) => a@ == b,
            (None, None) => true,
            _ => false,
        },
{
    if has_suffix(file_name, ".mp3") {
        Some("mpeg")
    } else if has_suffix(file_name, ".wav") {
        Some("wav")
    } else if has_suffix(file_name, ".opus") {
        Some("ogg")
    } else {
        None
    }
}

fn format_for_subtype(subtype: &str) -> (r: Option<AudioFormat>)
    ensures
        r == subtype_format(subtype@),
{
    if same_text(subtype, "mpeg") {
        Some(AudioFormat::Mp3)
    } else if same_text(subtype, "wav") || same_text(subtype, "x-wav") {
        Some(AudioFormat::Wav)
    } else if same_text(subtype, "ogg") {
        Some(AudioFormat::Opus)
    } else if same_text(subtype, "flac") || same_text(subtype, "x-flac") {
        Some(AudioFormat::Flac)
    } else {
        None
    }
}

/// Chooses the decoder for a file from the MIME type that content detection
/// gave (`mime_type`/`mime_subtype`) and, failing that, from its extension.
pub fn detect_format(mime_type: &str, mime_subtype: &str, file_name: &str) -> (r: Result<
    AudioFormat,
    FormatError,
>)
    ensures
        r == format_of(mime_type@, mime_subtype@, file_name@),
{
    let guessed = if same_text(mime_type, "audio") {
        Some(mime_subtype)
    } else {
        guess_from_extension(file_name)
    };
    match guessed {
        None => Err(FormatError::NotAudio),
        Some(g) => match format_for_subtype(g) {
            Some(f) => Ok(f),
            None => Err(FormatError::Unsupported),
        },
    }
}

} // verus!
