//! What can go wrong while a project file is read.

use vstd::prelude::*;
use crate::numbers::IntParseError;
use crate::strings::append_str;

verus! {

/// Why a project file could not be read.
pub enum ParserError {
    /// File ended unexpectedly.
    UnexpectedEOF,
    /// Identifier was not 'proj' or 'vid'.
    InvalidIdentifier(String),
    /// Project- or Video info was defined twice.
    DoubleDefinitionOf(String),
    /// Project- or Video info was missing.
    MissingIdentifier(String),
    /// Video type was not List, WithEffect, Raw, ...
    InvalidVideoType(String),
    /// Key was not 'pos', 'start', 'length', ...
    InvalidVideoInfoKey(String),
    /// 'pos', 'start', ... is missing.
    MissingVideoInfoKey(String),
    /// Tried to parse a position, but the first char was not one of the allowed alignment chars
    InvalidPosAlignment(char),
    /// The directory full of image frames could not be read: the directory, and
    /// what went wrong.
    DirectoryWithImagesNotFound(String, String),
    /// Only =, *, and L are allowed.
    InvalidTransparencyAdjustmentIdentifier(char),
    /// The character after 'compositing:' is not one of _ = | *.
    InvalidCompositingMode(char),
    /// Attempted to parse a curve, but found an unexpected character.
    InvalidCurveIdentifier(char),
    /// Invalid type for a text
    InvalidTextType(char),
    /// The first and last frame of a video could not be read.
    VideoFileFailedToParseStartOrEndFrame(String),
    /// This name does not identify an effect.
    UnknownEffect(String),
    /// Effect could not be parsed - custom error for the corresponding effect.
    EffectParseError { effect_identifier: String, custom_error: String },
    /// Failed to parse string into an int.
    ParseIntError(String, IntParseError),
    /// Failed to parse string into a float: the text, and what went wrong.
    ParseFloatError(String, String),
    /// When no other error type matches
    Todo,
}

/// The abstract value of a parser error.
pub enum ParserErrorV {
    UnexpectedEOF,
    InvalidIdentifier(Seq<char>),
    DoubleDefinitionOf(Seq<char>),
    MissingIdentifier(Seq<char>),
    InvalidVideoType(Seq<char>),
    InvalidVideoInfoKey(Seq<char>),
    MissingVideoInfoKey(Seq<char>),
    InvalidPosAlignment(char),
    DirectoryWithImagesNotFound(Seq<char>, Seq<char>),
    InvalidTransparencyAdjustmentIdentifier(char),
    InvalidCompositingMode(char),
    InvalidCurveIdentifier(char),
    InvalidTextType(char),
    VideoFileFailedToParseStartOrEndFrame(Seq<char>),
    UnknownEffect(Seq<char>),
    EffectParseError { effect_identifier: Seq<char>, custom_error: Seq<char> },
    ParseIntError(Seq<char>, IntParseError),
    ParseFloatError(Seq<char>, Seq<char>),
    Todo,
}

impl View for ParserError {
    type V = ParserErrorV;

    open spec fn view(&self) -> ParserErrorV {
        match self {
            ParserError::UnexpectedEOF => ParserErrorV::UnexpectedEOF,
            ParserError::InvalidIdentifier(s) => ParserErrorV::InvalidIdentifier(s@),
            ParserError::DoubleDefinitionOf(s) => ParserErrorV::DoubleDefinitionOf(s@),
            ParserError::MissingIdentifier(s) => ParserErrorV::MissingIdentifier(s@),
            ParserError::InvalidVideoType(s) => ParserErrorV::InvalidVideoType(s@),
            ParserError::InvalidVideoInfoKey(s) => ParserErrorV::InvalidVideoInfoKey(s@),
            ParserError::MissingVideoInfoKey(s) => ParserErrorV::MissingVideoInfoKey(s@),
            ParserError::InvalidPosAlignment(c) => ParserErrorV::InvalidPosAlignment(*c),
            ParserError::DirectoryWithImagesNotFound(d, e) => ParserErrorV::DirectoryWithImagesNotFound(d@, e@),
            ParserError::InvalidTransparencyAdjustmentIdentifier(c) => ParserErrorV::InvalidTransparencyAdjustmentIdentifier(*c),
            ParserError::InvalidCompositingMode(c) => ParserErrorV::InvalidCompositingMode(*c),
            ParserError::InvalidCurveIdentifier(c) => ParserErrorV::InvalidCurveIdentifier(*c),
            ParserError::InvalidTextType(c) => ParserErrorV::InvalidTextType(*c),
            ParserError::VideoFileFailedToParseStartOrEndFrame(s) => ParserErrorV::VideoFileFailedToParseStartOrEndFrame(s@),
            ParserError::UnknownEffect(s) => ParserErrorV::UnknownEffect(s@),
            ParserError::EffectParseError { effect_identifier, custom_error } => ParserErrorV::EffectParseError {
                effect_identifier: effect_identifier@,
                custom_error: custom_error@,
            },
            ParserError::ParseIntError(s, e) => ParserErrorV::ParseIntError(s@, *e),
            ParserError::ParseFloatError(s, e) => ParserErrorV::ParseFloatError(s@, e@),
            ParserError::Todo => ParserErrorV::Todo,
        }
    }
}

/// The text that tells a user what went wrong.
pub open spec fn parser_error_message(e: ParserErrorV) -> Seq<char> {
    match e {
        ParserErrorV::UnexpectedEOF => "Unexpected EOF (end of file)!"@,
        ParserErrorV::InvalidIdentifier(i) => "Invalid identifier: '"@ + i + "' was not 'proj' or 'vid'."@,
        ParserErrorV::DoubleDefinitionOf(i) => "Identifier '"@ + i + "' was defined twice!"@,
        ParserErrorV::MissingIdentifier(i) => "Identifier '"@ + i + "' was never defined, but is required!"@,
        ParserErrorV::InvalidVideoType(t) => "Video type '"@ + t
            + "' does not exist! Try List, WithEffect, Image, or VidFromImagesInDirectory"@,
        ParserErrorV::InvalidVideoInfoKey(k) => "VideoInfoKey '"@ + k
            + "' not permitted! Try pos, start, length, video or transparency_adjustments."@,
        ParserErrorV::MissingVideoInfoKey(k) => "VideoInfoKey '"@ + k + "' was missing but is required! Consider adding it."@,
        ParserErrorV::DirectoryWithImagesNotFound(d, e) => "Directory with images was not found. Dir: \""@ + d
            + "\", Err: \""@ + e + "\""@,
        ParserErrorV::InvalidTransparencyAdjustmentIdentifier(i) => "Invalid transparency adjustment identifier '"@
            + seq![i]
            + "'. Only = (force), * (factor), and L (fully opaque unless fully transparent) are allowed. (= and * must be followed by Curves.)"@,
        ParserErrorV::InvalidCompositingMode(c) => "Invalid compositing mode '"@ + seq![c]
            + "'. Only _ (ignore), = (opaque), | (direct) and * (transparency support) are allowed."@,
        ParserErrorV::InvalidCurveIdentifier(c) => "Found unexpected character '"@ + seq![c]
            + "' when parsing Curve. Allowed are only 0-9, '.', '/', 's', and '#'."@,
        ParserErrorV::InvalidTextType(c) => "Found unexpected text type character '"@ + seq![c]
            + "'. Use 's' for static text."@,
        ParserErrorV::VideoFileFailedToParseStartOrEndFrame(t) => "Failed to parse a video's start and end frames (crop): "@ + t,
        ParserErrorV::UnknownEffect(e) => "Effect '"@ + e
            + "' does not exist! Try None (placeholder), BlackWhite, Shake, ChangeSpeed, Blur, ColorAdjust or ColorKey."@,
        ParserErrorV::EffectParseError { effect_identifier, custom_error } => "Failed to parse effect '"@
            + effect_identifier + "', Err: \""@ + custom_error + "\""@,
        ParserErrorV::ParseIntError(i, e) => "Failed to parse '"@ + i + "' into an int. Err: "@ + e.spec_message(),
        ParserErrorV::ParseFloatError(i, e) => "Failed to parse '"@ + i + "' into a float. Err: "@ + e,
        ParserErrorV::InvalidPosAlignment(c) => "Failed to get alignment of position: First char after 'pos:' was "@
            + seq![c] + ", but only 1^2<+>3v4 are allowed."@,
        ParserErrorV::Todo => "There was an error, but no error message has been implemented yet."@,
    }
}

impl ParserError {
    /// The text that tells a user what went wrong.
    pub fn message(&self) -> (s: String)
        ensures
            s@ == parser_error_message(self@),
    {
        let mut s = String::new();
        match self {
            ParserError::UnexpectedEOF => {
                append_str(&mut s, "Unexpected EOF (end of file)!");
            },
            ParserError::InvalidIdentifier(i) => {
                append_str(&mut s, "Invalid identifier: '");
                append_str(&mut s, i.as_str());
                append_str(&mut s, "' was not 'proj' or 'vid'.");
            },
            ParserError::DoubleDefinitionOf(i) => {
                append_str(&mut s, "Identifier '");
                append_str(&mut s, i.as_str());
                append_str(&mut s, "' was defined twice!");
            },
            ParserError::MissingIdentifier(i) => {
                append_str(&mut s, "Identifier '");
                append_str(&mut s, i.as_str());
                append_str(&mut s, "' was never defined, but is required!");
            },
            ParserError::InvalidVideoType(t) => {
                append_str(&mut s, "Video type '");
                append_str(&mut s, t.as_str());
                append_str(&mut s, "' does not exist! Try List, WithEffect, Image, or VidFromImagesInDirectory");
            },
            ParserError::InvalidVideoInfoKey(k) => {
                append_str(&mut s, "VideoInfoKey '");
                append_str(&mut s, k.as_str());
                append_str(&mut s, "' not permitted! Try pos, start, length, video or transparency_adjustments.");
            },
            ParserError::MissingVideoInfoKey(k) => {
                append_str(&mut s, "VideoInfoKey '");
                append_str(&mut s, k.as_str());
                append_str(&mut s, "' was missing but is required! Consider adding it.");
            },
            ParserError::DirectoryWithImagesNotFound(d, e) => {
                append_str(&mut s, "Directory with images was not found. Dir: \"");
                append_str(&mut s, d.as_str());
                append_str(&mut s, "\", Err: \"");
                append_str(&mut s, e.as_str());
                append_str(&mut s, "\"");
            },
            ParserError::InvalidTransparencyAdjustmentIdentifier(i) => {
                append_str(&mut s, "Invalid transparency adjustment identifier '");
                s.push(*i);
                append_str(
                    &mut s,
                    "'. Only = (force), * (factor), and L (fully opaque unless fully transparent) are allowed. (= and * must be followed by Curves.)",
                );
            },
            ParserError::InvalidCompositingMode(c) => {
                append_str(&mut s, "Invalid compositing mode '");
                s.push(*c);
                append_str(&mut s, "'. Only _ (ignore), = (opaque), | (direct) and * (transparency support) are allowed.");
            },
            ParserError::InvalidCurveIdentifier(c) => {
                append_str(&mut s, "Found unexpected character '");
                s.push(*c);
                append_str(&mut s, "' when parsing Curve. Allowed are only 0-9, '.', '/', 's', and '#'.");
            },
            ParserError::InvalidTextType(c) => {
                append_str(&mut s, "Found unexpected text type character '");
                s.push(*c);
                append_str(&mut s, "'. Use 's' for static text.");
            },
            ParserError::VideoFileFailedToParseStartOrEndFrame(t) => {
                append_str(&mut s, "Failed to parse a video's start and end frames (crop): ");
                append_str(&mut s, t.as_str());
            },
            ParserError::UnknownEffect(e) => {
                append_str(&mut s, "Effect '");
                append_str(&mut s, e.as_str());
                append_str(
                    &mut s,
                    "' does not exist! Try None (placeholder), BlackWhite, Shake, ChangeSpeed, Blur, ColorAdjust or ColorKey.",
                );
            },
            ParserError::EffectParseError { effect_identifier, custom_error } => {
                append_str(&mut s, "Failed to parse effect '");
                append_str(&mut s, effect_identifier.as_str());
                append_str(&mut s, "', Err: \"");
                append_str(&mut s, custom_error.as_str());
                append_str(&mut s, "\"");
            },
            ParserError::ParseIntError(i, e) => {
                append_str(&mut s, "Failed to parse '");
                append_str(&mut s, i.as_str());
                append_str(&mut s, "' into an int. Err: ");
                let m = e.message();
                append_str(&mut s, m.as_str());
            },
            ParserError::ParseFloatError(i, e) => {
                append_str(&mut s, "Failed to parse '");
                append_str(&mut s, i.as_str());
                append_str(&mut s, "' into a float. Err: ");
                append_str(&mut s, e.as_str());
            },
            ParserError::InvalidPosAlignment(c) => {
                append_str(&mut s, "Failed to get alignment of position: First char after 'pos:' was ");
                s.push(*c);
                append_str(&mut s, ", but only 1^2<+>3v4 are allowed.");
            },
            ParserError::Todo => {
                append_str(&mut s, "There was an error, but no error message has been implemented yet.");
            },
        }
        assert(s@ =~= parser_error_message(self@));
        s
    }
}

} // verus!
