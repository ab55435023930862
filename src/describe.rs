use vstd::prelude::*;

use crate::error::ParseError;
use crate::expanded::ContentType;
use crate::manifest::{AdaptationSet, Representation};
use crate::text::{decimal, push_decimal};

verus! {

/// The representation's value if it sets one, else the adaptation set's.
pub open spec fn cascade(representation: Option<String>, adaptation_set: Option<String>) -> Option<Seq<char>> {
    match representation {
        Some(s) => Some(s@),
        None => match adaptation_set {
            Some(s) => Some(s@),
            None => None,
        },
    }
}

/// The content type that a declared `contentType` names: only `audio` and
/// `video` are recognised.
pub open spec fn content_type_spec(c: Option<String>) -> Option<ContentType> {
    match c {
        Some(s) => if s@ == "audio"@ {
            Some(ContentType::Audio)
        } else if s@ == "video"@ {
            Some(ContentType::Video)
        } else {
            None
        },
        None => None,
    }
}

/// The description of a representation with its attributes resolved
/// against its adaptation set: `"<mime> <codecs> <rate>Hz"` for audio,
/// `"<mime> <codecs> <w>x<h> <fps>fps <bandwidth>bps"` for video.
pub open spec fn description_spec(rep: Representation, a: AdaptationSet) -> Result<Seq<char>, ParseError> {
    match cascade(rep.mime_type, a.mime_type) {
        None => Err(ParseError::CannotInferRepresentationMimeType),
        Some(mime) => match cascade(rep.codecs, a.codecs) {
            None => Err(ParseError::CannotInferRepresentationCodecs),
            Some(codecs) => match content_type_spec(a.content_type) {
                Some(ContentType::Audio) => match cascade(rep.audio_sampling_rate, a.audio_sampling_rate) {
                    None => Err(ParseError::CannotInferRepresentationAudioSamplingRate),
                    Some(rate) => Ok(mime + " "@ + codecs + " "@ + rate + "Hz"@),
                },
                Some(ContentType::Video) => match cascade(rep.frame_rate, a.frame_rate) {
                    None => Err(ParseError::CannotInferRepresentationFrameRate),
                    Some(fps) => match rep.width {
                        None => Err(ParseError::RepresentationWithoutWidth),
                        Some(w) => match rep.height {
                            None => Err(ParseError::RepresentationWithoutHeight),
                            Some(h) => match rep.bandwidth {
                                None => Err(ParseError::RepresentationWithoutBandwidth),
                                Some(b) => Ok(mime + " "@ + codecs + " "@ + decimal(w as nat) + "x"@
                                    + decimal(h as nat) + " "@ + fps + "fps "@ + decimal(b as nat) + "bps"@),
                            },
                        },
                    },
                },
                None => Err(ParseError::UnmappedRepresentationContentType),
            },
        },
    }
}

/// Reads a declared `contentType`.
pub fn content_type_of(c: &Option<String>) -> (r: Option<ContentType>)
    ensures
        r == content_type_spec(*c),
{
    match c {
        Some(s) => {
            if *s == String::from_str("audio") {
                Some(ContentType::Audio)
            } else if *s == String::from_str("video") {
                Some(ContentType::Video)
            } else {
                None
            }
        },
        None => None,
    }
}

fn cascade_of<'a>(representation: &'a Option<String>, adaptation_set: &'a Option<String>) -> (r: Option<&'a String>)
    ensures
        match r {
            Some(s) => cascade(*representation, *adaptation_set) == Some(s@),
            None => cascade(*representation, *adaptation_set) is None,
        },
{
    match representation {
        Some(s) => Some(s),
        None => match adaptation_set {
            Some(s) => Some(s),
            None => None,
        },
    }
}

/// Resolves a representation's descriptive attributes against its
/// adaptation set and describes it.
pub fn describe_representation(representation: &Representation, adaptation_set: &AdaptationSet) -> (r: Result<String, ParseError>)
    ensures
        match r {
            Ok(s) => description_spec(*representation, *adaptation_set) == Ok::<Seq<char>, ParseError>(s@),
            Err(e) => description_spec(*representation, *adaptation_set) == Err::<Seq<char>, ParseError>(e),
        },
{
    let rep = representation;
    let a = adaptation_set;
    let mime = match cascade_of(&rep.mime_type, &a.mime_type) {
        Some(s) => s,
        None => return Err(ParseError::CannotInferRepresentationMimeType),
    };
    let codecs = match cascade_of(&rep.codecs, &a.codecs) {
        Some(s) => s,
        None => return Err(ParseError::CannotInferRepresentationCodecs),
    };
    let mut out = mime.clone();
    out.append(" ");
    out.append(codecs.as_str());
    out.append(" ");
    match content_type_of(&a.content_type) {
        Some(ContentType::Audio) => {
            let rate = match cascade_of(&rep.audio_sampling_rate, &a.audio_sampling_rate) {
                Some(s) => s,
                None => return Err(ParseError::CannotInferRepresentationAudioSamplingRate),
            };
            out.append(rate.as_str());
            out.append("Hz");
            Ok(out)
        },
        Some(ContentType::Video) => {
            let fps = match cascade_of(&rep.frame_rate, &a.frame_rate) {
                Some(s) => s,
                None => return Err(ParseError::CannotInferRepresentationFrameRate),
            };
            let w = match rep.width {
                Some(x) => x,
                None => return Err(ParseError::RepresentationWithoutWidth),
            };
            let h = match rep.height {
                Some(x) => x,
                None => return Err(ParseError::RepresentationWithoutHeight),
            };
            let b = match rep.bandwidth {
                Some(x) => x,
                None => return Err(ParseError::RepresentationWithoutBandwidth),
            };
            push_decimal(&mut out, w);
            out.append("x");
            push_decimal(&mut out, h);
            out.append(" ");
            out.append(fps.as_str());
            out.append("fps ");
            push_decimal(&mut out, b);
            out.append("bps");
            Ok(out)
        },
        None => Err(ParseError::UnmappedRepresentationContentType),
    }
}

} // verus!
