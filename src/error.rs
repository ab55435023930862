use vstd::prelude::*;

verus! {

/// Every way in which reading a manifest or expanding it into a timeline can fail.
#[derive(Debug, Clone, Copy, PartialEq, Eq, Structural)]
pub enum ParseError {
    CannotReadFileExtension,
    CannotReadFileStem,
    UnexpectedFileExtension,
    CannotOpenManifestFile,
    CannotParseManifestFile,
    CannotParsePeriodStartAsU64,
    CannotParsePeriodDurationAsU64,
    AdaptationSetWithoutContentType,
    CannotInferRepresentationMimeType,
    CannotInferRepresentationCodecs,
    CannotInferRepresentationAudioSamplingRate,
    CannotInferRepresentationFrameRate,
    RepresentationWithoutWidth,
    RepresentationWithoutHeight,
    RepresentationWithoutBandwidth,
    UnmappedRepresentationContentType,
    SegmentTemplateWithoutTimescale,
    SegmentTemplateWithZeroTimescale,
    SegmentTemplateWithoutSegmentTimeline,
    CannotInferSegmentTemplateMediaUrl,
    SegmentTimelineWithoutSegments,
    SegmentWithNegativeRepeat,
    SegmentTimeBeforePresentationTimeOffset,
    SegmentTimeOverflow,
    MpdWithoutPeriods,
    PeriodWithoutAdaptationSets,
    AdaptationSetWithoutRepresentations,
    SegmentListNotImplemented,
}

/// A failed expansion: what went wrong, and the identifier of the period,
/// adaptation set or representation where it happened.
#[derive(Debug, Clone)]
pub struct ExpandError {
    pub kind: ParseError,
    pub id: String,
}

/// Failures of the renderer.
#[derive(Debug, Clone, Copy, PartialEq, Eq, Structural)]
pub enum DrawError {
    CannotCreateFont,
}

/// The variant name of an error.
pub open spec fn parse_error_name(e: ParseError) -> Seq<char> {
    match e {
        ParseError::CannotReadFileExtension => "CannotReadFileExtension"@,
        ParseError::CannotReadFileStem => "CannotReadFileStem"@,
        ParseError::UnexpectedFileExtension => "UnexpectedFileExtension"@,
        ParseError::CannotOpenManifestFile => "CannotOpenManifestFile"@,
        ParseError::CannotParseManifestFile => "CannotParseManifestFile"@,
        ParseError::CannotParsePeriodStartAsU64 => "CannotParsePeriodStartAsU64"@,
        ParseError::CannotParsePeriodDurationAsU64 => "CannotParsePeriodDurationAsU64"@,
        ParseError::AdaptationSetWithoutContentType => "AdaptationSetWithoutContentType"@,
        ParseError::CannotInferRepresentationMimeType => "CannotInferRepresentationMimeType"@,
        ParseError::CannotInferRepresentationCodecs => "CannotInferRepresentationCodecs"@,
        ParseError::CannotInferRepresentationAudioSamplingRate => "CannotInferRepresentationAudioSamplingRate"@,
        ParseError::CannotInferRepresentationFrameRate => "CannotInferRepresentationFrameRate"@,
        ParseError::RepresentationWithoutWidth => "RepresentationWithoutWidth"@,
        ParseError::RepresentationWithoutHeight => "RepresentationWithoutHeight"@,
        ParseError::RepresentationWithoutBandwidth => "RepresentationWithoutBandwidth"@,
        ParseError::UnmappedRepresentationContentType => "UnmappedRepresentationContentType"@,
        ParseError::SegmentTemplateWithoutTimescale => "SegmentTemplateWithoutTimescale"@,
        ParseError::SegmentTemplateWithZeroTimescale => "SegmentTemplateWithZeroTimescale"@,
        ParseError::SegmentTemplateWithoutSegmentTimeline => "SegmentTemplateWithoutSegmentTimeline"@,
        ParseError::CannotInferSegmentTemplateMediaUrl => "CannotInferSegmentTemplateMediaUrl"@,
        ParseError::SegmentTimelineWithoutSegments => "SegmentTimelineWithoutSegments"@,
        ParseError::SegmentWithNegativeRepeat => "SegmentWithNegativeRepeat"@,
        ParseError::SegmentTimeBeforePresentationTimeOffset => "SegmentTimeBeforePresentationTimeOffset"@,
        ParseError::SegmentTimeOverflow => "SegmentTimeOverflow"@,
        ParseError::MpdWithoutPeriods => "MpdWithoutPeriods"@,
        ParseError::PeriodWithoutAdaptationSets => "PeriodWithoutAdaptationSets"@,
        ParseError::AdaptationSetWithoutRepresentations => "AdaptationSetWithoutRepresentations"@,
        ParseError::SegmentListNotImplemented => "SegmentListNotImplemented"@,
    }
}

/// The sentence that explains an error.
pub open spec fn parse_error_text(e: ParseError) -> Seq<char> {
    match e {
        ParseError::CannotReadFileExtension => "Unable to read the provided file's extension."@,
        ParseError::CannotReadFileStem => "Unable to read the input file stem"@,
        ParseError::UnexpectedFileExtension => "Unsupported file extension. Provide a har or mpd file"@,
        ParseError::CannotOpenManifestFile => "Unable to open the provided manifest."@,
        ParseError::CannotParseManifestFile => "Unable to parse the provided manifest."@,
        ParseError::CannotParsePeriodStartAsU64 => "Unable to parse period start in ms when casting to u64."@,
        ParseError::CannotParsePeriodDurationAsU64 => "Unable to parse period duration in ms when casting to u64."@,
        ParseError::AdaptationSetWithoutContentType => "Found AdaptationSetWithoutContentType without or with an unexpected contentType"@,
        ParseError::CannotInferRepresentationMimeType => "Unable to infer the mimeType for a Representation"@,
        ParseError::CannotInferRepresentationCodecs => "Unable to infer the codecs for a Representation"@,
        ParseError::CannotInferRepresentationAudioSamplingRate => "Unable to infer the audioSamplingRate for a Representation"@,
        ParseError::CannotInferRepresentationFrameRate => "Unable to infer the frameRate for a Representation"@,
        ParseError::RepresentationWithoutWidth => "No width on Representation"@,
        ParseError::RepresentationWithoutHeight => "No height on Representation"@,
        ParseError::RepresentationWithoutBandwidth => "No bandwidth on Representation"@,
        ParseError::UnmappedRepresentationContentType => "A contentType has no description mapping"@,
        ParseError::SegmentTemplateWithoutTimescale => "No timescale on SegmentTemplate"@,
        ParseError::SegmentTemplateWithZeroTimescale => "A SegmentTemplate timescale of zero ticks per second"@,
        ParseError::SegmentTemplateWithoutSegmentTimeline => "No SegmentTimeline within a SegmentTemplate. SegmentList is not supported."@,
        ParseError::CannotInferSegmentTemplateMediaUrl => "Cannot infer media URL for a SegmentTemplate"@,
        ParseError::SegmentTimelineWithoutSegments => "Unable to get first segment from a SegmentTimeline"@,
        ParseError::SegmentWithNegativeRepeat => "A segment repeat count below zero is not supported"@,
        ParseError::SegmentTimeBeforePresentationTimeOffset => "A segment starts before the presentationTimeOffset"@,
        ParseError::SegmentTimeOverflow => "A segment time does not fit in u64"@,
        ParseError::MpdWithoutPeriods => "Manifest with no periods"@,
        ParseError::PeriodWithoutAdaptationSets => "Period with no adaptation sets"@,
        ParseError::AdaptationSetWithoutRepresentations => "AdaptationSet with no representations"@,
        ParseError::SegmentListNotImplemented => "SegmentList addressing is not implemented"@,
    }
}

impl ParseError {
    fn name(&self) -> (r: &'static str)
        ensures
            r@ == parse_error_name(*self),
    {
        match self {
            ParseError::CannotReadFileExtension => "CannotReadFileExtension",
            ParseError::CannotReadFileStem => "CannotReadFileStem",
            ParseError::UnexpectedFileExtension => "UnexpectedFileExtension",
            ParseError::CannotOpenManifestFile => "CannotOpenManifestFile",
            ParseError::CannotParseManifestFile => "CannotParseManifestFile",
            ParseError::CannotParsePeriodStartAsU64 => "CannotParsePeriodStartAsU64",
            ParseError::CannotParsePeriodDurationAsU64 => "CannotParsePeriodDurationAsU64",
            ParseError::AdaptationSetWithoutContentType => "AdaptationSetWithoutContentType",
            ParseError::CannotInferRepresentationMimeType => "CannotInferRepresentationMimeType",
            ParseError::CannotInferRepresentationCodecs => "CannotInferRepresentationCodecs",
            ParseError::CannotInferRepresentationAudioSamplingRate => "CannotInferRepresentationAudioSamplingRate",
            ParseError::CannotInferRepresentationFrameRate => "CannotInferRepresentationFrameRate",
            ParseError::RepresentationWithoutWidth => "RepresentationWithoutWidth",
            ParseError::RepresentationWithoutHeight => "RepresentationWithoutHeight",
            ParseError::RepresentationWithoutBandwidth => "RepresentationWithoutBandwidth",
            ParseError::UnmappedRepresentationContentType => "UnmappedRepresentationContentType",
            ParseError::SegmentTemplateWithoutTimescale => "SegmentTemplateWithoutTimescale",
            ParseError::SegmentTemplateWithZeroTimescale => "SegmentTemplateWithZeroTimescale",
            ParseError::SegmentTemplateWithoutSegmentTimeline => "SegmentTemplateWithoutSegmentTimeline",
            ParseError::CannotInferSegmentTemplateMediaUrl => "CannotInferSegmentTemplateMediaUrl",
            ParseError::SegmentTimelineWithoutSegments => "SegmentTimelineWithoutSegments",
            ParseError::SegmentWithNegativeRepeat => "SegmentWithNegativeRepeat",
            ParseError::SegmentTimeBeforePresentationTimeOffset => "SegmentTimeBeforePresentationTimeOffset",
            ParseError::SegmentTimeOverflow => "SegmentTimeOverflow",
            ParseError::MpdWithoutPeriods => "MpdWithoutPeriods",
            ParseError::PeriodWithoutAdaptationSets => "PeriodWithoutAdaptationSets",
            ParseError::AdaptationSetWithoutRepresentations => "AdaptationSetWithoutRepresentations",
            ParseError::SegmentListNotImplemented => "SegmentListNotImplemented",
        }
    }

    fn text(&self) -> (r: &'static str)
        ensures
            r@ == parse_error_text(*self),
    {
        match self {
            ParseError::CannotReadFileExtension => "Unable to read the provided file's extension.",
            ParseError::CannotReadFileStem => "Unable to read the input file stem",
            ParseError::UnexpectedFileExtension => "Unsupported file extension. Provide a har or mpd file",
            ParseError::CannotOpenManifestFile => "Unable to open the provided manifest.",
            ParseError::CannotParseManifestFile => "Unable to parse the provided manifest.",
            ParseError::CannotParsePeriodStartAsU64 => "Unable to parse period start in ms when casting to u64.",
            ParseError::CannotParsePeriodDurationAsU64 => "Unable to parse period duration in ms when casting to u64.",
            ParseError::AdaptationSetWithoutContentType => "Found AdaptationSetWithoutContentType without or with an unexpected contentType",
            ParseError::CannotInferRepresentationMimeType => "Unable to infer the mimeType for a Representation",
            ParseError::CannotInferRepresentationCodecs => "Unable to infer the codecs for a Representation",
            ParseError::CannotInferRepresentationAudioSamplingRate => "Unable to infer the audioSamplingRate for a Representation",
            ParseError::CannotInferRepresentationFrameRate => "Unable to infer the frameRate for a Representation",
            ParseError::RepresentationWithoutWidth => "No width on Representation",
            ParseError::RepresentationWithoutHeight => "No height on Representation",
            ParseError::RepresentationWithoutBandwidth => "No bandwidth on Representation",
            ParseError::UnmappedRepresentationContentType => "A contentType has no description mapping",
            ParseError::SegmentTemplateWithoutTimescale => "No timescale on SegmentTemplate",
            ParseError::SegmentTemplateWithZeroTimescale => "A SegmentTemplate timescale of zero ticks per second",
            ParseError::SegmentTemplateWithoutSegmentTimeline => "No SegmentTimeline within a SegmentTemplate. SegmentList is not supported.",
            ParseError::CannotInferSegmentTemplateMediaUrl => "Cannot infer media URL for a SegmentTemplate",
            ParseError::SegmentTimelineWithoutSegments => "Unable to get first segment from a SegmentTimeline",
            ParseError::SegmentWithNegativeRepeat => "A segment repeat count below zero is not supported",
            ParseError::SegmentTimeBeforePresentationTimeOffset => "A segment starts before the presentationTimeOffset",
            ParseError::SegmentTimeOverflow => "A segment time does not fit in u64",
            ParseError::MpdWithoutPeriods => "Manifest with no periods",
            ParseError::PeriodWithoutAdaptationSets => "Period with no adaptation sets",
            ParseError::AdaptationSetWithoutRepresentations => "AdaptationSet with no representations",
            ParseError::SegmentListNotImplemented => "SegmentList addressing is not implemented",
        }
    }

    /// The message shown for this error: `"\nParseError::<variant>: <text>\n"`.
    pub fn describe(&self) -> (r: String)
        ensures
            r@ == "\nParseError::"@ + parse_error_name(*self) + ": "@ + parse_error_text(*self) + "\n"@,
    {
        let mut s = String::from_str("\nParseError::");
        s.append(self.name());
        s.append(": ");
        s.append(self.text());
        s.append("\n");
        s
    }
}

impl ExpandError {
    /// The message of the underlying error, followed by the identifier it names.
    pub fn describe(&self) -> (r: String)
        ensures
            r@ == "\nParseError::"@ + parse_error_name(self.kind) + ": "@ + parse_error_text(self.kind)
                + " ("@ + self.id@ + ")\n"@,
    {
        let mut s = String::from_str("\nParseError::");
        s.append(self.kind.name());
        s.append(": ");
        s.append(self.kind.text());
        s.append(" (");
        s.append(self.id.as_str());
        s.append(")\n");
        s
    }
}

impl DrawError {
    /// The message shown for this error: `"\nDrawError::<variant>: <text>\n"`.
    pub fn describe(&self) -> (r: String)
        ensures
            r@ == "\nDrawError::CannotCreateFont: Unable to create font\n"@,
    {
        match self {
            DrawError::CannotCreateFont => String::from_str("\nDrawError::CannotCreateFont: Unable to create font\n"),
        }
    }
}

} // verus!
