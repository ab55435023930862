pub mod describe;
pub mod error;
pub mod expand;
pub mod expanded;
pub mod har;
pub mod laws;
pub mod manifest;
pub mod period;
pub mod render;
pub mod text;
pub mod timeline;

pub use describe::describe_representation;
pub use har::{manifest_file_name, select_manifests, ExtractedManifest, HarEntry, HarError, HarHeader};
pub use error::{DrawError, ExpandError, ParseError};
pub use expanded::{
    ContentType, Expanded, ExpandedAdaptationSet, ExpandedMpd, ExpandedPeriod, ExpandedRepresentation,
    ExpandedSegmentTimeline, ExpandedSegmentTimelineSegment, ExpandedSegments,
};
pub use manifest::{AdaptationSet, Manifest, Period, Representation, SegmentTemplate, TimeSpan, TimelineEntry};
pub use period::{parse_period_duration_ms, parse_period_start_ms};
pub use render::{format_duration, get_period_height, get_period_width, ms_to_pixels, render_duration_ms, Color};
pub use timeline::{decode_segment_timeline, parse_segment_template};
