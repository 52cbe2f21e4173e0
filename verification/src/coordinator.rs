//! Start-up decisions: which video sink to try, and in what order.

use vstd::prelude::*;

verus! {

/// A video sink that the player may attach to the pipeline.
#[derive(Clone, Copy, Debug, PartialEq, Eq, Structural)]
pub enum VideoSink {
    /// The hardware-accelerated sink; tried first.
    Accelerated,
    /// The sink that the framework selects by itself; the fallback.
    Automatic,
}

/// The element name of a sink.
pub open spec fn spec_sink_element(sink: VideoSink) -> Seq<char> {
    match sink {
        VideoSink::Accelerated => "glimagesink"@,
        VideoSink::Automatic => "autovideosink"@,
    }
}

/// The sink to try once `failed` could not be built, if any is left.
pub open spec fn spec_sink_after(failed: VideoSink) -> Option<VideoSink> {
    match failed {
        VideoSink::Accelerated => Some(VideoSink::Automatic),
        VideoSink::Automatic => None,
    }
}

/// The name under which the framework builds the sink.
pub fn sink_element(sink: VideoSink) -> (r: &'static str)
    ensures
        r@ == spec_sink_element(sink),
{
    match sink {
        VideoSink::Accelerated => "glimagesink",
        VideoSink::Automatic => "autovideosink",
    }
}

/// The sink to try first.
pub fn first_sink() -> (r: VideoSink)
    ensures
        r == VideoSink::Accelerated,
{
    VideoSink::Accelerated
}

/// The sink to try after `failed` could not be built. `None` means that
/// the pipeline is left with the sink it picks itself, which is no error.
pub fn sink_after(failed: VideoSink) -> (r: Option<VideoSink>)
    ensures
        r == spec_sink_after(failed),
{
    match failed {
        VideoSink::Accelerated => Some(VideoSink::Automatic),
        VideoSink::Automatic => None,
    }
}

} // verus!
