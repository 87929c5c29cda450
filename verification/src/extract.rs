//! The transcoder invocation that turns a local video into numbered frames.

use vstd::prelude::*;
use crate::text::{
    as_text, decimal, format_decimal, join_path, joined, opt_string_text, opt_text, push_text, texts,
    to_owned_text,
};

verus! {

/// The video filter chain: frame-rate sampling first, then, if asked for,
/// rescaling. Sampling comes first so that dropped frames are never rescaled.
pub open spec fn filter_chain_text(fps: nat, scale: Option<Seq<char>>) -> Seq<char> {
    match scale {
        Some(s) => "fps="@ + decimal(fps) + ",scale="@ + s,
        None => "fps="@ + decimal(fps),
    }
}

/// Builds the filter chain `fps=<fps>[,scale=<scale>]`. Neither the rate nor
/// the scale is judged here: a rate of zero is written as `fps=0`.
pub fn build_filter_chain(fps: u32, scale: Option<&str>) -> (r: String)
    ensures
        r@ == filter_chain_text(fps as nat, opt_text(scale)),
{
    let mut r = String::from_str("fps=");
    let number = format_decimal(fps);
    r.append(number.as_str());
    match scale {
        Some(s) => {
            r.append(",scale=");
            r.append(s);
        },
        None => {},
    }
    r
}

/// One run of the transcoder, as plain values.
#[derive(Clone, Debug, PartialEq, Eq)]
pub struct TranscodeInvocation {
    /// Where to start reading, given to the transcoder as an option of the
    /// input, so that it seeks before decoding.
    pub seek: Option<String>,
    /// The local video file.
    pub input: String,
    /// How much of the stream after the seek point to process, given as an
    /// option of the output.
    pub duration: Option<String>,
    /// The video filter chain.
    pub filter_chain: String,
    /// The output directory joined with the file name pattern.
    pub output: String,
}

/// What a [`TranscodeInvocation`] holds, as texts.
pub struct TranscodePlan {
    pub seek: Option<Seq<char>>,
    pub input: Seq<char>,
    pub duration: Option<Seq<char>>,
    pub filter_chain: Seq<char>,
    pub output: Seq<char>,
}

/// The plan for extracting frames from `input` into `out_dir`.
pub open spec fn extraction_plan(
    input: Seq<char>,
    out_dir: Seq<char>,
    pattern: Seq<char>,
    fps: nat,
    scale: Option<Seq<char>>,
    start: Option<Seq<char>>,
    duration: Option<Seq<char>>,
) -> TranscodePlan {
    TranscodePlan {
        seek: start,
        input,
        duration,
        filter_chain: filter_chain_text(fps, scale),
        output: joined(out_dir, pattern),
    }
}

/// The options that stand before everything else: no banner, overwrite
/// existing output files.
pub open spec fn global_arguments() -> Seq<Seq<char>> {
    seq!["-hide_banner"@, "-y"@]
}

/// The seek option, if there is one. It belongs to the input.
pub open spec fn seek_arguments(seek: Option<Seq<char>>) -> Seq<Seq<char>> {
    match seek {
        Some(t) => seq!["-ss"@, t],
        None => Seq::empty(),
    }
}

/// The duration option, if there is one. It belongs to the output.
pub open spec fn duration_arguments(duration: Option<Seq<char>>) -> Seq<Seq<char>> {
    match duration {
        Some(d) => seq!["-t"@, d],
        None => Seq::empty(),
    }
}

/// The output's fixed options and the output itself: the filter chain,
/// variable-frame-rate timestamps, and frame numbers taken from the
/// presentation timestamps.
pub open spec fn output_arguments(filter_chain: Seq<char>, output: Seq<char>) -> Seq<Seq<char>> {
    seq!["-vf"@, filter_chain, "-vsync"@, "vfr"@, "-frame_pts"@, "1"@, output]
}

impl TranscodePlan {
    /// The transcoder's argument list for this plan.
    pub open spec fn arguments(self) -> Seq<Seq<char>> {
        global_arguments() + seek_arguments(self.seek) + seq!["-i"@, self.input]
            + duration_arguments(self.duration) + output_arguments(
            self.filter_chain,
            self.output,
        )
    }

    /// Where `-i` stands in the argument list.
    pub open spec fn input_position(self) -> int {
        if self.seek is Some {
            4
        } else {
            2
        }
    }
}

impl View for TranscodeInvocation {
    type V = TranscodePlan;

    open spec fn view(&self) -> TranscodePlan {
        TranscodePlan {
            seek: opt_string_text(self.seek),
            input: self.input@,
            duration: opt_string_text(self.duration),
            filter_chain: self.filter_chain@,
            output: self.output@,
        }
    }
}

impl TranscodeInvocation {
    /// Plans the extraction of frames from `input` into `out_dir`, named by
    /// `pattern` and sampled at `fps` frames per second. `scale`, `start`
    /// and `duration` are handed to the transcoder as they are.
    pub fn new(
        input: &str,
        out_dir: &str,
        pattern: &str,
        fps: u32,
        scale: Option<&str>,
        start: Option<&str>,
        duration: Option<&str>,
    ) -> (r: TranscodeInvocation)
        ensures
            r@ == extraction_plan(
                input@,
                out_dir@,
                pattern@,
                fps as nat,
                opt_text(scale),
                opt_text(start),
                opt_text(duration),
            ),
    {
        TranscodeInvocation {
            seek: to_owned_text(start),
            input: String::from_str(input),
            duration: to_owned_text(duration),
            filter_chain: build_filter_chain(fps, scale),
            output: join_path(out_dir, pattern),
        }
    }

    /// The argument list that the transcoder is started with.
    pub fn arguments(&self) -> (r: Vec<String>)
        ensures
            texts(r@) == self@.arguments(),
    {
        let mut r: Vec<String> = Vec::new();
        assert(texts(r@) =~= Seq::empty());
        push_text(&mut r, "-hide_banner");
        push_text(&mut r, "-y");
        match as_text(&self.seek) {
            Some(t) => {
                push_text(&mut r, "-ss");
                push_text(&mut r, t);
            },
            None => {},
        }
        push_text(&mut r, "-i");
        push_text(&mut r, self.input.as_str());
        match as_text(&self.duration) {
            Some(d) => {
                push_text(&mut r, "-t");
                push_text(&mut r, d);
            },
            None => {},
        }
        push_text(&mut r, "-vf");
        push_text(&mut r, self.filter_chain.as_str());
        push_text(&mut r, "-vsync");
        push_text(&mut r, "vfr");
        push_text(&mut r, "-frame_pts");
        push_text(&mut r, "1");
        push_text(&mut r, self.output.as_str());
        assert(texts(r@) =~= self@.arguments());
        r
    }
}

} // verus!
