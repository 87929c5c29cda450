//! The transcoder invocation as the `ffmpeg_cli` crate takes it.
//!
//! The crate's builder is opaque to the verifier. What is said here of its
//! functions is taken from their source and believed, not proved: each
//! function below that is marked `external_body` says in its comment what it
//! claims.

use vstd::prelude::*;
use ffmpeg_cli::{FfmpegBuilder, File, Parameter};
use crate::extract::TranscodeInvocation;
use crate::text::as_text;

verus! {

#[verifier::external_type_specification]
#[verifier::external_body]
pub struct ExParameter<'a>(Parameter<'a>);

#[verifier::external_type_specification]
#[verifier::external_body]
pub struct ExFile<'a>(File<'a>);

#[verifier::external_type_specification]
#[verifier::external_body]
pub struct ExFfmpegBuilder<'a>(FfmpegBuilder<'a>);

/// The arguments that an option puts on the command line.
pub uninterp spec fn parameter_arguments(p: Parameter) -> Seq<Seq<char>>;

/// The address of a file.
pub uninterp spec fn file_url(f: File) -> Seq<char>;

/// The arguments that a file's options put on the command line, in the order
/// in which the options were added.
pub uninterp spec fn file_options(f: File) -> Seq<Seq<char>>;

/// The arguments that a builder's global options put on the command line.
pub uninterp spec fn builder_options(b: FfmpegBuilder) -> Seq<Seq<char>>;

/// The arguments that a builder's inputs put on the command line.
pub uninterp spec fn builder_inputs(b: FfmpegBuilder) -> Seq<Seq<char>>;

/// The arguments that a builder's outputs put on the command line.
pub uninterp spec fn builder_outputs(b: FfmpegBuilder) -> Seq<Seq<char>>;

/// The arguments that `FfmpegBuilder::to_command` makes of a builder: the
/// global options, then the inputs, then the outputs.
pub open spec fn command_line(b: FfmpegBuilder) -> Seq<Seq<char>> {
    builder_options(b) + builder_inputs(b) + builder_outputs(b)
}

/// `ffmpeg_cli::Parameter::Single`: an option without a value. The crate
/// writes it on the command line as one argument, a hyphen and the name.
#[verifier::external_body]
fn flag<'a>(name: &'a str) -> (r: Parameter<'a>)
    ensures
        parameter_arguments(r) == seq![seq!['-'] + name@],
{
    Parameter::Single(name)
}

/// `ffmpeg_cli::Parameter::KeyValue`: an option with a value. The crate
/// writes it on the command line as two arguments, a hyphen and the key, then
/// the value.
#[verifier::external_body]
fn key_value<'a>(key: &'a str, value: &'a str) -> (r: Parameter<'a>)
    ensures
        parameter_arguments(r) == seq![seq!['-'] + key@, value@],
{
    Parameter::KeyValue(key, value)
}

/// `ffmpeg_cli::File::new`: a file with the given address and no options.
#[verifier::external_body]
fn file<'a>(url: &'a str) -> (r: File<'a>)
    ensures
        file_url(r) == url@,
        file_options(r) == Seq::<Seq<char>>::empty(),
{
    File::new(url)
}

/// `ffmpeg_cli::File::option`: the same file with one more option, after
/// those it has.
#[verifier::external_body]
fn file_with<'a>(f: File<'a>, p: Parameter<'a>) -> (r: File<'a>)
    ensures
        file_url(r) == file_url(f),
        file_options(r) == file_options(f) + parameter_arguments(p),
{
    f.option(p)
}

/// `ffmpeg_cli::FfmpegBuilder::new`: a builder with no options, inputs or
/// outputs.
#[verifier::external_body]
fn empty_builder<'a>() -> (r: FfmpegBuilder<'a>)
    ensures
        builder_options(r) == Seq::<Seq<char>>::empty(),
        builder_inputs(r) == Seq::<Seq<char>>::empty(),
        builder_outputs(r) == Seq::<Seq<char>>::empty(),
{
    FfmpegBuilder::new()
}

/// `ffmpeg_cli::FfmpegBuilder::option`: the same builder with one more
/// global option, after those it has.
#[verifier::external_body]
fn with_option<'a>(b: FfmpegBuilder<'a>, p: Parameter<'a>) -> (r: FfmpegBuilder<'a>)
    ensures
        builder_options(r) == builder_options(b) + parameter_arguments(p),
        builder_inputs(r) == builder_inputs(b),
        builder_outputs(r) == builder_outputs(b),
{
    b.option(p)
}

/// `ffmpeg_cli::FfmpegBuilder::input`: the same builder with one more input,
/// after those it has. On the command line an input is its options, then
/// `-i`, then its address.
#[verifier::external_body]
fn with_input<'a>(b: FfmpegBuilder<'a>, f: File<'a>) -> (r: FfmpegBuilder<'a>)
    ensures
        builder_options(r) == builder_options(b),
        builder_inputs(r) == builder_inputs(b) + file_options(f) + seq!["-i"@, file_url(f)],
        builder_outputs(r) == builder_outputs(b),
{
    b.input(f)
}

/// `ffmpeg_cli::FfmpegBuilder::output`: the same builder with one more
/// output, after those it has. On the command line an output is its options,
/// then its address.
#[verifier::external_body]
fn with_output<'a>(b: FfmpegBuilder<'a>, f: File<'a>) -> (r: FfmpegBuilder<'a>)
    ensures
        builder_options(r) == builder_options(b),
        builder_inputs(r) == builder_inputs(b),
        builder_outputs(r) == builder_outputs(b) + file_options(f) + seq![file_url(f)],
{
    b.output(f)
}

impl TranscodeInvocation {
    /// The builder whose command has exactly the arguments of this
    /// invocation: the seek is an option of the input, the duration and all
    /// the rest are options of the output. Whoever runs the builder may add
    /// options of their own to it, as the crate does to follow the progress.
    pub fn builder<'a>(&'a self) -> (r: FfmpegBuilder<'a>)
        ensures
            command_line(r) == self@.arguments(),
    {
        proof {
            reveal_strlit("-");
            reveal_strlit("hide_banner");
            reveal_strlit("-hide_banner");
            reveal_strlit("y");
            reveal_strlit("-y");
            reveal_strlit("ss");
            reveal_strlit("-ss");
            reveal_strlit("t");
            reveal_strlit("-t");
            reveal_strlit("vf");
            reveal_strlit("-vf");
            reveal_strlit("vsync");
            reveal_strlit("-vsync");
            reveal_strlit("frame_pts");
            reveal_strlit("-frame_pts");
            assert(seq!['-'] + "hide_banner"@ =~= "-hide_banner"@);
            assert(seq!['-'] + "y"@ =~= "-y"@);
            assert(seq!['-'] + "ss"@ =~= "-ss"@);
            assert(seq!['-'] + "t"@ =~= "-t"@);
            assert(seq!['-'] + "vf"@ =~= "-vf"@);
            assert(seq!['-'] + "vsync"@ =~= "-vsync"@);
            assert(seq!['-'] + "frame_pts"@ =~= "-frame_pts"@);
        }
        let mut input = file(self.input.as_str());
        match as_text(&self.seek) {
            Some(t) => {
                input = file_with(input, key_value("ss", t));
            },
            None => {},
        }
        let mut output = file(self.output.as_str());
        match as_text(&self.duration) {
            Some(d) => {
                output = file_with(output, key_value("t", d));
            },
            None => {},
        }
        output = file_with(output, key_value("vf", self.filter_chain.as_str()));
        output = file_with(output, key_value("vsync", "vfr"));
        output = file_with(output, key_value("frame_pts", "1"));
        let mut b = empty_builder();
        b = with_option(b, flag("hide_banner"));
        b = with_option(b, flag("y"));
        b = with_input(b, input);
        b = with_output(b, output);
        assert(command_line(b) =~= self@.arguments());
        b
    }
}

} // verus!
