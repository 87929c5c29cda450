//! The download tool's arguments, and where the video goes.
//!
//! The download tool is started through the `youtube_dl` crate, whose builder
//! is opaque to the verifier. What is said here of its functions is taken from
//! their source and believed, not proved: each function below that is marked
//! `external_body` says in its comment what it claims.

use vstd::prelude::*;
use youtube_dl::YoutubeDl;
use crate::text::{join_path, joined, push_text, texts};

verus! {

/// The format choice handed to the download tool: the best video and audio
/// pair that is already MP4 and M4A, else the best single MP4 stream, else the
/// best of any format.
pub open spec fn format_selector() -> Seq<char> {
    "bv*[ext=mp4]+ba[ext=m4a]/b[ext=mp4]/best"@
}

/// The name of the video inside a temporary directory.
pub open spec fn ephemeral_file_name() -> Seq<char> {
    "video.mp4"@
}

/// The arguments that make the download tool write to `target`, choose by
/// [`format_selector`], and repackage the result as MP4 without encoding it
/// again.
pub open spec fn download_argument_texts(target: Seq<char>) -> Seq<Seq<char>> {
    seq!["-o"@, target, "-f"@, format_selector(), "--remux-video"@, "mp4"@]
}

/// The arguments for the download tool, besides the address of the video.
pub fn download_arguments(target: &str) -> (r: Vec<String>)
    ensures
        texts(r@) == download_argument_texts(target@),
{
    let mut r: Vec<String> = Vec::new();
    assert(texts(r@) =~= Seq::empty());
    push_text(&mut r, "-o");
    push_text(&mut r, target);
    push_text(&mut r, "-f");
    push_text(&mut r, "bv*[ext=mp4]+ba[ext=m4a]/b[ext=mp4]/best");
    push_text(&mut r, "--remux-video");
    push_text(&mut r, "mp4");
    assert(texts(r@) =~= download_argument_texts(target@));
    r
}

#[verifier::external_type_specification]
#[verifier::external_body]
pub struct ExYoutubeDl(YoutubeDl);

/// The address that a download builder was made for.
pub uninterp spec fn downloader_url(y: YoutubeDl) -> Seq<char>;

/// The additional arguments that a download builder holds, in the order in
/// which they were added.
pub uninterp spec fn downloader_extra_args(y: YoutubeDl) -> Seq<Seq<char>>;

/// `youtube_dl::YoutubeDl::new`: a builder for the given address, with no
/// additional arguments.
#[verifier::external_body]
fn new_downloader(url: &str) -> (r: YoutubeDl)
    ensures
        downloader_url(r) == url@,
        downloader_extra_args(r) == Seq::<Seq<char>>::empty(),
{
    YoutubeDl::new(url)
}

/// `youtube_dl::YoutubeDl::extra_arg`: adds one argument after those that
/// the builder holds, and leaves the address as it is.
#[verifier::external_body]
fn add_extra_arg(y: &mut YoutubeDl, arg: &str)
    ensures
        downloader_url(*final(y)) == downloader_url(*old(y)),
        downloader_extra_args(*final(y)) == downloader_extra_args(*old(y)).push(arg@),
{
    y.extra_arg(arg);
}

/// The builder that downloads the video at `url` to `target`, with the
/// arguments of [`download_arguments`].
pub fn downloader(url: &str, target: &str) -> (r: YoutubeDl)
    ensures
        downloader_url(r) == url@,
        downloader_extra_args(r) == download_argument_texts(target@),
{
    let args = download_arguments(target);
    let mut y = new_downloader(url);
    let mut i: usize = 0;
    while i < args.len()
        invariant
            i <= args.len(),
            downloader_url(y) == url@,
            downloader_extra_args(y) == texts(args@).subrange(0, i as int),
        decreases args.len() - i,
    {
        add_extra_arg(&mut y, args[i].as_str());
        assert(texts(args@).subrange(0, i + 1) =~= texts(args@).subrange(0, i as int).push(
            args[i as int]@,
        ));
        i = i + 1;
    }
    assert(texts(args@).subrange(0, i as int) =~= texts(args@));
    y
}

/// Where the downloaded video is to be written.
pub open spec fn video_target_text(
    keep_video: bool,
    video_path: Seq<char>,
    scope_dir: Seq<char>,
) -> Seq<char> {
    if keep_video {
        video_path
    } else {
        joined(scope_dir, ephemeral_file_name())
    }
}

/// Where the downloaded video is to be written: at `video_path` if it is to
/// be kept, else under a fixed name inside the temporary directory
/// `scope_dir`, which is not looked at when the video is kept.
pub fn video_target(keep_video: bool, video_path: &str, scope_dir: &str) -> (r: String)
    ensures
        r@ == video_target_text(keep_video, video_path@, scope_dir@),
{
    if keep_video {
        String::from_str(video_path)
    } else {
        join_path(scope_dir, "video.mp4")
    }
}

} // verus!
