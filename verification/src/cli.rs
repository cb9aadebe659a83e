//! Command-line arguments and the decisions taken on them before any
//! request is sent.

use vstd::prelude::*;
use crate::errors::MochifyError;
use crate::params::{ProcessParams, ProcessParamsView};
use crate::text::{copy_opt, owned, push_str, push_text, trim, trim_text};

verus! {

/// The command line of `mochify`.
#[derive(Debug)]
pub struct Args {
    pub command: Option<Commands>,
    /// Input image file(s)
    pub files: Vec<String>,
    /// Output format: jpg | png | webp | avif | jxl
    pub format: Option<String>,
    /// Target width in pixels
    pub width: Option<u32>,
    /// Target height in pixels
    pub height: Option<u32>,
    /// Crop to exact dimensions
    pub crop: bool,
    /// Rotation in degrees (0, 90, 180, 270)
    pub rotation: Option<u32>,
    /// Output directory [default: same directory as input]
    pub output: Option<String>,
    /// Base name for the output file (without extension)
    pub name: Option<String>,
    /// Apply clarity (midtone contrast enhancement)
    pub clarity: bool,
    /// Remove the image background (AI foreground isolation)
    pub remove_bg: bool,
    /// Composite background colour (e.g. "white", "black", "#ff0000").
    pub background: Option<String>,
    /// Preserve EXIF/metadata (GPS, timestamps, device info).
    pub keep_metadata: bool,
    /// Natural-language prompt — resolved through /v1/prompt
    pub prompt: Option<String>,
    /// PDF operation for .pdf inputs: split | rasterize
    pub op: Option<String>,
    /// PDF rasterize resolution in DPI [default: 150]
    pub dpi: Option<u32>,
    /// PDF rasterize quality for lossy formats (jpg/webp), 1–100
    pub quality: Option<u32>,
    /// API key for automation/CI
    pub api_key: Option<String>,
    /// Print raw API responses and response headers
    pub verbose: bool,
}

/// The subcommands of `mochify`.
#[derive(Debug, Clone, Copy, PartialEq, Eq)]
pub enum Commands {
    /// Start MCP server on stdio
    Serve,
    /// Show API usage for the current key
    Usage,
    /// Authenticate with Mochify via browser
    Auth { action: AuthAction },
}

/// The actions of `mochify auth`.
#[derive(Debug, Clone, Copy, PartialEq, Eq)]
pub enum AuthAction {
    /// Open browser to sign in and save credentials locally
    Login,
    /// Remove saved credentials
    Logout,
    /// Show current authentication status
    Status,
}

/// `Some(true)` when a flag is given, else unset.
pub open spec fn flag_param(flag: bool) -> Option<bool> {
    if flag {
        Some(true)
    } else {
        None
    }
}

/// The parameters given explicitly on the command line; these always win
/// over prompt-derived ones.
pub open spec fn explicit_view(args: Args) -> ProcessParamsView {
    ProcessParamsView {
        format: args.format.deep_view(),
        width: args.width,
        height: args.height,
        crop: flag_param(args.crop),
        rotation: args.rotation,
        out_name_suffix: None,
        output_name: args.name.deep_view(),
        clarity: flag_param(args.clarity),
        remove_background: flag_param(args.remove_bg),
        background: args.background.deep_view(),
        strip_exif: if args.keep_metadata {
            Some(false)
        } else {
            None
        },
    }
}

/// Explicit CLI flags as processing parameters.
pub fn explicit_params(args: &Args) -> (p: ProcessParams)
    ensures
        p@ == explicit_view(*args),
{
    ProcessParams {
        format: copy_opt(&args.format),
        width: args.width,
        height: args.height,
        crop: if args.crop {
            Some(true)
        } else {
            None
        },
        rotation: args.rotation,
        out_name_suffix: None,
        output_name: copy_opt(&args.name),
        clarity: if args.clarity {
            Some(true)
        } else {
            None
        },
        remove_background: if args.remove_bg {
            Some(true)
        } else {
            None
        },
        background: copy_opt(&args.background),
        strip_exif: if args.keep_metadata {
            Some(false)
        } else {
            None
        },
    }
}

/// The rotations the API accepts.
pub open spec fn valid_rotation(r: u32) -> bool {
    r == 0 || r == 90 || r == 180 || r == 270
}

/// Rejects rotations the API won't accept before doing any work.
pub fn check_rotation(rotation: Option<u32>) -> (r: Result<(), MochifyError>)
    ensures
        rotation is None || valid_rotation(rotation->0) ==> r is Ok,
        rotation is Some && !valid_rotation(rotation->0) ==> r == Err::<(), MochifyError>(
            MochifyError::InvalidRotation { rotation: rotation->0 },
        ),
{
    match rotation {
        Some(r) => {
            if r == 0 || r == 90 || r == 180 || r == 270 {
                Ok(())
            } else {
                Err(MochifyError::InvalidRotation { rotation: r })
            }
        },
        None => Ok(()),
    }
}

/// Which endpoint a batch of inputs goes to.
#[derive(Debug, Clone, Copy, PartialEq, Eq)]
pub enum InputKind {
    /// Images, processed through `/v1/squish`.
    Images,
    /// PDFs, processed through `/v1/pdf`.
    Pdfs,
}

/// The kind of a batch from which inputs are PDFs: images when none is,
/// PDFs when all are, and an error when the two are mixed.
pub open spec fn input_kind(pdf_flags: Seq<bool>) -> Result<InputKind, MochifyError> {
    if !pdf_flags.contains(true) {
        Ok(InputKind::Images)
    } else if pdf_flags.contains(false) {
        Err(MochifyError::MixedInputs)
    } else {
        Ok(InputKind::Pdfs)
    }
}

/// Routes a batch: `pdf_flags[i]` tells whether the `i`-th input is a PDF
/// (see `naming::is_pdf`). A single command can't mix the two modes.
pub fn classify_inputs(pdf_flags: &Vec<bool>) -> (r: Result<InputKind, MochifyError>)
    ensures
        r == input_kind(pdf_flags@),
{
    let mut any_pdf = false;
    let mut any_image = false;
    let mut i: usize = 0;
    while i < pdf_flags.len()
        invariant
            i <= pdf_flags.len(),
            any_pdf == pdf_flags@.take(i as int).contains(true),
            any_image == pdf_flags@.take(i as int).contains(false),
        decreases pdf_flags.len() - i,
    {
        let ghost prefix = pdf_flags@.take(i as int);
        assert(pdf_flags@.take(i + 1) =~= prefix.push(pdf_flags@[i as int]));
        if pdf_flags[i] {
            any_pdf = true;
        } else {
            any_image = true;
        }
        proof {
            let next = pdf_flags@.take(i + 1);
            if prefix.contains(true) {
                let k = choose|k: int| 0 <= k < prefix.len() && prefix[k] == true;
                assert(next[k] == true);
            }
            if prefix.contains(false) {
                let k = choose|k: int| 0 <= k < prefix.len() && prefix[k] == false;
                assert(next[k] == false);
            }
            assert(next[i as int] == pdf_flags@[i as int]);
            if next.contains(true) && !prefix.contains(true) {
                let k = choose|k: int| 0 <= k < next.len() && next[k] == true;
                if k < i {
                    assert(prefix[k] == true);
                }
            }
            if next.contains(false) && !prefix.contains(false) {
                let k = choose|k: int| 0 <= k < next.len() && next[k] == false;
                if k < i {
                    assert(prefix[k] == false);
                }
            }
        }
        i = i + 1;
    }
    assert(pdf_flags@.take(pdf_flags.len() as int) =~= pdf_flags@);
    if any_pdf {
        if any_image {
            Err(MochifyError::MixedInputs)
        } else {
            Ok(InputKind::Pdfs)
        }
    } else {
        Ok(InputKind::Images)
    }
}

/// The input paths read from standard input, one per line: each line
/// trimmed, blank lines skipped.
pub open spec fn paths_from_lines(lines: Seq<Seq<char>>) -> Seq<Seq<char>>
    decreases lines.len(),
{
    if lines.len() == 0 {
        Seq::empty()
    } else {
        let rest = paths_from_lines(lines.drop_last());
        let t = trim(lines.last());
        if t.len() == 0 {
            rest
        } else {
            rest.push(t)
        }
    }
}

/// Input paths from lines of standard input (e.g. `find . -name "*.jpg" | mochify -t webp`).
pub fn input_paths_from_lines(lines: &Vec<String>) -> (paths: Vec<String>)
    ensures
        paths.deep_view() == paths_from_lines(lines.deep_view()),
{
    let ghost ls = lines.deep_view();
    let mut paths: Vec<String> = Vec::new();
    assert(paths.deep_view() =~= Seq::<Seq<char>>::empty());
    let mut i: usize = 0;
    while i < lines.len()
        invariant
            ls == lines.deep_view(),
            i <= lines.len(),
            paths.deep_view() == paths_from_lines(ls.take(i as int)),
        decreases lines.len() - i,
    {
        let t = trim_text(lines[i].as_str());
        if !t.as_str().is_empty() {
            push_text(&mut paths, t);
        }
        assert(ls.take(i + 1).drop_last() =~= ls.take(i as int));
        assert(ls.take(i + 1).last() == lines@[i as int]@);
        i = i + 1;
    }
    assert(ls.take(lines.len() as int) =~= ls);
    paths
}

/// The label of a job in progress messages: the input file name followed by
/// the variant's suffix, if any.
pub fn variant_label(name: &str, suffix: &Option<String>) -> (r: String)
    ensures
        r@ == name@ + (if suffix is Some {
            suffix->0@
        } else {
            Seq::empty()
        }),
{
    let mut r = owned(name);
    if let Some(s) = suffix {
        push_str(&mut r, s.as_str());
    }
    proof {
        if suffix is None {
            assert(r@ =~= name@ + Seq::<char>::empty());
        }
    }
    r
}

} // verus!
