//! Output naming: where each converted file goes, and in which format.
use vstd::prelude::*;
use vstd::string::*;
use image::ImageFormat;
use crate::error::{ErrorView, ImcoError};
use crate::format::{canonical_ext, canonical_extension, format_of_path, mk_format_fp};
use crate::path::{file_stem_of, joined, path_joined, path_stem};

verus! {

/// The file name derived from `input` for format `fmt`: the input's stem with
/// the canonical extension, or, with no stem, the whole input with the
/// extension appended.
pub open spec fn filename_for(input: Seq<char>, fmt: ImageFormat) -> Seq<char> {
    name_from_stem(input, path_stem(input), fmt)
}

/// The file name for `input`, whose stem is `stem`, in format `fmt`.
pub open spec fn name_from_stem(input: Seq<char>, stem: Option<Seq<char>>, fmt: ImageFormat) -> Seq<
    char,
> {
    match stem {
        Some(stem) => stem + "."@ + canonical_ext(fmt),
        None => input + canonical_ext(fmt),
    }
}

/// Derives an output file name from the input's stem and the format.
pub fn mk_filename(p: &String, fmt: ImageFormat) -> (r: String)
    ensures
        r@ == filename_for(p@, fmt),
{
    filename_from_stem(p, file_stem_of(p.as_str()), fmt)
}

/// The file name for `p`, whose stem is `stem`, in format `fmt`: the stem
/// with the canonical extension, or with no stem the whole of `p` with the
/// extension appended.
pub fn filename_from_stem(p: &String, stem: Option<String>, fmt: ImageFormat) -> (r: String)
    ensures
        r@ == name_from_stem(p@, opt_view(stem), fmt),
{
    let ext = canonical_extension(fmt);
    match stem {
        Some(stem) => {
            let mut s = stem;
            s.append(".");
            s.append(ext);
            s
        },
        None => {
            let mut s = p.clone();
            s.append(ext);
            s
        },
    }
}

/// Places the derived file name for `p` under the directory `stem`.
pub fn join_path(p: &String, fmt: ImageFormat, stem: &String) -> (r: String)
    ensures
        r@ == path_joined(stem@, filename_for(p@, fmt)),
{
    let name = mk_filename(p, fmt);
    joined(stem.as_str(), name.as_str())
}

/// Where the conversion of `input` writes, and in which format: an error when
/// no destination can be determined.
pub open spec fn destination_of(
    input: Seq<char>,
    output: Option<Seq<char>>,
    o_fmt: Option<ImageFormat>,
    batch: bool,
) -> Result<(Seq<char>, ImageFormat), ErrorView> {
    match o_fmt {
        Some(fmt) => {
            let name = filename_for(input, fmt);
            match output {
                Some(o) => if batch {
                    Ok((path_joined(o, name), fmt))
                } else {
                    Ok((o, fmt))
                },
                None => Ok((name, fmt)),
            }
        },
        None => match output {
            None => Err(ErrorView::NoDestFormat),
            Some(o) => if batch {
                Err(ErrorView::InvalidBatching)
            } else {
                match format_of_path(o) {
                    Some(f) => Ok((o, f)),
                    None => Err(ErrorView::InvalidFormat(o)),
                }
            },
        },
    }
}

/// `destination_of` on executable values.
pub open spec fn destination_matches(
    r: Result<(String, ImageFormat), ImcoError>,
    d: Result<(Seq<char>, ImageFormat), ErrorView>,
) -> bool {
    match r {
        Ok((path, fmt)) => d == Ok::<(Seq<char>, ImageFormat), ErrorView>((path@, fmt)),
        Err(e) => d == Err::<(Seq<char>, ImageFormat), ErrorView>(e@),
    }
}

/// The view of an optional string.
pub open spec fn opt_view(o: Option<String>) -> Option<Seq<char>> {
    match o {
        Some(s) => Some(s@),
        None => None,
    }
}

/// Decides the output path and format of one conversion. With an output
/// format, an output path is kept as given, or in batch mode taken as the
/// directory under which a name is derived from the input; with no output the
/// derived name stands alone. Without an output format, batch mode is refused,
/// and the output path must be given and its extension names the format.
pub fn derive_destination(
    input: &String,
    output: &Option<String>,
    o_fmt: Option<ImageFormat>,
    batch: bool,
) -> (r: Result<(String, ImageFormat), ImcoError>)
    ensures
        destination_matches(r, destination_of(input@, opt_view(*output), o_fmt, batch)),
{
    match o_fmt {
        Some(fmt) => match output {
            Some(o) => if batch {
                Ok((join_path(input, fmt, o), fmt))
            } else {
                Ok((o.clone(), fmt))
            },
            None => Ok((mk_filename(input, fmt), fmt)),
        },
        None => match output {
            None => Err(ImcoError::NoDestFormat),
            Some(o) => if batch {
                Err(ImcoError::InvalidBatching)
            } else {
                match mk_format_fp(o) {
                    Ok(f) => Ok((o.clone(), f)),
                    Err(e) => Err(e),
                }
            },
        },
    }
}

} // verus!
