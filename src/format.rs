//! Format resolution: tokens and path extensions to `image` formats, and the
//! canonical extension of each format.
use vstd::prelude::*;
use vstd::string::*;
use image::ImageFormat;
use crate::error::{ErrorView, ImcoError};
use crate::naming::opt_view;
use crate::path::{extension_of, path_extension};

verus! {

/// Declares `image::ImageFormat` with its variants as `image` defines them,
/// so that formats can be compared and matched on in proofs.
#[verifier::external_type_specification]
pub struct ExImageFormat(ImageFormat);

/// ASCII lower-casing of one character; every other character is kept.
pub open spec fn lower_char(c: char) -> char {
    if 'A' <= c && c <= 'Z' {
        ((c as u32) + 32) as char
    } else {
        c
    }
}

/// ASCII lower-casing of a string.
pub open spec fn ascii_lower(s: Seq<char>) -> Seq<char> {
    s.map_values(|c: char| lower_char(c))
}

/// `image`'s table from a lower-case extension to its format.
pub open spec fn format_for_lower(e: Seq<char>) -> Option<ImageFormat> {
    if e == "avif"@ {
        Some(ImageFormat::Avif)
    } else if e == "jpg"@ || e == "jpeg"@ || e == "jfif"@ {
        Some(ImageFormat::Jpeg)
    } else if e == "png"@ || e == "apng"@ {
        Some(ImageFormat::Png)
    } else if e == "gif"@ {
        Some(ImageFormat::Gif)
    } else if e == "webp"@ {
        Some(ImageFormat::WebP)
    } else if e == "tif"@ || e == "tiff"@ {
        Some(ImageFormat::Tiff)
    } else if e == "tga"@ {
        Some(ImageFormat::Tga)
    } else if e == "dds"@ {
        Some(ImageFormat::Dds)
    } else if e == "bmp"@ {
        Some(ImageFormat::Bmp)
    } else if e == "ico"@ {
        Some(ImageFormat::Ico)
    } else if e == "hdr"@ {
        Some(ImageFormat::Hdr)
    } else if e == "exr"@ {
        Some(ImageFormat::OpenExr)
    } else if e == "pbm"@ || e == "pam"@ || e == "ppm"@ || e == "pgm"@ || e == "pnm"@ {
        Some(ImageFormat::Pnm)
    } else if e == "ff"@ {
        Some(ImageFormat::Farbfeld)
    } else if e == "qoi"@ {
        Some(ImageFormat::Qoi)
    } else {
        None
    }
}

/// The format of an extension, in any ASCII case.
pub open spec fn format_for_extension(e: Seq<char>) -> Option<ImageFormat> {
    format_for_lower(ascii_lower(e))
}

/// The extensions `image` lists for a format, the canonical one first.
pub open spec fn extensions_of(f: ImageFormat) -> Seq<Seq<char>> {
    match f {
        ImageFormat::Png => seq!["png"@],
        ImageFormat::Jpeg => seq!["jpg"@, "jpeg"@],
        ImageFormat::Gif => seq!["gif"@],
        ImageFormat::WebP => seq!["webp"@],
        ImageFormat::Pnm => seq!["pbm"@, "pam"@, "ppm"@, "pgm"@, "pnm"@],
        ImageFormat::Tiff => seq!["tiff"@, "tif"@],
        ImageFormat::Tga => seq!["tga"@],
        ImageFormat::Dds => seq!["dds"@],
        ImageFormat::Bmp => seq!["bmp"@],
        ImageFormat::Ico => seq!["ico"@],
        ImageFormat::Hdr => seq!["hdr"@],
        ImageFormat::OpenExr => seq!["exr"@],
        ImageFormat::Farbfeld => seq!["ff"@],
        ImageFormat::Avif => seq!["avif"@],
        ImageFormat::Qoi => seq!["qoi"@],
        // `Pcx`, the one variant left.
        _ => seq!["pcx"@],
    }
}

/// The extension used when naming a file of format `f`.
pub open spec fn canonical_ext(f: ImageFormat) -> Seq<char> {
    extensions_of(f)[0]
}

/// Relies on `ImageFormat::from_extension`: it lower-cases the extension
/// (ASCII only) and looks it up in the table above.
#[verifier::external_body]
fn format_from_extension(ext: &str) -> (r: Option<ImageFormat>)
    ensures
        r == format_for_extension(ext@),
{
    ImageFormat::from_extension(ext)
}

/// Relies on `ImageFormat::extensions_str`: the extensions listed above.
pub assume_specification[ ImageFormat::extensions_str ](f: ImageFormat) -> (r: &'static [&'static str])
    ensures
        r@.len() == extensions_of(f).len(),
        forall|i: int| 0 <= i < r@.len() ==> #[trigger] r@[i]@ == extensions_of(f)[i],
;

/// The canonical extension of a format.
pub fn canonical_extension(f: ImageFormat) -> (r: &'static str)
    ensures
        r@ == canonical_ext(f),
{
    let exts = f.extensions_str();
    assert(exts@.len() > 0);
    exts[0]
}

/// The format a bare extension names, in any ASCII case: `image`'s table
/// without `pnm`, which is not among the accepted names, and with `pcx`,
/// which that table leaves out.
pub open spec fn format_named(e: Seq<char>) -> Option<ImageFormat> {
    if ascii_lower(e) == "pnm"@ {
        None
    } else {
        match format_for_extension(e) {
            Some(f) => Some(f),
            None => if ascii_lower(e) == "pcx"@ {
                Some(ImageFormat::Pcx)
            } else {
                None
            },
        }
    }
}

/// Whether `t` is `pcx` in some ASCII case.
fn is_pcx(t: &str) -> (r: bool)
    ensures
        r == (ascii_lower(t@) == "pcx"@),
{
    proof {
        reveal_strlit("pcx");
    }
    let n = t.unicode_len();
    if n != 3 {
        assert(ascii_lower(t@).len() != "pcx"@.len());
        return false;
    }
    let a = t.get_char(0);
    let b = t.get_char(1);
    let c = t.get_char(2);
    let r = (a == 'p' || a == 'P') && (b == 'c' || b == 'C') && (c == 'x' || c == 'X');
    assert(ascii_lower(t@)[0] == lower_char(a));
    assert(ascii_lower(t@)[1] == lower_char(b));
    assert(ascii_lower(t@)[2] == lower_char(c));
    if r {
        assert(ascii_lower(t@) =~= "pcx"@);
    }
    r
}

/// Whether `t` is `pnm` in some ASCII case.
fn is_pnm(t: &str) -> (r: bool)
    ensures
        r == (ascii_lower(t@) == "pnm"@),
{
    proof {
        reveal_strlit("pnm");
    }
    let n = t.unicode_len();
    if n != 3 {
        assert(ascii_lower(t@).len() != "pnm"@.len());
        return false;
    }
    let a = t.get_char(0);
    let b = t.get_char(1);
    let c = t.get_char(2);
    let r = (a == 'p' || a == 'P') && (b == 'n' || b == 'N') && (c == 'm' || c == 'M');
    assert(ascii_lower(t@)[0] == lower_char(a));
    assert(ascii_lower(t@)[1] == lower_char(b));
    assert(ascii_lower(t@)[2] == lower_char(c));
    if r {
        assert(ascii_lower(t@) =~= "pnm"@);
    }
    r
}

/// The format a bare extension names, in any ASCII case.
#[allow(deprecated)]
pub fn format_of_extension(ext: &str) -> (r: Option<ImageFormat>)
    ensures
        r == format_named(ext@),
{
    if is_pnm(ext) {
        return None;
    }
    match format_from_extension(ext) {
        Some(f) => Some(f),
        None => if is_pcx(ext) {
            Some(ImageFormat::Pcx)
        } else {
            None
        },
    }
}

/// A token with one leading dot removed.
pub open spec fn strip_dot(t: Seq<char>) -> Seq<char> {
    if t.len() > 0 && t[0] == '.' {
        t.drop_first()
    } else {
        t
    }
}

/// The format a user-supplied token names.
pub open spec fn resolve_token(t: Seq<char>) -> Option<ImageFormat> {
    format_named(strip_dot(t))
}

/// The format a path's extension names.
pub open spec fn format_of_path(p: Seq<char>) -> Option<ImageFormat> {
    format_of_ext(path_extension(p))
}

/// The format a path's extension, if it has one, names.
pub open spec fn format_of_ext(ext: Option<Seq<char>>) -> Option<ImageFormat> {
    match ext {
        Some(e) => format_named(e),
        None => None,
    }
}

/// Resolves a format token such as `png`, `.PNG` or `jpeg`.
pub fn mk_format(f: &String) -> (r: Result<ImageFormat, ImcoError>)
    ensures
        match resolve_token(f@) {
            Some(g) => r == Ok::<ImageFormat, ImcoError>(g),
            None => r is Err && r->Err_0@ == ErrorView::InvalidFormat(f@),
        },
{
    let n = f.as_str().unicode_len();
    let token = if n > 0 && f.as_str().get_char(0) == '.' {
        f.as_str().substring_char(1, n)
    } else {
        f.as_str()
    };
    assert(token@ == strip_dot(f@));
    match format_of_extension(token) {
        Some(g) => Ok(g),
        None => Err(ImcoError::InvalidFormat(f.clone())),
    }
}

/// Infers the format of a path from its extension.
pub fn mk_format_fp(f: &String) -> (r: Result<ImageFormat, ImcoError>)
    ensures
        match format_of_path(f@) {
            Some(g) => r == Ok::<ImageFormat, ImcoError>(g),
            None => r is Err && r->Err_0@ == ErrorView::InvalidFormat(f@),
        },
{
    format_from_path_extension(f, extension_of(f.as_str()))
}

/// The format of path `f` whose extension is `ext`: an error naming the path
/// when it has none or the extension names no format.
pub fn format_from_path_extension(f: &String, ext: Option<String>) -> (r: Result<
    ImageFormat,
    ImcoError,
>)
    ensures
        match format_of_ext(opt_view(ext)) {
            Some(g) => r == Ok::<ImageFormat, ImcoError>(g),
            None => r is Err && r->Err_0@ == ErrorView::InvalidFormat(f@),
        },
{
    match ext {
        Some(e) => match format_of_extension(e.as_str()) {
            Some(g) => Ok(g),
            None => Err(ImcoError::InvalidFormat(f.clone())),
        },
        None => Err(ImcoError::InvalidFormat(f.clone())),
    }
}

/// Format tokens are read without regard to ASCII case: two tokens that agree
/// once lower-cased name the same format, or are both rejected.
pub proof fn lemma_resolve_ignores_case(a: Seq<char>, b: Seq<char>)
    requires
        ascii_lower(a) == ascii_lower(b),
    ensures
        resolve_token(a) == resolve_token(b),
{
    assert(a.len() == ascii_lower(a).len());
    assert(b.len() == ascii_lower(b).len());
    if a.len() > 0 {
        assert(ascii_lower(a)[0] == lower_char(a[0]));
        assert(ascii_lower(b)[0] == lower_char(b[0]));
        assert((a[0] == '.') == (b[0] == '.'));
        if a[0] == '.' {
            assert(ascii_lower(a.drop_first()) =~= ascii_lower(a).drop_first());
            assert(ascii_lower(b.drop_first()) =~= ascii_lower(b).drop_first());
        }
    }
}

/// A format token names the same format with or without one leading dot.
pub proof fn lemma_resolve_ignores_dot(t: Seq<char>)
    requires
        t.len() == 0 || t[0] != '.',
    ensures
        resolve_token(seq!['.'] + t) == resolve_token(t),
{
    assert((seq!['.'] + t).drop_first() =~= t);
}

} // verus!
