use image::ImageFormat;
use imco::error::ImcoError;
use imco::format::{
    canonical_extension, format_from_path_extension, format_of_extension, mk_format, mk_format_fp,
};
use imco::naming::mk_filename;

fn fmt(s: &str) -> Result<ImageFormat, ImcoError> {
    mk_format(&s.to_string())
}

fn invalid_token(r: Result<ImageFormat, ImcoError>) -> Option<String> {
    match r {
        Err(ImcoError::InvalidFormat(t)) => Some(t),
        _ => None,
    }
}

#[test]
fn resolve_plain_tokens() {
    assert_eq!(fmt("png").unwrap(), ImageFormat::Png);
    assert_eq!(fmt("jpg").unwrap(), ImageFormat::Jpeg);
    assert_eq!(fmt("jfif").unwrap(), ImageFormat::Jpeg);
    assert_eq!(fmt("apng").unwrap(), ImageFormat::Png);
    assert_eq!(fmt("tif").unwrap(), ImageFormat::Tiff);
    assert_eq!(fmt("pgm").unwrap(), ImageFormat::Pnm);
    assert_eq!(fmt("exr").unwrap(), ImageFormat::OpenExr);
    assert_eq!(fmt("ff").unwrap(), ImageFormat::Farbfeld);
    assert_eq!(fmt("qoi").unwrap(), ImageFormat::Qoi);
    assert_eq!(fmt("webp").unwrap(), ImageFormat::WebP);
}

#[test]
fn resolve_ignores_case_and_leading_dot() {
    for t in ["png", ".png", "PNG", ".PNG", "Png", ".pNg"] {
        assert_eq!(fmt(t).unwrap(), ImageFormat::Png, "token {t}");
    }
    assert_eq!(fmt(".JPEG").unwrap(), ImageFormat::Jpeg);
}

#[test]
fn resolve_rejects_unknown_token() {
    assert_eq!(invalid_token(fmt("zzz")), Some("zzz".to_string()));
    assert_eq!(invalid_token(fmt("")), Some("".to_string()));
    assert_eq!(invalid_token(fmt("..png")), Some("..png".to_string()));
    assert_eq!(invalid_token(fmt(".")), Some(".".to_string()));
}

#[test]
fn format_inferred_from_path_extension() {
    assert_eq!(mk_format_fp(&"out/pic.PNG".to_string()).unwrap(), ImageFormat::Png);
    assert_eq!(mk_format_fp(&"a.b.webp".to_string()).unwrap(), ImageFormat::WebP);
    assert_eq!(
        invalid_token(mk_format_fp(&"noext".to_string())),
        Some("noext".to_string())
    );
    assert_eq!(
        invalid_token(mk_format_fp(&"pic.zzz".to_string())),
        Some("pic.zzz".to_string())
    );
    assert_eq!(
        invalid_token(mk_format_fp(&".png".to_string())),
        Some(".png".to_string())
    );
}

#[test]
fn canonical_extensions() {
    assert_eq!(canonical_extension(ImageFormat::Jpeg), "jpg");
    assert_eq!(canonical_extension(ImageFormat::Tiff), "tiff");
    assert_eq!(canonical_extension(ImageFormat::Pnm), "pbm");
    assert_eq!(canonical_extension(ImageFormat::WebP), "webp");
}

#[test]
#[allow(deprecated)]
fn resolve_pcx_in_any_form() {
    for t in ["pcx", "PCX", ".pcx", ".Pcx"] {
        assert_eq!(fmt(t).unwrap(), ImageFormat::Pcx, "token {t}");
    }
    assert_eq!(mk_format_fp(&"pic.PCX".to_string()).unwrap(), ImageFormat::Pcx);
    assert_eq!(format_of_extension("pcx"), Some(ImageFormat::Pcx));
    assert_eq!(format_of_extension("pcxx"), None);
    assert_eq!(format_of_extension("JpEg"), Some(ImageFormat::Jpeg));
}

#[test]
#[allow(deprecated)]
fn derived_names_resolve_back() {
    let all = [
        ImageFormat::Png, ImageFormat::Jpeg, ImageFormat::Gif, ImageFormat::WebP, ImageFormat::Pnm,
        ImageFormat::Tiff, ImageFormat::Tga, ImageFormat::Dds, ImageFormat::Bmp, ImageFormat::Ico,
        ImageFormat::Hdr, ImageFormat::OpenExr, ImageFormat::Farbfeld, ImageFormat::Avif,
        ImageFormat::Qoi, ImageFormat::Pcx,
    ];
    for f in all {
        let name = mk_filename(&"dir/photo.jpg".to_string(), f);
        assert_eq!(mk_format_fp(&name).unwrap(), f, "name {name}");
    }
}

#[test]
fn format_from_given_extension() {
    let p = "whatever".to_string();
    assert_eq!(format_from_path_extension(&p, Some("TIF".to_string())).unwrap(), ImageFormat::Tiff);
    assert_eq!(invalid_token(format_from_path_extension(&p, None)), Some(p.clone()));
    assert_eq!(invalid_token(format_from_path_extension(&p, Some("zz".to_string()))), Some(p.clone()));
}

#[test]
fn resolve_rejects_pnm() {
    for t in ["pnm", "PNM", ".pnm", ".Pnm"] {
        assert_eq!(invalid_token(fmt(t)), Some(t.to_string()), "token {t}");
    }
    assert_eq!(invalid_token(mk_format_fp(&"a.pnm".to_string())), Some("a.pnm".to_string()));
    assert_eq!(format_of_extension("pNm"), None);
    assert_eq!(fmt("ppm").unwrap(), ImageFormat::Pnm);
    assert_eq!(fmt("PAM").unwrap(), ImageFormat::Pnm);
}
