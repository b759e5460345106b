use image::ImageFormat;
use imco::error::ImcoError;
use imco::naming::{derive_destination, filename_from_stem, join_path, mk_filename};

fn s(v: &str) -> String {
    v.to_string()
}

#[test]
fn derived_name_uses_stem_and_extension() {
    assert_eq!(mk_filename(&s("photo.jpg"), ImageFormat::Png), "photo.png");
    assert_eq!(mk_filename(&s("dir/photo.jpg"), ImageFormat::Jpeg), "photo.jpg");
    assert_eq!(mk_filename(&s("archive.tar.gz"), ImageFormat::Tiff), "archive.tar.tiff");
}

#[test]
fn derived_name_without_stem_appends_extension() {
    assert_eq!(mk_filename(&s(".."), ImageFormat::Png), "..png");
    assert_eq!(mk_filename(&s(""), ImageFormat::Gif), "gif");
}

#[test]
fn batch_name_goes_under_directory() {
    assert_eq!(join_path(&s("dir/photo.jpg"), ImageFormat::WebP, &s("out")), "out/photo.webp");
    assert_eq!(join_path(&s("a.png"), ImageFormat::Bmp, &s("out/")), "out/a.bmp");
}

#[test]
fn destination_without_output_is_derived() {
    let (p, f) = derive_destination(&s("photo.jpg"), &None, Some(ImageFormat::Png), false).unwrap();
    assert_eq!(p, "photo.png");
    assert_eq!(f, ImageFormat::Png);
}

#[test]
fn destination_in_batch_joins_directory() {
    let (p, f) =
        derive_destination(&s("dir/photo.jpg"), &Some(s("out")), Some(ImageFormat::WebP), true)
            .unwrap();
    assert_eq!(p, "out/photo.webp");
    assert_eq!(f, ImageFormat::WebP);
}

#[test]
fn destination_explicit_path_with_format_is_kept() {
    let (p, f) =
        derive_destination(&s("a.png"), &Some(s("b.dat")), Some(ImageFormat::Bmp), false).unwrap();
    assert_eq!(p, "b.dat");
    assert_eq!(f, ImageFormat::Bmp);
}

#[test]
fn destination_format_inferred_from_output_path() {
    let (p, f) = derive_destination(&s("a.png"), &Some(s("b.JPEG")), None, false).unwrap();
    assert_eq!(p, "b.JPEG");
    assert_eq!(f, ImageFormat::Jpeg);
}

#[test]
fn destination_with_unknown_output_extension() {
    match derive_destination(&s("a.png"), &Some(s("b.zzz")), None, false) {
        Err(ImcoError::InvalidFormat(t)) => assert_eq!(t, "b.zzz"),
        other => panic!("unexpected {other:?}"),
    }
}

#[test]
fn destination_batch_without_format_is_refused() {
    for out in ["out", "out.png", "x/y.jpg"] {
        let r = derive_destination(&s("a.png"), &Some(s(out)), None, true);
        assert!(matches!(r, Err(ImcoError::InvalidBatching)), "output {out}");
    }
}

#[test]
fn destination_absent_is_refused() {
    assert!(matches!(
        derive_destination(&s("a.png"), &None, None, false),
        Err(ImcoError::NoDestFormat)
    ));
    assert!(matches!(
        derive_destination(&s("a.png"), &None, None, true),
        Err(ImcoError::NoDestFormat)
    ));
}

#[test]
fn name_from_given_stem() {
    assert_eq!(filename_from_stem(&s("x/y.jpg"), Some(s("y")), ImageFormat::Png), "y.png");
    assert_eq!(filename_from_stem(&s("x/y.jpg"), None, ImageFormat::Png), "x/y.jpgpng");
}
