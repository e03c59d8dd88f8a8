use mdcopy::config::ImageConfig;
use mdcopy::image::{
    EmbeddedImage, FetchOutcome, ImageError, LoadPlan, ReadOutcome, guess_mime_type_from_data,
    guess_mime_type_from_path, is_data_url, is_remote_url, load_image_with_fallback, plan_load,
    resolve_fetch, resolve_local_read,
};

fn config_embed_local() -> ImageConfig {
    ImageConfig {
        embed_local: true,
        embed_remote: false,
        optimize_local: false,
        optimize_remote: false,
        max_dimension: 1200,
        quality: 80,
    }
}

fn config_embed_all() -> ImageConfig {
    ImageConfig {
        embed_local: true,
        embed_remote: true,
        optimize_local: false,
        optimize_remote: false,
        max_dimension: 1200,
        quality: 80,
    }
}

fn config_embed_none() -> ImageConfig {
    ImageConfig {
        embed_local: false,
        embed_remote: false,
        optimize_local: false,
        optimize_remote: false,
        max_dimension: 1200,
        quality: 80,
    }
}

#[test]
fn test_is_remote_url() {
    assert!(is_remote_url("http://example.com/image.png"));
    assert!(is_remote_url("https://example.com/image.png"));
    assert!(is_remote_url("//example.com/image.png"));
    assert!(!is_remote_url("image.png"));
    assert!(!is_remote_url("./images/photo.jpg"));
    assert!(!is_remote_url("/absolute/path/image.png"));
}

#[test]
fn test_is_data_url() {
    assert!(is_data_url("data:image/png;base64,iVBORw0KGgo="));
    assert!(is_data_url("data:text/plain,hello"));
    assert!(!is_data_url("http://example.com"));
    assert!(!is_data_url("image.png"));
}

#[test]
fn test_guess_mime_type_from_data_png() {
    let png_header = [0x89, b'P', b'N', b'G', 0x0D, 0x0A, 0x1A, 0x0A];
    assert_eq!(guess_mime_type_from_data(&png_header), "image/png");
}

#[test]
fn test_guess_mime_type_from_data_jpeg() {
    let jpeg_header = [0xFF, 0xD8, 0xFF, 0xE0];
    assert_eq!(guess_mime_type_from_data(&jpeg_header), "image/jpeg");
}

#[test]
fn test_guess_mime_type_from_data_gif() {
    assert_eq!(guess_mime_type_from_data(b"GIF87a..."), "image/gif");
    assert_eq!(guess_mime_type_from_data(b"GIF89a..."), "image/gif");
}

#[test]
fn test_guess_mime_type_from_data_webp() {
    // WEBP format: RIFF....WEBP (12+ bytes with WEBP at offset 8)
    let webp_header = b"RIFF\x00\x00\x00\x00WEBPmore";
    assert_eq!(guess_mime_type_from_data(webp_header), "image/webp");
}

#[test]
fn test_guess_mime_type_from_data_webp_exact_twelve_bytes() {
    // The twelve bytes RIFF....WEBP alone already identify the format.
    let webp_header = b"RIFF\x00\x00\x00\x00WEBP";
    assert_eq!(webp_header.len(), 12);
    assert_eq!(guess_mime_type_from_data(webp_header), "image/webp");
}

#[test]
fn test_guess_mime_type_from_data_bmp() {
    assert_eq!(guess_mime_type_from_data(b"BM..."), "image/bmp");
}

#[test]
fn test_guess_mime_type_from_data_ico() {
    assert_eq!(guess_mime_type_from_data(&[0x00, 0x00, 0x01, 0x00, 0x01]), "image/x-icon");
}

#[test]
fn test_guess_mime_type_from_data_unknown() {
    assert_eq!(guess_mime_type_from_data(b"unknown data"), "application/octet-stream");
}

#[test]
fn test_guess_mime_type_from_path_by_extension() {
    let unknown_data = b"unknown";
    assert_eq!(guess_mime_type_from_path("image.png", unknown_data), "image/png");
    assert_eq!(guess_mime_type_from_path("photo.jpg", unknown_data), "image/jpeg");
    assert_eq!(guess_mime_type_from_path("photo.jpeg", unknown_data), "image/jpeg");
    assert_eq!(guess_mime_type_from_path("anim.gif", unknown_data), "image/gif");
    assert_eq!(guess_mime_type_from_path("icon.svg", unknown_data), "image/svg+xml");
}

#[test]
fn test_guess_mime_type_prefers_magic_bytes() {
    // PNG magic bytes but .jpg extension - should detect as PNG
    let png_header = [0x89, b'P', b'N', b'G', 0x0D, 0x0A, 0x1A, 0x0A];
    assert_eq!(guess_mime_type_from_path("wrong.jpg", &png_header), "image/png");
}

#[test]
fn test_guess_mime_type_extension_edge_names() {
    let unknown_data = b"unknown";
    // A dotless name, a hidden file, and a dotted directory have no extension.
    assert_eq!(guess_mime_type_from_path("noext", unknown_data), "application/octet-stream");
    assert_eq!(guess_mime_type_from_path(".png", unknown_data), "application/octet-stream");
    assert_eq!(guess_mime_type_from_path("dir.png/file", unknown_data), "application/octet-stream");
    // Only the final component's last dot counts.
    assert_eq!(guess_mime_type_from_path("a.tar/b.c.png", unknown_data), "image/png");
}

#[test]
fn test_embedded_image_to_data_url() {
    let img = EmbeddedImage {
        data: vec![1, 2, 3, 4],
        mime_type: "image/png".to_string(),
    };
    let data_url = img.to_data_url();
    assert!(data_url.starts_with("data:image/png;base64,"));
    assert_eq!(data_url, "data:image/png;base64,AQIDBA==");
}

#[test]
fn test_embedded_image_to_rtf_hex() {
    let img = EmbeddedImage {
        data: vec![0x00, 0xFF, 0xAB, 0x12],
        mime_type: "image/png".to_string(),
    };
    assert_eq!(img.to_rtf_hex(), "00ffab12");
}

#[test]
fn test_embedded_image_rtf_format() {
    let png = EmbeddedImage { data: vec![], mime_type: "image/png".to_string() };
    assert_eq!(png.rtf_format(), Some("\\pngblip"));

    let jpeg = EmbeddedImage { data: vec![], mime_type: "image/jpeg".to_string() };
    assert_eq!(jpeg.rtf_format(), Some("\\jpegblip"));

    let gif = EmbeddedImage { data: vec![], mime_type: "image/gif".to_string() };
    assert_eq!(gif.rtf_format(), None);

    let webp = EmbeddedImage { data: vec![], mime_type: "image/webp".to_string() };
    assert_eq!(webp.rtf_format(), None);
}

#[test]
fn test_load_image_embed_none() {
    // With embedding fully disabled no I/O is planned for any reference.
    let plan = plan_load("image.png", ".", &config_embed_none());
    assert!(matches!(plan, LoadPlan::Skip));
}

#[test]
fn test_load_image_data_url_skipped() {
    let plan = plan_load("data:image/png;base64,abc", ".", &config_embed_all());
    assert!(matches!(plan, LoadPlan::Skip));
}

#[test]
fn test_load_image_remote_url_skipped_in_local_mode() {
    let plan = plan_load("https://example.com/image.png", ".", &config_embed_local());
    assert!(matches!(plan, LoadPlan::Skip));
}

#[test]
fn test_plan_load_local_joins_base_dir() {
    // The scenario of an embeddable local reference: base directory
    // /tmp/x and reference diagram.png plan one read of the joined
    // path, and a file holding exactly the 8-byte PNG signature loads
    // as image/png with 8 bytes of data.
    let plan = plan_load("diagram.png", "/tmp/x", &config_embed_local());
    match plan {
        LoadPlan::ReadLocal(path) => {
            assert_eq!(path, "/tmp/x/diagram.png");
            let sig = vec![0x89, b'P', b'N', b'G', 0x0D, 0x0A, 0x1A, 0x0A];
            let img = resolve_local_read(&path, ReadOutcome::Bytes(sig)).unwrap();
            assert_eq!(img.mime_type, "image/png");
            assert_eq!(img.data.len(), 8);
        }
        other => panic!("expected a local read, got {:?}", other),
    }
}

#[test]
fn test_plan_load_remote_rewrites_protocol_relative() {
    let plan = plan_load("//example.com/pic.png", ".", &config_embed_all());
    match plan {
        LoadPlan::Fetch(url) => assert_eq!(url, "https://example.com/pic.png"),
        other => panic!("expected a fetch, got {:?}", other),
    }
}

#[test]
fn test_resolve_local_read_not_found() {
    let r = resolve_local_read("/tmp/x/nonexistent.png", ReadOutcome::Missing);
    assert!(matches!(r, Err(ImageError::NotFound(_))));
}

#[test]
fn test_resolve_local_read_failure() {
    let r = resolve_local_read("/tmp/x/locked.png", ReadOutcome::Failed("permission denied".to_string()));
    match r {
        Err(ImageError::ReadFailed(path, reason)) => {
            assert_eq!(path, "/tmp/x/locked.png");
            assert_eq!(reason, "permission denied");
        }
        other => panic!("expected a read failure, got {:?}", other),
    }
}

#[test]
fn test_resolve_fetch_prefers_image_content_type() {
    let png = vec![0x89, b'P', b'N', b'G', 0x0D, 0x0A, 0x1A, 0x0A];
    let r = resolve_fetch(
        "https://example.com/pic",
        FetchOutcome::Response {
            content_type: Some("image/apng; charset=binary".to_string()),
            body: png.clone(),
        },
    )
    .unwrap();
    // The header names an image type, so it wins over sniffing.
    assert_eq!(r.mime_type, "image/apng");
    assert_eq!(r.data, png);
}

#[test]
fn test_resolve_fetch_falls_back_to_sniffing() {
    let png = vec![0x89, b'P', b'N', b'G', 0x0D, 0x0A, 0x1A, 0x0A];
    let r = resolve_fetch(
        "https://example.com/pic",
        FetchOutcome::Response {
            content_type: Some("text/plain".to_string()),
            body: png.clone(),
        },
    )
    .unwrap();
    assert_eq!(r.mime_type, "image/png");
}

#[test]
fn test_resolve_fetch_transport_failure() {
    let r = resolve_fetch("http://example.com", FetchOutcome::Failed("timeout".to_string()));
    match r {
        Err(ImageError::FetchFailed(url, reason)) => {
            assert_eq!(url, "http://example.com");
            assert_eq!(reason, "timeout");
        }
        other => panic!("expected a fetch failure, got {:?}", other),
    }
}

#[test]
fn test_load_image_with_fallback_strict_mode() {
    let loaded = Err(ImageError::NotFound("/tmp/x/nonexistent.png".to_string()));
    let result = load_image_with_fallback(loaded, true);
    assert!(result.is_err());
}

#[test]
fn test_load_image_with_fallback_graceful_mode() {
    let loaded = Err(ImageError::NotFound("/tmp/x/nonexistent.png".to_string()));
    let result = load_image_with_fallback(loaded, false);
    assert!(result.is_ok());
    assert!(result.unwrap().is_none());
}

#[test]
fn test_load_image_with_fallback_passes_successes() {
    let img = EmbeddedImage { data: vec![1], mime_type: "image/png".to_string() };
    let r = load_image_with_fallback(Ok(Some(img)), true).unwrap().unwrap();
    assert_eq!(r.data, vec![1]);
    let r2 = load_image_with_fallback(Ok(None), false).unwrap();
    assert!(r2.is_none());
}

#[test]
fn test_image_error_display() {
    let err = ImageError::NotFound("/path/to/image.png".to_string());
    assert_eq!(err.message(), "Image not found: /path/to/image.png");

    let err = ImageError::FetchFailed("http://example.com".to_string(), "timeout".to_string());
    assert_eq!(err.message(), "Failed to fetch image 'http://example.com': timeout");

    let err = ImageError::ReadFailed("/path".to_string(), "permission denied".to_string());
    assert_eq!(err.message(), "Failed to read image '/path': permission denied");

    let err = ImageError::InvalidImage("http://example.com".to_string());
    assert_eq!(err.message(), "Invalid image data: http://example.com");
}
