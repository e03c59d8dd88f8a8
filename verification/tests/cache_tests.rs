use mdcopy::cache::{
    ImageCache, RouteAction, absorb_optimize, resolve_cached_read, should_optimize,
    url_to_filename, validate_fetched,
};
use mdcopy::config::ImageConfig;
use mdcopy::image::{EmbeddedImage, FetchOutcome, ImageError, LoadPlan, plan_load, ReadOutcome,
    load_image_with_fallback, resolve_local_read};

fn config_embed_local() -> ImageConfig {
    ImageConfig {
        embed_local: true,
        embed_remote: false,
        optimize_local: false,
        optimize_remote: false,
        max_dimension: 1200,
        quality: 80,
    }
}

fn config_embed_all() -> ImageConfig {
    ImageConfig {
        embed_local: true,
        embed_remote: true,
        optimize_local: false,
        optimize_remote: false,
        max_dimension: 1200,
        quality: 80,
    }
}

fn config_embed_none() -> ImageConfig {
    ImageConfig {
        embed_local: false,
        embed_remote: false,
        optimize_local: false,
        optimize_remote: false,
        max_dimension: 1200,
        quality: 80,
    }
}

#[test]
fn test_url_to_filename() {
    let f1 = url_to_filename("https://example.com/image.png");
    let f2 = url_to_filename("https://example.com/photo.jpg");

    // Same URL produces same filename
    let f3 = url_to_filename("https://example.com/image.png");
    assert_eq!(f1, f3);

    // Different URLs produce different filenames
    assert_ne!(f1, f2);

    // Filename is a 16-char hex hash
    assert_eq!(f1.len(), 16);
    assert!(f1.chars().all(|c| c.is_ascii_hexdigit()));
}

#[test]
fn test_image_cache_local_not_cached() {
    // Local images are NOT cached - they're read fresh each time.
    let mut cache = ImageCache::new(Some("/tmp/scratch".to_string()));
    let config = config_embed_local();
    let sig = vec![0x89, b'P', b'N', b'G', 0x0D, 0x0A, 0x1A, 0x0A];

    // First call: routed to a fresh read of the file, which succeeds.
    let route1 = cache.route("test.png", "/tmp/x", &config);
    let path = match route1 {
        RouteAction::ReadLocal(p) => p,
        other => panic!("expected a local read, got {:?}", other),
    };
    let img1 = resolve_local_read(&path, ReadOutcome::Bytes(sig)).unwrap();
    assert_eq!(img1.mime_type, "image/png");

    // A remote entry recorded in between must not change local routing.
    cache.record("https://example.com/other.png", "/tmp/scratch/abc");

    // Second call after the file disappeared: routed to a fresh read
    // again (never to the cache), and the graceful policy yields None.
    let route2 = cache.route("test.png", "/tmp/x", &config);
    let path2 = match route2 {
        RouteAction::ReadLocal(p) => p,
        other => panic!("expected a local read, got {:?}", other),
    };
    let result2 = load_image_with_fallback(
        resolve_local_read(&path2, ReadOutcome::Missing).map(Some),
        false,
    );
    assert!(result2.is_ok());
    assert!(result2.unwrap().is_none());
}

#[test]
fn test_image_cache_embed_none() {
    let cache = ImageCache::new(None);

    // Load with embed disabled returns None with no I/O decided.
    let route = cache.route("test.png", ".", &config_embed_none());
    assert!(matches!(route, RouteAction::Skip));
    // The plain load decides the same.
    assert!(matches!(plan_load("test.png", ".", &config_embed_none()), LoadPlan::Skip));
}

#[test]
fn test_image_cache_remote_fetch_once() {
    // Two calls for the same remote reference: the first decides one
    // fetch, the second is answered from the scratch file with the
    // same bytes and no fetch.
    let mut cache = ImageCache::new(Some("/tmp/scratch".to_string()));
    let config = config_embed_all();
    let url = "https://example.com/image.png";
    let body = vec![0x89, b'P', b'N', b'G', 0x0D, 0x0A, 0x1A, 0x0A];

    let route1 = cache.route(url, ".", &config);
    let save_to = match route1 {
        RouteAction::Fetch { url: fetch_url, save_to } => {
            assert_eq!(fetch_url, url);
            save_to.expect("scratch storage exists")
        }
        other => panic!("expected a fetch, got {:?}", other),
    };
    assert_eq!(save_to, format!("/tmp/scratch/{}", url_to_filename(url)));

    // The application fetches, validates, saves, and records.
    let saved = validate_fetched(
        url,
        FetchOutcome::Response { content_type: None, body: body.clone() },
    )
    .unwrap();
    assert_eq!(saved, body);
    cache.record(url, &save_to);

    // The second call reads the scratch file; no fetch is decided.
    let route2 = cache.route(url, ".", &config);
    match route2 {
        RouteAction::ReadCached(p) => {
            assert_eq!(p, save_to);
            let img = resolve_cached_read(&p, ReadOutcome::Bytes(saved))
                .unwrap()
                .unwrap();
            // Byte-identical result, typed by sniffing.
            assert_eq!(img.data, body);
            assert_eq!(img.mime_type, "image/png");
        }
        other => panic!("expected a cached read, got {:?}", other),
    }
}

#[test]
fn test_cache_passthrough_without_scratch_dir() {
    // Without scratch storage a remote miss still fetches, but nothing
    // is saved.
    let cache = ImageCache::new(None);
    let route = cache.route("https://example.com/a.png", ".", &config_embed_all());
    match route {
        RouteAction::Fetch { url, save_to } => {
            assert_eq!(url, "https://example.com/a.png");
            assert!(save_to.is_none());
        }
        other => panic!("expected a fetch, got {:?}", other),
    }
}

#[test]
fn test_validate_fetched_rejects_nothing_sniffable_as_image() {
    // Sniffable image bytes and unrecognized bytes both pass the
    // validation; transport failures are typed.
    let ok = validate_fetched(
        "https://example.com/p",
        FetchOutcome::Response { content_type: None, body: b"plain text".to_vec() },
    );
    assert!(ok.is_ok());
    let err = validate_fetched("https://example.com/p", FetchOutcome::Failed("refused".to_string()));
    assert!(matches!(err, Err(ImageError::FetchFailed(_, _))));
}

#[test]
fn test_should_optimize_by_class() {
    let config = ImageConfig {
        embed_local: true,
        embed_remote: true,
        optimize_local: true,
        optimize_remote: false,
        max_dimension: 1200,
        quality: 80,
    };
    assert!(should_optimize("diagram.png", &config));
    assert!(!should_optimize("https://example.com/diagram.png", &config));
}

#[test]
fn test_absorb_optimize_keeps_original_on_failure() {
    let original = EmbeddedImage { data: vec![1, 2, 3], mime_type: "image/gif".to_string() };
    let kept = absorb_optimize(
        original.clone(),
        Err(ImageError::InvalidImage("bad".to_string())),
    );
    assert_eq!(kept.data, vec![1, 2, 3]);
    assert_eq!(kept.mime_type, "image/gif");

    let optimized = EmbeddedImage { data: vec![9], mime_type: "image/png".to_string() };
    let taken = absorb_optimize(original, Ok(optimized));
    assert_eq!(taken.data, vec![9]);
    assert_eq!(taken.mime_type, "image/png");
}

#[test]
fn test_resolve_cached_read_sniffs_hash_named_file() {
    // Scratch files have no extension, so only the bytes decide.
    let jpeg = vec![0xFF, 0xD8, 0xFF, 0xE0];
    let img = resolve_cached_read("/tmp/scratch/0011223344556677", ReadOutcome::Bytes(jpeg))
        .unwrap()
        .unwrap();
    assert_eq!(img.mime_type, "image/jpeg");

    let missing = resolve_cached_read("/tmp/scratch/0011223344556677", ReadOutcome::Missing);
    assert!(matches!(missing, Err(ImageError::NotFound(_))));
}
