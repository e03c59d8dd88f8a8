use mdcopy::config::{
    CliArgs, CliHighlightArgs, CliImageArgs, Config, ConfigSource, EnvSettings, FileConfig,
    HighlightConfig, default_language_mappings, parse_bool,
};

fn empty_cli_args() -> CliArgs {
    CliArgs {
        input: None,
        output: None,
        root: None,
        strict: None,
        prosemirror: None,
        highlight: CliHighlightArgs {
            enable: None,
            theme: None,
            themes_dir: None,
            syntaxes_dir: None,
        },
        image: CliImageArgs {
            embed_local: None,
            embed_remote: None,
            optimize_local: None,
            optimize_remote: None,
            max_dimension: None,
            quality: None,
        },
    }
}

#[test]
fn test_default_config() {
    let config = Config::default();
    assert_eq!(config.input, "-".to_string());
    assert!(config.output.is_none());
    assert!(config.root.is_none());
    assert!(!config.strict);
    assert!(config.highlight.enable);
    assert_eq!(config.highlight.theme, "base16-ocean.dark");
    assert!(config.image.embed_local);
    assert!(!config.image.embed_remote);
    assert!(config.image.optimize_local);
    assert!(!config.image.optimize_remote);
    assert_eq!(config.image.max_dimension, 1200);
    assert_eq!(config.image.quality, 80);
}

#[test]
fn test_default_language_mappings() {
    let mappings = default_language_mappings();
    assert_eq!(mappings.get("js"), Some("JavaScript".to_string()));
    assert_eq!(mappings.get("ts"), Some("TypeScript".to_string()));
    assert_eq!(mappings.get("py"), Some("Python".to_string()));
    assert_eq!(mappings.get("rs"), Some("Rust".to_string()));
    assert_eq!(mappings.get("sh"), Some("Bourne Again Shell (bash)".to_string()));
}

#[test]
fn test_parse_bool() {
    assert_eq!(parse_bool("true"), Some(true));
    assert_eq!(parse_bool("TRUE"), Some(true));
    assert_eq!(parse_bool("1"), Some(true));
    assert_eq!(parse_bool("yes"), Some(true));
    assert_eq!(parse_bool("on"), Some(true));

    assert_eq!(parse_bool("false"), Some(false));
    assert_eq!(parse_bool("FALSE"), Some(false));
    assert_eq!(parse_bool("0"), Some(false));
    assert_eq!(parse_bool("no"), Some(false));
    assert_eq!(parse_bool("off"), Some(false));

    assert_eq!(parse_bool("invalid"), None);
    assert_eq!(parse_bool(""), None);
}

#[test]
fn test_highlight_config_effective_theme() {
    let config = HighlightConfig {
        theme: "custom-theme".to_string(),
        ..Default::default()
    };
    assert_eq!(config.effective_theme(), "custom-theme");
}

#[test]
fn test_config_build_defaults() {
    let cli = empty_cli_args();
    let (config, _sources) = Config::build(cli, FileConfig::default(), None, EnvSettings::default());

    assert_eq!(config.input, "-".to_string());
    assert!(config.output.is_none());
    assert!(config.image.embed_local);
    assert!(!config.image.embed_remote);
    assert!(!config.strict);
    assert!(config.highlight.enable);
}

#[test]
fn test_config_build_cli_overrides() {
    let cli = CliArgs {
        input: Some("input.md".to_string()),
        output: Some("output.html".to_string()),
        root: Some("/custom/root".to_string()),
        strict: Some(true),
        prosemirror: None,
        highlight: CliHighlightArgs {
            enable: Some(false),
            theme: Some("custom".to_string()),
            themes_dir: Some("/themes".to_string()),
            syntaxes_dir: Some("/syntaxes".to_string()),
        },
        image: CliImageArgs {
            embed_local: Some(true),
            embed_remote: Some(true),
            optimize_local: Some(false),
            optimize_remote: Some(false),
            max_dimension: Some(800),
            quality: Some(75),
        },
    };

    let (config, sources) = Config::build(cli, FileConfig::default(), None, EnvSettings::default());

    assert_eq!(config.input, "input.md".to_string());
    assert_eq!(config.output, Some("output.html".to_string()));
    assert_eq!(config.root, Some("/custom/root".to_string()));
    assert!(config.image.embed_local);
    assert!(config.image.embed_remote);
    assert!(config.strict);
    assert!(!config.highlight.enable);
    assert_eq!(config.highlight.theme, "custom");
    assert_eq!(config.highlight.themes_dir, Some("/themes".to_string()));
    assert_eq!(config.highlight.syntaxes_dir, Some("/syntaxes".to_string()));
    assert!(!config.image.optimize_local);
    assert!(!config.image.optimize_remote);
    assert_eq!(config.image.max_dimension, 800);
    assert_eq!(config.image.quality, 75);

    // Sources are tracked as CLI.
    assert!(matches!(sources.embed_local, ConfigSource::Cli));
    assert!(matches!(sources.strict, ConfigSource::Cli));
}

#[test]
fn test_config_build_from_file() {
    let mut file = FileConfig::default();
    file.input = Some("from-file.md".to_string());
    file.strict = Some(true);
    file.highlight.theme = Some("file-theme".to_string());
    let config_path = "config.toml".to_string();

    let cli = empty_cli_args();
    let (config, sources) =
        Config::build(cli, file, Some(config_path.clone()), EnvSettings::default());

    assert_eq!(config.input, "from-file.md".to_string());
    assert!(config.strict);
    assert_eq!(config.highlight.theme, "file-theme");

    // Sources are tracked as the file.
    assert!(matches!(sources.strict, ConfigSource::File(ref p) if p == &config_path));
    assert!(matches!(sources.highlight_theme, ConfigSource::File(_)));
}

#[test]
fn test_config_build_cli_overrides_file() {
    let mut file = FileConfig::default();
    file.input = Some("from-file.md".to_string());
    file.strict = Some(true);

    let mut cli = empty_cli_args();
    cli.input = Some("from-cli.md".to_string());
    cli.strict = Some(false);

    let (config, sources) =
        Config::build(cli, file, Some("config.toml".to_string()), EnvSettings::default());

    // CLI overrides the file.
    assert_eq!(config.input, "from-cli.md".to_string());
    assert!(!config.strict);

    // The CLI overrode the file source.
    assert!(matches!(sources.strict, ConfigSource::Cli));
}

#[test]
fn test_config_build_env_between_file_and_cli() {
    let mut file = FileConfig::default();
    file.strict = Some(false);
    file.image.embed.quality = Some(10);

    let mut env = EnvSettings::default();
    env.strict = Some(true);
    env.image_quality = Some(20);
    env.image_max_dimension = Some(640);

    let mut cli = empty_cli_args();
    cli.image.quality = Some(30);

    let (config, sources) =
        Config::build(cli, file, Some("config.toml".to_string()), env);

    // Environment beats the file; CLI beats the environment.
    assert!(config.strict);
    assert_eq!(config.image.quality, 30);
    assert_eq!(config.image.max_dimension, 640);
    assert!(matches!(sources.strict, ConfigSource::Env(ref v) if v == "MDCOPY_STRICT"));
    assert!(matches!(sources.quality, ConfigSource::Cli));
    assert!(
        matches!(sources.max_dimension, ConfigSource::Env(ref v) if v == "MDCOPY_IMAGE_EMBED_MAX_DIMENSION")
    );
}

#[test]
fn test_config_build_merges_file_languages() {
    let mut file = FileConfig::default();
    file.highlight.languages.insert("jsx", "JavaScript");
    file.highlight.languages.insert("js", "ECMAScript");

    let (config, _sources) = Config::build(
        empty_cli_args(),
        file,
        Some("config.toml".to_string()),
        EnvSettings::default(),
    );

    // File entries extend and override the default table.
    assert_eq!(config.highlight.languages.get("jsx"), Some("JavaScript".to_string()));
    assert_eq!(config.highlight.languages.get("js"), Some("ECMAScript".to_string()));
    assert_eq!(config.highlight.languages.get("py"), Some("Python".to_string()));
}

#[test]
fn test_file_config_default() {
    let config = FileConfig::default();
    assert!(config.input.is_none());
    assert!(config.output.is_none());
    assert!(config.root.is_none());
    assert!(config.strict.is_none());
    assert!(config.highlight.enable.is_none());
    assert!(config.image.embed.local.is_none());
    assert!(config.image.embed.remote.is_none());
    assert!(config.image.embed.optimize_local.is_none());
    assert!(config.image.embed.optimize_remote.is_none());
    assert!(config.image.embed.max_dimension.is_none());
    assert!(config.image.embed.quality.is_none());
}

#[test]
fn test_highlight_config_get_themes_dir_custom() {
    let config = HighlightConfig {
        themes_dir: Some("/custom/themes".to_string()),
        ..Default::default()
    };
    assert_eq!(config.get_themes_dir(), Some("/custom/themes".to_string()));
}

#[test]
fn test_highlight_config_get_syntaxes_dir_custom() {
    let config = HighlightConfig {
        syntaxes_dir: Some("/custom/syntaxes".to_string()),
        ..Default::default()
    };
    assert_eq!(config.get_syntaxes_dir(), Some("/custom/syntaxes".to_string()));
}

#[test]
fn test_config_source_describe() {
    assert_eq!(ConfigSource::Default.describe(), "default");
    assert_eq!(ConfigSource::Cli.describe(), "cli");
    assert_eq!(ConfigSource::File("/a/b.toml".to_string()).describe(), "config: /a/b.toml");
    assert_eq!(ConfigSource::Env("MDCOPY_STRICT".to_string()).describe(), "env: MDCOPY_STRICT");
}

#[test]
fn test_format_settings_lists_every_tracked_value() {
    let cli = empty_cli_args();
    let (config, sources) = Config::build(cli, FileConfig::default(), None, EnvSettings::default());
    let text = sources.format_settings(&config);
    assert_eq!(
        text,
        "  embed_local: true (default)\n  embed_remote: false (default)\n  optimize_local: true (default)\n  optimize_remote: false (default)\n  max_dimension: 1200 (default)\n  quality: 80 (default)\n  strict: false (default)\n  highlight: true (default)\n  highlight_theme: base16-ocean.dark (default)"
    );
}

#[test]
fn test_to_toml_default_config() {
    let config = Config::default();
    let toml = config.to_toml();
    assert_eq!(
        toml,
        "strict = false\n\n[highlight]\nenable = true\ntheme = \"base16-ocean.dark\"\n\n[image.embed]\nlocal = true\nremote = false\noptimize_local = true\noptimize_remote = false\nmax_dimension = 1200\nquality = 80"
    );
}

#[test]
fn test_to_toml_with_paths_and_escapes() {
    let mut config = Config::default();
    config.input = "notes.md".to_string();
    config.output = Some("out\\dir\\page.html".to_string());
    config.highlight.theme = "odd \"theme\"".to_string();
    let toml = config.to_toml();
    assert!(toml.starts_with("input = \"notes.md\"\noutput = \"out\\\\dir\\\\page.html\"\n"));
    assert!(toml.contains("theme = \"odd \\\"theme\\\"\""));
}
