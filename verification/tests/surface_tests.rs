use render_core::surface::{choose_format, SurfaceCaps, SurfaceConfig, SurfaceFormat};

fn caps(formats: Vec<SurfaceFormat>) -> SurfaceCaps {
    SurfaceCaps { formats, present_modes: vec![10, 11], alpha_modes: vec![20, 21] }
}

#[test]
fn format_prefers_first_srgb() {
    let formats = vec![
        SurfaceFormat { code: 1, srgb: false },
        SurfaceFormat { code: 2, srgb: true },
        SurfaceFormat { code: 3, srgb: true },
    ];
    let chosen = choose_format(&formats);
    assert_eq!(chosen, SurfaceFormat { code: 2, srgb: true });
}

#[test]
fn format_falls_back_to_first() {
    let formats = vec![
        SurfaceFormat { code: 5, srgb: false },
        SurfaceFormat { code: 6, srgb: false },
    ];
    let chosen = choose_format(&formats);
    assert_eq!(chosen, SurfaceFormat { code: 5, srgb: false });
}

#[test]
fn negotiate_takes_first_modes() {
    let c = SurfaceConfig::negotiate(
        &caps(vec![
            SurfaceFormat { code: 1, srgb: false },
            SurfaceFormat { code: 2, srgb: true },
        ]),
        800,
        600,
    );
    assert_eq!(c.width, 800);
    assert_eq!(c.height, 600);
    assert_eq!(c.format, SurfaceFormat { code: 2, srgb: true });
    assert_eq!(c.present_mode, 10);
    assert_eq!(c.alpha_mode, 20);
    assert!(!c.configured);
}

#[test]
fn resize_to_zero_changes_nothing() {
    // A zero dimension suppresses configuration: the configuration and
    // its configured flag stay exactly as they were.
    let mut c = SurfaceConfig::negotiate(
        &caps(vec![SurfaceFormat { code: 1, srgb: true }]),
        800,
        600,
    );
    let before = c;
    assert!(!c.resize(0, 0));
    assert_eq!(c, before);
    assert!(!c.resize(0, 600));
    assert_eq!(c, before);
    assert!(!c.resize(800, 0));
    assert_eq!(c, before);

    // The same holds after a successful configure.
    assert!(c.resize(1024, 768));
    let configured = c;
    assert!(configured.configured);
    assert!(!c.resize(0, 0));
    assert_eq!(c, configured);
}

#[test]
fn resize_updates_dimensions_and_configures() {
    let mut c = SurfaceConfig::negotiate(
        &caps(vec![SurfaceFormat { code: 1, srgb: true }]),
        800,
        600,
    );
    assert!(c.resize(1024, 768));
    assert_eq!(c.width, 1024);
    assert_eq!(c.height, 768);
    assert!(c.configured);
    assert_eq!(c.format, SurfaceFormat { code: 1, srgb: true });

    // Idempotent: the same request again leaves the same configuration.
    let once = c;
    assert!(c.resize(1024, 768));
    assert_eq!(c, once);
}
