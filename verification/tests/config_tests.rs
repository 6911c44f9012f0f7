use lumina_core::config::{
    default_color, hex_to_rgba8, rain_type_shader_index, render_settings, Preset, RainType,
    RenderConfig,
};

#[test]
fn test_hex_to_rgba() {
    let rgba = hex_to_rgba8("#FF0000");
    let rgba = [
        rgba[0] as f32 / 255.0,
        rgba[1] as f32 / 255.0,
        rgba[2] as f32 / 255.0,
        rgba[3] as f32 / 255.0,
    ];
    assert!((rgba[0] - 1.0).abs() < 0.01);
    assert!((rgba[1] - 0.0).abs() < 0.01);
    assert!((rgba[2] - 0.0).abs() < 0.01);
    assert!((rgba[3] - 1.0).abs() < 0.01);
}

#[test]
fn test_preset_from_str() {
    assert_eq!(Preset::from_str("rain"), Some(Preset::Rain));
    assert_eq!(Preset::from_str("RAIN"), Some(Preset::Rain));
    assert_eq!(Preset::from_str("snow"), Some(Preset::Snow));
    assert_eq!(Preset::from_str("invalid"), None);
}

#[test]
fn test_render_config_validate() {
    let mut config = RenderConfig {
        width: 1920,
        height: 1080,
        fps: 60,
        duration_secs: 10,
        particle_count: 10000, // Over max
    };
    config.validate();
    assert_eq!(config.particle_count, 5000);

    config.particle_count = 50; // Under min
    config.validate();
    assert_eq!(config.particle_count, 100);
}

#[test]
fn render_config_default_matches_flat_format_settings() {
    let config = RenderConfig::default();
    assert_eq!(config.width, 1920);
    assert_eq!(config.height, 1080);
    assert_eq!(config.fps, 60);
    assert_eq!(config.duration_secs, 10);
    assert_eq!(config.particle_count, 5000);
    let mut validated = config;
    validated.validate();
    assert_eq!(validated.width, 1920);
    assert_eq!(validated.height, 1080);
    assert_eq!(validated.fps, 60);
    assert_eq!(validated.duration_secs, 10);
    assert_eq!(validated.particle_count, 5000);
}

#[test]
fn validate_clamps_every_field_to_its_range() {
    let mut low = RenderConfig { width: 0, height: 10, fps: 1, duration_secs: 0, particle_count: 0 };
    low.validate();
    assert_eq!((low.width, low.height, low.fps, low.duration_secs, low.particle_count), (360, 360, 24, 1, 100));

    let mut high = RenderConfig {
        width: 8000,
        height: 4000,
        fps: 240,
        duration_secs: 600,
        particle_count: u32::MAX,
    };
    high.validate();
    assert_eq!(
        (high.width, high.height, high.fps, high.duration_secs, high.particle_count),
        (3840, 2160, 120, 60, 5000)
    );
}

#[test]
fn validate_is_idempotent() {
    let mut once = RenderConfig { width: 100, height: 3000, fps: 30, duration_secs: 90, particle_count: 250 };
    once.validate();
    let mut twice = once;
    twice.validate();
    assert_eq!(
        (once.width, once.height, once.fps, once.duration_secs, once.particle_count),
        (twice.width, twice.height, twice.fps, twice.duration_secs, twice.particle_count)
    );
    assert_eq!((once.width, once.height, once.fps, once.duration_secs, once.particle_count), (360, 2160, 30, 60, 250));
}

#[test]
fn preset_shader_indices_follow_the_table() {
    assert_eq!(Preset::CosmicDust.to_shader_index(), 0);
    assert_eq!(Preset::Rain.to_shader_index(), 1);
    assert_eq!(Preset::Snow.to_shader_index(), 2);
    assert_eq!(Preset::Fireflies.to_shader_index(), 3);
    assert_eq!(Preset::SunDust.to_shader_index(), 4);
    assert_eq!(Preset::Embers.to_shader_index(), 5);
}

#[test]
fn preset_names_and_indices_parse_back() {
    let all = [
        (Preset::CosmicDust, "cosmic_dust"),
        (Preset::Rain, "rain"),
        (Preset::Snow, "snow"),
        (Preset::Fireflies, "fireflies"),
        (Preset::SunDust, "sun_dust"),
        (Preset::Embers, "embers"),
    ];
    for (preset, name) in all {
        assert_eq!(Preset::from_str(name), Some(preset));
        assert_eq!(Preset::from_str(&preset.to_shader_index().to_string()), Some(preset));
    }
    assert_eq!(Preset::from_str("CosmicDust"), Some(Preset::CosmicDust));
    assert_eq!(Preset::from_str("Fire_Fly"), Some(Preset::Fireflies));
    assert_eq!(Preset::from_str("SUNDUST"), Some(Preset::SunDust));
    assert_eq!(Preset::from_str("petals"), None);
    assert_eq!(Preset::from_str("6"), None);
    assert_eq!(Preset::from_str(" rain"), None);
    assert_eq!(Preset::from_lowercase_name("RAIN"), None);
    assert_eq!(Preset::from_lowercase_name("rain"), Some(Preset::Rain));
}

#[test]
fn rain_types_parse_by_name_and_index() {
    assert_eq!(RainType::from_str("drizzle"), Some(RainType::Drizzle));
    assert_eq!(RainType::from_str("Normal"), Some(RainType::Normal));
    assert_eq!(RainType::from_str("HEAVY"), Some(RainType::Heavy));
    assert_eq!(RainType::from_str("storm"), Some(RainType::Storm));
    assert_eq!(RainType::from_str("3"), Some(RainType::Storm));
    assert_eq!(RainType::from_str("0"), Some(RainType::Drizzle));
    assert_eq!(RainType::from_str("hail"), None);
    assert_eq!(RainType::from_lowercase_name("Storm"), None);
}

#[test]
fn rain_type_shader_index_defaults_to_normal() {
    assert_eq!(rain_type_shader_index(None), 1);
    assert_eq!(rain_type_shader_index(Some(RainType::Drizzle)), 0);
    assert_eq!(rain_type_shader_index(Some(RainType::Normal)), 1);
    assert_eq!(rain_type_shader_index(Some(RainType::Heavy)), 2);
    assert_eq!(rain_type_shader_index(Some(RainType::Storm)), 3);
}

#[test]
fn default_color_is_white() {
    assert_eq!(default_color(), "#FFFFFF");
}

#[test]
fn hex_colors_read_channels_alpha_and_fallbacks() {
    assert_eq!(hex_to_rgba8("#1A2B3C"), [26, 43, 60, 255]);
    assert_eq!(hex_to_rgba8("#aaccff"), [170, 204, 255, 255]);
    assert_eq!(hex_to_rgba8("#FF000080"), [255, 0, 0, 128]);
    assert_eq!(hex_to_rgba8("#FF0000F"), [255, 0, 0, 255]);
    assert_eq!(hex_to_rgba8("##00ff00"), [0, 255, 0, 255]);
    assert_eq!(hex_to_rgba8("00ff00"), [0, 255, 0, 255]);
    assert_eq!(hex_to_rgba8("#GG0000"), [255, 0, 0, 255]);
    assert_eq!(hex_to_rgba8("#+F0000"), [15, 0, 0, 255]);
    assert_eq!(hex_to_rgba8("#-10000"), [255, 0, 0, 255]);
    assert_eq!(hex_to_rgba8("#9b59ff"), [155, 89, 255, 255]);
}

#[test]
fn preset_names_lowercase_by_unicode_rules() {
    assert_eq!(Preset::from_str("EMBERS"), Some(Preset::Embers));
    assert_eq!(Preset::from_str("RAİN"), None);
    assert_eq!(Preset::from_str("ＲＡＩＮ"), None);
    assert_eq!(Preset::from_str(""), None);
}

#[test]
fn render_settings_clamp_the_intent_or_use_defaults() {
    let d = render_settings(None);
    assert_eq!((d.width, d.height, d.fps, d.duration_secs, d.particle_count), (1920, 1080, 60, 10, 5000));
    assert_eq!(d.total_frames(), 600);

    let shorts = RenderConfig { width: 1080, height: 1920, fps: 60, duration_secs: 10, particle_count: 2000 };
    let s = render_settings(Some(shorts));
    assert_eq!((s.width, s.height, s.fps, s.duration_secs, s.particle_count), (1080, 1920, 60, 10, 2000));

    let wild = RenderConfig { width: 10, height: 9999, fps: 500, duration_secs: 0, particle_count: 1 };
    let w = render_settings(Some(wild));
    assert_eq!((w.width, w.height, w.fps, w.duration_secs, w.particle_count), (360, 2160, 120, 1, 100));
    assert_eq!(w.total_frames(), 120);

    let longest = render_settings(Some(RenderConfig {
        width: 360,
        height: 360,
        fps: 120,
        duration_secs: 60,
        particle_count: 100,
    }));
    assert_eq!(longest.total_frames(), 7200);
}
