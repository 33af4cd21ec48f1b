use openal_runtime::modes::{AudioRenderMode, DistanceModel};

#[test]
fn parse_render_modes() {
    assert_eq!(AudioRenderMode::parse("auto"), Some(AudioRenderMode::Auto));
    assert_eq!(
        AudioRenderMode::parse("stereo"),
        Some(AudioRenderMode::StereoClean)
    );
    assert_eq!(
        AudioRenderMode::parse("stereo-clean"),
        Some(AudioRenderMode::StereoClean)
    );
    assert_eq!(
        AudioRenderMode::parse("hrtf"),
        Some(AudioRenderMode::HeadphonesHrtf)
    );
    assert_eq!(
        AudioRenderMode::parse("headphones"),
        Some(AudioRenderMode::HeadphonesHrtf)
    );
    assert_eq!(
        AudioRenderMode::parse("surround"),
        Some(AudioRenderMode::SurroundAuto)
    );
    assert_eq!(
        AudioRenderMode::parse("surround-auto"),
        Some(AudioRenderMode::SurroundAuto)
    );
    assert_eq!(AudioRenderMode::parse("nope"), None);
}

#[test]
fn parse_render_modes_normalizes_case_and_space() {
    assert_eq!(
        AudioRenderMode::parse("  HRTF \t"),
        Some(AudioRenderMode::HeadphonesHrtf)
    );
    assert_eq!(
        AudioRenderMode::parse("Stereo-Clean"),
        Some(AudioRenderMode::StereoClean)
    );
    assert_eq!(AudioRenderMode::parse("\nAUTO\n"), Some(AudioRenderMode::Auto));
    assert_eq!(AudioRenderMode::parse(""), None);
    assert_eq!(AudioRenderMode::parse("   "), None);
}

#[test]
fn parse_distance_models() {
    assert_eq!(DistanceModel::parse("none"), Some(DistanceModel::Off));
    assert_eq!(DistanceModel::parse("off"), Some(DistanceModel::Off));
    assert_eq!(DistanceModel::parse("inverse"), Some(DistanceModel::Inverse));
    assert_eq!(
        DistanceModel::parse("inverse-clamp"),
        Some(DistanceModel::InverseClamped)
    );
    assert_eq!(
        DistanceModel::parse("inverse-clamped"),
        Some(DistanceModel::InverseClamped)
    );
    assert_eq!(DistanceModel::parse("linear"), Some(DistanceModel::Linear));
    assert_eq!(
        DistanceModel::parse("linear-clamp"),
        Some(DistanceModel::LinearClamped)
    );
    assert_eq!(
        DistanceModel::parse("linear-clamped"),
        Some(DistanceModel::LinearClamped)
    );
    assert_eq!(DistanceModel::parse("exponent"), Some(DistanceModel::Exponent));
    assert_eq!(
        DistanceModel::parse("exponent-clamp"),
        Some(DistanceModel::ExponentClamped)
    );
    assert_eq!(
        DistanceModel::parse("exponent-clamped"),
        Some(DistanceModel::ExponentClamped)
    );
    assert_eq!(DistanceModel::parse("sideways"), None);
}

#[test]
fn canonical_keywords_parse_back() {
    for mode in [
        AudioRenderMode::Auto,
        AudioRenderMode::StereoClean,
        AudioRenderMode::HeadphonesHrtf,
        AudioRenderMode::SurroundAuto,
    ] {
        assert_eq!(AudioRenderMode::parse(mode.as_str()), Some(mode));
    }
    for model in [
        DistanceModel::Off,
        DistanceModel::Inverse,
        DistanceModel::InverseClamped,
        DistanceModel::Linear,
        DistanceModel::LinearClamped,
        DistanceModel::Exponent,
        DistanceModel::ExponentClamped,
    ] {
        assert_eq!(DistanceModel::parse(model.as_str()), Some(model));
    }
}
