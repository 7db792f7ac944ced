use truvis_app::render_modes::{RenderMode, RtDebugChannel, RtRestirDiMode, RtSharcMode, RtSkySamplingMode};

#[test]
fn render_mode_labels_and_default() {
    assert_eq!(RenderMode::Realtime.label(), "Realtime");
    assert_eq!(RenderMode::Offline.label(), "Offline");
    assert_eq!(RenderMode::default(), RenderMode::Realtime);
    assert_eq!(RenderMode::ALL, [RenderMode::Realtime, RenderMode::Offline]);
}

#[test]
fn render_mode_config_values_are_normalized() {
    assert_eq!(RenderMode::from_config_value("realtime"), Some(RenderMode::Realtime));
    assert_eq!(RenderMode::from_config_value("  Real_Time \t"), Some(RenderMode::Realtime));
    assert_eq!(RenderMode::from_config_value("RT"), Some(RenderMode::Realtime));
    assert_eq!(RenderMode::from_config_value("real"), Some(RenderMode::Realtime));
    assert_eq!(RenderMode::from_config_value("Ground-Truth"), Some(RenderMode::Offline));
    assert_eq!(RenderMode::from_config_value("g t"), Some(RenderMode::Offline));
    assert_eq!(RenderMode::from_config_value("OFFLINE\n"), Some(RenderMode::Offline));
    assert_eq!(RenderMode::from_config_value(""), None);
    assert_eq!(RenderMode::from_config_value("raster"), None);
    assert_eq!(RenderMode::from_config_value("real time x"), None);
}

#[test]
fn render_mode_trims_unicode_white_space() {
    assert_eq!(RenderMode::from_config_value("\u{3000}offline\u{00A0}"), Some(RenderMode::Offline));
    assert_eq!(RenderMode::from_config_value("off\u{3000}line"), None);
}

#[test]
fn render_mode_label_round_trip() {
    for mode in RenderMode::ALL {
        assert_eq!(RenderMode::from_config_value(mode.label()), Some(mode));
    }
}

#[test]
fn render_mode_initial_from_env_value() {
    assert_eq!(RenderMode::initial_from_env_value(None), RenderMode::Realtime);
    assert_eq!(RenderMode::initial_from_env_value(Some("gt")), RenderMode::Offline);
    assert_eq!(RenderMode::initial_from_env_value(Some("bogus")), RenderMode::Realtime);
}

#[test]
fn sky_sampling_labels_and_codes() {
    assert_eq!(RtSkySamplingMode::Uniform.label(), "uniform");
    assert_eq!(RtSkySamplingMode::Importance.label(), "importance");
    assert_eq!(RtSkySamplingMode::Uniform.shader_mode(), 0);
    assert_eq!(RtSkySamplingMode::Importance.shader_mode(), 1);
    assert_eq!(RtSkySamplingMode::ALL, [RtSkySamplingMode::Importance, RtSkySamplingMode::Uniform]);
}

#[test]
fn sharc_mode_values() {
    assert_eq!(RtSharcMode::Off.label(), "Off");
    assert_eq!(RtSharcMode::Update.label(), "Update (no query)");
    assert_eq!(RtSharcMode::On.label(), "On (query)");
    assert_eq!(RtSharcMode::Off.shader_mode(), 0);
    assert_eq!(RtSharcMode::Update.shader_mode(), 1);
    assert_eq!(RtSharcMode::On.shader_mode(), 2);
    assert_eq!(RtSharcMode::default(), RtSharcMode::Off);
    assert_eq!(RtSharcMode::from_config_value("update_only"), Some(RtSharcMode::Update));
    assert_eq!(RtSharcMode::from_config_value(" Query "), Some(RtSharcMode::On));
    assert_eq!(RtSharcMode::from_config_value("ON"), Some(RtSharcMode::On));
    assert_eq!(RtSharcMode::from_config_value("off"), Some(RtSharcMode::Off));
    assert_eq!(RtSharcMode::from_config_value("maybe"), None);
    assert_eq!(RtSharcMode::initial_mode_from_env_value(None), RtSharcMode::Off);
    assert_eq!(RtSharcMode::initial_mode_from_env_value(Some("update")), RtSharcMode::Update);
    assert_eq!(RtSharcMode::initial_mode_from_env_value(Some("??")), RtSharcMode::Off);
}

#[test]
fn restir_mode_values() {
    assert_eq!(RtRestirDiMode::TemporalSpatial.label(), "TemporalSpatial");
    assert_eq!(RtRestirDiMode::InitialOnly.shader_mode(), 1);
    assert_eq!(RtRestirDiMode::TemporalSpatial.shader_mode(), 3);
    assert!(!RtRestirDiMode::Off.is_enabled());
    assert!(RtRestirDiMode::Temporal.is_enabled());
    assert_eq!(RtRestirDiMode::from_config_value("initial"), Some(RtRestirDiMode::InitialOnly));
    assert_eq!(RtRestirDiMode::from_config_value("Temporal-Spatial"), Some(RtRestirDiMode::TemporalSpatial));
    assert_eq!(RtRestirDiMode::from_config_value("spatial"), Some(RtRestirDiMode::TemporalSpatial));
    assert_eq!(RtRestirDiMode::from_config_value("temporal"), Some(RtRestirDiMode::Temporal));
    assert_eq!(RtRestirDiMode::from_config_value("on"), None);
    assert_eq!(RtRestirDiMode::initial_mode_from_env_value(Some("INITIAL_ONLY")), RtRestirDiMode::InitialOnly);
    assert_eq!(RtRestirDiMode::initial_mode_from_env_value(None), RtRestirDiMode::Off);
    for mode in RtRestirDiMode::ALL {
        assert_eq!(RtRestirDiMode::from_config_value(mode.label()), Some(mode));
    }
}

#[test]
fn debug_channel_codes_are_distinct() {
    let mut seen = Vec::new();
    for channel in RtDebugChannel::ALL {
        let code = channel.shader_channel();
        assert!(code < 22);
        assert!(!seen.contains(&code));
        seen.push(code);
    }
    assert_eq!(seen.len(), 21);
    assert_eq!(RtDebugChannel::WorldNormal.shader_channel(), 10);
    assert_eq!(RtDebugChannel::MaterialType.shader_channel(), 16);
    assert_eq!(RtDebugChannel::SharcCache.label(), "SHARC cache radiance");
    assert_eq!(RtDebugChannel::NeeHdri.label(), "from NEE HDRI");
}
