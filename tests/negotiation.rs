use xr_lifecycle::negotiate::{
    available_backends, negotiate_instance, negotiate_session, resolve_extensions,
    select_backend, select_blend_mode, select_format, select_resolution, EnvironmentBlendMode,
    GraphicsBackend, NegotiationError, OxrGraphicsInfo, Resolution, SessionCapabilities,
    SessionConfigInfo, ViewConfigurationType, ViewConfigurationView,
};

fn view(rw: u32, rh: u32, mw: u32, mh: u32) -> ViewConfigurationView {
    ViewConfigurationView {
        recommended_width: rw,
        recommended_height: rh,
        max_width: mw,
        max_height: mh,
    }
}

fn res(width: u32, height: u32) -> Resolution {
    Resolution { width, height }
}

fn stereo() -> Vec<ViewConfigurationType> {
    vec![ViewConfigurationType::PrimaryMono, ViewConfigurationType::PrimaryStereo]
}

#[test]
fn blend_mode_follows_preference_order() {
    let prefs = vec![EnvironmentBlendMode::AlphaBlend, EnvironmentBlendMode::Additive, EnvironmentBlendMode::Opaque];
    let avail = vec![EnvironmentBlendMode::Opaque, EnvironmentBlendMode::Additive];
    assert_eq!(select_blend_mode(Some(&prefs), &avail), Ok(EnvironmentBlendMode::Additive));
}

#[test]
fn blend_mode_without_preference_takes_first_available() {
    let avail = vec![EnvironmentBlendMode::AlphaBlend, EnvironmentBlendMode::Opaque];
    assert_eq!(select_blend_mode(None, &avail), Ok(EnvironmentBlendMode::AlphaBlend));
}

#[test]
fn blend_mode_with_no_match_fails() {
    let prefs = vec![EnvironmentBlendMode::AlphaBlend];
    let avail = vec![EnvironmentBlendMode::Opaque];
    assert_eq!(select_blend_mode(Some(&prefs), &avail), Err(NegotiationError::NoAvailableBackend));
    assert_eq!(select_blend_mode(None, &Vec::new()), Err(NegotiationError::NoAvailableBackend));
}

#[test]
fn backend_selection() {
    let avail = vec![GraphicsBackend::Vulkan];
    assert_eq!(select_backend(Some(&vec![GraphicsBackend::Vulkan]), &avail), Ok(GraphicsBackend::Vulkan));
    assert_eq!(select_backend(None, &avail), Ok(GraphicsBackend::Vulkan));
    assert_eq!(select_backend(None, &Vec::new()), Err(NegotiationError::NoAvailableBackend));
    assert_eq!(select_backend(Some(&Vec::new()), &avail), Err(NegotiationError::NoAvailableBackend));
}

#[test]
fn format_picks_first_preferred_available() {
    let prefs = vec![50u32, 43, 37];
    let avail = vec![37u32, 43, 44];
    assert_eq!(select_format(Some(&prefs), &avail), Ok(43));
    assert_eq!(select_format(None, &avail), Ok(37));
}

#[test]
fn format_with_no_match_fails() {
    let prefs = vec![50u32];
    let avail = vec![37u32, 43];
    assert_eq!(select_format(Some(&prefs), &avail), Err(NegotiationError::NoAvailableFormat));
    assert_eq!(select_format(None, &Vec::new()), Err(NegotiationError::NoAvailableFormat));
}

#[test]
fn resolution_exact_recommended_match() {
    let views = vec![view(1024, 1024, 4096, 4096), view(1024, 1024, 4096, 4096)];
    let prefs = vec![res(1024, 1024)];
    assert_eq!(select_resolution(Some(&prefs), &stereo(), &views), Ok(res(1024, 1024)));
}

#[test]
fn resolution_falls_back_to_maximum() {
    let views = vec![view(1440, 1584, 2048, 2048), view(1440, 1584, 2048, 2048)];
    let prefs = vec![res(1024, 1024)];
    assert_eq!(select_resolution(Some(&prefs), &stereo(), &views), Ok(res(1024, 1024)));
}

#[test]
fn resolution_exact_match_wins_over_earlier_fitting_one() {
    let views = vec![view(1440, 1584, 4096, 4096), view(1440, 1584, 4096, 4096)];
    let prefs = vec![res(800, 600), res(1440, 1584)];
    assert_eq!(select_resolution(Some(&prefs), &stereo(), &views), Ok(res(1440, 1584)));
}

#[test]
fn resolution_too_large_fails() {
    let views = vec![view(1440, 1584, 2048, 2048), view(1440, 1584, 2048, 2048)];
    let prefs = vec![res(4096, 4096)];
    assert_eq!(
        select_resolution(Some(&prefs), &stereo(), &views),
        Err(NegotiationError::NoAvailableViewConfiguration)
    );
}

#[test]
fn resolution_defaults_to_first_recommended() {
    let views = vec![view(1832, 1920, 4096, 4096), view(1000, 1000, 4096, 4096)];
    assert_eq!(select_resolution(None, &stereo(), &views), Ok(res(1832, 1920)));
}

#[test]
fn resolution_needs_stereo_with_two_views() {
    let two = vec![view(1024, 1024, 2048, 2048), view(1024, 1024, 2048, 2048)];
    let mono = vec![ViewConfigurationType::PrimaryMono];
    assert_eq!(select_resolution(None, &mono, &two), Err(NegotiationError::NoAvailableViewConfiguration));
    let one = vec![view(1024, 1024, 2048, 2048)];
    assert_eq!(select_resolution(None, &stereo(), &one), Err(NegotiationError::NoAvailableViewConfiguration));
    assert_eq!(
        select_resolution(None, &stereo(), &Vec::new()),
        Err(NegotiationError::NoAvailableViewConfiguration)
    );
}

#[test]
fn extensions_split_by_availability() {
    let requested = vec!["XR_FB_passthrough".to_string(), "XR_EXT_hand_tracking".to_string(), "XR_KHR_vulkan_enable2".to_string()];
    let available = vec!["XR_KHR_vulkan_enable2".to_string(), "XR_FB_passthrough".to_string()];
    let r = resolve_extensions(&requested, &available);
    assert_eq!(r.enabled, vec!["XR_FB_passthrough".to_string(), "XR_KHR_vulkan_enable2".to_string()]);
    assert_eq!(r.unavailable, vec!["XR_EXT_hand_tracking".to_string()]);
}

#[test]
fn vulkan_is_available_only_with_its_extension() {
    let with = vec!["XR_FB_passthrough".to_string(), "XR_KHR_vulkan_enable2".to_string()];
    assert_eq!(available_backends(&with), vec![GraphicsBackend::Vulkan]);
    let without = vec!["XR_FB_passthrough".to_string()];
    assert_eq!(available_backends(&without), Vec::<GraphicsBackend>::new());
    assert_eq!(GraphicsBackend::Vulkan.required_extension(), "XR_KHR_vulkan_enable2");
}

#[test]
fn instance_negotiation_drops_missing_extensions() {
    let requested = vec!["XR_EXT_hand_tracking".to_string()];
    let available = vec!["XR_KHR_vulkan_enable2".to_string()];
    let choice = negotiate_instance(&requested, None, &available).ok().unwrap();
    assert_eq!(choice.backend, GraphicsBackend::Vulkan);
    assert!(choice.extensions.enabled.is_empty());
    assert_eq!(choice.extensions.unavailable, vec!["XR_EXT_hand_tracking".to_string()]);
}

#[test]
fn instance_negotiation_without_backend_fails() {
    let requested = vec!["XR_FB_passthrough".to_string()];
    let available = vec!["XR_FB_passthrough".to_string()];
    let r = negotiate_instance(&requested, Some(&vec![GraphicsBackend::Vulkan]), &available);
    assert!(matches!(r, Err(NegotiationError::NoAvailableBackend)));
}

fn caps() -> SessionCapabilities {
    SessionCapabilities {
        view_configurations: stereo(),
        views: vec![view(1440, 1584, 2048, 2048), view(1440, 1584, 2048, 2048)],
        formats: vec![37, 43],
        blend_modes: vec![EnvironmentBlendMode::Opaque, EnvironmentBlendMode::AlphaBlend],
    }
}

#[test]
fn session_negotiation_combines_axes() {
    let config = SessionConfigInfo {
        blend_modes: Some(vec![EnvironmentBlendMode::AlphaBlend]),
        formats: Some(vec![43]),
        resolutions: None,
    };
    assert_eq!(
        negotiate_session(&config, &caps()),
        Ok(OxrGraphicsInfo {
            blend_mode: EnvironmentBlendMode::AlphaBlend,
            resolution: res(1440, 1584),
            format: 43,
        })
    );
}

#[test]
fn session_negotiation_reports_first_failing_axis() {
    let no_format = SessionConfigInfo { blend_modes: Some(vec![EnvironmentBlendMode::Additive]), formats: Some(vec![99]), resolutions: None };
    assert_eq!(negotiate_session(&no_format, &caps()), Err(NegotiationError::NoAvailableFormat));
    let no_blend = SessionConfigInfo { blend_modes: Some(vec![EnvironmentBlendMode::Additive]), formats: None, resolutions: None };
    assert_eq!(negotiate_session(&no_blend, &caps()), Err(NegotiationError::NoAvailableBackend));
    let no_res = SessionConfigInfo { blend_modes: None, formats: Some(vec![99]), resolutions: Some(vec![res(5000, 5000)]) };
    assert_eq!(negotiate_session(&no_res, &caps()), Err(NegotiationError::NoAvailableViewConfiguration));
}

#[test]
fn resolution_fallback_must_fit_every_view() {
    let views = vec![view(1440, 1584, 2048, 2048), view(1440, 1584, 512, 512)];
    let prefs = vec![res(1024, 1024)];
    assert_eq!(
        select_resolution(Some(&prefs), &stereo(), &views),
        Err(NegotiationError::NoAvailableViewConfiguration)
    );
    let prefs = vec![res(1024, 1024), res(512, 400), res(256, 256)];
    assert_eq!(select_resolution(Some(&prefs), &stereo(), &views), Ok(res(512, 400)));
}
