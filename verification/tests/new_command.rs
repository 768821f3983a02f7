use astropress_cli::features::{choose_features, AllFeatures, CmsChoice};
use astropress_cli::notes::{free_first_hosting_note, selected_services_note};
use astropress_cli::providers::{
    AbTestingProvider, AnalyticsProvider, AppHost, DataServices, HeatmapProvider,
};
use astropress_cli::scaffold::as_provider_opt;

#[test]
fn defaults_have_api_disabled_and_no_observability() {
    let f = AllFeatures::defaults();
    assert!(matches!(f.analytics, AnalyticsProvider::Disabled));
    assert!(matches!(f.ab_testing, AbTestingProvider::Disabled));
    assert!(matches!(f.heatmap, HeatmapProvider::Disabled));
    assert!(!f.enable_api);
}

#[test]
fn cms_choices_exist_as_variants() {
    // Verifies that all three CMS options the wizard presents are valid variants.
    let choices = [CmsChoice::BuiltIn, CmsChoice::Keystatic, CmsChoice::Payload];
    assert_eq!(choices.len(), 3, "wizard must present exactly 3 CMS options");
}

#[test]
#[allow(clippy::needless_update)]
fn cli_flag_analytics_bypasses_wizard() {
    // Verify the flag → AllFeatures mapping compiles and routes correctly.
    let f = AllFeatures {
        analytics: AnalyticsProvider::Umami,
        ab_testing: AbTestingProvider::GrowthBook,
        heatmap: HeatmapProvider::PostHog,
        enable_api: true,
        ..AllFeatures::defaults()
    };
    assert_eq!(Some(f.analytics.as_str()).filter(|s| *s != "none"), Some("umami"));
    assert_eq!(Some(f.ab_testing.as_str()).filter(|s| *s != "none"), Some("growthbook"));
    assert_eq!(Some(f.heatmap.as_str()).filter(|s| *s != "none"), Some("posthog"));
    assert!(f.enable_api);
}

#[test]
fn posthog_analytics_selects_posthog_as_heatmap_default() {
    // PostHog is index 0 in the heatmap Select; the default is always 0
    // regardless of analytics choice.
    let heatmap_default: usize = 0;
    assert_eq!(heatmap_default, 0, "PostHog is always index 0 in the heatmap select");
}

#[test]
fn none_analytics_filtered_before_scaffold_call() {
    let f = AllFeatures::defaults();
    assert!(Some(f.analytics.as_str()).filter(|s| *s != "none").is_none());
    assert!(Some(f.ab_testing.as_str()).filter(|s| *s != "none").is_none());
    assert!(Some(f.heatmap.as_str()).filter(|s| *s != "none").is_none());
}

#[test]
fn free_first_note_points_railway_users_back_to_free_hosts() {
    let note = free_first_hosting_note(Some(AppHost::Railway), Some(DataServices::Supabase));
    assert!(note.contains("no free tier"));
    assert!(note.contains("GitHub Pages"));
    assert!(note.contains("Vercel/Netlify + Supabase"));
}

#[test]
fn services_note_explains_free_first_guidance() {
    let note = selected_services_note(true).expect("expected services note");
    assert!(note.contains("SERVICES.md"));
    assert!(note.contains("free cloud tiers"));
    assert!(selected_services_note(false).is_none());
}

#[test]
fn flags_override_the_request_for_defaults() {
    let f = choose_features(Some(AnalyticsProvider::PostHog), None, None, false, true).unwrap();
    assert_eq!(f.analytics, AnalyticsProvider::PostHog);
    assert_eq!(f.ab_testing, AbTestingProvider::Disabled);
    assert_eq!(f.heatmap, HeatmapProvider::Disabled);
    assert!(!f.enable_api);

    let f = choose_features(None, None, None, true, false).unwrap();
    assert!(f.enable_api);
    assert_eq!(f.analytics, AnalyticsProvider::Disabled);
}

#[test]
fn donations_keep_their_default_under_flags_and_defaults() {
    assert!(AllFeatures::defaults().donations.is_empty());
    let f = choose_features(None, Some(AbTestingProvider::GrowthBook), None, false, false).unwrap();
    assert!(f.donations.is_empty());
    assert_eq!(f.ab_testing, AbTestingProvider::GrowthBook);
}

#[test]
fn defaults_flag_skips_the_wizard_and_no_flag_asks_it() {
    assert_eq!(choose_features(None, None, None, false, true), Some(AllFeatures::defaults()));
    assert_eq!(choose_features(None, None, None, false, false), None);
}

#[test]
fn provider_none_sentinel_becomes_absent() {
    assert_eq!(as_provider_opt("none"), None);
    assert_eq!(as_provider_opt("umami"), Some("umami"));
    assert_eq!(as_provider_opt(AnalyticsProvider::Disabled.as_str()), None);
    assert_eq!(as_provider_opt("nonE"), Some("nonE"));
    assert_eq!(as_provider_opt(""), Some(""));
}

#[test]
fn other_hosts_get_the_general_free_first_note() {
    let note = free_first_hosting_note(Some(AppHost::Vercel), Some(DataServices::Supabase));
    assert!(!note.contains("no free tier"));
    assert!(note.contains("GitHub Pages"));
    let none = free_first_hosting_note(None, None);
    assert_eq!(none, note);
}

#[test]
fn identifiers_of_hosts_and_services() {
    assert_eq!(AppHost::GithubPages.as_str(), "github-pages");
    assert_eq!(AppHost::CloudflarePages.as_str(), "cloudflare-pages");
    assert_eq!(AppHost::Railway.as_str(), "railway");
    assert_eq!(DataServices::Disabled.as_str(), "none");
    assert_eq!(DataServices::Supabase.as_str(), "supabase");
}
