use vstd::prelude::*;

use crate::providers::{AbTestingProvider, AnalyticsProvider, HeatmapProvider};

verus! {

/// The content-management options the setup wizard offers.
#[derive(Clone, Copy, Debug, PartialEq, Eq, Structural)]
pub enum CmsChoice {
    BuiltIn,
    Keystatic,
    Payload,
}

/// The optional features chosen for a new project.
#[derive(Debug, PartialEq, Eq)]
pub struct AllFeatures {
    pub analytics: AnalyticsProvider,
    pub ab_testing: AbTestingProvider,
    pub heatmap: HeatmapProvider,
    pub enable_api: bool,
    /// The donation services chosen, by identifier.
    pub donations: Vec<String>,
}

/// What a set of features holds, the donation services by identifier.
pub struct FeaturesView {
    pub analytics: AnalyticsProvider,
    pub ab_testing: AbTestingProvider,
    pub heatmap: HeatmapProvider,
    pub enable_api: bool,
    pub donations: Seq<Seq<char>>,
}

impl View for AllFeatures {
    type V = FeaturesView;

    open spec fn view(&self) -> FeaturesView {
        FeaturesView {
            analytics: self.analytics,
            ab_testing: self.ab_testing,
            heatmap: self.heatmap,
            enable_api: self.enable_api,
            donations: self.donations@.map_values(|d: String| d@),
        }
    }
}

/// The default features: no optional service, the API off, no donation service.
pub open spec fn default_features_view() -> FeaturesView {
    FeaturesView {
        analytics: AnalyticsProvider::Disabled,
        ab_testing: AbTestingProvider::Disabled,
        heatmap: HeatmapProvider::Disabled,
        enable_api: false,
        donations: Seq::empty(),
    }
}

/// The features `astropress new` settles on from its flags: when any of
/// the four feature flags is given, each given flag sets its feature and
/// every other feature keeps its default; with none of them, the defaults
/// when asked to skip the questions, and otherwise nothing, so the wizard asks.
pub open spec fn chosen_features(
    analytics_flag: Option<AnalyticsProvider>,
    ab_testing_flag: Option<AbTestingProvider>,
    heatmap_flag: Option<HeatmapProvider>,
    enable_api_flag: bool,
    yes_defaults_flag: bool,
) -> Option<FeaturesView> {
    if analytics_flag is Some || ab_testing_flag is Some || heatmap_flag is Some || enable_api_flag {
        Some(
            FeaturesView {
                analytics: if analytics_flag is Some {
                    analytics_flag->0
                } else {
                    AnalyticsProvider::Disabled
                },
                ab_testing: if ab_testing_flag is Some {
                    ab_testing_flag->0
                } else {
                    AbTestingProvider::Disabled
                },
                heatmap: if heatmap_flag is Some {
                    heatmap_flag->0
                } else {
                    HeatmapProvider::Disabled
                },
                enable_api: enable_api_flag,
                donations: Seq::empty(),
            },
        )
    } else if yes_defaults_flag {
        Some(default_features_view())
    } else {
        None
    }
}

/// Whether `f` holds the default features: no optional service, the API
/// switched off and no donation service.
pub open spec fn is_default_features(f: AllFeatures) -> bool {
    &&& f.analytics == AnalyticsProvider::Disabled
    &&& f.ab_testing == AbTestingProvider::Disabled
    &&& f.heatmap == HeatmapProvider::Disabled
    &&& !f.enable_api
    &&& f.donations@ == Seq::<String>::empty()
}

/// Whether any feature flag was given on the command line.
pub open spec fn any_feature_flag(
    analytics_flag: Option<AnalyticsProvider>,
    ab_testing_flag: Option<AbTestingProvider>,
    heatmap_flag: Option<HeatmapProvider>,
    enable_api_flag: bool,
) -> bool {
    analytics_flag is Some || ab_testing_flag is Some || heatmap_flag is Some || enable_api_flag
}

/// Whether `f` holds the features that the command-line flags select:
/// each unset flag stands for no service, and every other feature keeps
/// its default.
pub open spec fn selected_by_flags(
    f: AllFeatures,
    analytics_flag: Option<AnalyticsProvider>,
    ab_testing_flag: Option<AbTestingProvider>,
    heatmap_flag: Option<HeatmapProvider>,
    enable_api_flag: bool,
) -> bool {
    &&& f.analytics == match analytics_flag {
        Some(a) => a,
        None => AnalyticsProvider::Disabled,
    }
    &&& f.ab_testing == match ab_testing_flag {
        Some(a) => a,
        None => AbTestingProvider::Disabled,
    }
    &&& f.heatmap == match heatmap_flag {
        Some(h) => h,
        None => HeatmapProvider::Disabled,
    }
    &&& f.enable_api == enable_api_flag
    &&& f.donations@ == Seq::<String>::empty()
}

impl AllFeatures {
    /// The features of a project set up without any choice: no optional
    /// service and the API switched off.
    pub fn defaults() -> (f: AllFeatures)
        ensures
            is_default_features(f),
            f@ == default_features_view(),
    {
        let f = AllFeatures {
            analytics: AnalyticsProvider::Disabled,
            ab_testing: AbTestingProvider::Disabled,
            heatmap: HeatmapProvider::Disabled,
            enable_api: false,
            donations: Vec::new(),
        };
        assert(f.donations@.map_values(|d: String| d@) =~= Seq::<Seq<char>>::empty());
        f
    }
}

/// Picks the features from the command-line flags, or the defaults when
/// asked to skip the questions; `None` when the interactive wizard has to
/// ask. Any feature flag takes precedence over the request for defaults;
/// the features no flag sets keep their defaults.
pub fn choose_features(
    analytics_flag: Option<AnalyticsProvider>,
    ab_testing_flag: Option<AbTestingProvider>,
    heatmap_flag: Option<HeatmapProvider>,
    enable_api_flag: bool,
    yes_defaults_flag: bool,
) -> (r: Option<AllFeatures>)
    ensures
        any_feature_flag(analytics_flag, ab_testing_flag, heatmap_flag, enable_api_flag) ==> (r matches Some(
            f,
        ) && selected_by_flags(f, analytics_flag, ab_testing_flag, heatmap_flag, enable_api_flag)),
        !any_feature_flag(analytics_flag, ab_testing_flag, heatmap_flag, enable_api_flag)
            && yes_defaults_flag ==> (r matches Some(f) && is_default_features(f)),
        !any_feature_flag(analytics_flag, ab_testing_flag, heatmap_flag, enable_api_flag)
            && !yes_defaults_flag ==> r is None,
        match r {
            Some(f) => chosen_features(
                analytics_flag,
                ab_testing_flag,
                heatmap_flag,
                enable_api_flag,
                yes_defaults_flag,
            ) == Some(f@),
            None => chosen_features(
                analytics_flag,
                ab_testing_flag,
                heatmap_flag,
                enable_api_flag,
                yes_defaults_flag,
            ) is None,
        },
{
    if analytics_flag.is_some() || ab_testing_flag.is_some() || heatmap_flag.is_some()
        || enable_api_flag {
        let defaults = AllFeatures::defaults();
        Some(
            AllFeatures {
                analytics: match analytics_flag {
                    Some(a) => a,
                    None => AnalyticsProvider::Disabled,
                },
                ab_testing: match ab_testing_flag {
                    Some(a) => a,
                    None => AbTestingProvider::Disabled,
                },
                heatmap: match heatmap_flag {
                    Some(h) => h,
                    None => HeatmapProvider::Disabled,
                },
                enable_api: enable_api_flag,
                ..defaults
            },
        )
    } else if yes_defaults_flag {
        Some(AllFeatures::defaults())
    } else {
        None
    }
}

/// A heatmap flag alone selects the features, with or without the request
/// for defaults: the chosen heatmap, every other service off, the API off
/// and no donation service.
pub proof fn lemma_heatmap_flag_alone_selects(h: HeatmapProvider, yes_defaults_flag: bool)
    ensures
        chosen_features(None, None, Some(h), false, yes_defaults_flag) matches Some(f) && f.heatmap
            == h && f.analytics == AnalyticsProvider::Disabled && f.ab_testing
            == AbTestingProvider::Disabled && !f.enable_api && f.donations.len() == 0,
{
}

/// Each feature flag sets its own feature whatever the other flags are,
/// and any one of the four flags keeps the wizard from asking.
pub proof fn lemma_each_flag_sets_its_feature(
    analytics_flag: Option<AnalyticsProvider>,
    ab_testing_flag: Option<AbTestingProvider>,
    heatmap_flag: Option<HeatmapProvider>,
    enable_api_flag: bool,
    yes_defaults_flag: bool,
)
    ensures
        analytics_flag matches Some(a) ==> (chosen_features(
            analytics_flag,
            ab_testing_flag,
            heatmap_flag,
            enable_api_flag,
            yes_defaults_flag,
        ) matches Some(f) && f.analytics == a),
        ab_testing_flag matches Some(b) ==> (chosen_features(
            analytics_flag,
            ab_testing_flag,
            heatmap_flag,
            enable_api_flag,
            yes_defaults_flag,
        ) matches Some(f) && f.ab_testing == b),
        heatmap_flag matches Some(h) ==> (chosen_features(
            analytics_flag,
            ab_testing_flag,
            heatmap_flag,
            enable_api_flag,
            yes_defaults_flag,
        ) matches Some(f) && f.heatmap == h),
        enable_api_flag ==> (chosen_features(
            analytics_flag,
            ab_testing_flag,
            heatmap_flag,
            enable_api_flag,
            yes_defaults_flag,
        ) matches Some(f) && f.enable_api),
        chosen_features(analytics_flag, ab_testing_flag, heatmap_flag, enable_api_flag, yes_defaults_flag)
            matches Some(f) ==> f.donations.len() == 0,
{
}

/// When a feature flag is given the request for defaults changes nothing;
/// with no flag it decides between the defaults and asking the wizard.
pub proof fn lemma_flags_outrank_defaults_request(
    analytics_flag: Option<AnalyticsProvider>,
    ab_testing_flag: Option<AbTestingProvider>,
    heatmap_flag: Option<HeatmapProvider>,
    enable_api_flag: bool,
)
    ensures
        (analytics_flag is Some || ab_testing_flag is Some || heatmap_flag is Some || enable_api_flag)
            ==> chosen_features(analytics_flag, ab_testing_flag, heatmap_flag, enable_api_flag, true)
            == chosen_features(analytics_flag, ab_testing_flag, heatmap_flag, enable_api_flag, false),
        chosen_features(None, None, None, false, true) == Some(default_features_view()),
        chosen_features(None, None, None, false, false) is None,
        default_features_view().analytics == AnalyticsProvider::Disabled
            && default_features_view().ab_testing == AbTestingProvider::Disabled
            && default_features_view().heatmap == HeatmapProvider::Disabled
            && !default_features_view().enable_api && default_features_view().donations.len() == 0,
{
}

} // verus!
