use vstd::prelude::*;

verus! {

/// The analytics service a project is scaffolded with.
#[derive(Clone, Copy, Debug, PartialEq, Eq, Structural)]
pub enum AnalyticsProvider {
    Disabled,
    Umami,
    PostHog,
}

/// The A/B testing service a project is scaffolded with.
#[derive(Clone, Copy, Debug, PartialEq, Eq, Structural)]
pub enum AbTestingProvider {
    Disabled,
    GrowthBook,
}

/// The heatmap service a project is scaffolded with.
#[derive(Clone, Copy, Debug, PartialEq, Eq, Structural)]
pub enum HeatmapProvider {
    Disabled,
    PostHog,
}

/// Where the scaffolded application is hosted.
#[derive(Clone, Copy, Debug, PartialEq, Eq, Structural)]
pub enum AppHost {
    GithubPages,
    Vercel,
    Netlify,
    CloudflarePages,
    Railway,
}

/// The hosted content services of a scaffolded project.
#[derive(Clone, Copy, Debug, PartialEq, Eq, Structural)]
pub enum DataServices {
    Disabled,
    Supabase,
}

/// The database a scaffolded project runs against locally.
#[derive(Clone, Copy, Debug, PartialEq, Eq, Structural)]
pub enum LocalProvider {
    Sqlite,
    Supabase,
}

/// The identifier of an analytics provider.
pub open spec fn analytics_id(p: AnalyticsProvider) -> Seq<char> {
    match p {
        AnalyticsProvider::Disabled => "none"@,
        AnalyticsProvider::Umami => "umami"@,
        AnalyticsProvider::PostHog => "posthog"@,
    }
}

/// The identifier of an A/B testing provider.
pub open spec fn ab_testing_id(p: AbTestingProvider) -> Seq<char> {
    match p {
        AbTestingProvider::Disabled => "none"@,
        AbTestingProvider::GrowthBook => "growthbook"@,
    }
}

/// The identifier of a heatmap provider.
pub open spec fn heatmap_id(p: HeatmapProvider) -> Seq<char> {
    match p {
        HeatmapProvider::Disabled => "none"@,
        HeatmapProvider::PostHog => "posthog"@,
    }
}

/// The identifier of an application host.
pub open spec fn app_host_id(h: AppHost) -> Seq<char> {
    match h {
        AppHost::GithubPages => "github-pages"@,
        AppHost::Vercel => "vercel"@,
        AppHost::Netlify => "netlify"@,
        AppHost::CloudflarePages => "cloudflare-pages"@,
        AppHost::Railway => "railway"@,
    }
}

/// The identifier of a content-services choice.
pub open spec fn data_services_id(d: DataServices) -> Seq<char> {
    match d {
        DataServices::Disabled => "none"@,
        DataServices::Supabase => "supabase"@,
    }
}

/// The identifier of a local provider.
pub open spec fn local_provider_id(p: LocalProvider) -> Seq<char> {
    match p {
        LocalProvider::Sqlite => "sqlite"@,
        LocalProvider::Supabase => "supabase"@,
    }
}

impl AnalyticsProvider {
    /// The provider's identifier, `"none"` for no provider.
    pub fn as_str(&self) -> (s: &'static str)
        ensures
            s@ == analytics_id(*self),
    {
        match self {
            AnalyticsProvider::Disabled => "none",
            AnalyticsProvider::Umami => "umami",
            AnalyticsProvider::PostHog => "posthog",
        }
    }
}

impl AbTestingProvider {
    /// The provider's identifier, `"none"` for no provider.
    pub fn as_str(&self) -> (s: &'static str)
        ensures
            s@ == ab_testing_id(*self),
    {
        match self {
            AbTestingProvider::Disabled => "none",
            AbTestingProvider::GrowthBook => "growthbook",
        }
    }
}

impl HeatmapProvider {
    /// The provider's identifier, `"none"` for no provider.
    pub fn as_str(&self) -> (s: &'static str)
        ensures
            s@ == heatmap_id(*self),
    {
        match self {
            HeatmapProvider::Disabled => "none",
            HeatmapProvider::PostHog => "posthog",
        }
    }
}

impl AppHost {
    /// The host's identifier.
    pub fn as_str(&self) -> (s: &'static str)
        ensures
            s@ == app_host_id(*self),
    {
        match self {
            AppHost::GithubPages => "github-pages",
            AppHost::Vercel => "vercel",
            AppHost::Netlify => "netlify",
            AppHost::CloudflarePages => "cloudflare-pages",
            AppHost::Railway => "railway",
        }
    }
}

impl DataServices {
    /// The identifier of the content-services choice.
    pub fn as_str(&self) -> (s: &'static str)
        ensures
            s@ == data_services_id(*self),
    {
        match self {
            DataServices::Disabled => "none",
            DataServices::Supabase => "supabase",
        }
    }
}

impl LocalProvider {
    /// The provider's identifier.
    pub fn as_str(&self) -> (s: &'static str)
        ensures
            s@ == local_provider_id(*self),
    {
        match self {
            LocalProvider::Sqlite => "sqlite",
            LocalProvider::Supabase => "supabase",
        }
    }
}

} // verus!
