use vstd::prelude::*;

use crate::providers::{
    ab_testing_id, analytics_id, app_host_id, data_services_id, heatmap_id, AbTestingProvider,
    AnalyticsProvider, AppHost, DataServices, HeatmapProvider,
};
use crate::string_map::{insert_all, StringMap};
use crate::text::{contains, pad_right, pad_right_exec, str_eq, trim_end_newlines, trim_trailing_newlines};

verus! {

/// What to do with the target directory of a new project.
#[derive(Clone, Copy, Debug, PartialEq, Eq, Structural)]
pub enum ScaffoldTarget {
    /// The directory does not exist yet and has to be created.
    CreateDirectory,
    /// The directory exists and is empty.
    UseExisting,
}

/// The steps of a scaffold run, each done once in the order of the plan.
#[derive(Clone, Copy, Debug, PartialEq, Eq, Structural)]
pub enum ScaffoldStep {
    PrepareDirectory,
    WriteTemplate,
    ReadManifest,
    ChooseFeatures,
    LoadScaffold,
    WriteManifest,
    EnsureLocalProviderDefaults,
    WriteEnv,
    WriteEnvExample,
    AppendFeatureStubs,
    WriteFeatureConfigs,
    WriteServicesDoc,
    WriteDeployDoc,
    WriteCiFiles,
    WriteEvaluationRubric,
    WriteGitignore,
    InitGitRepository,
    PrintSummary,
}

/// The order in which a scaffold run takes its steps.
pub open spec fn scaffold_steps() -> Seq<ScaffoldStep> {
    seq![
        ScaffoldStep::PrepareDirectory,
        ScaffoldStep::WriteTemplate,
        ScaffoldStep::ReadManifest,
        ScaffoldStep::ChooseFeatures,
        ScaffoldStep::LoadScaffold,
        ScaffoldStep::WriteManifest,
        ScaffoldStep::EnsureLocalProviderDefaults,
        ScaffoldStep::WriteEnv,
        ScaffoldStep::WriteEnvExample,
        ScaffoldStep::AppendFeatureStubs,
        ScaffoldStep::WriteFeatureConfigs,
        ScaffoldStep::WriteServicesDoc,
        ScaffoldStep::WriteDeployDoc,
        ScaffoldStep::WriteCiFiles,
        ScaffoldStep::WriteEvaluationRubric,
        ScaffoldStep::WriteGitignore,
        ScaffoldStep::InitGitRepository,
        ScaffoldStep::PrintSummary,
    ]
}

/// The message refusing to scaffold into a directory that is not empty.
pub open spec fn not_empty_message(dir: Seq<char>) -> Seq<char> {
    "Refusing to scaffold into `"@ + dir + "` because the directory is not empty."@
}

/// The provider identifier as an optional value, absent for `"none"`.
pub open spec fn provider_opt(value: Seq<char>) -> Option<Seq<char>> {
    if value == "none"@ {
        None
    } else {
        Some(value)
    }
}

/// The `.env.example` contents after the feature stubs are appended, or
/// `None` when there are no stubs and the file stays as it is.
pub open spec fn with_feature_stubs(existing: Seq<char>, stubs: Seq<char>) -> Option<Seq<char>> {
    if stubs.len() == 0 {
        None
    } else {
        Some(trim_trailing_newlines(existing) + stubs)
    }
}

/// The `.gitignore` of a new project.
pub open spec fn gitignore_text() -> Seq<char> {
    ".astro/\ndist/\nnode_modules/\n.astropress/\n.env\n"@
}

/// The fallback project name when the directory has no usable name.
pub open spec fn default_project_name() -> Seq<char> {
    "astropress-site"@
}

/// The box announcing the ready project, one element per line.
pub open spec fn ready_banner_lines(admin_pass: Seq<char>, editor_pass: Seq<char>) -> Seq<Seq<char>> {
    seq![
        "┌──────────────────────────────────────────────────────┐"@,
        "│              Astropress is ready!                    │"@,
        "├──────────────────────────────────────────────────────┤"@,
        "│  Admin URL:     http://localhost:4321/ap-admin       │"@,
        "│  Admin email:   admin@example.com                    │"@,
        "│  Admin pass:    "@ + pad_right(admin_pass, 38) + "│"@,
        "│  Editor email:  editor@example.com                   │"@,
        "│  Editor pass:   "@ + pad_right(editor_pass, 38) + "│"@,
        "├──────────────────────────────────────────────────────┤"@,
        "│  These are also saved in your project's .env file    │"@,
        "└──────────────────────────────────────────────────────┘"@,
    ]
}

/// The steps of a scaffold run, in the order the caller takes them.
pub fn scaffold_plan() -> (plan: Vec<ScaffoldStep>)
    ensures
        plan@ == scaffold_steps(),
{
    let plan = vec![
        ScaffoldStep::PrepareDirectory,
        ScaffoldStep::WriteTemplate,
        ScaffoldStep::ReadManifest,
        ScaffoldStep::ChooseFeatures,
        ScaffoldStep::LoadScaffold,
        ScaffoldStep::WriteManifest,
        ScaffoldStep::EnsureLocalProviderDefaults,
        ScaffoldStep::WriteEnv,
        ScaffoldStep::WriteEnvExample,
        ScaffoldStep::AppendFeatureStubs,
        ScaffoldStep::WriteFeatureConfigs,
        ScaffoldStep::WriteServicesDoc,
        ScaffoldStep::WriteDeployDoc,
        ScaffoldStep::WriteCiFiles,
        ScaffoldStep::WriteEvaluationRubric,
        ScaffoldStep::WriteGitignore,
        ScaffoldStep::InitGitRepository,
        ScaffoldStep::PrintSummary,
    ];
    assert(plan@ =~= scaffold_steps());
    plan
}

/// Converts a provider identifier to `Some(value)` unless it is `"none"`.
pub fn as_provider_opt(value: &str) -> (r: Option<&str>)
    ensures
        match r {
            Some(v) => v == value && provider_opt(value@) == Some(value@),
            None => provider_opt(value@) is None,
        },
{
    if !str_eq(value, "none") {
        Some(value)
    } else {
        None
    }
}

/// The new contents of `.env.example` once the optional-feature stubs are
/// appended: the trailing newlines of the existing contents are dropped and
/// the stubs follow. `None` when there are no stubs to append.
pub fn append_feature_stubs(existing: &str, stubs: &str) -> (r: Option<String>)
    ensures
        match r {
            Some(s) => with_feature_stubs(existing@, stubs@) == Some(s@),
            None => with_feature_stubs(existing@, stubs@) is None,
        },
{
    if stubs.unicode_len() == 0 {
        None
    } else {
        Some(trim_end_newlines(existing).concat(stubs))
    }
}

/// Decides what to do with the target directory: a missing directory is
/// created, an empty one is used, and one that holds anything is refused
/// with an error naming it.
pub fn check_scaffold_target(dir_display: &str, exists: bool, has_entries: bool) -> (r: Result<
    ScaffoldTarget,
    String,
>)
    ensures
        !exists ==> r == Ok::<ScaffoldTarget, String>(ScaffoldTarget::CreateDirectory),
        exists && !has_entries ==> r == Ok::<ScaffoldTarget, String>(ScaffoldTarget::UseExisting),
        exists && has_entries ==> (r matches Err(m) && m@ == not_empty_message(dir_display@)),
{
    if !exists {
        Ok(ScaffoldTarget::CreateDirectory)
    } else if !has_entries {
        Ok(ScaffoldTarget::UseExisting)
    } else {
        proof {
            reveal_strlit("Refusing to scaffold into `");
            reveal_strlit("` because the directory is not empty.");
        }
        Err(
            "Refusing to scaffold into `".to_owned().concat(dir_display).concat(
                "` because the directory is not empty.",
            ),
        )
    }
}

/// The project name to use when the directory name is missing or not
/// valid text: `"astropress-site"`.
pub fn fallback_project_name(dir_name: Option<&str>) -> (r: &str)
    ensures
        match dir_name {
            Some(n) => r == n,
            None => r@ == default_project_name(),
        },
{
    match dir_name {
        Some(n) => n,
        None => "astropress-site",
    }
}

/// Adds the package scripts of the scaffold to the manifest's scripts, in
/// order, each replacing a script of the same name.
pub fn merge_package_scripts(scripts: &mut StringMap, package_scripts: &Vec<(String, String)>)
    ensures
        final(scripts)@ == insert_all(old(scripts)@, package_scripts@),
{
    let n = package_scripts.len();
    let mut i: usize = 0;
    while i < n
        invariant
            n == package_scripts@.len(),
            i <= n,
            scripts@ == insert_all(old(scripts)@, package_scripts@.take(i as int)),
        decreases n - i,
    {
        let name = package_scripts[i].0.clone();
        let command = package_scripts[i].1.clone();
        scripts.insert(name, command);
        assert(package_scripts@.take(i + 1).drop_last() =~= package_scripts@.take(i as int));
        i += 1;
    }
    assert(package_scripts@.take(n as int) =~= package_scripts@);
}

/// The `.gitignore` of a new project; it keeps the generated `.env` out of
/// the repository.
pub fn gitignore_contents() -> (s: String)
    ensures
        s@ == gitignore_text(),
{
    ".astro/\ndist/\nnode_modules/\n.astropress/\n.env\n".to_owned()
}

/// The box announcing the ready project, with both passwords padded to the
/// width of the box.
pub fn ready_banner(admin_pass: &str, editor_pass: &str) -> (lines: Vec<String>)
    ensures
        lines@.map_values(|l: String| l@) == ready_banner_lines(admin_pass@, editor_pass@),
{
    let top = "┌──────────────────────────────────────────────────────┐";
    let rule = "├──────────────────────────────────────────────────────┤";
    let bottom = "└──────────────────────────────────────────────────────┘";
    let mut lines: Vec<String> = Vec::new();
    lines.push(top.to_owned());
    lines.push("│              Astropress is ready!                    │".to_owned());
    lines.push(rule.to_owned());
    lines.push("│  Admin URL:     http://localhost:4321/ap-admin       │".to_owned());
    lines.push("│  Admin email:   admin@example.com                    │".to_owned());
    lines.push(
        "│  Admin pass:    ".to_owned().concat(pad_right_exec(admin_pass, 38).as_str()).concat(
            "│",
        ),
    );
    lines.push("│  Editor email:  editor@example.com                   │".to_owned());
    lines.push(
        "│  Editor pass:   ".to_owned().concat(pad_right_exec(editor_pass, 38).as_str()).concat(
            "│",
        ),
    );
    lines.push(rule.to_owned());
    lines.push("│  These are also saved in your project's .env file    │".to_owned());
    lines.push(bottom.to_owned());
    assert(lines@.map_values(|l: String| l@) =~= ready_banner_lines(admin_pass@, editor_pass@));
    lines
}

/// The identifier of the chosen host, `"none"` when there is none.
pub fn host_label(app_host: Option<AppHost>) -> (r: &'static str)
    ensures
        r@ == match app_host {
            Some(h) => app_host_id(h),
            None => "none"@,
        },
{
    match app_host {
        Some(h) => h.as_str(),
        None => "none",
    }
}

/// The identifier of the chosen content services, `"none"` when there are none.
pub fn services_label(data_services: Option<DataServices>) -> (r: &'static str)
    ensures
        r@ == match data_services {
            Some(d) => data_services_id(d),
            None => "none"@,
        },
{
    match data_services {
        Some(d) => d.as_str(),
        None => "none",
    }
}

/// Merging keeps every script the scaffold does not name, and each script it
/// names ends up with the command of its last occurrence.
pub proof fn lemma_merge_scripts(
    m: Map<Seq<char>, Seq<char>>,
    pairs: Seq<(String, String)>,
    name: Seq<char>,
)
    ensures
        (forall|i: int| 0 <= i < pairs.len() ==> #[trigger] pairs[i].0@ != name) ==> (insert_all(
            m,
            pairs,
        ).contains_key(name) == m.contains_key(name) && (m.contains_key(name) ==> insert_all(
            m,
            pairs,
        )[name] == m[name])),
        forall|i: int|
            0 <= i < pairs.len() && pairs[i].0@ == name && (forall|j: int|
                i < j < pairs.len() ==> #[trigger] pairs[j].0@ != name) ==> insert_all(
                m,
                pairs,
            ).contains_key(name) && insert_all(m, pairs)[name] == pairs[i].1@,
    decreases pairs.len(),
{
    if pairs.len() > 0 {
        let init = pairs.drop_last();
        lemma_merge_scripts(m, init, name);
        assert forall|i: int|
            0 <= i < pairs.len() && pairs[i].0@ == name && (forall|j: int|
                i < j < pairs.len() ==> #[trigger] pairs[j].0@ != name) implies insert_all(
            m,
            pairs,
        ).contains_key(name) && insert_all(m, pairs)[name] == pairs[i].1@ by {
            if i < pairs.len() - 1 {
                assert(pairs[pairs.len() - 1].0@ != name);
                assert(init[i] == pairs[i]);
                assert forall|j: int| i < j < init.len() implies #[trigger] init[j].0@ != name by {
                    assert(init[j] == pairs[j]);
                }
            }
        }
        if forall|i: int| 0 <= i < pairs.len() ==> #[trigger] pairs[i].0@ != name {
            assert forall|i: int| 0 <= i < init.len() implies #[trigger] init[i].0@ != name by {
                assert(init[i] == pairs[i]);
            }
            assert(pairs[pairs.len() - 1].0@ != name);
        }
    }
}

/// The `.gitignore` of a new project lists the generated `.env`, so the
/// secrets it holds never reach the repository.
pub proof fn lemma_gitignore_keeps_env_out()
    ensures
        contains(gitignore_text(), ".env\n"@),
{
    reveal_strlit(".astro/\ndist/\nnode_modules/\n.astropress/\n.env\n");
    reveal_strlit(".env\n");
    let g = gitignore_text();
    let i = g.len() - 5;
    assert(g.subrange(i, i + 5) =~= ".env\n"@);
}

/// A scaffold run takes each step once, and the repository is set up only
/// after `.gitignore` is written, and after the generated `.env` and
/// `.env.example`: the repository never sees the generated `.env`.
pub proof fn lemma_gitignore_before_git_init()
    ensures
        forall|i: int, j: int|
            0 <= i < j < scaffold_steps().len() ==> #[trigger] scaffold_steps()[i]
                != #[trigger] scaffold_steps()[j],
        exists|g: int, e: int, x: int, t: int|
            0 <= e < x < g < t < scaffold_steps().len()
                && scaffold_steps()[e] == ScaffoldStep::WriteEnv
                && scaffold_steps()[x] == ScaffoldStep::WriteEnvExample
                && scaffold_steps()[g] == ScaffoldStep::WriteGitignore
                && scaffold_steps()[t] == ScaffoldStep::InitGitRepository,
{
    let s = scaffold_steps();
    assert(s[7] == ScaffoldStep::WriteEnv);
    assert(s[8] == ScaffoldStep::WriteEnvExample);
    assert(s[15] == ScaffoldStep::WriteGitignore);
    assert(s[16] == ScaffoldStep::InitGitRepository);
}

/// The scaffold run takes its eighteen steps in this order: the directory
/// is prepared and the template written; the manifest is read, the features
/// chosen and the scaffold loaded before the manifest is written; the local
/// provider defaults are settled before `.env` is written; `.env.example` is
/// written before the feature stubs are appended to it; then the feature
/// configurations, the service guide, the deploy guide, the CI files and the
/// evaluation rubric; then `.gitignore`, the repository, and the summary.
pub proof fn lemma_scaffold_order()
    ensures
        scaffold_steps().len() == 18,
        scaffold_steps()[0] == ScaffoldStep::PrepareDirectory,
        scaffold_steps()[1] == ScaffoldStep::WriteTemplate,
        scaffold_steps()[2] == ScaffoldStep::ReadManifest,
        scaffold_steps()[3] == ScaffoldStep::ChooseFeatures,
        scaffold_steps()[4] == ScaffoldStep::LoadScaffold,
        scaffold_steps()[5] == ScaffoldStep::WriteManifest,
        scaffold_steps()[6] == ScaffoldStep::EnsureLocalProviderDefaults,
        scaffold_steps()[7] == ScaffoldStep::WriteEnv,
        scaffold_steps()[8] == ScaffoldStep::WriteEnvExample,
        scaffold_steps()[9] == ScaffoldStep::AppendFeatureStubs,
        scaffold_steps()[10] == ScaffoldStep::WriteFeatureConfigs,
        scaffold_steps()[11] == ScaffoldStep::WriteServicesDoc,
        scaffold_steps()[12] == ScaffoldStep::WriteDeployDoc,
        scaffold_steps()[13] == ScaffoldStep::WriteCiFiles,
        scaffold_steps()[14] == ScaffoldStep::WriteEvaluationRubric,
        scaffold_steps()[15] == ScaffoldStep::WriteGitignore,
        scaffold_steps()[16] == ScaffoldStep::InitGitRepository,
        scaffold_steps()[17] == ScaffoldStep::PrintSummary,
        forall|i: int, j: int|
            0 <= i < scaffold_steps().len() && 0 <= j < scaffold_steps().len()
                && scaffold_steps()[i] == ScaffoldStep::EnsureLocalProviderDefaults
                && scaffold_steps()[j] == ScaffoldStep::WriteEnv ==> i < j,
        forall|i: int, j: int|
            0 <= i < scaffold_steps().len() && 0 <= j < scaffold_steps().len()
                && scaffold_steps()[i] == ScaffoldStep::WriteEnvExample
                && scaffold_steps()[j] == ScaffoldStep::AppendFeatureStubs ==> i < j,
{
    lemma_gitignore_before_git_init();
}

/// A provider's identifier is filtered out exactly when the provider is
/// switched off; any other identifier passes unchanged.
pub proof fn lemma_only_disabled_providers_are_filtered(
    a: AnalyticsProvider,
    b: AbTestingProvider,
    h: HeatmapProvider,
    v: Seq<char>,
)
    ensures
        provider_opt(analytics_id(a)) is None <==> a == AnalyticsProvider::Disabled,
        provider_opt(ab_testing_id(b)) is None <==> b == AbTestingProvider::Disabled,
        provider_opt(heatmap_id(h)) is None <==> h == HeatmapProvider::Disabled,
        v != "none"@ ==> provider_opt(v) == Some(v),
{
    reveal_strlit("none");
    reveal_strlit("umami");
    reveal_strlit("posthog");
    reveal_strlit("growthbook");
    assert("umami"@ != "none"@) by {
        assert("umami"@[0] != "none"@[0]);
    }
    assert("posthog"@ != "none"@) by {
        assert("posthog"@.len() != "none"@.len());
    }
    assert("growthbook"@ != "none"@) by {
        assert("growthbook"@.len() != "none"@.len());
    }
}

} // verus!
