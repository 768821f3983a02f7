use vstd::prelude::*;

use crate::providers::{AppHost, DataServices};

verus! {

/// The note steering a Railway deployment back to hosts with a free tier.
pub open spec fn railway_note() -> Seq<char> {
    "Railway has no free tier. For a free-first stack, host on GitHub Pages (static) or Vercel/Netlify + Supabase."@
}

/// The general note on hosting for free.
pub open spec fn free_first_note() -> Seq<char> {
    "Free-first hosting: GitHub Pages serves static sites, and Vercel/Netlify + Supabase runs the admin on free tiers."@
}

/// The note that points at `SERVICES.md`.
pub open spec fn services_note() -> Seq<char> {
    "SERVICES.md lists the services you selected and how to start on their free cloud tiers."@
}

/// The hosting note printed after setup: users who picked Railway are told
/// it has no free tier and pointed back to the free hosts; everyone else
/// gets the general free-first note.
pub fn free_first_hosting_note(app_host: Option<AppHost>, data_services: Option<DataServices>) -> (s: String)
    ensures
        app_host == Some(AppHost::Railway) ==> s@ == railway_note(),
        app_host != Some(AppHost::Railway) ==> s@ == free_first_note(),
{
    match app_host {
        Some(AppHost::Railway) => "Railway has no free tier. For a free-first stack, host on GitHub Pages (static) or Vercel/Netlify + Supabase.".to_owned(),
        _ => "Free-first hosting: GitHub Pages serves static sites, and Vercel/Netlify + Supabase runs the admin on free tiers.".to_owned(),
    }
}

/// The note on the service guide, printed only when `SERVICES.md` was written.
pub fn selected_services_note(services_doc_written: bool) -> (r: Option<String>)
    ensures
        services_doc_written ==> (r matches Some(s) && s@ == services_note()),
        !services_doc_written ==> r is None,
{
    if services_doc_written {
        Some("SERVICES.md lists the services you selected and how to start on their free cloud tiers.".to_owned())
    } else {
        None
    }
}

} // verus!
