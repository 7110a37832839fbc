//! The icon fallback chain: an app id is resolved to a servable file path
//! through ordered tiers, each tried only after the one before it reported
//! absence. The caller performs the existence checks and opens; this module
//! decides which path to try next and when the chain is exhausted, and it
//! builds each tier's path.

use vstd::prelude::*;

use crate::text::{lowercase_of, to_lowercase};

verus! {

use vstd::string::StringExecFns;

/// The tiers of the chain, most specific first.
#[derive(Clone, Copy, PartialEq, Eq, Structural, Debug)]
pub enum IconTier {
    /// The operator-configured, installation-specific icon directory, with
    /// the raw app id as filename.
    Install,
    /// The bundled per-app icon directory, with the lowercased app id and a
    /// fixed image extension as filename.
    Bundled,
    /// The single bundled default vector icon shared by every unresolved
    /// app id.
    Default,
}

/// Where a lookup stands: a tier still to try, a tier that yielded a file,
/// or an exhausted chain.
#[derive(Clone, Copy, PartialEq, Eq, Structural, Debug)]
pub enum IconLookup {
    Pending(IconTier),
    Found(IconTier),
    Missing,
}

/// The path of the installation-specific icon for an app.
pub open spec fn install_icon_path(dir: Seq<char>, app: Seq<char>) -> Seq<char> {
    dir + seq!['/'] + app
}

/// The path of the bundled per-app icon for an app.
pub open spec fn bundled_icon_path(app: Seq<char>) -> Seq<char> {
    "../plugins/timeline_plugin_notification/icons/"@ + lowercase_of(app) + ".ico"@
}

/// The path of the bundled default vector icon.
pub open spec fn default_icon_path() -> Seq<char> {
    "../plugins/timeline_plugin_notification/icon.svg"@
}

/// The path a given tier serves for an app.
pub open spec fn tier_path(tier: IconTier, dir: Seq<char>, app: Seq<char>) -> Seq<char> {
    match tier {
        IconTier::Install => install_icon_path(dir, app),
        IconTier::Bundled => bundled_icon_path(app),
        IconTier::Default => default_icon_path(),
    }
}

/// Builds the path a tier serves for an app, `dir` being the configured
/// installation-specific icon directory.
pub fn icon_tier_path(dir: &str, app: &str, tier: &IconTier) -> (r: String)
    ensures
        r@ == tier_path(*tier, dir@, app@),
{
    match tier {
        IconTier::Install => {
            let mut p = String::from_str(dir);
            p.append("/");
            p.append(app);
            proof {
                reveal_strlit("/");
                assert(p@ =~= install_icon_path(dir@, app@));
            }
            p
        },
        IconTier::Bundled => {
            let mut p = String::from_str("../plugins/timeline_plugin_notification/icons/");
            let folded = to_lowercase(app);
            p.append(folded.as_str());
            p.append(".ico");
            p
        },
        IconTier::Default => String::from_str("../plugins/timeline_plugin_notification/icon.svg"),
    }
}

/// How one step of the chain moves: a pending tier that yields a file is
/// where the lookup ends; one that reports absence hands over to the next
/// tier, and the last tier's absence exhausts the chain. A finished lookup
/// does not move.
pub open spec fn advance_spec(s: IconLookup, available: bool) -> IconLookup {
    match s {
        IconLookup::Pending(t) => if available {
            IconLookup::Found(t)
        } else {
            match t {
                IconTier::Install => IconLookup::Pending(IconTier::Bundled),
                IconTier::Bundled => IconLookup::Pending(IconTier::Default),
                IconTier::Default => IconLookup::Missing,
            }
        },
        _ => s,
    }
}

/// A fresh lookup: the most specific tier is tried first.
pub fn icon_lookup_start() -> (r: IconLookup)
    ensures
        r == IconLookup::Pending(IconTier::Install),
{
    IconLookup::Pending(IconTier::Install)
}

/// Moves the lookup by one tier's outcome. `available` says whether the
/// pending tier's file existed and opened; an open failure after a positive
/// existence check counts as absence for that tier, so the chain degrades
/// rather than surfacing a filesystem error.
pub fn icon_lookup_advance(s: &IconLookup, available: bool) -> (r: IconLookup)
    ensures
        r == advance_spec(*s, available),
{
    match s {
        IconLookup::Pending(t) => {
            if available {
                IconLookup::Found(*t)
            } else {
                match t {
                    IconTier::Install => IconLookup::Pending(IconTier::Bundled),
                    IconTier::Bundled => IconLookup::Pending(IconTier::Default),
                    IconTier::Default => IconLookup::Missing,
                }
            }
        },
        IconLookup::Found(t) => IconLookup::Found(*t),
        IconLookup::Missing => IconLookup::Missing,
    }
}

/// The outcome the chain owes for a given availability of the three tiers:
/// the most specific available tier, and absence only when no tier has the
/// file.
pub open spec fn chain_outcome(
    install_available: bool,
    bundled_available: bool,
    default_available: bool,
) -> IconLookup {
    if install_available {
        IconLookup::Found(IconTier::Install)
    } else if bundled_available {
        IconLookup::Found(IconTier::Bundled)
    } else if default_available {
        IconLookup::Found(IconTier::Default)
    } else {
        IconLookup::Missing
    }
}

/// Tier ordering: run from the start through each tier's outcome, the chain
/// ends at the most specific available tier — the installation-specific file
/// wins even when a bundled fallback also exists, and when only the bundled
/// default exists every app id resolves to it. Once the default icon is
/// present the chain never reports absence.
pub proof fn lemma_tier_ordering(
    install_available: bool,
    bundled_available: bool,
    default_available: bool,
)
    ensures
        advance_spec(
            advance_spec(
                advance_spec(IconLookup::Pending(IconTier::Install), install_available),
                bundled_available,
            ),
            default_available,
        ) == chain_outcome(install_available, bundled_available, default_available),
        default_available ==> chain_outcome(
            install_available,
            bundled_available,
            default_available,
        ) is Found,
{
}

/// The relative URL under which one app's icon is served.
pub fn icon_url(app: &str) -> (r: String)
    ensures
        r@ == "/api/plugin/timeline_plugin_notification/icon/"@ + app@,
{
    let mut p = String::from_str("/api/plugin/timeline_plugin_notification/icon/");
    p.append(app);
    p
}

} // verus!
