//! The plugin facade: its configuration surface, its construct-before-serve
//! initialization, and the "get events in range, compressed" operation the
//! host's timeline aggregator consumes.

use vstd::prelude::*;

use crate::apps::{table_of, AppsMap};
use crate::compress::{compress, compresses_to};
use crate::events::{CompressedEvent, PluginKind, TimeRange};
use crate::store::{matching_events, EventStore};

verus! {

/// The configuration this plugin consumes: the path of the app-name lookup
/// source, and the path of the installation-specific icon directory.
pub struct ConfigData {
    pub apps_file: String,
    pub app_icon_files: String,
}

/// The plugin: its configuration and the app-name table, built once before
/// any request is served and read-only afterwards.
pub struct Plugin {
    config: ConfigData,
    apps_map: AppsMap,
}

impl Plugin {
    /// The app-name mapping the plugin resolves display labels against.
    pub closed spec fn apps_table(&self) -> Map<Seq<char>, Seq<char>> {
        self.apps_map.table()
    }

    /// The configured installation-specific icon directory.
    pub closed spec fn spec_icon_dir(&self) -> Seq<char> {
        self.config.app_icon_files@
    }

    /// Builds the plugin from its configuration and the full text of the
    /// app-name lookup source. Reading that file, and failing plugin startup
    /// when it cannot be read, is the host-facing caller's part.
    pub fn new(config: ConfigData, apps_content: &str) -> (p: Plugin)
        ensures
            p.apps_table() == table_of(apps_content@),
            p.spec_icon_dir() == config.app_icon_files@,
    {
        let apps_map = AppsMap::new(apps_content);
        Plugin { config, apps_map }
    }

    /// The tag this plugin's events and routes are scoped by.
    pub fn get_type() -> (k: PluginKind)
        ensures
            k == PluginKind::Notification,
    {
        PluginKind::Notification
    }

    /// The app-name table, for resolving display labels.
    pub fn apps_map(&self) -> (m: &AppsMap)
        ensures
            m.table() == self.apps_table(),
    {
        &self.apps_map
    }

    /// The configured installation-specific icon directory.
    pub fn icon_dir(&self) -> (d: &String)
        ensures
            d@ == self.spec_icon_dir(),
    {
        &self.config.app_icon_files
    }

    /// The query path: every stored event of this plugin's kind whose
    /// instant falls in the range, in store order, each compressed into its
    /// display-ready form with the title resolved against the app-name
    /// table.
    pub fn get_compressed_events(&self, store: &EventStore, query_range: &TimeRange) -> (r: Vec<
        CompressedEvent,
    >)
        ensures
            compresses_to(
                matching_events(store.events(), PluginKind::Notification, *query_range),
                self.apps_table(),
                r@,
            ),
    {
        let found = store.find(PluginKind::Notification, query_range);
        compress(&found, &self.apps_map)
    }
}

} // verus!
