//! The settings that the controller works with.
//!
//! They are loaded and saved elsewhere. The controller keeps them in memory,
//! changes the favourites and the internet-resource switch on request, and
//! reads the URLs and the log filter when it builds a command.

use crate::log_filter::can_be_parsed;
use crate::log_filter::log_filter_usable;
use crate::log_filter::parses_as_env_filter;
use crate::resource::ResourceId;
use std::collections::HashSet;
use vstd::prelude::*;

verus! {

/// The log filter that replaces one that does not parse.
pub const DEFAULT_LOG_FILTER: &'static str = "info";

/// Debugging-only settings (URLs, log filter) and the choices that the user
/// makes in the tray menu.
#[derive(Debug, PartialEq, Eq)]
pub struct AdvancedSettings {
    /// Where the tunnel service reaches the portal.
    pub api_url: String,
    /// Where the browser is sent to sign in.
    pub auth_base_url: String,
    /// The directives of the log filter.
    pub log_filter: String,
    /// The resources that the user has pinned, by the bits of their
    /// identities.
    pub favorite_resources: HashSet<u128>,
    /// Whether the user switched the internet resource on or off; `None`
    /// until the first choice.
    pub internet_resource_enabled: Option<bool>,
}

/// What the settings say.
#[verifier::ext_equal]
pub struct AdvancedSettingsView {
    pub api_url: Seq<char>,
    pub auth_base_url: Seq<char>,
    pub log_filter: Seq<char>,
    pub favorite_resources: Set<u128>,
    pub internet_resource_enabled: Option<bool>,
}

impl View for AdvancedSettings {
    type V = AdvancedSettingsView;

    open spec fn view(&self) -> AdvancedSettingsView {
        AdvancedSettingsView {
            api_url: self.api_url@,
            auth_base_url: self.auth_base_url@,
            log_filter: self.log_filter@,
            favorite_resources: self.favorite_resources@,
            internet_resource_enabled: self.internet_resource_enabled,
        }
    }
}

impl AdvancedSettingsView {
    /// Whether the internet resource is switched on: only after the user
    /// chose so.
    pub open spec fn internet_resource_enabled(self) -> bool {
        self.internet_resource_enabled == Some(true)
    }
}

/// `HashSet::clone` of the standard library: a set with the same members.
#[verifier::external_body]
fn clone_ids(ids: &HashSet<u128>) -> (copy: HashSet<u128>)
    ensures
        copy@ == ids@,
{
    ids.clone()
}

impl AdvancedSettings {
    /// Whether the internet resource is switched on: only after the user
    /// chose so.
    pub fn internet_resource_enabled(&self) -> (enabled: bool)
        ensures
            enabled == self@.internet_resource_enabled(),
    {
        match self.internet_resource_enabled {
            Some(enabled) => enabled,
            None => false,
        }
    }

    /// Whether `id` is among the favourites.
    pub fn is_favorite(&self, id: ResourceId) -> (favorite: bool)
        ensures
            favorite == self@.favorite_resources.contains(id.0),
    {
        broadcast use vstd::std_specs::hash::group_hash_axioms;

        self.favorite_resources.contains(&id.0)
    }

    /// Pins `id`. Nothing else changes.
    pub fn add_favorite(&mut self, id: ResourceId)
        ensures
            final(self)@ == (AdvancedSettingsView {
                favorite_resources: old(self)@.favorite_resources.insert(id.0),
                ..old(self)@
            }),
    {
        broadcast use vstd::std_specs::hash::group_hash_axioms;

        self.favorite_resources.insert(id.0);
    }

    /// Unpins `id`. Nothing else changes.
    pub fn remove_favorite(&mut self, id: ResourceId)
        ensures
            final(self)@ == (AdvancedSettingsView {
                favorite_resources: old(self)@.favorite_resources.remove(id.0),
                ..old(self)@
            }),
    {
        broadcast use vstd::std_specs::hash::group_hash_axioms;

        self.favorite_resources.remove(&id.0);
    }

    /// A copy of the settings.
    pub fn duplicate(&self) -> (copy: AdvancedSettings)
        ensures
            copy@ == self@,
    {
        AdvancedSettings {
            api_url: self.api_url.clone(),
            auth_base_url: self.auth_base_url.clone(),
            log_filter: self.log_filter.clone(),
            favorite_resources: clone_ids(&self.favorite_resources),
            internet_resource_enabled: self.internet_resource_enabled,
        }
    }
}

/// The settings after the log filter was checked: the same where the filter
/// is usable, else with the default filter in its place.
pub open spec fn with_checked_log_filter(
    settings: AdvancedSettingsView,
    usable: bool,
) -> AdvancedSettingsView {
    if usable {
        settings
    } else {
        AdvancedSettingsView { log_filter: DEFAULT_LOG_FILTER@, ..settings }
    }
}

/// Puts the default filter in the place of one that is not usable. The
/// result says whether the filter was replaced.
pub fn replace_log_filter_unless(settings: &mut AdvancedSettings, usable: bool) -> (replaced: bool)
    ensures
        replaced == !usable,
        final(settings)@ == with_checked_log_filter(old(settings)@, usable),
{
    if usable {
        return false;
    }
    settings.log_filter = DEFAULT_LOG_FILTER.to_owned();
    true
}

/// Checks the log filter of `settings` and replaces it by the default where
/// it cannot be used. The result says whether it was replaced, so that the
/// caller can tell the user.
pub fn fix_log_filter(settings: &mut AdvancedSettings) -> (replaced: bool)
    ensures
        replaced == !log_filter_usable(old(settings)@.log_filter),
        final(settings)@ == with_checked_log_filter(
            old(settings)@,
            log_filter_usable(old(settings)@.log_filter),
        ),
{
    let usable = can_be_parsed(settings.log_filter.as_str()) && parses_as_env_filter(
        settings.log_filter.as_str(),
    );
    replace_log_filter_unless(settings, usable)
}

} // verus!
