//! System settings: device identity, appearance and start-up.

use vstd::prelude::*;

verus! {

/// Colour theme of the user interface.
#[derive(Debug, Clone, Copy, PartialEq, Eq, Structural)]
pub enum Theme {
    Light,
    Dark,
    Auto,
}

/// Language of the user interface.
#[derive(Debug, Clone, Copy, PartialEq, Eq, Structural)]
pub enum Locale {
    ZhCN,
    EnUS,
    Auto,
}

/// System settings of a device.
#[derive(Debug, Clone, PartialEq, Eq)]
pub struct SystemSettings {
    id: String,
    theme: Theme,
    locale: Locale,
    auto_start: bool,
}

/// A fresh device identifier, by `uuid::Uuid::new_v4` rendered with
/// `to_string`: a random version-4 UUID in its hyphenated form, which is 36
/// characters long. Nothing else is claimed of it.
#[verifier::external_body]
fn new_device_id() -> (id: String)
    ensures
        id@.len() == 36,
{
    uuid::Uuid::new_v4().to_string()
}

impl SystemSettings {
    /// The device identifier.
    pub closed spec fn spec_id(&self) -> Seq<char> {
        self.id@
    }

    /// The theme.
    pub closed spec fn spec_theme(&self) -> Theme {
        self.theme
    }

    /// The locale.
    pub closed spec fn spec_locale(&self) -> Locale {
        self.locale
    }

    /// Whether the application starts with the system.
    pub closed spec fn spec_auto_start(&self) -> bool {
        self.auto_start
    }

    /// Settings of the given parts.
    pub fn new(id: String, theme: Theme, locale: Locale, auto_start: bool) -> (r: Self)
        ensures
            r.spec_id() == id@,
            r.spec_theme() == theme,
            r.spec_locale() == locale,
            r.spec_auto_start() == auto_start,
    {
        SystemSettings { id, theme, locale, auto_start }
    }

    /// The device identifier.
    pub fn id(&self) -> (r: String)
        ensures
            r@ == self.spec_id(),
    {
        self.id.clone()
    }

    /// The theme.
    pub fn theme(&self) -> (r: Theme)
        ensures
            r == self.spec_theme(),
    {
        self.theme
    }

    /// The locale.
    pub fn locale(&self) -> (r: Locale)
        ensures
            r == self.spec_locale(),
    {
        self.locale
    }

    /// Whether the application starts with the system.
    pub fn auto_start(&self) -> (r: bool)
        ensures
            r == self.spec_auto_start(),
    {
        self.auto_start
    }
}

impl Default for SystemSettings {
    /// Settings of a device that has none yet: a fresh identifier, theme
    /// and locale left to the system, no start with the system.
    fn default() -> (r: Self)
        ensures
            r.spec_id().len() == 36,
            r.spec_theme() == Theme::Auto,
            r.spec_locale() == Locale::Auto,
            !r.spec_auto_start(),
    {
        SystemSettings {
            id: new_device_id(),
            theme: Theme::Auto,
            locale: Locale::Auto,
            auto_start: false,
        }
    }
}

} // verus!
