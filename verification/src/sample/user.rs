//! Replace-methods for a deeply nested family of structs: the building
//! blocks for rebuilding a nested whole bottom-up after changing one leaf,
//! moving every untouched part and duplicating nothing.

use vstd::prelude::*;

verus! {

/// A postal address, the deepest struct of the family.
pub struct Address {
    pub city: String,
    pub zip: u32,
}

/// Usage counters attached to a profile.
pub struct Stats {
    pub logins: u32,
}

/// A profile: an address plus usage counters.
pub struct Profile {
    pub address: Address,
    pub stats: Stats,
}

/// A display theme, referenced from the settings.
pub struct Theme {
    pub name: String,
}

/// Account settings holding a theme.
pub struct Settings {
    pub theme: Theme,
}

/// The root of the family: a profile plus settings.
pub struct User {
    pub profile: Profile,
    pub settings: Settings,
}

impl Address {
    /// Return a new value with `city` replaced by `new_val`, moving the
    /// other field.
    pub fn with_city(self, new_val: String) -> (r: Address)
        ensures
            r == (Address { city: new_val, zip: self.zip }),
    {
        Address { city: new_val, zip: self.zip }
    }

    /// Return a new value with `zip` replaced by `new_val`, moving the
    /// other field.
    pub fn with_zip(self, new_val: u32) -> (r: Address)
        ensures
            r == (Address { city: self.city, zip: new_val }),
    {
        Address { city: self.city, zip: new_val }
    }
}

impl Stats {
    /// Return a new value with `logins` replaced by `new_val`.
    pub fn with_logins(self, new_val: u32) -> (r: Stats)
        ensures
            r == (Stats { logins: new_val }),
    {
        Stats { logins: new_val }
    }
}

impl Profile {
    /// Return a new value with `address` replaced by `new_val`, moving the
    /// other field.
    pub fn with_address(self, new_val: Address) -> (r: Profile)
        ensures
            r == (Profile { address: new_val, stats: self.stats }),
    {
        Profile { address: new_val, stats: self.stats }
    }

    /// Return a new value with `stats` replaced by `new_val`, moving the
    /// other field.
    pub fn with_stats(self, new_val: Stats) -> (r: Profile)
        ensures
            r == (Profile { address: self.address, stats: new_val }),
    {
        Profile { address: self.address, stats: new_val }
    }
}

impl Theme {
    /// Return a new value with `name` replaced by `new_val`.
    pub fn with_name(self, new_val: String) -> (r: Theme)
        ensures
            r == (Theme { name: new_val }),
    {
        Theme { name: new_val }
    }
}

impl Settings {
    /// Return a new value with `theme` replaced by `new_val`.
    pub fn with_theme(self, new_val: Theme) -> (r: Settings)
        ensures
            r == (Settings { theme: new_val }),
    {
        Settings { theme: new_val }
    }
}

impl User {
    /// Return a new value with `profile` replaced by `new_val`, moving the
    /// other field.
    pub fn with_profile(self, new_val: Profile) -> (r: User)
        ensures
            r == (User { profile: new_val, settings: self.settings }),
    {
        User { profile: new_val, settings: self.settings }
    }

    /// Return a new value with `settings` replaced by `new_val`, moving the
    /// other field.
    pub fn with_settings(self, new_val: Settings) -> (r: User)
        ensures
            r == (User { profile: self.profile, settings: new_val }),
    {
        User { profile: self.profile, settings: new_val }
    }
}

} // verus!
