use pathmod::sample::user::Address;
use pathmod::sample::user::Profile;
use pathmod::sample::user::Settings;
use pathmod::sample::user::Stats;
use pathmod::sample::user::Theme;
use pathmod::sample::user::User;

#[test]
fn minimal_clone_reconstruction_bottom_up() {
    let u = User {
        profile: Profile {
            address: Address { city: "berlin".into(), zip: 10115 },
            stats: Stats { logins: 3 },
        },
        settings: Settings { theme: Theme { name: "light".into() } },
    };

    // Rebuild only the path from the root through the profile and address
    // to the city, with a new value, moving all other fields (no type here
    // supports duplication).
    let profile = u.profile; // move out of u
    let settings = u.settings; // move out of u

    let address = profile.address; // move out of profile
    let stats = profile.stats; // move out of profile

    let address2 = address.with_city("Lund".to_string());
    let profile2 = Profile { address: address2, stats };
    let u2 = User { profile: profile2, settings };

    assert_eq!(u2.profile.address.city, "Lund");
    assert_eq!(u2.profile.address.zip, 10115);
    assert_eq!(u2.profile.stats.logins, 3);
    assert_eq!(u2.settings.theme.name, "light");
}

#[test]
fn with_methods_rebuild_each_level() {
    let u = User {
        profile: Profile {
            address: Address { city: "berlin".into(), zip: 10115 },
            stats: Stats { logins: 3 },
        },
        settings: Settings { theme: Theme { name: "light".into() } },
    };

    let profile = u.profile;
    let settings = u.settings;
    let address = profile.address;
    let stats = profile.stats;

    let u2 = User { profile: Profile { address, stats }, settings }
        .with_settings(Settings { theme: Theme { name: "dark".into() } });
    assert_eq!(u2.settings.theme.name, "dark");
    assert_eq!(u2.profile.address.city, "berlin");

    let a = Address { city: "berlin".into(), zip: 10115 }.with_zip(20095);
    assert_eq!(a.city, "berlin");
    assert_eq!(a.zip, 20095);
}
