use ironfetch::modules::platform::Profile;

#[test]
fn platform_profile_display() {
    let profile = Profile {
        current: "balanced".into(),
        choices: "performance balanced cool quiet".into(),
    };
    assert_eq!(profile.to_string(), "performance [balanced] cool quiet");
}
