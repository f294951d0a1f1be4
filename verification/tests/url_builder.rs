use mood_log::url_builder::{GarminDomain, UrlBase, UrlBuilder};

#[test]
fn test_garmin_domain_default() {
    let domain = GarminDomain::default();
    assert_eq!(domain, GarminDomain::GarminCom);
}

#[test]
fn test_garmin_domain_from_str() {
    assert_eq!(GarminDomain::from("garmin.com"), GarminDomain::GarminCom);
    assert_eq!(GarminDomain::from("garmin.cn"), GarminDomain::GarminCn);

    let custom = GarminDomain::from("example.com");
    if let GarminDomain::Custom(domain) = custom {
        assert_eq!(domain, "example.com");
    } else {
        panic!("Expected Custom variant");
    }
}

#[test]
fn test_garmin_domain_to_string() {
    assert_eq!(GarminDomain::GarminCom.to_string(), "garmin.com");
    assert_eq!(GarminDomain::GarminCn.to_string(), "garmin.cn");
    assert_eq!(
        GarminDomain::Custom("test.com".to_string()).to_string(),
        "test.com"
    );
}

#[test]
fn test_url_builder_default() {
    let builder = UrlBuilder::default();
    assert_eq!(*builder.domain(), GarminDomain::GarminCom);
    assert_eq!(builder.gc_modern(), "https://connect.garmin.com/modern");
    assert_eq!(builder.garmin_sso_origin(), "https://sso.garmin.com");
    assert_eq!(builder.gc_api(), "https://connectapi.garmin.com");
}

#[test]
fn test_url_builder_new_with_domain() {
    let builder = UrlBuilder::new(Some(GarminDomain::GarminCn));
    assert_eq!(*builder.domain(), GarminDomain::GarminCn);
    assert_eq!(builder.gc_modern(), "https://connect.garmin.cn/modern");
    assert_eq!(builder.garmin_sso_origin(), "https://sso.garmin.cn");
    assert_eq!(builder.gc_api(), "https://connectapi.garmin.cn");
}

#[test]
fn test_url_builder_new_with_custom_domain() {
    let builder = UrlBuilder::new(Some(GarminDomain::Custom("example.org".to_string())));
    if let GarminDomain::Custom(domain) = builder.domain() {
        assert_eq!(domain, "example.org");
    } else {
        panic!("Expected Custom domain");
    }
    assert_eq!(builder.gc_modern(), "https://connect.example.org/modern");
    assert_eq!(builder.garmin_sso_origin(), "https://sso.example.org");
    assert_eq!(builder.gc_api(), "https://connectapi.example.org");
}

#[test]
fn test_base_urls() {
    let builder = UrlBuilder::default();
    assert_eq!(builder.garmin_sso(), "https://sso.garmin.com/sso");
    assert_eq!(
        builder.base_url_proxy(),
        "https://connect.garmin.com/modern/proxy"
    );
}

#[test]
fn test_sso_endpoints() {
    let builder = UrlBuilder::default();

    assert_eq!(
        builder.garmin_sso_embed_url(),
        "https://sso.garmin.com/sso/embed"
    );
    assert_eq!(builder.signin_url(), "https://sso.garmin.com/sso/signin");
    assert_eq!(builder.login_url(), "https://sso.garmin.com/sso/login");
}

#[test]
fn test_api_endpoints() {
    let builder = UrlBuilder::default();

    // Test a sample of API endpoints
    assert_eq!(
        builder.oauth_url(),
        "https://connectapi.garmin.com/oauth-service/oauth"
    );
    assert_eq!(
        builder.user_settings_url(),
        "https://connectapi.garmin.com/userprofile-service/userprofile/user-settings/"
    );
    assert_eq!(
        builder.activities_url(),
        "https://connectapi.garmin.com/activitylist-service/activities/search/activities"
    );
    assert_eq!(
        builder.daily_sleep_url(),
        "https://connectapi.garmin.com/sleep-service/sleep/dailySleepData"
    );
}

#[test]
fn test_download_endpoints() {
    let builder = UrlBuilder::default();

    assert_eq!(
        builder.download_zip_url(),
        "https://connectapi.garmin.com/download-service/files/activity/"
    );
    assert_eq!(
        builder.download_gpx_url(),
        "https://connectapi.garmin.com/download-service/export/gpx/activity/"
    );
    assert_eq!(
        builder.download_tcx_url(),
        "https://connectapi.garmin.com/download-service/export/tcx/activity/"
    );
    assert_eq!(
        builder.download_kml_url(),
        "https://connectapi.garmin.com/download-service/export/kml/activity/"
    );
}

#[test]
fn test_workout_endpoint() {
    let builder = UrlBuilder::default();

    // Test without ID
    assert_eq!(
        builder.workout_url(None),
        "https://connectapi.garmin.com/workout-service/workout"
    );

    // Test with ID
    let workout_id = "12345".to_string();
    assert_eq!(
        builder.workout_url(Some(&workout_id)),
        "https://connectapi.garmin.com/workout-service/workout/12345"
    );
}

#[test]
fn test_workouts_endpoint() {
    let builder = UrlBuilder::default();
    assert_eq!(
        builder.workouts_url(),
        "https://connectapi.garmin.com/workout-service/workouts"
    );
}

#[test]
fn test_with_different_domains() {
    // Test with garmin.cn domain
    let cn_builder = UrlBuilder::new(Some(GarminDomain::GarminCn));
    assert_eq!(
        cn_builder.activities_url(),
        "https://connectapi.garmin.cn/activitylist-service/activities/search/activities"
    );

    // Test with custom domain
    let custom_builder = UrlBuilder::new(Some(GarminDomain::Custom("test.garmin.io".to_string())));
    assert_eq!(
        custom_builder.activities_url(),
        "https://connectapi.test.garmin.io/activitylist-service/activities/search/activities"
    );
}

#[test]
fn test_url_base_enum() {
    let builder = UrlBuilder::default();

    // Test using the base_url method directly
    assert_eq!(
        builder.base_url(UrlBase::GcModern),
        "https://connect.garmin.com/modern"
    );
    assert_eq!(
        builder.base_url(UrlBase::GarminSsoOrigin),
        "https://sso.garmin.com"
    );
    assert_eq!(
        builder.base_url(UrlBase::GarminSso),
        "https://sso.garmin.com/sso"
    );
    assert_eq!(
        builder.base_url(UrlBase::GcApi),
        "https://connectapi.garmin.com"
    );
}
