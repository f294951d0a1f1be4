//! Builder for the Garmin Connect endpoint URLs.
//!
//! Every URL is specified exactly: the contract of each method gives the
//! full character sequence of the returned string as a concatenation of the
//! scheme, the configured domain and the endpoint path.

use vstd::prelude::*;

verus! {

/// The domain that a [`UrlBuilder`] builds its URLs on.
#[derive(Debug, Clone, Eq)]
pub enum GarminDomain {
    GarminCom,
    GarminCn,
    Custom(String),
}

/// The characters of the domain, as they appear inside every built URL.
pub open spec fn domain_chars(d: GarminDomain) -> Seq<char> {
    match d {
        GarminDomain::GarminCom => "garmin.com"@,
        GarminDomain::GarminCn => "garmin.cn"@,
        GarminDomain::Custom(s) => s@,
    }
}

impl PartialEq for GarminDomain {
    fn eq(&self, other: &GarminDomain) -> (r: bool) {
        match (self, other) {
            (GarminDomain::GarminCom, GarminDomain::GarminCom) => true,
            (GarminDomain::GarminCn, GarminDomain::GarminCn) => true,
            (GarminDomain::Custom(a), GarminDomain::Custom(b)) => a.eq(b),
            _ => false,
        }
    }
}

impl vstd::std_specs::cmp::PartialEqSpecImpl for GarminDomain {
    open spec fn obeys_eq_spec() -> bool {
        true
    }

    open spec fn eq_spec(&self, other: &GarminDomain) -> bool {
        match (self, other) {
            (GarminDomain::GarminCom, GarminDomain::GarminCom) => true,
            (GarminDomain::GarminCn, GarminDomain::GarminCn) => true,
            (GarminDomain::Custom(a), GarminDomain::Custom(b)) => a@ == b@,
            _ => false,
        }
    }
}

impl Default for GarminDomain {
    fn default() -> (r: Self)
        ensures
            r == GarminDomain::GarminCom,
    {
        GarminDomain::GarminCom
    }
}

impl GarminDomain {
    /// Classify a domain string: the two well-known Garmin domains get their
    /// own variant, anything else is kept verbatim as a custom domain.
    pub fn from(s: &str) -> (r: GarminDomain)
        ensures
            domain_chars(r) == s@,
            s@ == "garmin.com"@ ==> r == GarminDomain::GarminCom,
            s@ == "garmin.cn"@ ==> r == GarminDomain::GarminCn,
            s@ != "garmin.com"@ && s@ != "garmin.cn"@ ==> (r matches GarminDomain::Custom(c)
                && c@ == s@),
    {
        proof {
            reveal_strlit("garmin.com");
            reveal_strlit("garmin.cn");
        }
        if str_eq(s, "garmin.com") {
            GarminDomain::GarminCom
        } else if str_eq(s, "garmin.cn") {
            GarminDomain::GarminCn
        } else {
            GarminDomain::Custom(s.to_owned())
        }
    }

    /// The domain as a string; its characters are exactly [`domain_chars`].
    pub fn to_string(&self) -> (r: String)
        ensures
            r@ == domain_chars(*self),
    {
        match self {
            GarminDomain::GarminCom => String::from_str("garmin.com"),
            GarminDomain::GarminCn => String::from_str("garmin.cn"),
            GarminDomain::Custom(domain) => domain.clone(),
        }
    }
}

fn str_eq(a: &str, b: &str) -> (r: bool)
    ensures
        r == (a@ == b@),
{
    let sa = String::from_str(a);
    let sb = String::from_str(b);
    sa == sb
}

/// Type alias for workout ID.
pub type GCWorkoutId = String;

/// The base URL families of the Garmin Connect system.
#[derive(Debug, Clone, Copy, PartialEq, Eq, Structural)]
pub enum UrlBase {
    /// Connect Modern
    GcModern,
    /// Garmin SSO
    GarminSso,
    /// Garmin SSO Origin
    GarminSsoOrigin,
    /// Connect API
    GcApi,
}

/// URL builder that provides all Garmin Connect API endpoints.
#[derive(Debug, Clone)]
pub struct UrlBuilder {
    pub domain: GarminDomain,
    pub gc_modern: String,
    pub garmin_sso_origin: String,
    pub gc_api: String,
}

impl UrlBuilder {
    /// The three cached base strings agree with the configured domain.
    pub open spec fn wf(self) -> bool {
        &&& self.gc_modern@ == "https://connect."@ + domain_chars(self.domain) + "/modern"@
        &&& self.garmin_sso_origin@ == "https://sso."@ + domain_chars(self.domain)
        &&& self.gc_api@ == "https://connectapi."@ + domain_chars(self.domain)
    }

    /// The characters of the base URL of each [`UrlBase`] family.
    pub open spec fn base_chars(self, base: UrlBase) -> Seq<char> {
        match base {
            UrlBase::GcModern => "https://connect."@ + domain_chars(self.domain) + "/modern"@,
            UrlBase::GarminSsoOrigin => "https://sso."@ + domain_chars(self.domain),
            UrlBase::GarminSso => "https://sso."@ + domain_chars(self.domain) + "/sso"@,
            UrlBase::GcApi => "https://connectapi."@ + domain_chars(self.domain),
        }
    }

    /// Create a new UrlBuilder with the specified domain (defaults to garmin.com).
    pub fn new(domain: Option<GarminDomain>) -> (r: Self)
        ensures
            r.wf(),
            r.domain == (match domain {
                Option::Some(d) => d,
                Option::None => GarminDomain::GarminCom,
            }),
    {
        let domain = match domain {
            Option::Some(d) => d,
            Option::None => GarminDomain::GarminCom,
        };
        let domain_str = domain.to_string();

        let mut gc_modern = String::from_str("https://connect.");
        gc_modern.append(domain_str.as_str());
        gc_modern.append("/modern");

        let mut garmin_sso_origin = String::from_str("https://sso.");
        garmin_sso_origin.append(domain_str.as_str());

        let mut gc_api = String::from_str("https://connectapi.");
        gc_api.append(domain_str.as_str());

        Self { domain, gc_modern, garmin_sso_origin, gc_api }
    }

    /// Get the base URL for a specific URL type.
    pub fn base_url(&self, base: UrlBase) -> (r: String)
        requires
            self.wf(),
        ensures
            r@ == self.base_chars(base),
    {
        match base {
            UrlBase::GcModern => self.gc_modern.clone(),
            UrlBase::GarminSsoOrigin => self.garmin_sso_origin.clone(),
            UrlBase::GarminSso => {
                let mut s = self.garmin_sso_origin.clone();
                s.append("/sso");
                s
            },
            UrlBase::GcApi => self.gc_api.clone(),
        }
    }

    /// Build a URL by combining a base URL with a path.
    pub fn build_url(&self, base: UrlBase, path: &str) -> (r: String)
        requires
            self.wf(),
        ensures
            r@ == self.base_chars(base) + path@,
    {
        let mut s = self.base_url(base);
        s.append(path);
        s
    }

    // Basic URLs

    /// Get Garmin SSO URL.
    pub fn garmin_sso(&self) -> (r: String)
        requires
            self.wf(),
        ensures
            r@ == "https://sso."@ + domain_chars(self.domain) + "/sso"@,
    {
        self.base_url(UrlBase::GarminSso)
    }

    /// Get Base URL for proxy operations.
    pub fn base_url_proxy(&self) -> (r: String)
        requires
            self.wf(),
        ensures
            r@ == "https://connect."@ + domain_chars(self.domain) + "/modern"@ + "/proxy"@,
    {
        self.build_url(UrlBase::GcModern, "/proxy")
    }

    // API Endpoint URLs - All these are built using the same pattern

    /// Get Garmin SSO Embed URL.
    pub fn garmin_sso_embed_url(&self) -> (r: String)
        requires
            self.wf(),
        ensures
            r@ == "https://sso."@ + domain_chars(self.domain) + "/sso/embed"@,
    {
        self.build_url(UrlBase::GarminSsoOrigin, "/sso/embed")
    }

    /// Get Signin URL.
    pub fn signin_url(&self) -> (r: String)
        requires
            self.wf(),
        ensures
            r@ == "https://sso."@ + domain_chars(self.domain) + "/sso"@ + "/signin"@,
    {
        self.build_url(UrlBase::GarminSso, "/signin")
    }

    /// Get Login URL.
    pub fn login_url(&self) -> (r: String)
        requires
            self.wf(),
        ensures
            r@ == "https://sso."@ + domain_chars(self.domain) + "/sso"@ + "/login"@,
    {
        self.build_url(UrlBase::GarminSso, "/login")
    }

    /// Get OAuth URL.
    pub fn oauth_url(&self) -> (r: String)
        requires
            self.wf(),
        ensures
            r@ == "https://connectapi."@ + domain_chars(self.domain) + "/oauth-service/oauth"@,
    {
        self.build_url(UrlBase::GcApi, "/oauth-service/oauth")
    }

    /// Get User Settings URL.
    pub fn user_settings_url(&self) -> (r: String)
        requires
            self.wf(),
        ensures
            r@ == "https://connectapi."@ + domain_chars(self.domain)
                + "/userprofile-service/userprofile/user-settings/"@,
    {
        self.build_url(UrlBase::GcApi, "/userprofile-service/userprofile/user-settings/")
    }

    /// Get User Profile URL.
    pub fn user_profile_url(&self) -> (r: String)
        requires
            self.wf(),
        ensures
            r@ == "https://connectapi."@ + domain_chars(self.domain)
                + "/userprofile-service/socialProfile"@,
    {
        self.build_url(UrlBase::GcApi, "/userprofile-service/socialProfile")
    }

    /// Get Activities URL.
    pub fn activities_url(&self) -> (r: String)
        requires
            self.wf(),
        ensures
            r@ == "https://connectapi."@ + domain_chars(self.domain)
                + "/activitylist-service/activities/search/activities"@,
    {
        self.build_url(UrlBase::GcApi, "/activitylist-service/activities/search/activities")
    }

    /// Get Activity URL.
    pub fn activity_url(&self) -> (r: String)
        requires
            self.wf(),
        ensures
            r@ == "https://connectapi."@ + domain_chars(self.domain)
                + "/activity-service/activity/"@,
    {
        self.build_url(UrlBase::GcApi, "/activity-service/activity/")
    }

    /// Get Stat Activities URL.
    pub fn stat_activities_url(&self) -> (r: String)
        requires
            self.wf(),
        ensures
            r@ == "https://connectapi."@ + domain_chars(self.domain)
                + "/fitnessstats-service/activity"@,
    {
        self.build_url(UrlBase::GcApi, "/fitnessstats-service/activity")
    }

    /// Get Download Zip URL.
    pub fn download_zip_url(&self) -> (r: String)
        requires
            self.wf(),
        ensures
            r@ == "https://connectapi."@ + domain_chars(self.domain)
                + "/download-service/files/activity/"@,
    {
        self.build_url(UrlBase::GcApi, "/download-service/files/activity/")
    }

    /// Get Download GPX URL.
    pub fn download_gpx_url(&self) -> (r: String)
        requires
            self.wf(),
        ensures
            r@ == "https://connectapi."@ + domain_chars(self.domain)
                + "/download-service/export/gpx/activity/"@,
    {
        self.build_url(UrlBase::GcApi, "/download-service/export/gpx/activity/")
    }

    /// Get Download TCX URL.
    pub fn download_tcx_url(&self) -> (r: String)
        requires
            self.wf(),
        ensures
            r@ == "https://connectapi."@ + domain_chars(self.domain)
                + "/download-service/export/tcx/activity/"@,
    {
        self.build_url(UrlBase::GcApi, "/download-service/export/tcx/activity/")
    }

    /// Get Download KML URL.
    pub fn download_kml_url(&self) -> (r: String)
        requires
            self.wf(),
        ensures
            r@ == "https://connectapi."@ + domain_chars(self.domain)
                + "/download-service/export/kml/activity/"@,
    {
        self.build_url(UrlBase::GcApi, "/download-service/export/kml/activity/")
    }

    /// Get Upload URL.
    pub fn upload_url(&self) -> (r: String)
        requires
            self.wf(),
        ensures
            r@ == "https://connectapi."@ + domain_chars(self.domain) + "/upload-service/upload/"@,
    {
        self.build_url(UrlBase::GcApi, "/upload-service/upload/")
    }

    /// Get Import Data URL.
    pub fn import_data_url(&self) -> (r: String)
        requires
            self.wf(),
        ensures
            r@ == "https://connectapi."@ + domain_chars(self.domain) + "/modern/import-data"@,
    {
        self.build_url(UrlBase::GcApi, "/modern/import-data")
    }

    /// Get Daily Steps URL.
    pub fn daily_steps_url(&self) -> (r: String)
        requires
            self.wf(),
        ensures
            r@ == "https://connectapi."@ + domain_chars(self.domain)
                + "/usersummary-service/stats/steps/daily/"@,
    {
        self.build_url(UrlBase::GcApi, "/usersummary-service/stats/steps/daily/")
    }

    /// Get Daily Sleep URL.
    pub fn daily_sleep_url(&self) -> (r: String)
        requires
            self.wf(),
        ensures
            r@ == "https://connectapi."@ + domain_chars(self.domain)
                + "/sleep-service/sleep/dailySleepData"@,
    {
        self.build_url(UrlBase::GcApi, "/sleep-service/sleep/dailySleepData")
    }

    /// Get Daily Weight URL.
    pub fn daily_weight_url(&self) -> (r: String)
        requires
            self.wf(),
        ensures
            r@ == "https://connectapi."@ + domain_chars(self.domain)
                + "/weight-service/weight/dayview"@,
    {
        self.build_url(UrlBase::GcApi, "/weight-service/weight/dayview")
    }

    /// Get Update Weight URL.
    pub fn update_weight_url(&self) -> (r: String)
        requires
            self.wf(),
        ensures
            r@ == "https://connectapi."@ + domain_chars(self.domain)
                + "/weight-service/user-weight"@,
    {
        self.build_url(UrlBase::GcApi, "/weight-service/user-weight")
    }

    /// Get Daily Hydration URL.
    pub fn daily_hydration_url(&self) -> (r: String)
        requires
            self.wf(),
        ensures
            r@ == "https://connectapi."@ + domain_chars(self.domain)
                + "/usersummary-service/usersummary/hydration/allData"@,
    {
        self.build_url(UrlBase::GcApi, "/usersummary-service/usersummary/hydration/allData")
    }

    /// Get Hydration Log URL.
    pub fn hydration_log_url(&self) -> (r: String)
        requires
            self.wf(),
        ensures
            r@ == "https://connectapi."@ + domain_chars(self.domain)
                + "/usersummary-service/usersummary/hydration/log"@,
    {
        self.build_url(UrlBase::GcApi, "/usersummary-service/usersummary/hydration/log")
    }

    /// Get Golf Scorecard Summary URL.
    pub fn golf_scorecard_summary_url(&self) -> (r: String)
        requires
            self.wf(),
        ensures
            r@ == "https://connectapi."@ + domain_chars(self.domain)
                + "/gcs-golfcommunity/api/v2/scorecard/summary"@,
    {
        self.build_url(UrlBase::GcApi, "/gcs-golfcommunity/api/v2/scorecard/summary")
    }

    /// Get Golf Scorecard Detail URL.
    pub fn golf_scorecard_detail_url(&self) -> (r: String)
        requires
            self.wf(),
        ensures
            r@ == "https://connectapi."@ + domain_chars(self.domain)
                + "/gcs-golfcommunity/api/v2/scorecard/detail"@,
    {
        self.build_url(UrlBase::GcApi, "/gcs-golfcommunity/api/v2/scorecard/detail")
    }

    /// Get Daily Heart Rate URL.
    pub fn daily_heart_rate_url(&self) -> (r: String)
        requires
            self.wf(),
        ensures
            r@ == "https://connectapi."@ + domain_chars(self.domain)
                + "/wellness-service/wellness/dailyHeartRate"@,
    {
        self.build_url(UrlBase::GcApi, "/wellness-service/wellness/dailyHeartRate")
    }

    /// Get Workout URL, optionally with workout ID.
    pub fn workout_url(&self, id: Option<&GCWorkoutId>) -> (r: String)
        requires
            self.wf(),
        ensures
            id is Some ==> r@ == "https://connectapi."@ + domain_chars(self.domain)
                + "/workout-service/workout/"@ + id->0@,
            id is None ==> r@ == "https://connectapi."@ + domain_chars(self.domain)
                + "/workout-service/workout"@,
    {
        match id {
            Option::Some(workout_id) => {
                let mut path = String::from_str("/workout-service/workout/");
                path.append(workout_id.as_str());
                self.build_url(UrlBase::GcApi, path.as_str())
            },
            Option::None => self.build_url(UrlBase::GcApi, "/workout-service/workout"),
        }
    }

    /// Get Workouts URL.
    pub fn workouts_url(&self) -> (r: String)
        requires
            self.wf(),
        ensures
            r@ == "https://connectapi."@ + domain_chars(self.domain) + "/workout-service/workouts"@,
    {
        self.build_url(UrlBase::GcApi, "/workout-service/workouts")
    }

    // Accessor methods for the fields

    /// Get the domain.
    pub fn domain(&self) -> (r: &GarminDomain)
        ensures
            r == self.domain,
    {
        &self.domain
    }

    /// Get the Connect Modern base URL.
    pub fn gc_modern(&self) -> (r: &str)
        ensures
            r@ == self.gc_modern@,
    {
        self.gc_modern.as_str()
    }

    /// Get the SSO origin base URL.
    pub fn garmin_sso_origin(&self) -> (r: &str)
        ensures
            r@ == self.garmin_sso_origin@,
    {
        self.garmin_sso_origin.as_str()
    }

    /// Get the Connect API base URL.
    pub fn gc_api(&self) -> (r: &str)
        ensures
            r@ == self.gc_api@,
    {
        self.gc_api.as_str()
    }
}

impl Default for UrlBuilder {
    fn default() -> (r: Self)
        ensures
            r.wf(),
            r.domain == GarminDomain::GarminCom,
    {
        Self::new(Option::None)
    }
}

} // verus!
