use vstd::prelude::*;

use crate::text::{joined, text_is};

verus! {

/// Where the frontend is served from when it is not served by this service.
pub const DEV_FRONTEND_URL: &'static str = "http://127.0.0.1:5173";

/// The site's address in a debug build.
pub const DEV_SITE_DOMAIN: &'static str = "http://127.0.0.1:8080";

/// The settings the service runs with.
pub struct EnvironmentVariables {
    pub is_debug: bool,
    pub static_frontend: bool,
    pub frontend_url: String,
    pub site_domain: String,
    pub google_client_id: String,
    pub google_client_secret: String,
}

/// A boolean as std's `bool::from_str` reads it: exactly `true` or `false`.
pub open spec fn bool_of(s: Seq<char>) -> Option<bool> {
    if s == "true"@ {
        Some(true)
    } else if s == "false"@ {
        Some(false)
    } else {
        None
    }
}

/// Reads a boolean: exactly `true` or `false`.
pub fn parse_bool(s: &str) -> (r: Option<bool>)
    ensures
        r == bool_of(s@),
{
    if text_is(s, "true") {
        Some(true)
    } else if text_is(s, "false") {
        Some(false)
    } else {
        None
    }
}

/// Whether the service serves the frontend itself: always in a release
/// build; in a debug build as the setting says, `true` when it is unset and
/// `false` when it is not a boolean.
pub open spec fn static_frontend_of(is_debug: bool, setting: Option<Seq<char>>) -> bool {
    !is_debug || match setting {
        None => true,
        Some(v) => bool_of(v) == Some(true),
    }
}

impl EnvironmentVariables {
    /// The settings from the values the environment gives. A release build
    /// needs the site's domain; without it there are no settings.
    pub fn from_values(
        is_debug: bool,
        static_frontend_setting: Option<&str>,
        site_domain_setting: Option<String>,
        google_client_id: String,
        google_client_secret: String,
    ) -> (r: Option<EnvironmentVariables>)
        ensures
            r is None <==> (!is_debug && site_domain_setting is None),
            r matches Some(e) ==> {
                &&& e.is_debug == is_debug
                &&& e.static_frontend == static_frontend_of(
                    is_debug,
                    match static_frontend_setting {
                        Some(v) => Some(v@),
                        None => None,
                    },
                )
                &&& e.frontend_url@ == (if e.static_frontend {
                    "/"@
                } else {
                    DEV_FRONTEND_URL@
                })
                &&& e.site_domain@ == (if is_debug {
                    DEV_SITE_DOMAIN@
                } else {
                    site_domain_setting.unwrap()@
                })
                &&& e.google_client_id == google_client_id
                &&& e.google_client_secret == google_client_secret
            },
    {
        let static_frontend = if !is_debug {
            true
        } else {
            match static_frontend_setting {
                None => true,
                Some(v) => match parse_bool(v) {
                    Some(b) => b,
                    None => false,
                },
            }
        };
        let site_domain = if is_debug {
            DEV_SITE_DOMAIN.to_owned()
        } else {
            match site_domain_setting {
                Some(d) => d,
                None => return None,
            }
        };
        let frontend_url = if static_frontend {
            "/".to_owned()
        } else {
            DEV_FRONTEND_URL.to_owned()
        };
        Some(
            EnvironmentVariables {
                is_debug,
                static_frontend,
                frontend_url,
                site_domain,
                google_client_id,
                google_client_secret,
            },
        )
    }

    /// `path` as the browser must be sent to it: as it is when the frontend
    /// is served here, else under the frontend's address.
    pub fn get_path(&self, path: &str) -> (r: String)
        ensures
            r@ == (if self.static_frontend {
                path@
            } else {
                self.frontend_url@ + path@
            }),
    {
        if self.static_frontend {
            path.to_owned()
        } else {
            joined(self.frontend_url.as_str(), path)
        }
    }

    /// The address the OAuth provider sends the browser back to.
    pub fn redirect_uri(&self) -> (r: String)
        ensures
            r@ == self.site_domain@ + "/api/auth/google/callback"@,
    {
        joined(self.site_domain.as_str(), "/api/auth/google/callback")
    }

    /// The provider's authorization address for this client, asking for the
    /// user's identity and email.
    pub fn authorization_url(&self) -> (r: String)
        ensures
            r@ == "https://accounts.google.com/o/oauth2/v2/auth?client_id="@ + self.google_client_id@
                + "&redirect_uri="@ + self.site_domain@
                + "/api/auth/google/callback&response_type=code&scope=openid%20email&access_type=online"@,
    {
        let mut url = "https://accounts.google.com/o/oauth2/v2/auth?client_id=".to_owned();
        url.append(self.google_client_id.as_str());
        url.append("&redirect_uri=");
        url.append(self.site_domain.as_str());
        url.append(
            "/api/auth/google/callback&response_type=code&scope=openid%20email&access_type=online",
        );
        url
    }
}

} // verus!
