//! The application configuration: plain settings values as whatever loads
//! the settings file hands them over. Applying key/value pairs and
//! validating mandatory settings are pure and verified; file reading
//! belongs to the caller.
use vstd::prelude::*;
use crate::text::str_eq;

verus! {

/// Connection settings for the storage backend.
#[derive(Debug, Clone, PartialEq, Eq, Hash)]
pub struct AppConfig {
    pub url: Option<String>,
    pub username: Option<String>,
    pub password: Option<String>,
    pub verbose: bool,
}

/// The mathematical value of a configuration.
pub ghost struct AppConfigView {
    pub url: Option<Seq<char>>,
    pub username: Option<Seq<char>>,
    pub password: Option<Seq<char>>,
    pub verbose: bool,
}

impl View for AppConfig {
    type V = AppConfigView;

    open spec fn view(&self) -> AppConfigView {
        AppConfigView {
            url: match self.url {
                Some(s) => Some(s@),
                None => None,
            },
            username: match self.username {
                Some(s) => Some(s@),
                None => None,
            },
            password: match self.password {
                Some(s) => Some(s@),
                None => None,
            },
            verbose: self.verbose,
        }
    }
}

/// The configuration with nothing set.
pub open spec fn empty_config() -> AppConfigView {
    AppConfigView { url: None, username: None, password: None, verbose: false }
}

/// Why a configuration is rejected: a missing mandatory setting, in the
/// order the settings are checked, or a verbose value that is not a boolean
/// literal.
#[derive(Debug, Clone, Copy, PartialEq, Eq, Hash, Structural)]
pub enum AppConfigError {
    MissingUrl,
    MissingUsername,
    MissingPassword,
    InvalidVerbose,
}

/// The boolean literals a verbose value may hold.
pub open spec fn spec_bool_token(t: Seq<char>) -> Option<bool> {
    if t == "true"@ {
        Some(true)
    } else if t == "false"@ {
        Some(false)
    } else {
        None
    }
}

/// One settings pair applied to a configuration: the three string settings
/// are stored as given, a verbose value must be a boolean literal, and an
/// unknown key changes nothing.
pub open spec fn spec_apply_setting(
    c: AppConfigView,
    key: Seq<char>,
    value: Seq<char>,
) -> Result<AppConfigView, AppConfigError> {
    if key == "url"@ {
        Ok(AppConfigView { url: Some(value), ..c })
    } else if key == "username"@ {
        Ok(AppConfigView { username: Some(value), ..c })
    } else if key == "password"@ {
        Ok(AppConfigView { password: Some(value), ..c })
    } else if key == "verbose"@ {
        match spec_bool_token(value) {
            Some(b) => Ok(AppConfigView { verbose: b, ..c }),
            None => Err(AppConfigError::InvalidVerbose),
        }
    } else {
        Ok(c)
    }
}

/// All settings pairs applied in order: a later pair overrides an earlier
/// one with the same key.
pub open spec fn spec_apply_settings(
    c: AppConfigView,
    pairs: Seq<(Seq<char>, Seq<char>)>,
) -> Result<AppConfigView, AppConfigError>
    decreases pairs.len(),
{
    if pairs.len() == 0 {
        Ok(c)
    } else {
        match spec_apply_setting(c, pairs[0].0, pairs[0].1) {
            Ok(c2) => spec_apply_settings(c2, pairs.drop_first()),
            Err(e) => Err(e),
        }
    }
}

/// A sequence of owned settings pairs under the view of each string.
pub open spec fn pair_views(pairs: Seq<(String, String)>) -> Seq<(Seq<char>, Seq<char>)> {
    Seq::new(pairs.len(), |i: int| (pairs[i].0@, pairs[i].1@))
}

/// A configuration result under the configuration's view.
pub open spec fn config_result_view(r: Result<AppConfig, AppConfigError>) -> Result<
    AppConfigView,
    AppConfigError,
> {
    match r {
        Ok(c) => Ok(c@),
        Err(e) => Err(e),
    }
}

impl AppConfig {
    /// A configuration with nothing set.
    pub fn new() -> (r: Self)
        ensures
            r@ == empty_config(),
    {
        AppConfig { url: None, username: None, password: None, verbose: false }
    }

    /// Validate that the three mandatory settings are present, in order:
    /// url, then username, then password. A complete configuration passes
    /// through unchanged.
    pub fn build(self) -> (r: Result<AppConfig, AppConfigError>)
        ensures
            self.url is None ==> r == Result::<AppConfig, AppConfigError>::Err(
                AppConfigError::MissingUrl,
            ),
            self.url is Some && self.username is None ==> r == Result::<
                AppConfig,
                AppConfigError,
            >::Err(AppConfigError::MissingUsername),
            self.url is Some && self.username is Some && self.password is None ==> r == Result::<
                AppConfig,
                AppConfigError,
            >::Err(AppConfigError::MissingPassword),
            self.url is Some && self.username is Some && self.password is Some ==> r == Result::<
                AppConfig,
                AppConfigError,
            >::Ok(self),
    {
        if self.url.is_none() {
            return Err(AppConfigError::MissingUrl);
        }
        if self.username.is_none() {
            return Err(AppConfigError::MissingUsername);
        }
        if self.password.is_none() {
            return Err(AppConfigError::MissingPassword);
        }
        Ok(self)
    }

    /// Build a configuration from settings pairs, applied in order over the
    /// empty configuration.
    pub fn from_pairs(pairs: Vec<(String, String)>) -> (r: Result<AppConfig, AppConfigError>)
        ensures
            config_result_view(r) == spec_apply_settings(empty_config(), pair_views(pairs@)),
    {
        let ghost all = pair_views(pairs@);
        let mut cfg = AppConfig::new();
        proof {
            assert(all.skip(0) =~= all);
        }
        let mut i: usize = 0;
        while i < pairs.len()
            invariant
                i <= pairs@.len(),
                all == pair_views(pairs@),
                all.len() == pairs@.len(),
                spec_apply_settings(empty_config(), all) == spec_apply_settings(
                    cfg@,
                    all.skip(i as int),
                ),
            decreases pairs@.len() - i,
        {
            let ghost before = cfg@;
            let pair: &(String, String) = &pairs[i];
            let key = pair.0.as_str();
            proof {
                assert(all.skip(i as int)[0] == all[i as int]);
                assert(all[i as int] == (pairs@[i as int].0@, pairs@[i as int].1@));
            }
            if str_eq(key, "url") {
                cfg.url = Some(pair.1.clone());
            } else if str_eq(key, "username") {
                cfg.username = Some(pair.1.clone());
            } else if str_eq(key, "password") {
                cfg.password = Some(pair.1.clone());
            } else if str_eq(key, "verbose") {
                if str_eq(pair.1.as_str(), "true") {
                    cfg.verbose = true;
                } else if str_eq(pair.1.as_str(), "false") {
                    cfg.verbose = false;
                } else {
                    return Err(AppConfigError::InvalidVerbose);
                }
            }
            proof {
                assert(spec_apply_setting(before, all[i as int].0, all[i as int].1)
                    == Ok::<AppConfigView, AppConfigError>(cfg@));
                assert(all.skip(i as int).drop_first() =~= all.skip(i as int + 1));
            }
            i = i + 1;
        }
        proof {
            assert(all.skip(all.len() as int) =~= Seq::<(Seq<char>, Seq<char>)>::empty());
        }
        Ok(cfg)
    }
}

impl Default for AppConfig {
    /// The default configuration has nothing set.
    fn default() -> (r: Self)
        ensures
            r@ == empty_config(),
    {
        AppConfig::new()
    }
}

} // verus!
