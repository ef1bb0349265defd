//! Setting up a cache: where it lies and how long it waits.

use crate::cache::load::{Load, Policy};
use crate::cache::paths::{join, join_spec, Layout};
use crate::env::{var_spec, workflow_bundle_id, workflow_cache, Environment, WORKFLOW_BUNDLE_ID, WORKFLOW_CACHE};
use crate::text::text_of;
use crate::time::Duration;
use vstd::prelude::*;

verus! {

/// Where, below the home directory, Alfred keeps the caches of workflows.
pub const WORKFLOW_CACHES: &'static str =
    "Library/Caches/com.runningwithcrayons.Alfred/Workflow Data";

/// The time to live of a cache that was given none, in seconds.
pub const DEFAULT_TTL_SECS: u64 = 30;

/// The poll interval of a cache that was given none, in milliseconds.
pub const DEFAULT_POLL_INTERVAL_MILLIS: u64 = 100;

/// The poll duration of a cache that was given none, in seconds.
pub const DEFAULT_POLL_DURATION_SECS: u64 = 1;

/// Why a cache could not be set up.
#[derive(Debug, Clone, Copy, PartialEq, Eq)]
pub enum BuildError {
    /// No directory was given, Alfred names none, and no bundle id is known
    /// from which to derive one.
    NoBundleId,
    /// A directory has to be derived, and the home directory is not known.
    NoHomeDirectory,
}

impl BuildError {
    /// The words that describe the error.
    pub fn message(&self) -> (text: String)
        ensures
            text@ == match *self {
                BuildError::NoBundleId => "no bundle id set"@,
                BuildError::NoHomeDirectory => "failed to find current user's home directory"@,
            },
    {
        match self {
            BuildError::NoBundleId => "no bundle id set".to_owned(),
            BuildError::NoHomeDirectory => "failed to find current user's home directory".to_owned(),
        }
    }
}

/// A builder for a cache.
///
/// Constructed using [`Cache::builder`].
#[derive(Debug, Clone)]
pub struct Builder {
    /// The root directory of the cache, where one was set.
    pub directory: Option<String>,
    /// The bundle id of the workflow, where one was set.
    pub bundle_id: Option<String>,
    /// The time to live, where one was set.
    pub ttl: Option<Duration>,
    /// The poll interval, where one was set.
    pub poll_interval: Option<Duration>,
    /// The poll duration, where one was set.
    pub poll_duration: Option<Duration>,
}

/// Manage a cache of data.
#[derive(Debug, Clone)]
pub struct Cache {
    /// The root directory: every key has its own directory below it.
    pub directory: String,
    /// How old an entry may be before it is refreshed.
    pub ttl: Duration,
    /// How long to sleep between two looks for a missing entry.
    pub poll_interval: Duration,
    /// How long to go on looking for a missing entry.
    pub poll_duration: Duration,
}

/// The bundle id that counts: the one Alfred names, else the one set.
pub open spec fn resolve_bundle_id(
    env: Map<Seq<char>, Seq<char>>,
    bundle_id: Option<Seq<char>>,
) -> Option<Seq<char>> {
    match var_spec(env, WORKFLOW_BUNDLE_ID@) {
        Some(id) => Some(id),
        None => bundle_id,
    }
}

/// The root directory of the cache. A directory that was set counts first,
/// then the one Alfred names. Failing both it is the directory of the bundle
/// id among Alfred's workflow caches below the home directory, for which the
/// bundle id has to be known, and then the home directory.
pub open spec fn resolve_directory(
    directory: Option<Seq<char>>,
    bundle_id: Option<Seq<char>>,
    env: Map<Seq<char>, Seq<char>>,
    home: Option<Seq<char>>,
) -> Result<Seq<char>, BuildError> {
    match directory {
        Some(d) => Ok(d),
        None => match var_spec(env, WORKFLOW_CACHE@) {
            Some(d) => Ok(d),
            None => match resolve_bundle_id(env, bundle_id) {
                None => Err(BuildError::NoBundleId),
                Some(id) => match home {
                    None => Err(BuildError::NoHomeDirectory),
                    Some(h) => Ok(join_spec(join_spec(h, WORKFLOW_CACHES@), id)),
                },
            },
        },
    }
}

/// The span that counts: the one set, else one of `default_nanos`.
pub open spec fn set_or_default(set: Option<Duration>, default_nanos: nat, d: Duration) -> bool {
    match set {
        Some(s) => d == s,
        None => d.wf() && d.as_nanos() == default_nanos,
    }
}

impl Builder {
    /// Set the cache directory.
    pub fn directory(self, directory: &str) -> (b: Builder)
        ensures
            text_of(b.directory) == Some(directory@),
            b.bundle_id == self.bundle_id,
            b.ttl == self.ttl,
            b.poll_interval == self.poll_interval,
            b.poll_duration == self.poll_duration,
    {
        let mut b = self;
        b.directory = Some(directory.to_owned());
        b
    }

    /// Set the bundle id.
    pub fn bundle_id(self, bundle_id: &str) -> (b: Builder)
        ensures
            text_of(b.bundle_id) == Some(bundle_id@),
            b.directory == self.directory,
            b.ttl == self.ttl,
            b.poll_interval == self.poll_interval,
            b.poll_duration == self.poll_duration,
    {
        let mut b = self;
        b.bundle_id = Some(bundle_id.to_owned());
        b
    }

    /// Set the interval at which the cache is looked at while it is waited
    /// for.
    pub fn poll_interval(self, poll_interval: Duration) -> (b: Builder)
        ensures
            b == (Builder { poll_interval: Some(poll_interval), ..self }),
    {
        let mut b = self;
        b.poll_interval = Some(poll_interval);
        b
    }

    /// Set the duration to wait for the cache to be populated.
    pub fn poll_duration(self, poll_duration: Duration) -> (b: Builder)
        ensures
            b == (Builder { poll_duration: Some(poll_duration), ..self }),
    {
        let mut b = self;
        b.poll_duration = Some(poll_duration);
        b
    }

    /// Set the Time To Live (TTL) for the data in the cache.
    ///
    /// If the data in the cache is older than this then the cache will be
    /// automatically refreshed.
    pub fn ttl(self, ttl: Duration) -> (b: Builder)
        ensures
            b == (Builder { ttl: Some(ttl), ..self }),
    {
        let mut b = self;
        b.ttl = Some(ttl);
        b
    }

    /// Build the cache, in the environment `env` of a user whose home
    /// directory is `home`.
    pub fn build(self, env: &Environment, home: Option<String>) -> (built: Result<Cache, BuildError>)
        ensures
            match built {
                Ok(cache) => {
                    &&& resolve_directory(
                        text_of(self.directory),
                        text_of(self.bundle_id),
                        env@,
                        text_of(home),
                    ) == Ok::<Seq<char>, BuildError>(cache.directory@)
                    &&& set_or_default(self.ttl, 30_000_000_000, cache.ttl)
                    &&& set_or_default(self.poll_interval, 100_000_000, cache.poll_interval)
                    &&& set_or_default(self.poll_duration, 1_000_000_000, cache.poll_duration)
                },
                Err(error) => resolve_directory(
                    text_of(self.directory),
                    text_of(self.bundle_id),
                    env@,
                    text_of(home),
                ) == Err::<Seq<char>, BuildError>(error),
            },
    {
        let Builder { directory, bundle_id, ttl, poll_interval, poll_duration } = self;
        let directory = match directory {
            Some(d) => d,
            None => match workflow_cache(env) {
                Some(d) => d,
                None => {
                    let id = match workflow_bundle_id(env) {
                        Some(id) => id,
                        None => match bundle_id {
                            Some(id) => id,
                            None => {
                                return Err(BuildError::NoBundleId);
                            },
                        },
                    };
                    let home = match home {
                        Some(h) => h,
                        None => {
                            return Err(BuildError::NoHomeDirectory);
                        },
                    };
                    let caches = join(home.as_str(), WORKFLOW_CACHES);
                    join(caches.as_str(), id.as_str())
                },
            },
        };
        let ttl = match ttl {
            Some(d) => d,
            None => Duration::from_secs(DEFAULT_TTL_SECS),
        };
        let poll_interval = match poll_interval {
            Some(d) => d,
            None => Duration::from_millis(DEFAULT_POLL_INTERVAL_MILLIS),
        };
        let poll_duration = match poll_duration {
            Some(d) => d,
            None => Duration::from_secs(DEFAULT_POLL_DURATION_SECS),
        };
        Ok(Cache { directory, ttl, poll_interval, poll_duration })
    }
}

impl Cache {
    /// The times that rule the loads of this cache.
    pub open spec fn spec_policy(self) -> Policy {
        Policy {
            ttl: self.ttl,
            poll_interval: self.poll_interval,
            poll_duration: self.poll_duration,
        }
    }

    /// Returns a new cache builder.
    pub fn builder() -> (b: Builder)
        ensures
            b == (Builder {
                directory: None,
                bundle_id: None,
                ttl: None,
                poll_interval: None,
                poll_duration: None,
            }),
    {
        Builder {
            directory: None,
            bundle_id: None,
            ttl: None,
            poll_interval: None,
            poll_duration: None,
        }
    }

    /// The times that rule the loads of this cache.
    pub fn policy(&self) -> (policy: Policy)
        ensures
            policy == self.spec_policy(),
    {
        Policy {
            ttl: self.ttl,
            poll_interval: self.poll_interval,
            poll_duration: self.poll_duration,
        }
    }

    /// Begins to fetch the value cached for `key`, for a caller whose inputs
    /// have the fingerprint `checksum`.
    ///
    /// The load that comes back has looked at nothing yet: its first step is
    /// to read the entry file of the key.
    pub fn load(&self, key: &str, checksum: &str) -> (load: Load)
        ensures
            load.phase is Reading,
            load.policy == self.spec_policy(),
            load.checksum@ == checksum@,
            load.layout.is_for(self.directory@, key@),
    {
        Load::new(self.policy(), checksum.to_owned(), Layout::of(self.directory.as_str(), key))
    }
}

} // verus!
