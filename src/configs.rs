use crate::check_method::{check_method_of, method_error, method_result, CheckMethod, ConfigError};
use crate::file_config::{ApplicationToml, LoggerToml, TargetToml};
use crate::text::same_text;
use vstd::prelude::*;

verus! {

/// What `duration_str::parse` returns for a text, as whole seconds and the
/// remaining nanoseconds; `None` where the text is refused.
pub uninterp spec fn duration_of(s: Seq<char>) -> Option<(u64, u32)>;

/// Relies on `duration_str::parse`: the duration depends on the text alone,
/// empty text is refused, and the sub-second part is below one second.
#[verifier::external_body]
fn parse_duration(s: &str) -> (r: Option<(u64, u32)>)
    ensures
        r == duration_of(s@),
        s@.len() == 0 ==> r is None,
        r matches Some(p) ==> p.1 < 1_000_000_000,
{
    match duration_str::parse(s) {
        Ok(d) => Some((d.as_secs(), d.subsec_nanos())),
        Err(_) => None,
    }
}

/// The interval used when the configuration names none.
pub open spec fn default_interval() -> Seq<char> {
    "10s"@
}

/// A poll interval: whole seconds and the nanoseconds beyond them.
#[derive(Debug, Clone, Copy, PartialEq, Eq, Structural)]
pub struct Interval {
    pub secs: u64,
    pub nanos: u32,
}

/// The logger settings that the process environment supplies.
#[derive(Debug, Clone, PartialEq, Eq)]
pub struct LoggerEnv {
    pub airbrake_host: Option<String>,
    pub airbrake_project_id: Option<String>,
    pub airbrake_project_key: Option<String>,
    pub airbrake_environment: Option<String>,
}

/// A value built from the environment alone.
pub trait FromEnv: Sized {
    /// `r` is the value that `env` gives.
    spec fn built_from_env(env: &LoggerEnv, r: &Self) -> bool;

    fn from_env(env: LoggerEnv) -> (r: Self)
        ensures
            Self::built_from_env(&env, &r),
    ;
}

/// A value that can tell whether it is usable.
pub trait SelfValidation: Sized {
    /// The value is usable.
    spec fn valid(&self) -> bool;

    /// `e` is the error reported for this value.
    spec fn reports(&self, e: ConfigError) -> bool;

    fn validate(&self) -> (r: Result<(), ConfigError>)
        ensures
            match r {
                Ok(_) => self.valid(),
                Err(e) => !self.valid() && self.reports(e),
            },
    ;
}

/// The whole configuration of the monitor.
#[derive(Clone, Debug, PartialEq)]
pub struct ApplicationConfig {
    pub interval: String,
    pub targets: Vec<TargetConfig>,
    pub logger: LoggerConfig,
}

/// One mount point to watch and how to judge it.
#[derive(Clone, Debug, PartialEq)]
pub struct TargetConfig {
    pub mount_point: String,
    pub check_method: String,
    pub threshold: String,
}

/// Settings of the logging collaborator.
#[derive(Clone, Debug, PartialEq)]
pub struct LoggerConfig {
    pub chan_size: Option<usize>,
    pub is_async: bool,
    pub level: Option<String>,
    pub airbrake_host: Option<String>,
    pub airbrake_project_id: Option<String>,
    pub airbrake_project_key: Option<String>,
    pub airbrake_environment: Option<String>,
}

/// The text of an optional field, empty where it is absent.
pub open spec fn text_or_empty(o: Option<String>) -> Seq<char> {
    match o {
        Some(s) => s@,
        None => Seq::empty(),
    }
}

/// An optional value from a file, falling back to `fallback` where it is absent.
pub open spec fn overlay<T>(o: Option<T>, fallback: Option<T>) -> Option<T> {
    if o is Some {
        o
    } else {
        fallback
    }
}

/// An optional flag, true where it is absent.
pub open spec fn flag_or_true(o: Option<bool>) -> bool {
    match o {
        Some(b) => b,
        None => true,
    }
}

/// The interval text of a file, the default where it names none.
pub open spec fn interval_or_default(o: Option<String>) -> Seq<char> {
    match o {
        Some(s) => s@,
        None => default_interval(),
    }
}

/// The logger levels that are accepted.
pub open spec fn is_log_level(l: Seq<char>) -> bool {
    ||| l == "CRASH"@
    ||| l == "ERROR"@
    ||| l == "WARN"@
    ||| l == "INFO"@
    ||| l == "DEBUG"@
    ||| l == "TRACE"@
}

fn text_or_empty_of(o: &Option<String>) -> (r: String)
    ensures
        r@ == text_or_empty(*o),
{
    match o {
        Some(s) => s.clone(),
        None => String::new(),
    }
}

fn overlay_of<T>(o: Option<T>, fallback: Option<T>) -> (r: Option<T>)
    ensures
        r == overlay(o, fallback),
{
    match o {
        Some(v) => Some(v),
        None => fallback,
    }
}

impl FromEnv for LoggerConfig {
    open spec fn built_from_env(env: &LoggerEnv, r: &Self) -> bool {
        &&& r.chan_size is None
        &&& r.is_async
        &&& r.level is None
        &&& r.airbrake_host == env.airbrake_host
        &&& r.airbrake_project_id == env.airbrake_project_id
        &&& r.airbrake_project_key == env.airbrake_project_key
        &&& r.airbrake_environment == env.airbrake_environment
    }

    fn from_env(env: LoggerEnv) -> (r: Self) {
        LoggerConfig {
            chan_size: None,
            is_async: true,
            level: None,
            airbrake_host: env.airbrake_host,
            airbrake_project_id: env.airbrake_project_id,
            airbrake_project_key: env.airbrake_project_key,
            airbrake_environment: env.airbrake_environment,
        }
    }
}

impl FromEnv for TargetConfig {
    open spec fn built_from_env(env: &LoggerEnv, r: &Self) -> bool {
        &&& r.mount_point@.len() == 0
        &&& r.check_method@.len() == 0
        &&& r.threshold@.len() == 0
    }

    fn from_env(env: LoggerEnv) -> (r: Self) {
        TargetConfig {
            mount_point: String::new(),
            check_method: String::new(),
            threshold: String::new(),
        }
    }
}

impl FromEnv for ApplicationConfig {
    open spec fn built_from_env(env: &LoggerEnv, r: &Self) -> bool {
        &&& r.interval@ == default_interval()
        &&& r.targets@.len() == 0
        &&& LoggerConfig::built_from_env(env, &r.logger)
    }

    fn from_env(env: LoggerEnv) -> (r: Self) {
        ApplicationConfig {
            interval: "10s".to_owned(),
            targets: Vec::new(),
            logger: LoggerConfig::from_env(env),
        }
    }
}

impl SelfValidation for TargetConfig {
    open spec fn valid(&self) -> bool {
        check_method_of(self.check_method@, self.threshold@) is Some
    }

    open spec fn reports(&self, e: ConfigError) -> bool {
        method_error(e, self.check_method@, self.threshold@)
    }

    fn validate(&self) -> (r: Result<(), ConfigError>) {
        match self.get_check_method() {
            Ok(_) => Ok(()),
            Err(e) => Err(e),
        }
    }
}

impl SelfValidation for LoggerConfig {
    open spec fn valid(&self) -> bool {
        self.level matches Some(l) ==> is_log_level(l@)
    }

    open spec fn reports(&self, e: ConfigError) -> bool {
        &&& e matches ConfigError::IllegalLoggerLevel(l)
        &&& self.level matches Some(level)
        &&& l@ == level@
    }

    fn validate(&self) -> (r: Result<(), ConfigError>) {
        match &self.level {
            Some(level) => {
                let l = level.as_str();
                if same_text(l, "CRASH") || same_text(l, "ERROR") || same_text(l, "WARN")
                    || same_text(l, "INFO") || same_text(l, "DEBUG") || same_text(l, "TRACE") {
                    Ok(())
                } else {
                    Err(ConfigError::IllegalLoggerLevel(level.clone()))
                }
            },
            None => Ok(()),
        }
    }
}

impl SelfValidation for ApplicationConfig {
    open spec fn valid(&self) -> bool {
        &&& duration_of(self.interval@) is Some
        &&& forall|i: int| 0 <= i < self.targets@.len() ==> (#[trigger] self.targets@[i]).valid()
        &&& self.logger.valid()
    }

    open spec fn reports(&self, e: ConfigError) -> bool {
        if duration_of(self.interval@) is None {
            e matches ConfigError::IllegalInterval(s) && s@ == self.interval@
        } else if exists|k: int| 0 <= k < self.targets@.len() && !(#[trigger] self.targets@[k]).valid() {
            exists|k: int|
                0 <= k < self.targets@.len() && (forall|j: int| 0 <= j < k ==> (#[trigger] self.targets@[j]).valid())
                    && !self.targets@[k].valid() && #[trigger] self.targets@[k].reports(e)
        } else {
            self.logger.reports(e)
        }
    }

    fn validate(&self) -> (r: Result<(), ConfigError>) {
        if parse_duration(self.interval.as_str()).is_none() {
            return Err(ConfigError::IllegalInterval(self.interval.clone()));
        }
        let mut i: usize = 0;
        while i < self.targets.len()
            invariant
                0 <= i <= self.targets@.len(),
                duration_of(self.interval@) is Some,
                forall|j: int| 0 <= j < i ==> (#[trigger] self.targets@[j]).valid(),
            decreases self.targets@.len() - i,
        {
            match self.targets[i].validate() {
                Ok(_) => {},
                Err(e) => {
                    assert(!self.targets@[i as int].valid());
                    return Err(e);
                },
            }
            i = i + 1;
        }
        self.logger.validate()
    }
}

impl TargetConfig {
    pub fn get_check_method(&self) -> (r: Result<CheckMethod, ConfigError>)
        ensures
            method_result(r, self.check_method@, self.threshold@),
            r matches Ok(m) ==> m.wf(),
    {
        CheckMethod::from(self.check_method.as_str(), self.threshold.as_str())
    }

    /// The target that a file's entry describes; absent fields are empty.
    pub fn from_toml(toml: &TargetToml) -> (r: TargetConfig)
        ensures
            r.mount_point@ == text_or_empty(toml.mount_point),
            r.check_method@ == text_or_empty(toml.check_method),
            r.threshold@ == text_or_empty(toml.threshold),
    {
        TargetConfig {
            mount_point: text_or_empty_of(&toml.mount_point),
            check_method: text_or_empty_of(&toml.check_method),
            threshold: text_or_empty_of(&toml.threshold),
        }
    }
}

impl LoggerConfig {
    /// The logger settings of a file's section, over those of the environment.
    pub fn from_toml(toml: LoggerToml, env: LoggerEnv) -> (r: LoggerConfig)
        ensures
            r.chan_size == toml.chan_size,
            r.is_async == flag_or_true(toml.is_async),
            r.level == toml.level,
            r.airbrake_host == overlay(toml.airbrake_host, env.airbrake_host),
            r.airbrake_project_id == overlay(toml.airbrake_project_id, env.airbrake_project_id),
            r.airbrake_project_key == overlay(toml.airbrake_project_key, env.airbrake_project_key),
            r.airbrake_environment == overlay(
                toml.airbrake_environment,
                env.airbrake_environment,
            ),
    {
        LoggerConfig {
            chan_size: toml.chan_size,
            is_async: match toml.is_async {
                Some(b) => b,
                None => true,
            },
            level: toml.level,
            airbrake_host: overlay_of(toml.airbrake_host, env.airbrake_host),
            airbrake_project_id: overlay_of(toml.airbrake_project_id, env.airbrake_project_id),
            airbrake_project_key: overlay_of(toml.airbrake_project_key, env.airbrake_project_key),
            airbrake_environment: overlay_of(toml.airbrake_environment, env.airbrake_environment),
        }
    }
}

impl ApplicationConfig {
    /// The configuration that a parsed file gives, with the environment's logger
    /// settings under the file's own.
    pub fn load_from_file(app_toml: ApplicationToml, env: LoggerEnv) -> (r: ApplicationConfig)
        ensures
            r.interval@ == interval_or_default(app_toml.interval),
            r.targets@.len() == app_toml.targets@.len(),
            forall|i: int|
                0 <= i < r.targets@.len() ==> {
                    let t = #[trigger] r.targets@[i];
                    let f = app_toml.targets@[i];
                    &&& t.mount_point@ == text_or_empty(f.mount_point)
                    &&& t.check_method@ == text_or_empty(f.check_method)
                    &&& t.threshold@ == text_or_empty(f.threshold)
                },
            app_toml.logger is None ==> LoggerConfig::built_from_env(&env, &r.logger),
            app_toml.logger matches Some(l) ==> {
                &&& r.logger.chan_size == l.chan_size
                &&& r.logger.is_async == flag_or_true(l.is_async)
                &&& r.logger.level == l.level
                &&& r.logger.airbrake_host == overlay(l.airbrake_host, env.airbrake_host)
                &&& r.logger.airbrake_project_id == overlay(
                    l.airbrake_project_id,
                    env.airbrake_project_id,
                )
                &&& r.logger.airbrake_project_key == overlay(
                    l.airbrake_project_key,
                    env.airbrake_project_key,
                )
                &&& r.logger.airbrake_environment == overlay(
                    l.airbrake_environment,
                    env.airbrake_environment,
                )
            },
    {
        let ApplicationToml { interval, targets: files, logger } = app_toml;
        let interval = match interval {
            Some(s) => s,
            None => "10s".to_owned(),
        };
        let mut targets: Vec<TargetConfig> = Vec::new();
        let mut i: usize = 0;
        while i < files.len()
            invariant
                0 <= i <= files@.len(),
                files@ == app_toml.targets@,
                targets@.len() == i,
                forall|k: int|
                    0 <= k < i ==> {
                        let t = #[trigger] targets@[k];
                        let f = files@[k];
                        &&& t.mount_point@ == text_or_empty(f.mount_point)
                        &&& t.check_method@ == text_or_empty(f.check_method)
                        &&& t.threshold@ == text_or_empty(f.threshold)
                    },
            decreases files@.len() - i,
        {
            let t = TargetConfig::from_toml(&files[i]);
            targets.push(t);
            i = i + 1;
        }
        let logger = match logger {
            Some(l) => LoggerConfig::from_toml(l, env),
            None => LoggerConfig::from_env(env),
        };
        ApplicationConfig { interval, targets, logger }
    }

    pub fn add_target(&mut self, target: TargetConfig)
        ensures
            final(self).targets@ == old(self).targets@.push(target),
            final(self).interval == old(self).interval,
            final(self).logger == old(self).logger,
    {
        self.targets.push(target)
    }

    /// The poll interval, or the error for an interval text that is no duration.
    pub fn get_interval(&self) -> (r: Result<Interval, ConfigError>)
        ensures
            match duration_of(self.interval@) {
                Some(p) => r == Ok::<Interval, ConfigError>(Interval { secs: p.0, nanos: p.1 }),
                None => r matches Err(ConfigError::IllegalInterval(s)) && s@ == self.interval@,
            },
    {
        match parse_duration(self.interval.as_str()) {
            Some((secs, nanos)) => Ok(Interval { secs, nanos }),
            None => Err(ConfigError::IllegalInterval(self.interval.clone())),
        }
    }
}

} // verus!
