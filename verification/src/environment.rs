//! The environment variables that a process starts with, as a plain value.

use vstd::prelude::*;
use crate::table::Keyed;
use crate::model::Model;

verus! {

/// Names the one toolchain to use, for this dispatcher alone.
pub const TOOLCHAIN_VAR: &'static str = "NIX_RUST_WRANGLER_TOOLCHAIN";

/// Names the one toolchain to use, by the convention that other tools share.
pub const GENERIC_TOOLCHAIN_VAR: &'static str = "RUSTUP_TOOLCHAIN";

/// The directory of the toolchain collection.
pub const COLLECTION_VAR: &'static str = "NIX_RUST_WRANGLER_TOOLCHAIN_COLLECTION";

/// The project description to use, in place of a search for one.
pub const FLAKE_PATH_VAR: &'static str = "NIX_RUST_WRANGLER_FLAKE_PATH";

/// Set to anything but the empty text, it switches the external build tool off.
pub const DISABLE_NIX_VAR: &'static str = "NIX_RUST_WRANGLER_DISABLE_NIX";

/// Set to anything but the empty text, it says that this process already runs
/// inside a derived shell.
pub const INSIDE_DEVELOP_VAR: &'static str = "NIX_RUST_WRANGLER_INSIDE_NIX_DEVELOP";

/// The directory of a toolchain to fall back on, for a process inside a derived shell.
pub const FALLBACK_VAR: &'static str = "NIX_RUST_WRANGLER_TOOLCHAIN_FALLBACK";

/// How many hand-offs led to this process.
pub const RECURSION_VAR: &'static str = "RUST_RECURSION_COUNT";

/// The directories in which executables are looked up.
pub const SEARCH_PATH_VAR: &'static str = "PATH";

/// The user's home directory.
pub const HOME_VAR: &'static str = "HOME";

/// The variable through which the dynamic loader is told where to look,
/// where the platform has no fallback variable.
pub const LIBRARY_PATH_VAR: &'static str = "LD_LIBRARY_PATH";

/// The variable through which the dynamic loader is told where to look when
/// all else fails, on a platform that has such a variable.
pub const FALLBACK_LIBRARY_PATH_VAR: &'static str = "DYLD_FALLBACK_LIBRARY_PATH";

/// The kind of system that the process runs on, as far as it matters here.
#[derive(Debug, Clone, Copy, PartialEq, Eq, Structural)]
pub enum Platform {
    /// The dynamic loader has a fallback search path.
    MacOs,
    /// Any other system.
    Other,
}

/// The name of the library search path variable on a platform.
pub open spec fn library_var(platform: Platform) -> Seq<char> {
    match platform {
        Platform::MacOs => FALLBACK_LIBRARY_PATH_VAR@,
        Platform::Other => LIBRARY_PATH_VAR@,
    }
}

impl Platform {
    /// The name of the library search path variable on this platform.
    pub fn library_path_var(&self) -> (name: &'static str)
        ensures
            name@ == library_var(*self),
    {
        match self {
            Platform::MacOs => FALLBACK_LIBRARY_PATH_VAR,
            Platform::Other => LIBRARY_PATH_VAR,
        }
    }
}

/// The value of one environment variable. `text` holds the value where it is
/// Unicode, and a readable rendering of it where it is not.
#[derive(Debug, Clone, PartialEq, Eq)]
pub struct EnvValue {
    pub text: String,
    pub unicode: bool,
}

pub ghost struct EnvValueModel {
    pub text: Seq<char>,
    pub unicode: bool,
}

impl Model for EnvValue {
    type M = EnvValueModel;

    open spec fn model(&self) -> EnvValueModel {
        EnvValueModel { text: self.text@, unicode: self.unicode }
    }
}

/// What reading a variable as Unicode text gives.
pub ghost enum TextVar {
    NotPresent,
    NotUnicode,
    Text(Seq<char>),
}

pub ghost struct EnvModel {
    pub vars: Map<Seq<char>, EnvValueModel>,
    pub platform: Platform,
}

/// A variable read as Unicode text.
pub open spec fn text_var(env: EnvModel, name: Seq<char>) -> TextVar {
    if !env.vars.contains_key(name) {
        TextVar::NotPresent
    } else if env.vars[name].unicode {
        TextVar::Text(env.vars[name].text)
    } else {
        TextVar::NotUnicode
    }
}

/// A variable read as it is.
pub open spec fn raw_var(env: EnvModel, name: Seq<char>) -> Option<Seq<char>> {
    if env.vars.contains_key(name) {
        Some(env.vars[name].text)
    } else {
        None
    }
}

/// Whether a variable is set to anything but the empty text.
pub open spec fn flag_var(env: EnvModel, name: Seq<char>) -> bool {
    env.vars.contains_key(name) && (env.vars[name].text.len() > 0 || !env.vars[name].unicode)
}

/// How reading a variable as Unicode text can fail.
#[derive(Debug, Clone, Copy, PartialEq, Eq)]
pub enum VarError {
    NotPresent,
    NotUnicode,
}

/// A snapshot of the surroundings of the process: its environment variables
/// and the platform it runs on.
#[derive(Debug, Clone)]
pub struct Environment {
    vars: Keyed<EnvValue>,
    platform: Platform,
}

impl Model for Environment {
    type M = EnvModel;

    closed spec fn model(&self) -> EnvModel {
        EnvModel { vars: self.vars.model(), platform: self.platform }
    }
}

impl Environment {
    /// The environment without variables, on a platform.
    pub fn new(platform: Platform) -> (env: Self)
        ensures
            env.model() == (EnvModel { vars: Map::<Seq<char>, EnvValueModel>::empty(), platform }),
    {
        let env = Environment { vars: Keyed::new(), platform };
        assert(env.model().vars =~= Map::<Seq<char>, EnvValueModel>::empty());
        env
    }

    /// The platform.
    pub fn platform(&self) -> (platform: Platform)
        ensures
            platform == self.model().platform,
    {
        self.platform
    }

    /// Sets the variable `name`.
    pub fn set(&mut self, name: String, value: EnvValue)
        ensures
            final(self).model() == (EnvModel {
                vars: old(self).model().vars.insert(name@, value.model()),
                ..old(self).model()
            }),
    {
        self.vars.put(name, value);
        assert(self.model().vars =~= old(self).model().vars.insert(name@, value.model()));
    }

    /// Sets the variable `name` to a Unicode text.
    pub fn set_text(&mut self, name: &str, text: &str)
        ensures
            final(self).model() == (EnvModel {
                vars: old(self).model().vars.insert(
                    name@,
                    EnvValueModel { text: text@, unicode: true },
                ),
                ..old(self).model()
            }),
    {
        self.set(
            crate::text::owned(name),
            EnvValue { text: crate::text::owned(text), unicode: true },
        );
    }

    /// The variable `name` as Unicode text.
    pub fn var(&self, name: &str) -> (value: Result<&str, VarError>)
        ensures
            match value {
                Ok(text) => text_var(self.model(), name@) == TextVar::Text(text@),
                Err(VarError::NotPresent) => text_var(self.model(), name@) == TextVar::NotPresent,
                Err(VarError::NotUnicode) => text_var(self.model(), name@) == TextVar::NotUnicode,
            },
    {
        match self.vars.get_text(name) {
            None => Err(VarError::NotPresent),
            Some(value) => {
                if value.unicode {
                    Ok(value.text.as_str())
                } else {
                    Err(VarError::NotUnicode)
                }
            },
        }
    }

    /// The variable `name` as it is.
    pub fn var_os(&self, name: &str) -> (value: Option<&str>)
        ensures
            value.is_some() == raw_var(self.model(), name@).is_some(),
            value matches Some(text) ==> Some(text@) == raw_var(self.model(), name@),
    {
        match self.vars.get_text(name) {
            None => None,
            Some(value) => Some(value.text.as_str()),
        }
    }

    /// Whether the variable `name` is set to anything but the empty text.
    pub fn flag(&self, name: &str) -> (set: bool)
        ensures
            set == flag_var(self.model(), name@),
    {
        match self.vars.get_text(name) {
            None => false,
            Some(value) => !value.unicode || value.text.as_str().unicode_len() > 0,
        }
    }
}

} // verus!
