//! Configuration objects: one set of options per engine invocation, built
//! step by step and read by the engine.

use crate::progress::{sink_of, ProgressCallback};
use vstd::prelude::*;

verus! {

/// The lowest compression level the engine accepts.
pub const MIN_LEVEL: i32 = 1;

/// The highest compression level the engine accepts.
pub const MAX_LEVEL: i32 = 21;

/// Whether `level` is a compression level the engine accepts.
pub open spec fn valid_level(level: int) -> bool {
    MIN_LEVEL <= level <= MAX_LEVEL
}

/// What a set of compression options holds.
pub ghost struct CompressSettings {
    pub level: i32,
    pub force: bool,
    pub parallel: bool,
    pub auto_parallel: bool,
    pub output_path: Option<Seq<char>>,
}

/// Options of one compression: level, overwrite permission, parallelism,
/// destination and progress sink.
pub struct CompressOptions {
    level: i32,
    force: bool,
    parallel: bool,
    auto_parallel: bool,
    output_path: Option<String>,
    progress_callback: Option<ProgressCallback>,
}

impl View for CompressOptions {
    type V = CompressSettings;

    closed spec fn view(&self) -> CompressSettings {
        CompressSettings {
            level: self.level,
            force: self.force,
            parallel: self.parallel,
            auto_parallel: self.auto_parallel,
            output_path: match self.output_path {
                Some(path) => Some(path@),
                None => None,
            },
        }
    }
}

impl CompressOptions {
    #[verifier::type_invariant]
    spec fn level_is_valid(&self) -> bool {
        valid_level(self.level as int)
    }

    /// The progress sink, if one is installed.
    pub closed spec fn sink(&self) -> Option<ProgressCallback> {
        self.progress_callback
    }

    /// Options at `level` with everything else at its default: no
    /// overwriting, no explicit parallelism, automatic parallelism enabled,
    /// derived destination, no progress sink.
    pub fn new(level: i32) -> (options: Self)
        requires
            valid_level(level as int),
        ensures
            options@ == (CompressSettings {
                level,
                force: false,
                parallel: false,
                auto_parallel: true,
                output_path: None,
            }) && options.sink() is None,
    {
        CompressOptions {
            level,
            force: false,
            parallel: false,
            auto_parallel: true,
            output_path: None,
            progress_callback: None,
        }
    }

    /// Options at `level` as [`CompressOptions::new`] makes them, or nothing
    /// where `level` is not one the engine accepts.
    pub fn try_new(level: i32) -> (options: Option<Self>)
        ensures
            match options {
                Some(options) => valid_level(level as int) && options@ == (CompressSettings {
                    level,
                    force: false,
                    parallel: false,
                    auto_parallel: true,
                    output_path: None,
                }) && options.sink() is None,
                None => !valid_level(level as int),
            },
    {
        if MIN_LEVEL <= level && level <= MAX_LEVEL {
            Some(CompressOptions::new(level))
        } else {
            None
        }
    }

    /// The same options with overwriting of an existing destination set to
    /// `force`.
    pub fn with_force(self, force: bool) -> (options: Self)
        ensures
            options@ == (CompressSettings { force, ..self@ }),
            options.sink() == self.sink(),
    {
        let mut options = self;
        proof {
            use_type_invariant(&options);
        }
        options.force = force;
        options
    }

    /// The same options with the explicit request for parallel compression
    /// set to `parallel`.
    pub fn with_parallel(self, parallel: bool) -> (options: Self)
        ensures
            options@ == (CompressSettings { parallel, ..self@ }),
            options.sink() == self.sink(),
    {
        let mut options = self;
        proof {
            use_type_invariant(&options);
        }
        options.parallel = parallel;
        options
    }

    /// The same options with automatic parallelism for large inputs set to
    /// `auto_parallel`.
    pub fn with_auto_parallel(self, auto_parallel: bool) -> (options: Self)
        ensures
            options@ == (CompressSettings { auto_parallel, ..self@ }),
            options.sink() == self.sink(),
    {
        let mut options = self;
        proof {
            use_type_invariant(&options);
        }
        options.auto_parallel = auto_parallel;
        options
    }

    /// The same options with the destination set to `path`, a file or a
    /// directory.
    pub fn with_output_path(self, path: &str) -> (options: Self)
        ensures
            options@ == (CompressSettings { output_path: Some(path@), ..self@ }),
            options.sink() == self.sink(),
    {
        let mut options = self;
        proof {
            use_type_invariant(&options);
        }
        options.output_path = Some(path.to_owned());
        options
    }

    /// The same options with `callback` installed as the progress sink.
    pub fn with_progress<F>(self, callback: F) -> (options: Self) where
        F: Fn(u64) + Send + Sync + 'static,

        requires
            forall|units: u64| call_requires(callback, (units,)),
        ensures
            options@ == self@,
            options.sink() matches Some(sink) && forall|units: u64|
                sink.delivered(units) == call_ensures(callback, (units,), ()),
    {
        let mut options = self;
        proof {
            use_type_invariant(&options);
        }
        options.progress_callback = Some(ProgressCallback::new(callback));
        options
    }

    /// The compression level, always between [`MIN_LEVEL`] and
    /// [`MAX_LEVEL`].
    pub fn level(&self) -> (level: i32)
        ensures
            level == self@.level,
            valid_level(level as int),
    {
        proof {
            use_type_invariant(self);
        }
        self.level
    }

    /// Whether an existing destination may be overwritten.
    pub fn force(&self) -> (force: bool)
        ensures
            force == self@.force,
    {
        self.force
    }

    /// Whether parallel compression was requested explicitly.
    pub fn parallel(&self) -> (parallel: bool)
        ensures
            parallel == self@.parallel,
    {
        self.parallel
    }

    /// Whether large inputs are compressed in parallel automatically.
    pub fn auto_parallel(&self) -> (auto_parallel: bool)
        ensures
            auto_parallel == self@.auto_parallel,
    {
        self.auto_parallel
    }

    /// The destination the caller chose, if any.
    pub fn output_path(&self) -> (path: Option<&str>)
        ensures
            match path {
                Some(p) => self@.output_path == Some(p@),
                None => self@.output_path is None,
            },
    {
        match &self.output_path {
            Some(path) => Some(path.as_str()),
            None => None,
        }
    }

    /// The progress sink, if one is installed.
    pub fn progress_callback(&self) -> (callback: Option<&ProgressCallback>)
        ensures
            sink_of(callback) == self.sink(),
    {
        self.progress_callback.as_ref()
    }
}

/// What a set of decompression options holds.
pub ghost struct DecompressSettings {
    pub force: bool,
    pub output_path: Option<Seq<char>>,
}

/// Options of one decompression: overwrite permission, destination and
/// progress sink.
pub struct DecompressOptions {
    force: bool,
    output_path: Option<String>,
    progress_callback: Option<ProgressCallback>,
}

impl View for DecompressOptions {
    type V = DecompressSettings;

    closed spec fn view(&self) -> DecompressSettings {
        DecompressSettings {
            force: self.force,
            output_path: match self.output_path {
                Some(path) => Some(path@),
                None => None,
            },
        }
    }
}

impl Default for DecompressOptions {
    fn default() -> (options: Self)
        ensures
            options@ == (DecompressSettings {
                force: false,
                output_path: None,
            }) && options.sink() is None,
    {
        DecompressOptions { force: false, output_path: None, progress_callback: None }
    }
}

impl DecompressOptions {
    /// The progress sink, if one is installed.
    pub closed spec fn sink(&self) -> Option<ProgressCallback> {
        self.progress_callback
    }

    /// Options with everything at its default: no overwriting, derived
    /// destination, no progress sink.
    pub fn new() -> (options: Self)
        ensures
            options@ == (DecompressSettings {
                force: false,
                output_path: None,
            }) && options.sink() is None,
    {
        DecompressOptions { force: false, output_path: None, progress_callback: None }
    }

    /// The same options with overwriting of an existing destination set to
    /// `force`.
    pub fn with_force(self, force: bool) -> (options: Self)
        ensures
            options@ == (DecompressSettings { force, ..self@ }),
            options.sink() == self.sink(),
    {
        let mut options = self;
        options.force = force;
        options
    }

    /// The same options with the destination set to `path`.
    pub fn with_output_path(self, path: &str) -> (options: Self)
        ensures
            options@ == (DecompressSettings { output_path: Some(path@), ..self@ }),
            options.sink() == self.sink(),
    {
        let mut options = self;
        options.output_path = Some(path.to_owned());
        options
    }

    /// The same options with `callback` installed as the progress sink.
    pub fn with_progress<F>(self, callback: F) -> (options: Self) where
        F: Fn(u64) + Send + Sync + 'static,

        requires
            forall|units: u64| call_requires(callback, (units,)),
        ensures
            options@ == self@,
            options.sink() matches Some(sink) && forall|units: u64|
                sink.delivered(units) == call_ensures(callback, (units,), ()),
    {
        let mut options = self;
        options.progress_callback = Some(ProgressCallback::new(callback));
        options
    }

    /// Whether an existing destination may be overwritten.
    pub fn force(&self) -> (force: bool)
        ensures
            force == self@.force,
    {
        self.force
    }

    /// The destination the caller chose, if any.
    pub fn output_path(&self) -> (path: Option<&str>)
        ensures
            match path {
                Some(p) => self@.output_path == Some(p@),
                None => self@.output_path is None,
            },
    {
        match &self.output_path {
            Some(path) => Some(path.as_str()),
            None => None,
        }
    }

    /// The progress sink, if one is installed.
    pub fn progress_callback(&self) -> (callback: Option<&ProgressCallback>)
        ensures
            sink_of(callback) == self.sink(),
    {
        self.progress_callback.as_ref()
    }
}

} // verus!
