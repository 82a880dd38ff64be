//! The configuration of a loader, and the builder that accumulates it.

use crate::model::AOTIModel;
use vstd::prelude::*;

verus! {

/// What the construct call is given: where the package lies, which model of
/// it to load, and how the loader is to run it.
#[derive(Debug)]
pub struct ModelConfig {
    pub path: String,
    pub model_name: String,
    pub run_single_threaded: bool,
    pub num_runners: usize,
    pub device_index: i8,
}

/// A configuration with its texts as sequences of characters.
pub struct ModelConfigView {
    pub path: Seq<char>,
    pub model_name: Seq<char>,
    pub run_single_threaded: bool,
    pub num_runners: usize,
    pub device_index: i8,
}

impl ModelConfigView {
    /// The configuration that a path alone stands for: the model named
    /// `model`, not single-threaded, one runner, the current default device.
    pub open spec fn default_for(path: Seq<char>) -> ModelConfigView {
        ModelConfigView {
            path,
            model_name: "model"@,
            run_single_threaded: false,
            num_runners: 1,
            device_index: -1i8,
        }
    }

    /// What the construct call asks of its inputs: a path and a model name
    /// that are not empty, and at least one runner.
    pub open spec fn is_valid(self) -> bool {
        &&& self.path.len() > 0
        &&& self.model_name.len() > 0
        &&& self.num_runners >= 1
    }

    /// Whether the loader is to use the current default device: any
    /// negative device index says so.
    pub open spec fn uses_default_device(self) -> bool {
        self.device_index < 0
    }
}

impl View for ModelConfig {
    type V = ModelConfigView;

    open spec fn view(&self) -> ModelConfigView {
        ModelConfigView {
            path: self.path@,
            model_name: self.model_name@,
            run_single_threaded: self.run_single_threaded,
            num_runners: self.num_runners,
            device_index: self.device_index,
        }
    }
}

impl ModelConfig {
    /// Whether the configuration meets what the construct call asks of its
    /// inputs.
    pub fn is_valid(&self) -> (valid: bool)
        ensures
            valid == self@.is_valid(),
    {
        !self.path.as_str().is_empty() && !self.model_name.as_str().is_empty()
            && self.num_runners >= 1
    }

    /// Whether the configuration asks for the current default device.
    pub fn uses_default_device(&self) -> (default_device: bool)
        ensures
            default_device == self@.uses_default_device(),
    {
        self.device_index < 0
    }
}

/// Accumulates the configuration of a loader, starting from the defaults.
#[derive(Debug)]
pub struct AOTIModelBuilder {
    config: ModelConfig,
}

impl View for AOTIModelBuilder {
    type V = ModelConfigView;

    open spec fn view(&self) -> ModelConfigView {
        self.config()@
    }
}

impl AOTIModelBuilder {
    /// The configuration that the builder holds, as `build` hands it to the
    /// construct call.
    pub closed spec fn config(self) -> ModelConfig {
        self.config
    }

    /// Starts from the defaults for the package at `model_package_path`.
    pub fn new(model_package_path: &str) -> (builder: Self)
        ensures
            builder@ == ModelConfigView::default_for(model_package_path@),
    {
        AOTIModelBuilder {
            config: ModelConfig {
                path: model_package_path.to_owned(),
                model_name: "model".to_owned(),
                run_single_threaded: false,
                num_runners: 1,
                device_index: -1,
            },
        }
    }

    /// Sets the name of the model within the package.
    pub fn model_name(self, name: &str) -> (builder: Self)
        ensures
            builder@ == (ModelConfigView { model_name: name@, ..self@ }),
    {
        let mut config = self.config;
        config.model_name = name.to_owned();
        AOTIModelBuilder { config }
    }

    /// Sets whether the loader runs single-threaded.
    pub fn single_threaded(self, single_threaded: bool) -> (builder: Self)
        ensures
            builder@ == (ModelConfigView { run_single_threaded: single_threaded, ..self@ }),
    {
        let mut config = self.config;
        config.run_single_threaded = single_threaded;
        AOTIModelBuilder { config }
    }

    /// Sets the number of runners.
    pub fn num_runners(self, n: usize) -> (builder: Self)
        ensures
            builder@ == (ModelConfigView { num_runners: n, ..self@ }),
    {
        let mut config = self.config;
        config.num_runners = n;
        AOTIModelBuilder { config }
    }

    /// Sets the device index. A negative index stands for the current
    /// default device.
    pub fn device_index(self, idx: i8) -> (builder: Self)
        ensures
            builder@ == (ModelConfigView { device_index: idx, ..self@ }),
    {
        let mut config = self.config;
        config.device_index = idx;
        AOTIModelBuilder { config }
    }

    /// Makes the one construct call with the accumulated configuration. A
    /// handle that the call returns is wrapped in a facade that owns it; a
    /// failure is handed on unchanged, and no facade is made.
    pub fn build<L, F>(self, construct: F) -> (built: Result<AOTIModel<L>, String>) where
        F: FnOnce(ModelConfig) -> Result<L, String>,

        requires
            construct.requires((self.config(),)),
        ensures
            built is Ok ==> built->Ok_0@ is Some,
            construct.ensures((self.config(),), AOTIModel::construct_outcome(built)),
    {
        match construct(self.config) {
            Ok(handle) => Ok(AOTIModel::from_handle(handle)),
            Err(what) => Err(what),
        }
    }
}

/// The defaults make a valid configuration of every path that is not empty.
pub proof fn lemma_default_is_valid(path: Seq<char>)
    requires
        path.len() > 0,
    ensures
        ModelConfigView::default_for(path).is_valid(),
        ModelConfigView::default_for(path).uses_default_device(),
{
    reveal_strlit("model");
}

} // verus!
