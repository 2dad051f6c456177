//! The shared configuration state: the current configuration and stylesheet,
//! published together and replaced wholesale. Callers share one store behind
//! a mutual-exclusion lock.
use vstd::prelude::*;
use crate::config::RuntimeConfig;

verus! {

/// A configuration together with its stylesheet.
pub struct Snapshot {
    pub config: RuntimeConfig,
    pub styles: String,
}

/// Holds nothing until the first publication, then a configuration and a
/// stylesheet, always both.
pub struct ConfigStore {
    current: Option<Snapshot>,
}

impl ConfigStore {
    /// The configuration held, if any.
    pub closed spec fn config(&self) -> Option<RuntimeConfig> {
        match self.current {
            Some(s) => Some(s.config),
            None => None,
        }
    }

    /// The stylesheet held, if any.
    pub closed spec fn styles(&self) -> Option<String> {
        match self.current {
            Some(s) => Some(s.styles),
            None => None,
        }
    }

    /// An empty store, before publication.
    pub fn new() -> (r: ConfigStore)
        ensures
            r.config() is None,
            r.styles() is None,
    {
        ConfigStore { current: None }
    }

    /// Whether configuration and stylesheet have been published.
    pub fn is_published(&self) -> (r: bool)
        ensures
            r == self.config() is Some,
            r == self.styles() is Some,
    {
        self.current.is_some()
    }

    /// Publishes a configuration and its stylesheet in one step, replacing
    /// whatever was held.
    pub fn publish(&mut self, config: RuntimeConfig, styles: String)
        ensures
            final(self).config() == Some(config),
            final(self).styles() == Some(styles),
    {
        self.current = Some(Snapshot { config, styles });
    }

    /// Replaces the configuration after a reload, keeping the stylesheet.
    /// Before publication nothing is replaced and the result is false.
    pub fn replace_config(&mut self, config: RuntimeConfig) -> (r: bool)
        ensures
            r == old(self).config() is Some,
            r ==> final(self).config() == Some(config) && final(self).styles() == old(self).styles(),
            !r ==> final(self).config() is None && final(self).styles() is None,
    {
        match self.current.take() {
            Some(s) => {
                self.current = Some(Snapshot { config, styles: s.styles });
                true
            },
            None => false,
        }
    }

    /// Replaces the stylesheet after a reload, keeping the configuration.
    /// Before publication nothing is replaced and the result is false.
    pub fn replace_styles(&mut self, styles: String) -> (r: bool)
        ensures
            r == old(self).styles() is Some,
            r ==> final(self).styles() == Some(styles) && final(self).config() == old(self).config(),
            !r ==> final(self).config() is None && final(self).styles() is None,
    {
        match self.current.take() {
            Some(s) => {
                self.current = Some(Snapshot { config: s.config, styles });
                true
            },
            None => false,
        }
    }

    /// The configuration and stylesheet held, read together.
    pub fn snapshot(&self) -> (r: Option<&Snapshot>)
        ensures
            r is None <==> self.config() is None,
            r is Some ==> Some(r->0.config) == self.config() && Some(r->0.styles) == self.styles(),
    {
        match &self.current {
            Some(s) => Some(s),
            None => None,
        }
    }
}

/// A reader never sees a configuration without its stylesheet, or the
/// reverse: either both are held or neither is.
pub proof fn lemma_published_together(store: ConfigStore)
    ensures
        store.config() is Some <==> store.styles() is Some,
{
}

} // verus!
