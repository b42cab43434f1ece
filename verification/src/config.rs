//! The process-wide configuration store, modeled as an explicit value.
//!
//! The host owns one `ConfigStore` for the whole process; a renderer
//! takes a snapshot at construction and never re-reads it mid-session,
//! so a later swap has no effect on an in-flight prompt.

use vstd::prelude::*;

use crate::render_config::RenderConfig;
use crate::render_config::is_stock_config;

verus! {

/// Default page size when displaying options to the user.
pub const DEFAULT_PAGE_SIZE: usize = 7;

/// Default value of vim mode.
pub const DEFAULT_VIM_MODE: bool = false;

/// The swappable configuration cell: reads copy the value out, writes
/// replace it whole — no partial mutation.
#[derive(Clone, Debug)]
pub struct ConfigStore {
    pub config: RenderConfig,
}

impl ConfigStore {
    pub fn new(config: RenderConfig) -> (r: Self)
        ensures
            r.config == config,
    {
        ConfigStore { config }
    }
}

impl Default for ConfigStore {
    /// A store holding the stock render configuration: the lazy initial
    /// value a process-wide cell starts from before any swap.
    fn default() -> (r: Self)
        ensures
            is_stock_config(r.config),
    {
        ConfigStore { config: RenderConfig::default() }
    }
}

/// A copy of the currently stored render configuration.
pub fn get_configuration(store: &ConfigStore) -> (r: RenderConfig)
    ensures
        r == store.config,
{
    store.config.snapshot()
}

/// Replaces the stored render configuration with the provided argument.
pub fn set_global_render_config(store: &mut ConfigStore, config: RenderConfig)
    ensures
        final (store).config == config,
{
    store.config = config;
}

} // verus!
