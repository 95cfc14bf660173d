use vstd::prelude::*;

verus! {

/// Options for configuring suspense. `R` is the type of the panic renderer,
/// the function that renders a fallback from the object a suspended task
/// panicked with.
#[derive(Clone, Debug)]
pub struct ColumboOptions<R> {
    /// Renders a panic fallback given the panic object.
    pub panic_renderer: Option<R>,
    /// Whether to automatically cancel suspended futures at the next await
    /// point when the response is dropped.
    pub auto_cancel: Option<bool>,
    /// Whether the global swapping script is appended to the document.
    pub include_script: Option<bool>,
}

impl<R> Default for ColumboOptions<R> {
    /// No panic renderer, and every option left at its default.
    fn default() -> (options: Self)
        ensures
            options.panic_renderer is None,
            options.auto_cancel is None,
            options.include_script is None,
    {
        ColumboOptions { panic_renderer: None, auto_cancel: None, include_script: None }
    }
}

impl<R> ColumboOptions<R> {
    /// Whether suspended futures are cancelled when the response is dropped;
    /// off unless set.
    pub fn auto_cancel_enabled(&self) -> (enabled: bool)
        ensures
            enabled == (self.auto_cancel == Some(true)),
    {
        match self.auto_cancel {
            Some(b) => b,
            None => false,
        }
    }

    /// Whether the global swapping script is sent with the document; on
    /// unless set.
    pub fn script_enabled(&self) -> (enabled: bool)
        ensures
            enabled == (self.include_script != Some(false)),
    {
        match self.include_script {
            Some(b) => b,
            None => true,
        }
    }
}

} // verus!
