//! The namespace a deployment works in: a plain named scope with a fixed
//! default.

use vstd::prelude::*;

verus! {

/// The namespace used when none is configured.
pub const DEFAULT_NAMESPACE: &'static str = "workspace";

/// A named scope for deployed workloads.
#[derive(Debug)]
pub struct Namespace {
    text: String,
}

impl View for Namespace {
    type V = Seq<char>;

    closed spec fn view(&self) -> Seq<char> {
        self.text@
    }
}

impl Namespace {
    /// Wraps a namespace name.
    pub fn new(text: String) -> (r: Namespace)
        ensures
            r@ == text@,
    {
        Namespace { text }
    }

    /// The name itself.
    pub fn as_str(&self) -> (r: &str)
        ensures
            r@ == self@,
    {
        self.text.as_str()
    }

    /// The name as rendered for display.
    pub fn display_text(&self) -> (r: String)
        ensures
            r@ == self@,
    {
        self.text.clone()
    }
}

impl Default for Namespace {
    /// The fixed default scope.
    fn default() -> (r: Self)
        ensures
            r@ == DEFAULT_NAMESPACE@,
    {
        Namespace { text: String::from_str(DEFAULT_NAMESPACE) }
    }
}

impl From<String> for Namespace {
    fn from(value: String) -> (r: Self) {
        Namespace { text: value }
    }
}

impl vstd::std_specs::convert::FromSpecImpl<String> for Namespace {
    open spec fn obeys_from_spec() -> bool {
        true
    }

    closed spec fn from_spec(value: String) -> Self {
        Namespace { text: value }
    }
}

impl Clone for Namespace {
    fn clone(&self) -> (r: Self)
        ensures
            r@ == self@,
    {
        Namespace { text: self.text.clone() }
    }
}

impl PartialEq for Namespace {
    fn eq(&self, other: &Namespace) -> bool {
        self.text == other.text
    }
}

impl vstd::std_specs::cmp::PartialEqSpecImpl for Namespace {
    open spec fn obeys_eq_spec() -> bool {
        true
    }

    open spec fn eq_spec(&self, other: &Namespace) -> bool {
        self@ == other@
    }
}

} // verus!
