//! Typed scalar values carried by records as payload and as properties.

use vstd::prelude::*;

verus! {

/// One scalar component of a record.
///
/// A real number is held as the JSON number text it was rendered to when
/// the value was captured.
#[derive(Debug, Clone)]
pub enum LogComponent {
    Integer(isize),
    UInteger(usize),
    Real(String),
    String(String),
    Boolean(bool),
    Undefined,
    Null,
}

/// The mathematical content of a [`LogComponent`].
pub ghost enum ComponentView {
    Integer(int),
    UInteger(nat),
    Real(Seq<char>),
    Text(Seq<char>),
    Boolean(bool),
    Undefined,
    Null,
}

impl View for LogComponent {
    type V = ComponentView;

    open spec fn view(&self) -> ComponentView {
        match self {
            LogComponent::Integer(v) => ComponentView::Integer(*v as int),
            LogComponent::UInteger(v) => ComponentView::UInteger(*v as nat),
            LogComponent::Real(t) => ComponentView::Real(t@),
            LogComponent::String(s) => ComponentView::Text(s@),
            LogComponent::Boolean(b) => ComponentView::Boolean(*b),
            LogComponent::Undefined => ComponentView::Undefined,
            LogComponent::Null => ComponentView::Null,
        }
    }
}

impl LogComponent {
    /// A copy of this component with the same content.
    pub fn duplicate(&self) -> (r: LogComponent)
        ensures
            r@ == self@,
    {
        match self {
            LogComponent::Integer(v) => LogComponent::Integer(*v),
            LogComponent::UInteger(v) => LogComponent::UInteger(*v),
            LogComponent::Real(t) => LogComponent::Real(t.clone()),
            LogComponent::String(s) => LogComponent::String(s.clone()),
            LogComponent::Boolean(b) => LogComponent::Boolean(*b),
            LogComponent::Undefined => LogComponent::Undefined,
            LogComponent::Null => LogComponent::Null,
        }
    }
}

} // verus!

verus! {

impl From<isize> for LogComponent {
    fn from(value: isize) -> (r: LogComponent) {
        LogComponent::Integer(value)
    }
}

impl vstd::std_specs::convert::FromSpecImpl<isize> for LogComponent {
    open spec fn obeys_from_spec() -> bool {
        true
    }

    open spec fn from_spec(v: isize) -> LogComponent {
        LogComponent::Integer(v)
    }
}

impl From<usize> for LogComponent {
    fn from(value: usize) -> (r: LogComponent) {
        LogComponent::UInteger(value)
    }
}

impl vstd::std_specs::convert::FromSpecImpl<usize> for LogComponent {
    open spec fn obeys_from_spec() -> bool {
        true
    }

    open spec fn from_spec(v: usize) -> LogComponent {
        LogComponent::UInteger(v)
    }
}

impl From<bool> for LogComponent {
    fn from(value: bool) -> (r: LogComponent) {
        LogComponent::Boolean(value)
    }
}

impl vstd::std_specs::convert::FromSpecImpl<bool> for LogComponent {
    open spec fn obeys_from_spec() -> bool {
        true
    }

    open spec fn from_spec(v: bool) -> LogComponent {
        LogComponent::Boolean(v)
    }
}

impl From<String> for LogComponent {
    fn from(value: String) -> (r: LogComponent) {
        LogComponent::String(value)
    }
}

impl vstd::std_specs::convert::FromSpecImpl<String> for LogComponent {
    open spec fn obeys_from_spec() -> bool {
        true
    }

    open spec fn from_spec(v: String) -> LogComponent {
        LogComponent::String(v)
    }
}

} // verus!
