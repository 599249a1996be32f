//! The name and shape of one RPC method.
use vstd::prelude::*;

verus! {

/// How requests and responses of a method flow.
#[derive(Clone, Copy, Debug, PartialEq, Eq, Structural, Hash)]
pub enum MethodKind {
    Unary,
    ClientStreaming,
    ServerStreaming,
    Duplex,
}

/// A method, told apart by its name and kind.
#[derive(Debug, Hash)]
pub struct ApiMethod {
    name: String,
    kind: MethodKind,
}

impl ApiMethod {
    pub closed spec fn name_view(&self) -> Seq<char> {
        self.name@
    }

    pub closed spec fn kind_view(&self) -> MethodKind {
        self.kind
    }

    pub fn new(name: &str, kind: MethodKind) -> (m: ApiMethod)
        ensures
            m.name_view() == name@,
            m.kind_view() == kind,
    {
        ApiMethod { name: name.to_owned(), kind }
    }
}

impl PartialEq for ApiMethod {
    fn eq(&self, other: &ApiMethod) -> (r: bool) {
        self.name == other.name && self.kind == other.kind
    }
}

impl vstd::std_specs::cmp::PartialEqSpecImpl for ApiMethod {
    open spec fn obeys_eq_spec() -> bool {
        true
    }

    open spec fn eq_spec(&self, other: &ApiMethod) -> bool {
        self.name_view() == other.name_view() && self.kind_view() == other.kind_view()
    }
}

impl Eq for ApiMethod {

}

} // verus!
