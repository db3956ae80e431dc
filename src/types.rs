//! Records advertised in the manifest, and the identifiers of requests.
use vstd::prelude::*;

verus! {

/// What an option record says, over plain values.
pub struct OptionModel {
    pub name: Seq<char>,
    pub opt_typ: Seq<char>,
    pub default: Option<Seq<char>>,
    pub description: Seq<char>,
    pub deprecated: bool,
}

/// A configuration option that the plugin declares to the host.
pub struct RpcOption {
    pub name: String,
    pub opt_typ: String,
    pub default: Option<String>,
    pub description: String,
    pub deprecated: bool,
}

pub open spec fn opt_string_view(s: Option<String>) -> Option<Seq<char>> {
    match s {
        Some(v) => Some(v@),
        None => None,
    }
}

pub open spec fn opt_list_view(s: Option<Vec<String>>) -> Option<Seq<Seq<char>>> {
    match s {
        Some(v) => Some(v@.map_values(|x: String| x@)),
        None => None,
    }
}

impl View for RpcOption {
    type V = OptionModel;

    open spec fn view(&self) -> OptionModel {
        OptionModel {
            name: self.name@,
            opt_typ: self.opt_typ@,
            default: opt_string_view(self.default),
            description: self.description@,
            deprecated: self.deprecated,
        }
    }
}

/// What a method descriptor says, over plain values.
pub struct MethodInfoModel {
    pub name: Seq<char>,
    pub usage: Seq<char>,
    pub description: Seq<char>,
    pub long_description: Seq<char>,
    pub deprecated: bool,
}

/// The descriptor of a user method, as the manifest advertises it.
pub struct RPCMethodInfo {
    pub name: String,
    pub usage: String,
    pub description: String,
    pub long_description: String,
    pub deprecated: bool,
}

impl View for RPCMethodInfo {
    type V = MethodInfoModel;

    open spec fn view(&self) -> MethodInfoModel {
        MethodInfoModel {
            name: self.name@,
            usage: self.usage@,
            description: self.description@,
            long_description: self.long_description@,
            deprecated: self.deprecated,
        }
    }
}

/// What a hook descriptor says, over plain values.
pub struct HookInfoModel {
    pub name: Seq<char>,
    pub before: Option<Seq<Seq<char>>>,
    pub after: Option<Seq<Seq<char>>>,
}

/// The descriptor of a hook: its name and the ordering hints for the host.
pub struct RPCHookInfo {
    pub name: String,
    pub before: Option<Vec<String>>,
    pub after: Option<Vec<String>>,
}

impl View for RPCHookInfo {
    type V = HookInfoModel;

    open spec fn view(&self) -> HookInfoModel {
        HookInfoModel {
            name: self.name@,
            before: opt_list_view(self.before),
            after: opt_list_view(self.after),
        }
    }
}

/// The identifier of a request, echoed in its response.
pub enum RequestId {
    /// A number, as its JSON text.
    Num(String),
    /// A string.
    Str(String),
}

/// Severity of a log line sent to the host.
#[derive(Clone, Copy, PartialEq, Eq, Structural)]
pub enum LogLevel {
    Debug,
    Info,
    Warn,
    Error,
}

} // verus!
