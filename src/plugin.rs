//! The plugin instance: its registries, the built-in lifecycle methods,
//! dispatch, and the handling of one input line.
use vstd::prelude::*;
use crate::json::{json_quoted, line_fields, read_line_fields, value_text, LineModel};
use crate::registry::{Entry, Registry};
use crate::types::{
    opt_list_view, opt_string_view, HookInfoModel, MethodInfoModel, OptionModel, RPCHookInfo,
    RPCMethodInfo, RequestId, RpcOption,
};
use crate::wire::{
    blank_line, hook_json, hook_text, id_text, is_blank, list_json, manifest_text, method_json,
    method_text, names_json, not_found_envelope, not_found_json, option_json, option_text,
    push_bool, success_envelope, success_json,
};

verus! {

/// A callback that answers a method, hook or notification. It may change
/// the plugin, its state and its registries included.
pub trait RPCCommand<T>: Sized {
    /// What a call of this handler may do: run on the plugin `before` with
    /// `params`, leave the plugin `after`, and answer `answer`.
    spec fn answers(
        &self,
        before: Plugin<T, Self>,
        params: serde_json::Value,
        after: Plugin<T, Self>,
        answer: serde_json::Value,
    ) -> bool;

    /// A handler that is this one.
    fn duplicate(&self) -> (r: Self)
        ensures
            r == *self,
    ;

    fn call(&self, plugin: &mut Plugin<T, Self>, params: &serde_json::Value) -> (r: serde_json::Value)
        requires
            old(plugin).wf(),
        ensures
            final(plugin).wf(),
            self.answers(*old(plugin), *params, *final(plugin), r),
    ;
}

/// The result of a dispatch.
pub enum Reply {
    /// Encoded JSON written by the library (the built-in methods).
    Text(String),
    /// The answer of a user handler, as it returned it.
    Value(serde_json::Value),
}

/// What a method name is bound to.
pub enum MethodHandler<H> {
    /// The built-in `getmanifest`.
    GetManifest,
    /// The built-in `init`.
    Init,
    /// A user callback.
    Custom(H),
}

/// A request read from the host.
pub struct Request {
    pub method: String,
    pub params: serde_json::Value,
    pub id: RequestId,
}

/// Why a line could not be read as a request.
#[derive(PartialEq, Eq, Structural)]
pub enum ProtocolError {
    /// The line is not one JSON value.
    NotJson,
    /// No string member `method`.
    NoMethod,
    /// No member `params`.
    NoParams,
    /// No member `id` that is a string or a number.
    NoId,
}

/// Why a dispatch failed.
pub enum DispatchError {
    MethodNotFound(String),
}

/// What the loop does after one input line.
pub enum Step {
    /// Nothing to answer; read the next line.
    Skip,
    /// Write this line, then read the next one.
    Respond(String),
    /// Stop serving.
    Fatal(ProtocolError),
}

pub open spec fn manifest_name() -> Seq<char> {
    "getmanifest"@
}

pub open spec fn init_name() -> Seq<char> {
    "init"@
}

pub open spec fn keyed_by_name_options(m: Map<Seq<char>, RpcOption>) -> bool {
    forall|k: Seq<char>| #[trigger] m.contains_key(k) ==> m[k].name@ == k
}

pub open spec fn keyed_by_name_methods(m: Map<Seq<char>, RPCMethodInfo>) -> bool {
    forall|k: Seq<char>| #[trigger] m.contains_key(k) ==> m[k].name@ == k
}

pub open spec fn keyed_by_name_hooks(m: Map<Seq<char>, RPCHookInfo>) -> bool {
    forall|k: Seq<char>| #[trigger] m.contains_key(k) ==> m[k].name@ == k
}

/// The plugin instance, generic over its state `T` and its callback type `H`.
pub struct Plugin<T, H> {
    state: T,
    option: Registry<RpcOption>,
    rpc_method: Registry<MethodHandler<H>>,
    rpc_info: Registry<RPCMethodInfo>,
    rpc_hook: Registry<H>,
    hook_info: Registry<RPCHookInfo>,
    rpc_notification: Registry<H>,
    dynamic: bool,
}

impl<T, H> Plugin<T, H> {
    /// The registries are well formed, each descriptor is keyed by its own
    /// name, and descriptors and handlers name the same methods and hooks
    /// (the built-in methods have no descriptor).
    pub closed spec fn wf(&self) -> bool {
        &&& self.option.wf()
        &&& self.rpc_method.wf()
        &&& self.rpc_info.wf()
        &&& self.rpc_hook.wf()
        &&& self.hook_info.wf()
        &&& self.rpc_notification.wf()
        &&& keyed_by_name_options(self.option@)
        &&& keyed_by_name_methods(self.rpc_info@)
        &&& keyed_by_name_hooks(self.hook_info@)
        &&& forall|k: Seq<char>| #[trigger]
            self.rpc_info@.contains_key(k) ==> self.rpc_method@.contains_key(k)
        &&& forall|k: Seq<char>| #[trigger]
            self.rpc_method@.contains_key(k) ==> self.rpc_info@.contains_key(k) || k
                == manifest_name() || k == init_name()
        &&& self.hook_info@.dom() == self.rpc_hook@.dom()
    }

    pub closed spec fn state(&self) -> T {
        self.state
    }

    pub closed spec fn dynamic(&self) -> bool {
        self.dynamic
    }

    /// Declared options, by name.
    pub closed spec fn options(&self) -> Map<Seq<char>, OptionModel> {
        self.option@.map_values(|o: RpcOption| o@)
    }

    /// Method names and their handlers, built-ins included once installed.
    pub closed spec fn methods(&self) -> Map<Seq<char>, MethodHandler<H>> {
        self.rpc_method@
    }

    /// Descriptors of the user methods, by name.
    pub closed spec fn method_infos(&self) -> Map<Seq<char>, MethodInfoModel> {
        self.rpc_info@.map_values(|m: RPCMethodInfo| m@)
    }

    /// Hook names and their handlers.
    pub closed spec fn hooks(&self) -> Map<Seq<char>, H> {
        self.rpc_hook@
    }

    /// Descriptors of the hooks, by name.
    pub closed spec fn hook_infos(&self) -> Map<Seq<char>, HookInfoModel> {
        self.hook_info@.map_values(|h: RPCHookInfo| h@)
    }

    /// Notification names and their handlers.
    pub closed spec fn notifications(&self) -> Map<Seq<char>, H> {
        self.rpc_notification@
    }

    /// The options as the manifest lists them.
    pub closed spec fn manifest_options(&self) -> Seq<OptionModel> {
        self.option.entries().map_values(|e: Entry<RpcOption>| e.value@)
    }

    /// The method descriptors as the manifest lists them.
    pub closed spec fn manifest_methods(&self) -> Seq<MethodInfoModel> {
        self.rpc_info.entries().map_values(|e: Entry<RPCMethodInfo>| e.value@)
    }

    /// The hook descriptors as the manifest lists them.
    pub closed spec fn manifest_hooks(&self) -> Seq<HookInfoModel> {
        self.hook_info.entries().map_values(|e: Entry<RPCHookInfo>| e.value@)
    }

    /// The notification names as the manifest lists them.
    pub closed spec fn manifest_notifications(&self) -> Seq<Seq<char>> {
        self.rpc_notification.entries().map_values(|e: Entry<H>| e.name@)
    }

    /// The text of the manifest.
    pub open spec fn manifest(&self) -> Seq<char> {
        manifest_text(
            self.manifest_options(),
            self.manifest_methods(),
            self.manifest_hooks(),
            self.manifest_notifications(),
            self.dynamic(),
        )
    }

    /// A plugin with the given state and no registrations.
    pub fn new(state: T, dynamic: bool) -> (r: Self)
        ensures
            r.wf(),
            r.state() == state,
            r.dynamic() == dynamic,
            r.options() == Map::<Seq<char>, OptionModel>::empty(),
            r.methods() == Map::<Seq<char>, MethodHandler<H>>::empty(),
            r.method_infos() == Map::<Seq<char>, MethodInfoModel>::empty(),
            r.hooks() == Map::<Seq<char>, H>::empty(),
            r.hook_infos() == Map::<Seq<char>, HookInfoModel>::empty(),
            r.notifications() == Map::<Seq<char>, H>::empty(),
    {
        let r = Plugin {
            state,
            option: Registry::new(),
            rpc_method: Registry::new(),
            rpc_info: Registry::new(),
            rpc_hook: Registry::new(),
            hook_info: Registry::new(),
            rpc_notification: Registry::new(),
            dynamic,
        };
        assert(r.options() =~= Map::<Seq<char>, OptionModel>::empty());
        assert(r.method_infos() =~= Map::<Seq<char>, MethodInfoModel>::empty());
        assert(r.hook_infos() =~= Map::<Seq<char>, HookInfoModel>::empty());
        r
    }

    /// Declares an option; a later declaration under the same name replaces
    /// the earlier one.
    pub fn add_opt(
        &mut self,
        name: &str,
        opt_type: &str,
        def_val: Option<String>,
        description: &str,
        deprecated: bool,
    )
        requires
            old(self).wf(),
        ensures
            final(self).wf(),
            final(self).options() == old(self).options().insert(
                name@,
                OptionModel {
                    name: name@,
                    opt_typ: opt_type@,
                    default: opt_string_view(def_val),
                    description: description@,
                    deprecated,
                },
            ),
            final(self).methods() == old(self).methods(),
            final(self).method_infos() == old(self).method_infos(),
            final(self).hooks() == old(self).hooks(),
            final(self).hook_infos() == old(self).hook_infos(),
            final(self).notifications() == old(self).notifications(),
            final(self).dynamic() == old(self).dynamic(),
            final(self).state() == old(self).state(),
    {
        let o = RpcOption {
            name: name.to_owned(),
            opt_typ: opt_type.to_owned(),
            default: def_val,
            description: description.to_owned(),
            deprecated,
        };
        self.option.insert(name.to_owned(), o);
        assert(self.options() =~= old(self).options().insert(name@, o@));
    }

    /// Binds a user method and its descriptor; a later registration under the
    /// same name replaces both.
    pub fn add_rpc_method(&mut self, name: &str, usage: &str, description: &str, callback: H)
        requires
            old(self).wf(),
        ensures
            final(self).wf(),
            final(self).methods() == old(self).methods().insert(
                name@,
                MethodHandler::Custom(callback),
            ),
            final(self).method_infos() == old(self).method_infos().insert(
                name@,
                MethodInfoModel {
                    name: name@,
                    usage: usage@,
                    description: description@,
                    long_description: description@,
                    deprecated: false,
                },
            ),
            final(self).options() == old(self).options(),
            final(self).hooks() == old(self).hooks(),
            final(self).hook_infos() == old(self).hook_infos(),
            final(self).notifications() == old(self).notifications(),
            final(self).dynamic() == old(self).dynamic(),
            final(self).state() == old(self).state(),
    {
        self.rpc_method.insert(name.to_owned(), MethodHandler::Custom(callback));
        let info = RPCMethodInfo {
            name: name.to_owned(),
            usage: usage.to_owned(),
            description: description.to_owned(),
            long_description: description.to_owned(),
            deprecated: false,
        };
        self.rpc_info.insert(name.to_owned(), info);
        assert(self.method_infos() =~= old(self).method_infos().insert(name@, info@));
    }

    /// Binds a hook and its ordering hints, stored as given; a later
    /// registration under the same name replaces both.
    pub fn register_hook(
        &mut self,
        hook_name: &str,
        before: Option<Vec<String>>,
        after: Option<Vec<String>>,
        callback: H,
    )
        requires
            old(self).wf(),
        ensures
            final(self).wf(),
            final(self).hooks() == old(self).hooks().insert(hook_name@, callback),
            final(self).hook_infos() == old(self).hook_infos().insert(
                hook_name@,
                HookInfoModel {
                    name: hook_name@,
                    before: opt_list_view(before),
                    after: opt_list_view(after),
                },
            ),
            final(self).options() == old(self).options(),
            final(self).methods() == old(self).methods(),
            final(self).method_infos() == old(self).method_infos(),
            final(self).notifications() == old(self).notifications(),
            final(self).dynamic() == old(self).dynamic(),
            final(self).state() == old(self).state(),
    {
        self.rpc_hook.insert(hook_name.to_owned(), callback);
        let info = RPCHookInfo { name: hook_name.to_owned(), before, after };
        self.hook_info.insert(hook_name.to_owned(), info);
        assert(self.hook_infos() =~= old(self).hook_infos().insert(hook_name@, info@));
        assert(self.hook_info@.dom() =~= self.rpc_hook@.dom());
    }

    /// Binds a notification; a later registration under the same name
    /// replaces the earlier one.
    pub fn register_notification(&mut self, name: &str, callback: H)
        requires
            old(self).wf(),
        ensures
            final(self).wf(),
            final(self).notifications() == old(self).notifications().insert(name@, callback),
            final(self).options() == old(self).options(),
            final(self).methods() == old(self).methods(),
            final(self).method_infos() == old(self).method_infos(),
            final(self).hooks() == old(self).hooks(),
            final(self).hook_infos() == old(self).hook_infos(),
            final(self).dynamic() == old(self).dynamic(),
            final(self).state() == old(self).state(),
    {
        self.rpc_notification.insert(name.to_owned(), callback);
    }

    /// Binds the built-in `getmanifest` and `init`, replacing any user method
    /// of those names. Serving starts after this.
    pub fn install_builtins(&mut self)
        requires
            old(self).wf(),
        ensures
            final(self).wf(),
            final(self).methods() == old(self).methods().insert(
                manifest_name(),
                MethodHandler::GetManifest,
            ).insert(init_name(), MethodHandler::Init),
            final(self).methods()[manifest_name()] == MethodHandler::<H>::GetManifest,
            final(self).methods()[init_name()] == MethodHandler::<H>::Init,
            final(self).options() == old(self).options(),
            final(self).method_infos() == old(self).method_infos(),
            final(self).hooks() == old(self).hooks(),
            final(self).hook_infos() == old(self).hook_infos(),
            final(self).notifications() == old(self).notifications(),
            final(self).dynamic() == old(self).dynamic(),
            final(self).state() == old(self).state(),
    {
        proof {
            reveal_strlit("getmanifest");
            reveal_strlit("init");
            assert(manifest_name().len() != init_name().len());
        }
        self.rpc_method.insert("getmanifest".to_owned(), MethodHandler::GetManifest);
        self.rpc_method.insert("init".to_owned(), MethodHandler::Init);
    }

    /// The plugin's state.
    pub fn get_state(&self) -> (r: &T)
        ensures
            *r == self.state(),
    {
        &self.state
    }

    /// Replaces the plugin's state.
    pub fn set_state(&mut self, state: T)
        requires
            old(self).wf(),
        ensures
            final(self).wf(),
            final(self).state() == state,
            final(self).options() == old(self).options(),
            final(self).methods() == old(self).methods(),
            final(self).method_infos() == old(self).method_infos(),
            final(self).hooks() == old(self).hooks(),
            final(self).hook_infos() == old(self).hook_infos(),
            final(self).notifications() == old(self).notifications(),
            final(self).dynamic() == old(self).dynamic(),
    {
        self.state = state;
    }

    /// Whether the host may start and stop this plugin while it runs.
    pub fn is_dynamic(&self) -> (r: bool)
        ensures
            r == self.dynamic(),
    {
        self.dynamic
    }

    fn option_items(&self) -> (r: Vec<String>)
        ensures
            r@.map_values(|s: String| s@) == self.manifest_options().map_values(
                |o: OptionModel| option_text(o),
            ),
    {
        let mut items: Vec<String> = Vec::new();
        let mut i: usize = 0;
        while i < self.option.len()
            invariant
                i <= self.option.entries().len(),
                items@.len() == i,
                forall|j: int|
                    0 <= j < i ==> (#[trigger] items@[j])@ == option_text(
                        self.option.entries()[j].value@,
                    ),
            decreases self.option.entries().len() - i,
        {
            items.push(option_json(&self.option.entry(i).value));
            i = i + 1;
        }
        assert(items@.map_values(|s: String| s@) =~= self.manifest_options().map_values(
            |o: OptionModel| option_text(o),
        ));
        items
    }

    fn method_items(&self) -> (r: Vec<String>)
        ensures
            r@.map_values(|s: String| s@) == self.manifest_methods().map_values(
                |m: MethodInfoModel| method_text(m),
            ),
    {
        let mut items: Vec<String> = Vec::new();
        let mut i: usize = 0;
        while i < self.rpc_info.len()
            invariant
                i <= self.rpc_info.entries().len(),
                items@.len() == i,
                forall|j: int|
                    0 <= j < i ==> (#[trigger] items@[j])@ == method_text(
                        self.rpc_info.entries()[j].value@,
                    ),
            decreases self.rpc_info.entries().len() - i,
        {
            items.push(method_json(&self.rpc_info.entry(i).value));
            i = i + 1;
        }
        assert(items@.map_values(|s: String| s@) =~= self.manifest_methods().map_values(
            |m: MethodInfoModel| method_text(m),
        ));
        items
    }

    fn hook_items(&self) -> (r: Vec<String>)
        ensures
            r@.map_values(|s: String| s@) == self.manifest_hooks().map_values(
                |h: HookInfoModel| hook_text(h),
            ),
    {
        let mut items: Vec<String> = Vec::new();
        let mut i: usize = 0;
        while i < self.hook_info.len()
            invariant
                i <= self.hook_info.entries().len(),
                items@.len() == i,
                forall|j: int|
                    0 <= j < i ==> (#[trigger] items@[j])@ == hook_text(
                        self.hook_info.entries()[j].value@,
                    ),
            decreases self.hook_info.entries().len() - i,
        {
            items.push(hook_json(&self.hook_info.entry(i).value));
            i = i + 1;
        }
        assert(items@.map_values(|s: String| s@) =~= self.manifest_hooks().map_values(
            |h: HookInfoModel| hook_text(h),
        ));
        items
    }

    fn notification_names(&self) -> (r: Vec<String>)
        ensures
            r@.map_values(|s: String| s@) == self.manifest_notifications(),
    {
        let mut items: Vec<String> = Vec::new();
        let mut i: usize = 0;
        while i < self.rpc_notification.len()
            invariant
                i <= self.rpc_notification.entries().len(),
                items@.len() == i,
                forall|j: int|
                    0 <= j < i ==> (#[trigger] items@[j])@
                        == self.rpc_notification.entries()[j].name@,
            decreases self.rpc_notification.entries().len() - i,
        {
            items.push(self.rpc_notification.entry(i).name.clone());
            i = i + 1;
        }
        assert(items@.map_values(|s: String| s@) =~= self.manifest_notifications());
        items
    }

    /// The manifest: declared options, method descriptors, hook descriptors,
    /// notification names and the dynamic flag.
    pub fn manifest_json(&self) -> (r: String)
        ensures
            r@ == self.manifest(),
    {
        let mut s = "{\"options\":".to_owned();
        s.append(list_json(&self.option_items()).as_str());
        s.append(",\"rpcmethods\":");
        s.append(list_json(&self.method_items()).as_str());
        s.append(",\"hooks\":");
        s.append(list_json(&self.hook_items()).as_str());
        s.append(",\"notifications\":");
        s.append(names_json(&self.notification_names()).as_str());
        s.append(",\"dynamic\":");
        push_bool(&mut s, self.dynamic);
        s.append("}");
        s
    }
}

/// The manifest lists each declared option, each method descriptor, each
/// hook descriptor and each notification name, nothing else, and no name
/// twice.
pub proof fn law_manifest_reflects_registry<T, H>(p: &Plugin<T, H>)
    requires
        p.wf(),
    ensures
        forall|o: OptionModel|
            #[trigger] p.manifest_options().contains(o) <==> exists|k: Seq<char>|
                p.options().contains_key(k) && p.options()[k] == o,
        forall|m: MethodInfoModel|
            #[trigger] p.manifest_methods().contains(m) <==> exists|k: Seq<char>|
                p.method_infos().contains_key(k) && p.method_infos()[k] == m,
        forall|h: HookInfoModel|
            #[trigger] p.manifest_hooks().contains(h) <==> exists|k: Seq<char>|
                p.hook_infos().contains_key(k) && p.hook_infos()[k] == h,
        forall|n: Seq<char>|
            #[trigger] p.manifest_notifications().contains(n) <==> p.notifications().contains_key(n),
        forall|i: int, j: int|
            0 <= i < p.manifest_options().len() && 0 <= j < p.manifest_options().len() && i != j
                ==> p.manifest_options()[i].name != p.manifest_options()[j].name,
        forall|i: int, j: int|
            0 <= i < p.manifest_methods().len() && 0 <= j < p.manifest_methods().len() && i != j
                ==> p.manifest_methods()[i].name != p.manifest_methods()[j].name,
        forall|i: int, j: int|
            0 <= i < p.manifest_hooks().len() && 0 <= j < p.manifest_hooks().len() && i != j
                ==> p.manifest_hooks()[i].name != p.manifest_hooks()[j].name,
        p.manifest_notifications().no_duplicates(),
{
    p.option.lemma_entries();
    p.rpc_info.lemma_entries();
    p.hook_info.lemma_entries();
    p.rpc_notification.lemma_entries();
    let oe = p.option.entries();
    let me = p.rpc_info.entries();
    let he = p.hook_info.entries();
    let ne = p.rpc_notification.entries();
    assert forall|o: OptionModel| #[trigger] p.manifest_options().contains(o) <==> exists|k: Seq<char>|
        p.options().contains_key(k) && p.options()[k] == o by {
        if p.manifest_options().contains(o) {
            let i = choose|i: int| 0 <= i < p.manifest_options().len() && p.manifest_options()[i] == o;
            let k = oe[i].name@;
            assert(p.option@.contains_key(k));
            assert(p.options().contains_key(k));
            assert(p.options()[k] == o);
        }
        if exists|k: Seq<char>| p.options().contains_key(k) && p.options()[k] == o {
            let k = choose|k: Seq<char>| p.options().contains_key(k) && p.options()[k] == o;
            assert(p.option@.contains_key(k));
            let i = choose|i: int| 0 <= i < oe.len() && oe[i].name@ == k;
            assert(p.option@[oe[i].name@] == oe[i].value);
            assert(p.manifest_options()[i] == o);
            assert(0 <= i < p.manifest_options().len());
        }
    }
    assert forall|m: MethodInfoModel| #[trigger] p.manifest_methods().contains(m) <==> exists|k: Seq<char>|
        p.method_infos().contains_key(k) && p.method_infos()[k] == m by {
        if p.manifest_methods().contains(m) {
            let i = choose|i: int| 0 <= i < p.manifest_methods().len() && p.manifest_methods()[i] == m;
            let k = me[i].name@;
            assert(p.rpc_info@.contains_key(k));
            assert(p.method_infos().contains_key(k));
            assert(p.method_infos()[k] == m);
        }
        if exists|k: Seq<char>| p.method_infos().contains_key(k) && p.method_infos()[k] == m {
            let k = choose|k: Seq<char>| p.method_infos().contains_key(k) && p.method_infos()[k] == m;
            assert(p.rpc_info@.contains_key(k));
            let i = choose|i: int| 0 <= i < me.len() && me[i].name@ == k;
            assert(p.rpc_info@[me[i].name@] == me[i].value);
            assert(p.manifest_methods()[i] == m);
            assert(0 <= i < p.manifest_methods().len());
        }
    }
    assert forall|h: HookInfoModel| #[trigger] p.manifest_hooks().contains(h) <==> exists|k: Seq<char>|
        p.hook_infos().contains_key(k) && p.hook_infos()[k] == h by {
        if p.manifest_hooks().contains(h) {
            let i = choose|i: int| 0 <= i < p.manifest_hooks().len() && p.manifest_hooks()[i] == h;
            let k = he[i].name@;
            assert(p.hook_info@.contains_key(k));
            assert(p.hook_infos().contains_key(k));
            assert(p.hook_infos()[k] == h);
        }
        if exists|k: Seq<char>| p.hook_infos().contains_key(k) && p.hook_infos()[k] == h {
            let k = choose|k: Seq<char>| p.hook_infos().contains_key(k) && p.hook_infos()[k] == h;
            assert(p.hook_info@.contains_key(k));
            let i = choose|i: int| 0 <= i < he.len() && he[i].name@ == k;
            assert(p.hook_info@[he[i].name@] == he[i].value);
            assert(p.manifest_hooks()[i] == h);
            assert(0 <= i < p.manifest_hooks().len());
        }
    }
    assert forall|n: Seq<char>| #[trigger] p.manifest_notifications().contains(n)
        <==> p.notifications().contains_key(n) by {
        if p.manifest_notifications().contains(n) {
            let i = choose|i: int| 0 <= i < p.manifest_notifications().len() && p.manifest_notifications()[i] == n;
            assert(p.rpc_notification@.contains_key(ne[i].name@));
        }
        if p.notifications().contains_key(n) {
            let i = choose|i: int| 0 <= i < ne.len() && ne[i].name@ == n;
            assert(p.manifest_notifications()[i] == n);
        }
    }
    assert forall|i: int, j: int|
        0 <= i < p.manifest_options().len() && 0 <= j < p.manifest_options().len() && i != j
            implies p.manifest_options()[i].name != p.manifest_options()[j].name by {
        assert(p.option@.contains_key(oe[i].name@));
        assert(p.option@.contains_key(oe[j].name@));
        assert(p.option@[oe[i].name@] == oe[i].value);
        assert(p.option@[oe[j].name@] == oe[j].value);
        assert(oe[i].value.name@ == oe[i].name@);
        assert(oe[j].value.name@ == oe[j].name@);
        assert(p.manifest_options()[i].name == oe[i].name@);
        assert(p.manifest_options()[j].name == oe[j].name@);
    }
    assert forall|i: int, j: int|
        0 <= i < p.manifest_methods().len() && 0 <= j < p.manifest_methods().len() && i != j
            implies p.manifest_methods()[i].name != p.manifest_methods()[j].name by {
        assert(p.rpc_info@.contains_key(me[i].name@));
        assert(p.rpc_info@.contains_key(me[j].name@));
        assert(p.rpc_info@[me[i].name@] == me[i].value);
        assert(p.rpc_info@[me[j].name@] == me[j].value);
        assert(me[i].value.name@ == me[i].name@);
        assert(me[j].value.name@ == me[j].name@);
        assert(p.manifest_methods()[i].name == me[i].name@);
        assert(p.manifest_methods()[j].name == me[j].name@);
    }
    assert forall|i: int, j: int|
        0 <= i < p.manifest_hooks().len() && 0 <= j < p.manifest_hooks().len() && i != j
            implies p.manifest_hooks()[i].name != p.manifest_hooks()[j].name by {
        assert(p.hook_info@.contains_key(he[i].name@));
        assert(p.hook_info@.contains_key(he[j].name@));
        assert(p.hook_info@[he[i].name@] == he[i].value);
        assert(p.hook_info@[he[j].name@] == he[j].value);
        assert(he[i].value.name@ == he[i].name@);
        assert(he[j].value.name@ == he[j].name@);
        assert(p.manifest_hooks()[i].name == he[i].name@);
        assert(p.manifest_hooks()[j].name == he[j].name@);
    }
}

/// Each declared option, method descriptor and hook descriptor is filed
/// under its own name; every described method has a handler, and hooks and
/// their descriptors name the same hooks.
pub proof fn law_records_keyed_by_name<T, H>(p: &Plugin<T, H>)
    requires
        p.wf(),
    ensures
        forall|k: Seq<char>| #[trigger] p.options().contains_key(k) ==> p.options()[k].name == k,
        forall|k: Seq<char>|
            #[trigger] p.method_infos().contains_key(k) ==> p.method_infos()[k].name == k
                && p.methods().contains_key(k),
        forall|k: Seq<char>|
            #[trigger] p.hook_infos().contains_key(k) ==> p.hook_infos()[k].name == k,
        forall|k: Seq<char>| #[trigger] p.hook_infos().contains_key(k) <==> p.hooks().contains_key(k),
{
    assert forall|k: Seq<char>| #[trigger] p.hook_infos().contains_key(k) <==> p.hooks().contains_key(k) by {
        assert(p.hook_info@.contains_key(k) <==> p.rpc_hook@.contains_key(k));
    }
}

/// The line reads as a request: one JSON value with a string `method`, a
/// `params` member, and an `id` that is a string or a number.
pub open spec fn is_request(f: LineModel) -> bool {
    f.json && f.method is Some && f.has_params && (f.id_num is Some || f.id_str is Some)
}

/// The id of a request line as its response echoes it.
pub open spec fn line_id_text(f: LineModel) -> Seq<char> {
    match f.id_num {
        Some(n) => n,
        None => json_quoted(f.id_str->0),
    }
}

/// Builds a request from the members read off a JSON object: the `method`
/// string, the `params` value, and the `id` as a number's text or a string.
pub fn decode_request(
    method: Option<String>,
    params: Option<serde_json::Value>,
    id_num: Option<String>,
    id_str: Option<String>,
) -> (r: Result<Request, ProtocolError>)
    ensures
        method is None ==> r == Err::<Request, ProtocolError>(ProtocolError::NoMethod),
        method is Some && params is None ==> r == Err::<Request, ProtocolError>(
            ProtocolError::NoParams,
        ),
        method is Some && params is Some && id_num is None && id_str is None ==> r == Err::<
            Request,
            ProtocolError,
        >(ProtocolError::NoId),
        r is Ok <==> method is Some && params is Some && (id_num is Some || id_str is Some),
        r matches Ok(req) ==> {
            &&& method == Some(req.method)
            &&& params == Some(req.params)
            &&& req.id == match id_num {
                Some(n) => RequestId::Num(n),
                None => RequestId::Str(id_str->0),
            }
        },
{
    let method = match method {
        Some(m) => m,
        None => return Err(ProtocolError::NoMethod),
    };
    let params = match params {
        Some(p) => p,
        None => return Err(ProtocolError::NoParams),
    };
    let id = match id_num {
        Some(n) => RequestId::Num(n),
        None => match id_str {
            Some(s) => RequestId::Str(s),
            None => return Err(ProtocolError::NoId),
        },
    };
    Ok(Request { method, params, id })
}

impl<T, H: RPCCommand<T>> Plugin<T, H> {
    /// Runs the handler bound to `name` on this plugin and `params`: the
    /// manifest text for `getmanifest`, an empty object for `init`, and for a
    /// user method the answer of its handler, unexamined.
    pub fn call_rpc_method(&mut self, name: &String, params: &serde_json::Value) -> (r: Result<
        Reply,
        DispatchError,
    >)
        requires
            old(self).wf(),
        ensures
            final(self).wf(),
            r is Err <==> !old(self).methods().contains_key(name@),
            r matches Err(DispatchError::MethodNotFound(n)) ==> n@ == name@,
            !old(self).methods().contains_key(name@) ==> *final(self) == *old(self),
            old(self).methods().contains_key(name@) && old(self).methods()[name@] is GetManifest
                ==> (r matches Ok(Reply::Text(t)) && t@ == old(self).manifest()) && *final(self)
                == *old(self),
            old(self).methods().contains_key(name@) && old(self).methods()[name@] is Init
                ==> (r matches Ok(Reply::Text(t)) && t@ == "{}"@) && *final(self) == *old(self),
            old(self).methods().contains_key(name@) ==> (old(self).methods()[name@] matches MethodHandler::Custom(h)
                ==> (r matches Ok(Reply::Value(v)) && h.answers(*old(self), *params, *final(self), v))),
    {
        let handler = match self.rpc_method.get(name) {
            None => return Err(DispatchError::MethodNotFound(name.clone())),
            Some(MethodHandler::GetManifest) => return Ok(Reply::Text(self.manifest_json())),
            Some(MethodHandler::Init) => return Ok(Reply::Text("{}".to_owned())),
            Some(MethodHandler::Custom(h)) => h.duplicate(),
        };
        let v = handler.call(self, params);
        Ok(Reply::Value(v))
    }

    /// Answers one request: the success envelope with the request's id and
    /// the encoded result, or, for a name that nothing is bound to, the
    /// error envelope with that id and name.
    pub fn respond(&mut self, req: &Request) -> (r: String)
        requires
            old(self).wf(),
        ensures
            final(self).wf(),
            old(self).methods().contains_key(req.method@) ==> exists|t: Seq<char>|
                r@ == success_envelope(id_text(req.id), t),
            old(self).methods().contains_key(req.method@) && old(self).methods()[req.method@] is GetManifest
                ==> r@ == success_envelope(id_text(req.id), old(self).manifest()),
            old(self).methods().contains_key(req.method@) && old(self).methods()[req.method@] is Init
                ==> r@ == success_envelope(id_text(req.id), "{}"@),
            !old(self).methods().contains_key(req.method@) ==> r@ == not_found_envelope(
                id_text(req.id),
                req.method@,
            ) && *final(self) == *old(self),
            old(self).methods().contains_key(req.method@) ==> (old(self).methods()[req.method@] matches MethodHandler::Custom(h)
                ==> exists|v: serde_json::Value| h.answers(*old(self), req.params, *final(self), v)),
    {
        match self.call_rpc_method(&req.method, &req.params) {
            Ok(Reply::Text(t)) => success_json(&req.id, t.as_str()),
            Ok(Reply::Value(v)) => success_json(&req.id, value_text(&v).as_str()),
            Err(DispatchError::MethodNotFound(n)) => not_found_json(&req.id, n.as_str()),
        }
    }

    /// One cycle of the request loop on one input line: a blank line is
    /// skipped; a line that is not a request stops serving; a request is
    /// answered.
    pub fn handle_line(&mut self, line: &str) -> (r: Step)
        requires
            old(self).wf(),
        ensures
            final(self).wf(),
            r is Skip <==> is_blank(line@),
            r is Skip || r is Fatal ==> *final(self) == *old(self),
            !is_blank(line@) ==> (r is Fatal <==> !is_request(line_fields(line@))),
            !is_blank(line@) && !line_fields(line@).json ==> r == Step::Fatal(ProtocolError::NotJson),
            !is_blank(line@) && is_request(line_fields(line@)) ==> (r matches Step::Respond(t) && {
                let f = line_fields(line@);
                let m = f.method->0;
                &&& old(self).methods().contains_key(m) ==> exists|x: Seq<char>|
                    t@ == success_envelope(line_id_text(f), x)
                &&& old(self).methods().contains_key(m) && old(self).methods()[m] is GetManifest
                    ==> t@ == success_envelope(line_id_text(f), old(self).manifest())
                &&& !old(self).methods().contains_key(m) ==> t@ == not_found_envelope(
                    line_id_text(f),
                    m,
                )
            }),
    {
        if blank_line(line) {
            return Step::Skip;
        }
        let f = read_line_fields(line);
        if !f.json {
            return Step::Fatal(ProtocolError::NotJson);
        }
        let ghost fm = f.model();
        match decode_request(f.method, f.params, f.id_num, f.id_str) {
            Ok(req) => {
                assert(req.method@ == fm.method->0);
                assert(id_text(req.id) == line_id_text(fm));
                Step::Respond(self.respond(&req))
            },
            Err(e) => Step::Fatal(e),
        }
    }
}

} // verus!
