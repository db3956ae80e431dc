//! The text of the protocol: decimal numbers, JSON lists, the response
//! envelopes and the manifest records, built from already quoted parts.
use vstd::prelude::*;
use vstd::string::*;
use crate::json::{json_quoted, quote};
use crate::types::{
    opt_list_view, HookInfoModel, LogLevel, MethodInfoModel, OptionModel, RPCHookInfo, RPCMethodInfo,
    RequestId, RpcOption,
};

verus! {

/// The characters that `char::is_whitespace` accepts (Unicode White_Space).
pub open spec fn is_space(c: char) -> bool {
    ('\u{9}' <= c <= '\u{d}') || c == ' ' || c == '\u{85}' || c == '\u{a0}' || c == '\u{1680}'
        || ('\u{2000}' <= c <= '\u{200a}') || c == '\u{2028}' || c == '\u{2029}'
        || c == '\u{202f}' || c == '\u{205f}' || c == '\u{3000}'
}

/// A line that holds nothing but whitespace (or nothing at all).
pub open spec fn is_blank(s: Seq<char>) -> bool {
    forall|i: int| 0 <= i < s.len() ==> is_space(#[trigger] s[i])
}

pub open spec fn digit(d: nat) -> char {
    seq!['0', '1', '2', '3', '4', '5', '6', '7', '8', '9'][d as int]
}

/// Decimal digits of `n`, without leading zeros.
pub open spec fn decimal(n: nat) -> Seq<char>
    decreases n,
{
    if n < 10 {
        seq![digit(n)]
    } else {
        decimal(n / 10).push(digit(n % 10))
    }
}

pub open spec fn bool_text(b: bool) -> Seq<char> {
    if b {
        "true"@
    } else {
        "false"@
    }
}

/// The items, separated by commas.
pub open spec fn join(items: Seq<Seq<char>>) -> Seq<char>
    decreases items.len(),
{
    if items.len() == 0 {
        Seq::empty()
    } else if items.len() == 1 {
        items[0]
    } else {
        join(items.drop_last()) + ","@ + items.last()
    }
}

/// A JSON array of already encoded items.
pub open spec fn list_text(items: Seq<Seq<char>>) -> Seq<char> {
    "["@ + join(items) + "]"@
}

pub open spec fn quoted_all(names: Seq<Seq<char>>) -> Seq<Seq<char>> {
    names.map_values(|n: Seq<char>| json_quoted(n))
}

pub open spec fn id_text(id: RequestId) -> Seq<char> {
    match id {
        RequestId::Num(n) => n@,
        RequestId::Str(s) => json_quoted(s@),
    }
}

/// `{"id":<id>,"result":<result>}`
pub open spec fn success_envelope(id: Seq<char>, result: Seq<char>) -> Seq<char> {
    "{\"id\":"@ + id + ",\"result\":"@ + result + "}"@
}

pub open spec fn not_found_message(method: Seq<char>) -> Seq<char> {
    "Method not found: "@ + method
}

/// `{"id":<id>,"error":{"code":-32601,"message":"Method not found: <method>"}}`
pub open spec fn not_found_envelope(id: Seq<char>, method: Seq<char>) -> Seq<char> {
    "{\"id\":"@ + id + ",\"error\":{\"code\":-32601,\"message\":"@ + json_quoted(
        not_found_message(method),
    ) + "}}"@
}

pub open spec fn option_text(o: OptionModel) -> Seq<char> {
    "{\"name\":"@ + json_quoted(o.name) + ",\"type\":"@ + json_quoted(o.opt_typ) + match o.default {
        Some(d) => ",\"default\":"@ + json_quoted(d),
        None => Seq::empty(),
    } + ",\"description\":"@ + json_quoted(o.description) + ",\"deprecated\":"@ + bool_text(
        o.deprecated,
    ) + "}"@
}

pub open spec fn method_text(m: MethodInfoModel) -> Seq<char> {
    "{\"name\":"@ + json_quoted(m.name) + ",\"usage\":"@ + json_quoted(m.usage)
        + ",\"description\":"@ + json_quoted(m.description) + ",\"deprecated\":"@ + bool_text(
        m.deprecated,
    ) + "}"@
}

pub open spec fn hint_text(key: Seq<char>, hint: Option<Seq<Seq<char>>>) -> Seq<char> {
    match hint {
        Some(names) => key + list_text(quoted_all(names)),
        None => Seq::empty(),
    }
}

pub open spec fn hook_text(h: HookInfoModel) -> Seq<char> {
    "{\"name\":"@ + json_quoted(h.name) + hint_text(",\"before\":"@, h.before) + hint_text(
        ",\"after\":"@,
        h.after,
    ) + "}"@
}

/// The capability announcement, from its parts in the order given.
pub open spec fn manifest_text(
    options: Seq<OptionModel>,
    methods: Seq<MethodInfoModel>,
    hooks: Seq<HookInfoModel>,
    notifications: Seq<Seq<char>>,
    dynamic: bool,
) -> Seq<char> {
    "{\"options\":"@ + list_text(options.map_values(|o: OptionModel| option_text(o)))
        + ",\"rpcmethods\":"@ + list_text(methods.map_values(|m: MethodInfoModel| method_text(m)))
        + ",\"hooks\":"@ + list_text(hooks.map_values(|h: HookInfoModel| hook_text(h)))
        + ",\"notifications\":"@ + list_text(quoted_all(notifications)) + ",\"dynamic\":"@
        + bool_text(dynamic) + "}"@
}

/// `{"id":<id>,"result":{"level":<level>,"message":<message>}}`, the shape
/// of a log line.
pub open spec fn log_text(id: Seq<char>, level: Seq<char>, message: Seq<char>) -> Seq<char> {
    success_envelope(
        id,
        "{\"level\":"@ + json_quoted(level) + ",\"message\":"@ + json_quoted(message) + "}"@,
    )
}

pub open spec fn level_name(l: LogLevel) -> Seq<char> {
    match l {
        LogLevel::Debug => "debug"@,
        LogLevel::Info => "info"@,
        LogLevel::Warn => "warn"@,
        LogLevel::Error => "error"@,
    }
}

pub fn is_space_char(c: char) -> (r: bool)
    ensures
        r == is_space(c),
{
    ('\u{9}' <= c && c <= '\u{d}') || c == ' ' || c == '\u{85}' || c == '\u{a0}' || c
        == '\u{1680}' || ('\u{2000}' <= c && c <= '\u{200a}') || c == '\u{2028}' || c
        == '\u{2029}' || c == '\u{202f}' || c == '\u{205f}' || c == '\u{3000}'
}

/// Whether the line holds only whitespace.
pub fn blank_line(s: &str) -> (r: bool)
    ensures
        r == is_blank(s@),
{
    let n = s.unicode_len();
    let mut i: usize = 0;
    while i < n
        invariant
            n == s@.len(),
            i <= n,
            forall|j: int| 0 <= j < i ==> is_space(#[trigger] s@[j]),
        decreases n - i,
    {
        if !is_space_char(s.get_char(i)) {
            return false;
        }
        i = i + 1;
    }
    true
}

fn digit_str(d: u64) -> (r: &'static str)
    requires
        d < 10,
    ensures
        r@ == seq![digit(d as nat)],
{
    proof {
        reveal_strlit("0");
        reveal_strlit("1");
        reveal_strlit("2");
        reveal_strlit("3");
        reveal_strlit("4");
        reveal_strlit("5");
        reveal_strlit("6");
        reveal_strlit("7");
        reveal_strlit("8");
        reveal_strlit("9");
    }
    match d {
        0 => "0",
        1 => "1",
        2 => "2",
        3 => "3",
        4 => "4",
        5 => "5",
        6 => "6",
        7 => "7",
        8 => "8",
        _ => "9",
    }
}

/// The decimal text of `n`.
pub fn decimal_text(n: u64) -> (r: String)
    ensures
        r@ == decimal(n as nat),
    decreases n,
{
    if n < 10 {
        digit_str(n).to_owned()
    } else {
        let mut s = decimal_text(n / 10);
        s.append(digit_str(n % 10));
        s
    }
}

pub fn push_bool(s: &mut String, b: bool)
    ensures
        final(s)@ == old(s)@ + bool_text(b),
{
    if b {
        s.append("true");
    } else {
        s.append("false");
    }
}

/// The JSON array of the already encoded items.
pub fn list_json(items: &Vec<String>) -> (r: String)
    ensures
        r@ == list_text(items@.map_values(|s: String| s@)),
{
    let ghost all = items@.map_values(|s: String| s@);
    let mut out = "[".to_owned();
    let mut i: usize = 0;
    while i < items.len()
        invariant
            i <= items@.len(),
            all == items@.map_values(|s: String| s@),
            out@ == "["@ + join(all.take(i as int)),
        decreases items@.len() - i,
    {
        proof {
            assert(all.take(i + 1).drop_last() =~= all.take(i as int));
        }
        if i > 0 {
            out.append(",");
        }
        out.append(items[i].as_str());
        i = i + 1;
    }
    assert(all.take(i as int) =~= all);
    out.append("]");
    out
}

/// The JSON array of the quoted names.
pub fn names_json(names: &Vec<String>) -> (r: String)
    ensures
        r@ == list_text(quoted_all(names@.map_values(|s: String| s@))),
{
    let mut items: Vec<String> = Vec::new();
    let mut i: usize = 0;
    while i < names.len()
        invariant
            i <= names@.len(),
            items@.len() == i,
            forall|j: int| 0 <= j < i ==> (#[trigger] items@[j])@ == json_quoted(names@[j]@),
        decreases names@.len() - i,
    {
        items.push(quote(names[i].as_str()));
        i = i + 1;
    }
    let r = list_json(&items);
    assert(items@.map_values(|s: String| s@) =~= quoted_all(names@.map_values(|s: String| s@)));
    r
}

pub fn id_json(id: &RequestId) -> (r: String)
    ensures
        r@ == id_text(*id),
{
    match id {
        RequestId::Num(n) => n.clone(),
        RequestId::Str(s) => quote(s.as_str()),
    }
}

/// The success envelope around an already encoded result.
pub fn success_json(id: &RequestId, result: &str) -> (r: String)
    ensures
        r@ == success_envelope(id_text(*id), result@),
{
    let mut s = "{\"id\":".to_owned();
    s.append(id_json(id).as_str());
    s.append(",\"result\":");
    s.append(result);
    s.append("}");
    s
}

/// The error envelope for a request that names no registered method.
pub fn not_found_json(id: &RequestId, method: &str) -> (r: String)
    ensures
        r@ == not_found_envelope(id_text(*id), method@),
{
    let mut message = "Method not found: ".to_owned();
    message.append(method);
    let mut s = "{\"id\":".to_owned();
    s.append(id_json(id).as_str());
    s.append(",\"error\":{\"code\":-32601,\"message\":");
    s.append(quote(message.as_str()).as_str());
    s.append("}}");
    s
}

pub fn option_json(o: &RpcOption) -> (r: String)
    ensures
        r@ == option_text(o@),
{
    let mut s = "{\"name\":".to_owned();
    s.append(quote(o.name.as_str()).as_str());
    s.append(",\"type\":");
    s.append(quote(o.opt_typ.as_str()).as_str());
    match &o.default {
        Some(d) => {
            s.append(",\"default\":");
            s.append(quote(d.as_str()).as_str());
        },
        None => {},
    }
    s.append(",\"description\":");
    s.append(quote(o.description.as_str()).as_str());
    s.append(",\"deprecated\":");
    push_bool(&mut s, o.deprecated);
    s.append("}");
    s
}

pub fn method_json(m: &RPCMethodInfo) -> (r: String)
    ensures
        r@ == method_text(m@),
{
    let mut s = "{\"name\":".to_owned();
    s.append(quote(m.name.as_str()).as_str());
    s.append(",\"usage\":");
    s.append(quote(m.usage.as_str()).as_str());
    s.append(",\"description\":");
    s.append(quote(m.description.as_str()).as_str());
    s.append(",\"deprecated\":");
    push_bool(&mut s, m.deprecated);
    s.append("}");
    s
}

fn push_hint(s: &mut String, key: &str, hint: &Option<Vec<String>>)
    ensures
        final(s)@ == old(s)@ + hint_text(key@, opt_list_view(*hint)),
{
    match hint {
        Some(names) => {
            s.append(key);
            s.append(names_json(names).as_str());
        },
        None => {},
    }
}

pub fn hook_json(h: &RPCHookInfo) -> (r: String)
    ensures
        r@ == hook_text(h@),
{
    let mut s = "{\"name\":".to_owned();
    s.append(quote(h.name.as_str()).as_str());
    push_hint(&mut s, ",\"before\":", &h.before);
    push_hint(&mut s, ",\"after\":", &h.after);
    s.append("}");
    s
}

/// The id that log lines carry.
pub const LOG_ID: u64 = 40;

/// The log line for `message` at `level`, in the shape of a response.
pub fn log_json(level: LogLevel, message: &str) -> (r: String)
    ensures
        r@ == log_text(decimal(LOG_ID as nat), level_name(level), message@),
{
    let mut body = "{\"level\":".to_owned();
    body.append(quote(level_str(level)).as_str());
    body.append(",\"message\":");
    body.append(quote(message).as_str());
    body.append("}");
    success_json(&RequestId::Num(decimal_text(LOG_ID)), body.as_str())
}

pub fn level_str(l: LogLevel) -> (r: &'static str)
    ensures
        r@ == level_name(l),
{
    match l {
        LogLevel::Debug => "debug",
        LogLevel::Info => "info",
        LogLevel::Warn => "warn",
        LogLevel::Error => "error",
    }
}

} // verus!
