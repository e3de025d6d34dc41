//! The rules that append methods to an impl block.
use vstd::prelude::*;
use crate::method::{
    body_text, forwards_to, method_text, param_names, text_of, Body, BodyView, Callee, Method,
    MethodView, Param, ParamView, Receiver,
};
use crate::syntax::{is_impl_block, parse_impl, MacroError};
use crate::text::{concat, concat_all, strs};

verus! {

/// A rule that appends methods to an impl block.
#[derive(Clone, Copy, Debug, PartialEq, Eq, Structural)]
pub enum Rule {
    /// `__hash__`, from `pyhash`.
    Hash,
    /// `__richcmp__` returning `bool`, from `richcmp`.
    RichcmpFull,
    /// `__richcmp__` returning `PyResult<bool>`, from `richcmp`.
    RichcmpEqOnly,
    /// `__richcmp__` taking a `crate::Signer`, from `richcmp`.
    RichcmpSigner,
    /// `__bytes__`, `__str__`, `__repr__`, `__reduce__`, `to_json` and
    /// `from_json`.
    CommonMethods,
    /// `__bytes__`, `__str__`, `__repr__` and `__reduce__`.
    CommonMethodsCore,
    /// An `id` getter reading `self.base.id`.
    RpcIdGetter,
}

pub open spec fn param_view(name: Seq<char>, ty: Seq<char>) -> ParamView {
    ParamView { name, ty }
}

/// A method whose body calls `delegate` with the method's parameters.
pub open spec fn forwarding_view(
    attrs: Seq<Seq<char>>,
    name: Seq<char>,
    generics: Seq<char>,
    receiver: Receiver,
    callee: Callee,
    params: Seq<ParamView>,
    ret: Seq<char>,
    delegate: Seq<char>,
) -> MethodView {
    MethodView {
        attrs,
        name,
        generics,
        receiver,
        params,
        ret,
        body: BodyView::Call { callee, method: delegate, args: param_names(params) },
    }
}

/// `fn __richcmp__(&self, other: <other_ty>, op: CompareOp) -> <ret>`.
pub open spec fn richcmp_view(other_ty: Seq<char>, ret: Seq<char>) -> MethodView {
    forwarding_view(
        Seq::empty(),
        "__richcmp__"@,
        Seq::empty(),
        Receiver::ByRef,
        Callee::SelfValue,
        seq![param_view("other"@, other_ty), param_view("op"@, "pyo3::basic::CompareOp"@)],
        ret,
        "richcmp"@,
    )
}

/// An accessor without parameters, on `&self`.
pub open spec fn plain_view(attrs: Seq<Seq<char>>, name: Seq<char>, ret: Seq<char>, delegate: Seq<char>) -> MethodView {
    forwarding_view(attrs, name, Seq::empty(), Receiver::ByRef, Callee::SelfValue, Seq::empty(), ret, delegate)
}

/// The four representation accessors.
pub open spec fn core_views() -> Seq<MethodView> {
    seq![
        forwarding_view(
            Seq::empty(),
            "__bytes__"@,
            "<'a>"@,
            Receiver::ByRef,
            Callee::SelfValue,
            seq![param_view("py"@, "pyo3::prelude::Python<'a>"@)],
            "&'a pyo3::types::PyBytes"@,
            "pybytes"@,
        ),
        plain_view(Seq::empty(), "__str__"@, "String"@, "pystr"@),
        plain_view(Seq::empty(), "__repr__"@, "String"@, "pyrepr"@),
        plain_view(
            Seq::empty(),
            "__reduce__"@,
            "pyo3::prelude::PyResult<(pyo3::prelude::PyObject, pyo3::prelude::PyObject)>"@,
            "pyreduce"@,
        ),
    ]
}

/// The two JSON accessors.
pub open spec fn json_views() -> Seq<MethodView> {
    seq![
        plain_view(seq!["#[doc = \" Convert to a JSON string.\"]"@], "to_json"@, "String"@, "py_to_json"@),
        forwarding_view(
            seq!["#[doc = \" Build from a JSON string.\"]"@, "#[staticmethod]"@],
            "from_json"@,
            Seq::empty(),
            Receiver::Static,
            Callee::SelfType,
            seq![param_view("raw"@, "&str"@)],
            "PyResult<Self>"@,
            "py_from_json"@,
        ),
    ]
}

/// The `id` getter of a request object.
pub open spec fn id_getter_view() -> MethodView {
    MethodView {
        attrs: seq!["#[doc = \" int: The ID of the RPC request.\"]"@, "#[getter]"@],
        name: "id"@,
        generics: Seq::empty(),
        receiver: Receiver::ByRef,
        params: Seq::empty(),
        ret: "u64"@,
        body: BodyView::Field { path: seq!["base"@, "id"@] },
    }
}

/// The methods that `rule` appends, in order.
pub open spec fn rule_methods(rule: Rule) -> Seq<MethodView> {
    match rule {
        Rule::Hash => seq![plain_view(Seq::empty(), "__hash__"@, "u64"@, "pyhash"@)],
        Rule::RichcmpFull => seq![richcmp_view("&Self"@, "bool"@)],
        Rule::RichcmpEqOnly => seq![richcmp_view("&Self"@, "pyo3::prelude::PyResult<bool>"@)],
        Rule::RichcmpSigner => seq![richcmp_view("crate::Signer"@, "pyo3::prelude::PyResult<bool>"@)],
        Rule::CommonMethods => core_views() + json_views(),
        Rule::CommonMethodsCore => core_views(),
        Rule::RpcIdGetter => seq![id_getter_view()],
    }
}

pub open spec fn method_views(ms: Seq<Method>) -> Seq<MethodView> {
    ms.map_values(|m: Method| m@)
}

/// The text of the appended methods, each followed by a space.
pub open spec fn items_text(ms: Seq<MethodView>) -> Seq<char> {
    concat(ms.map_values(|m: MethodView| method_text(m) + " "@))
}

/// Whitespace as Rust's lexer reads it (`Pattern_White_Space`).
pub open spec fn is_space(c: char) -> bool {
    c == ' ' || c == '\t' || c == '\n' || c == '\r' || c == '\u{b}' || c == '\u{c}'
        || c == '\u{85}' || c == '\u{200e}' || c == '\u{200f}' || c == '\u{2028}'
        || c == '\u{2029}'
}

/// The length of `s` without its trailing whitespace.
pub open spec fn trimmed_len(s: Seq<char>) -> nat
    decreases s.len(),
{
    if s.len() > 0 && is_space(s.last()) {
        trimmed_len(s.drop_last())
    } else {
        s.len()
    }
}

/// `item` with the methods put just before its closing brace, the last
/// character before trailing whitespace; all of `item` is kept as written.
/// `None` where `item` does not end with a closing brace.
pub open spec fn appended(item: Seq<char>, ms: Seq<MethodView>) -> Option<Seq<char>> {
    let n = trimmed_len(item);
    if n > 0 && item[n - 1] == '}' {
        Some(item.take(n - 1) + items_text(ms) + item.skip(n - 1))
    } else {
        None
    }
}

/// Whether the last character of `item` before trailing whitespace is the
/// closing brace of the impl block: it is a `}`, and without it the text is
/// no impl block (a `}` at the end of a trailing line comment is not).
pub open spec fn ends_with_block_brace(item: Seq<char>) -> bool {
    let n = trimmed_len(item);
    n > 0 && item[n - 1] == '}' && !is_impl_block(item.take(n - 1))
}

/// What expanding the impl block `item` by `rule` gives.
pub open spec fn expansion(item: Seq<char>, rule: Rule) -> Result<Seq<char>, MacroError> {
    if is_impl_block(item) && ends_with_block_brace(item) {
        Ok(appended(item, rule_methods(rule))->Some_0)
    } else {
        Err(MacroError::MalformedImpl)
    }
}

proof fn lemma_trimmed_len_bound(s: Seq<char>)
    ensures
        trimmed_len(s) <= s.len(),
    decreases s.len(),
{
    if s.len() > 0 && is_space(s.last()) {
        lemma_trimmed_len_bound(s.drop_last());
    }
}

/// Where `s` has a closing brace at `k - 1` and only whitespace after it,
/// its trimmed length is `k`.
pub proof fn lemma_trimmed_at_brace(s: Seq<char>, k: int)
    requires
        0 < k <= s.len(),
        s[k - 1] == '}',
        forall|j: int| k <= j < s.len() ==> is_space(#[trigger] s[j]),
    ensures
        trimmed_len(s) == k,
    decreases s.len(),
{
    if s.len() > k {
        lemma_trimmed_at_brace(s.drop_last(), k);
    }
}

/// Expanding twice appends the methods twice: nothing keeps a rule from
/// being applied to a block it already expanded, and the duplicate methods
/// are left for the compiler to reject.
pub proof fn lemma_append_twice(item: Seq<char>, ms: Seq<MethodView>)
    requires
        appended(item, ms) is Some,
    ensures
        appended(appended(item, ms)->Some_0, ms) == Some(
            item.take(trimmed_len(item) - 1) + items_text(ms) + items_text(ms) + item.skip(
                trimmed_len(item) - 1,
            ),
        ),
{
    let n = trimmed_len(item) as int;
    lemma_trimmed_len_bound(item);
    let once = appended(item, ms)->Some_0;
    let k = n - 1 + items_text(ms).len() + 1;
    assert forall|j: int| n <= j < item.len() implies is_space(#[trigger] item[j]) by {
        lemma_trailing_space(item, j);
    }
    assert(once =~= item.take(n - 1) + items_text(ms) + item.skip(n - 1));
    assert(once[k - 1] == '}');
    assert forall|j: int| k <= j < once.len() implies is_space(#[trigger] once[j]) by {
        assert(once[j] == item[j - items_text(ms).len()]);
    }
    lemma_trimmed_at_brace(once, k);
    assert(once.take(k - 1) =~= item.take(n - 1) + items_text(ms));
    assert(once.skip(k - 1) =~= item.skip(n - 1));
}

/// An impl block whose text ends with its own closing brace, whitespace
/// aside, always expands; the expansion is the block as written with the rule's
/// methods put before that brace, so removing them gives the block back.
pub proof fn lemma_impl_block_expands(item: Seq<char>, rule: Rule)
    requires
        is_impl_block(item),
        ends_with_block_brace(item),
    ensures
        expansion(item, rule) == Ok::<Seq<char>, MacroError>(
            item.take(trimmed_len(item) - 1) + items_text(rule_methods(rule)) + item.skip(
                trimmed_len(item) - 1,
            ),
        ),
        item == item.take(trimmed_len(item) - 1) + item.skip(trimmed_len(item) - 1),
{
    lemma_trimmed_len_bound(item);
    assert(item =~= item.take(trimmed_len(item) - 1) + item.skip(trimmed_len(item) - 1));
}

/// Everything after the trimmed length is whitespace.
proof fn lemma_trailing_space(s: Seq<char>, j: int)
    requires
        trimmed_len(s) <= j < s.len(),
    ensures
        is_space(s[j]),
    decreases s.len(),
{
    if s.len() > 0 && is_space(s.last()) {
        if j < s.len() - 1 {
            lemma_trailing_space(s.drop_last(), j);
        }
    }
}

fn texts(a: &str) -> (r: Vec<String>)
    ensures
        strs(r@) == seq![a@],
{
    let mut r: Vec<String> = Vec::new();
    r.push(text_of(a));
    proof {
        assert(strs(r@) =~= seq![a@]);
    }
    r
}

fn texts2(a: &str, b: &str) -> (r: Vec<String>)
    ensures
        strs(r@) == seq![a@, b@],
{
    let mut r: Vec<String> = Vec::new();
    r.push(text_of(a));
    r.push(text_of(b));
    proof {
        assert(strs(r@) =~= seq![a@, b@]);
    }
    r
}

fn param(name: &str, ty: &str) -> (p: Param)
    ensures
        p@ == param_view(name@, ty@),
{
    Param { name: text_of(name), ty: text_of(ty) }
}

/// Builds a method whose body calls `delegate` with the method's parameters.
fn forwarding(
    attrs: Vec<String>,
    name: &str,
    generics: String,
    receiver: Receiver,
    callee: Callee,
    params: Vec<Param>,
    ret: &str,
    delegate: &str,
) -> (m: Method)
    ensures
        m@ == forwarding_view(
            strs(attrs@),
            name@,
            generics@,
            receiver,
            callee,
            params@.map_values(|p: Param| p@),
            ret@,
            delegate@,
        ),
{
    let ghost pv = params@.map_values(|p: Param| p@);
    let mut args: Vec<String> = Vec::new();
    let mut i: usize = 0;
    while i < params.len()
        invariant
            i <= params@.len(),
            pv == params@.map_values(|p: Param| p@),
            strs(args@) =~= param_names(pv).take(i as int),
        decreases params@.len() - i,
    {
        let a = params[i].name.clone();
        let ghost before = args@;
        proof {
            assert(param_names(pv).take(i as int + 1) =~= param_names(pv).take(i as int).push(a@));
        }
        args.push(a);
        i += 1;
        proof {
            assert(strs(args@) =~= strs(before).push(a@));
        }
    }
    proof {
        assert(param_names(pv).take(i as int) =~= param_names(pv));
    }
    Method {
        attrs,
        name: text_of(name),
        generics,
        receiver,
        params,
        ret: text_of(ret),
        body: Body::Call { callee, method: text_of(delegate), args },
    }
}

fn plain(attrs: Vec<String>, name: &str, ret: &str, delegate: &str) -> (m: Method)
    ensures
        m@ == plain_view(strs(attrs@), name@, ret@, delegate@),
{
    let m = forwarding(attrs, name, String::new(), Receiver::ByRef, Callee::SelfValue, Vec::new(), ret, delegate);
    proof {
        assert(m@.params =~= Seq::<ParamView>::empty());
    }
    m
}

fn richcmp(other_ty: &str, ret: &str) -> (m: Method)
    ensures
        m@ == richcmp_view(other_ty@, ret@),
{
    let mut ps: Vec<Param> = Vec::new();
    ps.push(param("other", other_ty));
    ps.push(param("op", "pyo3::basic::CompareOp"));
    let m = forwarding(Vec::new(), "__richcmp__", String::new(), Receiver::ByRef, Callee::SelfValue, ps, ret, "richcmp");
    proof {
        assert(m@.attrs =~= Seq::<Seq<char>>::empty());
        assert(m@.params =~= seq![param_view("other"@, other_ty@), param_view("op"@, "pyo3::basic::CompareOp"@)]);
    }
    m
}

fn core_methods() -> (r: Vec<Method>)
    ensures
        method_views(r@) == core_views(),
{
    let mut r: Vec<Method> = Vec::new();
    let mut ps: Vec<Param> = Vec::new();
    ps.push(param("py", "pyo3::prelude::Python<'a>"));
    let bytes = forwarding(Vec::new(), "__bytes__", text_of("<'a>"), Receiver::ByRef, Callee::SelfValue, ps, "&'a pyo3::types::PyBytes", "pybytes");
    proof {
        assert(bytes@.attrs =~= Seq::<Seq<char>>::empty());
        assert(bytes@.params =~= seq![param_view("py"@, "pyo3::prelude::Python<'a>"@)]);
    }
    r.push(bytes);
    r.push(plain(Vec::new(), "__str__", "String", "pystr"));
    r.push(plain(Vec::new(), "__repr__", "String", "pyrepr"));
    r.push(plain(Vec::new(), "__reduce__", "pyo3::prelude::PyResult<(pyo3::prelude::PyObject, pyo3::prelude::PyObject)>", "pyreduce"));
    proof {
        assert(strs(Seq::<String>::empty()) =~= Seq::<Seq<char>>::empty());
        assert(method_views(r@) =~= core_views());
    }
    r
}

fn json_methods() -> (r: Vec<Method>)
    ensures
        method_views(r@) == json_views(),
{
    let mut r: Vec<Method> = Vec::new();
    r.push(plain(texts("#[doc = \" Convert to a JSON string.\"]"), "to_json", "String", "py_to_json"));
    let mut ps: Vec<Param> = Vec::new();
    ps.push(param("raw", "&str"));
    let from = forwarding(
        texts2("#[doc = \" Build from a JSON string.\"]", "#[staticmethod]"),
        "from_json",
        String::new(),
        Receiver::Static,
        Callee::SelfType,
        ps,
        "PyResult<Self>",
        "py_from_json",
    );
    proof {
        assert(from@.params =~= seq![param_view("raw"@, "&str"@)]);
    }
    r.push(from);
    proof {
        assert(method_views(r@) =~= json_views());
    }
    r
}

fn id_getter() -> (m: Method)
    ensures
        m@ == id_getter_view(),
{
    let m = Method {
        attrs: texts2("#[doc = \" int: The ID of the RPC request.\"]", "#[getter]"),
        name: text_of("id"),
        generics: String::new(),
        receiver: Receiver::ByRef,
        params: Vec::new(),
        ret: text_of("u64"),
        body: Body::Field { path: texts2("base", "id") },
    };
    proof {
        assert(m@.params =~= Seq::<ParamView>::empty());
    }
    m
}

/// The methods that `rule` appends, in order.
pub fn methods_of(rule: Rule) -> (r: Vec<Method>)
    ensures
        method_views(r@) == rule_methods(rule),
{
    let mut r: Vec<Method> = Vec::new();
    match rule {
        Rule::Hash => {
            r.push(plain(Vec::new(), "__hash__", "u64", "pyhash"));
        },
        Rule::RichcmpFull => {
            r.push(richcmp("&Self", "bool"));
        },
        Rule::RichcmpEqOnly => {
            r.push(richcmp("&Self", "pyo3::prelude::PyResult<bool>"));
        },
        Rule::RichcmpSigner => {
            r.push(richcmp("crate::Signer", "pyo3::prelude::PyResult<bool>"));
        },
        Rule::CommonMethods => {
            r = core_methods();
            let mut json = json_methods();
            proof {
                assert(method_views(r@ + json@) =~= method_views(r@) + method_views(json@));
            }
            r.append(&mut json);
        },
        Rule::CommonMethodsCore => {
            r = core_methods();
        },
        Rule::RpcIdGetter => {
            r.push(id_getter());
        },
    }
    proof {
        assert(strs(Seq::<String>::empty()) =~= Seq::<Seq<char>>::empty());
        assert(method_views(r@) =~= rule_methods(rule));
    }
    r
}

fn is_space_char(c: char) -> (r: bool)
    ensures
        r == is_space(c),
{
    c == ' ' || c == '\t' || c == '\n' || c == '\r' || c == '\u{b}' || c == '\u{c}'
        || c == '\u{85}' || c == '\u{200e}' || c == '\u{200f}' || c == '\u{2028}'
        || c == '\u{2029}'
}

/// The length of `s` without its trailing whitespace.
fn trimmed_end(s: &str) -> (k: usize)
    ensures
        k == trimmed_len(s@),
        k <= s@.len(),
{
    let n = s.unicode_len();
    let mut k: usize = n;
    proof {
        assert(s@.take(n as int) =~= s@);
    }
    while k > 0 && is_space_char(s.get_char(k - 1))
        invariant
            k <= n == s@.len(),
            trimmed_len(s@) == trimmed_len(s@.take(k as int)),
        decreases k,
    {
        proof {
            assert(s@.take(k as int).drop_last() =~= s@.take(k - 1));
        }
        k -= 1;
    }
    k
}

/// Puts the rendered `methods` after the last item of the impl block
/// `block`, just before its closing brace, and keeps the rest of `block` as
/// written; `None` where `block` does not end with a closing brace.
pub fn append_methods(block: &str, methods: &Vec<Method>) -> (r: Option<String>)
    ensures
        match r {
            Some(t) => appended(block@, method_views(methods@)) == Some(t@),
            None => appended(block@, method_views(methods@)) is None,
        },
{
    let n = block.unicode_len();
    let k = trimmed_end(block);
    if k == 0 {
        return None;
    }
    if block.get_char(k - 1) != '}' {
        return None;
    }
    let ghost views = method_views(methods@);
    let ghost texts = views.map_values(|m: MethodView| method_text(m) + " "@);
    let mut parts: Vec<String> = Vec::new();
    let mut i: usize = 0;
    while i < methods.len()
        invariant
            i <= methods@.len(),
            views == method_views(methods@),
            texts == views.map_values(|m: MethodView| method_text(m) + " "@),
            strs(parts@) =~= texts.take(i as int),
        decreases methods@.len() - i,
    {
        let mut t = methods[i].render();
        t.append(" ");
        let ghost before = parts@;
        proof {
            assert(t@ == texts[i as int]);
            assert(texts.take(i as int + 1) =~= texts.take(i as int).push(t@));
        }
        parts.push(t);
        i += 1;
        proof {
            assert(strs(parts@) =~= strs(before).push(t@));
        }
    }
    proof {
        assert(texts.take(i as int) =~= texts);
    }
    let mut r = String::from_str(block.substring_char(0, k - 1));
    let items = concat_all(&parts);
    r.append(items.as_str());
    r.append(block.substring_char(k - 1, n));
    proof {
        assert(block@.subrange(0, k - 1) =~= block@.take(k - 1));
        assert(block@.subrange(k - 1, n as int) =~= block@.skip(k - 1));
    }
    Some(r)
}

/// Expands the impl block `item` by `rule`: the block as written, with the
/// rule's methods appended after its items.
pub fn expand_impl(rule: Rule, item: &str) -> (r: Result<String, MacroError>)
    ensures
        match r {
            Ok(t) => expansion(item@, rule) == Ok::<Seq<char>, MacroError>(t@),
            Err(e) => expansion(item@, rule) == Err::<Seq<char>, MacroError>(e),
        },
{
    if parse_impl(item).is_err() {
        return Err(MacroError::MalformedImpl);
    }
    let k = trimmed_end(item);
    if k == 0 || item.get_char(k - 1) != '}' {
        return Err(MacroError::MalformedImpl);
    }
    if parse_impl(item.substring_char(0, k - 1)).is_ok() {
        return Err(MacroError::MalformedImpl);
    }
    proof {
        assert(item@.subrange(0, k - 1) =~= item@.take(k - 1));
    }
    let methods = methods_of(rule);
    match append_methods(item, &methods) {
        Some(t) => Ok(t),
        None => Err(MacroError::MalformedImpl),
    }
}

/// Adds `__hash__`, which returns what `self.pyhash()` returns. The
/// annotation takes no argument: `_attr` is not read.
pub fn pyhash(_attr: &str, item: &str) -> (r: Result<String, MacroError>)
    ensures
        match r {
            Ok(t) => expansion(item@, Rule::Hash) == Ok::<Seq<char>, MacroError>(t@),
            Err(e) => expansion(item@, Rule::Hash) == Err::<Seq<char>, MacroError>(e),
        },
{
    expand_impl(Rule::Hash, item)
}

/// Adds `__richcmp__(&self, other: &Self, op) -> bool`, which returns what
/// `self.richcmp(other, op)` returns.
pub fn richcmp_full(_attr: &str, item: &str) -> (r: Result<String, MacroError>)
    ensures
        match r {
            Ok(t) => expansion(item@, Rule::RichcmpFull) == Ok::<Seq<char>, MacroError>(t@),
            Err(e) => expansion(item@, Rule::RichcmpFull) == Err::<Seq<char>, MacroError>(e),
        },
{
    expand_impl(Rule::RichcmpFull, item)
}

/// Adds `__richcmp__(&self, other: &Self, op) -> PyResult<bool>`, which
/// returns what `self.richcmp(other, op)` returns, failure included.
pub fn richcmp_eq_only(_attr: &str, item: &str) -> (r: Result<String, MacroError>)
    ensures
        match r {
            Ok(t) => expansion(item@, Rule::RichcmpEqOnly) == Ok::<Seq<char>, MacroError>(t@),
            Err(e) => expansion(item@, Rule::RichcmpEqOnly) == Err::<Seq<char>, MacroError>(e),
        },
{
    expand_impl(Rule::RichcmpEqOnly, item)
}

/// Adds `__richcmp__(&self, other: crate::Signer, op) -> PyResult<bool>`,
/// which returns what `self.richcmp(other, op)` returns, failure included.
pub fn richcmp_signer(_attr: &str, item: &str) -> (r: Result<String, MacroError>)
    ensures
        match r {
            Ok(t) => expansion(item@, Rule::RichcmpSigner) == Ok::<Seq<char>, MacroError>(t@),
            Err(e) => expansion(item@, Rule::RichcmpSigner) == Err::<Seq<char>, MacroError>(e),
        },
{
    expand_impl(Rule::RichcmpSigner, item)
}

/// Adds `__bytes__`, `__str__`, `__repr__`, `__reduce__`, `to_json` and
/// `from_json`, each returning what its `py`-prefixed delegate returns.
pub fn common_methods(_attr: &str, item: &str) -> (r: Result<String, MacroError>)
    ensures
        match r {
            Ok(t) => expansion(item@, Rule::CommonMethods) == Ok::<Seq<char>, MacroError>(t@),
            Err(e) => expansion(item@, Rule::CommonMethods) == Err::<Seq<char>, MacroError>(e),
        },
{
    expand_impl(Rule::CommonMethods, item)
}

/// Adds `__bytes__`, `__str__`, `__repr__` and `__reduce__`, without the
/// JSON pair.
pub fn common_methods_core(_attr: &str, item: &str) -> (r: Result<String, MacroError>)
    ensures
        match r {
            Ok(t) => expansion(item@, Rule::CommonMethodsCore) == Ok::<Seq<char>, MacroError>(t@),
            Err(e) => expansion(item@, Rule::CommonMethodsCore) == Err::<Seq<char>, MacroError>(e),
        },
{
    expand_impl(Rule::CommonMethodsCore, item)
}

/// Adds a read-only `id` getter of a request object, returning
/// `self.base.id`.
pub fn rpc_id_getter(_attr: &str, item: &str) -> (r: Result<String, MacroError>)
    ensures
        match r {
            Ok(t) => expansion(item@, Rule::RpcIdGetter) == Ok::<Seq<char>, MacroError>(t@),
            Err(e) => expansion(item@, Rule::RpcIdGetter) == Err::<Seq<char>, MacroError>(e),
        },
{
    expand_impl(Rule::RpcIdGetter, item)
}

/// The `__hash__` accessor is one bare call of `self.pyhash()` with no
/// argument, and has the delegate's `u64` as its type: it returns exactly
/// what the delegate returns.
pub proof fn lemma_hash_forwards()
    ensures
        rule_methods(Rule::Hash).len() == 1,
        rule_methods(Rule::Hash)[0].name == "__hash__"@,
        rule_methods(Rule::Hash)[0].ret == "u64"@,
        forwards_to(rule_methods(Rule::Hash)[0], Callee::SelfValue, "pyhash"@),
        body_text(rule_methods(Rule::Hash)[0].body) == "self."@ + "pyhash"@ + "("@ + ")"@,
{
}

/// Under each comparison rule, `__richcmp__` hands `other` and `op`, in
/// that order, to `self.richcmp` and returns its value unchanged, with the
/// delegate's own result type: for the fallible rules a failure of the
/// delegate is the accessor's failure.
pub proof fn lemma_richcmp_forwards(rule: Rule)
    requires
        rule == Rule::RichcmpFull || rule == Rule::RichcmpEqOnly || rule == Rule::RichcmpSigner,
    ensures
        rule_methods(rule).len() == 1,
        rule_methods(rule)[0].name == "__richcmp__"@,
        param_names(rule_methods(rule)[0].params) == seq!["other"@, "op"@],
        rule_methods(rule)[0].params[1].ty == "pyo3::basic::CompareOp"@,
        forwards_to(rule_methods(rule)[0], Callee::SelfValue, "richcmp"@),
        rule_methods(rule)[0].ret == (if rule == Rule::RichcmpFull {
            "bool"@
        } else {
            "pyo3::prelude::PyResult<bool>"@
        }),
{
    assert(param_names(rule_methods(rule)[0].params) =~= seq!["other"@, "op"@]);
}

/// The delegates of the representation accessors, in the order of the
/// accessors.
pub open spec fn representation_delegates() -> Seq<Seq<char>> {
    seq!["pybytes"@, "pystr"@, "pyrepr"@, "pyreduce"@, "py_to_json"@, "py_from_json"@]
}

/// Each accessor of the representation bundle is one call of its own
/// delegate with the accessor's parameters, and nothing else: `from_json`
/// calls `Self::py_from_json`, the others a method of `self`. The bundle
/// without JSON is the first four of them.
pub proof fn lemma_common_methods_forward()
    ensures
        rule_methods(Rule::CommonMethods).len() == 6,
        rule_methods(Rule::CommonMethodsCore) == rule_methods(Rule::CommonMethods).take(4),
        forall|i: int|
            0 <= i < 5 ==> forwards_to(
                #[trigger] rule_methods(Rule::CommonMethods)[i],
                Callee::SelfValue,
                representation_delegates()[i],
            ),
        forwards_to(rule_methods(Rule::CommonMethods)[5], Callee::SelfType, "py_from_json"@),
{
    assert(rule_methods(Rule::CommonMethodsCore) =~= rule_methods(Rule::CommonMethods).take(4));
}

} // verus!
