use vstd::prelude::*;
use crate::text::{concat, concat_all, join, join_all, strs};

verus! {

/// How a method receives the value it is called on.
#[derive(Clone, Copy, Debug, PartialEq, Eq, Structural)]
pub enum Receiver {
    /// `&self`
    ByRef,
    /// no receiver: an associated function
    Static,
}

/// What a delegating call is made on.
#[derive(Clone, Copy, Debug, PartialEq, Eq, Structural)]
pub enum Callee {
    /// `self.delegate(..)`
    SelfValue,
    /// `Self::delegate(..)`
    SelfType,
}

/// One parameter after the receiver: its name and its type, as source text.
#[derive(Clone, Debug)]
pub struct Param {
    pub name: String,
    pub ty: String,
}

pub struct ParamView {
    pub name: Seq<char>,
    pub ty: Seq<char>,
}

impl View for Param {
    type V = ParamView;

    open spec fn view(&self) -> ParamView {
        ParamView { name: self.name@, ty: self.ty@ }
    }
}

/// The body of a synthesized method: a single expression.
#[derive(Clone, Debug)]
pub enum Body {
    /// A call of `method` with `args`, whose value is the method's value.
    Call { callee: Callee, method: String, args: Vec<String> },
    /// A field read through `self`, along `path`.
    Field { path: Vec<String> },
}

pub enum BodyView {
    Call { callee: Callee, method: Seq<char>, args: Seq<Seq<char>> },
    Field { path: Seq<Seq<char>> },
}

impl View for Body {
    type V = BodyView;

    open spec fn view(&self) -> BodyView {
        match self {
            Body::Call { callee, method, args } => BodyView::Call {
                callee: *callee,
                method: method@,
                args: strs(args@),
            },
            Body::Field { path } => BodyView::Field { path: strs(path@) },
        }
    }
}

/// A public method to be appended to an impl block.
#[derive(Clone, Debug)]
pub struct Method {
    /// Outer attributes, each as source text (`#[getter]`).
    pub attrs: Vec<String>,
    pub name: String,
    /// Generic parameters with their angle brackets, or empty.
    pub generics: String,
    pub receiver: Receiver,
    pub params: Vec<Param>,
    pub ret: String,
    pub body: Body,
}

pub struct MethodView {
    pub attrs: Seq<Seq<char>>,
    pub name: Seq<char>,
    pub generics: Seq<char>,
    pub receiver: Receiver,
    pub params: Seq<ParamView>,
    pub ret: Seq<char>,
    pub body: BodyView,
}

impl View for Method {
    type V = MethodView;

    open spec fn view(&self) -> MethodView {
        MethodView {
            attrs: strs(self.attrs@),
            name: self.name@,
            generics: self.generics@,
            receiver: self.receiver,
            params: self.params@.map_values(|p: Param| p@),
            ret: self.ret@,
            body: self.body@,
        }
    }
}

/// The names of the parameters, in order.
pub open spec fn param_names(params: Seq<ParamView>) -> Seq<Seq<char>> {
    params.map_values(|p: ParamView| p.name)
}

/// `name: ty`
pub open spec fn param_text(p: ParamView) -> Seq<char> {
    p.name + ": "@ + p.ty
}

/// The entries between the parentheses of the signature: the receiver, if
/// any, then each parameter.
pub open spec fn signature_entries(recv: Receiver, params: Seq<ParamView>) -> Seq<Seq<char>> {
    let ps = params.map_values(|p: ParamView| param_text(p));
    match recv {
        Receiver::ByRef => seq!["&self"@] + ps,
        Receiver::Static => ps,
    }
}

pub open spec fn callee_text(c: Callee) -> Seq<char> {
    match c {
        Callee::SelfValue => "self."@,
        Callee::SelfType => "Self::"@,
    }
}

pub open spec fn body_text(b: BodyView) -> Seq<char> {
    match b {
        BodyView::Call { callee, method, args } => callee_text(callee) + method + "("@ + join(
            args,
            ", "@,
        ) + ")"@,
        BodyView::Field { path } => "self."@ + join(path, "."@),
    }
}

/// The source text of a method:
/// `attrs pub fn name<generics>(entries) -> ret { body }`.
pub open spec fn method_text(m: MethodView) -> Seq<char> {
    concat(m.attrs.map_values(|a: Seq<char>| a + " "@)) + "pub fn "@ + m.name + m.generics + "("@
        + join(signature_entries(m.receiver, m.params), ", "@) + ") -> "@ + m.ret + " { "@
        + body_text(m.body) + " }"@
}

/// The method's body is a single call of `delegate` that hands on the
/// method's own parameters, in order and untouched; the method's value is
/// the value of that call.
pub open spec fn forwards_to(m: MethodView, callee: Callee, delegate: Seq<char>) -> bool {
    m.body == BodyView::Call { callee, method: delegate, args: param_names(m.params) }
}

/// Source text from a string literal.
pub fn text_of(s: &str) -> (r: String)
    ensures
        r@ == s@,
{
    String::from_str(s)
}

fn callee_str(c: Callee) -> (r: &'static str)
    ensures
        r@ == callee_text(c),
{
    match c {
        Callee::SelfValue => "self.",
        Callee::SelfType => "Self::",
    }
}

impl Body {
    /// Renders the body expression.
    pub fn render(&self) -> (r: String)
        ensures
            r@ == body_text(self@),
    {
        match self {
            Body::Call { callee, method, args } => {
                let mut r = text_of(callee_str(*callee));
                r.append(method.as_str());
                r.append("(");
                let a = join_all(args, ", ");
                r.append(a.as_str());
                r.append(")");
                r
            },
            Body::Field { path } => {
                let mut r = text_of("self.");
                let p = join_all(path, ".");
                r.append(p.as_str());
                r
            },
        }
    }
}

impl Method {
    /// Renders the signature entries between the parentheses.
    fn entries(&self) -> (r: Vec<String>)
        ensures
            strs(r@) == signature_entries(self@.receiver, self@.params),
    {
        let mut r: Vec<String> = Vec::new();
        let ghost pre: Seq<Seq<char>> = Seq::empty();
        if self.receiver == Receiver::ByRef {
            r.push(text_of("&self"));
            proof {
                pre = seq!["&self"@];
            }
        }
        let ghost ps = self@.params.map_values(|p: ParamView| param_text(p));
        let mut i: usize = 0;
        proof {
            assert(strs(r@) =~= pre + ps.take(0));
        }
        while i < self.params.len()
            invariant
                i <= self.params@.len(),
                ps == self@.params.map_values(|p: ParamView| param_text(p)),
                pre == match self.receiver {
                    Receiver::ByRef => seq!["&self"@],
                    Receiver::Static => Seq::<Seq<char>>::empty(),
                },
                strs(r@) =~= pre + ps.take(i as int),
            decreases self.params@.len() - i,
        {
            let mut t = self.params[i].name.clone();
            t.append(": ");
            t.append(self.params[i].ty.as_str());
            proof {
                assert(t@ == ps[i as int]);
                assert(ps.take(i as int + 1) =~= ps.take(i as int).push(t@));
            }
            let ghost before = r@;
            r.push(t);
            i += 1;
            proof {
                assert(strs(r@) =~= strs(before).push(t@));
                assert(strs(r@) =~= pre + ps.take(i as int));
            }
        }
        proof {
            assert(ps.take(i as int) =~= ps);
            assert(signature_entries(self@.receiver, self@.params) =~= pre + ps);
        }
        r
    }

    /// Renders the method as Rust source text.
    pub fn render(&self) -> (r: String)
        ensures
            r@ == method_text(self@),
    {
        let mut heads: Vec<String> = Vec::new();
        let mut i: usize = 0;
        let ghost attrs = self@.attrs;
        while i < self.attrs.len()
            invariant
                i <= self.attrs@.len(),
                attrs == strs(self.attrs@),
                strs(heads@) =~= attrs.map_values(|a: Seq<char>| a + " "@).take(i as int),
            decreases self.attrs@.len() - i,
        {
            let mut t = self.attrs[i].clone();
            t.append(" ");
            let ghost before = heads@;
            proof {
                assert(t@ == attrs.map_values(|a: Seq<char>| a + " "@)[i as int]);
                assert(attrs.map_values(|a: Seq<char>| a + " "@).take(i as int + 1)
                    =~= attrs.map_values(|a: Seq<char>| a + " "@).take(i as int).push(t@));
            }
            heads.push(t);
            i += 1;
            proof {
                assert(strs(heads@) =~= strs(before).push(t@));
                assert(strs(heads@) =~= attrs.map_values(|a: Seq<char>| a + " "@).take(i as int));
            }
        }
        proof {
            assert(attrs.map_values(|a: Seq<char>| a + " "@).take(i as int) =~= attrs.map_values(
                |a: Seq<char>| a + " "@,
            ));
        }
        let mut r = concat_all(&heads);
        r.append("pub fn ");
        r.append(self.name.as_str());
        r.append(self.generics.as_str());
        r.append("(");
        let e = self.entries();
        let j = join_all(&e, ", ");
        r.append(j.as_str());
        r.append(") -> ");
        r.append(self.ret.as_str());
        r.append(" { ");
        let b = self.body.render();
        r.append(b.as_str());
        r.append(" }");
        r
    }
}

} // verus!
