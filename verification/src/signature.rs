//! Laying out the parameter list of a command definition.

use vstd::prelude::*;
use crate::ast::{FlagParam, Parameter, Params};
use crate::model::{text, Context, Formatter, RenderContext, RenderState};
use crate::text::{append, bytes_equal};

verus! {

/// `base`, followed by `: type` where there is a type.
pub open spec fn typed(base: Seq<u8>, shape: Option<Vec<u8>>) -> Seq<u8> {
    match shape {
        Some(t) => base + text(": ") + t@,
        None => base,
    }
}

/// `base`, followed by ` = default` where there is a default value.
pub open spec fn defaulted(base: Seq<u8>, default: Option<Vec<u8>>) -> Seq<u8> {
    match default {
        Some(d) => base + text(" = ") + d@,
        None => base,
    }
}

/// A required positional: `name` or `name: type`.
pub open spec fn required_text(p: Parameter) -> Seq<u8> {
    typed(p.name@, p.shape)
}

/// An optional positional: `name?`, with its type where it has one; one with
/// a default value has ` = default` in place of the `?`.
pub open spec fn optional_text(p: Parameter) -> Seq<u8> {
    defaulted(
        typed(
            if p.default is None {
                p.name@ + text("?")
            } else {
                p.name@
            },
            p.shape,
        ),
        p.default,
    )
}

/// The name of a flag: `--long`, `--long(-s)` or, without a long form, `-s`.
pub open spec fn flag_name(f: FlagParam) -> Seq<u8> {
    if f.long@.len() > 0 {
        match f.short {
            Some(s) => text("--") + f.long@ + text("(-") + s@ + text(")"),
            None => text("--") + f.long@,
        }
    } else {
        match f.short {
            Some(s) => text("-") + s@,
            None => text("-"),
        }
    }
}

/// A flag: its name, `: type` if it takes a value, ` = default` if it has a
/// default.
pub open spec fn flag_text(f: FlagParam) -> Seq<u8> {
    defaulted(typed(flag_name(f), f.shape), f.default)
}

/// The rest positional: `...name` or `...name: type`.
pub open spec fn rest_text(p: Parameter) -> Seq<u8> {
    typed(text("...") + p.name@, p.shape)
}

/// Whether a flag is the help flag that every command has without declaring
/// it.
pub open spec fn is_help_flag(f: FlagParam) -> bool {
    f.long@ == text("help")
}

/// The texts of the first `n` required positionals.
pub open spec fn required_texts(params: Vec<Parameter>, n: int) -> Seq<Seq<u8>>
    decreases n,
{
    if n <= 0 || n > params.len() {
        Seq::empty()
    } else {
        required_texts(params, n - 1).push(required_text(params[n - 1]))
    }
}

/// The texts of the first `n` optional positionals.
pub open spec fn optional_texts(params: Vec<Parameter>, n: int) -> Seq<Seq<u8>>
    decreases n,
{
    if n <= 0 || n > params.len() {
        Seq::empty()
    } else {
        optional_texts(params, n - 1).push(optional_text(params[n - 1]))
    }
}

/// The texts of the first `n` flags, the help flag left out.
pub open spec fn flag_texts(flags: Vec<FlagParam>, n: int) -> Seq<Seq<u8>>
    decreases n,
{
    if n <= 0 || n > flags.len() {
        Seq::empty()
    } else if is_help_flag(flags[n - 1]) {
        flag_texts(flags, n - 1)
    } else {
        flag_texts(flags, n - 1).push(flag_text(flags[n - 1]))
    }
}

/// The texts of all parameters of a signature, in the order they are
/// written: required positionals, optional positionals, flags, rest.
pub open spec fn parameter_texts(signature: Params) -> Seq<Seq<u8>> {
    let listed = required_texts(signature.required, signature.required.len() as int)
        + optional_texts(signature.optional, signature.optional.len() as int) + flag_texts(
        signature.flags,
        signature.flags.len() as int,
    );
    match signature.rest {
        Some(p) => listed.push(rest_text(p)),
        None => listed,
    }
}

/// Writes the first `n` parameters on one line, joined by `, `.
pub open spec fn write_parameters_inline(
    ctx: RenderContext,
    st: RenderState,
    params: Seq<Seq<u8>>,
    n: int,
) -> RenderState
    decreases n,
{
    if n <= 0 || n > params.len() {
        st
    } else {
        let before = write_parameters_inline(ctx, st, params, n - 1);
        (if n > 1 {
            before.write(ctx, text(", "))
        } else {
            before
        }).write(ctx, params[n - 1])
    }
}

/// Writes the first `n` parameters, each on a line of its own.
pub open spec fn write_parameter_lines(
    ctx: RenderContext,
    st: RenderState,
    params: Seq<Seq<u8>>,
    n: int,
) -> RenderState
    decreases n,
{
    if n <= 0 || n > params.len() {
        st
    } else {
        write_parameter_lines(ctx, st, params, n - 1).write(ctx, params[n - 1]).newline()
    }
}

/// Renders a signature as a parameter list between brackets: on one line,
/// joined by `, `, if it has at most three parameters; one parameter per
/// line, one level deeper, if it has more.
pub open spec fn render_signature(ctx: RenderContext, st: RenderState, signature: Params)
    -> RenderState {
    let params = parameter_texts(signature);
    if params.len() > 3 {
        write_parameter_lines(
            ctx,
            st.write(ctx, text("[")).newline().indented(),
            params,
            params.len() as int,
        ).at_level(st.indent_level).write_indent(ctx).write(ctx, text("]"))
    } else {
        write_parameters_inline(ctx, st.write(ctx, text("[")), params, params.len() as int).write(
            ctx,
            text("]"),
        )
    }
}

/// The byte strings that a list of buffers holds.
pub open spec fn texts_of(buffers: Seq<Vec<u8>>) -> Seq<Seq<u8>> {
    Seq::new(buffers.len(), |i: int| buffers[i]@)
}

fn append_typed(out: &mut Vec<u8>, shape: &Option<Vec<u8>>)
    ensures
        final(out)@ == typed(old(out)@, *shape),
{
    if let Some(t) = shape {
        append(out, ": ".as_bytes());
        append(out, t.as_slice());
    }
}

fn append_defaulted(out: &mut Vec<u8>, default: &Option<Vec<u8>>)
    ensures
        final(out)@ == defaulted(old(out)@, *default),
{
    if let Some(d) = default {
        append(out, " = ".as_bytes());
        append(out, d.as_slice());
    }
}

fn required_parameter(p: &Parameter) -> (out: Vec<u8>)
    ensures
        out@ == required_text(*p),
{
    let mut out: Vec<u8> = Vec::new();
    append(&mut out, p.name.as_slice());
    append_typed(&mut out, &p.shape);
    out
}

fn optional_parameter(p: &Parameter) -> (out: Vec<u8>)
    ensures
        out@ == optional_text(*p),
{
    let mut out: Vec<u8> = Vec::new();
    append(&mut out, p.name.as_slice());
    if p.default.is_none() {
        append(&mut out, "?".as_bytes());
    }
    append_typed(&mut out, &p.shape);
    append_defaulted(&mut out, &p.default);
    out
}

fn flag_parameter(f: &FlagParam) -> (out: Vec<u8>)
    ensures
        out@ == flag_text(*f),
{
    let mut out: Vec<u8> = Vec::new();
    if f.long.len() > 0 {
        append(&mut out, "--".as_bytes());
        append(&mut out, f.long.as_slice());
        if let Some(s) = &f.short {
            append(&mut out, "(-".as_bytes());
            append(&mut out, s.as_slice());
            append(&mut out, ")".as_bytes());
        }
    } else {
        append(&mut out, "-".as_bytes());
        if let Some(s) = &f.short {
            append(&mut out, s.as_slice());
        }
    }
    assert(out@ == flag_name(*f));
    append_typed(&mut out, &f.shape);
    append_defaulted(&mut out, &f.default);
    out
}

fn rest_parameter(p: &Parameter) -> (out: Vec<u8>)
    ensures
        out@ == rest_text(*p),
{
    let mut out: Vec<u8> = Vec::new();
    append(&mut out, "...".as_bytes());
    append(&mut out, p.name.as_slice());
    append_typed(&mut out, &p.shape);
    out
}

/// The text of each parameter of a signature, in the order they are written.
pub fn signature_parameters(signature: &Params) -> (params: Vec<Vec<u8>>)
    ensures
        texts_of(params@) == parameter_texts(*signature),
{
    let mut params: Vec<Vec<u8>> = Vec::new();
    let mut i: usize = 0;
    assert(texts_of(params@) == Seq::<Seq<u8>>::empty());
    while i < signature.required.len()
        invariant
            i <= signature.required.len(),
            texts_of(params@) == required_texts(signature.required, i as int),
        decreases signature.required.len() - i,
    {
        let ghost before = texts_of(params@);
        params.push(required_parameter(&signature.required[i]));
        assert(texts_of(params@) == before.push(required_text(signature.required[i as int])));
        i += 1;
    }
    let ghost required = texts_of(params@);
    let mut j: usize = 0;
    assert(required + Seq::<Seq<u8>>::empty() == required);
    while j < signature.optional.len()
        invariant
            j <= signature.optional.len(),
            texts_of(params@) == required + optional_texts(signature.optional, j as int),
        decreases signature.optional.len() - j,
    {
        let ghost before = texts_of(params@);
        params.push(optional_parameter(&signature.optional[j]));
        assert(texts_of(params@) == before.push(optional_text(signature.optional[j as int])));
        j += 1;
        assert(required + optional_texts(signature.optional, j as int) == (required
            + optional_texts(signature.optional, j - 1)).push(
            optional_text(signature.optional[j - 1]),
        ));
    }
    let ghost positional = texts_of(params@);
    let mut k: usize = 0;
    assert(positional + Seq::<Seq<u8>>::empty() == positional);
    while k < signature.flags.len()
        invariant
            k <= signature.flags.len(),
            texts_of(params@) == positional + flag_texts(signature.flags, k as int),
        decreases signature.flags.len() - k,
    {
        if !bytes_equal(signature.flags[k].long.as_slice(), "help".as_bytes()) {
            let ghost before = texts_of(params@);
            params.push(flag_parameter(&signature.flags[k]));
            assert(texts_of(params@) == before.push(flag_text(signature.flags[k as int])));
            assert(positional + flag_texts(signature.flags, k + 1) == (positional + flag_texts(
                signature.flags,
                k as int,
            )).push(flag_text(signature.flags[k as int])));
        }
        k += 1;
    }
    if let Some(p) = &signature.rest {
        let ghost before = texts_of(params@);
        params.push(rest_parameter(p));
        assert(texts_of(params@) == before.push(rest_text(*p)));
    }
    params
}

impl Formatter {
    /// Writes the parameter list of a definition.
    pub fn format_signature(&mut self, ctx: &Context, signature: &Params)
        ensures
            final(self)@ == render_signature(ctx@, old(self)@, *signature),
            final(self)@.written == old(self)@.written,
            final(self)@.copied == old(self)@.copied,
            final(self)@.intact == old(self)@.intact,
            final(self)@.indent_level == old(self)@.indent_level,
            final(self)@.in_structure == old(self)@.in_structure,
            final(self)@.emitted == old(self)@.emitted,
    {
        let params = signature_parameters(signature);
        let ghost texts = texts_of(params@);
        self.write(ctx, "[");
        if params.len() > 3 {
            self.newline();
            let saved = self.indent();
            let ghost start = self@;
            let mut i: usize = 0;
            while i < params.len()
                invariant
                    i <= params.len(),
                    texts == texts_of(params@),
                    self@ == write_parameter_lines(ctx@, start, texts, i as int),
                    self@.written == old(self)@.written,
                    self@.copied == old(self)@.copied,
                    self@.intact == old(self)@.intact,
                    self@.indent_level == start.indent_level,
                    self@.in_structure == old(self)@.in_structure,
                    saved == old(self)@.indent_level,
                    self@.emitted == old(self)@.emitted,
                decreases params.len() - i,
            {
                self.write_bytes(ctx, params[i].as_slice());
                self.newline();
                i += 1;
            }
            self.dedent(saved);
            self.write_indent(ctx);
        } else {
            let ghost start = self@;
            let mut i: usize = 0;
            while i < params.len()
                invariant
                    i <= params.len(),
                    texts == texts_of(params@),
                    self@ == write_parameters_inline(ctx@, start, texts, i as int),
                    self@.written == old(self)@.written,
                    self@.copied == old(self)@.copied,
                    self@.intact == old(self)@.intact,
                    self@.indent_level == old(self)@.indent_level,
                    self@.in_structure == old(self)@.in_structure,
                    self@.emitted == old(self)@.emitted,
                decreases params.len() - i,
            {
                if i > 0 {
                    self.write(ctx, ", ");
                }
                self.write_bytes(ctx, params[i].as_slice());
                i += 1;
            }
        }
        self.write(ctx, "]");
    }
}

} // verus!
