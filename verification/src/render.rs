//! Renders a compiled binding as text: one constant table, a line per entry
//! point, a line per parameter and result field, all in declaration order.
//!
//! Rendering is a pure function of the binding, so one schema always renders
//! to byte-identical output.

use vstd::prelude::*;

use crate::schema::{
    compile_spec, BindingView, CallDescriptor, CallKind, DescriptorView, GeneratedBinding,
    SchemaError, SchemaView,
};

verus! {

/// The hexadecimal digit of a value below 16.
pub open spec fn hex_digit(n: u32) -> Seq<char> {
    if n == 0 {
        "0"@
    } else if n == 1 {
        "1"@
    } else if n == 2 {
        "2"@
    } else if n == 3 {
        "3"@
    } else if n == 4 {
        "4"@
    } else if n == 5 {
        "5"@
    } else if n == 6 {
        "6"@
    } else if n == 7 {
        "7"@
    } else if n == 8 {
        "8"@
    } else if n == 9 {
        "9"@
    } else if n == 10 {
        "a"@
    } else if n == 11 {
        "b"@
    } else if n == 12 {
        "c"@
    } else if n == 13 {
        "d"@
    } else if n == 14 {
        "e"@
    } else {
        "f"@
    }
}

/// A 32-bit value as eight hexadecimal digits, most significant first.
pub open spec fn hex32(v: u32) -> Seq<char> {
    hex_digit((v >> 28) & 0xf) + hex_digit((v >> 24) & 0xf) + hex_digit((v >> 20) & 0xf)
        + hex_digit((v >> 16) & 0xf) + hex_digit((v >> 12) & 0xf) + hex_digit((v >> 8) & 0xf)
        + hex_digit((v >> 4) & 0xf) + hex_digit(v & 0xf)
}

/// A name between double quotes.
pub open spec fn quoted(name: Seq<char>) -> Seq<char> {
    "\""@ + name + "\""@
}

/// The keyword that opens an entry point's line.
pub open spec fn kind_text(kind: CallKind) -> Seq<char> {
    if kind == CallKind::Func {
        "func "@
    } else {
        "view "@
    }
}

/// One line per field, in declared order: the prefix, the quoted field name,
/// a line break.
pub open spec fn field_lines(prefix: Seq<char>, fields: Seq<Seq<char>>) -> Seq<char>
    decreases fields.len(),
{
    if fields.len() == 0 {
        Seq::empty()
    } else {
        prefix + quoted(fields[0]) + "\n"@ + field_lines(prefix, fields.drop_first())
    }
}

/// The text of one call descriptor: its kind, quoted name and identifier on
/// one line, then its parameter and result fields.
pub open spec fn descriptor_text(d: DescriptorView) -> Seq<char> {
    kind_text(d.kind) + quoted(d.name) + " 0x"@ + hex32(d.hname) + "\n"@ + field_lines(
        "  param "@,
        d.params,
    ) + field_lines("  result "@, d.results)
}

/// The text of all call descriptors, in order.
pub open spec fn calls_text(calls: Seq<DescriptorView>) -> Seq<char>
    decreases calls.len(),
{
    if calls.len() == 0 {
        Seq::empty()
    } else {
        descriptor_text(calls[0]) + calls_text(calls.drop_first())
    }
}

/// The whole rendered binding: the contract line, the description line, then
/// the call descriptors in declaration order.
pub open spec fn render_spec(b: BindingView) -> Seq<char> {
    "contract "@ + quoted(b.name) + " 0x"@ + hex32(b.hname) + "\n"@ + "description "@ + quoted(
        b.description,
    ) + "\n"@ + calls_text(b.calls)
}

proof fn lemma_field_lines_snoc(prefix: Seq<char>, fields: Seq<Seq<char>>, f: Seq<char>)
    ensures
        field_lines(prefix, fields.push(f)) == field_lines(prefix, fields) + (prefix + quoted(f)
            + "\n"@),
    decreases fields.len(),
{
    if fields.len() == 0 {
        assert(fields.push(f).drop_first() =~= fields);
        assert(field_lines(prefix, fields.push(f)) =~= field_lines(prefix, fields) + (prefix
            + quoted(f) + "\n"@));
    } else {
        assert(fields.push(f).drop_first() =~= fields.drop_first().push(f));
        lemma_field_lines_snoc(prefix, fields.drop_first(), f);
        assert(field_lines(prefix, fields.push(f)) =~= field_lines(prefix, fields) + (prefix
            + quoted(f) + "\n"@));
    }
}

proof fn lemma_calls_text_snoc(calls: Seq<DescriptorView>, d: DescriptorView)
    ensures
        calls_text(calls.push(d)) == calls_text(calls) + descriptor_text(d),
    decreases calls.len(),
{
    if calls.len() == 0 {
        assert(calls.push(d).drop_first() =~= calls);
        assert(calls_text(calls.push(d)) =~= calls_text(calls) + descriptor_text(d));
    } else {
        assert(calls.push(d).drop_first() =~= calls.drop_first().push(d));
        lemma_calls_text_snoc(calls.drop_first(), d);
        assert(calls_text(calls.push(d)) =~= calls_text(calls) + descriptor_text(d));
    }
}

/// One hexadecimal digit of a value below 16.
fn hex_digit_str(n: u32) -> (r: &'static str)
    requires
        n < 16,
    ensures
        r@ == hex_digit(n),
{
    if n == 0 {
        "0"
    } else if n == 1 {
        "1"
    } else if n == 2 {
        "2"
    } else if n == 3 {
        "3"
    } else if n == 4 {
        "4"
    } else if n == 5 {
        "5"
    } else if n == 6 {
        "6"
    } else if n == 7 {
        "7"
    } else if n == 8 {
        "8"
    } else if n == 9 {
        "9"
    } else if n == 10 {
        "a"
    } else if n == 11 {
        "b"
    } else if n == 12 {
        "c"
    } else if n == 13 {
        "d"
    } else if n == 14 {
        "e"
    } else {
        "f"
    }
}

/// Appends the eight hexadecimal digits of `v`.
fn push_hex(out: &mut String, v: u32)
    ensures
        final(out)@ == old(out)@ + hex32(v),
{
    proof {
        assert((v >> 28) & 0xf < 16) by (bit_vector);
        assert((v >> 24) & 0xf < 16) by (bit_vector);
        assert((v >> 20) & 0xf < 16) by (bit_vector);
        assert((v >> 16) & 0xf < 16) by (bit_vector);
        assert((v >> 12) & 0xf < 16) by (bit_vector);
        assert((v >> 8) & 0xf < 16) by (bit_vector);
        assert((v >> 4) & 0xf < 16) by (bit_vector);
        assert(v & 0xf < 16) by (bit_vector);
    }
    out.append(hex_digit_str((v >> 28) & 0xf));
    out.append(hex_digit_str((v >> 24) & 0xf));
    out.append(hex_digit_str((v >> 20) & 0xf));
    out.append(hex_digit_str((v >> 16) & 0xf));
    out.append(hex_digit_str((v >> 12) & 0xf));
    out.append(hex_digit_str((v >> 8) & 0xf));
    out.append(hex_digit_str((v >> 4) & 0xf));
    out.append(hex_digit_str(v & 0xf));
    proof {
        assert(out@ =~= old(out)@ + hex32(v));
    }
}

/// Appends a name between double quotes.
fn push_quoted(out: &mut String, name: &String)
    ensures
        final(out)@ == old(out)@ + quoted(name@),
{
    out.append("\"");
    out.append(name.as_str());
    out.append("\"");
    proof {
        assert(out@ =~= old(out)@ + quoted(name@));
    }
}

/// Appends one line per field, in declared order.
#[verifier::loop_isolation(false)]
fn push_fields(out: &mut String, prefix: &str, fields: &Vec<String>)
    ensures
        final(out)@ == old(out)@ + field_lines(prefix@, fields.deep_view()),
{
    let n = fields.len();
    for i in 0..n
        invariant
            out@ == old(out)@ + field_lines(prefix@, fields.deep_view().take(i as int)),
    {
        out.append(prefix);
        push_quoted(out, &fields[i]);
        out.append("\n");
        proof {
            assert(fields.deep_view().take(i + 1) =~= fields.deep_view().take(i as int).push(
                fields.deep_view()[i as int],
            ));
            lemma_field_lines_snoc(
                prefix@,
                fields.deep_view().take(i as int),
                fields.deep_view()[i as int],
            );
            assert(out@ =~= old(out)@ + field_lines(prefix@, fields.deep_view().take(i + 1)));
        }
    }
    proof {
        assert(fields.deep_view().take(n as int) =~= fields.deep_view());
    }
}

/// Appends the text of one call descriptor.
fn push_descriptor(out: &mut String, d: &CallDescriptor)
    ensures
        final(out)@ == old(out)@ + descriptor_text(d@),
{
    match d.kind {
        CallKind::Func => out.append("func "),
        CallKind::View => out.append("view "),
    }
    push_quoted(out, &d.name);
    out.append(" 0x");
    push_hex(out, d.hname.0);
    out.append("\n");
    push_fields(out, "  param ", &d.params);
    push_fields(out, "  result ", &d.results);
    proof {
        assert(out@ =~= old(out)@ + descriptor_text(d@));
    }
}

/// Renders a binding as its full generated text.
#[verifier::loop_isolation(false)]
pub fn render(binding: &GeneratedBinding) -> (r: String)
    ensures
        r@ == render_spec(binding@),
{
    let mut out = String::new();
    out.append("contract ");
    push_quoted(&mut out, &binding.name);
    out.append(" 0x");
    push_hex(&mut out, binding.hname.0);
    out.append("\n");
    out.append("description ");
    push_quoted(&mut out, &binding.description);
    out.append("\n");
    let ghost header = out@;
    let n = binding.calls.len();
    for i in 0..n
        invariant
            out@ == header + calls_text(binding@.calls.take(i as int)),
    {
        push_descriptor(&mut out, &binding.calls[i]);
        proof {
            assert(binding@.calls.take(i + 1) =~= binding@.calls.take(i as int).push(
                binding@.calls[i as int],
            ));
            lemma_calls_text_snoc(binding@.calls.take(i as int), binding@.calls[i as int]);
            assert(out@ =~= header + calls_text(binding@.calls.take(i + 1)));
        }
    }
    proof {
        assert(binding@.calls.take(n as int) =~= binding@.calls);
        assert(out@ =~= render_spec(binding@));
    }
    out
}

/// Generation is idempotent: compiling one schema twice yields one binding,
/// and rendering it twice yields byte-identical text.
pub proof fn lemma_generation_idempotent(s: SchemaView, b1: BindingView, b2: BindingView)
    requires
        compile_spec(s) == Ok::<BindingView, SchemaError>(b1),
        compile_spec(s) == Ok::<BindingView, SchemaError>(b2),
    ensures
        b1 == b2,
        render_spec(b1) == render_spec(b2),
{
}

} // verus!
