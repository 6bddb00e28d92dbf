//! The schema compiler: validates a contract schema and produces the binding
//! that a code generator emits, a table of call descriptors in declaration
//! order.
//!
//! Validation is all-or-nothing: an empty name anywhere in the schema is
//! rejected, and so are two entry points whose names share one identifier
//! (two equal names always do). A rejected schema produces no output.

use vstd::prelude::*;

use crate::hname::{hname_of, ScHname};

verus! {

/// One callable entry point of a schema: its name and the names of its
/// parameter and result fields, each in declaration order (the position of a
/// field is its slot).
pub struct FunctionEntry {
    pub name: String,
    pub params: Vec<String>,
    pub results: Vec<String>,
}

/// The mathematical model of a `FunctionEntry`.
pub ghost struct EntryView {
    pub name: Seq<char>,
    pub params: Seq<Seq<char>>,
    pub results: Seq<Seq<char>>,
}

impl View for FunctionEntry {
    type V = EntryView;

    open spec fn view(&self) -> EntryView {
        EntryView {
            name: self.name@,
            params: self.params.deep_view(),
            results: self.results.deep_view(),
        }
    }
}

impl DeepView for FunctionEntry {
    type V = EntryView;

    open spec fn deep_view(&self) -> EntryView {
        self.view()
    }
}

/// A contract schema: the contract's name and description, and its callable
/// entry points, mutating functions first, read-only views second, each list
/// in declaration order.
pub struct ContractSchema {
    pub name: String,
    pub description: String,
    pub funcs: Vec<FunctionEntry>,
    pub views: Vec<FunctionEntry>,
}

/// The mathematical model of a `ContractSchema`.
pub ghost struct SchemaView {
    pub name: Seq<char>,
    pub description: Seq<char>,
    pub funcs: Seq<EntryView>,
    pub views: Seq<EntryView>,
}

impl View for ContractSchema {
    type V = SchemaView;

    open spec fn view(&self) -> SchemaView {
        SchemaView {
            name: self.name@,
            description: self.description@,
            funcs: self.funcs.deep_view(),
            views: self.views.deep_view(),
        }
    }
}

/// Why a schema was rejected.
#[derive(Clone, Copy, Debug, PartialEq, Eq, Structural)]
pub enum SchemaError {
    /// The contract or an entry point has an empty name.
    EmptyName,
    /// Two entry points share a literal name or their names hash to one
    /// identifier.
    DuplicateName,
}

/// Whether a call descriptor stands for a mutating function or a read-only
/// view.
#[derive(Clone, Copy, Debug, PartialEq, Eq, Structural)]
pub enum CallKind {
    Func,
    View,
}

/// One emitted wrapper descriptor: the call kind, the entry point's name and
/// identifier, and its parameter and result fields in declaration order.
pub struct CallDescriptor {
    pub kind: CallKind,
    pub name: String,
    pub hname: ScHname,
    pub params: Vec<String>,
    pub results: Vec<String>,
}

/// The mathematical model of a `CallDescriptor`.
pub ghost struct DescriptorView {
    pub kind: CallKind,
    pub name: Seq<char>,
    pub hname: u32,
    pub params: Seq<Seq<char>>,
    pub results: Seq<Seq<char>>,
}

impl View for CallDescriptor {
    type V = DescriptorView;

    open spec fn view(&self) -> DescriptorView {
        DescriptorView {
            kind: self.kind,
            name: self.name@,
            hname: self.hname.0,
            params: self.params.deep_view(),
            results: self.results.deep_view(),
        }
    }
}

impl DeepView for CallDescriptor {
    type V = DescriptorView;

    open spec fn deep_view(&self) -> DescriptorView {
        self.view()
    }
}

/// The compiled output: the contract's constants and one call descriptor per
/// entry point, in declaration order.
pub struct GeneratedBinding {
    pub name: String,
    pub description: String,
    pub hname: ScHname,
    pub calls: Vec<CallDescriptor>,
}

/// The mathematical model of a `GeneratedBinding`.
pub ghost struct BindingView {
    pub name: Seq<char>,
    pub description: Seq<char>,
    pub hname: u32,
    pub calls: Seq<DescriptorView>,
}

impl View for GeneratedBinding {
    type V = BindingView;

    open spec fn view(&self) -> BindingView {
        BindingView {
            name: self.name@,
            description: self.description@,
            hname: self.hname.0,
            calls: self.calls.deep_view(),
        }
    }
}

/// All entry points of a schema, functions first, views second.
pub open spec fn schema_entries(s: SchemaView) -> Seq<EntryView> {
    s.funcs + s.views
}

/// Whether the contract or any entry point has an empty name.
pub open spec fn has_empty_name(s: SchemaView) -> bool {
    ||| s.name.len() == 0
    ||| exists|i: int|
        0 <= i < schema_entries(s).len() && schema_entries(s)[i].name.len() == 0
}

/// Whether two entry points map to one identifier; two equal literal names
/// always do.
pub open spec fn has_name_clash(s: SchemaView) -> bool {
    exists|i: int, j: int|
        0 <= i < j < schema_entries(s).len() && hname_of(schema_entries(s)[i].name) == hname_of(
            schema_entries(s)[j].name,
        )
}

/// The descriptor emitted for one entry point.
pub open spec fn descriptor_of(kind: CallKind, e: EntryView) -> DescriptorView {
    DescriptorView {
        kind: kind,
        name: e.name,
        hname: hname_of(e.name),
        params: e.params,
        results: e.results,
    }
}

/// The binding emitted for a valid schema: descriptors for the functions in
/// declaration order, then for the views in declaration order.
pub open spec fn binding_of(s: SchemaView) -> BindingView {
    BindingView {
        name: s.name,
        description: s.description,
        hname: hname_of(s.name),
        calls: s.funcs.map_values(|e: EntryView| descriptor_of(CallKind::Func, e))
            + s.views.map_values(|e: EntryView| descriptor_of(CallKind::View, e)),
    }
}

/// What compilation returns for every schema: the first applicable rejection,
/// or the binding.
pub open spec fn compile_spec(s: SchemaView) -> Result<BindingView, SchemaError> {
    if has_empty_name(s) {
        Err(SchemaError::EmptyName)
    } else if has_name_clash(s) {
        Err(SchemaError::DuplicateName)
    } else {
        Ok(binding_of(s))
    }
}

/// Copies a list of field names.
fn clone_strings(v: &Vec<String>) -> (r: Vec<String>)
    ensures
        r.deep_view() == v.deep_view(),
{
    let mut r: Vec<String> = Vec::new();
    let n = v.len();
    for i in 0..n
        invariant
            n == v@.len(),
            r@.len() == i,
            forall|k: int| 0 <= k < i ==> r@[k] == v@[k],
    {
        r.push(v[i].clone());
    }
    proof {
        assert(r.deep_view() =~= v.deep_view());
    }
    r
}

/// Compiles a schema into its binding, or rejects it: `EmptyName` exactly when
/// the contract or an entry point has an empty name, else `DuplicateName`
/// exactly when two entry points map to one identifier, else the binding of
/// the schema, with one descriptor per entry point in declaration order.
#[verifier::loop_isolation(false)]
#[verifier::rlimit(60)]
pub fn compile(schema: &ContractSchema) -> (r: Result<GeneratedBinding, SchemaError>)
    ensures
        (match r {
            Ok(b) => compile_spec(schema@) == Ok::<BindingView, SchemaError>(b@),
            Err(e) => compile_spec(schema@) == Err::<BindingView, SchemaError>(e),
        }),
{
    let ghost ents = schema_entries(schema@);
    let nf = schema.funcs.len();
    let nv = schema.views.len();

    // Reject empty names.
    if schema.name.as_str().is_empty() {
        return Err(SchemaError::EmptyName);
    }
    for i in 0..nf
        invariant
            forall|k: int| 0 <= k < i ==> schema@.funcs[k].name.len() != 0,
    {
        if schema.funcs[i].name.as_str().is_empty() {
            assert(ents[i as int].name.len() == 0);
            return Err(SchemaError::EmptyName);
        }
    }
    for i in 0..nv
        invariant
            forall|k: int| 0 <= k < i ==> schema@.views[k].name.len() != 0,
    {
        if schema.views[i].name.as_str().is_empty() {
            assert(ents[nf + i as int].name.len() == 0);
            return Err(SchemaError::EmptyName);
        }
    }
    proof {
        assert forall|i: int| 0 <= i < ents.len() implies ents[i].name.len() != 0 by {
            if i < nf {
                assert(ents[i] == schema@.funcs[i]);
            } else {
                assert(ents[i] == schema@.views[i - nf]);
            }
        }
        assert(!has_empty_name(schema@));
    }

    // Hash every entry point, functions first, views second.
    let mut hnames: Vec<u32> = Vec::new();
    for i in 0..nf
        invariant
            hnames@.len() == i,
            forall|k: int| 0 <= k < i ==> hnames@[k] == hname_of(ents[k].name),
    {
        let h = crate::hname::hash(schema.funcs[i].name.as_str());
        hnames.push(h);
    }
    for i in 0..nv
        invariant
            hnames@.len() == nf + i,
            forall|k: int| 0 <= k < nf + i ==> hnames@[k] == hname_of(ents[k].name),
    {
        let h = crate::hname::hash(schema.views[i].name.as_str());
        hnames.push(h);
    }
    let total = hnames.len();
    assert(total == ents.len());

    // Reject identifier clashes (equal literal names always clash).
    for i in 0..total
        invariant
            forall|a: int, b: int|
                0 <= a < b < ents.len() && a < i ==> hname_of(ents[a].name) != hname_of(
                    ents[b].name,
                ),
    {
        for j in (i + 1)..total
            invariant
                forall|b: int| i < b < j ==> hname_of(ents[i as int].name) != hname_of(
                    ents[b].name,
                ),
        {
            if hnames[i] == hnames[j] {
                assert(0 <= i < j < ents.len() && hname_of(ents[i as int].name) == hname_of(
                    ents[j as int].name,
                ));
                assert(has_name_clash(schema@));
                return Err(SchemaError::DuplicateName);
            }
        }
    }
    proof {
        assert(!has_name_clash(schema@));
    }

    // Emit the descriptors in declaration order.
    let ghost target = binding_of(schema@).calls;
    let mut calls: Vec<CallDescriptor> = Vec::new();
    for i in 0..nf
        invariant
            calls@.len() == i,
            forall|k: int| 0 <= k < i ==> calls@[k].deep_view() == target[k],
    {
        let f = &schema.funcs[i];
        let d = CallDescriptor {
            kind: CallKind::Func,
            name: f.name.clone(),
            hname: ScHname(hnames[i]),
            params: clone_strings(&f.params),
            results: clone_strings(&f.results),
        };
        proof {
            assert(target[i as int] == descriptor_of(CallKind::Func, schema@.funcs[i as int]));
            assert(d.deep_view() == target[i as int]);
        }
        calls.push(d);
    }
    for i in 0..nv
        invariant
            calls@.len() == nf + i,
            forall|k: int| 0 <= k < nf + i ==> calls@[k].deep_view() == target[k],
    {
        let v = &schema.views[i];
        let d = CallDescriptor {
            kind: CallKind::View,
            name: v.name.clone(),
            hname: ScHname(hnames[nf + i]),
            params: clone_strings(&v.params),
            results: clone_strings(&v.results),
        };
        proof {
            assert(target[nf + i as int] == descriptor_of(
                CallKind::View,
                schema@.views[i as int],
            ));
            assert(d.deep_view() == target[nf + i as int]);
        }
        calls.push(d);
    }

    let hname = ScHname(crate::hname::hash(schema.name.as_str()));
    let binding = GeneratedBinding {
        name: schema.name.clone(),
        description: schema.description.clone(),
        hname: hname,
        calls: calls,
    };
    proof {
        assert(binding@.calls =~= target);
        assert(binding@ == binding_of(schema@));
    }
    Ok(binding)
}

/// Compilation is deterministic: one schema model has one output, so running
/// the compiler twice on an unchanged schema yields identical bindings.
pub proof fn lemma_compile_deterministic(s1: SchemaView, s2: SchemaView)
    requires
        s1 == s2,
    ensures
        compile_spec(s1) == compile_spec(s2),
{
}

/// A schema whose names are all non-empty and that holds two entry points with
/// one literal name is rejected with `DuplicateName`, so no binding is emitted
/// for it.
pub proof fn lemma_duplicate_name_rejected(s: SchemaView, i: int, j: int)
    requires
        !has_empty_name(s),
        0 <= i < j < schema_entries(s).len(),
        schema_entries(s)[i].name == schema_entries(s)[j].name,
    ensures
        compile_spec(s) == Err::<BindingView, SchemaError>(SchemaError::DuplicateName),
{
    assert(hname_of(schema_entries(s)[i].name) == hname_of(schema_entries(s)[j].name));
    assert(has_name_clash(s));
}

/// A compiled binding preserves the schema's declaration order: descriptor `i`
/// belongs to entry point `i` (functions first, views second), with its name,
/// its identifier, and its fields in declared order.
pub proof fn lemma_declaration_order_preserved(s: SchemaView, i: int)
    requires
        compile_spec(s) is Ok,
        0 <= i < schema_entries(s).len(),
    ensures
        compile_spec(s)->Ok_0.calls.len() == schema_entries(s).len(),
        compile_spec(s)->Ok_0.calls[i] == descriptor_of(
            if i < s.funcs.len() {
                CallKind::Func
            } else {
                CallKind::View
            },
            schema_entries(s)[i],
        ),
{
    let b = compile_spec(s)->Ok_0;
    assert(b == binding_of(s));
    if i < s.funcs.len() {
        assert(b.calls[i] == descriptor_of(CallKind::Func, s.funcs[i]));
    } else {
        assert(b.calls[i] == descriptor_of(CallKind::View, s.views[i - s.funcs.len()]));
    }
}

} // verus!
