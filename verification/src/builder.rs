//! The stages of the module builder up to the function index space: types,
//! imports and defined functions.
//!
//! Every stage draws its count between the floor and the ceiling of the
//! configuration, and then draws its items one after the other. Where a
//! floor is above its ceiling, the ceiling wins.

use crate::config::{HostFunction, HostFunctionView, Knobs, KnobsView};
use crate::entropy::Entropy;
use crate::module::{Import, ImportView};
use crate::selector::{draw_val_type, pick_index};
use crate::types::{same_val_types, FuncType, FuncTypeView, FunctionType, ValType};
use vstd::prelude::*;

verus! {

/// `n` value types drawn from `s`, and what is left.
pub open spec fn val_types_from(refs: bool, n: nat, s: Seq<u8>) -> (Seq<ValType>, Seq<u8>)
    decreases n,
{
    if n == 0 {
        (Seq::empty(), s)
    } else {
        let before = val_types_from(refs, (n - 1) as nat, s);
        (
            before.0.push(crate::selector::val_type(refs, before.1)),
            crate::selector::val_type_rest(refs, before.1),
        )
    }
}

/// The signature drawn from `s`, and what is left: the number of
/// parameters, up to `max_parameters`, the parameters, whether there is a
/// result, and the result.
pub open spec fn func_type_from(kn: KnobsView, s: Seq<u8>) -> (FuncTypeView, Seq<u8>) {
    let refs = kn.reference_types_enabled;
    let n = crate::entropy::count_value(s, 0, kn.max_parameters);
    let params = val_types_from(
        refs,
        n as nat,
        crate::entropy::count_rest(s, 0, kn.max_parameters),
    );
    let s2 = crate::entropy::flag_rest(params.1);
    if crate::entropy::flag_value(params.1) {
        (
            FuncTypeView { params: params.0, result: Some(crate::selector::val_type(refs, s2)) },
            crate::selector::val_type_rest(refs, s2),
        )
    } else {
        (FuncTypeView { params: params.0, result: None }, s2)
    }
}

/// `n` signatures drawn from `s`, and what is left.
pub open spec fn func_types_from(kn: KnobsView, n: nat, s: Seq<u8>) -> (
    Seq<FuncTypeView>,
    Seq<u8>,
)
    decreases n,
{
    if n == 0 {
        (Seq::empty(), s)
    } else {
        let before = func_types_from(kn, (n - 1) as nat, s);
        let ty = func_type_from(kn, before.1);
        (before.0.push(ty.0), ty.1)
    }
}

/// The most imports that the ceilings allow: imports count as functions.
pub open spec fn import_ceiling(kn: KnobsView) -> usize {
    if kn.max_imports <= kn.max_funcs {
        kn.max_imports
    } else {
        kn.max_funcs
    }
}

/// The most types that the first stage draws. Where there are host
/// functions, it leaves room below `max_types` for the types that the
/// imports may need, one for each import, as far as `min_types` lets it.
pub open spec fn type_ceiling(kn: KnobsView) -> usize {
    let reserve = if kn.host_functions.len() == 0 {
        0
    } else {
        import_ceiling(kn) as int
    };
    let floor = crate::valid::least(kn.min_types as int, kn.max_types as int);
    if kn.max_types - reserve >= floor {
        (kn.max_types - reserve) as usize
    } else {
        floor as usize
    }
}

/// The types of the first stage: their number, between `min_types` and
/// the ceiling of the stage, and the signatures.
pub open spec fn types_from(kn: KnobsView, s: Seq<u8>) -> (Seq<FuncTypeView>, Seq<u8>) {
    func_types_from(
        kn,
        crate::entropy::count_value(s, kn.min_types, type_ceiling(kn)) as nat,
        crate::entropy::count_rest(s, kn.min_types, type_ceiling(kn)),
    )
}

/// The index of the first type from `from` on that is the signature
/// `sig`, if there is one.
pub open spec fn find_type(types: Seq<FuncTypeView>, sig: FuncTypeView, from: nat) -> Option<nat>
    decreases types.len() - from,
{
    if from >= types.len() {
        None
    } else if types[from as int] == sig {
        Some(from)
    } else {
        find_type(types, sig, from + 1)
    }
}

/// The import of a host function whose signature is the type `t`.
pub open spec fn import_of(h: HostFunctionView, t: u32) -> ImportView {
    ImportView { module: h.mod_name, name: Some(h.name), desc: FunctionType::Func(t) }
}

/// The types and the imports behind one more draw of an import, and what
/// is left of `s`. A host function is drawn; its import refers to the
/// first type that is its signature, or to a new type at the end. Where
/// there is no such type and no room for one, nothing is imported.
pub open spec fn with_import(
    kn: KnobsView,
    types: Seq<FuncTypeView>,
    imports: Seq<ImportView>,
    s: Seq<u8>,
) -> (Seq<FuncTypeView>, Seq<ImportView>, Seq<u8>) {
    let hosts = kn.host_functions;
    let h = hosts[crate::entropy::index_value(s, hosts.len() as usize) as int];
    let rest = crate::entropy::index_rest(s, hosts.len() as usize);
    match find_type(types, h.signature(), 0) {
        Some(t) => (types, imports.push(import_of(h, t as u32)), rest),
        None => if types.len() < kn.max_types {
            (types.push(h.signature()), imports.push(import_of(h, types.len() as u32)), rest)
        } else {
            (types, imports, rest)
        },
    }
}

/// The types and the imports behind `n` draws of an import.
pub open spec fn with_imports(kn: KnobsView, types: Seq<FuncTypeView>, n: nat, s: Seq<u8>) -> (
    Seq<FuncTypeView>,
    Seq<ImportView>,
    Seq<u8>,
)
    decreases n,
{
    if n == 0 {
        (types, Seq::empty(), s)
    } else {
        let before = with_imports(kn, types, (n - 1) as nat, s);
        with_import(kn, before.0, before.1, before.2)
    }
}

/// The types and the imports of the second stage, and what is left of `s`.
/// Without host functions nothing is imported and nothing is read.
pub open spec fn imports_from(kn: KnobsView, types: Seq<FuncTypeView>, s: Seq<u8>) -> (
    Seq<FuncTypeView>,
    Seq<ImportView>,
    Seq<u8>,
) {
    if kn.host_functions.len() == 0 {
        (types, Seq::empty(), s)
    } else {
        with_imports(
            kn,
            types,
            crate::entropy::count_value(s, kn.min_imports, import_ceiling(kn)) as nat,
            crate::entropy::count_rest(s, kn.min_imports, import_ceiling(kn)),
        )
    }
}

/// The type index of every import.
pub open spec fn import_types(imports: Seq<ImportView>) -> Seq<u32> {
    Seq::new(imports.len(), |i: int| imports[i].desc.type_index())
}

/// The fewest functions to define: as many as `min_funcs` asks for
/// besides the imported ones, and one at the least.
pub open spec fn defined_floor(kn: KnobsView, imported: nat) -> usize {
    if kn.min_funcs > imported + 1 {
        (kn.min_funcs - imported) as usize
    } else {
        1
    }
}

/// The type indices of the functions of the third stage, and what is left
/// of `s`: those of the imports, and behind them those of the defined
/// functions, drawn among the types. Without a type no function is
/// defined.
pub open spec fn funcs_from(
    kn: KnobsView,
    types: nat,
    imports: Seq<ImportView>,
    s: Seq<u8>,
) -> (Seq<u32>, Seq<u8>) {
    if types == 0 {
        (import_types(imports), s)
    } else {
        let floor = defined_floor(kn, imports.len());
        let ceiling = (kn.max_funcs - imports.len()) as usize;
        let defined = crate::selector::labels(
            types as usize,
            crate::entropy::count_value(s, floor, ceiling) as nat,
            crate::entropy::count_rest(s, floor, ceiling),
        );
        (import_types(imports) + defined.0, defined.1)
    }
}

/// Draws `n` value types.
pub fn draw_val_types(refs: bool, n: usize, u: &mut Entropy) -> (r: Vec<ValType>)
    ensures
        (r@, final(u)@) == val_types_from(refs, n as nat, old(u)@),
        final(u).data == old(u).data,
        crate::valid::val_types_ok(r@, refs),
        r.len() == n,
{
    let mut r: Vec<ValType> = Vec::new();
    let mut i: usize = 0;
    while i < n
        invariant
            i <= n,
            u.data == old(u).data,
            (r@, u@) == val_types_from(refs, i as nat, old(u)@),
            crate::valid::val_types_ok(r@, refs),
            r.len() == i,
        decreases n - i,
    {
        let t: ValType = draw_val_type(refs, u);
        r.push(t);
        i += 1;
    }
    r
}

/// Draws `n` indices below `bound`.
pub fn draw_indices(bound: usize, n: usize, u: &mut Entropy) -> (r: Vec<u32>)
    requires
        bound <= u32::MAX,
    ensures
        (r@, final(u)@) == crate::selector::labels(bound, n as nat, old(u)@),
        final(u).data == old(u).data,
        r.len() == n,
        bound > 0 ==> forall|i: int| 0 <= i < r.len() ==> #[trigger] r@[i] < bound,
{
    let mut r: Vec<u32> = Vec::new();
    let mut i: usize = 0;
    while i < n
        invariant
            i <= n,
            bound <= u32::MAX,
            u.data == old(u).data,
            (r@, u@) == crate::selector::labels(bound, i as nat, old(u)@),
            r.len() == i,
            bound > 0 ==> forall|j: int| 0 <= j < r.len() ==> #[trigger] r@[j] < bound,
        decreases n - i,
    {
        let x: u32 = pick_index(u, bound);
        r.push(x);
        i += 1;
    }
    r
}

/// Draws a signature.
pub fn draw_func_type(kn: &Knobs, u: &mut Entropy) -> (r: FuncType)
    ensures
        (r@, final(u)@) == func_type_from(kn@, old(u)@),
        final(u).data == old(u).data,
        crate::valid::func_type_ok(r@, kn.reference_types_enabled),
{
    let refs: bool = kn.reference_types_enabled;
    let n: usize = u.count(0, kn.max_parameters);
    let params: Vec<ValType> = draw_val_types(refs, n, u);
    let result: Option<ValType> = if u.flag() {
        Some(draw_val_type(refs, u))
    } else {
        None
    };
    FuncType { params, result }
}

/// The first stage: draws the types.
pub fn draw_types(kn: &Knobs, u: &mut Entropy) -> (types: Vec<FuncType>)
    ensures
        (crate::types::seq_view(types@), final(u)@) == types_from(kn@, old(u)@),
        final(u).data == old(u).data,
        crate::valid::types_ok(crate::types::seq_view(types@), kn.reference_types_enabled),
        types.len() <= type_ceiling(kn@) <= kn.max_types,
        crate::valid::least(kn.min_types as int, kn.max_types as int) <= types.len(),
{
    let reserve: usize = if kn.host_functions.len() == 0 {
        0
    } else if kn.max_imports <= kn.max_funcs {
        kn.max_imports
    } else {
        kn.max_funcs
    };
    let floor: usize = if kn.min_types <= kn.max_types { kn.min_types } else { kn.max_types };
    let ceiling: usize = if reserve <= kn.max_types && kn.max_types - reserve >= floor {
        kn.max_types - reserve
    } else {
        floor
    };
    let n: usize = u.count(kn.min_types, ceiling);
    let ghost s0 = u@;
    let mut types: Vec<FuncType> = Vec::new();
    let mut i: usize = 0;
    assert(crate::types::seq_view(types@) =~= Seq::empty());
    while i < n
        invariant
            i <= n,
            u.data == old(u).data,
            (crate::types::seq_view(types@), u@) == func_types_from(kn@, i as nat, s0),
            crate::valid::types_ok(crate::types::seq_view(types@), kn.reference_types_enabled),
            types.len() == i,
        decreases n - i,
    {
        let ty: FuncType = draw_func_type(kn, u);
        proof {
            crate::types::seq_view_push(types@, ty);
        }
        types.push(ty);
        i += 1;
    }
    types
}

/// Whether two results are the same.
fn same_result(a: Option<ValType>, b: Option<ValType>) -> (r: bool)
    ensures
        r == (a == b),
{
    match (a, b) {
        (Some(x), Some(y)) => x == y,
        (None, None) => true,
        _ => false,
    }
}

/// The index of the first type that is the signature of a host function.
pub fn find_host_type(types: &Vec<FuncType>, h: &HostFunction) -> (r: Option<usize>)
    ensures
        match r {
            Some(t) => find_type(crate::types::seq_view(types@), h@.signature(), 0) == Some(
                t as nat,
            ) && t < types.len(),
            None => find_type(crate::types::seq_view(types@), h@.signature(), 0) is None,
        },
{
    let ghost all = crate::types::seq_view(types@);
    let mut i: usize = 0;
    while i < types.len()
        invariant
            i <= types.len(),
            all == crate::types::seq_view(types@),
            find_type(all, h@.signature(), 0) == find_type(all, h@.signature(), i as nat),
        decreases types.len() - i,
    {
        if same_val_types(&types[i].params, &h.params) && same_result(types[i].result, h.result) {
            return Some(i);
        }
        i += 1;
    }
    None
}

/// A copy of the signature of a host function.
fn host_signature(h: &HostFunction) -> (r: FuncType)
    ensures
        r@ == h@.signature(),
{
    FuncType { params: crate::types::copy_val_types(&h.params), result: h.result }
}

/// The import of a host function whose signature is the type `t`.
fn host_import(h: &HostFunction, t: u32) -> (r: Import)
    ensures
        r@ == import_of(h@, t),
{
    Import {
        module: h.mod_name.to_owned(),
        name: Some(h.name.to_owned()),
        desc: FunctionType::Func(t),
    }
}

/// What the second stage keeps: the types are in order, and every import
/// refers to one of them.
pub open spec fn imports_in_order(
    kn: KnobsView,
    types: Seq<FuncTypeView>,
    imports: Seq<ImportView>,
) -> bool {
    &&& crate::valid::types_ok(types, kn.reference_types_enabled)
    &&& crate::valid::imports_ok(imports, types)
}

/// The second stage: draws the imports, and appends the types they need.
pub fn draw_imports(
    kn: &Knobs,
    types: &mut Vec<FuncType>,
    u: &mut Entropy,
) -> (imports: Vec<Import>)
    requires
        kn@.valid(),
        crate::valid::types_ok(crate::types::seq_view(old(types)@), kn.reference_types_enabled),
        old(types).len() <= kn.max_types,
    ensures
        (
            crate::types::seq_view(final(types)@),
            crate::types::seq_view(imports@),
            final(u)@,
        ) == imports_from(kn@, crate::types::seq_view(old(types)@), old(u)@),
        final(u).data == old(u).data,
        imports_in_order(
            kn@,
            crate::types::seq_view(final(types)@),
            crate::types::seq_view(imports@),
        ),
        final(types).len() <= kn.max_types,
        old(types).len() <= final(types).len(),
        imports.len() <= kn.max_imports,
        imports.len() <= kn.max_funcs,
        kn.host_functions.len() > 0 && old(types).len() + import_ceiling(kn@) <= kn.max_types
            ==> crate::valid::least(kn.min_imports as int, import_ceiling(kn@) as int)
            <= imports.len(),
{
    let mut imports: Vec<Import> = Vec::new();
    assert(crate::types::seq_view(imports@) =~= Seq::empty());
    if kn.host_functions.len() == 0 {
        return imports;
    }
    let ceiling: usize = if kn.max_imports <= kn.max_funcs {
        kn.max_imports
    } else {
        kn.max_funcs
    };
    let n: usize = u.count(kn.min_imports, ceiling);
    let ghost s0 = u@;
    let ghost types0 = crate::types::seq_view(types@);
    let mut i: usize = 0;
    while i < n
        invariant
            i <= n,
            n <= ceiling,
            ceiling == import_ceiling(kn@),
            kn@.valid(),
            kn.host_functions.len() > 0,
            u.data == old(u).data,
            (crate::types::seq_view(types@), crate::types::seq_view(imports@), u@)
                == with_imports(kn@, types0, i as nat, s0),
            imports_in_order(kn@, crate::types::seq_view(types@), crate::types::seq_view(imports@)),
            types.len() <= kn.max_types,
            old(types).len() <= types.len() <= old(types).len() + i,
            imports.len() <= i,
            old(types).len() + ceiling <= kn.max_types ==> imports.len() == i,
        decreases n - i,
    {
        let chosen: usize = u.index(kn.host_functions.len());
        let h = &kn.host_functions[chosen];
        assert(crate::valid::func_type_ok(h@.signature(), kn.reference_types_enabled)) by {
            assert(kn@.hosts_in_order());
            assert(kn@.host_functions[chosen as int] == h@);
        }
        match find_host_type(types, h) {
            Some(t) => {
                let import: Import = host_import(h, t as u32);
                proof {
                    crate::types::seq_view_push(imports@, import);
                }
                imports.push(import);
            },
            None => {
                if types.len() < kn.max_types {
                    let import: Import = host_import(h, types.len() as u32);
                    let sig: FuncType = host_signature(h);
                    proof {
                        crate::types::seq_view_push(imports@, import);
                        crate::types::seq_view_push(types@, sig);
                    }
                    types.push(sig);
                    imports.push(import);
                }
            },
        }
        i += 1;
    }
    imports
}

/// The third stage: the type index of every function, the imported ones
/// first.
pub fn draw_funcs(
    kn: &Knobs,
    types: &Vec<FuncType>,
    imports: &Vec<Import>,
    u: &mut Entropy,
) -> (funcs: Vec<u32>)
    requires
        kn@.valid(),
        types.len() <= kn.max_types,
        imports.len() <= kn.max_funcs,
        crate::valid::imports_ok(
            crate::types::seq_view(imports@),
            crate::types::seq_view(types@),
        ),
    ensures
        (funcs@, final(u)@) == funcs_from(
            kn@,
            types.len() as nat,
            crate::types::seq_view(imports@),
            old(u)@,
        ),
        final(u).data == old(u).data,
        crate::valid::funcs_ok(
            funcs@,
            crate::types::seq_view(imports@),
            crate::types::seq_view(types@),
        ),
        funcs.len() <= kn.max_funcs,
        types.len() > 0 ==> crate::valid::least(kn.min_funcs as int, kn.max_funcs as int)
            <= funcs.len(),
{
    let ghost is = crate::types::seq_view(imports@);
    let mut funcs: Vec<u32> = Vec::new();
    let mut i: usize = 0;
    while i < imports.len()
        invariant
            i <= imports.len(),
            is == crate::types::seq_view(imports@),
            funcs@ == import_types(is).take(i as int),
        decreases imports.len() - i,
    {
        match imports[i].desc {
            FunctionType::Func(t) => {
                funcs.push(t);
            },
        }
        assert(funcs@ =~= import_types(is).take(i + 1));
        i += 1;
    }
    assert(import_types(is).take(imports.len() as int) =~= import_types(is));
    if types.len() == 0 {
        return funcs;
    }
    let floor: usize = if kn.min_funcs > imports.len() && kn.min_funcs - imports.len() > 1 {
        kn.min_funcs - imports.len()
    } else {
        1
    };
    let n: usize = u.count(floor, kn.max_funcs - imports.len());
    let mut defined: Vec<u32> = draw_indices(types.len(), n, u);
    funcs.append(&mut defined);
    funcs
}

} // verus!
