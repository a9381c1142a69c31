//! The stages of the module builder that refer to what is declared:
//! exports and the start function.

use crate::config::{Knobs, KnobsView};
use crate::entropy::Entropy;
use crate::types::{same_val_types, Export, FuncType, FuncTypeView};
use vstd::prelude::*;

verus! {

/// The character of a decimal digit.
pub open spec fn digit_char(d: nat) -> char {
    match d as usize {
        0 => '0',
        1 => '1',
        2 => '2',
        3 => '3',
        4 => '4',
        5 => '5',
        6 => '6',
        7 => '7',
        8 => '8',
        _ => '9',
    }
}

/// The decimal digits of a number, without leading zeros.
pub open spec fn digits(n: nat) -> Seq<char>
    decreases n,
{
    if n < 10 {
        seq![digit_char(n)]
    } else {
        digits(n / 10).push(digit_char(n % 10))
    }
}

/// The name of the export with the number `i`: the letter `e` and the
/// number.
pub open spec fn export_name(i: nat) -> Seq<char> {
    seq!['e'] + digits(i)
}

/// A number of two digits or more has two digits or more.
pub proof fn digits_len(n: nat)
    ensures
        digits(n).len() >= 1,
        n >= 10 ==> digits(n).len() >= 2,
    decreases n,
{
    if n >= 10 {
        digits_len(n / 10);
    }
}

/// Different numbers have different digits.
pub proof fn digits_differ(a: nat, b: nat)
    requires
        digits(a) == digits(b),
    ensures
        a == b,
    decreases a,
{
    digits_len(a);
    digits_len(b);
    if a < 10 && b < 10 {
        assert(digits(a)[0] == digit_char(a));
        assert(digits(b)[0] == digit_char(b));
        digit_differs(a, b);
    } else if a >= 10 && b >= 10 {
        let da = digits(a / 10).push(digit_char(a % 10));
        let db = digits(b / 10).push(digit_char(b % 10));
        assert(da.drop_last() =~= digits(a / 10));
        assert(db.drop_last() =~= digits(b / 10));
        assert(da.last() == db.last());
        digit_differs(a % 10, b % 10);
        digits_differ(a / 10, b / 10);
    } else {
        assert(digits(a).len() != digits(b).len());
    }
}

/// Different digits have different characters.
pub proof fn digit_differs(a: nat, b: nat)
    requires
        a < 10,
        b < 10,
        digit_char(a) == digit_char(b),
    ensures
        a == b,
{
    assert(digit_char(a) as u32 == digit_char(b) as u32);
    assert(digit_char(a) as u32 == 48 + a);
    assert(digit_char(b) as u32 == 48 + b);
}

/// Exports with different numbers have different names.
pub proof fn export_names_differ(a: nat, b: nat)
    requires
        a != b,
    ensures
        export_name(a) != export_name(b),
{
    if export_name(a) == export_name(b) {
        assert(export_name(a).skip(1) =~= digits(a));
        assert(export_name(b).skip(1) =~= digits(b));
        digits_differ(a, b);
    }
}

/// Whether the configuration allows a function of the signature `sig` to
/// be exported.
pub open spec fn allowed_sig(kn: KnobsView, sig: FuncTypeView) -> bool {
    match kn.allowed_export_types {
        Some(allowed) => allowed.contains(sig),
        None => true,
    }
}

/// The exports of the functions among the first `n` that may be exported,
/// in order.
pub open spec fn func_exports(
    kn: KnobsView,
    types: Seq<FuncTypeView>,
    funcs: Seq<u32>,
    n: nat,
) -> Seq<Export>
    decreases n,
{
    if n == 0 {
        Seq::empty()
    } else {
        let before = func_exports(kn, types, funcs, (n - 1) as nat);
        if allowed_sig(kn, types[funcs[n - 1] as int]) {
            before.push(Export::Func((n - 1) as u32))
        } else {
            before
        }
    }
}

/// The exports of `n` tables.
pub open spec fn table_exports(n: nat) -> Seq<Export> {
    Seq::new(n, |i: int| Export::Table(i as u32))
}

/// The exports of `n` memories.
pub open spec fn memory_exports(n: nat) -> Seq<Export> {
    Seq::new(n, |i: int| Export::Memory(i as u32))
}

/// The exports of `n` globals.
pub open spec fn global_exports(n: nat) -> Seq<Export> {
    Seq::new(n, |i: int| Export::Global(i as u32))
}

/// Everything that may be exported: the functions whose signature the
/// configuration allows, the tables, the memories and the globals.
pub open spec fn export_candidates(
    kn: KnobsView,
    types: Seq<FuncTypeView>,
    funcs: Seq<u32>,
    tables: nat,
    memories: nat,
    globals: nat,
) -> Seq<Export> {
    func_exports(kn, types, funcs, funcs.len()) + table_exports(tables) + memory_exports(
        memories,
    ) + global_exports(globals)
}

/// `n` exports drawn from `s` among the candidates, named by their
/// numbers, and what is left.
pub open spec fn exports_n(candidates: Seq<Export>, n: nat, s: Seq<u8>) -> (
    Seq<(Seq<char>, Export)>,
    Seq<u8>,
)
    decreases n,
{
    if n == 0 {
        (Seq::empty(), s)
    } else {
        let before = exports_n(candidates, (n - 1) as nat, s);
        (
            before.0.push(
                (
                    export_name((n - 1) as nat),
                    candidates[crate::entropy::index_value(
                        before.1,
                        candidates.len() as usize,
                    ) as int],
                ),
            ),
            crate::entropy::index_rest(before.1, candidates.len() as usize),
        )
    }
}

/// The exports of the module, and what is left of `s`. Where nothing may
/// be exported there are none, and nothing is read.
pub open spec fn exports_from(kn: KnobsView, candidates: Seq<Export>, s: Seq<u8>) -> (
    Seq<(Seq<char>, Export)>,
    Seq<u8>,
) {
    if candidates.len() == 0 {
        (Seq::empty(), s)
    } else {
        exports_n(
            candidates,
            crate::entropy::count_value(s, kn.min_exports, kn.max_exports) as nat,
            crate::entropy::count_rest(s, kn.min_exports, kn.max_exports),
        )
    }
}

/// The defined functions among the first `n` functions that neither take
/// nor return anything, in order.
pub open spec fn start_candidates(
    types: Seq<FuncTypeView>,
    funcs: Seq<u32>,
    imported: nat,
    n: nat,
) -> Seq<u32>
    decreases n,
{
    if n == 0 {
        Seq::empty()
    } else {
        let before = start_candidates(types, funcs, imported, (n - 1) as nat);
        if n - 1 >= imported && types[funcs[n - 1] as int] == crate::valid::unit_type() {
            before.push((n - 1) as u32)
        } else {
            before
        }
    }
}

/// The start function of the module, and what is left of `s`. Where the
/// configuration allows one and there is a candidate, a flag says whether
/// there is a start function, and a draw says which.
pub open spec fn start_from(
    kn: KnobsView,
    types: Seq<FuncTypeView>,
    funcs: Seq<u32>,
    imported: nat,
    s: Seq<u8>,
) -> (Option<u32>, Seq<u8>) {
    let candidates = start_candidates(types, funcs, imported, funcs.len());
    if !kn.allow_start_export || candidates.len() == 0 {
        (None, s)
    } else if crate::entropy::flag_value(s) {
        let s1 = crate::entropy::flag_rest(s);
        (
            Some(candidates[crate::entropy::index_value(s1, candidates.len() as usize) as int]),
            crate::entropy::index_rest(s1, candidates.len() as usize),
        )
    } else {
        (None, crate::entropy::flag_rest(s))
    }
}

/// The text of a decimal digit.
fn digit_text(d: usize) -> (r: &'static str)
    requires
        d < 10,
    ensures
        r@ == seq![digit_char(d as nat)],
{
    proof {
        reveal_strlit("0");
        reveal_strlit("1");
        reveal_strlit("2");
        reveal_strlit("3");
        reveal_strlit("4");
        reveal_strlit("5");
        reveal_strlit("6");
        reveal_strlit("7");
        reveal_strlit("8");
        reveal_strlit("9");
    }
    let r: &'static str = match d {
        0 => "0",
        1 => "1",
        2 => "2",
        3 => "3",
        4 => "4",
        5 => "5",
        6 => "6",
        7 => "7",
        8 => "8",
        _ => "9",
    };
    assert(r@ =~= seq![digit_char(d as nat)]);
    r
}

/// Appends the decimal digits of a number.
fn put_digits(name: &mut String, n: usize)
    ensures
        final(name)@ == old(name)@ + digits(n as nat),
    decreases n,
{
    if n >= 10 {
        put_digits(name, n / 10);
    }
    name.append(digit_text(n % 10));
    assert(name@ =~= old(name)@ + digits(n as nat));
}

/// The name of the export with the number `i`.
pub fn name_export(i: usize) -> (name: String)
    ensures
        name@ == export_name(i as nat),
{
    proof {
        reveal_strlit("e");
    }
    let mut name: String = "e".to_owned();
    put_digits(&mut name, i);
    assert(name@ =~= export_name(i as nat));
    name
}

/// Whether the configuration allows a function of the signature `ty` to be
/// exported.
pub fn may_export(kn: &Knobs, ty: &FuncType) -> (r: bool)
    ensures
        r == allowed_sig(kn@, ty@),
{
    match &kn.allowed_export_types {
        None => true,
        Some(allowed) => {
            let ghost list = crate::config::signatures_view(allowed@);
            let mut i: usize = 0;
            while i < allowed.len()
                invariant
                    i <= allowed.len(),
                    list == crate::config::signatures_view(allowed@),
                    kn@.allowed_export_types == Some(list),
                    forall|j: int| 0 <= j < i ==> #[trigger] list[j] != ty@,
                decreases allowed.len() - i,
            {
                let same_result: bool = match (allowed[i].1, ty.result) {
                    (Some(x), Some(y)) => x == y,
                    (None, None) => true,
                    _ => false,
                };
                if same_result && same_val_types(&allowed[i].0, &ty.params) {
                    assert(list[i as int] == ty@);
                    assert(list.contains(ty@));
                    return true;
                }
                i += 1;
            }
            false
        },
    }
}

/// Everything that may be exported.
pub fn list_candidates(
    kn: &Knobs,
    types: &Vec<FuncType>,
    funcs: &Vec<u32>,
    tables: usize,
    memories: usize,
    globals: usize,
) -> (r: Vec<Export>)
    requires
        funcs.len() <= u32::MAX,
        tables <= u32::MAX,
        memories <= u32::MAX,
        globals <= u32::MAX,
        forall|i: int| 0 <= i < funcs.len() ==> #[trigger] funcs@[i] < types.len(),
    ensures
        r@ == export_candidates(
            kn@,
            crate::types::seq_view(types@),
            funcs@,
            tables as nat,
            memories as nat,
            globals as nat,
        ),
        forall|i: int|
            0 <= i < r.len() ==> crate::valid::export_ok(
                #[trigger] r@[i],
                funcs.len() as nat,
                tables as nat,
                memories as nat,
                globals as nat,
            ),
        forall|i: int|
            0 <= i < r.len() ==> ((#[trigger] r@[i]) matches Export::Func(f) ==> allowed_sig(
                kn@,
                crate::types::seq_view(types@)[funcs@[f as int] as int],
            )),
{
    let ghost ts = crate::types::seq_view(types@);
    let mut r: Vec<Export> = Vec::new();
    let mut i: usize = 0;
    while i < funcs.len()
        invariant
            i <= funcs.len() <= u32::MAX,
            ts == crate::types::seq_view(types@),
            forall|j: int| 0 <= j < funcs.len() ==> #[trigger] funcs@[j] < types.len(),
            r@ == func_exports(kn@, ts, funcs@, i as nat),
            forall|j: int|
                0 <= j < r.len() ==> ((#[trigger] r@[j]) matches Export::Func(f) && f < i
                    && allowed_sig(kn@, ts[funcs@[f as int] as int])),
        decreases funcs.len() - i,
    {
        if may_export(kn, &types[funcs[i] as usize]) {
            r.push(Export::Func(i as u32));
        }
        i += 1;
    }
    let ghost fs = r@;
    let mut t: usize = 0;
    assert(r@ =~= fs + table_exports(0));
    while t < tables
        invariant
            t <= tables <= u32::MAX,
            r@ == fs + table_exports(t as nat),
        decreases tables - t,
    {
        r.push(Export::Table(t as u32));
        assert(r@ =~= fs + table_exports((t + 1) as nat));
        t += 1;
    }
    let ghost ft = r@;
    let mut m: usize = 0;
    assert(r@ =~= ft + memory_exports(0));
    while m < memories
        invariant
            m <= memories <= u32::MAX,
            r@ == ft + memory_exports(m as nat),
        decreases memories - m,
    {
        r.push(Export::Memory(m as u32));
        assert(r@ =~= ft + memory_exports((m + 1) as nat));
        m += 1;
    }
    let ghost fm = r@;
    let mut g: usize = 0;
    assert(r@ =~= fm + global_exports(0));
    while g < globals
        invariant
            g <= globals <= u32::MAX,
            r@ == fm + global_exports(g as nat),
        decreases globals - g,
    {
        r.push(Export::Global(g as u32));
        assert(r@ =~= fm + global_exports((g + 1) as nat));
        g += 1;
    }
    proof {
        assert forall|j: int| 0 <= j < r.len() implies crate::valid::export_ok(
            #[trigger] r@[j],
            funcs.len() as nat,
            tables as nat,
            memories as nat,
            globals as nat,
        ) && (r@[j] matches Export::Func(f) ==> allowed_sig(kn@, ts[funcs@[f as int] as int])) by {
            if j < fs.len() {
                assert(r@[j] == fs[j]);
            } else if j < ft.len() {
                assert(r@[j] == table_exports(tables as nat)[j - fs.len()]);
            } else if j < fm.len() {
                assert(r@[j] == memory_exports(memories as nat)[j - ft.len()]);
            } else {
                assert(r@[j] == global_exports(globals as nat)[j - fm.len()]);
            }
        }
    }
    r
}

/// Draws the exports among the candidates.
pub fn draw_exports(
    kn: &Knobs,
    candidates: &Vec<Export>,
    u: &mut Entropy,
) -> (exports: Vec<(String, Export)>)
    ensures
        (crate::module::exports_view(exports@), final(u)@) == exports_from(
            kn@,
            candidates@,
            old(u)@,
        ),
        final(u).data == old(u).data,
        exports.len() <= kn.max_exports,
        candidates.len() > 0 ==> crate::valid::least(
            kn.min_exports as int,
            kn.max_exports as int,
        ) <= exports.len(),
        forall|i: int|
            0 <= i < exports.len() ==> (#[trigger] crate::module::exports_view(exports@)[i]).0
                == export_name(i as nat) && candidates@.contains(
                crate::module::exports_view(exports@)[i].1,
            ),
{
    let mut exports: Vec<(String, Export)> = Vec::new();
    assert(crate::module::exports_view(exports@) =~= Seq::empty());
    if candidates.len() == 0 {
        return exports;
    }
    let n: usize = u.count(kn.min_exports, kn.max_exports);
    let ghost s0 = u@;
    let mut i: usize = 0;
    while i < n
        invariant
            i <= n,
            candidates.len() > 0,
            u.data == old(u).data,
            (crate::module::exports_view(exports@), u@) == exports_n(candidates@, i as nat, s0),
            exports.len() == i,
            forall|j: int|
                0 <= j < exports.len() ==> (#[trigger] crate::module::exports_view(exports@)[j]).0
                    == export_name(j as nat) && candidates@.contains(
                    crate::module::exports_view(exports@)[j].1,
                ),
        decreases n - i,
    {
        let ghost before = crate::module::exports_view(exports@);
        let e: Export = candidates[u.index(candidates.len())];
        let name: String = name_export(i);
        exports.push((name, e));
        proof {
            let now = crate::module::exports_view(exports@);
            assert(now =~= before.push((export_name(i as nat), e)));
            assert forall|j: int| 0 <= j < exports.len() implies (#[trigger] now[j]).0
                == export_name(j as nat) && candidates@.contains(now[j].1) by {
                if j < i {
                    assert(now[j] == before[j]);
                }
            }
        }
        i += 1;
    }
    exports
}

/// Whether a signature neither takes nor returns anything.
fn is_unit(ty: &FuncType) -> (r: bool)
    ensures
        r == (ty@ == crate::valid::unit_type()),
{
    let r: bool = ty.params.len() == 0 && ty.result.is_none();
    proof {
        if r {
            assert(ty@.params =~= Seq::empty());
        }
    }
    r
}

/// Draws the start function.
pub fn draw_start(
    kn: &Knobs,
    types: &Vec<FuncType>,
    funcs: &Vec<u32>,
    imported: usize,
    u: &mut Entropy,
) -> (start: Option<u32>)
    requires
        funcs.len() <= u32::MAX,
        forall|i: int| 0 <= i < funcs.len() ==> #[trigger] funcs@[i] < types.len(),
    ensures
        (start, final(u)@) == start_from(
            kn@,
            crate::types::seq_view(types@),
            funcs@,
            imported as nat,
            old(u)@,
        ),
        final(u).data == old(u).data,
        crate::valid::start_ok(start, funcs@, crate::types::seq_view(types@)),
        start is Some ==> kn.allow_start_export,
{
    let ghost ts = crate::types::seq_view(types@);
    let mut candidates: Vec<u32> = Vec::new();
    let mut i: usize = 0;
    while i < funcs.len()
        invariant
            i <= funcs.len() <= u32::MAX,
            ts == crate::types::seq_view(types@),
            forall|j: int| 0 <= j < funcs.len() ==> #[trigger] funcs@[j] < types.len(),
            candidates@ == start_candidates(ts, funcs@, imported as nat, i as nat),
            forall|j: int|
                0 <= j < candidates.len() ==> (#[trigger] candidates@[j]) < funcs.len()
                    && ts[funcs@[candidates@[j] as int] as int] == crate::valid::unit_type(),
        decreases funcs.len() - i,
    {
        if i >= imported && is_unit(&types[funcs[i] as usize]) {
            candidates.push(i as u32);
        }
        i += 1;
    }
    if !kn.allow_start_export || candidates.len() == 0 {
        return None;
    }
    if u.flag() {
        Some(candidates[u.index(candidates.len())])
    } else {
        None
    }
}

} // verus!
