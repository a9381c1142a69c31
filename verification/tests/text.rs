use wasm_smith::{parse_bytes, parse_str, ErrorKind};

#[test]
fn parse_str_encodes_the_empty_module() {
    assert_eq!(parse_str("(module)").unwrap(), b"\0asm\x01\0\0\0");
}

#[test]
fn parse_str_rejects_what_is_no_module() {
    let err = parse_str("module").unwrap_err();
    assert!(matches!(*err.kind, ErrorKind::Wast(_)));
    assert!(!err.message().is_empty());
}

#[test]
fn parse_str_encodes_a_function() {
    let binary = parse_str("(module (func $foo) (func (export \"bar\") call $foo))").unwrap();
    assert_eq!(&binary[..8], b"\0asm\x01\0\0\0");
    assert!(binary.len() > 8);
}

#[test]
fn parse_bytes_reads_text() {
    assert_eq!(&*parse_bytes(b"(module)").unwrap(), b"\0asm\x01\0\0\0");
    assert!(parse_bytes(b"module").is_err());
}

#[test]
fn parse_bytes_rejects_what_is_not_utf8() {
    let err = parse_bytes(b"binary\0file\0\xffthat\0is\0not\0wat").unwrap_err();
    assert!(matches!(*err.kind, ErrorKind::Custom(_)));
    assert_eq!(err.message(), "input bytes aren't valid utf-8");
}

#[test]
fn parse_bytes_passes_binaries_through() {
    assert_eq!(&*parse_bytes(b"\0asm\x01\0\0\0").unwrap(), b"\0asm\x01\0\0\0");
    // Only the first four bytes are looked at.
    assert_eq!(&*parse_bytes(b"\0asm\xff\xff").unwrap(), b"\0asm\xff\xff");
}

#[test]
fn parse_str_reads_a_module_behind_layout() {
    assert_eq!(parse_str("\n  (module)\n").unwrap(), b"\0asm\x01\0\0\0");
    assert_eq!(parse_str(";;\n(; ;) (module)").unwrap(), b"\0asm\x01\0\0\0");
    // Fields without the word `module` around them are a module too.
    assert_eq!(parse_str("(func)").unwrap(), parse_str("(module (func))").unwrap());
}

#[test]
fn parse_str_refuses_references_to_outer_modules() {
    let texts = [
        "(module (import \"a\" \"b\" (event (type outer 0 0))))",
        "(module (func (func.bind (type outer 0 0))))",
        "(module (func (export \"f\") (type outer 0 0)))",
        "(module (alias outer 0 0 (func)))",
    ];
    for text in texts {
        let err = parse_str(text).unwrap_err();
        assert!(matches!(*err.kind, ErrorKind::Custom(_)), "{}", text);
        assert_eq!(err.message(), "text is too long or uses a form that is not supported");
        assert!(parse_bytes(text.as_bytes()).is_err());
    }
}

#[test]
fn parse_str_refuses_modules_within_modules_and_exceptions() {
    let texts = [
        "(module (module))",
        "(module (type (module (import \"a\" (func (type 0 \"x\"))))))",
        "(import \"a\" (module))",
        "(import \"a\" (module (import \"b\" (func (type 0 \"x\")))))",
        "(module (type (instance (export \"a\" (func (type 0 \"x\"))))))",
        "(module (instance (import \"a\")))",
        "(module (import \"a\" \"b\" (event (type 0 \"x\"))))",
        "(module (event))",
        "(module (func func.bind (type 0 \"x\")))",
        // The words are looked for everywhere, in comments and strings too.
        ";; an event\n(module)",
        "(module (func (export \"outer\")))",
        ";; the module\n(module)",
    ];
    for text in texts {
        let err = parse_str(text).unwrap_err();
        assert!(matches!(*err.kind, ErrorKind::Custom(_)), "{}", text);
    }
}

#[test]
fn parse_str_reads_words_that_only_hold_a_refused_word() {
    let texts = [
        "(module (func $outer) (func $event (call $outer)))",
        "(module (func (export \"router\")) (func (export \"events\")))",
        "(module (func (export \"modules\")) (func $module.x))",
        "(module (memory 1) (data (i32.const 0) \"instances\"))",
    ];
    for text in texts {
        let binary = parse_str(text).unwrap();
        assert_eq!(&binary[..8], b"\0asm\x01\0\0\0", "{}", text);
    }
}

#[test]
fn parse_str_gives_the_bytes_of_the_text() {
    // A type, a function of it and its body: `i32.const 7`, `end`.
    let binary = parse_str("(module (func (result i32) i32.const 7))").unwrap();
    assert_eq!(
        binary,
        [
            0x00, 0x61, 0x73, 0x6D, 0x01, 0x00, 0x00, 0x00, // header
            0x01, 0x05, 0x01, 0x60, 0x00, 0x01, 0x7F, // types
            0x03, 0x02, 0x01, 0x00, // functions
            0x0A, 0x06, 0x01, 0x04, 0x00, 0x41, 0x07, 0x0B, // code
        ]
    );
}

#[test]
fn parse_str_returns_on_unusual_texts() {
    // Whatever the answer is, there is one.
    let texts = [
        "(module (import \"a\" \"b\" (func (type 0 \"x\"))))",
        "(module (func (type 0 \"x\")))",
        "(module (func (type 0 \"x\" \"y\") (param i32)))",
        "(module (export \"e\" (func 0 \"x\")))",
        "(module (export \"e\" (func $f \"x\" \"y\")))",
        "(module (start (func 0 \"x\")))",
        "(module (func (call (func 0 \"x\"))))",
        "(module (func (return_call (func 0 \"x\" \"y\"))))",
        "(module (func (ref.func (func 0 \"x\")) drop))",
        "(module (func (global.get (global 0 \"g\")) drop))",
        "(module (func (global.set (global $g \"g\") (i32.const 0))))",
        "(module (elem (table 0 \"t\") (i32.const 0) func))",
        "(module (elem (i32.const 0) (func 0 \"x\") (func 1 \"y\")))",
        "(module (elem funcref (ref.func (func 0 \"x\"))))",
        "(module (elem funcref (item (ref.func 0)) (ref.null func)))",
        "(module (data (memory 0 \"m\") (i32.const 0) \"a\"))",
        "(module (data (memory 0 \"m\") (global.get (global 0 \"g\")) \"a\"))",
        "(module (func (i32.load (memory 0 \"m\") (i32.const 0)) drop))",
        "(module (func (i32.store (memory $m \"m\") offset=4 align=2 (i32.const 0) (i32.const 0))))",
        "(module (func (v128.load8_lane (memory 0 \"m\") 1 (i32.const 0) (v128.const i64x2 0 0)) drop))",
        "(module (func (block (type 0 \"x\"))))",
        "(module (func (loop (type $t \"x\") (result i32) (i32.const 0)) drop))",
        "(module (func (if (type 0 \"x\") (i32.const 0) (then))))",
        "(module (func block (type 0 \"x\") (param i32) end))",
        "(module (func (call_indirect (table 0 \"t\") (type 0 \"x\") (i32.const 0))))",
        "(module (func (return_call_indirect (table 0 \"t\") (type 0 \"x\") (i32.const 0))))",
        "(module (func (call_indirect (type 0 \"x\") (param i32) (i32.const 0) (i32.const 0))))",
        "(module (func (table.get (table 0 \"t\") (i32.const 0)) drop))",
        "(module (func (table.size (table 0 \"t\")) drop))",
        "(module (func (table.copy (table 0 \"t\") (table 1 \"u\") (i32.const 0) (i32.const 0) (i32.const 0))))",
        "(module (func (table.init (table 0 \"t\") 0 (i32.const 0) (i32.const 0) (i32.const 0))))",
        "(module (func (memory.copy (memory 0 \"m\") (memory 1 \"n\") (i32.const 0) (i32.const 0) (i32.const 0))))",
        "(module (func (memory.init (memory 0 \"m\") 0 (i32.const 0) (i32.const 0) (i32.const 0))))",
        "(module (func (memory.size (memory 0 \"m\")) drop))",
        "(module (func (memory.fill (memory 0 \"m\") (i32.const 0) (i32.const 0) (i32.const 0))))",
        "(module (func (let (type 0 \"x\") (local i32) end)))",
        "(module (func let (local $a i32) (local.get $a) drop end (local.get $a) drop))",
        "(module (func (try (type 0 \"x\") (do) (catch 0))))",
        "(module (func try catch 0 rethrow 0 end))",
        "(module (func try throw 0 delegate 0))",
        "(module (func (throw $e)))",
        "(module (func (catch $e)))",
        "(module (func (br_on_exn 0 0)))",
        "(module (alias 0 \"x\" (func)))",
        "(module (alias $i \"x\" (func $f)) (func (call $f)))",
        "(module (alias 0 \"x\" (type $t)) (func (type $t)))",
        "(module (alias 0 \"x\" (memory)) (alias 0 \"y\" (table)) (alias 0 \"z\" (global)))",
        "(module (func) (alias 0 \"x\" (func)) (import \"a\" \"b\" (func)))",
        "(module (import \"a\" (func)))",
        "(module (import \"a\" (func $f (param i32))) (func (call $f (i32.const 0))))",
        "(module (import \"a\" \"b\" (func)) (import \"a\" (func)) (export \"e\" (func 1 \"x\")))",
        "(module (func (export \"a\") (export \"b\") (import \"m\" \"n\")))",
        "(module (func $f (export \"a\") (import \"m\" \"n\") (type 3)))",
        "(module (memory (export \"m\") (import \"a\" \"b\") 1))",
        "(module (memory (export \"m\") (data \"abc\" \"def\")))",
        "(module (memory i64 (data \"abc\")))",
        "(module (memory $m 1 2 shared) (memory i64 1))",
        "(module (table (export \"t\") (import \"a\" \"b\") 1 funcref))",
        "(module (table (export \"t\") funcref (elem 0 1 $f)))",
        "(module (table externref (elem (ref.null extern))))",
        "(module (table 1 (ref null $t)))",
        "(module (global (export \"g\") (import \"a\" \"b\") (mut i32)))",
        "(module (global (export \"g\") i32 (global.get (global 0 \"x\"))))",
        "(module (global i32 (i32.const 0)) (func) (import \"x\" \"y\" (func)))",
        "(module (@custom \"x\" (after code) \"data\"))",
        "(module (@custom \"x\" (before first) \"data\" \"more\") (@custom \"y\"))",
        "(module (@custom))",
        "(module (@name \"x\") (func (@name \"f\")))",
        "(module $m (@name \"n\") (func $f (@name \"g\") (param $p i32) (local $l (@name \"k\") i64)))",
        "(module binary \"\\00asm\\01\\00\\00\\00\")",
        "(module binary)",
        "(module quote \"(func)\")",
        "(module (func (f32.const 0x1.fffffep127) drop))",
        "(module (func (f32.const 0x1p128) drop))",
        "(module (func (f32.const 0x0.0000001p-200) drop))",
        "(module (func (f32.const -0x0p0) drop))",
        "(module (func (f32.const 0x.p0) drop))",
        "(module (func (f32.const 0x0.p-2147483648) drop))",
        "(module (func (f32.const 0x1p2147483647) drop))",
        "(module (func (f32.const 0x1p-2147483648) drop))",
        "(module (func (f32.const 0x1p99999999999) drop))",
        "(module (func (f32.const 0x0.00000000000000000000000000000000000000001p2147483647) drop))",
        "(module (func (f32.const 0xffffffffffffffffffffffffffffffffffffffffffffp-2147483648) drop))",
        "(module (func (f64.const 0x1.fffffffffffffp1023) drop))",
        "(module (func (f64.const 0x1.fffffffffffff8p1023) drop))",
        "(module (func (f64.const 0x0.0000000000001p-1022) drop))",
        "(module (func (f64.const 0x123456789abcdef0123456789abcdefp-2000) drop))",
        "(module (func (f64.const 1e400) drop))",
        "(module (func (f64.const 1e-400) drop))",
        "(module (func (f32.const nan:0x0) drop))",
        "(module (func (f32.const nan:0x7fffff) drop))",
        "(module (func (f32.const nan:0xffffffffffffffff) drop))",
        "(module (func (f64.const -nan:0xfffffffffffff) drop))",
        "(module (func (f32.const inf) (f32.const -inf) (f32.const +nan) drop drop drop))",
        "(module (func (f32.const 1_000.5_5e1_0) drop))",
        "(module (func (f32.const 0x_1p0) drop))",
        "(module (func (i32.const 99999999999) drop))",
        "(module (func (i32.const -2147483648) (i32.const 0xffff_ffff) (i32.const -0x8000_0000) drop drop drop))",
        "(module (func (i32.const -2147483649) drop))",
        "(module (func (i64.const -9223372036854775808) (i64.const 0xffffffffffffffff) drop drop))",
        "(module (func (i64.const -0x8000000000000001) drop))",
        "(module (func (i32.const 1__0) drop))",
        "(module (func (i32.const 0x) drop))",
        "(module (func (i32.const -) drop))",
        "(module (func (i32.const +) drop))",
        "(module (func (v128.const i8x16 0 1 2 3 4 5 6 7 8 9 10 11 12 13 14 255) drop))",
        "(module (func (v128.const i8x16 -128 1 2 3 4 5 6 7 8 9 10 11 12 13 14 256) drop))",
        "(module (func (v128.const i16x8 0 1 2 3 4 5 6 -32768) drop))",
        "(module (func (v128.const i32x4 0 1 2) drop))",
        "(module (func (v128.const f32x4 0x1p0 nan inf -0) drop))",
        "(module (func (v128.const f64x2 1e999 0) drop))",
        "(module (func (v128.const i64x2 0 0) (v128.const i64x2 1 1) (i8x16.shuffle 0 1 2 3 4 5 6 7 8 9 10 11 12 13 14 99) drop))",
        "(module (func (v128.const i64x2 0 0) (i8x16.extract_lane_s 255) drop))",
        "(module (func (v128.const i64x2 0 0) (i8x16.extract_lane_s 256) drop))",
        "(module (func (v128.const i64x2 0 0) (i8x16.extract_lane_s -1) drop))",
        "(module (func (i32.load offset=0xffffffff align=0x80000000 (i32.const 0)) drop))",
        "(module (func (i32.load offset=4294967296 (i32.const 0)) drop))",
        "(module (func (i32.load align=0 (i32.const 0)) drop))",
        "(module (func (i32.load align=3 (i32.const 0)) drop))",
        "(module (func (i32.load offset= (i32.const 0)) drop))",
        "(module (func (i32.load offset=0x (i32.const 0)) drop))",
        "(module (func (i32.load offset (i32.const 0)) drop))",
        "(module (func (i32.load align=1 offset=1 (i32.const 0)) drop))",
        "(module (func (i32.atomic.rmw.cmpxchg offset=1 (i32.const 0) (i32.const 0) (i32.const 0)) drop))",
        "(module (type $t (struct (field $f i32) (field $g (mut i64)))) (func (struct.get $t $g)))",
        "(module (type $t (struct (field $f i32) (field $f i64))))",
        "(module (type $t (array (mut (ref null $t)))) (func (array.len $t) (rtt.canon $u)))",
        "(module (type $t (func (param (ref $u)) (result (rtt 1 $t)))))",
        "(module (func (param (ref null func)) (result (ref extern) (ref null $t) i31ref eqref anyref)))",
        "(module (func (struct.new $t) (br_on_cast $l) (ref.test) (ref.cast)))",
        "(module (func (ref.null $t) (ref.null 5) (ref.null func) (ref.is_null)))",
        "(module (func (select (result i32 i64)) (select (result)) (select (result (ref $t)))))",
        "(module (func (param $a i32) (param $a i32)))",
        "(module (func $f) (func $f))",
        "(module (type $t (func)) (type $t (func)))",
        "(module (data $d \"a\") (data $d \"b\") (elem $e func) (elem $e func))",
        "(module (func (local.get $x)))",
        "(module (func (local.get 99)))",
        "(module (func (param $p i32) (type 5)))",
        "(module (func (type 0) (param i32)) (type (func)))",
        "(module (type (func (param i32))) (func (type 0) (param i64)))",
        "(module (type (func (param i32))) (func (type 0) (param $x i32) (local.get $x) drop))",
        "(module (type (func (param i32) (result i32))) (func (block (type 0) (param i32) (result i32))))",
        "(module (type (func (result i32))) (func (block (type 0)) drop))",
        "(module (type (func)) (func (block (type 0) (result i32) (i32.const 0)) drop))",
        "(module (func (block (type 7))))",
        "(module (func (block (param i32) (result i32 i32))))",
        "(module (func (block (result i32) (result i32))))",
        "(module (func (block $l (br $m))))",
        "(module (func (block $l (br $l) (br_if $l) (br_table $l 0 $l))))",
        "(module (func (block $l) (br $l)))",
        "(module (func block $l end $m))",
        "(module (func block $l else $l end $l))",
        "(module (func end end else end))",
        "(module (func (br_table)))",
        "(module (func (br_table 0)))",
        "(module (func (if (then) (else) (else))))",
        "(module (func (if)))",
        "(module (func (if (i32.const 0))))",
        "(module (func (if (then) (i32.const 0))))",
        "(module (func (then)))",
        "(module (func (else)))",
        "(module (func (if (result i32) (i32.const 1) (then (i32.const 2)) (else (i32.const 3))) drop))",
        "(module (func (i32.add (i32.const 1) (i32.add (i32.const 2) (i32.add (i32.const 3) (i32.const 4)))) drop))",
        "(module (func (block (loop (if (i32.const 0) (then (block (loop (br 3)))))))))",
        "(module (func (nop) nop (nop nop) ((nop))))",
        "(module (func ()))",
        "(module ())",
        "(module (()))",
        "()",
        "(",
        ")",
        "(module",
        "(module))",
        "(module) (module)",
        "(module (func)) (func)",
        "(func) (func) (memory 1) (export \"f\" (func 1))",
        "(type (func)) (import \"a\" \"b\" (func (type 0))) (start 0)",
        "(start 0) (start 1)",
        "(module (start $f))",
        "(module (start 99))",
        "(module (start))",
        "(module (export \"a\" (func 99)) (export \"a\" (memory 0)) (export \"a\" (table $t)))",
        "(module (export \"a\" (type 0)))",
        "(module (export \"a\"))",
        "(module (export (func 0)))",
        "(module (import \"a\"))",
        "(module (import \"a\" \"b\"))",
        "(module (import \"a\" \"b\" \"c\" (func)))",
        "(module (import \"a\" \"b\" (func) (func)))",
        "(module (import \"a\" \"b\" (func (type 0) (param i32))) (type (func)))",
        "(module (import \"a\" \"b\" (func $f (type $t))) (type $t (func)))",
        "(module (import \"a\" \"b\" (table 1 2 3 funcref)))",
        "(module (import \"a\" \"b\" (memory 2 1)))",
        "(module (import \"a\" \"b\" (memory 99999999999)))",
        "(module (import \"a\" \"b\" (global (mut (ref null $t)))))",
        "(module (memory 1) (memory 1) (table 1 funcref) (table 0 0 externref))",
        "(module (memory 0x1_0000) (memory 65537))",
        "(module (memory -1))",
        "(module (memory (data)))",
        "(module (table funcref (elem)))",
        "(module (table funcref (elem (ref.func 0) (ref.null func) (item ref.func 1))))",
        "(module (elem declare func 0 1) (elem func) (elem (offset (i32.const 0)) func 0))",
        "(module (elem (table 1) (offset i32.const 0) funcref (ref.func 0)))",
        "(module (elem $e (table $t) (i32.const 0) $f $g))",
        "(module (elem 0 (i32.const 0) 1 2 3))",
        "(module (elem (i32.const 0)))",
        "(module (elem))",
        "(module (data (i32.const 0)) (data) (data \"a\" \"b\") (data $d (memory 1) (offset (i32.const 0)) \"x\"))",
        "(module (data 0 (i32.const 0) \"a\") (data $m (i32.const 0) \"a\"))",
        "(module (data (global.get $g) \"a\"))",
        "(module (data \"\\00\\ff\\u{41}\\u{10ffff}\\n\\t\\\\\\'\\\"\"))",
        "(module (data \"\\u{110000}\"))",
        "(module (data \"\\u{d800}\"))",
        "(module (data \"\\u{}\"))",
        "(module (data \"\\u{ffffffffffffffff}\"))",
        "(module (data \"\\u{41\"))",
        "(module (data \"\\q\"))",
        "(module (data \"\\0\"))",
        "(module (data \"\\\"))",
        "(module (data \"unterminated))",
        "(module (func (export \"\\ff\\fe\")))",
        "(module (import \"\\ff\" \"\\fe\" (func)))",
        "(module (@custom \"\\ff\"))",
        "(module $ (func))",
        "(module $$ (func $) (func $!#%&'*+-./:<=>?@\\^_`|~))",
        "(module (func $a$b) (func (call $a$b)))",
        "(module (func) 42)",
        "(module 42)",
        "(module \"x\")",
        "(module (func \"x\"))",
        "(module (func 1 2 3))",
        "(module (func i32.const))",
        "(module (func (i32.const)))",
        "(module (func (i32.const 1 2)))",
        "(module (func (unknown.op)))",
        "(module (unknown))",
        "(module (func (local)) (func (local $x)) (func (local i32 i64 $x)))",
        "(module (func (param) (result) (local)))",
        "(module (func (result i32) (param i32)))",
        "(module (func (local i32) (param i32)))",
        "(module (func (param i32 i64) (param $x f32) (result f64 v128)))",
        "(module (type (func (param $x i32) (result i32))) (type (func (result) (param))))",
        "(module (func get_local 0 set_local 0 tee_local 0 get_global 0 set_global 0 current_memory grow_memory))",
        "(module (func i32.trunc_s/f32 i32.reinterpret/f32 i64.extend_s/i32 f32.convert_s/i32))",
        "(module (func (i32.const 0) (i32.const 0) i32.atomic.store (memory.atomic.notify) (atomic.fence)))",
        "(module (func memory.init 0 data.drop 0 memory.copy memory.fill table.init 0 elem.drop 0 table.copy))",
        "(module (func memory.init $d data.drop $d table.init $e elem.drop $e))",
        "(module (func table.init $t $e) (func table.copy $a $b) (func table.init 0 1) (func memory.init 1 2))",
        "(module (func memory.init) (func table.init) (func data.drop) (func elem.drop))",
        "(module (func (call)))",
        "(module (func (call $nowhere)))",
        "(module (func (call 4294967295) (call 4294967296)))",
        "(module (func (call_indirect)))",
        "(module (func (call_indirect $t (type $u))))",
        "(module (func (call_indirect 1 (type 0) (param i32))))",
        "(module (func (call_indirect (param $x i32))))",
        "(module (func (call_indirect (param i32) (type 0))))",
        "(module (func (return_call 0) (return_call_indirect (type 0)) (call_ref) (return_call_ref)))",
        "(; unclosed",
        "(; (; nested ;) ;) (module)",
        "(;;)(module(;;)(func(;;))(;;))",
        ";;",
        ";",
        "(module) ;",
        "(module) ;; trailing",
        "(module) (; trailing ;)",
        "(module) trailing",
        "(module (func)) ,",
        "[module]",
        "{module}",
        "(module (func [) ] { }))",
        "(module\t(func)",
        ")",
        "",
        " ",
        "\u{0}",
        "\u{7f}(module)",
        "(module (func (export \"\u{e9}\u{1F600}\")))",
        "(module (func $\u{e9}))",
        "\u{feff}(module)",
        "(module)\r\n",
        "(module (func (i32.const 0)\u{a0}drop))",
    ];
    for text in texts {
        if let Err(e) = parse_str(text) {
            assert!(!e.message().is_empty(), "{}", text);
        }
    }
}
