//! Reading a module from the text format, or taking it as it is where it is
//! binary already.
//!
//! The text format itself is the work of the `wast` crate; what it makes of
//! a text is not proved here, only named (see [`wat_binary`]). Texts on
//! which that crate may stop the process are not handed to it (see
//! [`plain`]).

use std::borrow::Cow;
use vstd::prelude::*;

verus! {

/// The error type of the `wast` crate. Nothing is known of its values.
#[verifier::external_type_specification]
#[verifier::external_body]
pub struct ExWastError(wast::Error);

/// The binary module that the `wast` crate makes of a text, or `None` where
/// it rejects the text.
pub uninterp spec fn wat_binary(text: Seq<char>) -> Option<Seq<u8>>;

/// Why an input could not be turned into a binary module.
#[derive(Debug)]
pub enum ErrorKind {
    /// The text was rejected: it does not lex or parse, or a name in it
    /// does not resolve.
    Wast(wast::Error),
    /// The input is neither a binary module nor text, or it is a text that
    /// is not read.
    Custom(String),
}

/// Errors from reading the text format.
#[derive(Debug)]
pub struct WatError {
    pub kind: Box<ErrorKind>,
}

/// The first four bytes of a binary module.
pub open spec fn magic() -> Seq<u8> {
    seq![0x00u8, 0x61u8, 0x73u8, 0x6Du8]
}

/// Whether the input opens like a binary module.
pub open spec fn is_binary(bytes: Seq<u8>) -> bool {
    bytes.len() >= 4 && bytes.take(4) == magic()
}

/// The length from which on a text is not read: the `wast` crate counts
/// lengths, and the digits of a number, in 32 bits, and stops the process
/// where a count does not fit.
pub const MAX_TEXT: usize = 0x1000_0000;

/// Whether the byte is one of those that the words of the text format are
/// made of: a letter, a digit, or one of
/// ``! # $ % & ' * + - . / : < = > ? @ \ ^ _ ` | ~``.
pub open spec fn word_byte(c: u8) -> bool {
    ||| 0x30 <= c <= 0x39
    ||| 0x41 <= c <= 0x5A
    ||| 0x61 <= c <= 0x7A
    ||| c == 0x21
    ||| 0x23 <= c <= 0x27
    ||| c == 0x2A
    ||| c == 0x2B
    ||| 0x2D <= c <= 0x2F
    ||| c == 0x3A
    ||| 0x3C <= c <= 0x40
    ||| c == 0x5C
    ||| 0x5E <= c <= 0x60
    ||| c == 0x7C
    ||| c == 0x7E
}

/// Whether the word `w` stands in `b` at `i`: its bytes are there, and
/// neither the byte before them nor the byte behind them belongs to a word.
pub open spec fn stands_at(b: Seq<u8>, i: int, w: Seq<u8>) -> bool {
    &&& 0 <= i
    &&& i + w.len() <= b.len()
    &&& b.subrange(i, i + w.len()) == w
    &&& (i == 0 || !word_byte(b[i - 1]))
    &&& (i + w.len() == b.len() || !word_byte(b[i + w.len()]))
}

/// Whether the word `w` stands anywhere in `b`.
pub open spec fn holds_word(b: Seq<u8>, w: Seq<u8>) -> bool {
    exists|i: int| stands_at(b, i, w)
}

/// Whether no byte of a word comes before `i` in `b`.
pub open spec fn leads(b: Seq<u8>, i: int) -> bool {
    forall|k: int| 0 <= k < i ==> !word_byte(#[trigger] b[k])
}

/// The word `outer`.
pub open spec fn outer_word() -> Seq<u8> {
    seq![0x6Fu8, 0x75u8, 0x74u8, 0x65u8, 0x72u8]
}

/// The word `event`.
pub open spec fn event_word() -> Seq<u8> {
    seq![0x65u8, 0x76u8, 0x65u8, 0x6Eu8, 0x74u8]
}

/// The word `instance`.
pub open spec fn instance_word() -> Seq<u8> {
    seq![0x69u8, 0x6Eu8, 0x73u8, 0x74u8, 0x61u8, 0x6Eu8, 0x63u8, 0x65u8]
}

/// The word `func.bind`.
pub open spec fn bind_word() -> Seq<u8> {
    seq![0x66u8, 0x75u8, 0x6Eu8, 0x63u8, 0x2Eu8, 0x62u8, 0x69u8, 0x6Eu8, 0x64u8]
}

/// The word `module`.
pub open spec fn module_word() -> Seq<u8> {
    seq![0x6Du8, 0x6Fu8, 0x64u8, 0x75u8, 0x6Cu8, 0x65u8]
}

/// The texts that are read, by their bytes: those shorter than
/// [`MAX_TEXT`] in which none of the words `outer`, `event`, `instance`
/// and `func.bind` stands, and `module` only as the first word.
///
/// The words are looked for in the whole text, in its strings and comments
/// too. They belong to references to outer modules, to exceptions, to the
/// binding of functions, and to modules and instances within a module and
/// their types. Where a text names an item of another module in one of
/// these, the `wast` crate stops the process where it should return an
/// error.
pub open spec fn plain(b: Seq<u8>) -> bool {
    &&& b.len() < MAX_TEXT
    &&& !holds_word(b, outer_word())
    &&& !holds_word(b, event_word())
    &&& !holds_word(b, instance_word())
    &&& !holds_word(b, bind_word())
    &&& forall|i: int| #[trigger] stands_at(b, i, module_word()) ==> leads(b, i)
}

/// The message of the error for a text that is not read.
pub open spec fn refused_text() -> Seq<char> {
    "text is too long or uses a form that is not supported"@
}

/// The message of the error for an input that is no text.
pub open spec fn refused_bytes() -> Seq<char> {
    "input bytes aren't valid utf-8"@
}

/// The binary module that a text stands for: what it encodes, and none
/// where the text is not read or is rejected.
pub open spec fn text_binary(text: Seq<char>) -> Option<Seq<u8>> {
    if plain(vstd::utf8::encode_utf8(text)) {
        wat_binary(text)
    } else {
        None
    }
}

/// The binary module that an input stands for: the input itself where it
/// opens like a binary module, else what its text stands for, and none
/// where the input is not UTF-8.
pub open spec fn module_of(bytes: Seq<u8>) -> Option<Seq<u8>> {
    if is_binary(bytes) {
        Some(bytes)
    } else if vstd::utf8::valid_utf8(bytes) {
        text_binary(vstd::utf8::decode_utf8(bytes))
    } else {
        None
    }
}

/// Runs the `wast` crate on a text: `ParseBuffer::new` lexes it,
/// `parser::parse` reads a `Wat` from the tokens, and `Module::encode`
/// resolves the names and writes the binary form.
///
/// The claim is that on a text that is [`plain`] the three calls return,
/// that the outcome depends on the text alone, and that [`wat_binary`] is
/// the name of that outcome. Other texts are left out because the crate
/// may stop the process on them.
#[verifier::external_body]
fn wast_encode(wat: &str) -> (r: Result<Vec<u8>, wast::Error>)
    requires
        plain(vstd::utf8::encode_utf8(wat@)),
    ensures
        match r {
            Ok(bytes) => wat_binary(wat@) == Some(bytes@),
            Err(_) => wat_binary(wat@) is None,
        },
{
    let buf = wast::parser::ParseBuffer::new(wat)?;
    let mut ast = wast::parser::parse::<wast::Wat>(&buf)?;
    ast.module.encode()
}

/// `wast::Error::set_text`: the error with the text it arose from attached,
/// for its message. Nothing is claimed of the result.
#[verifier::external_body]
fn wast_error_with_text(e: wast::Error, contents: &str) -> wast::Error {
    let mut e = e;
    e.set_text(contents);
    e
}

/// `std::str::from_utf8`: the bytes as text where they are valid UTF-8,
/// and nothing where they are not. The text of valid bytes encodes back to
/// the same bytes.
#[verifier::external_body]
fn text_of(bytes: &[u8]) -> (r: Option<&str>)
    ensures
        match r {
            Some(s) => vstd::utf8::valid_utf8(bytes@) && vstd::utf8::encode_utf8(s@) == bytes@,
            None => !vstd::utf8::valid_utf8(bytes@),
        },
{
    match std::str::from_utf8(bytes) {
        Ok(s) => Some(s),
        Err(_) => None,
    }
}

/// The `Display` form of an error of the `wast` crate, which is written
/// for people; nothing is claimed of it.
#[verifier::external_body]
fn wast_error_text(e: &wast::Error) -> String {
    format!("{}", e)
}

impl WatError {
    /// The message of this error: for a rejected text what the `wast` crate
    /// says of it, else the message that the error was made with.
    pub fn message(&self) -> (r: String)
        ensures
            *self.kind matches ErrorKind::Custom(msg) ==> r@ == msg@,
    {
        match &*self.kind {
            ErrorKind::Wast(e) => wast_error_text(e),
            ErrorKind::Custom(msg) => msg.clone(),
        }
    }
}

/// Whether the input opens like a binary module.
fn starts_with_magic(bytes: &[u8]) -> (r: bool)
    ensures
        r == is_binary(bytes@),
{
    if bytes.len() < 4 {
        return false;
    }
    let r: bool = bytes[0] == 0x00 && bytes[1] == 0x61 && bytes[2] == 0x73 && bytes[3] == 0x6D;
    proof {
        if r {
            assert(bytes@.take(4) =~= magic());
        } else {
            assert(bytes@.take(4)[0] == bytes@[0]);
            assert(bytes@.take(4)[1] == bytes@[1]);
            assert(bytes@.take(4)[2] == bytes@[2]);
            assert(bytes@.take(4)[3] == bytes@[3]);
        }
    }
    r
}

/// Whether the byte is one of those that words are made of.
fn is_word_byte(c: u8) -> (r: bool)
    ensures
        r == word_byte(c),
{
    (0x30 <= c && c <= 0x39) || (0x41 <= c && c <= 0x5A) || (0x61 <= c && c <= 0x7A) || c == 0x21
        || (0x23 <= c && c <= 0x27) || c == 0x2A || c == 0x2B || (0x2D <= c && c <= 0x2F) || c
        == 0x3A || (0x3C <= c && c <= 0x40) || c == 0x5C || (0x5E <= c && c <= 0x60) || c == 0x7C
        || c == 0x7E
}

/// Whether the word `w` stands in `b` at `i`.
fn stands(b: &[u8], i: usize, w: &Vec<u8>) -> (r: bool)
    requires
        i <= b.len(),
    ensures
        r == stands_at(b@, i as int, w@),
{
    if w.len() > b.len() - i {
        return false;
    }
    if i > 0 && is_word_byte(b[i - 1]) {
        return false;
    }
    let end: usize = i + w.len();
    if end < b.len() && is_word_byte(b[end]) {
        return false;
    }
    let mut k: usize = 0;
    while k < w.len()
        invariant
            k <= w.len(),
            i + w.len() <= b.len(),
            forall|j: int| 0 <= j < k ==> b@[i + j] == w@[j],
        decreases w.len() - k,
    {
        if b[i + k] != w[k] {
            assert(b@.subrange(i as int, i + w.len())[k as int] == b@[i + k]);
            return false;
        }
        k += 1;
    }
    assert(b@.subrange(i as int, i + w.len()) =~= w@);
    true
}

/// Whether a text with these bytes is read.
fn is_plain(b: &[u8]) -> (r: bool)
    ensures
        r == plain(b@),
{
    if b.len() >= MAX_TEXT {
        return false;
    }
    let outer: Vec<u8> = vec![0x6F, 0x75, 0x74, 0x65, 0x72];
    let event: Vec<u8> = vec![0x65, 0x76, 0x65, 0x6E, 0x74];
    let instance: Vec<u8> = vec![0x69, 0x6E, 0x73, 0x74, 0x61, 0x6E, 0x63, 0x65];
    let bind: Vec<u8> = vec![0x66, 0x75, 0x6E, 0x63, 0x2E, 0x62, 0x69, 0x6E, 0x64];
    let module: Vec<u8> = vec![0x6D, 0x6F, 0x64, 0x75, 0x6C, 0x65];
    assert(outer@ =~= outer_word());
    assert(event@ =~= event_word());
    assert(instance@ =~= instance_word());
    assert(bind@ =~= bind_word());
    assert(module@ =~= module_word());
    let mut seen: bool = false;
    let mut i: usize = 0;
    while i < b.len()
        invariant
            i <= b.len(),
            outer@ == outer_word(),
            event@ == event_word(),
            instance@ == instance_word(),
            bind@ == bind_word(),
            module@ == module_word(),
            forall|p: int| 0 <= p < i ==> !#[trigger] stands_at(b@, p, outer_word()),
            forall|p: int| 0 <= p < i ==> !#[trigger] stands_at(b@, p, event_word()),
            forall|p: int| 0 <= p < i ==> !#[trigger] stands_at(b@, p, instance_word()),
            forall|p: int| 0 <= p < i ==> !#[trigger] stands_at(b@, p, bind_word()),
            forall|p: int|
                0 <= p < i && #[trigger] stands_at(b@, p, module_word()) ==> leads(b@, p),
            seen == !leads(b@, i as int),
        decreases b.len() - i,
    {
        if stands(b, i, &outer) || stands(b, i, &event) || stands(b, i, &instance) || stands(
            b,
            i,
            &bind,
        ) {
            return false;
        }
        if seen && stands(b, i, &module) {
            return false;
        }
        if is_word_byte(b[i]) {
            seen = true;
        }
        proof {
            if leads(b@, i as int) && !word_byte(b@[i as int]) {
                assert(leads(b@, i + 1));
            }
        }
        i += 1;
    }
    true
}

/// Parses in-memory bytes as either the text format or a binary module.
///
/// An input that starts with `b"\0asm"` is returned as it is. Every other
/// input is read as UTF-8 text and handed to [`parse_str`]; where it is not
/// UTF-8 the error is of the kind `Custom`, with a message that says so.
pub fn parse_bytes<'a>(bytes: &'a [u8]) -> (r: Result<Cow<'a, [u8]>, WatError>)
    ensures
        match r {
            Ok(module) => module_of(bytes@) == Some(module@),
            Err(e) => {
                &&& module_of(bytes@) is None
                &&& !is_binary(bytes@)
                &&& *e.kind is Custom <==> !vstd::utf8::valid_utf8(bytes@) || !plain(bytes@)
                &&& *e.kind matches ErrorKind::Custom(msg) ==> msg@ == if vstd::utf8::valid_utf8(
                    bytes@,
                ) {
                    refused_text()
                } else {
                    refused_bytes()
                }
            },
        },
{
    if starts_with_magic(bytes) {
        return Ok(Cow::Borrowed(bytes));
    }
    match text_of(bytes) {
        Some(s) => {
            proof {
                vstd::utf8::encode_utf8_decode_utf8(s@);
            }
            match parse_str(s) {
                Ok(module) => Ok(Cow::Owned(module)),
                Err(e) => Err(e),
            }
        },
        None => {
            let msg: String = "input bytes aren't valid utf-8".to_owned();
            Err(WatError { kind: Box::new(ErrorKind::Custom(msg)) })
        },
    }
}

/// Parses an in-memory string as the text format, returning the module in
/// binary form.
///
/// A text that is not [`plain`] is not read: the error is of the kind
/// `Custom`. Every other text is handed to the `wast` crate, and the
/// function fails where the text does not lex or parse, or where a name in
/// it does not resolve; the error is then of the kind `Wast`.
pub fn parse_str(wat: &str) -> (r: Result<Vec<u8>, WatError>)
    ensures
        match r {
            Ok(module) => text_binary(wat@) == Some(module@),
            Err(e) => {
                &&& text_binary(wat@) is None
                &&& *e.kind is Custom <==> !plain(vstd::utf8::encode_utf8(wat@))
                &&& *e.kind matches ErrorKind::Custom(msg) ==> msg@ == refused_text()
            },
        },
{
    if !is_plain(wat.as_bytes()) {
        let msg: String = "text is too long or uses a form that is not supported".to_owned();
        return Err(WatError { kind: Box::new(ErrorKind::Custom(msg)) });
    }
    match wast_encode(wat) {
        Ok(module) => Ok(module),
        Err(e) => Err(WatError { kind: Box::new(ErrorKind::Wast(wast_error_with_text(e, wat))) }),
    }
}

} // verus!
