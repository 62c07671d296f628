use vstd::prelude::*;

verus! {

/// The guest program, in the WebAssembly text format. It imports a memory and
/// the host's `next_value`, and exports `sum`, which calls `next_value` until it
/// returns the end marker (-1) and returns the total of what came before.
pub const GUEST_WAT: &'static str = r#"
(module
    (import "env" "memory" (memory 1))
    (import "env" "next_value" (func $next_value (result i64)))
    (func (export "sum") (result i64)
        (local $sum i64)
        (local $tmp i64)
        i64.const 0
        local.set $sum
        (loop $counter_loop
            call $next_value
            local.set $tmp
            local.get $tmp
            i64.const -1
            i64.eq
            (if
                (then
                    local.get $sum
                    return
                )
            )
            local.get $sum
            local.get $tmp
            i64.add
            local.set $sum
            br $counter_loop
        )
        local.get $sum
    )
)
"#;

/// Why a guest module could not be had.
#[derive(Debug)]
pub enum GuestError {
    /// The text is not a valid module; the message says where and why.
    InvalidText(String),
}

/// The binary encoding of the module that `text` writes in the text format;
/// `None` where `text` is not a valid module.
pub uninterp spec fn wat_binary(text: Seq<char>) -> Option<Seq<u8>>;

/// Relies on wat::parse_str: it returns the binary encoding of the module that
/// the text describes, which depends on the text alone, or an error (here its
/// message) where the text is not a valid module.
#[verifier::external_body]
fn parse_wat(text: &str) -> (r: Result<Vec<u8>, String>)
    ensures
        r is Ok <==> wat_binary(text@) is Some,
        r is Ok ==> r->Ok_0@ == wat_binary(text@)->0,
{
    wat::parse_str(text).map_err(|e| e.to_string())
}

/// Turns the outcome of encoding a text module into the library's result:
/// the bytes as they are, or the message as an `InvalidText` error.
pub fn module_from_parse(parsed: Result<Vec<u8>, String>) -> (r: Result<Vec<u8>, GuestError>)
    ensures
        parsed is Ok <==> r is Ok,
        parsed is Ok ==> r->Ok_0@ == parsed->Ok_0@,
        parsed is Err ==> r == Err::<Vec<u8>, GuestError>(GuestError::InvalidText(parsed->Err_0)),
{
    match parsed {
        Ok(bytes) => Ok(bytes),
        Err(message) => Err(GuestError::InvalidText(message)),
    }
}

/// Encodes a module given in the text format in its binary form.
pub fn module_from_text(text: &str) -> (r: Result<Vec<u8>, GuestError>)
    ensures
        r is Ok <==> wat_binary(text@) is Some,
        r is Ok ==> r->Ok_0@ == wat_binary(text@)->0,
        r is Err ==> r->Err_0 is InvalidText,
{
    module_from_parse(parse_wat(text))
}

/// The binary encoding of the guest program.
pub fn guest_module() -> (r: Result<Vec<u8>, GuestError>)
    ensures
        r is Ok <==> wat_binary(GUEST_WAT@) is Some,
        r is Ok ==> r->Ok_0@ == wat_binary(GUEST_WAT@)->0,
{
    module_from_text(GUEST_WAT)
}

} // verus!
